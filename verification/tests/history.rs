use npns::fs_info::history::{decode_image, encode_image, History, ImageError, MAX_HISTORY};
use npns::fs_info::operations::{OperationFS, OperationUnitFS};

fn unit(i: usize) -> OperationUnitFS {
    OperationUnitFS::new(OperationFS::Copy, format!("/a/{}", i), format!("/b/{}", i))
}

#[test]
fn history_file_lives_in_the_storage_directory() {
    assert_eq!(History::file_in("/tmp/npns"), "/tmp/npns/history.bin");
    let h = History::new(Some("/tmp/npns/history.bin".to_string()), true);
    assert!(h.is_available());
    assert_eq!(h.file_path(), "/tmp/npns/history.bin");
    let off = History::new(Some("/x".to_string()), false);
    assert!(!off.is_available());
    let none = History::new(None, true);
    assert!(!none.is_available());
    assert_eq!(none.file_path(), "/dev/null");
}

#[test]
fn pop_returns_the_last_push() {
    let mut h = History::with_path("/tmp/h".to_string(), true);
    h.push(unit(1));
    h.push(unit(2));
    assert_eq!(h.pop(), Some(unit(2)));
    assert_eq!(h.log(), &[unit(1)]);
    assert_eq!(h.pop(), Some(unit(1)));
    assert_eq!(h.pop(), None);
}

#[test]
fn full_history_drops_the_oldest() {
    let mut h = History::with_path("/tmp/h".to_string(), true);
    for i in 0..MAX_HISTORY + 3 {
        h.push(unit(i));
    }
    assert_eq!(h.log().len(), MAX_HISTORY);
    assert_eq!(h.log()[0], unit(3));
    assert_eq!(h.log()[MAX_HISTORY - 1], unit(MAX_HISTORY + 2));
}

#[test]
fn disabled_history_keeps_nothing() {
    let mut h = History::new(None, false);
    h.push(unit(1));
    assert!(h.log().is_empty());
    assert_eq!(h.pop(), None);
}

#[test]
fn image_frames_records_after_the_header() {
    let img = encode_image(&vec![vec![7u8, 8, 9], vec![1u8]]).unwrap();
    assert_eq!(img, vec![b'H', b'S', b'T', b'1', 1, 3, 0, 0, 0, 7, 8, 9, 1, 0, 0, 0, 1]);
    assert_eq!(encode_image(&vec![]).unwrap(), b"HST1\x01".to_vec());
    let big = vec![0u8; 300];
    let img = encode_image(&vec![big.clone()]).unwrap();
    assert_eq!(&img[5..9], &[44, 1, 0, 0]);
    assert_eq!(img.len(), 5 + 4 + 300);
}

#[test]
fn image_refuses_empty_and_oversized_records() {
    assert_eq!(encode_image(&vec![vec![1u8], vec![]]), Err(ImageError::EmptyRecord));
    assert_eq!(encode_image(&vec![vec![0u8; 65537], vec![]]), Err(ImageError::OversizedRecord));
    assert_eq!(ImageError::EmptyRecord.message(), "Empty operation unit");
    assert_eq!(ImageError::OversizedRecord.message(), "Operation unit too large");
    assert!(encode_image(&vec![vec![0u8; 65536]]).is_ok());
}

#[test]
fn image_reads_back_what_was_written() {
    let records = vec![vec![7u8, 8, 9], vec![1u8], vec![0u8; 300], vec![5u8; 65536]];
    let img = encode_image(&records).unwrap();
    assert_eq!(decode_image(&img), records);
    assert!(decode_image(&encode_image(&vec![]).unwrap()).is_empty());
}

#[test]
fn image_reading_stops_at_a_bad_frame() {
    assert!(decode_image(b"HST1").is_empty());
    // A record cut short is not read, nor anything after it.
    let cut = [b'H', b'S', b'T', b'1', 1, 2, 0, 0, 0, 4, 5, 3, 0, 0, 0, 1];
    assert_eq!(decode_image(&cut), vec![vec![4u8, 5]]);
    // A zero length ends the records.
    let zero = [b'H', b'S', b'T', b'1', 1, 1, 0, 0, 0, 9, 0, 0, 0, 0, 1, 0, 0, 0, 2];
    assert_eq!(decode_image(&zero), vec![vec![9u8]]);
    // So does a length over the limit, and a trailing partial length.
    let over = [b'H', b'S', b'T', b'1', 1, 1, 0, 1, 0, 9];
    assert!(decode_image(&over).is_empty());
    let tail = [b'X', b'X', b'X', b'X', 0, 1, 0, 0, 0, 6, 1, 0];
    assert_eq!(decode_image(&tail), vec![vec![6u8]]);
}
