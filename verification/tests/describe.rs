use npns::fs_info::describe::{content_description, dir_description, file_description, Description, FileFacts};
use npns::fs_info::file_info::FileInfo;
use npns::fs_info::fs_core::{Event, FileSystemCore};
use npns::fs_info::history::History;

fn facts(is_dir: bool, is_symlink: bool, target: Option<&str>, head: Option<&[u8]>) -> Option<FileFacts> {
    Some(FileFacts {
        is_dir,
        is_symlink,
        link_target: target.map(|t| t.to_string()),
        head: head.map(|h| h.to_vec()),
    })
}

#[test]
fn directory_description_lists_ten_names() {
    assert_eq!(dir_description(None), "Fail to get preview");
    let names: Vec<String> = (0..12).map(|i| format!("n{}", i)).collect();
    let text = dir_description(Some(names));
    assert_eq!(text.lines().count(), 10);
    assert!(text.starts_with("n0\nn1\n"));
    assert!(text.ends_with("n9\n"));
    assert_eq!(dir_description(Some(vec!["a".to_string()])), "a\n");
}

#[test]
fn file_description_prefers_content_then_extension() {
    let png = [0x89u8, b'P', b'N', b'G', 0x0D, 0x0A, 0x1A, 0x0A, 0, 0, 0, 0];
    assert_eq!(file_description("/w/pic", facts(false, false, None, Some(&png))), "image/png");
    assert_eq!(file_description("/w/notes.txt", facts(false, false, None, Some(b"hello"))), "txt file");
    assert_eq!(file_description("/w/blob", facts(false, false, None, Some(b"hello"))), "data");
    assert_eq!(file_description("/w/d", facts(true, false, None, None)), "directory");
    assert_eq!(file_description("/w/l", facts(false, true, Some("/t"), None)), "symbolic link -> /t");
    assert_eq!(file_description("/w/l", facts(false, true, None, None)), "symbolic link");
    assert_eq!(file_description("/w/x", facts(false, false, None, None)), "Fail to get preview");
    assert_eq!(file_description("/w/x", None), "Fail to get preview");
}

#[test]
fn description_of_an_entry_says_what_it_needs() {
    let (mut core, _) = FileSystemCore::init("/w".to_string(), History::new(None, false));
    let items = vec![
        FileInfo::new("d".to_string(), "/w/d".to_string(), 0, true),
        FileInfo::new("f".to_string(), "/w/f".to_string(), 1, false),
    ];
    core.resume(Event::Listing(items, None));
    core.resume(Event::Go);
    assert!(matches!(core.get_description(0), Description::Dir(ref p) if p == "/w/d"));
    assert!(matches!(core.get_description(1), Description::File(ref p) if p == "/w/f"));
    assert!(matches!(core.get_description(2), Description::Text(ref t) if t == "Nothing Here"));
}

#[test]
fn content_description_prefers_the_mime_type() {
    assert_eq!(content_description("/w/pic", Some("image/png".to_string())), "image/png");
    assert_eq!(content_description("/w/notes.txt", Some("text/x".to_string())), "text/x");
    assert_eq!(content_description("/w/notes.txt", None), "txt file");
    assert_eq!(content_description("/w/blob", None), "data");
}
