//! The undo history: a bounded stack of operation records, kept on disk in
//! a file of length-prefixed records after a short header.
use vstd::prelude::*;

use crate::fs_info::operations::OperationUnitFS;
use crate::path::{join, std_join};

verus! {

/// The most records the history keeps; the oldest goes first.
pub const MAX_HISTORY: usize = 80;

/// The largest record the file format accepts.
pub const MAX_RECORD: usize = 65536;

/// The file header: the magic bytes `HST1` and the format version 1.
pub open spec fn header() -> Seq<u8> {
    seq![72u8, 83u8, 84u8, 49u8, 1u8]
}

/// `n` as four little-endian bytes.
pub open spec fn le32(n: nat) -> Seq<u8> {
    seq![
        (n % 256) as u8,
        ((n / 256) % 256) as u8,
        ((n / 65536) % 256) as u8,
        ((n / 16777216) % 256) as u8,
    ]
}

/// The records, each prefixed by its length, one after the other.
pub open spec fn frames_of(records: Seq<Seq<u8>>) -> Seq<u8>
    decreases records.len(),
{
    if records.len() == 0 {
        Seq::empty()
    } else {
        frames_of(records.drop_last()) + le32(records.last().len()) + records.last()
    }
}

/// Whether every record can be framed: not empty and not over the limit.
pub open spec fn framable(records: Seq<Seq<u8>>) -> bool {
    forall|i: int| 0 <= i < records.len() ==> 0 < #[trigger] records[i].len() <= MAX_RECORD
}

/// The records after pushing `u`: appended when the history is kept, the
/// oldest dropped first when it is full.
pub open spec fn push_log(log: Seq<OperationUnitFS>, available: bool, u: OperationUnitFS) -> Seq<
    OperationUnitFS,
> {
    if !available {
        log
    } else if log.len() >= MAX_HISTORY {
        log.drop_first().push(u)
    } else {
        log.push(u)
    }
}

/// The newest record and the records without it; `None` when there is none.
pub open spec fn pop_log(log: Seq<OperationUnitFS>) -> (Option<OperationUnitFS>, Seq<OperationUnitFS>) {
    if log.len() == 0 {
        (None, log)
    } else {
        (Some(log.last()), log.drop_last())
    }
}

/// Whether record `i` is the first that cannot be framed.
pub open spec fn first_unframable(records: Seq<Seq<u8>>, i: int) -> bool {
    &&& 0 <= i < records.len()
    &&& !(0 < records[i].len() <= MAX_RECORD)
    &&& forall|j: int| 0 <= j < i ==> 0 < #[trigger] records[j].len() <= MAX_RECORD
}

/// The undo history.
pub struct History {
    file_path: String,
    available: bool,
    count: usize,
    log: Vec<OperationUnitFS>,
}

impl History {
    /// Where the history is stored.
    pub closed spec fn path_view(&self) -> Seq<char> {
        self.file_path@
    }

    /// Whether the history is kept at all.
    pub closed spec fn available_view(&self) -> bool {
        self.available
    }

    /// The records, oldest first.
    pub closed spec fn log_view(&self) -> Seq<OperationUnitFS> {
        self.log@
    }

    /// The number of records, and at most `MAX_HISTORY` of them; a history
    /// that is not kept holds none.
    pub closed spec fn wf(&self) -> bool {
        &&& self.count == self.log@.len()
        &&& self.count <= MAX_HISTORY
        &&& !self.available ==> self.count == 0
    }

    /// The file of the history inside a storage directory.
    pub fn file_in(storage: &str) -> (p: String)
        ensures
            p@ == std_join(storage@, "history.bin"@),
    {
        join(storage, "history.bin")
    }

    /// A history stored at `file_path` when the storage was found and the
    /// file could be reset to an empty history (`init_ok`); without storage
    /// it is disabled and points to `/dev/null`. It starts empty.
    pub fn new(file_path: Option<String>, init_ok: bool) -> (h: Self)
        ensures
            h.wf(),
            h.log_view() == Seq::<OperationUnitFS>::empty(),
            match file_path {
                Some(p) => h.path_view() == p@ && h.available_view() == init_ok,
                None => h.path_view() == "/dev/null"@ && !h.available_view(),
            },
    {
        match file_path {
            Some(p) => Self::with_path(p, init_ok),
            None => Self::disabled(),
        }
    }

    /// A history stored at `path`, kept when its file could be reset.
    pub fn with_path(path: String, init_ok: bool) -> (h: Self)
        ensures
            h.wf(),
            h.log_view() == Seq::<OperationUnitFS>::empty(),
            h.path_view() == path@,
            h.available_view() == init_ok,
    {
        History { file_path: path, available: init_ok, count: 0, log: Vec::new() }
    }

    fn disabled() -> (h: Self)
        ensures
            h.wf(),
            h.log_view() == Seq::<OperationUnitFS>::empty(),
            h.path_view() == "/dev/null"@,
            !h.available_view(),
    {
        History {
            file_path: String::from_str("/dev/null"),
            available: false,
            count: 0,
            log: Vec::new(),
        }
    }

    pub fn is_available(&self) -> (b: bool)
        ensures
            b == self.available_view(),
    {
        self.available
    }

    pub fn file_path(&self) -> (p: &str)
        ensures
            p@ == self.path_view(),
    {
        self.file_path.as_str()
    }

    /// The records, oldest first.
    pub fn log(&self) -> (s: &[OperationUnitFS])
        ensures
            s@ == self.log_view(),
    {
        self.log.as_slice()
    }

    /// Appends a record; when the history is full the oldest record goes
    /// first. A history that is not kept ignores it.
    pub fn push(&mut self, unit: OperationUnitFS)
        requires
            old(self).wf(),
        ensures
            final(self).wf(),
            final(self).available_view() == old(self).available_view(),
            final(self).path_view() == old(self).path_view(),
            final(self).log_view() == push_log(
                old(self).log_view(),
                old(self).available_view(),
                unit,
            ),
    {
        if !self.available {
            return;
        }
        if self.count >= MAX_HISTORY {
            self.pop_front();
        }
        self.log.push(unit);
        self.count = self.count + 1;
    }

    /// Removes and returns the newest record; `None` when there is none or
    /// the history is not kept.
    pub fn pop(&mut self) -> (r: Option<OperationUnitFS>)
        requires
            old(self).wf(),
        ensures
            final(self).wf(),
            final(self).available_view() == old(self).available_view(),
            final(self).path_view() == old(self).path_view(),
            (r, final(self).log_view()) == pop_log(old(self).log_view()),
    {
        if !self.available {
            return None;
        }
        match self.log.pop() {
            Some(u) => {
                self.count = self.count - 1;
                Some(u)
            },
            None => None,
        }
    }

    /// Drops the oldest record.
    fn pop_front(&mut self)
        requires
            old(self).wf(),
            old(self).log_view().len() > 0,
        ensures
            final(self).wf(),
            final(self).available_view() == old(self).available_view(),
            final(self).path_view() == old(self).path_view(),
            final(self).log_view() == old(self).log_view().drop_first(),
    {
        self.log.remove(0);
        self.count = self.count - 1;
    }
}

/// Appends `n` as four little-endian bytes.
fn push_le32(out: &mut Vec<u8>, n: u32)
    ensures
        final(out)@ == old(out)@ + le32(n as nat),
{
    out.push((n % 256) as u8);
    out.push(((n / 256) % 256) as u8);
    out.push(((n / 65536) % 256) as u8);
    out.push(((n / 16777216) % 256) as u8);
    assert(final(out)@ =~= old(out)@ + le32(n as nat));
}

/// Why the history cannot be written.
#[derive(Debug, Clone, Copy, PartialEq, Eq, Structural)]
pub enum ImageError {
    /// A record encoded to no bytes.
    EmptyRecord,
    /// A record is over the size the file format accepts.
    OversizedRecord,
}

impl ImageError {
    /// The message of the error.
    pub fn message(&self) -> (s: String)
        ensures
            *self is EmptyRecord ==> s@ == "Empty operation unit"@,
            *self is OversizedRecord ==> s@ == "Operation unit too large"@,
    {
        match self {
            ImageError::EmptyRecord => String::from_str("Empty operation unit"),
            ImageError::OversizedRecord => String::from_str("Operation unit too large"),
        }
    }
}

/// The content of the history file for the given encoded records, oldest
/// first: the header, then each record prefixed by its length. An empty
/// record, or one over `MAX_RECORD` bytes, is refused.
pub fn encode_image(records: &Vec<Vec<u8>>) -> (r: Result<Vec<u8>, ImageError>)
    ensures
        match r {
            Ok(img) => framable(records@.map_values(|v: Vec<u8>| v@)) && img@ == header()
                + frames_of(records@.map_values(|v: Vec<u8>| v@)),
            Err(e) => exists|i: int|
                first_unframable(records@.map_values(|v: Vec<u8>| v@), i) && (e is EmptyRecord
                    <==> records@[i]@.len() == 0),
        },
{
    let ghost recs = records@.map_values(|v: Vec<u8>| v@);
    let mut img: Vec<u8> = Vec::new();
    img.push(72u8);
    img.push(83u8);
    img.push(84u8);
    img.push(49u8);
    img.push(1u8);
    assert(img@ =~= header() + frames_of(recs.take(0)));
    let mut i: usize = 0;
    while i < records.len()
        invariant
            i <= records.len(),
            recs == records@.map_values(|v: Vec<u8>| v@),
            recs.len() == records.len(),
            img@ == header() + frames_of(recs.take(i as int)),
            forall|j: int| 0 <= j < i ==> 0 < #[trigger] recs[j].len() <= MAX_RECORD,
        decreases records.len() - i,
    {
        let rec = &records[i];
        assert(recs[i as int] == rec@);
        if rec.len() == 0 {
            assert(first_unframable(recs, i as int));
            return Err(ImageError::EmptyRecord);
        }
        if rec.len() > MAX_RECORD {
            assert(first_unframable(recs, i as int));
            return Err(ImageError::OversizedRecord);
        }
        let len: u32 = rec.len() as u32;
        push_le32(&mut img, len);
        let mut k: usize = 0;
        let ghost before = img@;
        while k < rec.len()
            invariant
                k <= rec.len(),
                img@ == before + rec@.take(k as int),
            decreases rec.len() - k,
        {
            img.push(rec[k]);
            k = k + 1;
            assert(img@ =~= before + rec@.take(k as int));
        }
        proof {
            let t = recs.take(i + 1);
            assert(t.drop_last() =~= recs.take(i as int));
            assert(t.last() == rec@);
            assert(rec@.take(rec.len() as int) =~= rec@);
            assert(img@ =~= header() + frames_of(t));
        }
        i = i + 1;
    }
    assert(recs.take(i as int) =~= recs);
    Ok(img)
}

/// The number that the first four bytes of `b` stand for, little-endian.
pub open spec fn le32_value(b: Seq<u8>) -> nat {
    (b[0] + 256 * b[1] + 65536 * b[2] + 16777216 * b[3]) as nat
}

/// The records framed in `bytes`, read from the front: each is a length in
/// four little-endian bytes followed by that many bytes. The reading stops
/// where fewer than four bytes are left, or at a length that is zero, over
/// `MAX_RECORD`, or longer than what is left.
pub open spec fn records_of(bytes: Seq<u8>) -> Seq<Seq<u8>>
    decreases bytes.len(),
{
    if bytes.len() < 4 {
        Seq::empty()
    } else {
        let n = le32_value(bytes) as int;
        if n == 0 || n > MAX_RECORD || bytes.len() < 4 + n {
            Seq::empty()
        } else {
            seq![bytes.subrange(4, 4 + n)] + records_of(bytes.skip(4 + n))
        }
    }
}

/// The records of a history file: those framed after its five header
/// bytes (the header itself is not checked).
pub open spec fn image_records(img: Seq<u8>) -> Seq<Seq<u8>> {
    if img.len() < 5 {
        Seq::empty()
    } else {
        records_of(img.skip(5))
    }
}

/// The records of the history file `img`, oldest first (see
/// `image_records`).
pub fn decode_image(img: &[u8]) -> (r: Vec<Vec<u8>>)
    ensures
        r@.map_values(|v: Vec<u8>| v@) == image_records(img@),
{
    let mut out: Vec<Vec<u8>> = Vec::new();
    if img.len() < 5 {
        assert(out@.map_values(|v: Vec<u8>| v@) =~= image_records(img@));
        return out;
    }
    let mut pos: usize = 5;
    assert(out@.map_values(|v: Vec<u8>| v@) + records_of(img@.skip(pos as int)) =~= image_records(
        img@,
    ));
    while pos < img.len()
        invariant
            5 <= pos <= img.len(),
            out@.map_values(|v: Vec<u8>| v@) + records_of(img@.skip(pos as int)) == image_records(
                img@,
            ),
        ensures
            out@.map_values(|v: Vec<u8>| v@) == image_records(img@),
        decreases img.len() - pos,
    {
        let ghost rest = img@.skip(pos as int);
        let ghost before = out@.map_values(|v: Vec<u8>| v@);
        if img.len() - pos < 4 {
            assert(records_of(rest) =~= Seq::<Seq<u8>>::empty());
            assert(before + records_of(rest) =~= before);
            assert(out@.map_values(|v: Vec<u8>| v@) =~= before);
            break;
        }
        let n: u64 = img[pos] as u64 + 256 * (img[pos + 1] as u64) + 65536 * (img[pos + 2] as u64)
            + 16777216 * (img[pos + 3] as u64);
        assert(n == le32_value(rest));
        if n == 0 || n > MAX_RECORD as u64 || ((img.len() - pos - 4) as u64) < n {
            assert(records_of(rest) =~= Seq::<Seq<u8>>::empty());
            assert(before + records_of(rest) =~= before);
            assert(out@.map_values(|v: Vec<u8>| v@) =~= before);
            break;
        }
        let len = n as usize;
        let mut rec: Vec<u8> = Vec::new();
        let mut k: usize = 0;
        while k < len
            invariant
                k <= len,
                pos + 4 + len <= img.len(),
                rec@ == img@.subrange(pos + 4, pos + 4 + k),
            decreases len - k,
        {
            rec.push(img[pos + 4 + k]);
            k = k + 1;
            assert(rec@ =~= img@.subrange(pos + 4, pos + 4 + k));
        }
        proof {
            assert(rec@ =~= rest.subrange(4, 4 + len as int));
            assert(rest.skip(4 + len as int) =~= img@.skip(pos + 4 + len));
            assert(records_of(rest) == seq![rec@] + records_of(img@.skip(pos + 4 + len)));
        }
        out.push(rec);
        pos = pos + 4 + len;
        proof {
            assert(out@.map_values(|v: Vec<u8>| v@) =~= before.push(rec@));
            assert(before + (seq![rec@] + records_of(img@.skip(pos as int))) =~= before.push(rec@)
                + records_of(img@.skip(pos as int)));
        }
    }
    out
}

/// Four little-endian bytes give back the number they were made from.
proof fn lemma_le32_value(n: u32)
    ensures
        le32_value(le32(n as nat)) == n,
{
    assert(n == (n % 256) + 256 * ((n / 256) % 256) + 65536 * ((n / 65536) % 256) + 16777216 * (
    n / 16777216)) by (bit_vector);
    assert(n / 16777216 < 256) by (bit_vector);
}

/// The frames of records read from the front: the first record's frame,
/// then the frames of the others.
proof fn lemma_frames_front(records: Seq<Seq<u8>>)
    requires
        records.len() > 0,
    ensures
        frames_of(records) == le32(records[0].len()) + records[0] + frames_of(records.drop_first()),
    decreases records.len(),
{
    if records.len() == 1 {
        assert(records.drop_last() =~= Seq::<Seq<u8>>::empty());
        assert(records.drop_first() =~= Seq::<Seq<u8>>::empty());
        assert(frames_of(records) =~= le32(records[0].len()) + records[0]);
    } else {
        let d = records.drop_last();
        lemma_frames_front(d);
        assert(d.drop_first() =~= records.drop_first().drop_last());
        assert(records.drop_first().last() == records.last());
        assert(frames_of(records) =~= le32(records[0].len()) + records[0] + frames_of(
            records.drop_first(),
        ));
    }
}

/// Reading framed records gives back the records that were framed.
proof fn lemma_records_of_frames(records: Seq<Seq<u8>>)
    requires
        framable(records),
    ensures
        records_of(frames_of(records)) == records,
    decreases records.len(),
{
    if records.len() == 0 {
        assert(records_of(frames_of(records)) =~= records);
    } else {
        let r0 = records[0];
        let rest = records.drop_first();
        assert(framable(rest)) by {
            assert forall|i: int| 0 <= i < rest.len() implies 0 < #[trigger] rest[i].len()
                <= MAX_RECORD by {
                assert(rest[i] == records[i + 1]);
            }
        }
        lemma_frames_front(records);
        lemma_records_of_frames(rest);
        assert(0 < records[0].len() <= MAX_RECORD);
        let b = frames_of(records);
        let n = r0.len();
        lemma_le32_value(n as u32);
        assert(b.take(4) =~= le32(n));
        assert(le32_value(b) == le32_value(le32(n)));
        assert(b.subrange(4, 4 + n as int) =~= r0);
        assert(b.skip(4 + n as int) =~= frames_of(rest));
        assert(records_of(b) =~= seq![r0] + rest);
        assert(seq![r0] + rest =~= records);
    }
}

/// What is read back from a history file is what was written to it:
/// decoding the image of framable records gives those records.
pub proof fn lemma_image_round_trip(records: Seq<Seq<u8>>)
    requires
        framable(records),
    ensures
        image_records(header() + frames_of(records)) == records,
{
    let img = header() + frames_of(records);
    assert(img.skip(5) =~= frames_of(records));
    lemma_records_of_frames(records);
}

/// Pushing a record and popping at once gives the record back and leaves
/// the records as they were, while the history is kept and not full.
pub proof fn lemma_pop_after_push(log: Seq<OperationUnitFS>, u: OperationUnitFS)
    requires
        log.len() < MAX_HISTORY,
    ensures
        pop_log(push_log(log, true, u)) == (Some(u), log),
{
    assert(log.push(u).drop_last() =~= log);
}

/// A history never holds more than `MAX_HISTORY` records: a push on a full
/// history keeps it full, dropping the oldest.
pub proof fn lemma_push_bounded(log: Seq<OperationUnitFS>, available: bool, u: OperationUnitFS)
    requires
        log.len() <= MAX_HISTORY,
    ensures
        push_log(log, available, u).len() <= MAX_HISTORY,
        available && log.len() == MAX_HISTORY ==> push_log(log, available, u).len() == MAX_HISTORY
            && push_log(log, available, u).last() == u
            && push_log(log, available, u)[0] == log[1],
{
}

} // verus!
