//! Signature sniffing and the size ceiling for uploaded images.

use vstd::prelude::*;
use crate::limits::MAX_IMAGE_SIZE;

verus! {

/// Number of leading bytes that identify the image format.
pub const SIGNATURE_LEN: usize = 8;

/// The magic prefix of a PNG file.
pub open spec fn png_signature() -> Seq<u8> {
    seq![0x89u8, 0x50u8, 0x4Eu8, 0x47u8, 0x0Du8, 0x0Au8, 0x1Au8, 0x0Au8]
}

/// Whether `bytes` begins with the PNG signature. Fewer than eight bytes never do.
pub open spec fn starts_with_signature(bytes: Seq<u8>) -> bool {
    bytes.len() >= 8 && bytes.subrange(0, 8) == png_signature()
}

/// Whether an image of `size` bytes is over the ceiling.
pub open spec fn over_limit(size: int) -> bool {
    size > MAX_IMAGE_SIZE
}

/// Classifies a byte prefix as "known binary format" or not.
pub fn has_png_signature(bytes: &[u8]) -> (known: bool)
    ensures
        known == starts_with_signature(bytes@),
{
    if bytes.len() < SIGNATURE_LEN {
        return false;
    }
    let known = bytes[0] == 0x89 && bytes[1] == 0x50 && bytes[2] == 0x4E && bytes[3] == 0x47
        && bytes[4] == 0x0D && bytes[5] == 0x0A && bytes[6] == 0x1A && bytes[7] == 0x0A;
    proof {
        let head = bytes@.subrange(0, 8);
        if known {
            assert(head =~= png_signature());
        } else {
            assert(head[0] == bytes@[0] && head[1] == bytes@[1] && head[2] == bytes@[2]
                && head[3] == bytes@[3] && head[4] == bytes@[4] && head[5] == bytes@[5]
                && head[6] == bytes@[6] && head[7] == bytes@[7]);
        }
    }
    known
}

/// Classifies an accumulated size as over the ceiling or not.
pub fn exceeds_image_limit(size: usize) -> (over: bool)
    ensures
        over == over_limit(size as int),
{
    size > MAX_IMAGE_SIZE
}

/// How the store answers a finished upload.
#[derive(Clone, Copy, Debug, PartialEq, Eq, Structural)]
pub enum Outcome {
    /// Every chunk was written; the file holds the upload.
    Accepted,
    /// The upload went over the ceiling; the partial file has been removed.
    TooLarge,
    /// The first chunk did not begin with the signature; nothing was written.
    WrongFormat,
}

/// What to do with one arriving chunk.
#[derive(Clone, Copy, Debug, PartialEq, Eq, Structural)]
pub enum ChunkVerdict {
    /// Append the chunk to the file and go on.
    Write,
    /// Stop, remove the partial file and report `Outcome::TooLarge`.
    TooLarge,
    /// Stop without writing and report `Outcome::WrongFormat`.
    WrongFormat,
}

/// Mathematical state of a scan: bytes admitted so far, whether the
/// signature has been seen, and the verdict that ended the scan, if any.
pub struct ScanView {
    pub received: nat,
    pub checked_format: bool,
    pub stopped: Option<Outcome>,
}

/// State of a scan before the first chunk.
pub open spec fn scan_start() -> ScanView {
    ScanView { received: 0, checked_format: false, stopped: None }
}

/// The verdict on `chunk` in state `s`. The size is tested before the
/// signature, and a scan that has stopped repeats its verdict.
pub open spec fn verdict_of(s: ScanView, chunk: Seq<u8>) -> ChunkVerdict {
    match s.stopped {
        Some(Outcome::TooLarge) => ChunkVerdict::TooLarge,
        Some(_) => ChunkVerdict::WrongFormat,
        None => if over_limit((s.received + chunk.len()) as int) {
            ChunkVerdict::TooLarge
        } else if !s.checked_format && !starts_with_signature(chunk) {
            ChunkVerdict::WrongFormat
        } else {
            ChunkVerdict::Write
        },
    }
}

/// The state after `chunk` has been judged in state `s`.
pub open spec fn after_chunk(s: ScanView, chunk: Seq<u8>) -> ScanView {
    match verdict_of(s, chunk) {
        ChunkVerdict::Write => ScanView {
            received: s.received + chunk.len(),
            checked_format: true,
            stopped: None,
        },
        ChunkVerdict::TooLarge => ScanView { stopped: Some(Outcome::TooLarge), ..s },
        ChunkVerdict::WrongFormat => ScanView { stopped: Some(Outcome::WrongFormat), ..s },
    }
}

/// The outcome reported when the stream ends in state `s`.
pub open spec fn outcome_of(s: ScanView) -> Outcome {
    match s.stopped {
        Some(o) => o,
        None => Outcome::Accepted,
    }
}

/// The state after every chunk of `chunks` has been judged, first to last.
pub open spec fn scan_after(chunks: Seq<Seq<u8>>) -> ScanView
    decreases chunks.len(),
{
    if chunks.len() == 0 {
        scan_start()
    } else {
        after_chunk(scan_after(chunks.drop_last()), chunks.last())
    }
}

/// The bytes that a store following the verdicts has appended to the file.
pub open spec fn written(chunks: Seq<Seq<u8>>) -> Seq<u8>
    decreases chunks.len(),
{
    if chunks.len() == 0 {
        Seq::empty()
    } else if verdict_of(scan_after(chunks.drop_last()), chunks.last()) == ChunkVerdict::Write {
        written(chunks.drop_last()) + chunks.last()
    } else {
        written(chunks.drop_last())
    }
}

/// The answer to a whole upload, stated without running the scan: a first
/// chunk over the ceiling is too large, else a first chunk without the
/// signature has the wrong format, else the total size decides.
pub open spec fn upload_outcome(chunks: Seq<Seq<u8>>) -> Outcome {
    if chunks.len() == 0 {
        Outcome::Accepted
    } else if over_limit(chunks[0].len() as int) {
        Outcome::TooLarge
    } else if !starts_with_signature(chunks[0]) {
        Outcome::WrongFormat
    } else if over_limit(chunks.flatten().len() as int) {
        Outcome::TooLarge
    } else {
        Outcome::Accepted
    }
}

/// What the file behind the handle holds once the store has answered:
/// the whole upload, an empty file, or no file at all.
pub open spec fn stored(chunks: Seq<Seq<u8>>) -> Option<Seq<u8>> {
    match upload_outcome(chunks) {
        Outcome::Accepted => Some(chunks.flatten()),
        Outcome::WrongFormat => Some(Seq::empty()),
        Outcome::TooLarge => None,
    }
}

/// The views of the chunks of a buffered upload.
pub open spec fn views_of(chunks: Seq<Vec<u8>>) -> Seq<Seq<u8>> {
    chunks.map_values(|c: Vec<u8>| c@)
}

/// Running judgement of one upload, fed chunk by chunk.
pub struct ImageScan {
    received: usize,
    checked_format: bool,
    stopped: Option<Outcome>,
}

impl View for ImageScan {
    type V = ScanView;

    closed spec fn view(&self) -> ScanView {
        ScanView {
            received: self.received as nat,
            checked_format: self.checked_format,
            stopped: self.stopped,
        }
    }
}

impl ImageScan {
    /// A scan never holds more than the ceiling, and never reports
    /// `Accepted` before the stream has ended.
    #[verifier::type_invariant]
    spec fn wf(&self) -> bool {
        &&& self.received <= MAX_IMAGE_SIZE
        &&& self.stopped != Some(Outcome::Accepted)
    }

    /// Starts a scan.
    pub fn new() -> (scan: ImageScan)
        ensures
            scan@ == scan_start(),
    {
        ImageScan { received: 0, checked_format: false, stopped: None }
    }

    /// Judges the next chunk of the upload.
    pub fn feed(&mut self, chunk: &[u8]) -> (verdict: ChunkVerdict)
        ensures
            verdict == verdict_of(old(self)@, chunk@),
            final(self)@ == after_chunk(old(self)@, chunk@),
    {
        proof {
            use_type_invariant(&*self);
        }
        match self.stopped {
            Some(Outcome::TooLarge) => { return ChunkVerdict::TooLarge; },
            Some(_) => { return ChunkVerdict::WrongFormat; },
            None => {},
        }
        if chunk.len() > MAX_IMAGE_SIZE - self.received {
            self.stopped = Some(Outcome::TooLarge);
            return ChunkVerdict::TooLarge;
        }
        if !self.checked_format && !has_png_signature(chunk) {
            self.stopped = Some(Outcome::WrongFormat);
            return ChunkVerdict::WrongFormat;
        }
        self.received = self.received + chunk.len();
        self.checked_format = true;
        ChunkVerdict::Write
    }

    /// Bytes admitted so far: never more than the ceiling.
    pub fn received(&self) -> (n: usize)
        ensures
            n == self@.received,
            n <= MAX_IMAGE_SIZE,
    {
        proof {
            use_type_invariant(self);
        }
        self.received
    }

    /// Ends the scan: what the store reports for the whole upload.
    pub fn finish(self) -> (outcome: Outcome)
        ensures
            outcome == outcome_of(self@),
    {
        match self.stopped {
            Some(o) => o,
            None => Outcome::Accepted,
        }
    }
}

/// What holds of the scan state after any sequence of chunks.
proof fn lemma_scan_invariant(chunks: Seq<Seq<u8>>)
    ensures
        scan_after(chunks).stopped != Some(Outcome::Accepted),
        scan_after(chunks).stopped is None ==> {
            &&& scan_after(chunks).received == chunks.flatten().len()
            &&& scan_after(chunks).received <= MAX_IMAGE_SIZE
            &&& scan_after(chunks).checked_format == (chunks.len() > 0)
            &&& written(chunks) == chunks.flatten()
            &&& chunks.len() > 0 ==> !over_limit(chunks[0].len() as int) && starts_with_signature(
                chunks[0],
            )
        },
        scan_after(chunks).stopped == Some(Outcome::WrongFormat) ==> {
            &&& chunks.len() > 0
            &&& !over_limit(chunks[0].len() as int)
            &&& !starts_with_signature(chunks[0])
            &&& written(chunks) == Seq::<u8>::empty()
        },
        scan_after(chunks).stopped == Some(Outcome::TooLarge) ==> {
            &&& chunks.len() > 0
            &&& over_limit(chunks[0].len() as int) || (starts_with_signature(chunks[0])
                && over_limit(chunks.flatten().len() as int))
            &&& over_limit(chunks[0].len() as int) ==> written(chunks) == Seq::<u8>::empty()
        },
    decreases chunks.len(),
{
    if chunks.len() == 0 {
        assert(chunks.flatten() =~= Seq::<u8>::empty());
    } else {
        let init = chunks.drop_last();
        let last = chunks.last();
        lemma_scan_invariant(init);
        assert(chunks =~= init.push(last));
        init.lemma_flatten_push(last);
        assert(chunks.flatten() =~= init.flatten() + last);
        if init.len() == 0 {
            assert(init.flatten() =~= Seq::<u8>::empty());
            assert(chunks.flatten() =~= last);
            assert(chunks[0] == last);
        } else {
            assert(chunks[0] == init[0]);
        }
    }
}

/// Running the scan chunk by chunk gives the answer that `upload_outcome`
/// states directly.
pub proof fn lemma_scan_gives_upload_outcome(chunks: Seq<Seq<u8>>)
    ensures
        outcome_of(scan_after(chunks)) == upload_outcome(chunks),
{
    lemma_scan_invariant(chunks);
    if chunks.len() == 0 {
        assert(chunks.flatten() =~= Seq::<u8>::empty());
    }
}

/// An accepted upload is written byte for byte: every chunk got the verdict
/// `Write`, so the file holds exactly what was uploaded.
pub proof fn lemma_accepted_upload_is_kept(chunks: Seq<Seq<u8>>)
    requires
        upload_outcome(chunks) == Outcome::Accepted,
    ensures
        written(chunks) == chunks.flatten(),
        stored(chunks) == Some(chunks.flatten()),
        chunks.flatten().len() <= MAX_IMAGE_SIZE,
{
    lemma_scan_invariant(chunks);
    lemma_scan_gives_upload_outcome(chunks);
}

/// An upload of the wrong format leaves no byte in the file.
pub proof fn lemma_wrong_format_writes_nothing(chunks: Seq<Seq<u8>>)
    requires
        upload_outcome(chunks) == Outcome::WrongFormat,
    ensures
        written(chunks) == Seq::<u8>::empty(),
{
    lemma_scan_invariant(chunks);
    lemma_scan_gives_upload_outcome(chunks);
}

/// An upload over the ceiling is answered with `TooLarge`, and then no file
/// is left, unless its first chunk fits under the ceiling and lacks the
/// signature: such an upload is refused for its format before its size shows.
pub proof fn lemma_oversized_upload_is_refused(chunks: Seq<Seq<u8>>)
    requires
        over_limit(chunks.flatten().len() as int),
        chunks.len() > 0 ==> over_limit(chunks[0].len() as int) || starts_with_signature(chunks[0]),
    ensures
        upload_outcome(chunks) == Outcome::TooLarge,
        stored(chunks) is None,
{
    if chunks.len() == 0 {
        assert(chunks.flatten() =~= Seq::<u8>::empty());
    }
}

/// An upload whose first chunk does not begin with the signature is never
/// accepted, and not one byte of it is written.
pub proof fn lemma_unsigned_upload_is_refused(chunks: Seq<Seq<u8>>)
    requires
        chunks.len() > 0,
        !starts_with_signature(chunks[0]),
    ensures
        upload_outcome(chunks) != Outcome::Accepted,
        written(chunks) == Seq::<u8>::empty(),
{
    lemma_scan_invariant(chunks);
    lemma_scan_gives_upload_outcome(chunks);
}

/// An image whose first eight bytes are not the signature is never accepted
/// and never written, however it is cut into chunks. (An upload of no chunk
/// at all is left out: it is accepted as an empty file.)
pub proof fn lemma_unsigned_image_is_refused(chunks: Seq<Seq<u8>>)
    requires
        chunks.len() > 0,
        !starts_with_signature(chunks.flatten()),
    ensures
        upload_outcome(chunks) != Outcome::Accepted,
        written(chunks) == Seq::<u8>::empty(),
{
    if starts_with_signature(chunks[0]) {
        let rest = chunks.drop_first().flatten();
        assert(chunks.flatten() =~= chunks[0] + rest);
        assert(chunks.flatten().subrange(0, 8) =~= chunks[0].subrange(0, 8));
    }
    lemma_unsigned_upload_is_refused(chunks);
}

/// Judges a buffered upload with one scan, chunk by chunk.
pub fn scan_upload(chunks: &Vec<Vec<u8>>) -> (outcome: Outcome)
    ensures
        outcome == upload_outcome(views_of(chunks@)),
{
    let mut scan = ImageScan::new();
    let mut i: usize = 0;
    while i < chunks.len()
        invariant
            i <= chunks.len(),
            scan@ == scan_after(views_of(chunks@).take(i as int)),
        decreases chunks.len() - i,
    {
        let _ = scan.feed(chunks[i].as_slice());
        proof {
            let all = views_of(chunks@);
            assert(all.take(i + 1).drop_last() =~= all.take(i as int));
            assert(all.take(i + 1).last() == chunks@[i as int]@);
        }
        i = i + 1;
    }
    proof {
        assert(views_of(chunks@).take(i as int) =~= views_of(chunks@));
        lemma_scan_gives_upload_outcome(views_of(chunks@));
    }
    scan.finish()
}

} // verus!
