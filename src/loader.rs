use vstd::prelude::*;
use crate::memory::{ProgramImage, Segment};

verus! {

/// The program header type of a loadable segment.
pub const PT_LOAD: u32 = 1;

/// A program header as `(type, physical address, file offset, size in the file)`.
pub type HeaderInfo = (u32, u64, u64, u64);

/// What goblin reads from an ELF image: its entry point and program headers,
/// or nothing when it refuses the image.
pub uninterp spec fn elf_parse(data: Seq<u8>) -> Option<(u64, Seq<(u32, u64, u64, u64)>)>;

/// Relies on goblin::elf::Elf::parse: the entry point and the program headers (type,
/// physical address, file offset, file size) of an ELF image, or `None` on a parse error.
#[verifier::external_body]
fn parse_elf_headers(data: &[u8]) -> (r: Option<(u64, Vec<HeaderInfo>)>)
    ensures
        match r {
            Some((entry, hs)) => elf_parse(data@) == Some((entry, hs@)),
            None => elf_parse(data@) is None,
        },
{
    match goblin::elf::Elf::parse(data) {
        Ok(elf) => Some((
            elf.entry,
            elf.program_headers.iter().map(|ph| (ph.p_type, ph.p_paddr, ph.p_offset, ph.p_filesz)).collect(),
        )),
        Err(_) => None,
    }
}

/// Why an ELF image could not become a program image.
#[derive(Debug, Clone, Copy, PartialEq, Eq, Structural)]
pub enum LoadError {
    /// The ELF parser refused the image.
    Malformed,
    /// A loadable segment reaches past the end of the file.
    SegmentOutOfBounds,
}

/// The header's bytes lie inside the file.
pub open spec fn in_file(h: HeaderInfo, len: nat) -> bool {
    h.2 + h.3 <= len
}

/// The segments of the first `k` headers: each non-empty PT_LOAD header gives its
/// physical address and its bytes of the file; `None` when one of them lies outside the file.
pub open spec fn load_segments_of(hs: Seq<HeaderInfo>, data: Seq<u8>, k: nat) -> Option<Seq<(u64, Seq<u8>)>>
    decreases k,
{
    if k == 0 {
        Some(Seq::empty())
    } else {
        match load_segments_of(hs, data, (k - 1) as nat) {
            None => None,
            Some(segs) => {
                let h = hs[k - 1];
                if h.0 != PT_LOAD || h.3 == 0 {
                    Some(segs)
                } else if !in_file(h, data.len()) {
                    None
                } else {
                    Some(segs.push((h.1, data.subrange(h.2 as int, h.2 + h.3))))
                }
            },
        }
    }
}

proof fn lemma_segments_none(hs: Seq<HeaderInfo>, data: Seq<u8>, j: nat, k: nat)
    requires
        j <= k,
        load_segments_of(hs, data, j) is None,
    ensures
        load_segments_of(hs, data, k) is None,
    decreases k - j,
{
    if j < k {
        lemma_segments_none(hs, data, j, (k - 1) as nat);
    }
}

/// The image's segments are exactly `segs`, in order.
pub open spec fn image_holds(img: ProgramImage, entry: u64, segs: Seq<(u64, Seq<u8>)>) -> bool {
    &&& img.entry_point == entry
    &&& img.segments@.len() == segs.len()
    &&& forall|i: int|
        0 <= i < segs.len() ==> (#[trigger] img.segments@[i]).start_addr == segs[i].0
            && img.segments@[i].data@ == segs[i].1
}

fn copy_range(data: &[u8], start: usize, len: usize) -> (r: Vec<u8>)
    requires
        start + len <= data@.len(),
    ensures
        r@ == data@.subrange(start as int, start + len),
{
    assert(data@.len() == data.len());
    let mut out: Vec<u8> = Vec::new();
    let mut i: usize = 0;
    while i < len
        invariant
            i <= len,
            start + len <= data.len(),
            out@ == data@.subrange(start as int, start + i),
        decreases len - i,
    {
        out.push(data[start + i]);
        i = i + 1;
        assert(out@ =~= data@.subrange(start as int, start + i));
    }
    out
}

/// Builds the program image from parsed headers: the non-empty PT_LOAD segments in
/// header order, each at its physical address with its bytes of the file.
pub fn image_from_headers(entry: u64, headers: &Vec<HeaderInfo>, data: &[u8]) -> (r: Result<ProgramImage, LoadError>)
    ensures
        match load_segments_of(headers@, data@, headers@.len()) {
            Some(segs) => r matches Ok(img) && image_holds(img, entry, segs),
            None => r == Err::<ProgramImage, LoadError>(LoadError::SegmentOutOfBounds),
        },
{
    let mut img = ProgramImage::new(entry);
    let mut i: usize = 0;
    while i < headers.len()
        invariant
            i <= headers@.len(),
            load_segments_of(headers@, data@, i as nat) matches Some(segs) && image_holds(img, entry, segs),
        decreases headers@.len() - i,
    {
        let (p_type, paddr, offset, filesz) = headers[i];
        let ghost segs = load_segments_of(headers@, data@, i as nat)->Some_0;
        if p_type == PT_LOAD && filesz != 0 {
            if offset > data.len() as u64 || filesz > data.len() as u64 - offset {
                proof {
                    lemma_segments_none(headers@, data@, (i + 1) as nat, headers@.len());
                }
                return Err(LoadError::SegmentOutOfBounds);
            }
            let bytes = copy_range(data, offset as usize, filesz as usize);
            img.add_segment(paddr, bytes);
            assert(image_holds(img, entry, segs.push((paddr, data@.subrange(offset as int, offset + filesz)))));
        }
        i = i + 1;
    }
    Ok(img)
}

/// Reads an ELF image into a program image.
pub fn load_elf_bytes(data: &[u8]) -> (r: Result<ProgramImage, LoadError>)
    ensures
        match elf_parse(data@) {
            None => r == Err::<ProgramImage, LoadError>(LoadError::Malformed),
            Some((entry, hs)) => match load_segments_of(hs, data@, hs.len()) {
                Some(segs) => r matches Ok(img) && image_holds(img, entry, segs),
                None => r == Err::<ProgramImage, LoadError>(LoadError::SegmentOutOfBounds),
            },
        },
{
    match parse_elf_headers(data) {
        None => Err(LoadError::Malformed),
        Some((entry, headers)) => image_from_headers(entry, &headers, data),
    }
}

} // verus!
