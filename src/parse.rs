//! The header validator and reader, and the streaming decoders for base
//! relocations and imports.
use vstd::prelude::*;
use crate::bytes::{copy_range, read_u16, read_u32, read_u64, u16_at, u32_at, u64_at};
use crate::error::{Error, Reason};
use crate::image::{
    widen_thunk, BaseRelocationEntry, DataDirectory, DosHeader, ImportDescriptor, NtHeaders32,
    NtHeaders64, SectionHeader, ThunkData, DOS_SIGNATURE, NT_OPTIONAL_HDR32_MAGIC,
    NT_OPTIONAL_HDR64_MAGIC, NT_SIGNATURE, ORDINAL_FLAG64, SIZEOF_BASE_RELOCATION,
    SIZEOF_BASE_RELOCATION_ENTRY, SIZEOF_DATA_DIRECTORY, SIZEOF_DOS_HEADER, SIZEOF_FILE_HEADER,
    SIZEOF_IMPORT_BY_NAME, SIZEOF_IMPORT_DESCRIPTOR, SIZEOF_OPTIONAL_HEADER32,
    SIZEOF_OPTIONAL_HEADER64, SIZEOF_SECTION_HEADER,
};
use crate::nt::{ImportSymbol, ImportSymbolView, NtHeaders, NtKind, Relocation, RelocationKind};
use crate::traits::PeHeaders;
use crate::view::{c_string, segment_from_spec, segment_spec};

verus! {

pub fn invalid_data(reason: Reason) -> (e: Error)
    ensures
        e.reason == reason,
{
    Error { reason }
}

/// The headers of an image: what the reader keeps of them.
pub struct Headers {
    pub dos: DosHeader,
    pub stub: Seq<u8>,
    pub nt: NtHeaders,
    pub dirs: Seq<DataDirectory>,
    pub sections: Seq<SectionHeader>,
}

/// Where the NT headers start: the DOS header's `lfanew`.
pub open spec fn pe_offset(b: Seq<u8>) -> int {
    DosHeader::at(b, 0).lfanew as int
}

/// The optional-header magic of the image in `b`.
pub open spec fn optional_magic(b: Seq<u8>) -> u16 {
    u16_at(b, pe_offset(b) + 24)
}

/// The fixed size of the optional header that `magic` selects.
pub open spec fn optional_size(magic: u16) -> int {
    if magic == NT_OPTIONAL_HDR32_MAGIC {
        SIZEOF_OPTIONAL_HEADER32 as int
    } else {
        SIZEOF_OPTIONAL_HEADER64 as int
    }
}

/// The NT headers stored at `p` in `b`, of the width that their magic selects.
pub open spec fn nt_at(b: Seq<u8>, p: int) -> NtHeaders {
    if u16_at(b, p + 24) == NT_OPTIONAL_HDR32_MAGIC {
        NtHeaders::Win32(NtHeaders32::at_32(b, p))
    } else {
        NtHeaders::Win64(NtHeaders64::at_64(b, p))
    }
}

/// Where the data directories of the image in `b` start.
pub open spec fn directories_offset(b: Seq<u8>) -> int {
    pe_offset(b) + 24 + optional_size(optional_magic(b))
}

/// Where the section table of the image in `b` starts: after the optional
/// header at its declared size.
pub open spec fn sections_offset(b: Seq<u8>) -> int {
    pe_offset(b) + 24 + nt_at(b, pe_offset(b)).spec_file_header().size_of_optional_header
}

pub open spec fn directories_at(b: Seq<u8>, p: int, n: nat) -> Seq<DataDirectory> {
    Seq::new(n, |i: int| DataDirectory::at(b, p + 8 * i))
}

pub open spec fn sections_at(b: Seq<u8>, p: int, n: nat) -> Seq<SectionHeader> {
    Seq::new(n, |i: int| SectionHeader::at(b, p + 40 * i))
}

/// The section table of the image in `b`.
pub open spec fn section_table(b: Seq<u8>) -> Seq<SectionHeader> {
    sections_at(
        b,
        sections_offset(b),
        nt_at(b, pe_offset(b)).spec_file_header().number_of_sections as nat,
    )
}

/// The data directories of the image in `b`.
pub open spec fn directory_table(b: Seq<u8>) -> Seq<DataDirectory> {
    directories_at(
        b,
        directories_offset(b),
        nt_at(b, pe_offset(b)).spec_number_of_rva_and_sizes() as nat,
    )
}

/// The end of a section in the image: its address plus its size.
pub open spec fn section_end(s: SectionHeader) -> int {
    s.virtual_address + s.virtual_size_physical_address
}

/// The verdict on everything up to the section table: the DOS header, the
/// NT headers and the data directories, each check in turn.
pub open spec fn validate_prefix_spec(b: Seq<u8>) -> Result<(), Reason> {
    let len = b.len() as int;
    let dos = DosHeader::at(b, 0);
    let p = dos.lfanew as int;
    let magic = optional_magic(b);
    let nt = nt_at(b, p);
    let n = nt.spec_number_of_rva_and_sizes() as int;
    if len < SIZEOF_DOS_HEADER {
        Err(Reason::UnexpectedEof)
    } else if dos.magic != DOS_SIGNATURE {
        Err(Reason::BadDosMagic)
    } else if p < SIZEOF_DOS_HEADER {
        Err(Reason::BadPeOffset)
    } else if p > len {
        Err(Reason::PeOffsetPastEof)
    } else if p + 26 > len {
        Err(Reason::UnexpectedEof)
    } else if u32_at(b, p) != NT_SIGNATURE {
        Err(Reason::BadNtMagic)
    } else if magic != NT_OPTIONAL_HDR32_MAGIC && magic != NT_OPTIONAL_HDR64_MAGIC {
        Err(Reason::BadOptionalMagic)
    } else if p + 24 + optional_size(magic) > len {
        Err(Reason::UnexpectedEof)
    } else if directories_offset(b) + 8 * n > len {
        Err(Reason::UnexpectedEof)
    } else if (nt.spec_file_header().size_of_optional_header as int) < optional_size(magic) + 8
        * n {
        Err(Reason::BadSizeOfOptionalHeader)
    } else if sections_offset(b) > len {
        Err(Reason::TrailingDataDirectoryEof)
    } else {
        Ok(())
    }
}

/// The verdict on the section table and the declared sizes, once the rest
/// has passed. Sections are read one by one, and a section whose end
/// overflows is rejected before the input runs out on a later one.
pub open spec fn validate_sections_spec(b: Seq<u8>) -> Result<(), Reason> {
    let len = b.len() as int;
    let p = pe_offset(b);
    let nt = nt_at(b, p);
    let s = sections_offset(b);
    let nsec = nt.spec_file_header().number_of_sections as int;
    let secs = section_table(b);
    let soh = nt.spec_size_of_headers() as int;
    let soi = nt.spec_size_of_image() as int;
    if exists|i: int|
        0 <= i < nsec && s + 40 * (i + 1) <= len && #[trigger] section_end(secs[i]) > u32::MAX {
        Err(Reason::BadSectionVirtualSize)
    } else if s + 40 * nsec > len {
        Err(Reason::UnexpectedEof)
    } else if soh > soi || exists|i: int| 0 <= i < nsec && #[trigger] section_end(secs[i]) > soi {
        Err(Reason::InvalidSizeOfImage)
    } else if soh < nt.spec_len() + p {
        Err(Reason::BadSizeOfHeaders)
    } else if soh > len {
        Err(Reason::TrailingHeaderEof)
    } else {
        Ok(())
    }
}

/// The verdict on the headers in `b`: each check of the format in turn, the
/// first that fails giving the reason.
pub open spec fn validate_spec(b: Seq<u8>) -> Result<(), Reason> {
    match validate_prefix_spec(b) {
        Ok(()) => validate_sections_spec(b),
        Err(r) => Err(r),
    }
}

/// The headers stored in `b`, once `validate_spec(b)` has accepted them.
pub open spec fn headers_at(b: Seq<u8>) -> Headers {
    let p = pe_offset(b);
    let nt = nt_at(b, p);
    Headers {
        dos: DosHeader::at(b, 0),
        stub: b.subrange(SIZEOF_DOS_HEADER as int, p),
        nt,
        dirs: directory_table(b),
        sections: section_table(b),
    }
}

/// What reading the headers in `b` gives: the headers, or why they were rejected.
pub open spec fn read_headers_spec(b: Seq<u8>) -> Result<Headers, Reason> {
    match validate_spec(b) {
        Ok(()) => Ok(headers_at(b)),
        Err(r) => Err(r),
    }
}

/// Checks the headers at the start of `b` in the order the format asks for,
/// and says which check failed first, if any.
pub fn validate_headers(b: &[u8]) -> (r: Result<(), Error>)
    ensures
        match r {
            Ok(()) => validate_spec(b@) is Ok,
            Err(e) => validate_spec(b@) == Err::<(), Reason>(e.reason),
        },
{
    let len = b.len();
    if len < SIZEOF_DOS_HEADER {
        return Err(invalid_data(Reason::UnexpectedEof));
    }
    let dos = DosHeader::read(b, 0);
    if dos.magic != DOS_SIGNATURE {
        return Err(invalid_data(Reason::BadDosMagic));
    }
    let p = dos.lfanew as usize;
    if p < SIZEOF_DOS_HEADER {
        return Err(invalid_data(Reason::BadPeOffset));
    }
    if p > len {
        return Err(invalid_data(Reason::PeOffsetPastEof));
    }
    if len - p < 26 {
        return Err(invalid_data(Reason::UnexpectedEof));
    }
    if read_u32(b, p) != NT_SIGNATURE {
        return Err(invalid_data(Reason::BadNtMagic));
    }
    let magic = read_u16(b, p + 24);
    let opt_size: usize = if magic == NT_OPTIONAL_HDR32_MAGIC {
        SIZEOF_OPTIONAL_HEADER32
    } else if magic == NT_OPTIONAL_HDR64_MAGIC {
        SIZEOF_OPTIONAL_HEADER64
    } else {
        return Err(invalid_data(Reason::BadOptionalMagic));
    };
    if len - p < 24 + opt_size {
        return Err(invalid_data(Reason::UnexpectedEof));
    }
    let nt = if magic == NT_OPTIONAL_HDR32_MAGIC {
        NtHeaders::Win32(NtHeaders32::read(b, p))
    } else {
        NtHeaders::Win64(NtHeaders64::read(b, p))
    };
    let n = nt.number_of_rva_and_sizes() as u64;
    let d = p + 24 + opt_size;
    if ((len - d) as u64) < 8 * n {
        return Err(invalid_data(Reason::UnexpectedEof));
    }
    let read_len = opt_size as u64 + 8 * n;
    let fh = *nt.file_header();
    let stored_len = fh.size_of_optional_header as u64;
    if stored_len < read_len {
        return Err(invalid_data(Reason::BadSizeOfOptionalHeader));
    }
    if ((len - p - 24) as u64) < stored_len {
        return Err(invalid_data(Reason::TrailingDataDirectoryEof));
    }
    let s = p + 24 + fh.size_of_optional_header as usize;
    let nsec = fh.number_of_sections as usize;
    let soh = nt.size_of_headers();
    let soi = nt.size_of_image();
    let mut fits = soh <= soi;
    let mut i: usize = 0;
    while i < nsec
        invariant
            validate_prefix_spec(b@) is Ok,
            len == b@.len(),
            s == sections_offset(b@),
            s <= len,
            nsec == nt.spec_file_header().number_of_sections,
            nt == nt_at(b@, p as int),
            p == pe_offset(b@),
            soh == nt.spec_size_of_headers(),
            soi == nt.spec_size_of_image(),
            i <= nsec,
            s + 40 * i <= len,
            forall|j: int|
                0 <= j < i ==> #[trigger] section_end(section_table(b@)[j])
                    <= u32::MAX,
            fits == (soh <= soi && forall|j: int|
                0 <= j < i ==> #[trigger] section_end(section_table(b@)[j])
                    <= soi),
        decreases nsec - i,
    {
        let pos = s + 40 * i;
        if len - pos < SIZEOF_SECTION_HEADER {
            proof {
                assert forall|j: int|
                    0 <= j < nsec && s + 40 * (j + 1) <= len implies #[trigger] section_end(
                    section_table(b@)[j],
                ) <= u32::MAX by {
                    assert(j < i);
                }
            }
            return Err(invalid_data(Reason::UnexpectedEof));
        }
        let sec = SectionHeader::read(b, pos);
        assert(sec == section_table(b@)[i as int]);
        match sec.virtual_address.checked_add(sec.virtual_size_physical_address) {
            None => {
                assert(section_end(section_table(b@)[i as int]) > u32::MAX);
                return Err(invalid_data(Reason::BadSectionVirtualSize));
            },
            Some(end) => {
                assert(end == section_end(section_table(b@)[i as int]));
                fits = fits && end <= soi;
            },
        }
        i = i + 1;
    }
    if !fits {
        return Err(invalid_data(Reason::InvalidSizeOfImage));
    }
    let headers_len = nt.len() + p;
    let soh = soh as usize;
    if soh < headers_len {
        return Err(invalid_data(Reason::BadSizeOfHeaders));
    }
    if soh > len {
        return Err(invalid_data(Reason::TrailingHeaderEof));
    }
    Ok(())
}

/// The data directories stored at `p` in `b`.
fn read_directories(b: &[u8], p: usize, n: usize) -> (r: Vec<DataDirectory>)
    requires
        p + 8 * n <= b@.len(),
    ensures
        r@ == directories_at(b@, p as int, n as nat),
{
    proof {
        assert(b@.len() == b.len());
    }
    let mut r: Vec<DataDirectory> = Vec::new();
    let mut i: usize = 0;
    while i < n
        invariant
            p + 8 * n <= b@.len() <= usize::MAX,
            i <= n,
            r@ == directories_at(b@, p as int, i as nat),
        decreases n - i,
    {
        r.push(DataDirectory::read(b, p + SIZEOF_DATA_DIRECTORY * i));
        i = i + 1;
        assert(r@ =~= directories_at(b@, p as int, i as nat));
    }
    r
}

/// The section headers stored at `p` in `b`.
fn read_sections(b: &[u8], p: usize, n: usize) -> (r: Vec<SectionHeader>)
    requires
        p + 40 * n <= b@.len(),
    ensures
        r@ == sections_at(b@, p as int, n as nat),
{
    proof {
        assert(b@.len() == b.len());
    }
    let mut r: Vec<SectionHeader> = Vec::new();
    let mut i: usize = 0;
    while i < n
        invariant
            p + 40 * n <= b@.len() <= usize::MAX,
            i <= n,
            r@ == sections_at(b@, p as int, i as nat),
        decreases n - i,
    {
        r.push(SectionHeader::read(b, p + SIZEOF_SECTION_HEADER * i));
        i = i + 1;
        assert(r@ =~= sections_at(b@, p as int, i as nat));
    }
    r
}

/// The NT headers stored at the offset that the DOS header gives.
fn read_nt_headers(b: &[u8]) -> (r: NtHeaders)
    requires
        validate_prefix_spec(b@) is Ok,
    ensures
        r == nt_at(b@, pe_offset(b@)),
{
    proof {
        assert(b@.len() == b.len());
    }
    let p = DosHeader::read(b, 0).lfanew as usize;
    if read_u16(b, p + 24) == NT_OPTIONAL_HDR32_MAGIC {
        NtHeaders::Win32(NtHeaders32::read(b, p))
    } else {
        NtHeaders::Win64(NtHeaders64::read(b, p))
    }
}

/// Validates the headers at the start of `b`, as `validate_headers` does,
/// and returns them: the DOS header, the DOS stub, the NT headers, the data
/// directories and the section table.
pub fn read_headers(b: &[u8]) -> (r: Result<
    (DosHeader, Vec<u8>, NtHeaders, Vec<DataDirectory>, Vec<SectionHeader>),
    Error,
>)
    ensures
        match r {
            Ok((dos, stub, nt, dirs, sections)) => read_headers_spec(b@) == Ok::<Headers, Reason>(
                Headers { dos, stub: stub@, nt, dirs: dirs@, sections: sections@ },
            ),
            Err(e) => read_headers_spec(b@) == Err::<Headers, Reason>(e.reason),
        },
{
    match validate_headers(b) {
        Err(e) => Err(e),
        Ok(()) => {
            let dos = DosHeader::read(b, 0);
            let p = dos.lfanew as usize;
            let stub = copy_range(b, SIZEOF_DOS_HEADER, p);
            let nt = read_nt_headers(b);
            let opt_size = nt.kind().size_of_optional_header();
            let d = p + SIZEOF_FILE_HEADER + 4 + opt_size;
            let dirs = read_directories(b, d, nt.number_of_rva_and_sizes() as usize);
            let fh = *nt.file_header();
            let s = p + SIZEOF_FILE_HEADER + 4 + fh.size_of_optional_header as usize;
            let sections = read_sections(b, s, fh.number_of_sections as usize);
            Ok((dos, stub, nt, dirs, sections))
        },
    }
}

/// One step of the base-relocation decoder over `d`, from the state
/// `(base, size, pos)`: the block's page address, the bytes left in the
/// block, and the position in `d`. It gives the outcome and the next state.
///
/// An entry is read while the block has two bytes left for it and `d` holds
/// them. Otherwise what is left of the block is skipped and the next block
/// header is read: a header with address zero, or too few bytes left for a
/// header, ends the sequence.
pub open spec fn reloc_step(d: Seq<u8>, base: u32, size: u32, pos: int) -> (
    Result<Option<Relocation>, Reason>,
    u32,
    u32,
    int,
)
    decreases d.len() - pos,
{
    if pos < 0 || pos > d.len() {
        (Ok(None), base, size, pos)
    } else if size >= 2 && pos + 2 <= d.len() {
        let entry = BaseRelocationEntry { kind_offset: u16_at(d, pos) };
        let next = (base, (size - 2) as u32, pos + 2);
        match RelocationKind::spec_from_kind(entry.spec_kind()) {
            None => (Err(Reason::BadRelocationKind), next.0, next.1, next.2),
            Some(kind) => if base + entry.spec_offset() > u32::MAX {
                (Err(Reason::BadRelocationAddress), next.0, next.1, next.2)
            } else {
                (
                    Ok(Some(Relocation { kind, address: (base + entry.spec_offset()) as u32 })),
                    next.0,
                    next.1,
                    next.2,
                )
            },
        }
    } else {
        let q = if size <= d.len() - pos {
            pos + size
        } else {
            d.len() as int
        };
        if q + 8 > d.len() {
            (Ok(None), base, 0, q)
        } else {
            let va = u32_at(d, q);
            let block = u32_at(d, q + 4);
            if va == 0 {
                (Ok(None), 0, 0, q + 8)
            } else if block < 8 {
                (Err(Reason::BadRelocationBlockSize), va, 0, q + 8)
            } else {
                reloc_step(d, va, (block - 8) as u32, q + 8)
            }
        }
    }
}

/// The base relocations of one relocation directory, decoded one at a time.
pub struct RelocationIterator<'a> {
    base: u32,
    size: u32,
    read: &'a [u8],
    pos: usize,
}

impl<'a> RelocationIterator<'a> {
    #[verifier::type_invariant]
    spec fn in_bounds(self) -> bool {
        self.pos <= self.read@.len()
    }

    /// The relocation directory's bytes.
    pub closed spec fn data(&self) -> Seq<u8> {
        self.read@
    }

    /// The decoder's state: page address, bytes left in the block, position.
    /// A page address of zero means that the sequence has ended.
    pub closed spec fn state(&self) -> (u32, u32, int) {
        (self.base, self.size, self.pos as int)
    }

    pub fn new(relocations: &'a [u8]) -> (r: RelocationIterator<'a>)
        ensures
            r.data() == relocations@,
            r.state() == (1u32, 0u32, 0int),
    {
        RelocationIterator { base: 1, size: 0, read: relocations, pos: 0 }
    }

    /// One step of the decoder.
    pub fn try_next(&mut self) -> (r: Result<Option<Relocation>, Error>)
        ensures
            final(self).data() == old(self).data(),
            final(self).state().2 <= final(self).data().len(),
            ({
                let (res, base, size, pos) = reloc_step(
                    old(self).data(),
                    old(self).state().0,
                    old(self).state().1,
                    old(self).state().2,
                );
                &&& final(self).state() == (base, size, pos)
                &&& match res {
                    Ok(o) => r == Ok::<Option<Relocation>, Error>(o),
                    Err(reason) => r == Err::<Option<Relocation>, Error>(Error { reason }),
                }
            }),
    {
        proof {
            use_type_invariant(&*self);
        }
        let len = self.read.len();
        loop
            invariant
                self.read == old(self).read,
                len == self.read@.len(),
                self.pos <= len,
                reloc_step(self.read@, self.base, self.size, self.pos as int) == reloc_step(
                    old(self).read@,
                    old(self).base,
                    old(self).size,
                    old(self).pos as int,
                ),
            decreases len - self.pos,
        {
            if self.size >= 2 && len - self.pos >= 2 {
                let entry = BaseRelocationEntry { kind_offset: read_u16(self.read, self.pos) };
                self.size = self.size - 2;
                self.pos = self.pos + SIZEOF_BASE_RELOCATION_ENTRY;
                let kind = match RelocationKind::from_kind(entry.kind()) {
                    Some(kind) => kind,
                    None => return Err(invalid_data(Reason::BadRelocationKind)),
                };
                return match self.base.checked_add(entry.offset() as u32) {
                    Some(address) => Ok(Some(Relocation { kind, address })),
                    None => Err(invalid_data(Reason::BadRelocationAddress)),
                };
            }
            let rest = len - self.pos;
            self.pos = if (self.size as usize) <= rest {
                self.pos + self.size as usize
            } else {
                len
            };
            self.size = 0;
            if len - self.pos < SIZEOF_BASE_RELOCATION {
                return Ok(None);
            }
            let va = read_u32(self.read, self.pos);
            let block = read_u32(self.read, self.pos + 4);
            self.pos = self.pos + SIZEOF_BASE_RELOCATION;
            if va == 0 {
                self.base = 0;
                return Ok(None);
            }
            self.base = va;
            if block < 8 {
                return Err(invalid_data(Reason::BadRelocationBlockSize));
            }
            self.size = block - 8;
        }
    }

    /// The next relocation, or an error, until the sequence ends; after its
    /// end or an error, always `None`.
    pub fn next(&mut self) -> (r: Option<Result<Relocation, Error>>)
        ensures
            final(self).data() == old(self).data(),
            final(self).state().2 <= final(self).data().len(),
            old(self).state().0 == 0 ==> r is None && final(self).state() == old(self).state(),
            old(self).state().0 != 0 ==> ({
                let (res, base, size, pos) = reloc_step(
                    old(self).data(),
                    old(self).state().0,
                    old(self).state().1,
                    old(self).state().2,
                );
                match res {
                    Ok(Some(x)) => r == Some(Ok::<Relocation, Error>(x)) && final(self).state() == (
                        base,
                        size,
                        pos,
                    ),
                    Ok(None) => r is None && final(self).state() == (0u32, size, pos),
                    Err(reason) => r == Some(Err::<Relocation, Error>(Error { reason }))
                        && final(self).state() == (0u32, size, pos),
                }
            }),
    {
        proof {
            use_type_invariant(&*self);
        }
        if self.base == 0 {
            return None;
        }
        match self.try_next() {
            Ok(Some(x)) => Some(Ok(x)),
            Ok(None) => {
                self.base = 0;
                None
            },
            Err(e) => {
                self.base = 0;
                Some(Err(e))
            },
        }
    }
}

/// One step of the import-descriptor decoder over `d` at `pos`: the next
/// descriptor and the next position. A descriptor with no name, or too few
/// bytes left for one, ends the sequence.
pub open spec fn import_step(d: Seq<u8>, pos: int) -> (Option<ImportDescriptor>, int) {
    if pos + 20 <= d.len() {
        let desc = ImportDescriptor::at(d, pos);
        if desc.name == 0 {
            (None, pos + 20)
        } else {
            (Some(desc), pos + 20)
        }
    } else {
        (None, pos)
    }
}

/// The descriptors of one import directory, decoded one at a time.
pub struct ImportIterator<'a> {
    fuse: bool,
    read: &'a [u8],
    pos: usize,
}

impl<'a> ImportIterator<'a> {
    /// The import directory's bytes.
    pub closed spec fn data(&self) -> Seq<u8> {
        self.read@
    }

    /// The position in the directory.
    pub closed spec fn pos(&self) -> int {
        self.pos as int
    }

    /// Whether the sequence has ended.
    pub closed spec fn fused(&self) -> bool {
        self.fuse
    }

    pub fn new(imports: &'a [u8]) -> (r: ImportIterator<'a>)
        ensures
            r.data() == imports@,
            r.pos() == 0,
            !r.fused(),
    {
        ImportIterator { fuse: false, read: imports, pos: 0 }
    }

    /// One step of the decoder; reading descriptors cannot fail.
    pub fn try_next(&mut self) -> (r: Result<Option<ImportDescriptor>, Error>)
        ensures
            final(self).data() == old(self).data(),
            final(self).fused() == old(self).fused(),
            r == Ok::<Option<ImportDescriptor>, Error>(import_step(old(self).data(), old(self).pos()).0),
            final(self).pos() == import_step(old(self).data(), old(self).pos()).1,
    {
        proof {
            assert(self.read@.len() == self.read.len());
        }
        if self.read.len() >= SIZEOF_IMPORT_DESCRIPTOR && self.pos <= self.read.len() - SIZEOF_IMPORT_DESCRIPTOR {
            let desc = ImportDescriptor::read(self.read, self.pos);
            self.pos = self.pos + SIZEOF_IMPORT_DESCRIPTOR;
            if desc.name == 0 {
                Ok(None)
            } else {
                Ok(Some(desc))
            }
        } else {
            Ok(None)
        }
    }

    /// The next descriptor until the sequence ends; after that, always `None`.
    pub fn next(&mut self) -> (r: Option<Result<ImportDescriptor, Error>>)
        ensures
            final(self).data() == old(self).data(),
            old(self).fused() ==> r is None && *final(self) == *old(self),
            !old(self).fused() ==> match import_step(old(self).data(), old(self).pos()).0 {
                Some(desc) => r == Some(Ok::<ImportDescriptor, Error>(desc)) && !final(self).fused(),
                None => r is None && final(self).fused(),
            },
            !old(self).fused() ==> final(self).pos() == import_step(old(self).data(), old(self).pos()).1,
    {
        if self.fuse {
            return None;
        }
        match self.try_next() {
            Ok(Some(desc)) => Some(Ok(desc)),
            Ok(None) => {
                self.fuse = true;
                None
            },
            Err(e) => {
                self.fuse = true;
                Some(Err(e))
            },
        }
    }
}

/// The thunk at `pos` in a thunk table of an image of width `kind`, in the
/// 64-bit representation; `None` if the table ends first.
pub open spec fn thunk_at(kind: NtKind, d: Seq<u8>, pos: int) -> Option<u64> {
    match kind {
        NtKind::Win32 => if pos + 4 <= d.len() {
            Some(widen_thunk(u32_at(d, pos)))
        } else {
            None
        },
        NtKind::Win64 => if pos + 8 <= d.len() {
            Some(u64_at(d, pos))
        } else {
            None
        },
    }
}

/// The size of one thunk in an image of width `kind`.
pub open spec fn thunk_size(kind: NtKind) -> int {
    match kind {
        NtKind::Win32 => 4,
        NtKind::Win64 => 8,
    }
}

/// What the thunk `v` imports, in the image `b` with sections `secs`: zero
/// ends the table; with the ordinal flag set, the low 16 bits are the
/// ordinal; otherwise the low 32 bits locate a hint and a NUL-terminated name.
pub open spec fn resolve_thunk(b: Seq<u8>, secs: Seq<SectionHeader>, v: u64) -> Result<
    Option<ImportSymbolView>,
    Reason,
> {
    if v == 0 {
        Ok(None)
    } else if v >= ORDINAL_FLAG64 {
        Ok(Some(ImportSymbolView::Ordinal((v % 0x1_0000) as u16)))
    } else {
        let rva = (v % 0x1_0000_0000) as u32;
        match segment_spec(b, secs, rva, 2) {
            Err(r) => Err(r),
            Ok(hint) => if rva + 2 > u32::MAX {
                Err(Reason::BadSegmentRva)
            } else {
                match segment_from_spec(b, secs, (rva + 2) as u32) {
                    Err(r) => Err(r),
                    Ok(seg) => match c_string(seg) {
                        None => Err(Reason::CStringNotNullTerminated),
                        Some(name) => Ok(
                            Some(ImportSymbolView::Name { ordinal_hint: u16_at(hint, 0), name }),
                        ),
                    },
                }
            },
        }
    }
}

/// The symbols of one thunk table, decoded one at a time against the image
/// that holds their names.
pub struct ImportTableIterator<'a> {
    fuse: bool,
    read: &'a [u8],
    pos: usize,
    view: crate::view::View<'a>,
}

impl<'a> ImportTableIterator<'a> {
    /// The thunk table's bytes.
    pub closed spec fn data(&self) -> Seq<u8> {
        self.read@
    }

    /// The position in the table.
    pub closed spec fn pos(&self) -> int {
        self.pos as int
    }

    /// Whether the sequence has ended.
    pub closed spec fn fused(&self) -> bool {
        self.fuse
    }

    /// The image that the names are read from.
    pub closed spec fn image(&self) -> crate::view::View<'a> {
        self.view
    }

    pub fn new(imports: &'a [u8], view: crate::view::View<'a>) -> (r: ImportTableIterator<'a>)
        ensures
            r.data() == imports@,
            r.pos() == 0,
            !r.fused(),
            r.image() == view,
    {
        ImportTableIterator { fuse: false, read: imports, pos: 0, view }
    }

    /// One step of the decoder: the next symbol, `None` at the table's end,
    /// or why the thunk could not be read or resolved.
    pub fn try_next(&mut self) -> (r: Result<Option<ImportSymbol>, Error>)
        ensures
            final(self).data() == old(self).data(),
            final(self).fused() == old(self).fused(),
            final(self).image() == old(self).image(),
            ({
                let img = old(self).image();
                let kind = img.headers().nt.spec_kind();
                match thunk_at(kind, old(self).data(), old(self).pos()) {
                    None => r == Err::<Option<ImportSymbol>, Error>(
                        Error { reason: Reason::UnexpectedEof },
                    ),
                    Some(v) => {
                        &&& final(self).pos() == old(self).pos() + thunk_size(kind)
                        &&& match resolve_thunk(img.bytes(), img.headers().sections, v) {
                            Err(reason) => r == Err::<Option<ImportSymbol>, Error>(
                                Error { reason },
                            ),
                            Ok(None) => r == Ok::<Option<ImportSymbol>, Error>(None),
                            Ok(Some(sym)) => r is Ok && r->Ok_0 is Some && r->Ok_0->Some_0@ == sym,
                        }
                    },
                }
            }),
    {
        proof {
            assert(self.read@.len() == self.read.len());
        }
        let len = self.read.len();
        let value: u64 = match self.view.kind() {
            NtKind::Win32 => {
                if len < 4 || self.pos > len - 4 {
                    return Err(invalid_data(Reason::UnexpectedEof));
                }
                let t = ThunkData { data: read_u32(self.read, self.pos) };
                self.pos = self.pos + 4;
                ThunkData::<u64>::from(t).data
            },
            NtKind::Win64 => {
                if len < 8 || self.pos > len - 8 {
                    return Err(invalid_data(Reason::UnexpectedEof));
                }
                let v = read_u64(self.read, self.pos);
                self.pos = self.pos + 8;
                v
            },
        };
        if value == 0 {
            return Ok(None);
        }
        if value >= ORDINAL_FLAG64 {
            return Ok(Some(ImportSymbol::Ordinal((value % 0x1_0000) as u16)));
        }
        let rva = (value % 0x1_0000_0000) as u32;
        let hint = match self.view.segment(rva, SIZEOF_IMPORT_BY_NAME as u32) {
            Ok(seg) => read_u16(seg, 0),
            Err(e) => return Err(e),
        };
        let name_rva = match rva.checked_add(SIZEOF_IMPORT_BY_NAME as u32) {
            Some(a) => a,
            None => return Err(invalid_data(Reason::BadSegmentRva)),
        };
        match self.view.read_cstring(name_rva) {
            Ok(name) => Ok(Some(ImportSymbol::Name { ordinal_hint: hint, name })),
            Err(e) => Err(e),
        }
    }

    /// The next symbol, or an error, until the table ends; after its end or
    /// an error, always `None`.
    pub fn next(&mut self) -> (r: Option<Result<ImportSymbol, Error>>)
        ensures
            final(self).data() == old(self).data(),
            final(self).image() == old(self).image(),
            old(self).fused() ==> r is None && *final(self) == *old(self),
            !old(self).fused() ==> ({
                let img = old(self).image();
                let kind = img.headers().nt.spec_kind();
                match thunk_at(kind, old(self).data(), old(self).pos()) {
                    None => r == Some(Err::<ImportSymbol, Error>(
                        Error { reason: Reason::UnexpectedEof },
                    )) && final(self).fused(),
                    Some(v) => match resolve_thunk(img.bytes(), img.headers().sections, v) {
                        Err(reason) => r == Some(Err::<ImportSymbol, Error>(Error { reason }))
                            && final(self).fused(),
                        Ok(None) => r is None && final(self).fused(),
                        Ok(Some(sym)) => r is Some && r->Some_0 is Ok && r->Some_0->Ok_0@ == sym
                            && !final(self).fused() && final(self).pos() == old(self).pos()
                            + thunk_size(kind),
                    },
                }
            }),
    {
        if self.fuse {
            return None;
        }
        match self.try_next() {
            Ok(Some(x)) => Some(Ok(x)),
            Ok(None) => {
                self.fuse = true;
                None
            },
            Err(e) => {
                self.fuse = true;
                Some(Err(e))
            },
        }
    }
}

} // verus!
