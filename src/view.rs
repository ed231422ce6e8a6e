//! An image already laid out at its virtual addresses, addressed in place.
use vstd::prelude::*;
use vstd::slice::slice_subrange;
use vstd::view::View as _;
use crate::bytes::read_u16;
use crate::error::{Error, Reason};
use crate::image::{
    DataDirectory, DosHeader, ImportDescriptor, NtHeaders32, NtHeaders64, SectionHeader,
    NT_OPTIONAL_HDR32_MAGIC, SIZEOF_DATA_DIRECTORY, SIZEOF_DOS_HEADER, SIZEOF_FILE_HEADER,
    SIZEOF_SECTION_HEADER,
};
use crate::nt::{DirectoryEntry, NtHeaders, NtKind};
use crate::parse::{
    directories_at, headers_at, invalid_data, pe_offset, sections_at, validate_headers,
    validate_spec, Headers, ImportIterator, ImportTableIterator, RelocationIterator,
};
use crate::traits::{found_directory, found_section, PeHeaders};

verus! {

/// The range `[start, end)` of the buffer that `size` bytes at `offset`
/// into `section` occupy, where it neither overflows nor leaves a buffer of
/// `len` bytes.
pub open spec fn section_range(section: SectionHeader, offset: u32, size: u32, len: int) -> Option<
    (int, int),
> {
    let start = section.virtual_address + offset;
    let end = start + size;
    if start <= u32::MAX && end <= u32::MAX && end <= len {
        Some((start, end))
    } else {
        None
    }
}

/// What `size` bytes at `offset` into `section` are in the buffer `b`.
pub open spec fn section_segment_spec(
    b: Seq<u8>,
    section: SectionHeader,
    offset: u32,
    size: u32,
) -> Result<Seq<u8>, Reason> {
    match section_range(section, offset, size, b.len() as int) {
        Some((start, end)) => Ok(b.subrange(start, end)),
        None => Err(Reason::BadSegmentRva),
    }
}

/// What `size` bytes at `rva` are in the image `b` with sections `secs`:
/// they must lie in the section that `rva` resolves to.
pub open spec fn segment_spec(b: Seq<u8>, secs: Seq<SectionHeader>, rva: u32, size: u32) -> Result<
    Seq<u8>,
    Reason,
> {
    match found_section(secs, rva) {
        None => Err(Reason::RvaNotFound),
        Some(s) => {
            let offset = (rva - s.virtual_address) as u32;
            if size > s.virtual_size_physical_address - offset {
                Err(Reason::SegmentBeyondSectionEnd)
            } else {
                section_segment_spec(b, s, offset, size)
            }
        },
    }
}

/// The bytes from `rva` to the end of the section that `rva` resolves to.
pub open spec fn segment_from_spec(b: Seq<u8>, secs: Seq<SectionHeader>, rva: u32) -> Result<
    Seq<u8>,
    Reason,
> {
    match found_section(secs, rva) {
        None => Err(Reason::RvaNotFound),
        Some(s) => {
            let offset = (rva - s.virtual_address) as u32;
            section_segment_spec(b, s, offset, (s.virtual_size_physical_address - offset) as u32)
        },
    }
}

/// The bytes of `seg` before its first NUL, if it has one.
pub open spec fn c_string(seg: Seq<u8>) -> Option<Seq<u8>> {
    if exists|i: int| 0 <= i < seg.len() && seg[i] == 0 {
        let n = choose|i: int|
            0 <= i < seg.len() && seg[i] == 0 && forall|j: int| 0 <= j < i ==> seg[j] != 0;
        Some(seg.take(n))
    } else {
        None
    }
}

/// A buffer that holds an image laid out at its virtual addresses, with
/// headers that passed validation.
#[derive(Clone, Copy)]
pub struct View<'a> {
    data: &'a [u8],
}

impl<'a> View<'a> {
    #[verifier::type_invariant]
    spec fn valid(self) -> bool {
        validate_spec(self.data@) is Ok
    }

    /// The bytes of the image.
    pub closed spec fn bytes(self) -> Seq<u8> {
        self.data@
    }

    /// The headers of a view are those stored in its bytes.
    pub proof fn lemma_headers(v: View<'a>)
        ensures
            v.headers() == headers_at(v.bytes()),
    {
    }

    /// A view of `data`, if its headers pass validation.
    pub fn new(data: &'a [u8]) -> (r: Result<View<'a>, Error>)
        ensures
            match r {
                Ok(v) => v.bytes() == data@ && validate_spec(data@) is Ok,
                Err(e) => validate_spec(data@) == Err::<(), Reason>(e.reason),
            },
    {
        validate_headers(data)?;
        Ok(View { data })
    }

    /// The bytes of the image; their headers pass validation.
    pub fn data(&self) -> (r: &'a [u8])
        ensures
            r@ == self.bytes(),
            validate_spec(r@) is Ok,
    {
        proof {
            use_type_invariant(self);
        }
        self.data
    }

    fn pe_offset(&self) -> (r: usize)
        ensures
            r == pe_offset(self.bytes()),
            SIZEOF_DOS_HEADER <= r <= self.bytes().len(),
    {
        proof {
            use_type_invariant(self);
        }
        DosHeader::read(self.data, 0).lfanew as usize
    }

    pub fn to_ref(&self) -> (r: View<'a>)
        ensures
            r.bytes() == self.bytes(),
    {
        proof {
            use_type_invariant(self);
        }
        View { data: self.data }
    }
}

impl<'a> PeHeaders for View<'a> {
    closed spec fn headers(&self) -> Headers {
        headers_at(self.data@)
    }

    fn kind(&self) -> (r: NtKind) {
        self.nt_headers().kind()
    }

    fn dos_header(&self) -> (r: DosHeader) {
        proof {
            use_type_invariant(self);
        }
        DosHeader::read(self.data, 0)
    }

    fn dos_stub(&self) -> (r: &[u8]) {
        let p = self.pe_offset();
        slice_subrange(self.data, SIZEOF_DOS_HEADER, p)
    }

    fn nt_headers(&self) -> (r: NtHeaders) {
        proof {
            use_type_invariant(self);
        }
        let p = self.pe_offset();
        if read_u16(self.data, p + 24) == NT_OPTIONAL_HDR32_MAGIC {
            NtHeaders::Win32(NtHeaders32::read(self.data, p))
        } else {
            NtHeaders::Win64(NtHeaders64::read(self.data, p))
        }
    }

    fn directory_headers(&self) -> (r: Vec<DataDirectory>) {
        proof {
            use_type_invariant(self);
            assert(self.data@.len() == self.data.len());
            assert(crate::parse::validate_prefix_spec(self.data@) is Ok);
        }
        let nt = self.nt_headers();
        let p = self.pe_offset();
        let d = p + SIZEOF_FILE_HEADER + 4 + nt.kind().size_of_optional_header();
        let n = nt.number_of_rva_and_sizes() as usize;
        let mut r: Vec<DataDirectory> = Vec::new();
        let mut i: usize = 0;
        while i < n
            invariant
                d + 8 * n <= self.data@.len() <= usize::MAX,
                d == crate::parse::directories_offset(self.data@),
                n == nt.spec_number_of_rva_and_sizes(),
                nt == headers_at(self.data@).nt,
                i <= n,
                r@ == directories_at(self.data@, d as int, i as nat),
            decreases n - i,
        {
            r.push(DataDirectory::read(self.data, d + SIZEOF_DATA_DIRECTORY * i));
            i = i + 1;
            assert(r@ =~= directories_at(self.data@, d as int, i as nat));
        }
        r
    }

    fn section_headers(&self) -> (r: Vec<SectionHeader>) {
        proof {
            use_type_invariant(self);
            assert(self.data@.len() == self.data.len());
            assert(crate::parse::validate_prefix_spec(self.data@) is Ok);
        }
        let nt = self.nt_headers();
        let p = self.pe_offset();
        let s = p + SIZEOF_FILE_HEADER + 4 + nt.file_header().size_of_optional_header as usize;
        let n = nt.file_header().number_of_sections as usize;
        let mut r: Vec<SectionHeader> = Vec::new();
        let mut i: usize = 0;
        while i < n
            invariant
                s + 40 * n <= self.data@.len() <= usize::MAX,
                s == crate::parse::sections_offset(self.data@),
                n == nt.spec_file_header().number_of_sections,
                nt == headers_at(self.data@).nt,
                i <= n,
                r@ == sections_at(self.data@, s as int, i as nat),
            decreases n - i,
        {
            r.push(SectionHeader::read(self.data, s + SIZEOF_SECTION_HEADER * i));
            i = i + 1;
            assert(r@ =~= sections_at(self.data@, s as int, i as nat));
        }
        r
    }
}

impl<'a> View<'a> {
    /// `size` bytes at `offset` into `section`, taken at the section's
    /// virtual address in the buffer.
    pub fn section_segment(&self, section: &SectionHeader, offset: u32, size: u32) -> (r: Result<
        &'a [u8],
        Error,
    >)
        ensures
            match r {
                Ok(seg) => section_segment_spec(self.bytes(), *section, offset, size) == Ok::<
                    Seq<u8>,
                    Reason,
                >(seg@),
                Err(e) => section_segment_spec(self.bytes(), *section, offset, size) == Err::<
                    Seq<u8>,
                    Reason,
                >(e.reason),
            },
    {
        let len = self.data.len();
        match section.virtual_address.checked_add(offset) {
            None => Err(invalid_data(Reason::BadSegmentRva)),
            Some(start) => match start.checked_add(size) {
                None => Err(invalid_data(Reason::BadSegmentRva)),
                Some(end) => {
                    if (end as usize) <= len {
                        Ok(slice_subrange(self.data, start as usize, end as usize))
                    } else {
                        Err(invalid_data(Reason::BadSegmentRva))
                    }
                },
            },
        }
    }

    /// The `size` bytes at `rva`, which must lie in one section.
    pub fn segment(&self, rva: u32, size: u32) -> (r: Result<&'a [u8], Error>)
        ensures
            match r {
                Ok(seg) => segment_spec(self.bytes(), self.headers().sections, rva, size) == Ok::<
                    Seq<u8>,
                    Reason,
                >(seg@),
                Err(e) => segment_spec(self.bytes(), self.headers().sections, rva, size) == Err::<
                    Seq<u8>,
                    Reason,
                >(e.reason),
            },
    {
        match self.find_section(rva) {
            None => Err(invalid_data(Reason::RvaNotFound)),
            Some(section) => {
                let offset = rva - section.virtual_address;
                let remaining = section.virtual_size_physical_address - offset;
                if size > remaining {
                    Err(invalid_data(Reason::SegmentBeyondSectionEnd))
                } else {
                    self.section_segment(&section, offset, size)
                }
            },
        }
    }

    /// The bytes from `rva` to the end of the section that holds it.
    pub fn segment_from(&self, rva: u32) -> (r: Result<&'a [u8], Error>)
        ensures
            match r {
                Ok(seg) => segment_from_spec(self.bytes(), self.headers().sections, rva) == Ok::<
                    Seq<u8>,
                    Reason,
                >(seg@),
                Err(e) => segment_from_spec(self.bytes(), self.headers().sections, rva) == Err::<
                    Seq<u8>,
                    Reason,
                >(e.reason),
            },
    {
        match self.find_section(rva) {
            None => Err(invalid_data(Reason::RvaNotFound)),
            Some(section) => {
                let offset = rva - section.virtual_address;
                self.section_segment(&section, offset, section.virtual_size_physical_address - offset)
            },
        }
    }

    /// The NUL-terminated string at `rva`, without its NUL; it must end
    /// within the section that holds `rva`.
    pub fn read_cstring(&self, rva: u32) -> (r: Result<Vec<u8>, Error>)
        ensures
            match segment_from_spec(self.bytes(), self.headers().sections, rva) {
                Err(reason) => r == Err::<Vec<u8>, Error>(Error { reason }),
                Ok(seg) => match c_string(seg) {
                    Some(name) => r is Ok && r->Ok_0@ == name,
                    None => r == Err::<Vec<u8>, Error>(Error { reason: Reason::CStringNotNullTerminated }),
                },
            },
    {
        let bytes = match self.segment_from(rva) {
            Ok(bytes) => bytes,
            Err(e) => return Err(e),
        };
        let mut data: Vec<u8> = Vec::new();
        let mut i: usize = 0;
        while i < bytes.len()
            invariant
                segment_from_spec(self.bytes(), self.headers().sections, rva) == Ok::<
                    Seq<u8>,
                    Reason,
                >(bytes@),
                i <= bytes@.len(),
                data@ == bytes@.take(i as int),
                forall|j: int| 0 <= j < i ==> bytes@[j] != 0,
            decreases bytes.len() - i,
        {
            let byte = bytes[i];
            if byte == 0 {
                proof {
                    let seg = bytes@;
                    assert(0 <= i < seg.len() && seg[i as int] == 0);
                    assert(0 <= i < seg.len() && seg[i as int] == 0 && forall|j: int|
                        0 <= j < i ==> seg[j] != 0);
                    let n = choose|k: int|
                        0 <= k < seg.len() && seg[k] == 0 && forall|j: int| 0 <= j < k ==> seg[j] != 0;
                    if n > i {
                        assert(seg[i as int] != 0);
                    }
                    assert(n == i);
                    assert(c_string(seg) == Some(seg.take(i as int)));
                }
                return Ok(data);
            }
            data.push(byte);
            i = i + 1;
            assert(data@ =~= bytes@.take(i as int));
        }
        Err(invalid_data(Reason::CStringNotNullTerminated))
    }

    /// The whole of `section`, at its virtual address.
    pub fn section(&self, section: &SectionHeader) -> (r: Result<&'a [u8], Error>)
        ensures
            match r {
                Ok(seg) => section_segment_spec(
                    self.bytes(),
                    *section,
                    0,
                    section.virtual_size_physical_address,
                ) == Ok::<Seq<u8>, Reason>(seg@),
                Err(e) => section_segment_spec(
                    self.bytes(),
                    *section,
                    0,
                    section.virtual_size_physical_address,
                ) == Err::<Seq<u8>, Reason>(e.reason),
            },
    {
        self.section_segment(section, 0, section.virtual_size_physical_address)
    }

    /// The table that `dir` locates.
    pub fn directory(&self, dir: &DataDirectory) -> (r: Result<&'a [u8], Error>)
        ensures
            match r {
                Ok(seg) => segment_spec(
                    self.bytes(),
                    self.headers().sections,
                    dir.virtual_address,
                    dir.size,
                ) == Ok::<Seq<u8>, Reason>(seg@),
                Err(e) => segment_spec(
                    self.bytes(),
                    self.headers().sections,
                    dir.virtual_address,
                    dir.size,
                ) == Err::<Seq<u8>, Reason>(e.reason),
            },
    {
        self.segment(dir.virtual_address, dir.size)
    }

    /// A decoder over the base-relocation directory.
    pub fn relocations(&self) -> (r: Result<RelocationIterator<'a>, Error>)
        ensures
            match found_directory(self.headers().dirs, DirectoryEntry::BaseReloc) {
                None => r == Err::<RelocationIterator<'a>, Error>(
                    Error { reason: Reason::RelocationSegmentNotFound },
                ),
                Some(d) => match segment_spec(
                    self.bytes(),
                    self.headers().sections,
                    d.virtual_address,
                    d.size,
                ) {
                    Err(reason) => r == Err::<RelocationIterator<'a>, Error>(Error { reason }),
                    Ok(seg) => r is Ok && r->Ok_0.data() == seg && r->Ok_0.state() == (
                        1u32,
                        0u32,
                        0int,
                    ),
                },
            },
    {
        match self.directory_header(DirectoryEntry::BaseReloc) {
            None => Err(invalid_data(Reason::RelocationSegmentNotFound)),
            Some(d) => match self.directory(&d) {
                Ok(seg) => Ok(RelocationIterator::new(seg)),
                Err(e) => Err(e),
            },
        }
    }

    /// A decoder over the import directory.
    pub fn imports(&self) -> (r: Result<ImportIterator<'a>, Error>)
        ensures
            match found_directory(self.headers().dirs, DirectoryEntry::Import) {
                None => r == Err::<ImportIterator<'a>, Error>(
                    Error { reason: Reason::ImportSegmentNotFound },
                ),
                Some(d) => match segment_spec(
                    self.bytes(),
                    self.headers().sections,
                    d.virtual_address,
                    d.size,
                ) {
                    Err(reason) => r == Err::<ImportIterator<'a>, Error>(Error { reason }),
                    Ok(seg) => r is Ok && r->Ok_0.data() == seg && r->Ok_0.pos() == 0
                        && !r->Ok_0.fused(),
                },
            },
    {
        match self.directory_header(DirectoryEntry::Import) {
            None => Err(invalid_data(Reason::ImportSegmentNotFound)),
            Some(d) => match self.directory(&d) {
                Ok(seg) => Ok(ImportIterator::new(seg)),
                Err(e) => Err(e),
            },
        }
    }

    /// A decoder over the thunk table of one imported module: the one that
    /// `original_first_thunk` locates, or `first_thunk` where that is zero.
    pub fn import_table(&self, desc: &ImportDescriptor) -> (r: Result<ImportTableIterator<'a>, Error>)
        ensures
            ({
                let address = if desc.characteristics_original_first_thunk == 0 {
                    desc.first_thunk
                } else {
                    desc.characteristics_original_first_thunk
                };
                match segment_from_spec(self.bytes(), self.headers().sections, address) {
                    Err(reason) => r == Err::<ImportTableIterator<'a>, Error>(Error { reason }),
                    Ok(seg) => r is Ok && r->Ok_0.data() == seg && r->Ok_0.pos() == 0
                        && !r->Ok_0.fused() && r->Ok_0.image().bytes() == self.bytes(),
                }
            }),
    {
        let address = if desc.characteristics_original_first_thunk == 0 {
            desc.first_thunk
        } else {
            desc.characteristics_original_first_thunk
        };
        match self.segment_from(address) {
            Ok(seg) => Ok(ImportTableIterator::new(seg, self.to_ref())),
            Err(e) => Err(e),
        }
    }
}

} // verus!
