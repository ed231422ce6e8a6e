//! The width-tagged view of the NT headers, and the values that the
//! relocation and import decoders produce.
use vstd::prelude::*;
use crate::image::{
    FileHeader, NtHeaders32, NtHeaders64, OptionalHeader32, OptionalHeader64,
    SIZEOF_FILE_HEADER, SIZEOF_OPTIONAL_HEADER32, SIZEOF_OPTIONAL_HEADER64,
    SIZEOF_SECTION_HEADER,
};

verus! {

/// The well-known tables that the data directories locate, in directory order.
#[derive(Debug, Clone, Copy, PartialEq, Eq, Structural, Hash)]
pub enum DirectoryEntry {
    Export,
    Import,
    Resource,
    Exception,
    Security,
    BaseReloc,
    Debug,
    Architecture,
    GlobalPtr,
    Tls,
    LoadConfig,
    BoundImport,
    Iat,
    DelayImport,
    ComDescriptor,
}

impl DirectoryEntry {
    /// The position of this table's record among the data directories.
    pub open spec fn spec_index(self) -> usize {
        match self {
            DirectoryEntry::Export => 0,
            DirectoryEntry::Import => 1,
            DirectoryEntry::Resource => 2,
            DirectoryEntry::Exception => 3,
            DirectoryEntry::Security => 4,
            DirectoryEntry::BaseReloc => 5,
            DirectoryEntry::Debug => 6,
            DirectoryEntry::Architecture => 7,
            DirectoryEntry::GlobalPtr => 8,
            DirectoryEntry::Tls => 9,
            DirectoryEntry::LoadConfig => 10,
            DirectoryEntry::BoundImport => 11,
            DirectoryEntry::Iat => 12,
            DirectoryEntry::DelayImport => 13,
            DirectoryEntry::ComDescriptor => 14,
        }
    }

    pub fn index(&self) -> (r: usize)
        ensures
            r == self.spec_index(),
    {
        match self {
            DirectoryEntry::Export => 0,
            DirectoryEntry::Import => 1,
            DirectoryEntry::Resource => 2,
            DirectoryEntry::Exception => 3,
            DirectoryEntry::Security => 4,
            DirectoryEntry::BaseReloc => 5,
            DirectoryEntry::Debug => 6,
            DirectoryEntry::Architecture => 7,
            DirectoryEntry::GlobalPtr => 8,
            DirectoryEntry::Tls => 9,
            DirectoryEntry::LoadConfig => 10,
            DirectoryEntry::BoundImport => 11,
            DirectoryEntry::Iat => 12,
            DirectoryEntry::DelayImport => 13,
            DirectoryEntry::ComDescriptor => 14,
        }
    }
}

/// An imported symbol: by ordinal, or by name with a hint.
#[derive(Debug, Clone, PartialEq, Eq)]
pub enum ImportSymbol {
    Ordinal(u16),
    Name { ordinal_hint: u16, name: Vec<u8> },
}

/// An imported symbol, with the name as a sequence of bytes.
pub enum ImportSymbolView {
    Ordinal(u16),
    Name { ordinal_hint: u16, name: Seq<u8> },
}

impl View for ImportSymbol {
    type V = ImportSymbolView;

    open spec fn view(&self) -> ImportSymbolView {
        match self {
            ImportSymbol::Ordinal(o) => ImportSymbolView::Ordinal(*o),
            ImportSymbol::Name { ordinal_hint, name } => ImportSymbolView::Name {
                ordinal_hint: *ordinal_hint,
                name: name@,
            },
        }
    }
}

/// One decoded base relocation: what to patch, and where.
#[derive(Debug, Clone, Copy, PartialEq, Eq, Structural)]
pub struct Relocation {
    pub kind: RelocationKind,
    pub address: u32,
}

/// The kinds of base relocation. Codes 6 and 8 are reserved, and none is above 10.
#[derive(Debug, Clone, Copy, PartialEq, Eq, Structural, Hash)]
pub enum RelocationKind {
    Absolute,
    High,
    Low,
    HighLow,
    HighAdj,
    MipsJmpAddrArmMov32,
    ThumbMov32,
    MipsJmpAddr16Ia64Imm64,
    Dir64,
}

impl RelocationKind {
    /// The 4-bit code that stands for this kind in a relocation entry.
    pub open spec fn code(self) -> u8 {
        match self {
            RelocationKind::Absolute => 0,
            RelocationKind::High => 1,
            RelocationKind::Low => 2,
            RelocationKind::HighLow => 3,
            RelocationKind::HighAdj => 4,
            RelocationKind::MipsJmpAddrArmMov32 => 5,
            RelocationKind::ThumbMov32 => 7,
            RelocationKind::MipsJmpAddr16Ia64Imm64 => 9,
            RelocationKind::Dir64 => 10,
        }
    }

    /// Whether `v` is the code of some kind.
    pub open spec fn is_code(v: u8) -> bool {
        v <= 10 && v != 6 && v != 8
    }

    /// The kind whose code is `v`, if any.
    pub open spec fn spec_from_kind(v: u8) -> Option<RelocationKind> {
        if v == 0 {
            Some(RelocationKind::Absolute)
        } else if v == 1 {
            Some(RelocationKind::High)
        } else if v == 2 {
            Some(RelocationKind::Low)
        } else if v == 3 {
            Some(RelocationKind::HighLow)
        } else if v == 4 {
            Some(RelocationKind::HighAdj)
        } else if v == 5 {
            Some(RelocationKind::MipsJmpAddrArmMov32)
        } else if v == 7 {
            Some(RelocationKind::ThumbMov32)
        } else if v == 9 {
            Some(RelocationKind::MipsJmpAddr16Ia64Imm64)
        } else if v == 10 {
            Some(RelocationKind::Dir64)
        } else {
            None
        }
    }

    pub fn from_kind(v: u8) -> (r: Option<RelocationKind>)
        ensures
            r == RelocationKind::spec_from_kind(v),
            r is Some <==> RelocationKind::is_code(v),
            r matches Some(k) ==> k.code() == v,
    {
        match v {
            0 => Some(RelocationKind::Absolute),
            1 => Some(RelocationKind::High),
            2 => Some(RelocationKind::Low),
            3 => Some(RelocationKind::HighLow),
            4 => Some(RelocationKind::HighAdj),
            5 => Some(RelocationKind::MipsJmpAddrArmMov32),
            7 => Some(RelocationKind::ThumbMov32),
            9 => Some(RelocationKind::MipsJmpAddr16Ia64Imm64),
            10 => Some(RelocationKind::Dir64),
            _ => None,
        }
    }
}

/// The word width of an image.
#[derive(Debug, Clone, Copy, PartialEq, Eq, Structural, Hash)]
pub enum NtKind {
    Win32,
    Win64,
}

impl NtKind {
    pub open spec fn spec_size_of_optional_header(self) -> usize {
        match self {
            NtKind::Win32 => SIZEOF_OPTIONAL_HEADER32,
            NtKind::Win64 => SIZEOF_OPTIONAL_HEADER64,
        }
    }

    /// The size of the fixed part of the optional header for this width.
    pub fn size_of_optional_header(&self) -> (r: usize)
        ensures
            r == self.spec_size_of_optional_header(),
    {
        match self {
            NtKind::Win32 => SIZEOF_OPTIONAL_HEADER32,
            NtKind::Win64 => SIZEOF_OPTIONAL_HEADER64,
        }
    }
}

/// The NT headers of an image of either width.
#[derive(Debug, Clone, Copy, PartialEq, Eq)]
pub enum NtHeaders {
    Win32(NtHeaders32),
    Win64(NtHeaders64),
}

impl NtHeaders {
    pub open spec fn spec_kind(self) -> NtKind {
        match self {
            NtHeaders::Win32(_) => NtKind::Win32,
            NtHeaders::Win64(_) => NtKind::Win64,
        }
    }

    pub open spec fn spec_signature(self) -> u32 {
        match self {
            NtHeaders::Win32(nt) => nt.signature,
            NtHeaders::Win64(nt) => nt.signature,
        }
    }

    pub open spec fn spec_file_header(self) -> FileHeader {
        match self {
            NtHeaders::Win32(nt) => nt.file_header,
            NtHeaders::Win64(nt) => nt.file_header,
        }
    }

    pub open spec fn spec_magic(self) -> u16 {
        match self {
            NtHeaders::Win32(nt) => nt.optional_header.magic,
            NtHeaders::Win64(nt) => nt.optional_header.magic,
        }
    }

    pub open spec fn spec_size_of_image(self) -> u32 {
        match self {
            NtHeaders::Win32(nt) => nt.optional_header.size_of_image,
            NtHeaders::Win64(nt) => nt.optional_header.size_of_image,
        }
    }

    pub open spec fn spec_size_of_headers(self) -> u32 {
        match self {
            NtHeaders::Win32(nt) => nt.optional_header.size_of_headers,
            NtHeaders::Win64(nt) => nt.optional_header.size_of_headers,
        }
    }

    pub open spec fn spec_number_of_rva_and_sizes(self) -> u32 {
        match self {
            NtHeaders::Win32(nt) => nt.optional_header.number_of_rva_and_sizes,
            NtHeaders::Win64(nt) => nt.optional_header.number_of_rva_and_sizes,
        }
    }

    /// The bytes that the NT headers and the section table take together,
    /// with the optional header counted at its declared size.
    pub open spec fn spec_len(self) -> int {
        self.spec_file_header().number_of_sections * SIZEOF_SECTION_HEADER
            + self.spec_file_header().size_of_optional_header + SIZEOF_FILE_HEADER + 4
    }

    /// The 64-bit image base: in the 64-bit layout its low half is stored
    /// where the 32-bit layout keeps `base_of_data`.
    pub open spec fn spec_image_base(self) -> u64 {
        match self {
            NtHeaders::Win32(nt) => nt.optional_header.image_base as u64,
            NtHeaders::Win64(nt) => (nt.optional_header.base_of_data as int + 0x1_0000_0000
                * nt.optional_header.image_base as int) as u64,
        }
    }

    /// The bytes that store these headers, without directories.
    pub open spec fn bytes(self) -> Seq<u8> {
        match self {
            NtHeaders::Win32(nt) => nt.bytes_32(),
            NtHeaders::Win64(nt) => nt.bytes_64(),
        }
    }

    pub fn kind(&self) -> (r: NtKind)
        ensures
            r == self.spec_kind(),
    {
        match self {
            NtHeaders::Win32(_) => NtKind::Win32,
            NtHeaders::Win64(_) => NtKind::Win64,
        }
    }

    pub fn len(&self) -> (r: usize)
        ensures
            r == self.spec_len(),
    {
        let fh = self.file_header();
        fh.number_of_sections as usize * SIZEOF_SECTION_HEADER + fh.size_of_optional_header as usize
            + SIZEOF_FILE_HEADER + 4
    }

    pub fn signature(&self) -> (r: u32)
        ensures
            r == self.spec_signature(),
    {
        match self {
            NtHeaders::Win32(nt) => nt.signature,
            NtHeaders::Win64(nt) => nt.signature,
        }
    }

    pub fn file_header(&self) -> (r: &FileHeader)
        ensures
            *r == self.spec_file_header(),
    {
        match self {
            NtHeaders::Win32(nt) => &nt.file_header,
            NtHeaders::Win64(nt) => &nt.file_header,
        }
    }

    pub fn optional_header_32(&self) -> (r: Option<&OptionalHeader32>)
        ensures
            r == (match self {
                NtHeaders::Win32(nt) => Some(&nt.optional_header),
                NtHeaders::Win64(_) => None,
            }),
    {
        match self {
            NtHeaders::Win32(nt) => Some(&nt.optional_header),
            NtHeaders::Win64(_) => None,
        }
    }

    pub fn optional_header_64(&self) -> (r: Option<&OptionalHeader64>)
        ensures
            r == (match self {
                NtHeaders::Win32(_) => None,
                NtHeaders::Win64(nt) => Some(&nt.optional_header),
            }),
    {
        match self {
            NtHeaders::Win32(_) => None,
            NtHeaders::Win64(nt) => Some(&nt.optional_header),
        }
    }

    /// Appends the bytes that store these headers to `out`.
    pub fn write_to(&self, out: &mut Vec<u8>)
        ensures
            final(out)@ == old(out)@ + self.bytes(),
    {
        match self {
            NtHeaders::Win32(nt) => nt.write_to(out),
            NtHeaders::Win64(nt) => nt.write_to(out),
        }
    }

    pub fn magic(&self) -> (r: u16)
        ensures
            r == self.spec_magic(),
    {
        match self {
            NtHeaders::Win32(nt) => nt.optional_header.magic,
            NtHeaders::Win64(nt) => nt.optional_header.magic,
        }
    }

    pub fn size_of_image(&self) -> (r: u32)
        ensures
            r == self.spec_size_of_image(),
    {
        match self {
            NtHeaders::Win32(nt) => nt.optional_header.size_of_image,
            NtHeaders::Win64(nt) => nt.optional_header.size_of_image,
        }
    }

    pub fn size_of_headers(&self) -> (r: u32)
        ensures
            r == self.spec_size_of_headers(),
    {
        match self {
            NtHeaders::Win32(nt) => nt.optional_header.size_of_headers,
            NtHeaders::Win64(nt) => nt.optional_header.size_of_headers,
        }
    }

    pub fn number_of_rva_and_sizes(&self) -> (r: u32)
        ensures
            r == self.spec_number_of_rva_and_sizes(),
    {
        match self {
            NtHeaders::Win32(nt) => nt.optional_header.number_of_rva_and_sizes,
            NtHeaders::Win64(nt) => nt.optional_header.number_of_rva_and_sizes,
        }
    }

    pub fn image_base(&self) -> (r: u64)
        ensures
            r == self.spec_image_base(),
    {
        match self {
            NtHeaders::Win32(nt) => nt.optional_header.image_base as u64,
            NtHeaders::Win64(nt) => nt.optional_header.base_of_data as u64
                + nt.optional_header.image_base as u64 * 0x1_0000_0000,
        }
    }

    pub fn base_of_data(&self) -> (r: Option<u32>)
        ensures
            r == (match self {
                NtHeaders::Win32(nt) => Some(nt.optional_header.base_of_data),
                NtHeaders::Win64(_) => None,
            }),
    {
        match self {
            NtHeaders::Win32(nt) => Some(nt.optional_header.base_of_data),
            NtHeaders::Win64(_) => None,
        }
    }
}

impl NtHeaders {
    pub fn major_linker_version(&self) -> (r: u8)
        ensures
            r == (match self {
                NtHeaders::Win32(nt) => nt.optional_header.major_linker_version,
                NtHeaders::Win64(nt) => nt.optional_header.major_linker_version,
            }),
    {
        match self {
            NtHeaders::Win32(nt) => nt.optional_header.major_linker_version,
            NtHeaders::Win64(nt) => nt.optional_header.major_linker_version,
        }
    }

    pub fn minor_linker_version(&self) -> (r: u8)
        ensures
            r == (match self {
                NtHeaders::Win32(nt) => nt.optional_header.minor_linker_version,
                NtHeaders::Win64(nt) => nt.optional_header.minor_linker_version,
            }),
    {
        match self {
            NtHeaders::Win32(nt) => nt.optional_header.minor_linker_version,
            NtHeaders::Win64(nt) => nt.optional_header.minor_linker_version,
        }
    }

    pub fn size_of_code(&self) -> (r: u32)
        ensures
            r == (match self {
                NtHeaders::Win32(nt) => nt.optional_header.size_of_code,
                NtHeaders::Win64(nt) => nt.optional_header.size_of_code,
            }),
    {
        match self {
            NtHeaders::Win32(nt) => nt.optional_header.size_of_code,
            NtHeaders::Win64(nt) => nt.optional_header.size_of_code,
        }
    }

    pub fn size_of_initialized_data(&self) -> (r: u32)
        ensures
            r == (match self {
                NtHeaders::Win32(nt) => nt.optional_header.size_of_initialized_data,
                NtHeaders::Win64(nt) => nt.optional_header.size_of_initialized_data,
            }),
    {
        match self {
            NtHeaders::Win32(nt) => nt.optional_header.size_of_initialized_data,
            NtHeaders::Win64(nt) => nt.optional_header.size_of_initialized_data,
        }
    }

    pub fn size_of_uninitialized_data(&self) -> (r: u32)
        ensures
            r == (match self {
                NtHeaders::Win32(nt) => nt.optional_header.size_of_uninitialized_data,
                NtHeaders::Win64(nt) => nt.optional_header.size_of_uninitialized_data,
            }),
    {
        match self {
            NtHeaders::Win32(nt) => nt.optional_header.size_of_uninitialized_data,
            NtHeaders::Win64(nt) => nt.optional_header.size_of_uninitialized_data,
        }
    }

    pub fn address_of_entry_point(&self) -> (r: u32)
        ensures
            r == (match self {
                NtHeaders::Win32(nt) => nt.optional_header.address_of_entry_point,
                NtHeaders::Win64(nt) => nt.optional_header.address_of_entry_point,
            }),
    {
        match self {
            NtHeaders::Win32(nt) => nt.optional_header.address_of_entry_point,
            NtHeaders::Win64(nt) => nt.optional_header.address_of_entry_point,
        }
    }

    pub fn base_of_code(&self) -> (r: u32)
        ensures
            r == (match self {
                NtHeaders::Win32(nt) => nt.optional_header.base_of_code,
                NtHeaders::Win64(nt) => nt.optional_header.base_of_code,
            }),
    {
        match self {
            NtHeaders::Win32(nt) => nt.optional_header.base_of_code,
            NtHeaders::Win64(nt) => nt.optional_header.base_of_code,
        }
    }

    pub fn section_alignment(&self) -> (r: u32)
        ensures
            r == (match self {
                NtHeaders::Win32(nt) => nt.optional_header.section_alignment,
                NtHeaders::Win64(nt) => nt.optional_header.section_alignment,
            }),
    {
        match self {
            NtHeaders::Win32(nt) => nt.optional_header.section_alignment,
            NtHeaders::Win64(nt) => nt.optional_header.section_alignment,
        }
    }

    pub fn file_alignment(&self) -> (r: u32)
        ensures
            r == (match self {
                NtHeaders::Win32(nt) => nt.optional_header.file_alignment,
                NtHeaders::Win64(nt) => nt.optional_header.file_alignment,
            }),
    {
        match self {
            NtHeaders::Win32(nt) => nt.optional_header.file_alignment,
            NtHeaders::Win64(nt) => nt.optional_header.file_alignment,
        }
    }

    pub fn major_operating_system_version(&self) -> (r: u16)
        ensures
            r == (match self {
                NtHeaders::Win32(nt) => nt.optional_header.major_operating_system_version,
                NtHeaders::Win64(nt) => nt.optional_header.major_operating_system_version,
            }),
    {
        match self {
            NtHeaders::Win32(nt) => nt.optional_header.major_operating_system_version,
            NtHeaders::Win64(nt) => nt.optional_header.major_operating_system_version,
        }
    }

    pub fn minor_operating_system_version(&self) -> (r: u16)
        ensures
            r == (match self {
                NtHeaders::Win32(nt) => nt.optional_header.minor_operating_system_version,
                NtHeaders::Win64(nt) => nt.optional_header.minor_operating_system_version,
            }),
    {
        match self {
            NtHeaders::Win32(nt) => nt.optional_header.minor_operating_system_version,
            NtHeaders::Win64(nt) => nt.optional_header.minor_operating_system_version,
        }
    }

    pub fn major_image_version(&self) -> (r: u16)
        ensures
            r == (match self {
                NtHeaders::Win32(nt) => nt.optional_header.major_image_version,
                NtHeaders::Win64(nt) => nt.optional_header.major_image_version,
            }),
    {
        match self {
            NtHeaders::Win32(nt) => nt.optional_header.major_image_version,
            NtHeaders::Win64(nt) => nt.optional_header.major_image_version,
        }
    }

    pub fn minor_image_version(&self) -> (r: u16)
        ensures
            r == (match self {
                NtHeaders::Win32(nt) => nt.optional_header.minor_image_version,
                NtHeaders::Win64(nt) => nt.optional_header.minor_image_version,
            }),
    {
        match self {
            NtHeaders::Win32(nt) => nt.optional_header.minor_image_version,
            NtHeaders::Win64(nt) => nt.optional_header.minor_image_version,
        }
    }

    pub fn major_subsystem_version(&self) -> (r: u16)
        ensures
            r == (match self {
                NtHeaders::Win32(nt) => nt.optional_header.major_subsystem_version,
                NtHeaders::Win64(nt) => nt.optional_header.major_subsystem_version,
            }),
    {
        match self {
            NtHeaders::Win32(nt) => nt.optional_header.major_subsystem_version,
            NtHeaders::Win64(nt) => nt.optional_header.major_subsystem_version,
        }
    }

    pub fn minor_subsystem_version(&self) -> (r: u16)
        ensures
            r == (match self {
                NtHeaders::Win32(nt) => nt.optional_header.minor_subsystem_version,
                NtHeaders::Win64(nt) => nt.optional_header.minor_subsystem_version,
            }),
    {
        match self {
            NtHeaders::Win32(nt) => nt.optional_header.minor_subsystem_version,
            NtHeaders::Win64(nt) => nt.optional_header.minor_subsystem_version,
        }
    }

    pub fn win32_version_value(&self) -> (r: u32)
        ensures
            r == (match self {
                NtHeaders::Win32(nt) => nt.optional_header.win32_version_value,
                NtHeaders::Win64(nt) => nt.optional_header.win32_version_value,
            }),
    {
        match self {
            NtHeaders::Win32(nt) => nt.optional_header.win32_version_value,
            NtHeaders::Win64(nt) => nt.optional_header.win32_version_value,
        }
    }

    pub fn check_sum(&self) -> (r: u32)
        ensures
            r == (match self {
                NtHeaders::Win32(nt) => nt.optional_header.check_sum,
                NtHeaders::Win64(nt) => nt.optional_header.check_sum,
            }),
    {
        match self {
            NtHeaders::Win32(nt) => nt.optional_header.check_sum,
            NtHeaders::Win64(nt) => nt.optional_header.check_sum,
        }
    }

    pub fn subsystem(&self) -> (r: u16)
        ensures
            r == (match self {
                NtHeaders::Win32(nt) => nt.optional_header.subsystem,
                NtHeaders::Win64(nt) => nt.optional_header.subsystem,
            }),
    {
        match self {
            NtHeaders::Win32(nt) => nt.optional_header.subsystem,
            NtHeaders::Win64(nt) => nt.optional_header.subsystem,
        }
    }

    pub fn dll_characteristics(&self) -> (r: u16)
        ensures
            r == (match self {
                NtHeaders::Win32(nt) => nt.optional_header.dll_characteristics,
                NtHeaders::Win64(nt) => nt.optional_header.dll_characteristics,
            }),
    {
        match self {
            NtHeaders::Win32(nt) => nt.optional_header.dll_characteristics,
            NtHeaders::Win64(nt) => nt.optional_header.dll_characteristics,
        }
    }

    pub fn size_of_stack_reserve(&self) -> (r: u64)
        ensures
            r == (match self {
                NtHeaders::Win32(nt) => nt.optional_header.size_of_stack_reserve as u64,
                NtHeaders::Win64(nt) => nt.optional_header.size_of_stack_reserve,
            }),
    {
        match self {
            NtHeaders::Win32(nt) => nt.optional_header.size_of_stack_reserve as u64,
            NtHeaders::Win64(nt) => nt.optional_header.size_of_stack_reserve,
        }
    }

    pub fn size_of_stack_commit(&self) -> (r: u64)
        ensures
            r == (match self {
                NtHeaders::Win32(nt) => nt.optional_header.size_of_stack_commit as u64,
                NtHeaders::Win64(nt) => nt.optional_header.size_of_stack_commit,
            }),
    {
        match self {
            NtHeaders::Win32(nt) => nt.optional_header.size_of_stack_commit as u64,
            NtHeaders::Win64(nt) => nt.optional_header.size_of_stack_commit,
        }
    }

    pub fn size_of_heap_reserve(&self) -> (r: u64)
        ensures
            r == (match self {
                NtHeaders::Win32(nt) => nt.optional_header.size_of_heap_reserve as u64,
                NtHeaders::Win64(nt) => nt.optional_header.size_of_heap_reserve,
            }),
    {
        match self {
            NtHeaders::Win32(nt) => nt.optional_header.size_of_heap_reserve as u64,
            NtHeaders::Win64(nt) => nt.optional_header.size_of_heap_reserve,
        }
    }

    pub fn size_of_heap_commit(&self) -> (r: u64)
        ensures
            r == (match self {
                NtHeaders::Win32(nt) => nt.optional_header.size_of_heap_commit as u64,
                NtHeaders::Win64(nt) => nt.optional_header.size_of_heap_commit,
            }),
    {
        match self {
            NtHeaders::Win32(nt) => nt.optional_header.size_of_heap_commit as u64,
            NtHeaders::Win64(nt) => nt.optional_header.size_of_heap_commit,
        }
    }

    pub fn loader_flags(&self) -> (r: u32)
        ensures
            r == (match self {
                NtHeaders::Win32(nt) => nt.optional_header.loader_flags,
                NtHeaders::Win64(nt) => nt.optional_header.loader_flags,
            }),
    {
        match self {
            NtHeaders::Win32(nt) => nt.optional_header.loader_flags,
            NtHeaders::Win64(nt) => nt.optional_header.loader_flags,
        }
    }

}

} // verus!
