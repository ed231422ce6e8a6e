use winpe::image::{
    BaseRelocationEntry, DataDirectory, DosHeader, FileHeader, ImportDescriptor, NtHeaders64,
    OptionalHeader, SectionHeader, ThunkData32, ThunkData64, SIZEOF_DATA_DIRECTORY,
    SIZEOF_DOS_HEADER, SIZEOF_FILE_HEADER, SIZEOF_IMPORT_DESCRIPTOR, SIZEOF_OPTIONAL_HEADER32,
    SIZEOF_OPTIONAL_HEADER64, SIZEOF_SECTION_HEADER,
};
use winpe::image::{NtHeaders as RawNtHeaders, NtHeaders32, OptionalHeader32};
use winpe::parse::{read_headers, validate_headers, ImportIterator, RelocationIterator};
use winpe::{
    invalid_data, write_pe, DirectoryEntry, Error, File, ImportSymbol, NtHeaders, NtKind,
    PeHeaders, Reason, Relocation, RelocationKind, View,
};

const LFANEW: u32 = 0x80;
const IMAGE_SIZE: usize = 0x3000;

fn dos_header(lfanew: u32) -> DosHeader {
    DosHeader {
        magic: 0x5a4d,
        cblp: 0x90,
        cp: 3,
        crlc: 0,
        cparhdr: 4,
        minalloc: 0,
        maxalloc: 0xffff,
        ss: 0,
        sp: 0xb8,
        csum: 0,
        ip: 0,
        cs: 0,
        lfarlc: 0x40,
        ovno: 0,
        res: [0; 4],
        oemid: 0,
        oeminfo: 0,
        res2: [0; 10],
        lfanew,
    }
}

fn optional_header64(n_dirs: u32) -> OptionalHeader<u64> {
    OptionalHeader {
        magic: 0x20b,
        major_linker_version: 14,
        minor_linker_version: 2,
        size_of_code: 0x1000,
        size_of_initialized_data: 0x1000,
        size_of_uninitialized_data: 0,
        address_of_entry_point: 0x1010,
        base_of_code: 0x1000,
        base_of_data: 0x4000_0000,
        image_base: 0x1,
        section_alignment: 0x1000,
        file_alignment: 0x200,
        major_operating_system_version: 6,
        minor_operating_system_version: 0,
        major_image_version: 0,
        minor_image_version: 0,
        major_subsystem_version: 6,
        minor_subsystem_version: 0,
        win32_version_value: 0,
        size_of_image: IMAGE_SIZE as u32,
        size_of_headers: 0x400,
        check_sum: 0,
        subsystem: 3,
        dll_characteristics: 0x8160,
        size_of_stack_reserve: 0x10_0000_0000,
        size_of_stack_commit: 0x1000,
        size_of_heap_reserve: 0x10_0000,
        size_of_heap_commit: 0x1000,
        loader_flags: 0,
        number_of_rva_and_sizes: n_dirs,
    }
}

fn section(name: &[u8], va: u32, size: u32) -> SectionHeader {
    let mut n = [0u8; 8];
    n[..name.len()].copy_from_slice(name);
    SectionHeader {
        name: n,
        virtual_size_physical_address: size,
        virtual_address: va,
        size_of_raw_data: size,
        pointer_to_raw_data: va,
        pointer_to_relocations: 0,
        pointer_to_linenumbers: 0,
        number_of_relocations: 0,
        number_of_linenumbers: 0,
        characteristics: 0x6000_0020,
    }
}

fn put_u16(b: &mut [u8], at: usize, v: u16) {
    b[at..at + 2].copy_from_slice(&v.to_le_bytes());
}

fn put_u32(b: &mut [u8], at: usize, v: u32) {
    b[at..at + 4].copy_from_slice(&v.to_le_bytes());
}

fn put_u64(b: &mut [u8], at: usize, v: u64) {
    b[at..at + 8].copy_from_slice(&v.to_le_bytes());
}

fn directories() -> Vec<DataDirectory> {
    let mut dirs = vec![DataDirectory { virtual_address: 0, size: 0 }; 16];
    dirs[1] = DataDirectory { virtual_address: 0x2000, size: 2 * SIZEOF_IMPORT_DESCRIPTOR as u32 };
    dirs[5] = DataDirectory { virtual_address: 0x2100, size: 0x0a };
    dirs
}

fn sections() -> Vec<SectionHeader> {
    vec![section(b".text", 0x1000, 0x1000), section(b".data", 0x2000, 0x1000)]
}

/// The headers of the test image, encoded.
fn header_bytes(dirs: &[DataDirectory], secs: &[SectionHeader]) -> Vec<u8> {
    let mut out = Vec::new();
    dos_header(LFANEW).write_to(&mut out);
    out.extend(std::iter::repeat(0x11u8).take(LFANEW as usize - SIZEOF_DOS_HEADER));
    let nt = RawNtHeaders {
        signature: 0x4550,
        file_header: FileHeader {
            machine: 0x8664,
            number_of_sections: secs.len() as u16,
            time_date_stamp: 0x5f00_0000,
            pointer_to_symbol_table: 0,
            number_of_symbols: 0,
            size_of_optional_header: (SIZEOF_OPTIONAL_HEADER64 + dirs.len() * SIZEOF_DATA_DIRECTORY)
                as u16,
            characteristics: 0x22,
        },
        optional_header: optional_header64(dirs.len() as u32),
    };
    nt.write_to(&mut out);
    for d in dirs {
        d.write_to(&mut out);
    }
    for s in secs {
        s.write_to(&mut out);
    }
    out
}

/// A two-section 64-bit image laid out at its virtual addresses, with an
/// import directory and one base-relocation block.
fn image() -> Vec<u8> {
    let mut b = vec![0u8; IMAGE_SIZE];
    let h = header_bytes(&directories(), &sections());
    b[..h.len()].copy_from_slice(&h);
    for i in 0x1000..0x2000 {
        b[i] = (i % 251) as u8;
    }
    // import descriptor, then the all-zero terminator
    put_u32(&mut b, 0x2000, 0x2200);
    put_u32(&mut b, 0x2000 + 12, 0x2300);
    put_u32(&mut b, 0x2000 + 16, 0x2200);
    // relocation block: page 0x1000, one entry of kind 3 at offset 0x010
    put_u32(&mut b, 0x2100, 0x1000);
    put_u32(&mut b, 0x2104, 0x0a);
    put_u16(&mut b, 0x2108, 0x3010);
    // thunk table: an ordinal, a name, the terminator
    put_u64(&mut b, 0x2200, 0x8000_0000_0000_0007);
    put_u64(&mut b, 0x2208, 0x2400);
    b[0x2300..0x230d].copy_from_slice(b"KERNEL32.dll\0");
    put_u16(&mut b, 0x2400, 0x0102);
    b[0x2402..0x240e].copy_from_slice(b"ExitProcess\0");
    b
}

fn reason<T>(r: Result<T, Error>) -> Reason {
    match r {
        Ok(_) => panic!("expected an error"),
        Err(e) => e.reason,
    }
}

#[test]
fn sizes() {
    let mut out = Vec::new();
    dos_header(LFANEW).write_to(&mut out);
    assert_eq!(out.len(), SIZEOF_DOS_HEADER);
    let mut out = Vec::new();
    FileHeader {
        machine: 0,
        number_of_sections: 0,
        time_date_stamp: 0,
        pointer_to_symbol_table: 0,
        number_of_symbols: 0,
        size_of_optional_header: 0,
        characteristics: 0,
    }
    .write_to(&mut out);
    assert_eq!(out.len(), SIZEOF_FILE_HEADER);
    let mut out = Vec::new();
    optional_header64(16).write_to(&mut out);
    assert_eq!(out.len(), SIZEOF_OPTIONAL_HEADER64);
    assert_eq!(SIZEOF_OPTIONAL_HEADER64, 112);
    let o = optional_header64(16);
    let o32: OptionalHeader32 = OptionalHeader {
        magic: 0x10b,
        major_linker_version: o.major_linker_version,
        minor_linker_version: o.minor_linker_version,
        size_of_code: o.size_of_code,
        size_of_initialized_data: o.size_of_initialized_data,
        size_of_uninitialized_data: o.size_of_uninitialized_data,
        address_of_entry_point: o.address_of_entry_point,
        base_of_code: o.base_of_code,
        base_of_data: o.base_of_data,
        image_base: o.image_base,
        section_alignment: o.section_alignment,
        file_alignment: o.file_alignment,
        major_operating_system_version: 0,
        minor_operating_system_version: 0,
        major_image_version: 0,
        minor_image_version: 0,
        major_subsystem_version: 0,
        minor_subsystem_version: 0,
        win32_version_value: 0,
        size_of_image: 0,
        size_of_headers: 0,
        check_sum: 0,
        subsystem: 0,
        dll_characteristics: 0,
        size_of_stack_reserve: 0,
        size_of_stack_commit: 0,
        size_of_heap_reserve: 0,
        size_of_heap_commit: 0,
        loader_flags: 0,
        number_of_rva_and_sizes: 0,
    };
    let mut out = Vec::new();
    o32.write_to(&mut out);
    assert_eq!(out.len(), SIZEOF_OPTIONAL_HEADER32);
    assert_eq!(SIZEOF_OPTIONAL_HEADER32, 96);
    let mut out = Vec::new();
    section(b".text", 0, 0).write_to(&mut out);
    assert_eq!(out.len(), SIZEOF_SECTION_HEADER);
    let mut out = Vec::new();
    DataDirectory { virtual_address: 1, size: 2 }.write_to(&mut out);
    assert_eq!(out.len(), SIZEOF_DATA_DIRECTORY);
    let mut out = Vec::new();
    ImportDescriptor {
        characteristics_original_first_thunk: 0,
        time_date_stamp: 0,
        forwarder_chain: 0,
        name: 0,
        first_thunk: 0,
    }
    .write_to(&mut out);
    assert_eq!(out.len(), SIZEOF_IMPORT_DESCRIPTOR);
    assert_eq!(NtKind::Win32.size_of_optional_header(), 96);
    assert_eq!(NtKind::Win64.size_of_optional_header(), 112);
}

#[test]
fn built_image_validates() {
    let b = image();
    assert!(validate_headers(&b).is_ok());
    let view = View::new(&b).unwrap();
    assert_eq!(view.kind(), NtKind::Win64);
    assert_eq!(view.dos_header().lfanew, LFANEW);
    assert_eq!(view.dos_stub().len(), LFANEW as usize - SIZEOF_DOS_HEADER);
    assert_eq!(view.directory_headers(), directories());
    assert_eq!(view.section_headers(), sections());
    let nt = view.nt_headers();
    assert_eq!(nt.signature(), 0x4550);
    assert_eq!(nt.magic(), 0x20b);
    assert_eq!(nt.size_of_image(), 0x3000);
    assert_eq!(nt.number_of_rva_and_sizes(), 16);
    assert_eq!(nt.base_of_data(), None);
    assert_eq!(nt.len(), 4 + 20 + 240 + 2 * 40);
    assert_eq!(view.data().len(), IMAGE_SIZE);
    assert_eq!(view.to_ref().data(), view.data());
}

#[test]
fn image_base_joins_two_slots() {
    let b = image();
    let view = View::new(&b).unwrap();
    assert_eq!(view.nt_headers().image_base(), 0x1_4000_0000);
    assert_eq!(optional_header64(16).image_base(), 0x1_4000_0000);
    assert_eq!(view.nt_headers().size_of_stack_reserve(), 0x10_0000_0000);
}

#[test]
fn file_reads_same_headers_as_view() {
    let b = image();
    let file = File::new(&b).unwrap();
    let view = View::new(&b).unwrap();
    assert_eq!(file.dos_header(), view.dos_header());
    assert_eq!(file.dos_stub(), view.dos_stub());
    assert_eq!(file.nt_headers(), view.nt_headers());
    assert_eq!(file.directory_headers(), view.directory_headers());
    assert_eq!(file.section_headers(), view.section_headers());
    assert_eq!(file.kind(), NtKind::Win64);
    let (dos, stub, nt, dirs, secs) = read_headers(&b).unwrap();
    assert_eq!(dos, view.dos_header());
    assert_eq!(stub, view.dos_stub().to_vec());
    assert_eq!(nt, view.nt_headers());
    assert_eq!(dirs, directories());
    assert_eq!(secs, sections());
}

#[test]
fn short_input_is_truncated() {
    let b = image();
    for len in 0..SIZEOF_DOS_HEADER {
        assert_eq!(reason(validate_headers(&b[..len])), Reason::UnexpectedEof);
        assert_eq!(reason(View::new(&b[..len])), Reason::UnexpectedEof);
        assert_eq!(reason(File::new(&b[..len])), Reason::UnexpectedEof);
    }
}

#[test]
fn changed_dos_magic_is_rejected() {
    for i in 0..2 {
        let mut b = image();
        b[i] ^= 0x01;
        assert_eq!(reason(validate_headers(&b)), Reason::BadDosMagic);
    }
}

#[test]
fn changed_nt_signature_is_rejected() {
    for i in 0..4 {
        let mut b = image();
        b[LFANEW as usize + i] = 0xff;
        assert_eq!(reason(validate_headers(&b)), Reason::BadNtMagic);
    }
}

#[test]
fn changed_optional_magic_is_rejected() {
    for i in 0..2 {
        let mut b = image();
        b[LFANEW as usize + 24 + i] = 0x77;
        assert_eq!(reason(validate_headers(&b)), Reason::BadOptionalMagic);
    }
}

#[test]
fn validating_twice_gives_same_result() {
    let b = image();
    assert_eq!(validate_headers(&b), validate_headers(&b));
    assert_eq!(read_headers(&b), read_headers(&b));
    let mut bad = image();
    bad[0] = 0;
    assert_eq!(validate_headers(&bad), validate_headers(&bad));
    assert_eq!(reason(read_headers(&bad)), reason(validate_headers(&bad)));
}

#[test]
fn segment_resolves_inside_section() {
    let b = image();
    let view = View::new(&b).unwrap();
    assert_eq!(view.segment(0x1500, 0x10).unwrap(), &b[0x1500..0x1510]);
    assert_eq!(view.segment_from(0x1ff0).unwrap(), &b[0x1ff0..0x2000]);
    assert_eq!(view.section(&sections()[1]).unwrap(), &b[0x2000..0x3000]);
}

#[test]
fn segment_crossing_sections_fails() {
    let b = image();
    let view = View::new(&b).unwrap();
    assert_eq!(reason(view.segment(0x1ff8, 0x10)), Reason::SegmentBeyondSectionEnd);
    assert_eq!(reason(view.segment(0x3000, 1)), Reason::RvaNotFound);
    assert_eq!(reason(view.segment(0x0800, 1)), Reason::RvaNotFound);
}

#[test]
fn find_section_prefers_highest_address() {
    let b = image();
    let view = View::new(&b).unwrap();
    assert_eq!(view.find_section(0x1000), Some(sections()[0]));
    assert_eq!(view.find_section(0x2fff), Some(sections()[1]));
    assert_eq!(view.find_section(0x3000), None);
    let mut secs = sections();
    secs[0].virtual_size_physical_address = 0x2000;
    let mut b = image();
    let h = header_bytes(&directories(), &secs);
    b[..h.len()].copy_from_slice(&h);
    let view = View::new(&b).unwrap();
    assert_eq!(view.find_section(0x2100), Some(secs[1]));
    assert_eq!(view.find_section(0x1100), Some(secs[0]));
}

#[test]
fn directory_header_skips_empty() {
    let b = image();
    let view = View::new(&b).unwrap();
    assert_eq!(view.directory_header(DirectoryEntry::Import), Some(directories()[1]));
    assert_eq!(view.directory_header(DirectoryEntry::Export), None);
    assert_eq!(view.directory_header(DirectoryEntry::ComDescriptor), None);
}

#[test]
fn relocation_block_decodes() {
    let b = image();
    let view = View::new(&b).unwrap();
    let mut relocs = view.relocations().unwrap();
    assert_eq!(
        relocs.next(),
        Some(Ok(Relocation { kind: RelocationKind::HighLow, address: 0x1010 }))
    );
    assert_eq!(relocs.next(), None);
    assert_eq!(relocs.next(), None);
}

#[test]
fn relocation_zero_block_ends_sequence() {
    let data = [0x00, 0x10, 0, 0, 0x0c, 0, 0, 0, 0x10, 0xa0, 0x20, 0x00, 0, 0, 0, 0, 8, 0, 0, 0];
    let mut relocs = RelocationIterator::new(&data);
    assert_eq!(
        relocs.next(),
        Some(Ok(Relocation { kind: RelocationKind::Dir64, address: 0x1010 }))
    );
    assert_eq!(
        relocs.next(),
        Some(Ok(Relocation { kind: RelocationKind::Absolute, address: 0x1020 }))
    );
    assert_eq!(relocs.next(), None);
}

#[test]
fn relocation_reserved_kind_fails_then_stops() {
    for code in [6u16, 8, 11, 15] {
        let entry = (code << 12) | 4;
        let e = entry.to_le_bytes();
        let data = [0x00, 0x10, 0, 0, 0x0c, 0, 0, 0, e[0], e[1], 0x10, 0x30];
        let mut relocs = RelocationIterator::new(&data);
        assert_eq!(relocs.next(), Some(Err(invalid_data(Reason::BadRelocationKind))));
        assert_eq!(relocs.next(), None);
    }
}

#[test]
fn relocation_small_block_fails() {
    let data = [0x00, 0x10, 0, 0, 4, 0, 0, 0];
    let mut relocs = RelocationIterator::new(&data);
    assert_eq!(relocs.next(), Some(Err(invalid_data(Reason::BadRelocationBlockSize))));
    assert_eq!(relocs.next(), None);
}

#[test]
fn relocation_address_overflow_fails() {
    let data = [0x00, 0xf8, 0xff, 0xff, 0x0a, 0, 0, 0, 0x00, 0x3f];
    let mut relocs = RelocationIterator::new(&data);
    assert_eq!(relocs.next(), Some(Err(invalid_data(Reason::BadRelocationAddress))));
}

#[test]
fn relocation_kinds_map_codes() {
    assert_eq!(RelocationKind::from_kind(0), Some(RelocationKind::Absolute));
    assert_eq!(RelocationKind::from_kind(3), Some(RelocationKind::HighLow));
    assert_eq!(RelocationKind::from_kind(9), Some(RelocationKind::MipsJmpAddr16Ia64Imm64));
    assert_eq!(RelocationKind::from_kind(10), Some(RelocationKind::Dir64));
    assert_eq!(RelocationKind::from_kind(6), None);
    assert_eq!(RelocationKind::from_kind(8), None);
    assert_eq!(RelocationKind::from_kind(11), None);
    let e = BaseRelocationEntry { kind_offset: 0x3010 };
    assert_eq!(e.kind(), 3);
    assert_eq!(e.offset(), 0x010);
}

#[test]
fn import_descriptors_end_at_empty_name() {
    let b = image();
    let view = View::new(&b).unwrap();
    let mut imports = view.imports().unwrap();
    let desc = imports.next().unwrap().unwrap();
    assert_eq!(desc.name(), 0x2300);
    assert_eq!(desc.original_first_thunk(), 0x2200);
    assert_eq!(view.read_cstring(desc.name()).unwrap(), b"KERNEL32.dll".to_vec());
    assert!(imports.next().is_none());
    assert!(imports.next().is_none());
}

#[test]
fn import_descriptors_end_with_input() {
    let mut data = vec![0u8; 30];
    data[12] = 1;
    let mut imports = ImportIterator::new(&data);
    assert_eq!(imports.next().unwrap().unwrap().name, 1);
    assert!(imports.next().is_none());
}

#[test]
fn thunks_decode_ordinal_and_name() {
    let ordinal = ThunkData64 { data: 0x8000_0000_0000_0007 };
    assert!(ordinal.is_ordinal());
    assert_eq!(ordinal.ordinal16(), 7);
    let by_name = ThunkData64 { data: 0x2000 };
    assert!(!by_name.is_ordinal());
    assert_eq!(by_name.address_of_data(), 0x2000);

    let b = image();
    let view = View::new(&b).unwrap();
    let desc = view.imports().unwrap().next().unwrap().unwrap();
    let mut table = view.import_table(&desc).unwrap();
    assert_eq!(table.next(), Some(Ok(ImportSymbol::Ordinal(7))));
    assert_eq!(
        table.next(),
        Some(Ok(ImportSymbol::Name { ordinal_hint: 0x0102, name: b"ExitProcess".to_vec() }))
    );
    assert_eq!(table.next(), None);
    assert_eq!(table.next(), None);
}

#[test]
fn thunk_name_outside_sections_fails() {
    let mut b = image();
    put_u64(&mut b, 0x2208, 0x5000);
    let view = View::new(&b).unwrap();
    let desc = view.imports().unwrap().next().unwrap().unwrap();
    let mut table = view.import_table(&desc).unwrap();
    assert_eq!(table.next(), Some(Ok(ImportSymbol::Ordinal(7))));
    assert_eq!(table.next(), Some(Err(invalid_data(Reason::RvaNotFound))));
    assert_eq!(table.next(), None);
}

#[test]
fn thunk_widening_moves_flag() {
    let t = ThunkData64::from(ThunkData32 { data: 0x8000_0005 });
    assert_eq!(t.data, 0x8000_0000_0000_0005);
    let t = ThunkData64::from(ThunkData32 { data: 0x0000_2000 });
    assert_eq!(t.data, 0x2000);
    assert!(ThunkData32 { data: 0x8000_0005 }.is_ordinal());
    assert_eq!(ThunkData32 { data: 0x8000_0005 }.ordinal16(), 5);
}

#[test]
fn unterminated_string_fails() {
    let mut b = image();
    for i in 0x2f00..0x3000 {
        b[i] = b'a';
    }
    let view = View::new(&b).unwrap();
    assert_eq!(reason(view.read_cstring(0x2f00)), Reason::CStringNotNullTerminated);
    assert_eq!(view.read_cstring(0x2402).unwrap(), b"ExitProcess".to_vec());
}

#[test]
fn missing_directories_are_reported() {
    let mut dirs = directories();
    dirs[1].size = 0;
    dirs[5].size = 0;
    let mut b = image();
    let h = header_bytes(&dirs, &sections());
    b[..h.len()].copy_from_slice(&h);
    let view = View::new(&b).unwrap();
    assert_eq!(reason(view.relocations()), Reason::RelocationSegmentNotFound);
    assert_eq!(reason(view.imports()), Reason::ImportSegmentNotFound);
}

#[test]
fn write_reproduces_image() {
    let b = image();
    let view = View::new(&b).unwrap();
    let out = write_pe(&view, false).unwrap();
    assert_eq!(out, b);
    let again = File::new(&out).unwrap();
    assert_eq!(again.nt_headers(), view.nt_headers());
    assert_eq!(again.section_headers(), view.section_headers());
    let raw = write_pe(&view, true).unwrap();
    assert_eq!(raw, b);
}

#[test]
fn write_orders_sections_by_offset() {
    let secs = vec![section(b".data", 0x2000, 0x1000), section(b".text", 0x1000, 0x1000)];
    let mut b = image();
    let h = header_bytes(&directories(), &secs);
    b[..h.len()].copy_from_slice(&h);
    let view = View::new(&b).unwrap();
    let out = write_pe(&view, false).unwrap();
    assert_eq!(out.len(), IMAGE_SIZE);
    assert_eq!(&out[0x1000..0x2000], &b[0x1000..0x2000]);
    assert_eq!(&out[0x2000..], &b[0x2000..]);
}

#[test]
fn write_rejects_overlapping_sections() {
    let secs = vec![section(b".text", 0x1000, 0x1800), section(b".data", 0x2000, 0x1000)];
    let mut b = image();
    let h = header_bytes(&directories(), &secs);
    b[..h.len()].copy_from_slice(&h);
    let view = View::new(&b).unwrap();
    assert_eq!(reason(write_pe(&view, false)), Reason::BadSectionOffset);
}

#[test]
fn header_errors_are_reported() {
    let base = image();
    let p = LFANEW as usize;

    let mut b = base.clone();
    put_u32(&mut b, 0x3c, 0x20);
    assert_eq!(reason(validate_headers(&b)), Reason::BadPeOffset);

    let mut b = base.clone();
    put_u32(&mut b, 0x3c, 0x4000);
    assert_eq!(reason(validate_headers(&b)), Reason::PeOffsetPastEof);

    assert_eq!(reason(validate_headers(&base[..p + 20])), Reason::UnexpectedEof);
    assert_eq!(reason(validate_headers(&base[..p + 100])), Reason::UnexpectedEof);

    let mut b = base.clone();
    put_u16(&mut b, p + 20, 100);
    assert_eq!(reason(validate_headers(&b)), Reason::BadSizeOfOptionalHeader);

    let mut b = base.clone();
    put_u16(&mut b, p + 20, 0xff00);
    put_u32(&mut b, p + 24 + 60, 0xffff_0000);
    assert_eq!(reason(validate_headers(&b[..0x400])), Reason::TrailingDataDirectoryEof);

    let mut b = base.clone();
    let sec0 = p + 24 + 240;
    put_u32(&mut b, sec0 + 8, 0xffff_f000);
    assert_eq!(reason(validate_headers(&b)), Reason::BadSectionVirtualSize);

    let mut b = base.clone();
    put_u32(&mut b, p + 24 + 56, 0x2800);
    assert_eq!(reason(validate_headers(&b)), Reason::InvalidSizeOfImage);

    let mut b = base.clone();
    put_u32(&mut b, p + 24 + 60, 0x100);
    assert_eq!(reason(validate_headers(&b)), Reason::BadSizeOfHeaders);

    assert_eq!(reason(validate_headers(&base[..0x300])), Reason::TrailingHeaderEof);

    let mut b = base.clone();
    put_u16(&mut b, p + 6, 200);
    assert_eq!(reason(validate_headers(&b[..0x200])), Reason::UnexpectedEof);
}

#[test]
fn thirty_two_bit_image_validates() {
    let mut out = Vec::new();
    dos_header(0x40).write_to(&mut out);
    let o = optional_header64(0);
    let nt: NtHeaders32 = RawNtHeaders {
        signature: 0x4550,
        file_header: FileHeader {
            machine: 0x14c,
            number_of_sections: 0,
            time_date_stamp: 0,
            pointer_to_symbol_table: 0,
            number_of_symbols: 0,
            size_of_optional_header: 96,
            characteristics: 0x102,
        },
        optional_header: OptionalHeader {
            magic: 0x10b,
            major_linker_version: 1,
            minor_linker_version: 0,
            size_of_code: 0,
            size_of_initialized_data: 0,
            size_of_uninitialized_data: 0,
            address_of_entry_point: 0,
            base_of_code: 0,
            base_of_data: 0x2000,
            image_base: 0x40_0000,
            section_alignment: o.section_alignment,
            file_alignment: o.file_alignment,
            major_operating_system_version: 4,
            minor_operating_system_version: 0,
            major_image_version: 0,
            minor_image_version: 0,
            major_subsystem_version: 4,
            minor_subsystem_version: 0,
            win32_version_value: 0,
            size_of_image: 0x200,
            size_of_headers: 0x100,
            check_sum: 0,
            subsystem: 2,
            dll_characteristics: 0,
            size_of_stack_reserve: 0x10_0000,
            size_of_stack_commit: 0x1000,
            size_of_heap_reserve: 0x10_0000,
            size_of_heap_commit: 0x1000,
            loader_flags: 0,
            number_of_rva_and_sizes: 0,
        },
    };
    nt.write_to(&mut out);
    out.resize(0x100, 0);
    let view = View::new(&out).unwrap();
    assert_eq!(view.kind(), NtKind::Win32);
    let h = view.nt_headers();
    assert!(matches!(h, NtHeaders::Win32(_)));
    assert_eq!(h.base_of_data(), Some(0x2000));
    assert_eq!(h.image_base(), 0x40_0000);
    assert_eq!(h.size_of_stack_reserve(), 0x10_0000);
    assert!(h.optional_header_32().is_some());
    assert!(h.optional_header_64().is_none());
}

#[test]
fn section_names_stop_at_nul() {
    assert_eq!(section(b".text", 0, 0).name(), Some(".text"));
    assert_eq!(section(b"12345678", 0, 0).name(), Some("12345678"));
    assert_eq!(section(&[0xff, 0xfe], 0, 0).name(), None);
}
