//! Properties of the validator and the writer that hold for every input.
use vstd::prelude::*;
use crate::bytes::{lemma_split, u16_at, u32_at, zeros};
use crate::error::Reason;
use crate::image::{
    DataDirectory, DosHeader, NtHeaders32, NtHeaders64, SectionHeader, NT_OPTIONAL_HDR32_MAGIC,
    NT_OPTIONAL_HDR64_MAGIC, SIZEOF_DOS_HEADER,
};
use crate::nt::NtHeaders;
use crate::parse::{
    directories_at, directories_offset, headers_at, nt_at, optional_magic, optional_size,
    pe_offset, read_headers_spec, sections_at, sections_offset, validate_prefix_spec,
    validate_spec, Headers,
};
use crate::view::section_segment_spec;
use crate::write::{
    directories_bytes, emit_sections, headers_bytes, insertion_point, lemma_insertion_point,
    section_offset, section_size, sections_bytes, sections_in_order, write_spec,
};

verus! {

/// Every input shorter than a DOS header is rejected as truncated, by the
/// validator and by the reader.
pub proof fn lemma_short_input_is_truncated(b: Seq<u8>)
    requires
        b.len() < SIZEOF_DOS_HEADER,
    ensures
        validate_spec(b) == Err::<(), Reason>(Reason::UnexpectedEof),
        read_headers_spec(b) == Err::<Headers, Reason>(Reason::UnexpectedEof),
{
}

/// Validation depends on the bytes alone: validating the same buffer twice
/// gives the same verdict, and reading it twice the same headers. The reader
/// accepts exactly what the validator accepts, and fails for the same reason.
pub proof fn lemma_validation_is_repeatable(a: Seq<u8>, b: Seq<u8>)
    requires
        a == b,
    ensures
        validate_spec(a) == validate_spec(b),
        read_headers_spec(a) == read_headers_spec(b),
        read_headers_spec(a) is Ok <==> validate_spec(a) is Ok,
        forall|r: Reason|
            read_headers_spec(a) == Err::<Headers, Reason>(r) <==> validate_spec(a) == Err::<
                (),
                Reason,
            >(r),
{
}

/// Two little-endian 16-bit values that differ in one byte differ.
proof fn lemma_u16_byte_changed(b: Seq<u8>, p: int, i: int, x: u8)
    requires
        0 <= p,
        p + 2 <= b.len(),
        p <= i < p + 2,
        x != b[i],
    ensures
        u16_at(b.update(i, x), p) != u16_at(b, p),
{
}

/// Two little-endian 32-bit values that differ in one byte differ.
proof fn lemma_u32_byte_changed(b: Seq<u8>, p: int, i: int, x: u8)
    requires
        0 <= p,
        p + 4 <= b.len(),
        p <= i < p + 4,
        x != b[i],
    ensures
        u32_at(b.update(i, x), p) != u32_at(b, p),
{
    if i < p + 2 {
        lemma_u16_byte_changed(b, p, i, x);
    } else {
        lemma_u16_byte_changed(b, p + 2, i, x);
    }
}

/// Changing one byte of the DOS magic of an accepted image gets it rejected
/// for its DOS magic.
pub proof fn lemma_dos_magic_gates(b: Seq<u8>, i: int, x: u8)
    requires
        validate_spec(b) is Ok,
        0 <= i < 2,
        x != b[i],
    ensures
        validate_spec(b.update(i, x)) == Err::<(), Reason>(Reason::BadDosMagic),
{
    reveal(DosHeader::at);
    lemma_u16_byte_changed(b, 0, i, x);
}

/// Changing one byte of the NT signature of an accepted image gets it
/// rejected for its NT signature.
pub proof fn lemma_nt_signature_gates(b: Seq<u8>, i: int, x: u8)
    requires
        validate_spec(b) is Ok,
        pe_offset(b) <= i < pe_offset(b) + 4,
        x != b[i],
    ensures
        validate_spec(b.update(i, x)) == Err::<(), Reason>(Reason::BadNtMagic),
{
    reveal(DosHeader::at);
    let c = b.update(i, x);
    assert(DosHeader::at(c, 0) == DosHeader::at(b, 0));
    lemma_u32_byte_changed(b, pe_offset(b), i, x);
}

/// Changing one byte of the optional-header magic of an accepted image gets
/// it rejected for that magic, unless the change turns it into the marker of
/// the other width.
pub proof fn lemma_optional_magic_gates(b: Seq<u8>, i: int, x: u8)
    requires
        validate_spec(b) is Ok,
        pe_offset(b) + 24 <= i < pe_offset(b) + 26,
        x != b[i],
        u16_at(b.update(i, x), pe_offset(b) + 24) != NT_OPTIONAL_HDR32_MAGIC,
        u16_at(b.update(i, x), pe_offset(b) + 24) != NT_OPTIONAL_HDR64_MAGIC,
    ensures
        validate_spec(b.update(i, x)) == Err::<(), Reason>(Reason::BadOptionalMagic),
{
    reveal(DosHeader::at);
    let c = b.update(i, x);
    assert(DosHeader::at(c, 0) == DosHeader::at(b, 0));
    assert(validate_prefix_spec(b) is Ok);
    assert(u32_at(c, pe_offset(b)) == u32_at(b, pe_offset(b)));
}

proof fn lemma_directories_round_trip(b: Seq<u8>, p: int, d: Seq<DataDirectory>)
    requires
        0 <= p,
        p + 8 * d.len() <= b.len(),
        b.subrange(p, p + 8 * d.len()) == directories_bytes(d),
    ensures
        directories_bytes(d).len() == 8 * d.len(),
        directories_at(b, p, d.len()) == d,
    decreases d.len(),
{
    if d.len() > 0 {
        let n = d.len() - 1;
        lemma_directories_len(d.drop_last());
        d.last().lemma_bytes_len();
        lemma_split(b, p, directories_bytes(d.drop_last()), d.last().bytes());
        lemma_directories_round_trip(b, p, d.drop_last());
        DataDirectory::lemma_round_trip(b, p + 8 * n, d.last());
        assert forall|k: int| 0 <= k < d.len() implies #[trigger] directories_at(b, p, d.len())[k]
            == d[k] by {
            if k < n {
                assert(directories_at(b, p, n as nat)[k] == d.drop_last()[k]);
            }
        }
        assert(directories_at(b, p, d.len()) =~= d);
    }
}

proof fn lemma_directories_len(d: Seq<DataDirectory>)
    ensures
        directories_bytes(d).len() == 8 * d.len(),
    decreases d.len(),
{
    if d.len() > 0 {
        lemma_directories_len(d.drop_last());
        d.last().lemma_bytes_len();
    }
}

proof fn lemma_sections_len(s: Seq<SectionHeader>)
    ensures
        sections_bytes(s).len() == 40 * s.len(),
    decreases s.len(),
{
    if s.len() > 0 {
        lemma_sections_len(s.drop_last());
        s.last().lemma_bytes_len();
    }
}

proof fn lemma_sections_round_trip(b: Seq<u8>, p: int, s: Seq<SectionHeader>)
    requires
        0 <= p,
        p + 40 * s.len() <= b.len(),
        b.subrange(p, p + 40 * s.len()) == sections_bytes(s),
    ensures
        sections_at(b, p, s.len()) == s,
    decreases s.len(),
{
    if s.len() > 0 {
        let n = s.len() - 1;
        lemma_sections_len(s.drop_last());
        s.last().lemma_bytes_len();
        lemma_split(b, p, sections_bytes(s.drop_last()), s.last().bytes());
        lemma_sections_round_trip(b, p, s.drop_last());
        SectionHeader::lemma_round_trip(b, p + 40 * n, s.last());
        assert forall|k: int| 0 <= k < s.len() implies #[trigger] sections_at(b, p, s.len())[k]
            == s[k] by {
            if k < n {
                assert(sections_at(b, p, n as nat)[k] == s.drop_last()[k]);
            }
        }
        assert(sections_at(b, p, s.len()) =~= s);
    }
}

/// What the writer emits after `acc` starts with `acc`, and each section
/// with data stands at its offset, as the image holds it.
proof fn lemma_emit_places_sections(
    b: Seq<u8>,
    order: Seq<SectionHeader>,
    raw: bool,
    acc: Seq<u8>,
    out: Seq<u8>,
)
    requires
        emit_sections(b, order, raw, acc) == Ok::<Seq<u8>, Reason>(out),
    ensures
        acc.len() <= out.len(),
        out.subrange(0, acc.len() as int) == acc,
        forall|j: int|
            0 <= j < order.len() && section_size(#[trigger] order[j], raw) > 0 ==> {
                let off = section_offset(order[j], raw) as int;
                let size = section_size(order[j], raw) as int;
                &&& off + size <= out.len()
                &&& section_segment_spec(b, order[j], 0, size as u32) == Ok::<Seq<u8>, Reason>(
                    out.subrange(off, off + size),
                )
            },
    decreases order.len(),
{
    if order.len() > 0 {
        let s = order[0];
        let offset = section_offset(s, raw) as int;
        let size = section_size(s, raw);
        let rest = order.drop_first();
        if offset == 0 && size == 0 {
            lemma_emit_places_sections(b, rest, raw, acc, out);
        } else {
            let padded = acc + zeros((offset - acc.len()) as nat);
            if size == 0 {
                lemma_emit_places_sections(b, rest, raw, padded, out);
                assert(out.subrange(0, acc.len() as int) =~= padded.subrange(0, acc.len() as int));
            } else {
                let seg = section_segment_spec(b, s, 0, size)->Ok_0;
                let next = padded + seg;
                lemma_emit_places_sections(b, rest, raw, next, out);
                assert(out.subrange(0, acc.len() as int) =~= next.subrange(0, acc.len() as int));
                assert(out.subrange(offset, offset + size) =~= next.subrange(offset, offset + size));
                assert(next.subrange(offset, offset + size) =~= seg);
            }
        }
        assert forall|j: int|
            0 <= j < order.len() && section_size(#[trigger] order[j], raw) > 0 implies {
                let off = section_offset(order[j], raw) as int;
                let size = section_size(order[j], raw) as int;
                &&& off + size <= out.len()
                &&& section_segment_spec(b, order[j], 0, size as u32) == Ok::<Seq<u8>, Reason>(
                    out.subrange(off, off + size),
                )
            } by {
            if j > 0 {
                assert(order[j] == rest[j - 1]);
            }
        }
    }
}

/// Every section of the table appears among the sections in output order.
proof fn lemma_in_order_has_all(s: Seq<SectionHeader>, raw: bool, i: int)
    requires
        0 <= i < s.len(),
    ensures
        sections_in_order(s, raw).contains(s[i]),
    decreases s.len(),
{
    let sorted = sections_in_order(s.drop_last(), raw);
    lemma_insertion_point(sorted, s.last(), raw);
    let at = insertion_point(sorted, s.last(), raw);
    let r = sorted.insert(at, s.last());
    if i == s.len() - 1 {
        assert(r[at] == s[i]);
    } else {
        lemma_in_order_has_all(s.drop_last(), raw, i);
        let k = choose|k: int| 0 <= k < sorted.len() && sorted[k] == s[i];
        if k < at {
            assert(r[k] == s[i]);
        } else {
            assert(r[k + 1] == s[i]);
        }
    }
}

/// Writing an accepted image `b` at virtual addresses and reading the output
/// back gives the same headers, where the optional header is declared at
/// exactly its size and the output reaches the declared size of the headers;
/// and each section with data stands in the output at its virtual address,
/// byte for byte as in the image.
pub proof fn lemma_write_read_round_trip(b: Seq<u8>, out: Seq<u8>)
    requires
        validate_spec(b) is Ok,
        write_spec(b, headers_at(b), false) == Ok::<Seq<u8>, Reason>(out),
        headers_at(b).nt.spec_file_header().size_of_optional_header == optional_size(
            optional_magic(b),
        ) + 8 * headers_at(b).nt.spec_number_of_rva_and_sizes(),
        out.len() >= headers_at(b).nt.spec_size_of_headers(),
    ensures
        read_headers_spec(out) == Ok::<Headers, Reason>(headers_at(b)),
        forall|i: int|
            0 <= i < headers_at(b).sections.len() && (#[trigger] headers_at(
                b,
            ).sections[i]).virtual_size_physical_address > 0 ==> {
                let s = headers_at(b).sections[i];
                let start = s.virtual_address as int;
                let end = start + s.virtual_size_physical_address;
                &&& end <= out.len()
                &&& end <= b.len()
                &&& out.subrange(start, end) == b.subrange(start, end)
            },
{
    let h = headers_at(b);
    let order = sections_in_order(h.sections, false);
    let hb = headers_bytes(h);
    lemma_emit_places_sections(b, order, false, hb, out);
    assert forall|i: int|
        0 <= i < h.sections.len() && (#[trigger] h.sections[i]).virtual_size_physical_address
            > 0 implies {
        let s = h.sections[i];
        let start = s.virtual_address as int;
        let end = start + s.virtual_size_physical_address;
        &&& end <= out.len()
        &&& end <= b.len()
        &&& out.subrange(start, end) == b.subrange(start, end)
    } by {
        lemma_in_order_has_all(h.sections, false, i);
        let j = choose|j: int| 0 <= j < order.len() && order[j] == h.sections[i];
        assert(section_size(order[j], false) > 0);
    }
    lemma_headers_read_back(b, out);
}

/// The headers that the writer emits first read back as the headers of `b`.
proof fn lemma_headers_read_back(b: Seq<u8>, out: Seq<u8>)
    requires
        validate_spec(b) is Ok,
        headers_at(b).nt.spec_file_header().size_of_optional_header == optional_size(
            optional_magic(b),
        ) + 8 * headers_at(b).nt.spec_number_of_rva_and_sizes(),
        headers_bytes(headers_at(b)).len() <= out.len(),
        out.subrange(0, headers_bytes(headers_at(b)).len() as int) == headers_bytes(headers_at(b)),
        out.len() >= headers_at(b).nt.spec_size_of_headers(),
    ensures
        read_headers_spec(out) == Ok::<Headers, Reason>(headers_at(b)),
{
    let h = headers_at(b);
    let p = pe_offset(b);
    let hb = headers_bytes(h);
    let n = h.nt.spec_number_of_rva_and_sizes() as int;
    let nsec = h.nt.spec_file_header().number_of_sections as int;
    reveal(DosHeader::at);
    h.dos.lemma_bytes_len();
    lemma_directories_len(h.dirs);
    lemma_sections_len(h.sections);
    let opt = optional_size(optional_magic(b));
    match h.nt {
        NtHeaders::Win32(nt) => nt.lemma_bytes_len_32(),
        NtHeaders::Win64(nt) => nt.lemma_bytes_len_64(),
    }
    assert(h.nt.bytes().len() == 24 + opt);
    let a1 = h.dos.bytes();
    let a2 = a1 + h.stub;
    let a3 = a2 + h.nt.bytes();
    let a4 = a3 + directories_bytes(h.dirs);
    assert(hb == a4 + sections_bytes(h.sections));
    lemma_split(out, 0, a4, sections_bytes(h.sections));
    lemma_split(out, 0, a3, directories_bytes(h.dirs));
    lemma_split(out, 0, a2, h.nt.bytes());
    lemma_split(out, 0, a1, h.stub);
    DosHeader::lemma_round_trip(out, 0, h.dos);
    assert(pe_offset(out) == p);
    match h.nt {
        NtHeaders::Win32(nt) => {
            NtHeaders32::lemma_round_trip_32(out, p, nt);
            reveal(crate::image::NtHeaders::<_>::at_32);
            reveal(crate::image::OptionalHeader::<_>::at_32);
        },
        NtHeaders::Win64(nt) => {
            NtHeaders64::lemma_round_trip_64(out, p, nt);
            reveal(crate::image::NtHeaders::<_>::at_64);
            reveal(crate::image::OptionalHeader::<_>::at_64);
        },
    }
    assert(optional_magic(out) == optional_magic(b));
    assert(nt_at(out, p) == h.nt);
    assert(directories_offset(out) == directories_offset(b));
    lemma_directories_round_trip(out, directories_offset(b), h.dirs);
    assert(sections_offset(out) == sections_offset(b));
    lemma_sections_round_trip(out, sections_offset(b), h.sections);
    assert(out.subrange(SIZEOF_DOS_HEADER as int, p) =~= h.stub);
    assert(validate_prefix_spec(out) is Ok);
    assert(headers_at(out) == h);
}

} // verus!
