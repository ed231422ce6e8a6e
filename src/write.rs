//! Re-encoding an image: its headers, then its sections at their offsets.
use vstd::prelude::*;
use vstd::view::View as _;
use crate::bytes::{push_all, push_zeros, zeros};
use crate::error::{Error, Reason};
use crate::image::{DataDirectory, SectionHeader};
use crate::parse::{invalid_data, Headers};
use crate::traits::PeHeaders;
use crate::view::{section_segment_spec, View};

verus! {

/// The bytes that store the data directories, one after another.
pub open spec fn directories_bytes(d: Seq<DataDirectory>) -> Seq<u8>
    decreases d.len(),
{
    if d.len() == 0 {
        Seq::empty()
    } else {
        directories_bytes(d.drop_last()) + d.last().bytes()
    }
}

/// The bytes that store the section headers, one after another.
pub open spec fn sections_bytes(s: Seq<SectionHeader>) -> Seq<u8>
    decreases s.len(),
{
    if s.len() == 0 {
        Seq::empty()
    } else {
        sections_bytes(s.drop_last()) + s.last().bytes()
    }
}

/// The bytes that store the headers: DOS header, DOS stub, NT headers, data
/// directories and section table, in that order.
pub open spec fn headers_bytes(h: Headers) -> Seq<u8> {
    h.dos.bytes() + h.stub + h.nt.bytes() + directories_bytes(h.dirs) + sections_bytes(h.sections)
}

/// Where a section goes in the output: its raw file offset, or its virtual
/// address.
pub open spec fn section_offset(s: SectionHeader, raw: bool) -> u32 {
    if raw {
        s.pointer_to_raw_data
    } else {
        s.virtual_address
    }
}

/// How many bytes of a section go to the output: its raw size, or its
/// virtual size.
pub open spec fn section_size(s: SectionHeader, raw: bool) -> u32 {
    if raw {
        s.size_of_raw_data
    } else {
        s.virtual_size_physical_address
    }
}

/// Where `x` goes in `s`: after every leading section whose offset is not
/// above that of `x`.
pub open spec fn insertion_point(s: Seq<SectionHeader>, x: SectionHeader, raw: bool) -> int
    decreases s.len(),
{
    if s.len() == 0 || section_offset(s[0], raw) > section_offset(x, raw) {
        0
    } else {
        1 + insertion_point(s.drop_first(), x, raw)
    }
}

/// The sections in ascending order of their offset, sections with equal
/// offsets in the order of the table.
pub open spec fn sections_in_order(s: Seq<SectionHeader>, raw: bool) -> Seq<SectionHeader>
    decreases s.len(),
{
    if s.len() == 0 {
        Seq::empty()
    } else {
        let sorted = sections_in_order(s.drop_last(), raw);
        sorted.insert(insertion_point(sorted, s.last(), raw), s.last())
    }
}

/// What `insertion_point` finds: every section before it has an offset not
/// above that of `x`, and the one at it, if any, an offset above.
pub(crate) proof fn lemma_insertion_point(s: Seq<SectionHeader>, x: SectionHeader, raw: bool)
    ensures
        0 <= insertion_point(s, x, raw) <= s.len(),
        forall|k: int|
            0 <= k < insertion_point(s, x, raw) ==> section_offset(#[trigger] s[k], raw)
                <= section_offset(x, raw),
        insertion_point(s, x, raw) < s.len() ==> section_offset(
            s[insertion_point(s, x, raw)],
            raw,
        ) > section_offset(x, raw),
    decreases s.len(),
{
    if s.len() > 0 && section_offset(s[0], raw) <= section_offset(x, raw) {
        let t = s.drop_first();
        lemma_insertion_point(t, x, raw);
        assert forall|k: int|
            0 <= k < insertion_point(s, x, raw) implies section_offset(#[trigger] s[k], raw)
            <= section_offset(x, raw) by {
            if k > 0 {
                assert(s[k] == t[k - 1]);
            }
        }
        if insertion_point(s, x, raw) < s.len() {
            assert(s[insertion_point(s, x, raw)] == t[insertion_point(t, x, raw)]);
        }
    }
}

/// The sections come out in ascending order of their offset.
pub proof fn lemma_sections_in_order_ascending(s: Seq<SectionHeader>, raw: bool)
    ensures
        sections_in_order(s, raw).len() == s.len(),
        forall|i: int, j: int|
            0 <= i < j < s.len() ==> section_offset(#[trigger] sections_in_order(s, raw)[i], raw)
                <= section_offset(#[trigger] sections_in_order(s, raw)[j], raw),
    decreases s.len(),
{
    if s.len() > 0 {
        let sorted = sections_in_order(s.drop_last(), raw);
        let x = s.last();
        lemma_sections_in_order_ascending(s.drop_last(), raw);
        lemma_insertion_point(sorted, x, raw);
        let at = insertion_point(sorted, x, raw);
        let r = sorted.insert(at, x);
        assert(r == sections_in_order(s, raw));
        assert forall|i: int, j: int|
            0 <= i < j < r.len() implies section_offset(#[trigger] r[i], raw) <= section_offset(
            #[trigger] r[j],
            raw,
        ) by {
            if j < at {
                assert(r[i] == sorted[i] && r[j] == sorted[j]);
            } else if j == at {
                assert(r[i] == sorted[i]);
            } else if i < at {
                assert(r[i] == sorted[i] && r[j] == sorted[j - 1]);
            } else if i == at {
                assert(r[j] == sorted[j - 1]);
                if j - 1 > at {
                    assert(section_offset(sorted[at], raw) <= section_offset(sorted[j - 1], raw));
                }
            } else {
                assert(r[i] == sorted[i - 1] && r[j] == sorted[j - 1]);
            }
        }
    }
}

/// The output after the sections of `order` have followed `out`: each
/// section is zero-padded up to its offset and copied from the image `b`;
/// one with offset and size zero has no data and is left out.
pub open spec fn emit_sections(b: Seq<u8>, order: Seq<SectionHeader>, raw: bool, out: Seq<u8>) -> Result<
    Seq<u8>,
    Reason,
>
    decreases order.len(),
{
    if order.len() == 0 {
        Ok(out)
    } else {
        let s = order[0];
        let offset = section_offset(s, raw) as int;
        let size = section_size(s, raw);
        if offset == 0 && size == 0 {
            emit_sections(b, order.drop_first(), raw, out)
        } else if offset < out.len() {
            Err(Reason::BadSectionOffset)
        } else {
            let padded = out + zeros((offset - out.len()) as nat);
            if size == 0 {
                emit_sections(b, order.drop_first(), raw, padded)
            } else {
                match section_segment_spec(b, s, 0, size) {
                    Err(r) => Err(r),
                    Ok(seg) => emit_sections(b, order.drop_first(), raw, padded + seg),
                }
            }
        }
    }
}

/// What writing the image `b` with headers `h` gives.
pub open spec fn write_spec(b: Seq<u8>, h: Headers, raw: bool) -> Result<Seq<u8>, Reason> {
    emit_sections(b, sections_in_order(h.sections, raw), raw, headers_bytes(h))
}

fn offset_of(s: &SectionHeader, raw: bool) -> (r: u32)
    ensures
        r == section_offset(*s, raw),
{
    if raw {
        s.pointer_to_raw_data
    } else {
        s.virtual_address
    }
}

/// The sections in the order `sections_in_order` gives.
fn order_sections(secs: &Vec<SectionHeader>, raw: bool) -> (r: Vec<SectionHeader>)
    ensures
        r@ == sections_in_order(secs@, raw),
{
    let mut sorted: Vec<SectionHeader> = Vec::new();
    let mut i: usize = 0;
    while i < secs.len()
        invariant
            i <= secs@.len(),
            sorted@ == sections_in_order(secs@.take(i as int), raw),
        decreases secs.len() - i,
    {
        let x = secs[i];
        let key = offset_of(&x, raw);
        let mut j: usize = 0;
        proof {
            assert(sorted@.subrange(0, sorted@.len() as int) =~= sorted@);
        }
        while j < sorted.len() && offset_of(&sorted[j], raw) <= key
            invariant
                key == section_offset(x, raw),
                j <= sorted@.len(),
                insertion_point(sorted@, x, raw) == j + insertion_point(
                    sorted@.subrange(j as int, sorted@.len() as int),
                    x,
                    raw,
                ),
            decreases sorted.len() - j,
        {
            let ghost sub = sorted@.subrange(j as int, sorted@.len() as int);
            assert(sub[0] == sorted@[j as int]);
            assert(sub.drop_first() =~= sorted@.subrange(j + 1, sorted@.len() as int));
            j = j + 1;
        }
        proof {
            let sub = sorted@.subrange(j as int, sorted@.len() as int);
            if j < sorted@.len() {
                assert(sub[0] == sorted@[j as int]);
            }
            assert(insertion_point(sub, x, raw) == 0);
        }
        proof {
            assert(secs@.take(i as int + 1).drop_last() =~= secs@.take(i as int));
            assert(secs@.take(i as int + 1).last() == x);
        }
        sorted.insert(j, x);
        i = i + 1;
    }
    proof {
        assert(secs@.take(i as int) =~= secs@);
    }
    sorted
}

/// Re-encodes the image of `view`: its headers, then each section at its
/// raw file offset (`raw`) or at its virtual address, zero-filling the gaps,
/// in ascending order of that offset.
pub fn write_pe(view: &View, raw: bool) -> (r: Result<Vec<u8>, Error>)
    ensures
        match write_spec(view.bytes(), view.headers(), raw) {
            Ok(out) => r is Ok && r->Ok_0@ == out,
            Err(reason) => r == Err::<Vec<u8>, Error>(Error { reason }),
        },
{
    let ghost h = view.headers();
    let mut out: Vec<u8> = Vec::new();
    view.dos_header().write_to(&mut out);
    push_all(&mut out, view.dos_stub());
    view.nt_headers().write_to(&mut out);
    let dirs = view.directory_headers();
    let mut i: usize = 0;
    let ghost head = out@;
    while i < dirs.len()
        invariant
            i <= dirs@.len(),
            out@ == head + directories_bytes(dirs@.take(i as int)),
        decreases dirs.len() - i,
    {
        dirs[i].write_to(&mut out);
        proof {
            assert(dirs@.take(i as int + 1).drop_last() =~= dirs@.take(i as int));
        }
        i = i + 1;
    }
    proof {
        assert(dirs@.take(i as int) =~= dirs@);
    }
    let secs = view.section_headers();
    let mut i: usize = 0;
    let ghost head = out@;
    while i < secs.len()
        invariant
            i <= secs@.len(),
            out@ == head + sections_bytes(secs@.take(i as int)),
        decreases secs.len() - i,
    {
        secs[i].write_to(&mut out);
        proof {
            assert(secs@.take(i as int + 1).drop_last() =~= secs@.take(i as int));
        }
        i = i + 1;
    }
    proof {
        assert(secs@.take(i as int) =~= secs@);
        assert(out@ =~= headers_bytes(h));
    }
    let order = order_sections(&secs, raw);
    let mut k: usize = 0;
    proof {
        assert(order@.subrange(0, order@.len() as int) =~= order@);
    }
    while k < order.len()
        invariant
            k <= order@.len(),
            h == view.headers(),
            order@ == sections_in_order(h.sections, raw),
            write_spec(view.bytes(), h, raw) == emit_sections(
                view.bytes(),
                order@.subrange(k as int, order@.len() as int),
                raw,
                out@,
            ),
        decreases order.len() - k,
    {
        let section = order[k];
        let ghost rest = order@.subrange(k as int, order@.len() as int);
        proof {
            assert(rest[0] == section);
            assert(rest.drop_first() =~= order@.subrange(k + 1, order@.len() as int));
        }
        let offset = offset_of(&section, raw);
        let size = if raw {
            section.size_of_raw_data
        } else {
            section.virtual_size_physical_address
        };
        k = k + 1;
        if offset == 0 && size == 0 {
            continue;
        }
        if (offset as usize) < out.len() {
            return Err(invalid_data(Reason::BadSectionOffset));
        }
        let gap = offset as usize - out.len();
        push_zeros(&mut out, gap);
        if size > 0 {
            match view.section_segment(&section, 0, size) {
                Ok(seg) => push_all(&mut out, seg),
                Err(e) => return Err(e),
            }
        }
    }
    Ok(out)
}

} // verus!
