//! What every source of PE headers offers: the header bundle, and the two
//! lookups built on it.
use vstd::prelude::*;
use crate::image::{DataDirectory, DosHeader, SectionHeader};
use crate::nt::{DirectoryEntry, NtHeaders, NtKind};
use crate::parse::Headers;

verus! {

/// Whether the section spans `rva`: `[virtual_address, virtual_address + virtual_size)`.
pub open spec fn section_contains(s: SectionHeader, rva: u32) -> bool {
    s.virtual_address <= rva && rva - s.virtual_address < s.virtual_size_physical_address
}

/// Whether `secs[i]` is the section that `rva` resolves to: it spans `rva`,
/// no section that spans `rva` has a higher address, and no later one has
/// the same address.
pub open spec fn is_found_section(secs: Seq<SectionHeader>, rva: u32, i: int) -> bool {
    &&& 0 <= i < secs.len()
    &&& section_contains(secs[i], rva)
    &&& forall|j: int|
        0 <= j < secs.len() && section_contains(#[trigger] secs[j], rva)
            ==> secs[j].virtual_address <= secs[i].virtual_address
    &&& forall|j: int|
        i < j < secs.len() && section_contains(#[trigger] secs[j], rva)
            ==> secs[j].virtual_address < secs[i].virtual_address
}

/// The section that `rva` resolves to, if any section spans it.
pub open spec fn found_section(secs: Seq<SectionHeader>, rva: u32) -> Option<SectionHeader> {
    if exists|i: int| is_found_section(secs, rva, i) {
        Some(secs[choose|i: int| is_found_section(secs, rva, i)])
    } else {
        None
    }
}

/// The data directory of the table `index`, if the image has one and it is
/// not empty.
pub open spec fn found_directory(dirs: Seq<DataDirectory>, index: DirectoryEntry) -> Option<
    DataDirectory,
> {
    let i = index.spec_index() as int;
    if i < dirs.len() && dirs[i].size != 0 {
        Some(dirs[i])
    } else {
        None
    }
}

/// At most one section is the one that `rva` resolves to.
pub proof fn lemma_found_section_unique(secs: Seq<SectionHeader>, rva: u32, i: int, k: int)
    requires
        is_found_section(secs, rva, i),
        is_found_section(secs, rva, k),
    ensures
        i == k,
{
    if i < k {
        assert(section_contains(secs[k], rva));
    } else if k < i {
        assert(section_contains(secs[i], rva));
    }
}

/// A source of the headers of an image.
pub trait PeHeaders {
    /// The headers that this source holds.
    spec fn headers(&self) -> Headers;

    fn kind(&self) -> (r: NtKind)
        ensures
            r == self.headers().nt.spec_kind(),
    ;

    fn dos_header(&self) -> (r: DosHeader)
        ensures
            r == self.headers().dos,
    ;

    fn dos_stub(&self) -> (r: &[u8])
        ensures
            r@ == self.headers().stub,
    ;

    fn nt_headers(&self) -> (r: NtHeaders)
        ensures
            r == self.headers().nt,
    ;

    fn directory_headers(&self) -> (r: Vec<DataDirectory>)
        ensures
            r@ == self.headers().dirs,
    ;

    fn section_headers(&self) -> (r: Vec<SectionHeader>)
        ensures
            r@ == self.headers().sections,
    ;

    /// The data directory of one well-known table; `None` where the image
    /// has no such directory or it is empty.
    fn directory_header(&self, index: DirectoryEntry) -> (r: Option<DataDirectory>)
        ensures
            r == found_directory(self.headers().dirs, index),
    {
        let dirs = self.directory_headers();
        let i = index.index();
        if i < dirs.len() && dirs[i].size != 0 {
            Some(dirs[i])
        } else {
            None
        }
    }

    /// The section that spans `rva`. Where sections overlap, the one with the
    /// highest address wins, and of those the last in the table.
    fn find_section(&self, rva: u32) -> (r: Option<SectionHeader>)
        ensures
            r == found_section(self.headers().sections, rva),
    {
        let secs = self.section_headers();
        let mut best: Option<usize> = None;
        let mut i: usize = 0;
        while i < secs.len()
            invariant
                secs@ == self.headers().sections,
                i <= secs@.len(),
                match best {
                    None => forall|j: int|
                        0 <= j < i ==> !section_contains(#[trigger] secs@[j], rva),
                    Some(k) => is_found_section(secs@.take(i as int), rva, k as int),
                },
            decreases secs.len() - i,
        {
            let s = secs[i];
            if s.virtual_address <= rva && rva - s.virtual_address < s.virtual_size_physical_address {
                let better = match best {
                    None => true,
                    Some(k) => secs[k].virtual_address <= s.virtual_address,
                };
                if better {
                    proof {
                        let t = secs@.take(i as int + 1);
                        match best {
                            None => {},
                            Some(k) => {
                                assert forall|j: int|
                                    0 <= j < t.len() && section_contains(#[trigger] t[j], rva)
                                    implies t[j].virtual_address <= s.virtual_address by {
                                    if j < i {
                                        assert(secs@.take(i as int)[j] == t[j]);
                                    }
                                }
                            },
                        }
                        assert(is_found_section(t, rva, i as int));
                    }
                    best = Some(i);
                } else {
                    proof {
                        let k = best.unwrap() as int;
                        let t = secs@.take(i as int + 1);
                        assert forall|j: int|
                            0 <= j < t.len() && section_contains(#[trigger] t[j], rva)
                            implies t[j].virtual_address <= t[k].virtual_address by {
                            if j < i {
                                assert(secs@.take(i as int)[j] == t[j]);
                            }
                        }
                        assert forall|j: int|
                            k < j < t.len() && section_contains(#[trigger] t[j], rva)
                            implies t[j].virtual_address < t[k].virtual_address by {
                            if j < i {
                                assert(secs@.take(i as int)[j] == t[j]);
                            }
                        }
                        assert(is_found_section(t, rva, k));
                    }
                }
            } else {
                proof {
                    let t = secs@.take(i as int + 1);
                    match best {
                        None => {},
                        Some(k) => {
                            assert forall|j: int|
                                0 <= j < t.len() && section_contains(#[trigger] t[j], rva)
                                implies t[j].virtual_address <= t[k as int].virtual_address by {
                                if j < i {
                                    assert(secs@.take(i as int)[j] == t[j]);
                                }
                            }
                            assert forall|j: int|
                                k < j < t.len() && section_contains(#[trigger] t[j], rva)
                                implies t[j].virtual_address < t[k as int].virtual_address by {
                                if j < i {
                                    assert(secs@.take(i as int)[j] == t[j]);
                                }
                            }
                            assert(is_found_section(t, rva, k as int));
                        },
                    }
                }
            }
            i = i + 1;
        }
        proof {
            assert(secs@.take(i as int) =~= secs@);
        }
        match best {
            None => {
                proof {
                    if exists|j: int| is_found_section(secs@, rva, j) {
                        let j = choose|j: int| is_found_section(secs@, rva, j);
                        assert(section_contains(secs@[j], rva));
                    }
                }
                None
            },
            Some(k) => {
                proof {
                    let c = choose|j: int| is_found_section(secs@, rva, j);
                    lemma_found_section_unique(secs@, rva, c, k as int);
                }
                Some(secs[k])
            },
        }
    }
}

} // verus!
