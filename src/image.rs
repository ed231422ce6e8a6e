//! The fixed record layouts of the PE format, each with the bytes that store
//! it: `at` reads a record out of a byte sequence, `bytes` is its encoding,
//! and the executable `read` / `write_to` do the same on real buffers.
use vstd::prelude::*;
use vstd::slice::slice_subrange;
use vstd::string::StringSliceAdditionalSpecFns;
use vstd::utf8::valid_utf8;
use crate::bytes::{
    lemma_split, lemma_u16_round_trip, lemma_u32_round_trip, lemma_u64_round_trip, push_u16, push_u32, push_u64, read_u16, read_u32, read_u64, u16_at, u16_bytes, u32_at,
    u32_bytes, u64_at, u64_bytes,
};

verus! {

broadcast use vstd::array::group_array_axioms;

/// "MZ", the first two bytes of every image.
pub const DOS_SIGNATURE: u16 = 0x5a4d;

/// "PE\0\0", the first four bytes of the NT headers.
pub const NT_SIGNATURE: u32 = 0x4550;

pub const NT_OPTIONAL_HDR32_MAGIC: u16 = 0x10b;

pub const NT_OPTIONAL_HDR64_MAGIC: u16 = 0x20b;

pub const ROM_OPTIONAL_HDR_MAGIC: u16 = 0x107;

pub const NUMBEROF_DIRECTORY_ENTRIES: usize = 16;

pub const SIZEOF_SHORT_NAME: usize = 8;

pub const SIZEOF_DOS_HEADER: usize = 64;

pub const SIZEOF_FILE_HEADER: usize = 20;

pub const SIZEOF_OPTIONAL_HEADER32: usize = 96;

pub const SIZEOF_OPTIONAL_HEADER64: usize = 112;

pub const SIZEOF_DATA_DIRECTORY: usize = 8;

pub const SIZEOF_SECTION_HEADER: usize = 40;

pub const SIZEOF_BASE_RELOCATION: usize = 8;

pub const SIZEOF_BASE_RELOCATION_ENTRY: usize = 2;

pub const SIZEOF_IMPORT_DESCRIPTOR: usize = 20;

pub const SIZEOF_IMPORT_BY_NAME: usize = 2;

pub const DIRECTORY_ENTRY_EXPORT: usize = 0;

pub const DIRECTORY_ENTRY_IMPORT: usize = 1;

pub const DIRECTORY_ENTRY_RESOURCE: usize = 2;

pub const DIRECTORY_ENTRY_EXCEPTION: usize = 3;

pub const DIRECTORY_ENTRY_SECURITY: usize = 4;

pub const DIRECTORY_ENTRY_BASERELOC: usize = 5;

pub const DIRECTORY_ENTRY_DEBUG: usize = 6;

pub const DIRECTORY_ENTRY_ARCHITECTURE: usize = 7;

pub const DIRECTORY_ENTRY_GLOBALPTR: usize = 8;

pub const DIRECTORY_ENTRY_TLS: usize = 9;

pub const DIRECTORY_ENTRY_LOAD_CONFIG: usize = 10;

pub const DIRECTORY_ENTRY_BOUND_IMPORT: usize = 11;

pub const DIRECTORY_ENTRY_IAT: usize = 12;

pub const DIRECTORY_ENTRY_DELAY_IMPORT: usize = 13;

pub const DIRECTORY_ENTRY_COM_DESCRIPTOR: usize = 14;

pub const REL_BASED_ABSOLUTE: u8 = 0x0;

pub const REL_BASED_HIGH: u8 = 0x1;

pub const REL_BASED_LOW: u8 = 0x2;

pub const REL_BASED_HIGHLOW: u8 = 0x3;

pub const REL_BASED_HIGHADJ: u8 = 0x4;

pub const REL_BASED_MIPS_JMPADDR: u8 = 0x5;

pub const REL_BASED_ARM_MOV32: u8 = 0x5;

pub const REL_BASED_THUMB_MOV32: u8 = 0x7;

pub const REL_BASED_MIPS_JMPADDR16: u8 = 0x9;

pub const REL_BASED_IA64_IMM64: u8 = 0x9;

pub const REL_BASED_DIR64: u8 = 0xa;

pub const SCN_MEM_EXECUTE: u32 = 0x20000000;

pub const SCN_MEM_READ: u32 = 0x40000000;

pub const SCN_MEM_WRITE: u32 = 0x80000000;

/// The legacy 64-byte header at the start of every image.
#[derive(Debug, Clone, Copy, PartialEq, Eq)]
pub struct DosHeader {
    pub magic: u16,
    pub cblp: u16,
    pub cp: u16,
    pub crlc: u16,
    pub cparhdr: u16,
    pub minalloc: u16,
    pub maxalloc: u16,
    pub ss: u16,
    pub sp: u16,
    pub csum: u16,
    pub ip: u16,
    pub cs: u16,
    pub lfarlc: u16,
    pub ovno: u16,
    pub res: [u16; 4],
    pub oemid: u16,
    pub oeminfo: u16,
    pub res2: [u16; 10],
    pub lfanew: u32,
}

impl DosHeader {
    /// The record stored at `p` in `b`.
    #[verifier::opaque]
    pub open spec fn at(b: Seq<u8>, p: int) -> DosHeader {
        DosHeader {
            magic: u16_at(b, p + 0),
            cblp: u16_at(b, p + 2),
            cp: u16_at(b, p + 4),
            crlc: u16_at(b, p + 6),
            cparhdr: u16_at(b, p + 8),
            minalloc: u16_at(b, p + 10),
            maxalloc: u16_at(b, p + 12),
            ss: u16_at(b, p + 14),
            sp: u16_at(b, p + 16),
            csum: u16_at(b, p + 18),
            ip: u16_at(b, p + 20),
            cs: u16_at(b, p + 22),
            lfarlc: u16_at(b, p + 24),
            ovno: u16_at(b, p + 26),
            res: [u16_at(b, p + 28), u16_at(b, p + 30), u16_at(b, p + 32), u16_at(b, p + 34)],
            oemid: u16_at(b, p + 36),
            oeminfo: u16_at(b, p + 38),
            res2: [u16_at(b, p + 40), u16_at(b, p + 42), u16_at(b, p + 44), u16_at(b, p + 46), u16_at(b, p + 48), u16_at(b, p + 50), u16_at(b, p + 52), u16_at(b, p + 54), u16_at(b, p + 56), u16_at(b, p + 58)],
            lfanew: u32_at(b, p + 60),
        }
    }

    /// The bytes that store this record.
    #[verifier::opaque]
    pub open spec fn bytes(self) -> Seq<u8> {
        u16_bytes(self.magic)
            + u16_bytes(self.cblp)
            + u16_bytes(self.cp)
            + u16_bytes(self.crlc)
            + u16_bytes(self.cparhdr)
            + u16_bytes(self.minalloc)
            + u16_bytes(self.maxalloc)
            + u16_bytes(self.ss)
            + u16_bytes(self.sp)
            + u16_bytes(self.csum)
            + u16_bytes(self.ip)
            + u16_bytes(self.cs)
            + u16_bytes(self.lfarlc)
            + u16_bytes(self.ovno)
            + u16_bytes(self.res[0])
            + u16_bytes(self.res[1])
            + u16_bytes(self.res[2])
            + u16_bytes(self.res[3])
            + u16_bytes(self.oemid)
            + u16_bytes(self.oeminfo)
            + u16_bytes(self.res2[0])
            + u16_bytes(self.res2[1])
            + u16_bytes(self.res2[2])
            + u16_bytes(self.res2[3])
            + u16_bytes(self.res2[4])
            + u16_bytes(self.res2[5])
            + u16_bytes(self.res2[6])
            + u16_bytes(self.res2[7])
            + u16_bytes(self.res2[8])
            + u16_bytes(self.res2[9])
            + u32_bytes(self.lfanew)
    }

    /// Reads the record stored at `p` in `b`.
    pub fn read(b: &[u8], p: usize) -> (r: DosHeader)
        requires
            p + 64 <= b@.len(),
        ensures
            r == DosHeader::at(b@, p as int),
    {
        proof {
            reveal(DosHeader::at);
            assert(b@.len() == b.len());
        }
        DosHeader {
            magic: read_u16(b, p + 0),
            cblp: read_u16(b, p + 2),
            cp: read_u16(b, p + 4),
            crlc: read_u16(b, p + 6),
            cparhdr: read_u16(b, p + 8),
            minalloc: read_u16(b, p + 10),
            maxalloc: read_u16(b, p + 12),
            ss: read_u16(b, p + 14),
            sp: read_u16(b, p + 16),
            csum: read_u16(b, p + 18),
            ip: read_u16(b, p + 20),
            cs: read_u16(b, p + 22),
            lfarlc: read_u16(b, p + 24),
            ovno: read_u16(b, p + 26),
            res: [read_u16(b, p + 28), read_u16(b, p + 30), read_u16(b, p + 32), read_u16(b, p + 34)],
            oemid: read_u16(b, p + 36),
            oeminfo: read_u16(b, p + 38),
            res2: [read_u16(b, p + 40), read_u16(b, p + 42), read_u16(b, p + 44), read_u16(b, p + 46), read_u16(b, p + 48), read_u16(b, p + 50), read_u16(b, p + 52), read_u16(b, p + 54), read_u16(b, p + 56), read_u16(b, p + 58)],
            lfanew: read_u32(b, p + 60),
        }
    }

    /// Appends the bytes that store this record to `out`.
    pub fn write_to(&self, out: &mut Vec<u8>)
        ensures
            final(out)@ == old(out)@ + self.bytes(),
    {
        reveal(DosHeader::bytes);
        let ghost start = out@;
        push_u16(out, self.magic);
        assert(out@ =~= start + (u16_bytes(self.magic)));
        push_u16(out, self.cblp);
        assert(out@ =~= start + (u16_bytes(self.magic) + u16_bytes(self.cblp)));
        push_u16(out, self.cp);
        assert(out@ =~= start + (u16_bytes(self.magic) + u16_bytes(self.cblp) + u16_bytes(self.cp)));
        push_u16(out, self.crlc);
        assert(out@ =~= start + (u16_bytes(self.magic) + u16_bytes(self.cblp) + u16_bytes(self.cp) + u16_bytes(self.crlc)));
        push_u16(out, self.cparhdr);
        assert(out@ =~= start + (u16_bytes(self.magic) + u16_bytes(self.cblp) + u16_bytes(self.cp) + u16_bytes(self.crlc) + u16_bytes(self.cparhdr)));
        push_u16(out, self.minalloc);
        assert(out@ =~= start + (u16_bytes(self.magic) + u16_bytes(self.cblp) + u16_bytes(self.cp) + u16_bytes(self.crlc) + u16_bytes(self.cparhdr) + u16_bytes(self.minalloc)));
        push_u16(out, self.maxalloc);
        assert(out@ =~= start + (u16_bytes(self.magic) + u16_bytes(self.cblp) + u16_bytes(self.cp) + u16_bytes(self.crlc) + u16_bytes(self.cparhdr) + u16_bytes(self.minalloc) + u16_bytes(self.maxalloc)));
        push_u16(out, self.ss);
        assert(out@ =~= start + (u16_bytes(self.magic) + u16_bytes(self.cblp) + u16_bytes(self.cp) + u16_bytes(self.crlc) + u16_bytes(self.cparhdr) + u16_bytes(self.minalloc) + u16_bytes(self.maxalloc) + u16_bytes(self.ss)));
        push_u16(out, self.sp);
        assert(out@ =~= start + (u16_bytes(self.magic) + u16_bytes(self.cblp) + u16_bytes(self.cp) + u16_bytes(self.crlc) + u16_bytes(self.cparhdr) + u16_bytes(self.minalloc) + u16_bytes(self.maxalloc) + u16_bytes(self.ss) + u16_bytes(self.sp)));
        push_u16(out, self.csum);
        assert(out@ =~= start + (u16_bytes(self.magic) + u16_bytes(self.cblp) + u16_bytes(self.cp) + u16_bytes(self.crlc) + u16_bytes(self.cparhdr) + u16_bytes(self.minalloc) + u16_bytes(self.maxalloc) + u16_bytes(self.ss) + u16_bytes(self.sp) + u16_bytes(self.csum)));
        push_u16(out, self.ip);
        assert(out@ =~= start + (u16_bytes(self.magic) + u16_bytes(self.cblp) + u16_bytes(self.cp) + u16_bytes(self.crlc) + u16_bytes(self.cparhdr) + u16_bytes(self.minalloc) + u16_bytes(self.maxalloc) + u16_bytes(self.ss) + u16_bytes(self.sp) + u16_bytes(self.csum) + u16_bytes(self.ip)));
        push_u16(out, self.cs);
        assert(out@ =~= start + (u16_bytes(self.magic) + u16_bytes(self.cblp) + u16_bytes(self.cp) + u16_bytes(self.crlc) + u16_bytes(self.cparhdr) + u16_bytes(self.minalloc) + u16_bytes(self.maxalloc) + u16_bytes(self.ss) + u16_bytes(self.sp) + u16_bytes(self.csum) + u16_bytes(self.ip) + u16_bytes(self.cs)));
        push_u16(out, self.lfarlc);
        assert(out@ =~= start + (u16_bytes(self.magic) + u16_bytes(self.cblp) + u16_bytes(self.cp) + u16_bytes(self.crlc) + u16_bytes(self.cparhdr) + u16_bytes(self.minalloc) + u16_bytes(self.maxalloc) + u16_bytes(self.ss) + u16_bytes(self.sp) + u16_bytes(self.csum) + u16_bytes(self.ip) + u16_bytes(self.cs) + u16_bytes(self.lfarlc)));
        push_u16(out, self.ovno);
        assert(out@ =~= start + (u16_bytes(self.magic) + u16_bytes(self.cblp) + u16_bytes(self.cp) + u16_bytes(self.crlc) + u16_bytes(self.cparhdr) + u16_bytes(self.minalloc) + u16_bytes(self.maxalloc) + u16_bytes(self.ss) + u16_bytes(self.sp) + u16_bytes(self.csum) + u16_bytes(self.ip) + u16_bytes(self.cs) + u16_bytes(self.lfarlc) + u16_bytes(self.ovno)));
        push_u16(out, self.res[0]);
        assert(out@ =~= start + (u16_bytes(self.magic) + u16_bytes(self.cblp) + u16_bytes(self.cp) + u16_bytes(self.crlc) + u16_bytes(self.cparhdr) + u16_bytes(self.minalloc) + u16_bytes(self.maxalloc) + u16_bytes(self.ss) + u16_bytes(self.sp) + u16_bytes(self.csum) + u16_bytes(self.ip) + u16_bytes(self.cs) + u16_bytes(self.lfarlc) + u16_bytes(self.ovno) + u16_bytes(self.res[0])));
        push_u16(out, self.res[1]);
        assert(out@ =~= start + (u16_bytes(self.magic) + u16_bytes(self.cblp) + u16_bytes(self.cp) + u16_bytes(self.crlc) + u16_bytes(self.cparhdr) + u16_bytes(self.minalloc) + u16_bytes(self.maxalloc) + u16_bytes(self.ss) + u16_bytes(self.sp) + u16_bytes(self.csum) + u16_bytes(self.ip) + u16_bytes(self.cs) + u16_bytes(self.lfarlc) + u16_bytes(self.ovno) + u16_bytes(self.res[0]) + u16_bytes(self.res[1])));
        push_u16(out, self.res[2]);
        assert(out@ =~= start + (u16_bytes(self.magic) + u16_bytes(self.cblp) + u16_bytes(self.cp) + u16_bytes(self.crlc) + u16_bytes(self.cparhdr) + u16_bytes(self.minalloc) + u16_bytes(self.maxalloc) + u16_bytes(self.ss) + u16_bytes(self.sp) + u16_bytes(self.csum) + u16_bytes(self.ip) + u16_bytes(self.cs) + u16_bytes(self.lfarlc) + u16_bytes(self.ovno) + u16_bytes(self.res[0]) + u16_bytes(self.res[1]) + u16_bytes(self.res[2])));
        push_u16(out, self.res[3]);
        assert(out@ =~= start + (u16_bytes(self.magic) + u16_bytes(self.cblp) + u16_bytes(self.cp) + u16_bytes(self.crlc) + u16_bytes(self.cparhdr) + u16_bytes(self.minalloc) + u16_bytes(self.maxalloc) + u16_bytes(self.ss) + u16_bytes(self.sp) + u16_bytes(self.csum) + u16_bytes(self.ip) + u16_bytes(self.cs) + u16_bytes(self.lfarlc) + u16_bytes(self.ovno) + u16_bytes(self.res[0]) + u16_bytes(self.res[1]) + u16_bytes(self.res[2]) + u16_bytes(self.res[3])));
        push_u16(out, self.oemid);
        assert(out@ =~= start + (u16_bytes(self.magic) + u16_bytes(self.cblp) + u16_bytes(self.cp) + u16_bytes(self.crlc) + u16_bytes(self.cparhdr) + u16_bytes(self.minalloc) + u16_bytes(self.maxalloc) + u16_bytes(self.ss) + u16_bytes(self.sp) + u16_bytes(self.csum) + u16_bytes(self.ip) + u16_bytes(self.cs) + u16_bytes(self.lfarlc) + u16_bytes(self.ovno) + u16_bytes(self.res[0]) + u16_bytes(self.res[1]) + u16_bytes(self.res[2]) + u16_bytes(self.res[3]) + u16_bytes(self.oemid)));
        push_u16(out, self.oeminfo);
        assert(out@ =~= start + (u16_bytes(self.magic) + u16_bytes(self.cblp) + u16_bytes(self.cp) + u16_bytes(self.crlc) + u16_bytes(self.cparhdr) + u16_bytes(self.minalloc) + u16_bytes(self.maxalloc) + u16_bytes(self.ss) + u16_bytes(self.sp) + u16_bytes(self.csum) + u16_bytes(self.ip) + u16_bytes(self.cs) + u16_bytes(self.lfarlc) + u16_bytes(self.ovno) + u16_bytes(self.res[0]) + u16_bytes(self.res[1]) + u16_bytes(self.res[2]) + u16_bytes(self.res[3]) + u16_bytes(self.oemid) + u16_bytes(self.oeminfo)));
        push_u16(out, self.res2[0]);
        assert(out@ =~= start + (u16_bytes(self.magic) + u16_bytes(self.cblp) + u16_bytes(self.cp) + u16_bytes(self.crlc) + u16_bytes(self.cparhdr) + u16_bytes(self.minalloc) + u16_bytes(self.maxalloc) + u16_bytes(self.ss) + u16_bytes(self.sp) + u16_bytes(self.csum) + u16_bytes(self.ip) + u16_bytes(self.cs) + u16_bytes(self.lfarlc) + u16_bytes(self.ovno) + u16_bytes(self.res[0]) + u16_bytes(self.res[1]) + u16_bytes(self.res[2]) + u16_bytes(self.res[3]) + u16_bytes(self.oemid) + u16_bytes(self.oeminfo) + u16_bytes(self.res2[0])));
        push_u16(out, self.res2[1]);
        assert(out@ =~= start + (u16_bytes(self.magic) + u16_bytes(self.cblp) + u16_bytes(self.cp) + u16_bytes(self.crlc) + u16_bytes(self.cparhdr) + u16_bytes(self.minalloc) + u16_bytes(self.maxalloc) + u16_bytes(self.ss) + u16_bytes(self.sp) + u16_bytes(self.csum) + u16_bytes(self.ip) + u16_bytes(self.cs) + u16_bytes(self.lfarlc) + u16_bytes(self.ovno) + u16_bytes(self.res[0]) + u16_bytes(self.res[1]) + u16_bytes(self.res[2]) + u16_bytes(self.res[3]) + u16_bytes(self.oemid) + u16_bytes(self.oeminfo) + u16_bytes(self.res2[0]) + u16_bytes(self.res2[1])));
        push_u16(out, self.res2[2]);
        assert(out@ =~= start + (u16_bytes(self.magic) + u16_bytes(self.cblp) + u16_bytes(self.cp) + u16_bytes(self.crlc) + u16_bytes(self.cparhdr) + u16_bytes(self.minalloc) + u16_bytes(self.maxalloc) + u16_bytes(self.ss) + u16_bytes(self.sp) + u16_bytes(self.csum) + u16_bytes(self.ip) + u16_bytes(self.cs) + u16_bytes(self.lfarlc) + u16_bytes(self.ovno) + u16_bytes(self.res[0]) + u16_bytes(self.res[1]) + u16_bytes(self.res[2]) + u16_bytes(self.res[3]) + u16_bytes(self.oemid) + u16_bytes(self.oeminfo) + u16_bytes(self.res2[0]) + u16_bytes(self.res2[1]) + u16_bytes(self.res2[2])));
        push_u16(out, self.res2[3]);
        assert(out@ =~= start + (u16_bytes(self.magic) + u16_bytes(self.cblp) + u16_bytes(self.cp) + u16_bytes(self.crlc) + u16_bytes(self.cparhdr) + u16_bytes(self.minalloc) + u16_bytes(self.maxalloc) + u16_bytes(self.ss) + u16_bytes(self.sp) + u16_bytes(self.csum) + u16_bytes(self.ip) + u16_bytes(self.cs) + u16_bytes(self.lfarlc) + u16_bytes(self.ovno) + u16_bytes(self.res[0]) + u16_bytes(self.res[1]) + u16_bytes(self.res[2]) + u16_bytes(self.res[3]) + u16_bytes(self.oemid) + u16_bytes(self.oeminfo) + u16_bytes(self.res2[0]) + u16_bytes(self.res2[1]) + u16_bytes(self.res2[2]) + u16_bytes(self.res2[3])));
        push_u16(out, self.res2[4]);
        assert(out@ =~= start + (u16_bytes(self.magic) + u16_bytes(self.cblp) + u16_bytes(self.cp) + u16_bytes(self.crlc) + u16_bytes(self.cparhdr) + u16_bytes(self.minalloc) + u16_bytes(self.maxalloc) + u16_bytes(self.ss) + u16_bytes(self.sp) + u16_bytes(self.csum) + u16_bytes(self.ip) + u16_bytes(self.cs) + u16_bytes(self.lfarlc) + u16_bytes(self.ovno) + u16_bytes(self.res[0]) + u16_bytes(self.res[1]) + u16_bytes(self.res[2]) + u16_bytes(self.res[3]) + u16_bytes(self.oemid) + u16_bytes(self.oeminfo) + u16_bytes(self.res2[0]) + u16_bytes(self.res2[1]) + u16_bytes(self.res2[2]) + u16_bytes(self.res2[3]) + u16_bytes(self.res2[4])));
        push_u16(out, self.res2[5]);
        assert(out@ =~= start + (u16_bytes(self.magic) + u16_bytes(self.cblp) + u16_bytes(self.cp) + u16_bytes(self.crlc) + u16_bytes(self.cparhdr) + u16_bytes(self.minalloc) + u16_bytes(self.maxalloc) + u16_bytes(self.ss) + u16_bytes(self.sp) + u16_bytes(self.csum) + u16_bytes(self.ip) + u16_bytes(self.cs) + u16_bytes(self.lfarlc) + u16_bytes(self.ovno) + u16_bytes(self.res[0]) + u16_bytes(self.res[1]) + u16_bytes(self.res[2]) + u16_bytes(self.res[3]) + u16_bytes(self.oemid) + u16_bytes(self.oeminfo) + u16_bytes(self.res2[0]) + u16_bytes(self.res2[1]) + u16_bytes(self.res2[2]) + u16_bytes(self.res2[3]) + u16_bytes(self.res2[4]) + u16_bytes(self.res2[5])));
        push_u16(out, self.res2[6]);
        assert(out@ =~= start + (u16_bytes(self.magic) + u16_bytes(self.cblp) + u16_bytes(self.cp) + u16_bytes(self.crlc) + u16_bytes(self.cparhdr) + u16_bytes(self.minalloc) + u16_bytes(self.maxalloc) + u16_bytes(self.ss) + u16_bytes(self.sp) + u16_bytes(self.csum) + u16_bytes(self.ip) + u16_bytes(self.cs) + u16_bytes(self.lfarlc) + u16_bytes(self.ovno) + u16_bytes(self.res[0]) + u16_bytes(self.res[1]) + u16_bytes(self.res[2]) + u16_bytes(self.res[3]) + u16_bytes(self.oemid) + u16_bytes(self.oeminfo) + u16_bytes(self.res2[0]) + u16_bytes(self.res2[1]) + u16_bytes(self.res2[2]) + u16_bytes(self.res2[3]) + u16_bytes(self.res2[4]) + u16_bytes(self.res2[5]) + u16_bytes(self.res2[6])));
        push_u16(out, self.res2[7]);
        assert(out@ =~= start + (u16_bytes(self.magic) + u16_bytes(self.cblp) + u16_bytes(self.cp) + u16_bytes(self.crlc) + u16_bytes(self.cparhdr) + u16_bytes(self.minalloc) + u16_bytes(self.maxalloc) + u16_bytes(self.ss) + u16_bytes(self.sp) + u16_bytes(self.csum) + u16_bytes(self.ip) + u16_bytes(self.cs) + u16_bytes(self.lfarlc) + u16_bytes(self.ovno) + u16_bytes(self.res[0]) + u16_bytes(self.res[1]) + u16_bytes(self.res[2]) + u16_bytes(self.res[3]) + u16_bytes(self.oemid) + u16_bytes(self.oeminfo) + u16_bytes(self.res2[0]) + u16_bytes(self.res2[1]) + u16_bytes(self.res2[2]) + u16_bytes(self.res2[3]) + u16_bytes(self.res2[4]) + u16_bytes(self.res2[5]) + u16_bytes(self.res2[6]) + u16_bytes(self.res2[7])));
        push_u16(out, self.res2[8]);
        assert(out@ =~= start + (u16_bytes(self.magic) + u16_bytes(self.cblp) + u16_bytes(self.cp) + u16_bytes(self.crlc) + u16_bytes(self.cparhdr) + u16_bytes(self.minalloc) + u16_bytes(self.maxalloc) + u16_bytes(self.ss) + u16_bytes(self.sp) + u16_bytes(self.csum) + u16_bytes(self.ip) + u16_bytes(self.cs) + u16_bytes(self.lfarlc) + u16_bytes(self.ovno) + u16_bytes(self.res[0]) + u16_bytes(self.res[1]) + u16_bytes(self.res[2]) + u16_bytes(self.res[3]) + u16_bytes(self.oemid) + u16_bytes(self.oeminfo) + u16_bytes(self.res2[0]) + u16_bytes(self.res2[1]) + u16_bytes(self.res2[2]) + u16_bytes(self.res2[3]) + u16_bytes(self.res2[4]) + u16_bytes(self.res2[5]) + u16_bytes(self.res2[6]) + u16_bytes(self.res2[7]) + u16_bytes(self.res2[8])));
        push_u16(out, self.res2[9]);
        assert(out@ =~= start + (u16_bytes(self.magic) + u16_bytes(self.cblp) + u16_bytes(self.cp) + u16_bytes(self.crlc) + u16_bytes(self.cparhdr) + u16_bytes(self.minalloc) + u16_bytes(self.maxalloc) + u16_bytes(self.ss) + u16_bytes(self.sp) + u16_bytes(self.csum) + u16_bytes(self.ip) + u16_bytes(self.cs) + u16_bytes(self.lfarlc) + u16_bytes(self.ovno) + u16_bytes(self.res[0]) + u16_bytes(self.res[1]) + u16_bytes(self.res[2]) + u16_bytes(self.res[3]) + u16_bytes(self.oemid) + u16_bytes(self.oeminfo) + u16_bytes(self.res2[0]) + u16_bytes(self.res2[1]) + u16_bytes(self.res2[2]) + u16_bytes(self.res2[3]) + u16_bytes(self.res2[4]) + u16_bytes(self.res2[5]) + u16_bytes(self.res2[6]) + u16_bytes(self.res2[7]) + u16_bytes(self.res2[8]) + u16_bytes(self.res2[9])));
        push_u32(out, self.lfanew);
        assert(out@ =~= start + (u16_bytes(self.magic) + u16_bytes(self.cblp) + u16_bytes(self.cp) + u16_bytes(self.crlc) + u16_bytes(self.cparhdr) + u16_bytes(self.minalloc) + u16_bytes(self.maxalloc) + u16_bytes(self.ss) + u16_bytes(self.sp) + u16_bytes(self.csum) + u16_bytes(self.ip) + u16_bytes(self.cs) + u16_bytes(self.lfarlc) + u16_bytes(self.ovno) + u16_bytes(self.res[0]) + u16_bytes(self.res[1]) + u16_bytes(self.res[2]) + u16_bytes(self.res[3]) + u16_bytes(self.oemid) + u16_bytes(self.oeminfo) + u16_bytes(self.res2[0]) + u16_bytes(self.res2[1]) + u16_bytes(self.res2[2]) + u16_bytes(self.res2[3]) + u16_bytes(self.res2[4]) + u16_bytes(self.res2[5]) + u16_bytes(self.res2[6]) + u16_bytes(self.res2[7]) + u16_bytes(self.res2[8]) + u16_bytes(self.res2[9]) + u32_bytes(self.lfanew)));
        assert(final(out)@ =~= old(out)@ + self.bytes());
    }

    /// Reading the bytes that store `h` gives `h` back.
    pub proof fn lemma_round_trip(b: Seq<u8>, p: int, h: DosHeader)
        requires
            0 <= p,
            p + 64 <= b.len(),
            b.subrange(p, p + 64) == h.bytes(),
        ensures
            DosHeader::at(b, p) == h,
    {
        reveal(DosHeader::at);
        reveal(DosHeader::bytes);
        lemma_split(b, p, u16_bytes(h.magic) + u16_bytes(h.cblp) + u16_bytes(h.cp) + u16_bytes(h.crlc) + u16_bytes(h.cparhdr) + u16_bytes(h.minalloc) + u16_bytes(h.maxalloc) + u16_bytes(h.ss) + u16_bytes(h.sp) + u16_bytes(h.csum) + u16_bytes(h.ip) + u16_bytes(h.cs) + u16_bytes(h.lfarlc) + u16_bytes(h.ovno) + u16_bytes(h.res[0]) + u16_bytes(h.res[1]) + u16_bytes(h.res[2]) + u16_bytes(h.res[3]) + u16_bytes(h.oemid) + u16_bytes(h.oeminfo) + u16_bytes(h.res2[0]) + u16_bytes(h.res2[1]) + u16_bytes(h.res2[2]) + u16_bytes(h.res2[3]) + u16_bytes(h.res2[4]) + u16_bytes(h.res2[5]) + u16_bytes(h.res2[6]) + u16_bytes(h.res2[7]) + u16_bytes(h.res2[8]) + u16_bytes(h.res2[9]), u32_bytes(h.lfanew));
        lemma_split(b, p, u16_bytes(h.magic) + u16_bytes(h.cblp) + u16_bytes(h.cp) + u16_bytes(h.crlc) + u16_bytes(h.cparhdr) + u16_bytes(h.minalloc) + u16_bytes(h.maxalloc) + u16_bytes(h.ss) + u16_bytes(h.sp) + u16_bytes(h.csum) + u16_bytes(h.ip) + u16_bytes(h.cs) + u16_bytes(h.lfarlc) + u16_bytes(h.ovno) + u16_bytes(h.res[0]) + u16_bytes(h.res[1]) + u16_bytes(h.res[2]) + u16_bytes(h.res[3]) + u16_bytes(h.oemid) + u16_bytes(h.oeminfo) + u16_bytes(h.res2[0]) + u16_bytes(h.res2[1]) + u16_bytes(h.res2[2]) + u16_bytes(h.res2[3]) + u16_bytes(h.res2[4]) + u16_bytes(h.res2[5]) + u16_bytes(h.res2[6]) + u16_bytes(h.res2[7]) + u16_bytes(h.res2[8]), u16_bytes(h.res2[9]));
        lemma_split(b, p, u16_bytes(h.magic) + u16_bytes(h.cblp) + u16_bytes(h.cp) + u16_bytes(h.crlc) + u16_bytes(h.cparhdr) + u16_bytes(h.minalloc) + u16_bytes(h.maxalloc) + u16_bytes(h.ss) + u16_bytes(h.sp) + u16_bytes(h.csum) + u16_bytes(h.ip) + u16_bytes(h.cs) + u16_bytes(h.lfarlc) + u16_bytes(h.ovno) + u16_bytes(h.res[0]) + u16_bytes(h.res[1]) + u16_bytes(h.res[2]) + u16_bytes(h.res[3]) + u16_bytes(h.oemid) + u16_bytes(h.oeminfo) + u16_bytes(h.res2[0]) + u16_bytes(h.res2[1]) + u16_bytes(h.res2[2]) + u16_bytes(h.res2[3]) + u16_bytes(h.res2[4]) + u16_bytes(h.res2[5]) + u16_bytes(h.res2[6]) + u16_bytes(h.res2[7]), u16_bytes(h.res2[8]));
        lemma_split(b, p, u16_bytes(h.magic) + u16_bytes(h.cblp) + u16_bytes(h.cp) + u16_bytes(h.crlc) + u16_bytes(h.cparhdr) + u16_bytes(h.minalloc) + u16_bytes(h.maxalloc) + u16_bytes(h.ss) + u16_bytes(h.sp) + u16_bytes(h.csum) + u16_bytes(h.ip) + u16_bytes(h.cs) + u16_bytes(h.lfarlc) + u16_bytes(h.ovno) + u16_bytes(h.res[0]) + u16_bytes(h.res[1]) + u16_bytes(h.res[2]) + u16_bytes(h.res[3]) + u16_bytes(h.oemid) + u16_bytes(h.oeminfo) + u16_bytes(h.res2[0]) + u16_bytes(h.res2[1]) + u16_bytes(h.res2[2]) + u16_bytes(h.res2[3]) + u16_bytes(h.res2[4]) + u16_bytes(h.res2[5]) + u16_bytes(h.res2[6]), u16_bytes(h.res2[7]));
        lemma_split(b, p, u16_bytes(h.magic) + u16_bytes(h.cblp) + u16_bytes(h.cp) + u16_bytes(h.crlc) + u16_bytes(h.cparhdr) + u16_bytes(h.minalloc) + u16_bytes(h.maxalloc) + u16_bytes(h.ss) + u16_bytes(h.sp) + u16_bytes(h.csum) + u16_bytes(h.ip) + u16_bytes(h.cs) + u16_bytes(h.lfarlc) + u16_bytes(h.ovno) + u16_bytes(h.res[0]) + u16_bytes(h.res[1]) + u16_bytes(h.res[2]) + u16_bytes(h.res[3]) + u16_bytes(h.oemid) + u16_bytes(h.oeminfo) + u16_bytes(h.res2[0]) + u16_bytes(h.res2[1]) + u16_bytes(h.res2[2]) + u16_bytes(h.res2[3]) + u16_bytes(h.res2[4]) + u16_bytes(h.res2[5]), u16_bytes(h.res2[6]));
        lemma_split(b, p, u16_bytes(h.magic) + u16_bytes(h.cblp) + u16_bytes(h.cp) + u16_bytes(h.crlc) + u16_bytes(h.cparhdr) + u16_bytes(h.minalloc) + u16_bytes(h.maxalloc) + u16_bytes(h.ss) + u16_bytes(h.sp) + u16_bytes(h.csum) + u16_bytes(h.ip) + u16_bytes(h.cs) + u16_bytes(h.lfarlc) + u16_bytes(h.ovno) + u16_bytes(h.res[0]) + u16_bytes(h.res[1]) + u16_bytes(h.res[2]) + u16_bytes(h.res[3]) + u16_bytes(h.oemid) + u16_bytes(h.oeminfo) + u16_bytes(h.res2[0]) + u16_bytes(h.res2[1]) + u16_bytes(h.res2[2]) + u16_bytes(h.res2[3]) + u16_bytes(h.res2[4]), u16_bytes(h.res2[5]));
        lemma_split(b, p, u16_bytes(h.magic) + u16_bytes(h.cblp) + u16_bytes(h.cp) + u16_bytes(h.crlc) + u16_bytes(h.cparhdr) + u16_bytes(h.minalloc) + u16_bytes(h.maxalloc) + u16_bytes(h.ss) + u16_bytes(h.sp) + u16_bytes(h.csum) + u16_bytes(h.ip) + u16_bytes(h.cs) + u16_bytes(h.lfarlc) + u16_bytes(h.ovno) + u16_bytes(h.res[0]) + u16_bytes(h.res[1]) + u16_bytes(h.res[2]) + u16_bytes(h.res[3]) + u16_bytes(h.oemid) + u16_bytes(h.oeminfo) + u16_bytes(h.res2[0]) + u16_bytes(h.res2[1]) + u16_bytes(h.res2[2]) + u16_bytes(h.res2[3]), u16_bytes(h.res2[4]));
        lemma_split(b, p, u16_bytes(h.magic) + u16_bytes(h.cblp) + u16_bytes(h.cp) + u16_bytes(h.crlc) + u16_bytes(h.cparhdr) + u16_bytes(h.minalloc) + u16_bytes(h.maxalloc) + u16_bytes(h.ss) + u16_bytes(h.sp) + u16_bytes(h.csum) + u16_bytes(h.ip) + u16_bytes(h.cs) + u16_bytes(h.lfarlc) + u16_bytes(h.ovno) + u16_bytes(h.res[0]) + u16_bytes(h.res[1]) + u16_bytes(h.res[2]) + u16_bytes(h.res[3]) + u16_bytes(h.oemid) + u16_bytes(h.oeminfo) + u16_bytes(h.res2[0]) + u16_bytes(h.res2[1]) + u16_bytes(h.res2[2]), u16_bytes(h.res2[3]));
        lemma_split(b, p, u16_bytes(h.magic) + u16_bytes(h.cblp) + u16_bytes(h.cp) + u16_bytes(h.crlc) + u16_bytes(h.cparhdr) + u16_bytes(h.minalloc) + u16_bytes(h.maxalloc) + u16_bytes(h.ss) + u16_bytes(h.sp) + u16_bytes(h.csum) + u16_bytes(h.ip) + u16_bytes(h.cs) + u16_bytes(h.lfarlc) + u16_bytes(h.ovno) + u16_bytes(h.res[0]) + u16_bytes(h.res[1]) + u16_bytes(h.res[2]) + u16_bytes(h.res[3]) + u16_bytes(h.oemid) + u16_bytes(h.oeminfo) + u16_bytes(h.res2[0]) + u16_bytes(h.res2[1]), u16_bytes(h.res2[2]));
        lemma_split(b, p, u16_bytes(h.magic) + u16_bytes(h.cblp) + u16_bytes(h.cp) + u16_bytes(h.crlc) + u16_bytes(h.cparhdr) + u16_bytes(h.minalloc) + u16_bytes(h.maxalloc) + u16_bytes(h.ss) + u16_bytes(h.sp) + u16_bytes(h.csum) + u16_bytes(h.ip) + u16_bytes(h.cs) + u16_bytes(h.lfarlc) + u16_bytes(h.ovno) + u16_bytes(h.res[0]) + u16_bytes(h.res[1]) + u16_bytes(h.res[2]) + u16_bytes(h.res[3]) + u16_bytes(h.oemid) + u16_bytes(h.oeminfo) + u16_bytes(h.res2[0]), u16_bytes(h.res2[1]));
        lemma_split(b, p, u16_bytes(h.magic) + u16_bytes(h.cblp) + u16_bytes(h.cp) + u16_bytes(h.crlc) + u16_bytes(h.cparhdr) + u16_bytes(h.minalloc) + u16_bytes(h.maxalloc) + u16_bytes(h.ss) + u16_bytes(h.sp) + u16_bytes(h.csum) + u16_bytes(h.ip) + u16_bytes(h.cs) + u16_bytes(h.lfarlc) + u16_bytes(h.ovno) + u16_bytes(h.res[0]) + u16_bytes(h.res[1]) + u16_bytes(h.res[2]) + u16_bytes(h.res[3]) + u16_bytes(h.oemid) + u16_bytes(h.oeminfo), u16_bytes(h.res2[0]));
        lemma_split(b, p, u16_bytes(h.magic) + u16_bytes(h.cblp) + u16_bytes(h.cp) + u16_bytes(h.crlc) + u16_bytes(h.cparhdr) + u16_bytes(h.minalloc) + u16_bytes(h.maxalloc) + u16_bytes(h.ss) + u16_bytes(h.sp) + u16_bytes(h.csum) + u16_bytes(h.ip) + u16_bytes(h.cs) + u16_bytes(h.lfarlc) + u16_bytes(h.ovno) + u16_bytes(h.res[0]) + u16_bytes(h.res[1]) + u16_bytes(h.res[2]) + u16_bytes(h.res[3]) + u16_bytes(h.oemid), u16_bytes(h.oeminfo));
        lemma_split(b, p, u16_bytes(h.magic) + u16_bytes(h.cblp) + u16_bytes(h.cp) + u16_bytes(h.crlc) + u16_bytes(h.cparhdr) + u16_bytes(h.minalloc) + u16_bytes(h.maxalloc) + u16_bytes(h.ss) + u16_bytes(h.sp) + u16_bytes(h.csum) + u16_bytes(h.ip) + u16_bytes(h.cs) + u16_bytes(h.lfarlc) + u16_bytes(h.ovno) + u16_bytes(h.res[0]) + u16_bytes(h.res[1]) + u16_bytes(h.res[2]) + u16_bytes(h.res[3]), u16_bytes(h.oemid));
        lemma_split(b, p, u16_bytes(h.magic) + u16_bytes(h.cblp) + u16_bytes(h.cp) + u16_bytes(h.crlc) + u16_bytes(h.cparhdr) + u16_bytes(h.minalloc) + u16_bytes(h.maxalloc) + u16_bytes(h.ss) + u16_bytes(h.sp) + u16_bytes(h.csum) + u16_bytes(h.ip) + u16_bytes(h.cs) + u16_bytes(h.lfarlc) + u16_bytes(h.ovno) + u16_bytes(h.res[0]) + u16_bytes(h.res[1]) + u16_bytes(h.res[2]), u16_bytes(h.res[3]));
        lemma_split(b, p, u16_bytes(h.magic) + u16_bytes(h.cblp) + u16_bytes(h.cp) + u16_bytes(h.crlc) + u16_bytes(h.cparhdr) + u16_bytes(h.minalloc) + u16_bytes(h.maxalloc) + u16_bytes(h.ss) + u16_bytes(h.sp) + u16_bytes(h.csum) + u16_bytes(h.ip) + u16_bytes(h.cs) + u16_bytes(h.lfarlc) + u16_bytes(h.ovno) + u16_bytes(h.res[0]) + u16_bytes(h.res[1]), u16_bytes(h.res[2]));
        lemma_split(b, p, u16_bytes(h.magic) + u16_bytes(h.cblp) + u16_bytes(h.cp) + u16_bytes(h.crlc) + u16_bytes(h.cparhdr) + u16_bytes(h.minalloc) + u16_bytes(h.maxalloc) + u16_bytes(h.ss) + u16_bytes(h.sp) + u16_bytes(h.csum) + u16_bytes(h.ip) + u16_bytes(h.cs) + u16_bytes(h.lfarlc) + u16_bytes(h.ovno) + u16_bytes(h.res[0]), u16_bytes(h.res[1]));
        lemma_split(b, p, u16_bytes(h.magic) + u16_bytes(h.cblp) + u16_bytes(h.cp) + u16_bytes(h.crlc) + u16_bytes(h.cparhdr) + u16_bytes(h.minalloc) + u16_bytes(h.maxalloc) + u16_bytes(h.ss) + u16_bytes(h.sp) + u16_bytes(h.csum) + u16_bytes(h.ip) + u16_bytes(h.cs) + u16_bytes(h.lfarlc) + u16_bytes(h.ovno), u16_bytes(h.res[0]));
        lemma_split(b, p, u16_bytes(h.magic) + u16_bytes(h.cblp) + u16_bytes(h.cp) + u16_bytes(h.crlc) + u16_bytes(h.cparhdr) + u16_bytes(h.minalloc) + u16_bytes(h.maxalloc) + u16_bytes(h.ss) + u16_bytes(h.sp) + u16_bytes(h.csum) + u16_bytes(h.ip) + u16_bytes(h.cs) + u16_bytes(h.lfarlc), u16_bytes(h.ovno));
        lemma_split(b, p, u16_bytes(h.magic) + u16_bytes(h.cblp) + u16_bytes(h.cp) + u16_bytes(h.crlc) + u16_bytes(h.cparhdr) + u16_bytes(h.minalloc) + u16_bytes(h.maxalloc) + u16_bytes(h.ss) + u16_bytes(h.sp) + u16_bytes(h.csum) + u16_bytes(h.ip) + u16_bytes(h.cs), u16_bytes(h.lfarlc));
        lemma_split(b, p, u16_bytes(h.magic) + u16_bytes(h.cblp) + u16_bytes(h.cp) + u16_bytes(h.crlc) + u16_bytes(h.cparhdr) + u16_bytes(h.minalloc) + u16_bytes(h.maxalloc) + u16_bytes(h.ss) + u16_bytes(h.sp) + u16_bytes(h.csum) + u16_bytes(h.ip), u16_bytes(h.cs));
        lemma_split(b, p, u16_bytes(h.magic) + u16_bytes(h.cblp) + u16_bytes(h.cp) + u16_bytes(h.crlc) + u16_bytes(h.cparhdr) + u16_bytes(h.minalloc) + u16_bytes(h.maxalloc) + u16_bytes(h.ss) + u16_bytes(h.sp) + u16_bytes(h.csum), u16_bytes(h.ip));
        lemma_split(b, p, u16_bytes(h.magic) + u16_bytes(h.cblp) + u16_bytes(h.cp) + u16_bytes(h.crlc) + u16_bytes(h.cparhdr) + u16_bytes(h.minalloc) + u16_bytes(h.maxalloc) + u16_bytes(h.ss) + u16_bytes(h.sp), u16_bytes(h.csum));
        lemma_split(b, p, u16_bytes(h.magic) + u16_bytes(h.cblp) + u16_bytes(h.cp) + u16_bytes(h.crlc) + u16_bytes(h.cparhdr) + u16_bytes(h.minalloc) + u16_bytes(h.maxalloc) + u16_bytes(h.ss), u16_bytes(h.sp));
        lemma_split(b, p, u16_bytes(h.magic) + u16_bytes(h.cblp) + u16_bytes(h.cp) + u16_bytes(h.crlc) + u16_bytes(h.cparhdr) + u16_bytes(h.minalloc) + u16_bytes(h.maxalloc), u16_bytes(h.ss));
        lemma_split(b, p, u16_bytes(h.magic) + u16_bytes(h.cblp) + u16_bytes(h.cp) + u16_bytes(h.crlc) + u16_bytes(h.cparhdr) + u16_bytes(h.minalloc), u16_bytes(h.maxalloc));
        lemma_split(b, p, u16_bytes(h.magic) + u16_bytes(h.cblp) + u16_bytes(h.cp) + u16_bytes(h.crlc) + u16_bytes(h.cparhdr), u16_bytes(h.minalloc));
        lemma_split(b, p, u16_bytes(h.magic) + u16_bytes(h.cblp) + u16_bytes(h.cp) + u16_bytes(h.crlc), u16_bytes(h.cparhdr));
        lemma_split(b, p, u16_bytes(h.magic) + u16_bytes(h.cblp) + u16_bytes(h.cp), u16_bytes(h.crlc));
        lemma_split(b, p, u16_bytes(h.magic) + u16_bytes(h.cblp), u16_bytes(h.cp));
        lemma_split(b, p, u16_bytes(h.magic), u16_bytes(h.cblp));
        lemma_u16_round_trip(b, p + 0, h.magic);
        lemma_u16_round_trip(b, p + 2, h.cblp);
        lemma_u16_round_trip(b, p + 4, h.cp);
        lemma_u16_round_trip(b, p + 6, h.crlc);
        lemma_u16_round_trip(b, p + 8, h.cparhdr);
        lemma_u16_round_trip(b, p + 10, h.minalloc);
        lemma_u16_round_trip(b, p + 12, h.maxalloc);
        lemma_u16_round_trip(b, p + 14, h.ss);
        lemma_u16_round_trip(b, p + 16, h.sp);
        lemma_u16_round_trip(b, p + 18, h.csum);
        lemma_u16_round_trip(b, p + 20, h.ip);
        lemma_u16_round_trip(b, p + 22, h.cs);
        lemma_u16_round_trip(b, p + 24, h.lfarlc);
        lemma_u16_round_trip(b, p + 26, h.ovno);
        lemma_u16_round_trip(b, p + 28, h.res[0]);
        lemma_u16_round_trip(b, p + 30, h.res[1]);
        lemma_u16_round_trip(b, p + 32, h.res[2]);
        lemma_u16_round_trip(b, p + 34, h.res[3]);
        lemma_u16_round_trip(b, p + 36, h.oemid);
        lemma_u16_round_trip(b, p + 38, h.oeminfo);
        lemma_u16_round_trip(b, p + 40, h.res2[0]);
        lemma_u16_round_trip(b, p + 42, h.res2[1]);
        lemma_u16_round_trip(b, p + 44, h.res2[2]);
        lemma_u16_round_trip(b, p + 46, h.res2[3]);
        lemma_u16_round_trip(b, p + 48, h.res2[4]);
        lemma_u16_round_trip(b, p + 50, h.res2[5]);
        lemma_u16_round_trip(b, p + 52, h.res2[6]);
        lemma_u16_round_trip(b, p + 54, h.res2[7]);
        lemma_u16_round_trip(b, p + 56, h.res2[8]);
        lemma_u16_round_trip(b, p + 58, h.res2[9]);
        lemma_u32_round_trip(b, p + 60, h.lfanew);
        let r = DosHeader::at(b, p);
        assert(r.res =~= h.res);
        assert(r.res2 =~= h.res2);
    }

    pub proof fn lemma_bytes_len(self)
        ensures
            self.bytes().len() == 64,
    {
        reveal(DosHeader::bytes);
    }
}

/// The COFF file header that follows the NT signature.
#[derive(Debug, Clone, Copy, PartialEq, Eq)]
pub struct FileHeader {
    pub machine: u16,
    pub number_of_sections: u16,
    pub time_date_stamp: u32,
    pub pointer_to_symbol_table: u32,
    pub number_of_symbols: u32,
    pub size_of_optional_header: u16,
    pub characteristics: u16,
}

impl FileHeader {
    /// The record stored at `p` in `b`.
    #[verifier::opaque]
    pub open spec fn at(b: Seq<u8>, p: int) -> FileHeader {
        FileHeader {
            machine: u16_at(b, p + 0),
            number_of_sections: u16_at(b, p + 2),
            time_date_stamp: u32_at(b, p + 4),
            pointer_to_symbol_table: u32_at(b, p + 8),
            number_of_symbols: u32_at(b, p + 12),
            size_of_optional_header: u16_at(b, p + 16),
            characteristics: u16_at(b, p + 18),
        }
    }

    /// The bytes that store this record.
    #[verifier::opaque]
    pub open spec fn bytes(self) -> Seq<u8> {
        u16_bytes(self.machine)
            + u16_bytes(self.number_of_sections)
            + u32_bytes(self.time_date_stamp)
            + u32_bytes(self.pointer_to_symbol_table)
            + u32_bytes(self.number_of_symbols)
            + u16_bytes(self.size_of_optional_header)
            + u16_bytes(self.characteristics)
    }

    /// Reads the record stored at `p` in `b`.
    pub fn read(b: &[u8], p: usize) -> (r: FileHeader)
        requires
            p + 20 <= b@.len(),
        ensures
            r == FileHeader::at(b@, p as int),
    {
        proof {
            reveal(FileHeader::at);
            assert(b@.len() == b.len());
        }
        FileHeader {
            machine: read_u16(b, p + 0),
            number_of_sections: read_u16(b, p + 2),
            time_date_stamp: read_u32(b, p + 4),
            pointer_to_symbol_table: read_u32(b, p + 8),
            number_of_symbols: read_u32(b, p + 12),
            size_of_optional_header: read_u16(b, p + 16),
            characteristics: read_u16(b, p + 18),
        }
    }

    /// Appends the bytes that store this record to `out`.
    pub fn write_to(&self, out: &mut Vec<u8>)
        ensures
            final(out)@ == old(out)@ + self.bytes(),
    {
        reveal(FileHeader::bytes);
        let ghost start = out@;
        push_u16(out, self.machine);
        assert(out@ =~= start + (u16_bytes(self.machine)));
        push_u16(out, self.number_of_sections);
        assert(out@ =~= start + (u16_bytes(self.machine) + u16_bytes(self.number_of_sections)));
        push_u32(out, self.time_date_stamp);
        assert(out@ =~= start + (u16_bytes(self.machine) + u16_bytes(self.number_of_sections) + u32_bytes(self.time_date_stamp)));
        push_u32(out, self.pointer_to_symbol_table);
        assert(out@ =~= start + (u16_bytes(self.machine) + u16_bytes(self.number_of_sections) + u32_bytes(self.time_date_stamp) + u32_bytes(self.pointer_to_symbol_table)));
        push_u32(out, self.number_of_symbols);
        assert(out@ =~= start + (u16_bytes(self.machine) + u16_bytes(self.number_of_sections) + u32_bytes(self.time_date_stamp) + u32_bytes(self.pointer_to_symbol_table) + u32_bytes(self.number_of_symbols)));
        push_u16(out, self.size_of_optional_header);
        assert(out@ =~= start + (u16_bytes(self.machine) + u16_bytes(self.number_of_sections) + u32_bytes(self.time_date_stamp) + u32_bytes(self.pointer_to_symbol_table) + u32_bytes(self.number_of_symbols) + u16_bytes(self.size_of_optional_header)));
        push_u16(out, self.characteristics);
        assert(out@ =~= start + (u16_bytes(self.machine) + u16_bytes(self.number_of_sections) + u32_bytes(self.time_date_stamp) + u32_bytes(self.pointer_to_symbol_table) + u32_bytes(self.number_of_symbols) + u16_bytes(self.size_of_optional_header) + u16_bytes(self.characteristics)));
        assert(final(out)@ =~= old(out)@ + self.bytes());
    }

    /// Reading the bytes that store `h` gives `h` back.
    pub proof fn lemma_round_trip(b: Seq<u8>, p: int, h: FileHeader)
        requires
            0 <= p,
            p + 20 <= b.len(),
            b.subrange(p, p + 20) == h.bytes(),
        ensures
            FileHeader::at(b, p) == h,
    {
        reveal(FileHeader::at);
        reveal(FileHeader::bytes);
        lemma_split(b, p, u16_bytes(h.machine) + u16_bytes(h.number_of_sections) + u32_bytes(h.time_date_stamp) + u32_bytes(h.pointer_to_symbol_table) + u32_bytes(h.number_of_symbols) + u16_bytes(h.size_of_optional_header), u16_bytes(h.characteristics));
        lemma_split(b, p, u16_bytes(h.machine) + u16_bytes(h.number_of_sections) + u32_bytes(h.time_date_stamp) + u32_bytes(h.pointer_to_symbol_table) + u32_bytes(h.number_of_symbols), u16_bytes(h.size_of_optional_header));
        lemma_split(b, p, u16_bytes(h.machine) + u16_bytes(h.number_of_sections) + u32_bytes(h.time_date_stamp) + u32_bytes(h.pointer_to_symbol_table), u32_bytes(h.number_of_symbols));
        lemma_split(b, p, u16_bytes(h.machine) + u16_bytes(h.number_of_sections) + u32_bytes(h.time_date_stamp), u32_bytes(h.pointer_to_symbol_table));
        lemma_split(b, p, u16_bytes(h.machine) + u16_bytes(h.number_of_sections), u32_bytes(h.time_date_stamp));
        lemma_split(b, p, u16_bytes(h.machine), u16_bytes(h.number_of_sections));
        lemma_u16_round_trip(b, p + 0, h.machine);
        lemma_u16_round_trip(b, p + 2, h.number_of_sections);
        lemma_u32_round_trip(b, p + 4, h.time_date_stamp);
        lemma_u32_round_trip(b, p + 8, h.pointer_to_symbol_table);
        lemma_u32_round_trip(b, p + 12, h.number_of_symbols);
        lemma_u16_round_trip(b, p + 16, h.size_of_optional_header);
        lemma_u16_round_trip(b, p + 18, h.characteristics);
    }

    pub proof fn lemma_bytes_len(self)
        ensures
            self.bytes().len() == 20,
    {
        reveal(FileHeader::bytes);
    }
}

/// The location `(virtual_address, size)` of one well-known table.
#[derive(Debug, Clone, Copy, PartialEq, Eq)]
pub struct DataDirectory {
    pub virtual_address: u32,
    pub size: u32,
}

impl DataDirectory {
    /// The record stored at `p` in `b`.
    #[verifier::opaque]
    pub open spec fn at(b: Seq<u8>, p: int) -> DataDirectory {
        DataDirectory {
            virtual_address: u32_at(b, p + 0),
            size: u32_at(b, p + 4),
        }
    }

    /// The bytes that store this record.
    #[verifier::opaque]
    pub open spec fn bytes(self) -> Seq<u8> {
        u32_bytes(self.virtual_address)
            + u32_bytes(self.size)
    }

    /// Reads the record stored at `p` in `b`.
    pub fn read(b: &[u8], p: usize) -> (r: DataDirectory)
        requires
            p + 8 <= b@.len(),
        ensures
            r == DataDirectory::at(b@, p as int),
    {
        proof {
            reveal(DataDirectory::at);
            assert(b@.len() == b.len());
        }
        DataDirectory {
            virtual_address: read_u32(b, p + 0),
            size: read_u32(b, p + 4),
        }
    }

    /// Appends the bytes that store this record to `out`.
    pub fn write_to(&self, out: &mut Vec<u8>)
        ensures
            final(out)@ == old(out)@ + self.bytes(),
    {
        reveal(DataDirectory::bytes);
        push_u32(out, self.virtual_address);
        push_u32(out, self.size);
        assert(final(out)@ =~= old(out)@ + self.bytes());
    }

    /// Reading the bytes that store `h` gives `h` back.
    pub proof fn lemma_round_trip(b: Seq<u8>, p: int, h: DataDirectory)
        requires
            0 <= p,
            p + 8 <= b.len(),
            b.subrange(p, p + 8) == h.bytes(),
        ensures
            DataDirectory::at(b, p) == h,
    {
        reveal(DataDirectory::at);
        reveal(DataDirectory::bytes);
        lemma_split(b, p, u32_bytes(h.virtual_address), u32_bytes(h.size));
        lemma_u32_round_trip(b, p + 0, h.virtual_address);
        lemma_u32_round_trip(b, p + 4, h.size);
    }

    pub proof fn lemma_bytes_len(self)
        ensures
            self.bytes().len() == 8,
    {
        reveal(DataDirectory::bytes);
    }
}

/// The optional header, whose four stack and heap sizes are as wide as the
/// image's words: `OptionalHeader<u32>` or `OptionalHeader<u64>`.
///
/// The 64-bit layout has no `base_of_data`: its image base is 64 bits wide and
/// occupies both the `base_of_data` and the `image_base` slots, low half first.
#[derive(Debug, Clone, Copy, PartialEq, Eq)]
pub struct OptionalHeader<T> {
    pub magic: u16,
    pub major_linker_version: u8,
    pub minor_linker_version: u8,
    pub size_of_code: u32,
    pub size_of_initialized_data: u32,
    pub size_of_uninitialized_data: u32,
    pub address_of_entry_point: u32,
    pub base_of_code: u32,
    pub base_of_data: u32,
    pub image_base: u32,
    pub section_alignment: u32,
    pub file_alignment: u32,
    pub major_operating_system_version: u16,
    pub minor_operating_system_version: u16,
    pub major_image_version: u16,
    pub minor_image_version: u16,
    pub major_subsystem_version: u16,
    pub minor_subsystem_version: u16,
    pub win32_version_value: u32,
    pub size_of_image: u32,
    pub size_of_headers: u32,
    pub check_sum: u32,
    pub subsystem: u16,
    pub dll_characteristics: u16,
    pub size_of_stack_reserve: T,
    pub size_of_stack_commit: T,
    pub size_of_heap_reserve: T,
    pub size_of_heap_commit: T,
    pub loader_flags: u32,
    pub number_of_rva_and_sizes: u32,
}

pub type OptionalHeader32 = OptionalHeader<u32>;

pub type OptionalHeader64 = OptionalHeader<u64>;

impl OptionalHeader<u32> {
    /// The record stored at `p` in `b`.
    #[verifier::opaque]
    pub open spec fn at_32(b: Seq<u8>, p: int) -> OptionalHeader<u32> {
        OptionalHeader {
            magic: u16_at(b, p + 0),
            major_linker_version: b[p + 2],
            minor_linker_version: b[p + 3],
            size_of_code: u32_at(b, p + 4),
            size_of_initialized_data: u32_at(b, p + 8),
            size_of_uninitialized_data: u32_at(b, p + 12),
            address_of_entry_point: u32_at(b, p + 16),
            base_of_code: u32_at(b, p + 20),
            base_of_data: u32_at(b, p + 24),
            image_base: u32_at(b, p + 28),
            section_alignment: u32_at(b, p + 32),
            file_alignment: u32_at(b, p + 36),
            major_operating_system_version: u16_at(b, p + 40),
            minor_operating_system_version: u16_at(b, p + 42),
            major_image_version: u16_at(b, p + 44),
            minor_image_version: u16_at(b, p + 46),
            major_subsystem_version: u16_at(b, p + 48),
            minor_subsystem_version: u16_at(b, p + 50),
            win32_version_value: u32_at(b, p + 52),
            size_of_image: u32_at(b, p + 56),
            size_of_headers: u32_at(b, p + 60),
            check_sum: u32_at(b, p + 64),
            subsystem: u16_at(b, p + 68),
            dll_characteristics: u16_at(b, p + 70),
            size_of_stack_reserve: u32_at(b, p + 72),
            size_of_stack_commit: u32_at(b, p + 76),
            size_of_heap_reserve: u32_at(b, p + 80),
            size_of_heap_commit: u32_at(b, p + 84),
            loader_flags: u32_at(b, p + 88),
            number_of_rva_and_sizes: u32_at(b, p + 92),
        }
    }

    /// The bytes that store this record.
    #[verifier::opaque]
    pub open spec fn bytes_32(self) -> Seq<u8> {
        u16_bytes(self.magic)
            + seq![self.major_linker_version]
            + seq![self.minor_linker_version]
            + u32_bytes(self.size_of_code)
            + u32_bytes(self.size_of_initialized_data)
            + u32_bytes(self.size_of_uninitialized_data)
            + u32_bytes(self.address_of_entry_point)
            + u32_bytes(self.base_of_code)
            + u32_bytes(self.base_of_data)
            + u32_bytes(self.image_base)
            + u32_bytes(self.section_alignment)
            + u32_bytes(self.file_alignment)
            + u16_bytes(self.major_operating_system_version)
            + u16_bytes(self.minor_operating_system_version)
            + u16_bytes(self.major_image_version)
            + u16_bytes(self.minor_image_version)
            + u16_bytes(self.major_subsystem_version)
            + u16_bytes(self.minor_subsystem_version)
            + u32_bytes(self.win32_version_value)
            + u32_bytes(self.size_of_image)
            + u32_bytes(self.size_of_headers)
            + u32_bytes(self.check_sum)
            + u16_bytes(self.subsystem)
            + u16_bytes(self.dll_characteristics)
            + u32_bytes(self.size_of_stack_reserve)
            + u32_bytes(self.size_of_stack_commit)
            + u32_bytes(self.size_of_heap_reserve)
            + u32_bytes(self.size_of_heap_commit)
            + u32_bytes(self.loader_flags)
            + u32_bytes(self.number_of_rva_and_sizes)
    }

    /// Reads the record stored at `p` in `b`.
    pub fn read(b: &[u8], p: usize) -> (r: OptionalHeader<u32>)
        requires
            p + 96 <= b@.len(),
        ensures
            r == OptionalHeader::<u32>::at_32(b@, p as int),
    {
        proof {
            reveal(OptionalHeader::<_>::at_32);
            assert(b@.len() == b.len());
        }
        OptionalHeader {
            magic: read_u16(b, p + 0),
            major_linker_version: b[p + 2],
            minor_linker_version: b[p + 3],
            size_of_code: read_u32(b, p + 4),
            size_of_initialized_data: read_u32(b, p + 8),
            size_of_uninitialized_data: read_u32(b, p + 12),
            address_of_entry_point: read_u32(b, p + 16),
            base_of_code: read_u32(b, p + 20),
            base_of_data: read_u32(b, p + 24),
            image_base: read_u32(b, p + 28),
            section_alignment: read_u32(b, p + 32),
            file_alignment: read_u32(b, p + 36),
            major_operating_system_version: read_u16(b, p + 40),
            minor_operating_system_version: read_u16(b, p + 42),
            major_image_version: read_u16(b, p + 44),
            minor_image_version: read_u16(b, p + 46),
            major_subsystem_version: read_u16(b, p + 48),
            minor_subsystem_version: read_u16(b, p + 50),
            win32_version_value: read_u32(b, p + 52),
            size_of_image: read_u32(b, p + 56),
            size_of_headers: read_u32(b, p + 60),
            check_sum: read_u32(b, p + 64),
            subsystem: read_u16(b, p + 68),
            dll_characteristics: read_u16(b, p + 70),
            size_of_stack_reserve: read_u32(b, p + 72),
            size_of_stack_commit: read_u32(b, p + 76),
            size_of_heap_reserve: read_u32(b, p + 80),
            size_of_heap_commit: read_u32(b, p + 84),
            loader_flags: read_u32(b, p + 88),
            number_of_rva_and_sizes: read_u32(b, p + 92),
        }
    }

    /// Appends the bytes that store this record to `out`.
    #[verifier::rlimit(60)]
    pub fn write_to(&self, out: &mut Vec<u8>)
        ensures
            final(out)@ == old(out)@ + self.bytes_32(),
    {
        reveal(OptionalHeader::<_>::bytes_32);
        let ghost start = out@;
        push_u16(out, self.magic);
        assert(out@ =~= start + (u16_bytes(self.magic)));
        out.push(self.major_linker_version);
        assert(out@ =~= start + (u16_bytes(self.magic) + seq![self.major_linker_version]));
        out.push(self.minor_linker_version);
        assert(out@ =~= start + (u16_bytes(self.magic) + seq![self.major_linker_version] + seq![self.minor_linker_version]));
        push_u32(out, self.size_of_code);
        assert(out@ =~= start + (u16_bytes(self.magic) + seq![self.major_linker_version] + seq![self.minor_linker_version] + u32_bytes(self.size_of_code)));
        push_u32(out, self.size_of_initialized_data);
        assert(out@ =~= start + (u16_bytes(self.magic) + seq![self.major_linker_version] + seq![self.minor_linker_version] + u32_bytes(self.size_of_code) + u32_bytes(self.size_of_initialized_data)));
        push_u32(out, self.size_of_uninitialized_data);
        assert(out@ =~= start + (u16_bytes(self.magic) + seq![self.major_linker_version] + seq![self.minor_linker_version] + u32_bytes(self.size_of_code) + u32_bytes(self.size_of_initialized_data) + u32_bytes(self.size_of_uninitialized_data)));
        push_u32(out, self.address_of_entry_point);
        assert(out@ =~= start + (u16_bytes(self.magic) + seq![self.major_linker_version] + seq![self.minor_linker_version] + u32_bytes(self.size_of_code) + u32_bytes(self.size_of_initialized_data) + u32_bytes(self.size_of_uninitialized_data) + u32_bytes(self.address_of_entry_point)));
        push_u32(out, self.base_of_code);
        assert(out@ =~= start + (u16_bytes(self.magic) + seq![self.major_linker_version] + seq![self.minor_linker_version] + u32_bytes(self.size_of_code) + u32_bytes(self.size_of_initialized_data) + u32_bytes(self.size_of_uninitialized_data) + u32_bytes(self.address_of_entry_point) + u32_bytes(self.base_of_code)));
        push_u32(out, self.base_of_data);
        assert(out@ =~= start + (u16_bytes(self.magic) + seq![self.major_linker_version] + seq![self.minor_linker_version] + u32_bytes(self.size_of_code) + u32_bytes(self.size_of_initialized_data) + u32_bytes(self.size_of_uninitialized_data) + u32_bytes(self.address_of_entry_point) + u32_bytes(self.base_of_code) + u32_bytes(self.base_of_data)));
        push_u32(out, self.image_base);
        assert(out@ =~= start + (u16_bytes(self.magic) + seq![self.major_linker_version] + seq![self.minor_linker_version] + u32_bytes(self.size_of_code) + u32_bytes(self.size_of_initialized_data) + u32_bytes(self.size_of_uninitialized_data) + u32_bytes(self.address_of_entry_point) + u32_bytes(self.base_of_code) + u32_bytes(self.base_of_data) + u32_bytes(self.image_base)));
        push_u32(out, self.section_alignment);
        assert(out@ =~= start + (u16_bytes(self.magic) + seq![self.major_linker_version] + seq![self.minor_linker_version] + u32_bytes(self.size_of_code) + u32_bytes(self.size_of_initialized_data) + u32_bytes(self.size_of_uninitialized_data) + u32_bytes(self.address_of_entry_point) + u32_bytes(self.base_of_code) + u32_bytes(self.base_of_data) + u32_bytes(self.image_base) + u32_bytes(self.section_alignment)));
        push_u32(out, self.file_alignment);
        assert(out@ =~= start + (u16_bytes(self.magic) + seq![self.major_linker_version] + seq![self.minor_linker_version] + u32_bytes(self.size_of_code) + u32_bytes(self.size_of_initialized_data) + u32_bytes(self.size_of_uninitialized_data) + u32_bytes(self.address_of_entry_point) + u32_bytes(self.base_of_code) + u32_bytes(self.base_of_data) + u32_bytes(self.image_base) + u32_bytes(self.section_alignment) + u32_bytes(self.file_alignment)));
        push_u16(out, self.major_operating_system_version);
        assert(out@ =~= start + (u16_bytes(self.magic) + seq![self.major_linker_version] + seq![self.minor_linker_version] + u32_bytes(self.size_of_code) + u32_bytes(self.size_of_initialized_data) + u32_bytes(self.size_of_uninitialized_data) + u32_bytes(self.address_of_entry_point) + u32_bytes(self.base_of_code) + u32_bytes(self.base_of_data) + u32_bytes(self.image_base) + u32_bytes(self.section_alignment) + u32_bytes(self.file_alignment) + u16_bytes(self.major_operating_system_version)));
        push_u16(out, self.minor_operating_system_version);
        assert(out@ =~= start + (u16_bytes(self.magic) + seq![self.major_linker_version] + seq![self.minor_linker_version] + u32_bytes(self.size_of_code) + u32_bytes(self.size_of_initialized_data) + u32_bytes(self.size_of_uninitialized_data) + u32_bytes(self.address_of_entry_point) + u32_bytes(self.base_of_code) + u32_bytes(self.base_of_data) + u32_bytes(self.image_base) + u32_bytes(self.section_alignment) + u32_bytes(self.file_alignment) + u16_bytes(self.major_operating_system_version) + u16_bytes(self.minor_operating_system_version)));
        push_u16(out, self.major_image_version);
        assert(out@ =~= start + (u16_bytes(self.magic) + seq![self.major_linker_version] + seq![self.minor_linker_version] + u32_bytes(self.size_of_code) + u32_bytes(self.size_of_initialized_data) + u32_bytes(self.size_of_uninitialized_data) + u32_bytes(self.address_of_entry_point) + u32_bytes(self.base_of_code) + u32_bytes(self.base_of_data) + u32_bytes(self.image_base) + u32_bytes(self.section_alignment) + u32_bytes(self.file_alignment) + u16_bytes(self.major_operating_system_version) + u16_bytes(self.minor_operating_system_version) + u16_bytes(self.major_image_version)));
        push_u16(out, self.minor_image_version);
        assert(out@ =~= start + (u16_bytes(self.magic) + seq![self.major_linker_version] + seq![self.minor_linker_version] + u32_bytes(self.size_of_code) + u32_bytes(self.size_of_initialized_data) + u32_bytes(self.size_of_uninitialized_data) + u32_bytes(self.address_of_entry_point) + u32_bytes(self.base_of_code) + u32_bytes(self.base_of_data) + u32_bytes(self.image_base) + u32_bytes(self.section_alignment) + u32_bytes(self.file_alignment) + u16_bytes(self.major_operating_system_version) + u16_bytes(self.minor_operating_system_version) + u16_bytes(self.major_image_version) + u16_bytes(self.minor_image_version)));
        push_u16(out, self.major_subsystem_version);
        assert(out@ =~= start + (u16_bytes(self.magic) + seq![self.major_linker_version] + seq![self.minor_linker_version] + u32_bytes(self.size_of_code) + u32_bytes(self.size_of_initialized_data) + u32_bytes(self.size_of_uninitialized_data) + u32_bytes(self.address_of_entry_point) + u32_bytes(self.base_of_code) + u32_bytes(self.base_of_data) + u32_bytes(self.image_base) + u32_bytes(self.section_alignment) + u32_bytes(self.file_alignment) + u16_bytes(self.major_operating_system_version) + u16_bytes(self.minor_operating_system_version) + u16_bytes(self.major_image_version) + u16_bytes(self.minor_image_version) + u16_bytes(self.major_subsystem_version)));
        push_u16(out, self.minor_subsystem_version);
        assert(out@ =~= start + (u16_bytes(self.magic) + seq![self.major_linker_version] + seq![self.minor_linker_version] + u32_bytes(self.size_of_code) + u32_bytes(self.size_of_initialized_data) + u32_bytes(self.size_of_uninitialized_data) + u32_bytes(self.address_of_entry_point) + u32_bytes(self.base_of_code) + u32_bytes(self.base_of_data) + u32_bytes(self.image_base) + u32_bytes(self.section_alignment) + u32_bytes(self.file_alignment) + u16_bytes(self.major_operating_system_version) + u16_bytes(self.minor_operating_system_version) + u16_bytes(self.major_image_version) + u16_bytes(self.minor_image_version) + u16_bytes(self.major_subsystem_version) + u16_bytes(self.minor_subsystem_version)));
        push_u32(out, self.win32_version_value);
        assert(out@ =~= start + (u16_bytes(self.magic) + seq![self.major_linker_version] + seq![self.minor_linker_version] + u32_bytes(self.size_of_code) + u32_bytes(self.size_of_initialized_data) + u32_bytes(self.size_of_uninitialized_data) + u32_bytes(self.address_of_entry_point) + u32_bytes(self.base_of_code) + u32_bytes(self.base_of_data) + u32_bytes(self.image_base) + u32_bytes(self.section_alignment) + u32_bytes(self.file_alignment) + u16_bytes(self.major_operating_system_version) + u16_bytes(self.minor_operating_system_version) + u16_bytes(self.major_image_version) + u16_bytes(self.minor_image_version) + u16_bytes(self.major_subsystem_version) + u16_bytes(self.minor_subsystem_version) + u32_bytes(self.win32_version_value)));
        push_u32(out, self.size_of_image);
        assert(out@ =~= start + (u16_bytes(self.magic) + seq![self.major_linker_version] + seq![self.minor_linker_version] + u32_bytes(self.size_of_code) + u32_bytes(self.size_of_initialized_data) + u32_bytes(self.size_of_uninitialized_data) + u32_bytes(self.address_of_entry_point) + u32_bytes(self.base_of_code) + u32_bytes(self.base_of_data) + u32_bytes(self.image_base) + u32_bytes(self.section_alignment) + u32_bytes(self.file_alignment) + u16_bytes(self.major_operating_system_version) + u16_bytes(self.minor_operating_system_version) + u16_bytes(self.major_image_version) + u16_bytes(self.minor_image_version) + u16_bytes(self.major_subsystem_version) + u16_bytes(self.minor_subsystem_version) + u32_bytes(self.win32_version_value) + u32_bytes(self.size_of_image)));
        push_u32(out, self.size_of_headers);
        assert(out@ =~= start + (u16_bytes(self.magic) + seq![self.major_linker_version] + seq![self.minor_linker_version] + u32_bytes(self.size_of_code) + u32_bytes(self.size_of_initialized_data) + u32_bytes(self.size_of_uninitialized_data) + u32_bytes(self.address_of_entry_point) + u32_bytes(self.base_of_code) + u32_bytes(self.base_of_data) + u32_bytes(self.image_base) + u32_bytes(self.section_alignment) + u32_bytes(self.file_alignment) + u16_bytes(self.major_operating_system_version) + u16_bytes(self.minor_operating_system_version) + u16_bytes(self.major_image_version) + u16_bytes(self.minor_image_version) + u16_bytes(self.major_subsystem_version) + u16_bytes(self.minor_subsystem_version) + u32_bytes(self.win32_version_value) + u32_bytes(self.size_of_image) + u32_bytes(self.size_of_headers)));
        push_u32(out, self.check_sum);
        assert(out@ =~= start + (u16_bytes(self.magic) + seq![self.major_linker_version] + seq![self.minor_linker_version] + u32_bytes(self.size_of_code) + u32_bytes(self.size_of_initialized_data) + u32_bytes(self.size_of_uninitialized_data) + u32_bytes(self.address_of_entry_point) + u32_bytes(self.base_of_code) + u32_bytes(self.base_of_data) + u32_bytes(self.image_base) + u32_bytes(self.section_alignment) + u32_bytes(self.file_alignment) + u16_bytes(self.major_operating_system_version) + u16_bytes(self.minor_operating_system_version) + u16_bytes(self.major_image_version) + u16_bytes(self.minor_image_version) + u16_bytes(self.major_subsystem_version) + u16_bytes(self.minor_subsystem_version) + u32_bytes(self.win32_version_value) + u32_bytes(self.size_of_image) + u32_bytes(self.size_of_headers) + u32_bytes(self.check_sum)));
        push_u16(out, self.subsystem);
        assert(out@ =~= start + (u16_bytes(self.magic) + seq![self.major_linker_version] + seq![self.minor_linker_version] + u32_bytes(self.size_of_code) + u32_bytes(self.size_of_initialized_data) + u32_bytes(self.size_of_uninitialized_data) + u32_bytes(self.address_of_entry_point) + u32_bytes(self.base_of_code) + u32_bytes(self.base_of_data) + u32_bytes(self.image_base) + u32_bytes(self.section_alignment) + u32_bytes(self.file_alignment) + u16_bytes(self.major_operating_system_version) + u16_bytes(self.minor_operating_system_version) + u16_bytes(self.major_image_version) + u16_bytes(self.minor_image_version) + u16_bytes(self.major_subsystem_version) + u16_bytes(self.minor_subsystem_version) + u32_bytes(self.win32_version_value) + u32_bytes(self.size_of_image) + u32_bytes(self.size_of_headers) + u32_bytes(self.check_sum) + u16_bytes(self.subsystem)));
        push_u16(out, self.dll_characteristics);
        assert(out@ =~= start + (u16_bytes(self.magic) + seq![self.major_linker_version] + seq![self.minor_linker_version] + u32_bytes(self.size_of_code) + u32_bytes(self.size_of_initialized_data) + u32_bytes(self.size_of_uninitialized_data) + u32_bytes(self.address_of_entry_point) + u32_bytes(self.base_of_code) + u32_bytes(self.base_of_data) + u32_bytes(self.image_base) + u32_bytes(self.section_alignment) + u32_bytes(self.file_alignment) + u16_bytes(self.major_operating_system_version) + u16_bytes(self.minor_operating_system_version) + u16_bytes(self.major_image_version) + u16_bytes(self.minor_image_version) + u16_bytes(self.major_subsystem_version) + u16_bytes(self.minor_subsystem_version) + u32_bytes(self.win32_version_value) + u32_bytes(self.size_of_image) + u32_bytes(self.size_of_headers) + u32_bytes(self.check_sum) + u16_bytes(self.subsystem) + u16_bytes(self.dll_characteristics)));
        push_u32(out, self.size_of_stack_reserve);
        assert(out@ =~= start + (u16_bytes(self.magic) + seq![self.major_linker_version] + seq![self.minor_linker_version] + u32_bytes(self.size_of_code) + u32_bytes(self.size_of_initialized_data) + u32_bytes(self.size_of_uninitialized_data) + u32_bytes(self.address_of_entry_point) + u32_bytes(self.base_of_code) + u32_bytes(self.base_of_data) + u32_bytes(self.image_base) + u32_bytes(self.section_alignment) + u32_bytes(self.file_alignment) + u16_bytes(self.major_operating_system_version) + u16_bytes(self.minor_operating_system_version) + u16_bytes(self.major_image_version) + u16_bytes(self.minor_image_version) + u16_bytes(self.major_subsystem_version) + u16_bytes(self.minor_subsystem_version) + u32_bytes(self.win32_version_value) + u32_bytes(self.size_of_image) + u32_bytes(self.size_of_headers) + u32_bytes(self.check_sum) + u16_bytes(self.subsystem) + u16_bytes(self.dll_characteristics) + u32_bytes(self.size_of_stack_reserve)));
        push_u32(out, self.size_of_stack_commit);
        assert(out@ =~= start + (u16_bytes(self.magic) + seq![self.major_linker_version] + seq![self.minor_linker_version] + u32_bytes(self.size_of_code) + u32_bytes(self.size_of_initialized_data) + u32_bytes(self.size_of_uninitialized_data) + u32_bytes(self.address_of_entry_point) + u32_bytes(self.base_of_code) + u32_bytes(self.base_of_data) + u32_bytes(self.image_base) + u32_bytes(self.section_alignment) + u32_bytes(self.file_alignment) + u16_bytes(self.major_operating_system_version) + u16_bytes(self.minor_operating_system_version) + u16_bytes(self.major_image_version) + u16_bytes(self.minor_image_version) + u16_bytes(self.major_subsystem_version) + u16_bytes(self.minor_subsystem_version) + u32_bytes(self.win32_version_value) + u32_bytes(self.size_of_image) + u32_bytes(self.size_of_headers) + u32_bytes(self.check_sum) + u16_bytes(self.subsystem) + u16_bytes(self.dll_characteristics) + u32_bytes(self.size_of_stack_reserve) + u32_bytes(self.size_of_stack_commit)));
        push_u32(out, self.size_of_heap_reserve);
        assert(out@ =~= start + (u16_bytes(self.magic) + seq![self.major_linker_version] + seq![self.minor_linker_version] + u32_bytes(self.size_of_code) + u32_bytes(self.size_of_initialized_data) + u32_bytes(self.size_of_uninitialized_data) + u32_bytes(self.address_of_entry_point) + u32_bytes(self.base_of_code) + u32_bytes(self.base_of_data) + u32_bytes(self.image_base) + u32_bytes(self.section_alignment) + u32_bytes(self.file_alignment) + u16_bytes(self.major_operating_system_version) + u16_bytes(self.minor_operating_system_version) + u16_bytes(self.major_image_version) + u16_bytes(self.minor_image_version) + u16_bytes(self.major_subsystem_version) + u16_bytes(self.minor_subsystem_version) + u32_bytes(self.win32_version_value) + u32_bytes(self.size_of_image) + u32_bytes(self.size_of_headers) + u32_bytes(self.check_sum) + u16_bytes(self.subsystem) + u16_bytes(self.dll_characteristics) + u32_bytes(self.size_of_stack_reserve) + u32_bytes(self.size_of_stack_commit) + u32_bytes(self.size_of_heap_reserve)));
        push_u32(out, self.size_of_heap_commit);
        assert(out@ =~= start + (u16_bytes(self.magic) + seq![self.major_linker_version] + seq![self.minor_linker_version] + u32_bytes(self.size_of_code) + u32_bytes(self.size_of_initialized_data) + u32_bytes(self.size_of_uninitialized_data) + u32_bytes(self.address_of_entry_point) + u32_bytes(self.base_of_code) + u32_bytes(self.base_of_data) + u32_bytes(self.image_base) + u32_bytes(self.section_alignment) + u32_bytes(self.file_alignment) + u16_bytes(self.major_operating_system_version) + u16_bytes(self.minor_operating_system_version) + u16_bytes(self.major_image_version) + u16_bytes(self.minor_image_version) + u16_bytes(self.major_subsystem_version) + u16_bytes(self.minor_subsystem_version) + u32_bytes(self.win32_version_value) + u32_bytes(self.size_of_image) + u32_bytes(self.size_of_headers) + u32_bytes(self.check_sum) + u16_bytes(self.subsystem) + u16_bytes(self.dll_characteristics) + u32_bytes(self.size_of_stack_reserve) + u32_bytes(self.size_of_stack_commit) + u32_bytes(self.size_of_heap_reserve) + u32_bytes(self.size_of_heap_commit)));
        push_u32(out, self.loader_flags);
        assert(out@ =~= start + (u16_bytes(self.magic) + seq![self.major_linker_version] + seq![self.minor_linker_version] + u32_bytes(self.size_of_code) + u32_bytes(self.size_of_initialized_data) + u32_bytes(self.size_of_uninitialized_data) + u32_bytes(self.address_of_entry_point) + u32_bytes(self.base_of_code) + u32_bytes(self.base_of_data) + u32_bytes(self.image_base) + u32_bytes(self.section_alignment) + u32_bytes(self.file_alignment) + u16_bytes(self.major_operating_system_version) + u16_bytes(self.minor_operating_system_version) + u16_bytes(self.major_image_version) + u16_bytes(self.minor_image_version) + u16_bytes(self.major_subsystem_version) + u16_bytes(self.minor_subsystem_version) + u32_bytes(self.win32_version_value) + u32_bytes(self.size_of_image) + u32_bytes(self.size_of_headers) + u32_bytes(self.check_sum) + u16_bytes(self.subsystem) + u16_bytes(self.dll_characteristics) + u32_bytes(self.size_of_stack_reserve) + u32_bytes(self.size_of_stack_commit) + u32_bytes(self.size_of_heap_reserve) + u32_bytes(self.size_of_heap_commit) + u32_bytes(self.loader_flags)));
        push_u32(out, self.number_of_rva_and_sizes);
        assert(out@ =~= start + (u16_bytes(self.magic) + seq![self.major_linker_version] + seq![self.minor_linker_version] + u32_bytes(self.size_of_code) + u32_bytes(self.size_of_initialized_data) + u32_bytes(self.size_of_uninitialized_data) + u32_bytes(self.address_of_entry_point) + u32_bytes(self.base_of_code) + u32_bytes(self.base_of_data) + u32_bytes(self.image_base) + u32_bytes(self.section_alignment) + u32_bytes(self.file_alignment) + u16_bytes(self.major_operating_system_version) + u16_bytes(self.minor_operating_system_version) + u16_bytes(self.major_image_version) + u16_bytes(self.minor_image_version) + u16_bytes(self.major_subsystem_version) + u16_bytes(self.minor_subsystem_version) + u32_bytes(self.win32_version_value) + u32_bytes(self.size_of_image) + u32_bytes(self.size_of_headers) + u32_bytes(self.check_sum) + u16_bytes(self.subsystem) + u16_bytes(self.dll_characteristics) + u32_bytes(self.size_of_stack_reserve) + u32_bytes(self.size_of_stack_commit) + u32_bytes(self.size_of_heap_reserve) + u32_bytes(self.size_of_heap_commit) + u32_bytes(self.loader_flags) + u32_bytes(self.number_of_rva_and_sizes)));
        assert(final(out)@ =~= old(out)@ + self.bytes_32());
    }

    /// Reading the bytes that store `h` gives `h` back.
    pub proof fn lemma_round_trip_32(b: Seq<u8>, p: int, h: OptionalHeader<u32>)
        requires
            0 <= p,
            p + 96 <= b.len(),
            b.subrange(p, p + 96) == h.bytes_32(),
        ensures
            OptionalHeader::<u32>::at_32(b, p) == h,
    {
        reveal(OptionalHeader::<_>::at_32);
        reveal(OptionalHeader::<_>::bytes_32);
        lemma_split(b, p, u16_bytes(h.magic) + seq![h.major_linker_version] + seq![h.minor_linker_version] + u32_bytes(h.size_of_code) + u32_bytes(h.size_of_initialized_data) + u32_bytes(h.size_of_uninitialized_data) + u32_bytes(h.address_of_entry_point) + u32_bytes(h.base_of_code) + u32_bytes(h.base_of_data) + u32_bytes(h.image_base) + u32_bytes(h.section_alignment) + u32_bytes(h.file_alignment) + u16_bytes(h.major_operating_system_version) + u16_bytes(h.minor_operating_system_version) + u16_bytes(h.major_image_version) + u16_bytes(h.minor_image_version) + u16_bytes(h.major_subsystem_version) + u16_bytes(h.minor_subsystem_version) + u32_bytes(h.win32_version_value) + u32_bytes(h.size_of_image) + u32_bytes(h.size_of_headers) + u32_bytes(h.check_sum) + u16_bytes(h.subsystem) + u16_bytes(h.dll_characteristics) + u32_bytes(h.size_of_stack_reserve) + u32_bytes(h.size_of_stack_commit) + u32_bytes(h.size_of_heap_reserve) + u32_bytes(h.size_of_heap_commit) + u32_bytes(h.loader_flags), u32_bytes(h.number_of_rva_and_sizes));
        lemma_split(b, p, u16_bytes(h.magic) + seq![h.major_linker_version] + seq![h.minor_linker_version] + u32_bytes(h.size_of_code) + u32_bytes(h.size_of_initialized_data) + u32_bytes(h.size_of_uninitialized_data) + u32_bytes(h.address_of_entry_point) + u32_bytes(h.base_of_code) + u32_bytes(h.base_of_data) + u32_bytes(h.image_base) + u32_bytes(h.section_alignment) + u32_bytes(h.file_alignment) + u16_bytes(h.major_operating_system_version) + u16_bytes(h.minor_operating_system_version) + u16_bytes(h.major_image_version) + u16_bytes(h.minor_image_version) + u16_bytes(h.major_subsystem_version) + u16_bytes(h.minor_subsystem_version) + u32_bytes(h.win32_version_value) + u32_bytes(h.size_of_image) + u32_bytes(h.size_of_headers) + u32_bytes(h.check_sum) + u16_bytes(h.subsystem) + u16_bytes(h.dll_characteristics) + u32_bytes(h.size_of_stack_reserve) + u32_bytes(h.size_of_stack_commit) + u32_bytes(h.size_of_heap_reserve) + u32_bytes(h.size_of_heap_commit), u32_bytes(h.loader_flags));
        lemma_split(b, p, u16_bytes(h.magic) + seq![h.major_linker_version] + seq![h.minor_linker_version] + u32_bytes(h.size_of_code) + u32_bytes(h.size_of_initialized_data) + u32_bytes(h.size_of_uninitialized_data) + u32_bytes(h.address_of_entry_point) + u32_bytes(h.base_of_code) + u32_bytes(h.base_of_data) + u32_bytes(h.image_base) + u32_bytes(h.section_alignment) + u32_bytes(h.file_alignment) + u16_bytes(h.major_operating_system_version) + u16_bytes(h.minor_operating_system_version) + u16_bytes(h.major_image_version) + u16_bytes(h.minor_image_version) + u16_bytes(h.major_subsystem_version) + u16_bytes(h.minor_subsystem_version) + u32_bytes(h.win32_version_value) + u32_bytes(h.size_of_image) + u32_bytes(h.size_of_headers) + u32_bytes(h.check_sum) + u16_bytes(h.subsystem) + u16_bytes(h.dll_characteristics) + u32_bytes(h.size_of_stack_reserve) + u32_bytes(h.size_of_stack_commit) + u32_bytes(h.size_of_heap_reserve), u32_bytes(h.size_of_heap_commit));
        lemma_split(b, p, u16_bytes(h.magic) + seq![h.major_linker_version] + seq![h.minor_linker_version] + u32_bytes(h.size_of_code) + u32_bytes(h.size_of_initialized_data) + u32_bytes(h.size_of_uninitialized_data) + u32_bytes(h.address_of_entry_point) + u32_bytes(h.base_of_code) + u32_bytes(h.base_of_data) + u32_bytes(h.image_base) + u32_bytes(h.section_alignment) + u32_bytes(h.file_alignment) + u16_bytes(h.major_operating_system_version) + u16_bytes(h.minor_operating_system_version) + u16_bytes(h.major_image_version) + u16_bytes(h.minor_image_version) + u16_bytes(h.major_subsystem_version) + u16_bytes(h.minor_subsystem_version) + u32_bytes(h.win32_version_value) + u32_bytes(h.size_of_image) + u32_bytes(h.size_of_headers) + u32_bytes(h.check_sum) + u16_bytes(h.subsystem) + u16_bytes(h.dll_characteristics) + u32_bytes(h.size_of_stack_reserve) + u32_bytes(h.size_of_stack_commit), u32_bytes(h.size_of_heap_reserve));
        lemma_split(b, p, u16_bytes(h.magic) + seq![h.major_linker_version] + seq![h.minor_linker_version] + u32_bytes(h.size_of_code) + u32_bytes(h.size_of_initialized_data) + u32_bytes(h.size_of_uninitialized_data) + u32_bytes(h.address_of_entry_point) + u32_bytes(h.base_of_code) + u32_bytes(h.base_of_data) + u32_bytes(h.image_base) + u32_bytes(h.section_alignment) + u32_bytes(h.file_alignment) + u16_bytes(h.major_operating_system_version) + u16_bytes(h.minor_operating_system_version) + u16_bytes(h.major_image_version) + u16_bytes(h.minor_image_version) + u16_bytes(h.major_subsystem_version) + u16_bytes(h.minor_subsystem_version) + u32_bytes(h.win32_version_value) + u32_bytes(h.size_of_image) + u32_bytes(h.size_of_headers) + u32_bytes(h.check_sum) + u16_bytes(h.subsystem) + u16_bytes(h.dll_characteristics) + u32_bytes(h.size_of_stack_reserve), u32_bytes(h.size_of_stack_commit));
        lemma_split(b, p, u16_bytes(h.magic) + seq![h.major_linker_version] + seq![h.minor_linker_version] + u32_bytes(h.size_of_code) + u32_bytes(h.size_of_initialized_data) + u32_bytes(h.size_of_uninitialized_data) + u32_bytes(h.address_of_entry_point) + u32_bytes(h.base_of_code) + u32_bytes(h.base_of_data) + u32_bytes(h.image_base) + u32_bytes(h.section_alignment) + u32_bytes(h.file_alignment) + u16_bytes(h.major_operating_system_version) + u16_bytes(h.minor_operating_system_version) + u16_bytes(h.major_image_version) + u16_bytes(h.minor_image_version) + u16_bytes(h.major_subsystem_version) + u16_bytes(h.minor_subsystem_version) + u32_bytes(h.win32_version_value) + u32_bytes(h.size_of_image) + u32_bytes(h.size_of_headers) + u32_bytes(h.check_sum) + u16_bytes(h.subsystem) + u16_bytes(h.dll_characteristics), u32_bytes(h.size_of_stack_reserve));
        lemma_split(b, p, u16_bytes(h.magic) + seq![h.major_linker_version] + seq![h.minor_linker_version] + u32_bytes(h.size_of_code) + u32_bytes(h.size_of_initialized_data) + u32_bytes(h.size_of_uninitialized_data) + u32_bytes(h.address_of_entry_point) + u32_bytes(h.base_of_code) + u32_bytes(h.base_of_data) + u32_bytes(h.image_base) + u32_bytes(h.section_alignment) + u32_bytes(h.file_alignment) + u16_bytes(h.major_operating_system_version) + u16_bytes(h.minor_operating_system_version) + u16_bytes(h.major_image_version) + u16_bytes(h.minor_image_version) + u16_bytes(h.major_subsystem_version) + u16_bytes(h.minor_subsystem_version) + u32_bytes(h.win32_version_value) + u32_bytes(h.size_of_image) + u32_bytes(h.size_of_headers) + u32_bytes(h.check_sum) + u16_bytes(h.subsystem), u16_bytes(h.dll_characteristics));
        lemma_split(b, p, u16_bytes(h.magic) + seq![h.major_linker_version] + seq![h.minor_linker_version] + u32_bytes(h.size_of_code) + u32_bytes(h.size_of_initialized_data) + u32_bytes(h.size_of_uninitialized_data) + u32_bytes(h.address_of_entry_point) + u32_bytes(h.base_of_code) + u32_bytes(h.base_of_data) + u32_bytes(h.image_base) + u32_bytes(h.section_alignment) + u32_bytes(h.file_alignment) + u16_bytes(h.major_operating_system_version) + u16_bytes(h.minor_operating_system_version) + u16_bytes(h.major_image_version) + u16_bytes(h.minor_image_version) + u16_bytes(h.major_subsystem_version) + u16_bytes(h.minor_subsystem_version) + u32_bytes(h.win32_version_value) + u32_bytes(h.size_of_image) + u32_bytes(h.size_of_headers) + u32_bytes(h.check_sum), u16_bytes(h.subsystem));
        lemma_split(b, p, u16_bytes(h.magic) + seq![h.major_linker_version] + seq![h.minor_linker_version] + u32_bytes(h.size_of_code) + u32_bytes(h.size_of_initialized_data) + u32_bytes(h.size_of_uninitialized_data) + u32_bytes(h.address_of_entry_point) + u32_bytes(h.base_of_code) + u32_bytes(h.base_of_data) + u32_bytes(h.image_base) + u32_bytes(h.section_alignment) + u32_bytes(h.file_alignment) + u16_bytes(h.major_operating_system_version) + u16_bytes(h.minor_operating_system_version) + u16_bytes(h.major_image_version) + u16_bytes(h.minor_image_version) + u16_bytes(h.major_subsystem_version) + u16_bytes(h.minor_subsystem_version) + u32_bytes(h.win32_version_value) + u32_bytes(h.size_of_image) + u32_bytes(h.size_of_headers), u32_bytes(h.check_sum));
        lemma_split(b, p, u16_bytes(h.magic) + seq![h.major_linker_version] + seq![h.minor_linker_version] + u32_bytes(h.size_of_code) + u32_bytes(h.size_of_initialized_data) + u32_bytes(h.size_of_uninitialized_data) + u32_bytes(h.address_of_entry_point) + u32_bytes(h.base_of_code) + u32_bytes(h.base_of_data) + u32_bytes(h.image_base) + u32_bytes(h.section_alignment) + u32_bytes(h.file_alignment) + u16_bytes(h.major_operating_system_version) + u16_bytes(h.minor_operating_system_version) + u16_bytes(h.major_image_version) + u16_bytes(h.minor_image_version) + u16_bytes(h.major_subsystem_version) + u16_bytes(h.minor_subsystem_version) + u32_bytes(h.win32_version_value) + u32_bytes(h.size_of_image), u32_bytes(h.size_of_headers));
        lemma_split(b, p, u16_bytes(h.magic) + seq![h.major_linker_version] + seq![h.minor_linker_version] + u32_bytes(h.size_of_code) + u32_bytes(h.size_of_initialized_data) + u32_bytes(h.size_of_uninitialized_data) + u32_bytes(h.address_of_entry_point) + u32_bytes(h.base_of_code) + u32_bytes(h.base_of_data) + u32_bytes(h.image_base) + u32_bytes(h.section_alignment) + u32_bytes(h.file_alignment) + u16_bytes(h.major_operating_system_version) + u16_bytes(h.minor_operating_system_version) + u16_bytes(h.major_image_version) + u16_bytes(h.minor_image_version) + u16_bytes(h.major_subsystem_version) + u16_bytes(h.minor_subsystem_version) + u32_bytes(h.win32_version_value), u32_bytes(h.size_of_image));
        lemma_split(b, p, u16_bytes(h.magic) + seq![h.major_linker_version] + seq![h.minor_linker_version] + u32_bytes(h.size_of_code) + u32_bytes(h.size_of_initialized_data) + u32_bytes(h.size_of_uninitialized_data) + u32_bytes(h.address_of_entry_point) + u32_bytes(h.base_of_code) + u32_bytes(h.base_of_data) + u32_bytes(h.image_base) + u32_bytes(h.section_alignment) + u32_bytes(h.file_alignment) + u16_bytes(h.major_operating_system_version) + u16_bytes(h.minor_operating_system_version) + u16_bytes(h.major_image_version) + u16_bytes(h.minor_image_version) + u16_bytes(h.major_subsystem_version) + u16_bytes(h.minor_subsystem_version), u32_bytes(h.win32_version_value));
        lemma_split(b, p, u16_bytes(h.magic) + seq![h.major_linker_version] + seq![h.minor_linker_version] + u32_bytes(h.size_of_code) + u32_bytes(h.size_of_initialized_data) + u32_bytes(h.size_of_uninitialized_data) + u32_bytes(h.address_of_entry_point) + u32_bytes(h.base_of_code) + u32_bytes(h.base_of_data) + u32_bytes(h.image_base) + u32_bytes(h.section_alignment) + u32_bytes(h.file_alignment) + u16_bytes(h.major_operating_system_version) + u16_bytes(h.minor_operating_system_version) + u16_bytes(h.major_image_version) + u16_bytes(h.minor_image_version) + u16_bytes(h.major_subsystem_version), u16_bytes(h.minor_subsystem_version));
        lemma_split(b, p, u16_bytes(h.magic) + seq![h.major_linker_version] + seq![h.minor_linker_version] + u32_bytes(h.size_of_code) + u32_bytes(h.size_of_initialized_data) + u32_bytes(h.size_of_uninitialized_data) + u32_bytes(h.address_of_entry_point) + u32_bytes(h.base_of_code) + u32_bytes(h.base_of_data) + u32_bytes(h.image_base) + u32_bytes(h.section_alignment) + u32_bytes(h.file_alignment) + u16_bytes(h.major_operating_system_version) + u16_bytes(h.minor_operating_system_version) + u16_bytes(h.major_image_version) + u16_bytes(h.minor_image_version), u16_bytes(h.major_subsystem_version));
        lemma_split(b, p, u16_bytes(h.magic) + seq![h.major_linker_version] + seq![h.minor_linker_version] + u32_bytes(h.size_of_code) + u32_bytes(h.size_of_initialized_data) + u32_bytes(h.size_of_uninitialized_data) + u32_bytes(h.address_of_entry_point) + u32_bytes(h.base_of_code) + u32_bytes(h.base_of_data) + u32_bytes(h.image_base) + u32_bytes(h.section_alignment) + u32_bytes(h.file_alignment) + u16_bytes(h.major_operating_system_version) + u16_bytes(h.minor_operating_system_version) + u16_bytes(h.major_image_version), u16_bytes(h.minor_image_version));
        lemma_split(b, p, u16_bytes(h.magic) + seq![h.major_linker_version] + seq![h.minor_linker_version] + u32_bytes(h.size_of_code) + u32_bytes(h.size_of_initialized_data) + u32_bytes(h.size_of_uninitialized_data) + u32_bytes(h.address_of_entry_point) + u32_bytes(h.base_of_code) + u32_bytes(h.base_of_data) + u32_bytes(h.image_base) + u32_bytes(h.section_alignment) + u32_bytes(h.file_alignment) + u16_bytes(h.major_operating_system_version) + u16_bytes(h.minor_operating_system_version), u16_bytes(h.major_image_version));
        lemma_split(b, p, u16_bytes(h.magic) + seq![h.major_linker_version] + seq![h.minor_linker_version] + u32_bytes(h.size_of_code) + u32_bytes(h.size_of_initialized_data) + u32_bytes(h.size_of_uninitialized_data) + u32_bytes(h.address_of_entry_point) + u32_bytes(h.base_of_code) + u32_bytes(h.base_of_data) + u32_bytes(h.image_base) + u32_bytes(h.section_alignment) + u32_bytes(h.file_alignment) + u16_bytes(h.major_operating_system_version), u16_bytes(h.minor_operating_system_version));
        lemma_split(b, p, u16_bytes(h.magic) + seq![h.major_linker_version] + seq![h.minor_linker_version] + u32_bytes(h.size_of_code) + u32_bytes(h.size_of_initialized_data) + u32_bytes(h.size_of_uninitialized_data) + u32_bytes(h.address_of_entry_point) + u32_bytes(h.base_of_code) + u32_bytes(h.base_of_data) + u32_bytes(h.image_base) + u32_bytes(h.section_alignment) + u32_bytes(h.file_alignment), u16_bytes(h.major_operating_system_version));
        lemma_split(b, p, u16_bytes(h.magic) + seq![h.major_linker_version] + seq![h.minor_linker_version] + u32_bytes(h.size_of_code) + u32_bytes(h.size_of_initialized_data) + u32_bytes(h.size_of_uninitialized_data) + u32_bytes(h.address_of_entry_point) + u32_bytes(h.base_of_code) + u32_bytes(h.base_of_data) + u32_bytes(h.image_base) + u32_bytes(h.section_alignment), u32_bytes(h.file_alignment));
        lemma_split(b, p, u16_bytes(h.magic) + seq![h.major_linker_version] + seq![h.minor_linker_version] + u32_bytes(h.size_of_code) + u32_bytes(h.size_of_initialized_data) + u32_bytes(h.size_of_uninitialized_data) + u32_bytes(h.address_of_entry_point) + u32_bytes(h.base_of_code) + u32_bytes(h.base_of_data) + u32_bytes(h.image_base), u32_bytes(h.section_alignment));
        lemma_split(b, p, u16_bytes(h.magic) + seq![h.major_linker_version] + seq![h.minor_linker_version] + u32_bytes(h.size_of_code) + u32_bytes(h.size_of_initialized_data) + u32_bytes(h.size_of_uninitialized_data) + u32_bytes(h.address_of_entry_point) + u32_bytes(h.base_of_code) + u32_bytes(h.base_of_data), u32_bytes(h.image_base));
        lemma_split(b, p, u16_bytes(h.magic) + seq![h.major_linker_version] + seq![h.minor_linker_version] + u32_bytes(h.size_of_code) + u32_bytes(h.size_of_initialized_data) + u32_bytes(h.size_of_uninitialized_data) + u32_bytes(h.address_of_entry_point) + u32_bytes(h.base_of_code), u32_bytes(h.base_of_data));
        lemma_split(b, p, u16_bytes(h.magic) + seq![h.major_linker_version] + seq![h.minor_linker_version] + u32_bytes(h.size_of_code) + u32_bytes(h.size_of_initialized_data) + u32_bytes(h.size_of_uninitialized_data) + u32_bytes(h.address_of_entry_point), u32_bytes(h.base_of_code));
        lemma_split(b, p, u16_bytes(h.magic) + seq![h.major_linker_version] + seq![h.minor_linker_version] + u32_bytes(h.size_of_code) + u32_bytes(h.size_of_initialized_data) + u32_bytes(h.size_of_uninitialized_data), u32_bytes(h.address_of_entry_point));
        lemma_split(b, p, u16_bytes(h.magic) + seq![h.major_linker_version] + seq![h.minor_linker_version] + u32_bytes(h.size_of_code) + u32_bytes(h.size_of_initialized_data), u32_bytes(h.size_of_uninitialized_data));
        lemma_split(b, p, u16_bytes(h.magic) + seq![h.major_linker_version] + seq![h.minor_linker_version] + u32_bytes(h.size_of_code), u32_bytes(h.size_of_initialized_data));
        lemma_split(b, p, u16_bytes(h.magic) + seq![h.major_linker_version] + seq![h.minor_linker_version], u32_bytes(h.size_of_code));
        lemma_split(b, p, u16_bytes(h.magic) + seq![h.major_linker_version], seq![h.minor_linker_version]);
        lemma_split(b, p, u16_bytes(h.magic), seq![h.major_linker_version]);
        lemma_u16_round_trip(b, p + 0, h.magic);
        assert(b[p + 2] == b.subrange(p + 2, p + 3)[0]);
        assert(b[p + 3] == b.subrange(p + 3, p + 4)[0]);
        lemma_u32_round_trip(b, p + 4, h.size_of_code);
        lemma_u32_round_trip(b, p + 8, h.size_of_initialized_data);
        lemma_u32_round_trip(b, p + 12, h.size_of_uninitialized_data);
        lemma_u32_round_trip(b, p + 16, h.address_of_entry_point);
        lemma_u32_round_trip(b, p + 20, h.base_of_code);
        lemma_u32_round_trip(b, p + 24, h.base_of_data);
        lemma_u32_round_trip(b, p + 28, h.image_base);
        lemma_u32_round_trip(b, p + 32, h.section_alignment);
        lemma_u32_round_trip(b, p + 36, h.file_alignment);
        lemma_u16_round_trip(b, p + 40, h.major_operating_system_version);
        lemma_u16_round_trip(b, p + 42, h.minor_operating_system_version);
        lemma_u16_round_trip(b, p + 44, h.major_image_version);
        lemma_u16_round_trip(b, p + 46, h.minor_image_version);
        lemma_u16_round_trip(b, p + 48, h.major_subsystem_version);
        lemma_u16_round_trip(b, p + 50, h.minor_subsystem_version);
        lemma_u32_round_trip(b, p + 52, h.win32_version_value);
        lemma_u32_round_trip(b, p + 56, h.size_of_image);
        lemma_u32_round_trip(b, p + 60, h.size_of_headers);
        lemma_u32_round_trip(b, p + 64, h.check_sum);
        lemma_u16_round_trip(b, p + 68, h.subsystem);
        lemma_u16_round_trip(b, p + 70, h.dll_characteristics);
        lemma_u32_round_trip(b, p + 72, h.size_of_stack_reserve);
        lemma_u32_round_trip(b, p + 76, h.size_of_stack_commit);
        lemma_u32_round_trip(b, p + 80, h.size_of_heap_reserve);
        lemma_u32_round_trip(b, p + 84, h.size_of_heap_commit);
        lemma_u32_round_trip(b, p + 88, h.loader_flags);
        lemma_u32_round_trip(b, p + 92, h.number_of_rva_and_sizes);
    }

    pub proof fn lemma_bytes_len_32(self)
        ensures
            self.bytes_32().len() == 96,
    {
        reveal(OptionalHeader::<_>::bytes_32);
    }
}

impl OptionalHeader<u64> {
    /// The record stored at `p` in `b`.
    #[verifier::opaque]
    pub open spec fn at_64(b: Seq<u8>, p: int) -> OptionalHeader<u64> {
        OptionalHeader {
            magic: u16_at(b, p + 0),
            major_linker_version: b[p + 2],
            minor_linker_version: b[p + 3],
            size_of_code: u32_at(b, p + 4),
            size_of_initialized_data: u32_at(b, p + 8),
            size_of_uninitialized_data: u32_at(b, p + 12),
            address_of_entry_point: u32_at(b, p + 16),
            base_of_code: u32_at(b, p + 20),
            base_of_data: u32_at(b, p + 24),
            image_base: u32_at(b, p + 28),
            section_alignment: u32_at(b, p + 32),
            file_alignment: u32_at(b, p + 36),
            major_operating_system_version: u16_at(b, p + 40),
            minor_operating_system_version: u16_at(b, p + 42),
            major_image_version: u16_at(b, p + 44),
            minor_image_version: u16_at(b, p + 46),
            major_subsystem_version: u16_at(b, p + 48),
            minor_subsystem_version: u16_at(b, p + 50),
            win32_version_value: u32_at(b, p + 52),
            size_of_image: u32_at(b, p + 56),
            size_of_headers: u32_at(b, p + 60),
            check_sum: u32_at(b, p + 64),
            subsystem: u16_at(b, p + 68),
            dll_characteristics: u16_at(b, p + 70),
            size_of_stack_reserve: u64_at(b, p + 72),
            size_of_stack_commit: u64_at(b, p + 80),
            size_of_heap_reserve: u64_at(b, p + 88),
            size_of_heap_commit: u64_at(b, p + 96),
            loader_flags: u32_at(b, p + 104),
            number_of_rva_and_sizes: u32_at(b, p + 108),
        }
    }

    /// The bytes that store this record.
    #[verifier::opaque]
    pub open spec fn bytes_64(self) -> Seq<u8> {
        u16_bytes(self.magic)
            + seq![self.major_linker_version]
            + seq![self.minor_linker_version]
            + u32_bytes(self.size_of_code)
            + u32_bytes(self.size_of_initialized_data)
            + u32_bytes(self.size_of_uninitialized_data)
            + u32_bytes(self.address_of_entry_point)
            + u32_bytes(self.base_of_code)
            + u32_bytes(self.base_of_data)
            + u32_bytes(self.image_base)
            + u32_bytes(self.section_alignment)
            + u32_bytes(self.file_alignment)
            + u16_bytes(self.major_operating_system_version)
            + u16_bytes(self.minor_operating_system_version)
            + u16_bytes(self.major_image_version)
            + u16_bytes(self.minor_image_version)
            + u16_bytes(self.major_subsystem_version)
            + u16_bytes(self.minor_subsystem_version)
            + u32_bytes(self.win32_version_value)
            + u32_bytes(self.size_of_image)
            + u32_bytes(self.size_of_headers)
            + u32_bytes(self.check_sum)
            + u16_bytes(self.subsystem)
            + u16_bytes(self.dll_characteristics)
            + u64_bytes(self.size_of_stack_reserve)
            + u64_bytes(self.size_of_stack_commit)
            + u64_bytes(self.size_of_heap_reserve)
            + u64_bytes(self.size_of_heap_commit)
            + u32_bytes(self.loader_flags)
            + u32_bytes(self.number_of_rva_and_sizes)
    }

    /// Reads the record stored at `p` in `b`.
    pub fn read(b: &[u8], p: usize) -> (r: OptionalHeader<u64>)
        requires
            p + 112 <= b@.len(),
        ensures
            r == OptionalHeader::<u64>::at_64(b@, p as int),
    {
        proof {
            reveal(OptionalHeader::<_>::at_64);
            assert(b@.len() == b.len());
        }
        OptionalHeader {
            magic: read_u16(b, p + 0),
            major_linker_version: b[p + 2],
            minor_linker_version: b[p + 3],
            size_of_code: read_u32(b, p + 4),
            size_of_initialized_data: read_u32(b, p + 8),
            size_of_uninitialized_data: read_u32(b, p + 12),
            address_of_entry_point: read_u32(b, p + 16),
            base_of_code: read_u32(b, p + 20),
            base_of_data: read_u32(b, p + 24),
            image_base: read_u32(b, p + 28),
            section_alignment: read_u32(b, p + 32),
            file_alignment: read_u32(b, p + 36),
            major_operating_system_version: read_u16(b, p + 40),
            minor_operating_system_version: read_u16(b, p + 42),
            major_image_version: read_u16(b, p + 44),
            minor_image_version: read_u16(b, p + 46),
            major_subsystem_version: read_u16(b, p + 48),
            minor_subsystem_version: read_u16(b, p + 50),
            win32_version_value: read_u32(b, p + 52),
            size_of_image: read_u32(b, p + 56),
            size_of_headers: read_u32(b, p + 60),
            check_sum: read_u32(b, p + 64),
            subsystem: read_u16(b, p + 68),
            dll_characteristics: read_u16(b, p + 70),
            size_of_stack_reserve: read_u64(b, p + 72),
            size_of_stack_commit: read_u64(b, p + 80),
            size_of_heap_reserve: read_u64(b, p + 88),
            size_of_heap_commit: read_u64(b, p + 96),
            loader_flags: read_u32(b, p + 104),
            number_of_rva_and_sizes: read_u32(b, p + 108),
        }
    }

    /// Appends the bytes that store this record to `out`.
    #[verifier::rlimit(60)]
    pub fn write_to(&self, out: &mut Vec<u8>)
        ensures
            final(out)@ == old(out)@ + self.bytes_64(),
    {
        reveal(OptionalHeader::<_>::bytes_64);
        let ghost start = out@;
        push_u16(out, self.magic);
        assert(out@ =~= start + (u16_bytes(self.magic)));
        out.push(self.major_linker_version);
        assert(out@ =~= start + (u16_bytes(self.magic) + seq![self.major_linker_version]));
        out.push(self.minor_linker_version);
        assert(out@ =~= start + (u16_bytes(self.magic) + seq![self.major_linker_version] + seq![self.minor_linker_version]));
        push_u32(out, self.size_of_code);
        assert(out@ =~= start + (u16_bytes(self.magic) + seq![self.major_linker_version] + seq![self.minor_linker_version] + u32_bytes(self.size_of_code)));
        push_u32(out, self.size_of_initialized_data);
        assert(out@ =~= start + (u16_bytes(self.magic) + seq![self.major_linker_version] + seq![self.minor_linker_version] + u32_bytes(self.size_of_code) + u32_bytes(self.size_of_initialized_data)));
        push_u32(out, self.size_of_uninitialized_data);
        assert(out@ =~= start + (u16_bytes(self.magic) + seq![self.major_linker_version] + seq![self.minor_linker_version] + u32_bytes(self.size_of_code) + u32_bytes(self.size_of_initialized_data) + u32_bytes(self.size_of_uninitialized_data)));
        push_u32(out, self.address_of_entry_point);
        assert(out@ =~= start + (u16_bytes(self.magic) + seq![self.major_linker_version] + seq![self.minor_linker_version] + u32_bytes(self.size_of_code) + u32_bytes(self.size_of_initialized_data) + u32_bytes(self.size_of_uninitialized_data) + u32_bytes(self.address_of_entry_point)));
        push_u32(out, self.base_of_code);
        assert(out@ =~= start + (u16_bytes(self.magic) + seq![self.major_linker_version] + seq![self.minor_linker_version] + u32_bytes(self.size_of_code) + u32_bytes(self.size_of_initialized_data) + u32_bytes(self.size_of_uninitialized_data) + u32_bytes(self.address_of_entry_point) + u32_bytes(self.base_of_code)));
        push_u32(out, self.base_of_data);
        assert(out@ =~= start + (u16_bytes(self.magic) + seq![self.major_linker_version] + seq![self.minor_linker_version] + u32_bytes(self.size_of_code) + u32_bytes(self.size_of_initialized_data) + u32_bytes(self.size_of_uninitialized_data) + u32_bytes(self.address_of_entry_point) + u32_bytes(self.base_of_code) + u32_bytes(self.base_of_data)));
        push_u32(out, self.image_base);
        assert(out@ =~= start + (u16_bytes(self.magic) + seq![self.major_linker_version] + seq![self.minor_linker_version] + u32_bytes(self.size_of_code) + u32_bytes(self.size_of_initialized_data) + u32_bytes(self.size_of_uninitialized_data) + u32_bytes(self.address_of_entry_point) + u32_bytes(self.base_of_code) + u32_bytes(self.base_of_data) + u32_bytes(self.image_base)));
        push_u32(out, self.section_alignment);
        assert(out@ =~= start + (u16_bytes(self.magic) + seq![self.major_linker_version] + seq![self.minor_linker_version] + u32_bytes(self.size_of_code) + u32_bytes(self.size_of_initialized_data) + u32_bytes(self.size_of_uninitialized_data) + u32_bytes(self.address_of_entry_point) + u32_bytes(self.base_of_code) + u32_bytes(self.base_of_data) + u32_bytes(self.image_base) + u32_bytes(self.section_alignment)));
        push_u32(out, self.file_alignment);
        assert(out@ =~= start + (u16_bytes(self.magic) + seq![self.major_linker_version] + seq![self.minor_linker_version] + u32_bytes(self.size_of_code) + u32_bytes(self.size_of_initialized_data) + u32_bytes(self.size_of_uninitialized_data) + u32_bytes(self.address_of_entry_point) + u32_bytes(self.base_of_code) + u32_bytes(self.base_of_data) + u32_bytes(self.image_base) + u32_bytes(self.section_alignment) + u32_bytes(self.file_alignment)));
        push_u16(out, self.major_operating_system_version);
        assert(out@ =~= start + (u16_bytes(self.magic) + seq![self.major_linker_version] + seq![self.minor_linker_version] + u32_bytes(self.size_of_code) + u32_bytes(self.size_of_initialized_data) + u32_bytes(self.size_of_uninitialized_data) + u32_bytes(self.address_of_entry_point) + u32_bytes(self.base_of_code) + u32_bytes(self.base_of_data) + u32_bytes(self.image_base) + u32_bytes(self.section_alignment) + u32_bytes(self.file_alignment) + u16_bytes(self.major_operating_system_version)));
        push_u16(out, self.minor_operating_system_version);
        assert(out@ =~= start + (u16_bytes(self.magic) + seq![self.major_linker_version] + seq![self.minor_linker_version] + u32_bytes(self.size_of_code) + u32_bytes(self.size_of_initialized_data) + u32_bytes(self.size_of_uninitialized_data) + u32_bytes(self.address_of_entry_point) + u32_bytes(self.base_of_code) + u32_bytes(self.base_of_data) + u32_bytes(self.image_base) + u32_bytes(self.section_alignment) + u32_bytes(self.file_alignment) + u16_bytes(self.major_operating_system_version) + u16_bytes(self.minor_operating_system_version)));
        push_u16(out, self.major_image_version);
        assert(out@ =~= start + (u16_bytes(self.magic) + seq![self.major_linker_version] + seq![self.minor_linker_version] + u32_bytes(self.size_of_code) + u32_bytes(self.size_of_initialized_data) + u32_bytes(self.size_of_uninitialized_data) + u32_bytes(self.address_of_entry_point) + u32_bytes(self.base_of_code) + u32_bytes(self.base_of_data) + u32_bytes(self.image_base) + u32_bytes(self.section_alignment) + u32_bytes(self.file_alignment) + u16_bytes(self.major_operating_system_version) + u16_bytes(self.minor_operating_system_version) + u16_bytes(self.major_image_version)));
        push_u16(out, self.minor_image_version);
        assert(out@ =~= start + (u16_bytes(self.magic) + seq![self.major_linker_version] + seq![self.minor_linker_version] + u32_bytes(self.size_of_code) + u32_bytes(self.size_of_initialized_data) + u32_bytes(self.size_of_uninitialized_data) + u32_bytes(self.address_of_entry_point) + u32_bytes(self.base_of_code) + u32_bytes(self.base_of_data) + u32_bytes(self.image_base) + u32_bytes(self.section_alignment) + u32_bytes(self.file_alignment) + u16_bytes(self.major_operating_system_version) + u16_bytes(self.minor_operating_system_version) + u16_bytes(self.major_image_version) + u16_bytes(self.minor_image_version)));
        push_u16(out, self.major_subsystem_version);
        assert(out@ =~= start + (u16_bytes(self.magic) + seq![self.major_linker_version] + seq![self.minor_linker_version] + u32_bytes(self.size_of_code) + u32_bytes(self.size_of_initialized_data) + u32_bytes(self.size_of_uninitialized_data) + u32_bytes(self.address_of_entry_point) + u32_bytes(self.base_of_code) + u32_bytes(self.base_of_data) + u32_bytes(self.image_base) + u32_bytes(self.section_alignment) + u32_bytes(self.file_alignment) + u16_bytes(self.major_operating_system_version) + u16_bytes(self.minor_operating_system_version) + u16_bytes(self.major_image_version) + u16_bytes(self.minor_image_version) + u16_bytes(self.major_subsystem_version)));
        push_u16(out, self.minor_subsystem_version);
        assert(out@ =~= start + (u16_bytes(self.magic) + seq![self.major_linker_version] + seq![self.minor_linker_version] + u32_bytes(self.size_of_code) + u32_bytes(self.size_of_initialized_data) + u32_bytes(self.size_of_uninitialized_data) + u32_bytes(self.address_of_entry_point) + u32_bytes(self.base_of_code) + u32_bytes(self.base_of_data) + u32_bytes(self.image_base) + u32_bytes(self.section_alignment) + u32_bytes(self.file_alignment) + u16_bytes(self.major_operating_system_version) + u16_bytes(self.minor_operating_system_version) + u16_bytes(self.major_image_version) + u16_bytes(self.minor_image_version) + u16_bytes(self.major_subsystem_version) + u16_bytes(self.minor_subsystem_version)));
        push_u32(out, self.win32_version_value);
        assert(out@ =~= start + (u16_bytes(self.magic) + seq![self.major_linker_version] + seq![self.minor_linker_version] + u32_bytes(self.size_of_code) + u32_bytes(self.size_of_initialized_data) + u32_bytes(self.size_of_uninitialized_data) + u32_bytes(self.address_of_entry_point) + u32_bytes(self.base_of_code) + u32_bytes(self.base_of_data) + u32_bytes(self.image_base) + u32_bytes(self.section_alignment) + u32_bytes(self.file_alignment) + u16_bytes(self.major_operating_system_version) + u16_bytes(self.minor_operating_system_version) + u16_bytes(self.major_image_version) + u16_bytes(self.minor_image_version) + u16_bytes(self.major_subsystem_version) + u16_bytes(self.minor_subsystem_version) + u32_bytes(self.win32_version_value)));
        push_u32(out, self.size_of_image);
        assert(out@ =~= start + (u16_bytes(self.magic) + seq![self.major_linker_version] + seq![self.minor_linker_version] + u32_bytes(self.size_of_code) + u32_bytes(self.size_of_initialized_data) + u32_bytes(self.size_of_uninitialized_data) + u32_bytes(self.address_of_entry_point) + u32_bytes(self.base_of_code) + u32_bytes(self.base_of_data) + u32_bytes(self.image_base) + u32_bytes(self.section_alignment) + u32_bytes(self.file_alignment) + u16_bytes(self.major_operating_system_version) + u16_bytes(self.minor_operating_system_version) + u16_bytes(self.major_image_version) + u16_bytes(self.minor_image_version) + u16_bytes(self.major_subsystem_version) + u16_bytes(self.minor_subsystem_version) + u32_bytes(self.win32_version_value) + u32_bytes(self.size_of_image)));
        push_u32(out, self.size_of_headers);
        assert(out@ =~= start + (u16_bytes(self.magic) + seq![self.major_linker_version] + seq![self.minor_linker_version] + u32_bytes(self.size_of_code) + u32_bytes(self.size_of_initialized_data) + u32_bytes(self.size_of_uninitialized_data) + u32_bytes(self.address_of_entry_point) + u32_bytes(self.base_of_code) + u32_bytes(self.base_of_data) + u32_bytes(self.image_base) + u32_bytes(self.section_alignment) + u32_bytes(self.file_alignment) + u16_bytes(self.major_operating_system_version) + u16_bytes(self.minor_operating_system_version) + u16_bytes(self.major_image_version) + u16_bytes(self.minor_image_version) + u16_bytes(self.major_subsystem_version) + u16_bytes(self.minor_subsystem_version) + u32_bytes(self.win32_version_value) + u32_bytes(self.size_of_image) + u32_bytes(self.size_of_headers)));
        push_u32(out, self.check_sum);
        assert(out@ =~= start + (u16_bytes(self.magic) + seq![self.major_linker_version] + seq![self.minor_linker_version] + u32_bytes(self.size_of_code) + u32_bytes(self.size_of_initialized_data) + u32_bytes(self.size_of_uninitialized_data) + u32_bytes(self.address_of_entry_point) + u32_bytes(self.base_of_code) + u32_bytes(self.base_of_data) + u32_bytes(self.image_base) + u32_bytes(self.section_alignment) + u32_bytes(self.file_alignment) + u16_bytes(self.major_operating_system_version) + u16_bytes(self.minor_operating_system_version) + u16_bytes(self.major_image_version) + u16_bytes(self.minor_image_version) + u16_bytes(self.major_subsystem_version) + u16_bytes(self.minor_subsystem_version) + u32_bytes(self.win32_version_value) + u32_bytes(self.size_of_image) + u32_bytes(self.size_of_headers) + u32_bytes(self.check_sum)));
        push_u16(out, self.subsystem);
        assert(out@ =~= start + (u16_bytes(self.magic) + seq![self.major_linker_version] + seq![self.minor_linker_version] + u32_bytes(self.size_of_code) + u32_bytes(self.size_of_initialized_data) + u32_bytes(self.size_of_uninitialized_data) + u32_bytes(self.address_of_entry_point) + u32_bytes(self.base_of_code) + u32_bytes(self.base_of_data) + u32_bytes(self.image_base) + u32_bytes(self.section_alignment) + u32_bytes(self.file_alignment) + u16_bytes(self.major_operating_system_version) + u16_bytes(self.minor_operating_system_version) + u16_bytes(self.major_image_version) + u16_bytes(self.minor_image_version) + u16_bytes(self.major_subsystem_version) + u16_bytes(self.minor_subsystem_version) + u32_bytes(self.win32_version_value) + u32_bytes(self.size_of_image) + u32_bytes(self.size_of_headers) + u32_bytes(self.check_sum) + u16_bytes(self.subsystem)));
        push_u16(out, self.dll_characteristics);
        assert(out@ =~= start + (u16_bytes(self.magic) + seq![self.major_linker_version] + seq![self.minor_linker_version] + u32_bytes(self.size_of_code) + u32_bytes(self.size_of_initialized_data) + u32_bytes(self.size_of_uninitialized_data) + u32_bytes(self.address_of_entry_point) + u32_bytes(self.base_of_code) + u32_bytes(self.base_of_data) + u32_bytes(self.image_base) + u32_bytes(self.section_alignment) + u32_bytes(self.file_alignment) + u16_bytes(self.major_operating_system_version) + u16_bytes(self.minor_operating_system_version) + u16_bytes(self.major_image_version) + u16_bytes(self.minor_image_version) + u16_bytes(self.major_subsystem_version) + u16_bytes(self.minor_subsystem_version) + u32_bytes(self.win32_version_value) + u32_bytes(self.size_of_image) + u32_bytes(self.size_of_headers) + u32_bytes(self.check_sum) + u16_bytes(self.subsystem) + u16_bytes(self.dll_characteristics)));
        push_u64(out, self.size_of_stack_reserve);
        assert(out@ =~= start + (u16_bytes(self.magic) + seq![self.major_linker_version] + seq![self.minor_linker_version] + u32_bytes(self.size_of_code) + u32_bytes(self.size_of_initialized_data) + u32_bytes(self.size_of_uninitialized_data) + u32_bytes(self.address_of_entry_point) + u32_bytes(self.base_of_code) + u32_bytes(self.base_of_data) + u32_bytes(self.image_base) + u32_bytes(self.section_alignment) + u32_bytes(self.file_alignment) + u16_bytes(self.major_operating_system_version) + u16_bytes(self.minor_operating_system_version) + u16_bytes(self.major_image_version) + u16_bytes(self.minor_image_version) + u16_bytes(self.major_subsystem_version) + u16_bytes(self.minor_subsystem_version) + u32_bytes(self.win32_version_value) + u32_bytes(self.size_of_image) + u32_bytes(self.size_of_headers) + u32_bytes(self.check_sum) + u16_bytes(self.subsystem) + u16_bytes(self.dll_characteristics) + u64_bytes(self.size_of_stack_reserve)));
        push_u64(out, self.size_of_stack_commit);
        assert(out@ =~= start + (u16_bytes(self.magic) + seq![self.major_linker_version] + seq![self.minor_linker_version] + u32_bytes(self.size_of_code) + u32_bytes(self.size_of_initialized_data) + u32_bytes(self.size_of_uninitialized_data) + u32_bytes(self.address_of_entry_point) + u32_bytes(self.base_of_code) + u32_bytes(self.base_of_data) + u32_bytes(self.image_base) + u32_bytes(self.section_alignment) + u32_bytes(self.file_alignment) + u16_bytes(self.major_operating_system_version) + u16_bytes(self.minor_operating_system_version) + u16_bytes(self.major_image_version) + u16_bytes(self.minor_image_version) + u16_bytes(self.major_subsystem_version) + u16_bytes(self.minor_subsystem_version) + u32_bytes(self.win32_version_value) + u32_bytes(self.size_of_image) + u32_bytes(self.size_of_headers) + u32_bytes(self.check_sum) + u16_bytes(self.subsystem) + u16_bytes(self.dll_characteristics) + u64_bytes(self.size_of_stack_reserve) + u64_bytes(self.size_of_stack_commit)));
        push_u64(out, self.size_of_heap_reserve);
        assert(out@ =~= start + (u16_bytes(self.magic) + seq![self.major_linker_version] + seq![self.minor_linker_version] + u32_bytes(self.size_of_code) + u32_bytes(self.size_of_initialized_data) + u32_bytes(self.size_of_uninitialized_data) + u32_bytes(self.address_of_entry_point) + u32_bytes(self.base_of_code) + u32_bytes(self.base_of_data) + u32_bytes(self.image_base) + u32_bytes(self.section_alignment) + u32_bytes(self.file_alignment) + u16_bytes(self.major_operating_system_version) + u16_bytes(self.minor_operating_system_version) + u16_bytes(self.major_image_version) + u16_bytes(self.minor_image_version) + u16_bytes(self.major_subsystem_version) + u16_bytes(self.minor_subsystem_version) + u32_bytes(self.win32_version_value) + u32_bytes(self.size_of_image) + u32_bytes(self.size_of_headers) + u32_bytes(self.check_sum) + u16_bytes(self.subsystem) + u16_bytes(self.dll_characteristics) + u64_bytes(self.size_of_stack_reserve) + u64_bytes(self.size_of_stack_commit) + u64_bytes(self.size_of_heap_reserve)));
        push_u64(out, self.size_of_heap_commit);
        assert(out@ =~= start + (u16_bytes(self.magic) + seq![self.major_linker_version] + seq![self.minor_linker_version] + u32_bytes(self.size_of_code) + u32_bytes(self.size_of_initialized_data) + u32_bytes(self.size_of_uninitialized_data) + u32_bytes(self.address_of_entry_point) + u32_bytes(self.base_of_code) + u32_bytes(self.base_of_data) + u32_bytes(self.image_base) + u32_bytes(self.section_alignment) + u32_bytes(self.file_alignment) + u16_bytes(self.major_operating_system_version) + u16_bytes(self.minor_operating_system_version) + u16_bytes(self.major_image_version) + u16_bytes(self.minor_image_version) + u16_bytes(self.major_subsystem_version) + u16_bytes(self.minor_subsystem_version) + u32_bytes(self.win32_version_value) + u32_bytes(self.size_of_image) + u32_bytes(self.size_of_headers) + u32_bytes(self.check_sum) + u16_bytes(self.subsystem) + u16_bytes(self.dll_characteristics) + u64_bytes(self.size_of_stack_reserve) + u64_bytes(self.size_of_stack_commit) + u64_bytes(self.size_of_heap_reserve) + u64_bytes(self.size_of_heap_commit)));
        push_u32(out, self.loader_flags);
        assert(out@ =~= start + (u16_bytes(self.magic) + seq![self.major_linker_version] + seq![self.minor_linker_version] + u32_bytes(self.size_of_code) + u32_bytes(self.size_of_initialized_data) + u32_bytes(self.size_of_uninitialized_data) + u32_bytes(self.address_of_entry_point) + u32_bytes(self.base_of_code) + u32_bytes(self.base_of_data) + u32_bytes(self.image_base) + u32_bytes(self.section_alignment) + u32_bytes(self.file_alignment) + u16_bytes(self.major_operating_system_version) + u16_bytes(self.minor_operating_system_version) + u16_bytes(self.major_image_version) + u16_bytes(self.minor_image_version) + u16_bytes(self.major_subsystem_version) + u16_bytes(self.minor_subsystem_version) + u32_bytes(self.win32_version_value) + u32_bytes(self.size_of_image) + u32_bytes(self.size_of_headers) + u32_bytes(self.check_sum) + u16_bytes(self.subsystem) + u16_bytes(self.dll_characteristics) + u64_bytes(self.size_of_stack_reserve) + u64_bytes(self.size_of_stack_commit) + u64_bytes(self.size_of_heap_reserve) + u64_bytes(self.size_of_heap_commit) + u32_bytes(self.loader_flags)));
        push_u32(out, self.number_of_rva_and_sizes);
        assert(out@ =~= start + (u16_bytes(self.magic) + seq![self.major_linker_version] + seq![self.minor_linker_version] + u32_bytes(self.size_of_code) + u32_bytes(self.size_of_initialized_data) + u32_bytes(self.size_of_uninitialized_data) + u32_bytes(self.address_of_entry_point) + u32_bytes(self.base_of_code) + u32_bytes(self.base_of_data) + u32_bytes(self.image_base) + u32_bytes(self.section_alignment) + u32_bytes(self.file_alignment) + u16_bytes(self.major_operating_system_version) + u16_bytes(self.minor_operating_system_version) + u16_bytes(self.major_image_version) + u16_bytes(self.minor_image_version) + u16_bytes(self.major_subsystem_version) + u16_bytes(self.minor_subsystem_version) + u32_bytes(self.win32_version_value) + u32_bytes(self.size_of_image) + u32_bytes(self.size_of_headers) + u32_bytes(self.check_sum) + u16_bytes(self.subsystem) + u16_bytes(self.dll_characteristics) + u64_bytes(self.size_of_stack_reserve) + u64_bytes(self.size_of_stack_commit) + u64_bytes(self.size_of_heap_reserve) + u64_bytes(self.size_of_heap_commit) + u32_bytes(self.loader_flags) + u32_bytes(self.number_of_rva_and_sizes)));
        assert(final(out)@ =~= old(out)@ + self.bytes_64());
    }

    #[verifier::rlimit(100)]
    /// Reading the bytes that store `h` gives `h` back.
    pub proof fn lemma_round_trip_64(b: Seq<u8>, p: int, h: OptionalHeader<u64>)
        requires
            0 <= p,
            p + 112 <= b.len(),
            b.subrange(p, p + 112) == h.bytes_64(),
        ensures
            OptionalHeader::<u64>::at_64(b, p) == h,
    {
        reveal(OptionalHeader::<_>::at_64);
        reveal(OptionalHeader::<_>::bytes_64);
        lemma_split(b, p, u16_bytes(h.magic) + seq![h.major_linker_version] + seq![h.minor_linker_version] + u32_bytes(h.size_of_code) + u32_bytes(h.size_of_initialized_data) + u32_bytes(h.size_of_uninitialized_data) + u32_bytes(h.address_of_entry_point) + u32_bytes(h.base_of_code) + u32_bytes(h.base_of_data) + u32_bytes(h.image_base) + u32_bytes(h.section_alignment) + u32_bytes(h.file_alignment) + u16_bytes(h.major_operating_system_version) + u16_bytes(h.minor_operating_system_version) + u16_bytes(h.major_image_version) + u16_bytes(h.minor_image_version) + u16_bytes(h.major_subsystem_version) + u16_bytes(h.minor_subsystem_version) + u32_bytes(h.win32_version_value) + u32_bytes(h.size_of_image) + u32_bytes(h.size_of_headers) + u32_bytes(h.check_sum) + u16_bytes(h.subsystem) + u16_bytes(h.dll_characteristics) + u64_bytes(h.size_of_stack_reserve) + u64_bytes(h.size_of_stack_commit) + u64_bytes(h.size_of_heap_reserve) + u64_bytes(h.size_of_heap_commit) + u32_bytes(h.loader_flags), u32_bytes(h.number_of_rva_and_sizes));
        lemma_split(b, p, u16_bytes(h.magic) + seq![h.major_linker_version] + seq![h.minor_linker_version] + u32_bytes(h.size_of_code) + u32_bytes(h.size_of_initialized_data) + u32_bytes(h.size_of_uninitialized_data) + u32_bytes(h.address_of_entry_point) + u32_bytes(h.base_of_code) + u32_bytes(h.base_of_data) + u32_bytes(h.image_base) + u32_bytes(h.section_alignment) + u32_bytes(h.file_alignment) + u16_bytes(h.major_operating_system_version) + u16_bytes(h.minor_operating_system_version) + u16_bytes(h.major_image_version) + u16_bytes(h.minor_image_version) + u16_bytes(h.major_subsystem_version) + u16_bytes(h.minor_subsystem_version) + u32_bytes(h.win32_version_value) + u32_bytes(h.size_of_image) + u32_bytes(h.size_of_headers) + u32_bytes(h.check_sum) + u16_bytes(h.subsystem) + u16_bytes(h.dll_characteristics) + u64_bytes(h.size_of_stack_reserve) + u64_bytes(h.size_of_stack_commit) + u64_bytes(h.size_of_heap_reserve) + u64_bytes(h.size_of_heap_commit), u32_bytes(h.loader_flags));
        lemma_split(b, p, u16_bytes(h.magic) + seq![h.major_linker_version] + seq![h.minor_linker_version] + u32_bytes(h.size_of_code) + u32_bytes(h.size_of_initialized_data) + u32_bytes(h.size_of_uninitialized_data) + u32_bytes(h.address_of_entry_point) + u32_bytes(h.base_of_code) + u32_bytes(h.base_of_data) + u32_bytes(h.image_base) + u32_bytes(h.section_alignment) + u32_bytes(h.file_alignment) + u16_bytes(h.major_operating_system_version) + u16_bytes(h.minor_operating_system_version) + u16_bytes(h.major_image_version) + u16_bytes(h.minor_image_version) + u16_bytes(h.major_subsystem_version) + u16_bytes(h.minor_subsystem_version) + u32_bytes(h.win32_version_value) + u32_bytes(h.size_of_image) + u32_bytes(h.size_of_headers) + u32_bytes(h.check_sum) + u16_bytes(h.subsystem) + u16_bytes(h.dll_characteristics) + u64_bytes(h.size_of_stack_reserve) + u64_bytes(h.size_of_stack_commit) + u64_bytes(h.size_of_heap_reserve), u64_bytes(h.size_of_heap_commit));
        lemma_split(b, p, u16_bytes(h.magic) + seq![h.major_linker_version] + seq![h.minor_linker_version] + u32_bytes(h.size_of_code) + u32_bytes(h.size_of_initialized_data) + u32_bytes(h.size_of_uninitialized_data) + u32_bytes(h.address_of_entry_point) + u32_bytes(h.base_of_code) + u32_bytes(h.base_of_data) + u32_bytes(h.image_base) + u32_bytes(h.section_alignment) + u32_bytes(h.file_alignment) + u16_bytes(h.major_operating_system_version) + u16_bytes(h.minor_operating_system_version) + u16_bytes(h.major_image_version) + u16_bytes(h.minor_image_version) + u16_bytes(h.major_subsystem_version) + u16_bytes(h.minor_subsystem_version) + u32_bytes(h.win32_version_value) + u32_bytes(h.size_of_image) + u32_bytes(h.size_of_headers) + u32_bytes(h.check_sum) + u16_bytes(h.subsystem) + u16_bytes(h.dll_characteristics) + u64_bytes(h.size_of_stack_reserve) + u64_bytes(h.size_of_stack_commit), u64_bytes(h.size_of_heap_reserve));
        lemma_split(b, p, u16_bytes(h.magic) + seq![h.major_linker_version] + seq![h.minor_linker_version] + u32_bytes(h.size_of_code) + u32_bytes(h.size_of_initialized_data) + u32_bytes(h.size_of_uninitialized_data) + u32_bytes(h.address_of_entry_point) + u32_bytes(h.base_of_code) + u32_bytes(h.base_of_data) + u32_bytes(h.image_base) + u32_bytes(h.section_alignment) + u32_bytes(h.file_alignment) + u16_bytes(h.major_operating_system_version) + u16_bytes(h.minor_operating_system_version) + u16_bytes(h.major_image_version) + u16_bytes(h.minor_image_version) + u16_bytes(h.major_subsystem_version) + u16_bytes(h.minor_subsystem_version) + u32_bytes(h.win32_version_value) + u32_bytes(h.size_of_image) + u32_bytes(h.size_of_headers) + u32_bytes(h.check_sum) + u16_bytes(h.subsystem) + u16_bytes(h.dll_characteristics) + u64_bytes(h.size_of_stack_reserve), u64_bytes(h.size_of_stack_commit));
        lemma_split(b, p, u16_bytes(h.magic) + seq![h.major_linker_version] + seq![h.minor_linker_version] + u32_bytes(h.size_of_code) + u32_bytes(h.size_of_initialized_data) + u32_bytes(h.size_of_uninitialized_data) + u32_bytes(h.address_of_entry_point) + u32_bytes(h.base_of_code) + u32_bytes(h.base_of_data) + u32_bytes(h.image_base) + u32_bytes(h.section_alignment) + u32_bytes(h.file_alignment) + u16_bytes(h.major_operating_system_version) + u16_bytes(h.minor_operating_system_version) + u16_bytes(h.major_image_version) + u16_bytes(h.minor_image_version) + u16_bytes(h.major_subsystem_version) + u16_bytes(h.minor_subsystem_version) + u32_bytes(h.win32_version_value) + u32_bytes(h.size_of_image) + u32_bytes(h.size_of_headers) + u32_bytes(h.check_sum) + u16_bytes(h.subsystem) + u16_bytes(h.dll_characteristics), u64_bytes(h.size_of_stack_reserve));
        lemma_split(b, p, u16_bytes(h.magic) + seq![h.major_linker_version] + seq![h.minor_linker_version] + u32_bytes(h.size_of_code) + u32_bytes(h.size_of_initialized_data) + u32_bytes(h.size_of_uninitialized_data) + u32_bytes(h.address_of_entry_point) + u32_bytes(h.base_of_code) + u32_bytes(h.base_of_data) + u32_bytes(h.image_base) + u32_bytes(h.section_alignment) + u32_bytes(h.file_alignment) + u16_bytes(h.major_operating_system_version) + u16_bytes(h.minor_operating_system_version) + u16_bytes(h.major_image_version) + u16_bytes(h.minor_image_version) + u16_bytes(h.major_subsystem_version) + u16_bytes(h.minor_subsystem_version) + u32_bytes(h.win32_version_value) + u32_bytes(h.size_of_image) + u32_bytes(h.size_of_headers) + u32_bytes(h.check_sum) + u16_bytes(h.subsystem), u16_bytes(h.dll_characteristics));
        lemma_split(b, p, u16_bytes(h.magic) + seq![h.major_linker_version] + seq![h.minor_linker_version] + u32_bytes(h.size_of_code) + u32_bytes(h.size_of_initialized_data) + u32_bytes(h.size_of_uninitialized_data) + u32_bytes(h.address_of_entry_point) + u32_bytes(h.base_of_code) + u32_bytes(h.base_of_data) + u32_bytes(h.image_base) + u32_bytes(h.section_alignment) + u32_bytes(h.file_alignment) + u16_bytes(h.major_operating_system_version) + u16_bytes(h.minor_operating_system_version) + u16_bytes(h.major_image_version) + u16_bytes(h.minor_image_version) + u16_bytes(h.major_subsystem_version) + u16_bytes(h.minor_subsystem_version) + u32_bytes(h.win32_version_value) + u32_bytes(h.size_of_image) + u32_bytes(h.size_of_headers) + u32_bytes(h.check_sum), u16_bytes(h.subsystem));
        lemma_split(b, p, u16_bytes(h.magic) + seq![h.major_linker_version] + seq![h.minor_linker_version] + u32_bytes(h.size_of_code) + u32_bytes(h.size_of_initialized_data) + u32_bytes(h.size_of_uninitialized_data) + u32_bytes(h.address_of_entry_point) + u32_bytes(h.base_of_code) + u32_bytes(h.base_of_data) + u32_bytes(h.image_base) + u32_bytes(h.section_alignment) + u32_bytes(h.file_alignment) + u16_bytes(h.major_operating_system_version) + u16_bytes(h.minor_operating_system_version) + u16_bytes(h.major_image_version) + u16_bytes(h.minor_image_version) + u16_bytes(h.major_subsystem_version) + u16_bytes(h.minor_subsystem_version) + u32_bytes(h.win32_version_value) + u32_bytes(h.size_of_image) + u32_bytes(h.size_of_headers), u32_bytes(h.check_sum));
        lemma_split(b, p, u16_bytes(h.magic) + seq![h.major_linker_version] + seq![h.minor_linker_version] + u32_bytes(h.size_of_code) + u32_bytes(h.size_of_initialized_data) + u32_bytes(h.size_of_uninitialized_data) + u32_bytes(h.address_of_entry_point) + u32_bytes(h.base_of_code) + u32_bytes(h.base_of_data) + u32_bytes(h.image_base) + u32_bytes(h.section_alignment) + u32_bytes(h.file_alignment) + u16_bytes(h.major_operating_system_version) + u16_bytes(h.minor_operating_system_version) + u16_bytes(h.major_image_version) + u16_bytes(h.minor_image_version) + u16_bytes(h.major_subsystem_version) + u16_bytes(h.minor_subsystem_version) + u32_bytes(h.win32_version_value) + u32_bytes(h.size_of_image), u32_bytes(h.size_of_headers));
        lemma_split(b, p, u16_bytes(h.magic) + seq![h.major_linker_version] + seq![h.minor_linker_version] + u32_bytes(h.size_of_code) + u32_bytes(h.size_of_initialized_data) + u32_bytes(h.size_of_uninitialized_data) + u32_bytes(h.address_of_entry_point) + u32_bytes(h.base_of_code) + u32_bytes(h.base_of_data) + u32_bytes(h.image_base) + u32_bytes(h.section_alignment) + u32_bytes(h.file_alignment) + u16_bytes(h.major_operating_system_version) + u16_bytes(h.minor_operating_system_version) + u16_bytes(h.major_image_version) + u16_bytes(h.minor_image_version) + u16_bytes(h.major_subsystem_version) + u16_bytes(h.minor_subsystem_version) + u32_bytes(h.win32_version_value), u32_bytes(h.size_of_image));
        lemma_split(b, p, u16_bytes(h.magic) + seq![h.major_linker_version] + seq![h.minor_linker_version] + u32_bytes(h.size_of_code) + u32_bytes(h.size_of_initialized_data) + u32_bytes(h.size_of_uninitialized_data) + u32_bytes(h.address_of_entry_point) + u32_bytes(h.base_of_code) + u32_bytes(h.base_of_data) + u32_bytes(h.image_base) + u32_bytes(h.section_alignment) + u32_bytes(h.file_alignment) + u16_bytes(h.major_operating_system_version) + u16_bytes(h.minor_operating_system_version) + u16_bytes(h.major_image_version) + u16_bytes(h.minor_image_version) + u16_bytes(h.major_subsystem_version) + u16_bytes(h.minor_subsystem_version), u32_bytes(h.win32_version_value));
        lemma_split(b, p, u16_bytes(h.magic) + seq![h.major_linker_version] + seq![h.minor_linker_version] + u32_bytes(h.size_of_code) + u32_bytes(h.size_of_initialized_data) + u32_bytes(h.size_of_uninitialized_data) + u32_bytes(h.address_of_entry_point) + u32_bytes(h.base_of_code) + u32_bytes(h.base_of_data) + u32_bytes(h.image_base) + u32_bytes(h.section_alignment) + u32_bytes(h.file_alignment) + u16_bytes(h.major_operating_system_version) + u16_bytes(h.minor_operating_system_version) + u16_bytes(h.major_image_version) + u16_bytes(h.minor_image_version) + u16_bytes(h.major_subsystem_version), u16_bytes(h.minor_subsystem_version));
        lemma_split(b, p, u16_bytes(h.magic) + seq![h.major_linker_version] + seq![h.minor_linker_version] + u32_bytes(h.size_of_code) + u32_bytes(h.size_of_initialized_data) + u32_bytes(h.size_of_uninitialized_data) + u32_bytes(h.address_of_entry_point) + u32_bytes(h.base_of_code) + u32_bytes(h.base_of_data) + u32_bytes(h.image_base) + u32_bytes(h.section_alignment) + u32_bytes(h.file_alignment) + u16_bytes(h.major_operating_system_version) + u16_bytes(h.minor_operating_system_version) + u16_bytes(h.major_image_version) + u16_bytes(h.minor_image_version), u16_bytes(h.major_subsystem_version));
        lemma_split(b, p, u16_bytes(h.magic) + seq![h.major_linker_version] + seq![h.minor_linker_version] + u32_bytes(h.size_of_code) + u32_bytes(h.size_of_initialized_data) + u32_bytes(h.size_of_uninitialized_data) + u32_bytes(h.address_of_entry_point) + u32_bytes(h.base_of_code) + u32_bytes(h.base_of_data) + u32_bytes(h.image_base) + u32_bytes(h.section_alignment) + u32_bytes(h.file_alignment) + u16_bytes(h.major_operating_system_version) + u16_bytes(h.minor_operating_system_version) + u16_bytes(h.major_image_version), u16_bytes(h.minor_image_version));
        lemma_split(b, p, u16_bytes(h.magic) + seq![h.major_linker_version] + seq![h.minor_linker_version] + u32_bytes(h.size_of_code) + u32_bytes(h.size_of_initialized_data) + u32_bytes(h.size_of_uninitialized_data) + u32_bytes(h.address_of_entry_point) + u32_bytes(h.base_of_code) + u32_bytes(h.base_of_data) + u32_bytes(h.image_base) + u32_bytes(h.section_alignment) + u32_bytes(h.file_alignment) + u16_bytes(h.major_operating_system_version) + u16_bytes(h.minor_operating_system_version), u16_bytes(h.major_image_version));
        lemma_split(b, p, u16_bytes(h.magic) + seq![h.major_linker_version] + seq![h.minor_linker_version] + u32_bytes(h.size_of_code) + u32_bytes(h.size_of_initialized_data) + u32_bytes(h.size_of_uninitialized_data) + u32_bytes(h.address_of_entry_point) + u32_bytes(h.base_of_code) + u32_bytes(h.base_of_data) + u32_bytes(h.image_base) + u32_bytes(h.section_alignment) + u32_bytes(h.file_alignment) + u16_bytes(h.major_operating_system_version), u16_bytes(h.minor_operating_system_version));
        lemma_split(b, p, u16_bytes(h.magic) + seq![h.major_linker_version] + seq![h.minor_linker_version] + u32_bytes(h.size_of_code) + u32_bytes(h.size_of_initialized_data) + u32_bytes(h.size_of_uninitialized_data) + u32_bytes(h.address_of_entry_point) + u32_bytes(h.base_of_code) + u32_bytes(h.base_of_data) + u32_bytes(h.image_base) + u32_bytes(h.section_alignment) + u32_bytes(h.file_alignment), u16_bytes(h.major_operating_system_version));
        lemma_split(b, p, u16_bytes(h.magic) + seq![h.major_linker_version] + seq![h.minor_linker_version] + u32_bytes(h.size_of_code) + u32_bytes(h.size_of_initialized_data) + u32_bytes(h.size_of_uninitialized_data) + u32_bytes(h.address_of_entry_point) + u32_bytes(h.base_of_code) + u32_bytes(h.base_of_data) + u32_bytes(h.image_base) + u32_bytes(h.section_alignment), u32_bytes(h.file_alignment));
        lemma_split(b, p, u16_bytes(h.magic) + seq![h.major_linker_version] + seq![h.minor_linker_version] + u32_bytes(h.size_of_code) + u32_bytes(h.size_of_initialized_data) + u32_bytes(h.size_of_uninitialized_data) + u32_bytes(h.address_of_entry_point) + u32_bytes(h.base_of_code) + u32_bytes(h.base_of_data) + u32_bytes(h.image_base), u32_bytes(h.section_alignment));
        lemma_split(b, p, u16_bytes(h.magic) + seq![h.major_linker_version] + seq![h.minor_linker_version] + u32_bytes(h.size_of_code) + u32_bytes(h.size_of_initialized_data) + u32_bytes(h.size_of_uninitialized_data) + u32_bytes(h.address_of_entry_point) + u32_bytes(h.base_of_code) + u32_bytes(h.base_of_data), u32_bytes(h.image_base));
        lemma_split(b, p, u16_bytes(h.magic) + seq![h.major_linker_version] + seq![h.minor_linker_version] + u32_bytes(h.size_of_code) + u32_bytes(h.size_of_initialized_data) + u32_bytes(h.size_of_uninitialized_data) + u32_bytes(h.address_of_entry_point) + u32_bytes(h.base_of_code), u32_bytes(h.base_of_data));
        lemma_split(b, p, u16_bytes(h.magic) + seq![h.major_linker_version] + seq![h.minor_linker_version] + u32_bytes(h.size_of_code) + u32_bytes(h.size_of_initialized_data) + u32_bytes(h.size_of_uninitialized_data) + u32_bytes(h.address_of_entry_point), u32_bytes(h.base_of_code));
        lemma_split(b, p, u16_bytes(h.magic) + seq![h.major_linker_version] + seq![h.minor_linker_version] + u32_bytes(h.size_of_code) + u32_bytes(h.size_of_initialized_data) + u32_bytes(h.size_of_uninitialized_data), u32_bytes(h.address_of_entry_point));
        lemma_split(b, p, u16_bytes(h.magic) + seq![h.major_linker_version] + seq![h.minor_linker_version] + u32_bytes(h.size_of_code) + u32_bytes(h.size_of_initialized_data), u32_bytes(h.size_of_uninitialized_data));
        lemma_split(b, p, u16_bytes(h.magic) + seq![h.major_linker_version] + seq![h.minor_linker_version] + u32_bytes(h.size_of_code), u32_bytes(h.size_of_initialized_data));
        lemma_split(b, p, u16_bytes(h.magic) + seq![h.major_linker_version] + seq![h.minor_linker_version], u32_bytes(h.size_of_code));
        lemma_split(b, p, u16_bytes(h.magic) + seq![h.major_linker_version], seq![h.minor_linker_version]);
        lemma_split(b, p, u16_bytes(h.magic), seq![h.major_linker_version]);
        lemma_u16_round_trip(b, p + 0, h.magic);
        assert(b[p + 2] == b.subrange(p + 2, p + 3)[0]);
        assert(b[p + 3] == b.subrange(p + 3, p + 4)[0]);
        lemma_u32_round_trip(b, p + 4, h.size_of_code);
        lemma_u32_round_trip(b, p + 8, h.size_of_initialized_data);
        lemma_u32_round_trip(b, p + 12, h.size_of_uninitialized_data);
        lemma_u32_round_trip(b, p + 16, h.address_of_entry_point);
        lemma_u32_round_trip(b, p + 20, h.base_of_code);
        lemma_u32_round_trip(b, p + 24, h.base_of_data);
        lemma_u32_round_trip(b, p + 28, h.image_base);
        lemma_u32_round_trip(b, p + 32, h.section_alignment);
        lemma_u32_round_trip(b, p + 36, h.file_alignment);
        lemma_u16_round_trip(b, p + 40, h.major_operating_system_version);
        lemma_u16_round_trip(b, p + 42, h.minor_operating_system_version);
        lemma_u16_round_trip(b, p + 44, h.major_image_version);
        lemma_u16_round_trip(b, p + 46, h.minor_image_version);
        lemma_u16_round_trip(b, p + 48, h.major_subsystem_version);
        lemma_u16_round_trip(b, p + 50, h.minor_subsystem_version);
        lemma_u32_round_trip(b, p + 52, h.win32_version_value);
        lemma_u32_round_trip(b, p + 56, h.size_of_image);
        lemma_u32_round_trip(b, p + 60, h.size_of_headers);
        lemma_u32_round_trip(b, p + 64, h.check_sum);
        lemma_u16_round_trip(b, p + 68, h.subsystem);
        lemma_u16_round_trip(b, p + 70, h.dll_characteristics);
        lemma_u64_round_trip(b, p + 72, h.size_of_stack_reserve);
        lemma_u64_round_trip(b, p + 80, h.size_of_stack_commit);
        lemma_u64_round_trip(b, p + 88, h.size_of_heap_reserve);
        lemma_u64_round_trip(b, p + 96, h.size_of_heap_commit);
        lemma_u32_round_trip(b, p + 104, h.loader_flags);
        lemma_u32_round_trip(b, p + 108, h.number_of_rva_and_sizes);
    }

    pub proof fn lemma_bytes_len_64(self)
        ensures
            self.bytes_64().len() == 112,
    {
        reveal(OptionalHeader::<_>::bytes_64);
    }
}

/// One entry of the section table.
#[derive(Debug, Clone, Copy, PartialEq, Eq)]
pub struct SectionHeader {
    pub name: [u8; 8],
    pub virtual_size_physical_address: u32,
    pub virtual_address: u32,
    pub size_of_raw_data: u32,
    pub pointer_to_raw_data: u32,
    pub pointer_to_relocations: u32,
    pub pointer_to_linenumbers: u32,
    pub number_of_relocations: u16,
    pub number_of_linenumbers: u16,
    pub characteristics: u32,
}

impl SectionHeader {
    /// The record stored at `p` in `b`.
    #[verifier::opaque]
    pub open spec fn at(b: Seq<u8>, p: int) -> SectionHeader {
        SectionHeader {
            name: [b[p + 0], b[p + 1], b[p + 2], b[p + 3], b[p + 4], b[p + 5], b[p + 6], b[p + 7]],
            virtual_size_physical_address: u32_at(b, p + 8),
            virtual_address: u32_at(b, p + 12),
            size_of_raw_data: u32_at(b, p + 16),
            pointer_to_raw_data: u32_at(b, p + 20),
            pointer_to_relocations: u32_at(b, p + 24),
            pointer_to_linenumbers: u32_at(b, p + 28),
            number_of_relocations: u16_at(b, p + 32),
            number_of_linenumbers: u16_at(b, p + 34),
            characteristics: u32_at(b, p + 36),
        }
    }

    /// The bytes that store this record.
    #[verifier::opaque]
    pub open spec fn bytes(self) -> Seq<u8> {
        self.name@
            + u32_bytes(self.virtual_size_physical_address)
            + u32_bytes(self.virtual_address)
            + u32_bytes(self.size_of_raw_data)
            + u32_bytes(self.pointer_to_raw_data)
            + u32_bytes(self.pointer_to_relocations)
            + u32_bytes(self.pointer_to_linenumbers)
            + u16_bytes(self.number_of_relocations)
            + u16_bytes(self.number_of_linenumbers)
            + u32_bytes(self.characteristics)
    }

    /// Reads the record stored at `p` in `b`.
    pub fn read(b: &[u8], p: usize) -> (r: SectionHeader)
        requires
            p + 40 <= b@.len(),
        ensures
            r == SectionHeader::at(b@, p as int),
    {
        proof {
            reveal(SectionHeader::at);
            assert(b@.len() == b.len());
        }
        SectionHeader {
            name: [b[p + 0], b[p + 1], b[p + 2], b[p + 3], b[p + 4], b[p + 5], b[p + 6], b[p + 7]],
            virtual_size_physical_address: read_u32(b, p + 8),
            virtual_address: read_u32(b, p + 12),
            size_of_raw_data: read_u32(b, p + 16),
            pointer_to_raw_data: read_u32(b, p + 20),
            pointer_to_relocations: read_u32(b, p + 24),
            pointer_to_linenumbers: read_u32(b, p + 28),
            number_of_relocations: read_u16(b, p + 32),
            number_of_linenumbers: read_u16(b, p + 34),
            characteristics: read_u32(b, p + 36),
        }
    }

    /// Appends the bytes that store this record to `out`.
    pub fn write_to(&self, out: &mut Vec<u8>)
        ensures
            final(out)@ == old(out)@ + self.bytes(),
    {
        reveal(SectionHeader::bytes);
        let ghost start = out@;
        out.push(self.name[0]);
        out.push(self.name[1]);
        out.push(self.name[2]);
        out.push(self.name[3]);
        out.push(self.name[4]);
        out.push(self.name[5]);
        out.push(self.name[6]);
        out.push(self.name[7]);
        assert(out@ =~= start + (self.name@));
        push_u32(out, self.virtual_size_physical_address);
        assert(out@ =~= start + (self.name@ + u32_bytes(self.virtual_size_physical_address)));
        push_u32(out, self.virtual_address);
        assert(out@ =~= start + (self.name@ + u32_bytes(self.virtual_size_physical_address) + u32_bytes(self.virtual_address)));
        push_u32(out, self.size_of_raw_data);
        assert(out@ =~= start + (self.name@ + u32_bytes(self.virtual_size_physical_address) + u32_bytes(self.virtual_address) + u32_bytes(self.size_of_raw_data)));
        push_u32(out, self.pointer_to_raw_data);
        assert(out@ =~= start + (self.name@ + u32_bytes(self.virtual_size_physical_address) + u32_bytes(self.virtual_address) + u32_bytes(self.size_of_raw_data) + u32_bytes(self.pointer_to_raw_data)));
        push_u32(out, self.pointer_to_relocations);
        assert(out@ =~= start + (self.name@ + u32_bytes(self.virtual_size_physical_address) + u32_bytes(self.virtual_address) + u32_bytes(self.size_of_raw_data) + u32_bytes(self.pointer_to_raw_data) + u32_bytes(self.pointer_to_relocations)));
        push_u32(out, self.pointer_to_linenumbers);
        assert(out@ =~= start + (self.name@ + u32_bytes(self.virtual_size_physical_address) + u32_bytes(self.virtual_address) + u32_bytes(self.size_of_raw_data) + u32_bytes(self.pointer_to_raw_data) + u32_bytes(self.pointer_to_relocations) + u32_bytes(self.pointer_to_linenumbers)));
        push_u16(out, self.number_of_relocations);
        assert(out@ =~= start + (self.name@ + u32_bytes(self.virtual_size_physical_address) + u32_bytes(self.virtual_address) + u32_bytes(self.size_of_raw_data) + u32_bytes(self.pointer_to_raw_data) + u32_bytes(self.pointer_to_relocations) + u32_bytes(self.pointer_to_linenumbers) + u16_bytes(self.number_of_relocations)));
        push_u16(out, self.number_of_linenumbers);
        assert(out@ =~= start + (self.name@ + u32_bytes(self.virtual_size_physical_address) + u32_bytes(self.virtual_address) + u32_bytes(self.size_of_raw_data) + u32_bytes(self.pointer_to_raw_data) + u32_bytes(self.pointer_to_relocations) + u32_bytes(self.pointer_to_linenumbers) + u16_bytes(self.number_of_relocations) + u16_bytes(self.number_of_linenumbers)));
        push_u32(out, self.characteristics);
        assert(out@ =~= start + (self.name@ + u32_bytes(self.virtual_size_physical_address) + u32_bytes(self.virtual_address) + u32_bytes(self.size_of_raw_data) + u32_bytes(self.pointer_to_raw_data) + u32_bytes(self.pointer_to_relocations) + u32_bytes(self.pointer_to_linenumbers) + u16_bytes(self.number_of_relocations) + u16_bytes(self.number_of_linenumbers) + u32_bytes(self.characteristics)));
        assert(final(out)@ =~= old(out)@ + self.bytes());
    }

    #[verifier::rlimit(100)]
    /// Reading the bytes that store `h` gives `h` back.
    pub proof fn lemma_round_trip(b: Seq<u8>, p: int, h: SectionHeader)
        requires
            0 <= p,
            p + 40 <= b.len(),
            b.subrange(p, p + 40) == h.bytes(),
        ensures
            SectionHeader::at(b, p) == h,
    {
        reveal(SectionHeader::at);
        reveal(SectionHeader::bytes);
        lemma_split(b, p, h.name@ + u32_bytes(h.virtual_size_physical_address) + u32_bytes(h.virtual_address) + u32_bytes(h.size_of_raw_data) + u32_bytes(h.pointer_to_raw_data) + u32_bytes(h.pointer_to_relocations) + u32_bytes(h.pointer_to_linenumbers) + u16_bytes(h.number_of_relocations) + u16_bytes(h.number_of_linenumbers), u32_bytes(h.characteristics));
        lemma_split(b, p, h.name@ + u32_bytes(h.virtual_size_physical_address) + u32_bytes(h.virtual_address) + u32_bytes(h.size_of_raw_data) + u32_bytes(h.pointer_to_raw_data) + u32_bytes(h.pointer_to_relocations) + u32_bytes(h.pointer_to_linenumbers) + u16_bytes(h.number_of_relocations), u16_bytes(h.number_of_linenumbers));
        lemma_split(b, p, h.name@ + u32_bytes(h.virtual_size_physical_address) + u32_bytes(h.virtual_address) + u32_bytes(h.size_of_raw_data) + u32_bytes(h.pointer_to_raw_data) + u32_bytes(h.pointer_to_relocations) + u32_bytes(h.pointer_to_linenumbers), u16_bytes(h.number_of_relocations));
        lemma_split(b, p, h.name@ + u32_bytes(h.virtual_size_physical_address) + u32_bytes(h.virtual_address) + u32_bytes(h.size_of_raw_data) + u32_bytes(h.pointer_to_raw_data) + u32_bytes(h.pointer_to_relocations), u32_bytes(h.pointer_to_linenumbers));
        lemma_split(b, p, h.name@ + u32_bytes(h.virtual_size_physical_address) + u32_bytes(h.virtual_address) + u32_bytes(h.size_of_raw_data) + u32_bytes(h.pointer_to_raw_data), u32_bytes(h.pointer_to_relocations));
        lemma_split(b, p, h.name@ + u32_bytes(h.virtual_size_physical_address) + u32_bytes(h.virtual_address) + u32_bytes(h.size_of_raw_data), u32_bytes(h.pointer_to_raw_data));
        lemma_split(b, p, h.name@ + u32_bytes(h.virtual_size_physical_address) + u32_bytes(h.virtual_address), u32_bytes(h.size_of_raw_data));
        lemma_split(b, p, h.name@ + u32_bytes(h.virtual_size_physical_address), u32_bytes(h.virtual_address));
        lemma_split(b, p, h.name@, u32_bytes(h.virtual_size_physical_address));
        assert(b[p + 0] == b.subrange(p + 0, p + 8)[0]);
        assert(b[p + 1] == b.subrange(p + 0, p + 8)[1]);
        assert(b[p + 2] == b.subrange(p + 0, p + 8)[2]);
        assert(b[p + 3] == b.subrange(p + 0, p + 8)[3]);
        assert(b[p + 4] == b.subrange(p + 0, p + 8)[4]);
        assert(b[p + 5] == b.subrange(p + 0, p + 8)[5]);
        assert(b[p + 6] == b.subrange(p + 0, p + 8)[6]);
        assert(b[p + 7] == b.subrange(p + 0, p + 8)[7]);
        lemma_u32_round_trip(b, p + 8, h.virtual_size_physical_address);
        lemma_u32_round_trip(b, p + 12, h.virtual_address);
        lemma_u32_round_trip(b, p + 16, h.size_of_raw_data);
        lemma_u32_round_trip(b, p + 20, h.pointer_to_raw_data);
        lemma_u32_round_trip(b, p + 24, h.pointer_to_relocations);
        lemma_u32_round_trip(b, p + 28, h.pointer_to_linenumbers);
        lemma_u16_round_trip(b, p + 32, h.number_of_relocations);
        lemma_u16_round_trip(b, p + 34, h.number_of_linenumbers);
        lemma_u32_round_trip(b, p + 36, h.characteristics);
        let r = SectionHeader::at(b, p);
        assert(r.name =~= h.name);
    }

    pub proof fn lemma_bytes_len(self)
        ensures
            self.bytes().len() == 40,
    {
        reveal(SectionHeader::bytes);
    }
}

/// A COFF object-file relocation record.
#[derive(Debug, Clone, Copy, PartialEq, Eq)]
pub struct Relocation {
    pub virtual_address_reloc_count: u32,
    pub symbol_table_index: u32,
    pub kind: u16,
}

impl Relocation {
    /// The record stored at `p` in `b`.
    #[verifier::opaque]
    pub open spec fn at(b: Seq<u8>, p: int) -> Relocation {
        Relocation {
            virtual_address_reloc_count: u32_at(b, p + 0),
            symbol_table_index: u32_at(b, p + 4),
            kind: u16_at(b, p + 8),
        }
    }

    /// The bytes that store this record.
    #[verifier::opaque]
    pub open spec fn bytes(self) -> Seq<u8> {
        u32_bytes(self.virtual_address_reloc_count)
            + u32_bytes(self.symbol_table_index)
            + u16_bytes(self.kind)
    }

    /// Reads the record stored at `p` in `b`.
    pub fn read(b: &[u8], p: usize) -> (r: Relocation)
        requires
            p + 10 <= b@.len(),
        ensures
            r == Relocation::at(b@, p as int),
    {
        proof {
            reveal(Relocation::at);
            assert(b@.len() == b.len());
        }
        Relocation {
            virtual_address_reloc_count: read_u32(b, p + 0),
            symbol_table_index: read_u32(b, p + 4),
            kind: read_u16(b, p + 8),
        }
    }

    /// Appends the bytes that store this record to `out`.
    pub fn write_to(&self, out: &mut Vec<u8>)
        ensures
            final(out)@ == old(out)@ + self.bytes(),
    {
        reveal(Relocation::bytes);
        push_u32(out, self.virtual_address_reloc_count);
        push_u32(out, self.symbol_table_index);
        push_u16(out, self.kind);
        assert(final(out)@ =~= old(out)@ + self.bytes());
    }
}

/// The header of one block of base relocations.
#[derive(Debug, Clone, Copy, PartialEq, Eq)]
pub struct BaseRelocation {
    pub virtual_address: u32,
    pub size_of_block: u32,
}

impl BaseRelocation {
    /// The record stored at `p` in `b`.
    #[verifier::opaque]
    pub open spec fn at(b: Seq<u8>, p: int) -> BaseRelocation {
        BaseRelocation {
            virtual_address: u32_at(b, p + 0),
            size_of_block: u32_at(b, p + 4),
        }
    }

    /// The bytes that store this record.
    #[verifier::opaque]
    pub open spec fn bytes(self) -> Seq<u8> {
        u32_bytes(self.virtual_address)
            + u32_bytes(self.size_of_block)
    }

    /// Reads the record stored at `p` in `b`.
    pub fn read(b: &[u8], p: usize) -> (r: BaseRelocation)
        requires
            p + 8 <= b@.len(),
        ensures
            r == BaseRelocation::at(b@, p as int),
    {
        proof {
            reveal(BaseRelocation::at);
            assert(b@.len() == b.len());
        }
        BaseRelocation {
            virtual_address: read_u32(b, p + 0),
            size_of_block: read_u32(b, p + 4),
        }
    }

    /// Appends the bytes that store this record to `out`.
    pub fn write_to(&self, out: &mut Vec<u8>)
        ensures
            final(out)@ == old(out)@ + self.bytes(),
    {
        reveal(BaseRelocation::bytes);
        push_u32(out, self.virtual_address);
        push_u32(out, self.size_of_block);
        assert(final(out)@ =~= old(out)@ + self.bytes());
    }
}

/// One entry of the import directory, naming one imported module.
#[derive(Debug, Clone, Copy, PartialEq, Eq)]
pub struct ImportDescriptor {
    pub characteristics_original_first_thunk: u32,
    pub time_date_stamp: u32,
    pub forwarder_chain: u32,
    pub name: u32,
    pub first_thunk: u32,
}

impl ImportDescriptor {
    /// The record stored at `p` in `b`.
    #[verifier::opaque]
    pub open spec fn at(b: Seq<u8>, p: int) -> ImportDescriptor {
        ImportDescriptor {
            characteristics_original_first_thunk: u32_at(b, p + 0),
            time_date_stamp: u32_at(b, p + 4),
            forwarder_chain: u32_at(b, p + 8),
            name: u32_at(b, p + 12),
            first_thunk: u32_at(b, p + 16),
        }
    }

    /// The bytes that store this record.
    #[verifier::opaque]
    pub open spec fn bytes(self) -> Seq<u8> {
        u32_bytes(self.characteristics_original_first_thunk)
            + u32_bytes(self.time_date_stamp)
            + u32_bytes(self.forwarder_chain)
            + u32_bytes(self.name)
            + u32_bytes(self.first_thunk)
    }

    /// Reads the record stored at `p` in `b`.
    pub fn read(b: &[u8], p: usize) -> (r: ImportDescriptor)
        requires
            p + 20 <= b@.len(),
        ensures
            r == ImportDescriptor::at(b@, p as int),
    {
        proof {
            reveal(ImportDescriptor::at);
            assert(b@.len() == b.len());
        }
        ImportDescriptor {
            characteristics_original_first_thunk: read_u32(b, p + 0),
            time_date_stamp: read_u32(b, p + 4),
            forwarder_chain: read_u32(b, p + 8),
            name: read_u32(b, p + 12),
            first_thunk: read_u32(b, p + 16),
        }
    }

    /// Appends the bytes that store this record to `out`.
    pub fn write_to(&self, out: &mut Vec<u8>)
        ensures
            final(out)@ == old(out)@ + self.bytes(),
    {
        reveal(ImportDescriptor::bytes);
        let ghost start = out@;
        push_u32(out, self.characteristics_original_first_thunk);
        assert(out@ =~= start + (u32_bytes(self.characteristics_original_first_thunk)));
        push_u32(out, self.time_date_stamp);
        assert(out@ =~= start + (u32_bytes(self.characteristics_original_first_thunk) + u32_bytes(self.time_date_stamp)));
        push_u32(out, self.forwarder_chain);
        assert(out@ =~= start + (u32_bytes(self.characteristics_original_first_thunk) + u32_bytes(self.time_date_stamp) + u32_bytes(self.forwarder_chain)));
        push_u32(out, self.name);
        assert(out@ =~= start + (u32_bytes(self.characteristics_original_first_thunk) + u32_bytes(self.time_date_stamp) + u32_bytes(self.forwarder_chain) + u32_bytes(self.name)));
        push_u32(out, self.first_thunk);
        assert(out@ =~= start + (u32_bytes(self.characteristics_original_first_thunk) + u32_bytes(self.time_date_stamp) + u32_bytes(self.forwarder_chain) + u32_bytes(self.name) + u32_bytes(self.first_thunk)));
        assert(final(out)@ =~= old(out)@ + self.bytes());
    }
}

/// The NT headers: signature, file header and one of the two optional headers.
#[derive(Debug, Clone, Copy, PartialEq, Eq)]
pub struct NtHeaders<T> {
    pub signature: u32,
    pub file_header: FileHeader,
    pub optional_header: T,
}

pub type NtHeaders32 = NtHeaders<OptionalHeader32>;

pub type NtHeaders64 = NtHeaders<OptionalHeader64>;

impl NtHeaders<OptionalHeader32> {
    /// The record stored at `p` in `b`.
    #[verifier::opaque]
    pub open spec fn at_32(b: Seq<u8>, p: int) -> NtHeaders32 {
        NtHeaders {
            signature: u32_at(b, p),
            file_header: FileHeader::at(b, p + 4),
            optional_header: OptionalHeader::<u32>::at_32(b, p + 24),
        }
    }

    /// The bytes that store this record.
    #[verifier::opaque]
    pub open spec fn bytes_32(self) -> Seq<u8> {
        u32_bytes(self.signature) + self.file_header.bytes() + self.optional_header.bytes_32()
    }

    /// Reads the record stored at `p` in `b`.
    pub fn read(b: &[u8], p: usize) -> (r: NtHeaders32)
        requires
            p + 120 <= b@.len(),
        ensures
            r == NtHeaders32::at_32(b@, p as int),
    {
        proof {
            reveal(NtHeaders::<_>::at_32);
            assert(b@.len() == b.len());
        }
        NtHeaders {
            signature: read_u32(b, p),
            file_header: FileHeader::read(b, p + 4),
            optional_header: OptionalHeader::<u32>::read(b, p + 24),
        }
    }

    /// Appends the bytes that store this record to `out`.
    pub fn write_to(&self, out: &mut Vec<u8>)
        ensures
            final(out)@ == old(out)@ + self.bytes_32(),
    {
        reveal(NtHeaders::<_>::bytes_32);
        push_u32(out, self.signature);
        self.file_header.write_to(out);
        self.optional_header.write_to(out);
        assert(final(out)@ =~= old(out)@ + self.bytes_32());
    }

    pub proof fn lemma_bytes_len_32(self)
        ensures
            self.bytes_32().len() == 120,
    {
        reveal(NtHeaders::<_>::bytes_32);
        self.file_header.lemma_bytes_len();
        self.optional_header.lemma_bytes_len_32();
    }

    /// Reading the bytes that store `h` gives `h` back.
    pub proof fn lemma_round_trip_32(b: Seq<u8>, p: int, h: NtHeaders32)
        requires
            0 <= p,
            p + 120 <= b.len(),
            b.subrange(p, p + 120) == h.bytes_32(),
        ensures
            NtHeaders32::at_32(b, p) == h,
    {
        reveal(NtHeaders::<_>::at_32);
        reveal(NtHeaders::<_>::bytes_32);
        h.file_header.lemma_bytes_len();
        h.optional_header.lemma_bytes_len_32();
        lemma_split(
            b,
            p,
            u32_bytes(h.signature) + h.file_header.bytes(),
            h.optional_header.bytes_32(),
        );
        lemma_split(b, p, u32_bytes(h.signature), h.file_header.bytes());
        lemma_u32_round_trip(b, p, h.signature);
        FileHeader::lemma_round_trip(b, p + 4, h.file_header);
        OptionalHeader::<u32>::lemma_round_trip_32(b, p + 24, h.optional_header);
    }
}

impl NtHeaders<OptionalHeader64> {
    /// The record stored at `p` in `b`.
    #[verifier::opaque]
    pub open spec fn at_64(b: Seq<u8>, p: int) -> NtHeaders64 {
        NtHeaders {
            signature: u32_at(b, p),
            file_header: FileHeader::at(b, p + 4),
            optional_header: OptionalHeader::<u64>::at_64(b, p + 24),
        }
    }

    /// The bytes that store this record.
    #[verifier::opaque]
    pub open spec fn bytes_64(self) -> Seq<u8> {
        u32_bytes(self.signature) + self.file_header.bytes() + self.optional_header.bytes_64()
    }

    /// Reads the record stored at `p` in `b`.
    pub fn read(b: &[u8], p: usize) -> (r: NtHeaders64)
        requires
            p + 136 <= b@.len(),
        ensures
            r == NtHeaders64::at_64(b@, p as int),
    {
        proof {
            reveal(NtHeaders::<_>::at_64);
            assert(b@.len() == b.len());
        }
        NtHeaders {
            signature: read_u32(b, p),
            file_header: FileHeader::read(b, p + 4),
            optional_header: OptionalHeader::<u64>::read(b, p + 24),
        }
    }

    /// Appends the bytes that store this record to `out`.
    pub fn write_to(&self, out: &mut Vec<u8>)
        ensures
            final(out)@ == old(out)@ + self.bytes_64(),
    {
        reveal(NtHeaders::<_>::bytes_64);
        push_u32(out, self.signature);
        self.file_header.write_to(out);
        self.optional_header.write_to(out);
        assert(final(out)@ =~= old(out)@ + self.bytes_64());
    }

    pub proof fn lemma_bytes_len_64(self)
        ensures
            self.bytes_64().len() == 136,
    {
        reveal(NtHeaders::<_>::bytes_64);
        self.file_header.lemma_bytes_len();
        self.optional_header.lemma_bytes_len_64();
    }

    /// Reading the bytes that store `h` gives `h` back.
    pub proof fn lemma_round_trip_64(b: Seq<u8>, p: int, h: NtHeaders64)
        requires
            0 <= p,
            p + 136 <= b.len(),
            b.subrange(p, p + 136) == h.bytes_64(),
        ensures
            NtHeaders64::at_64(b, p) == h,
    {
        reveal(NtHeaders::<_>::at_64);
        reveal(NtHeaders::<_>::bytes_64);
        h.file_header.lemma_bytes_len();
        h.optional_header.lemma_bytes_len_64();
        lemma_split(
            b,
            p,
            u32_bytes(h.signature) + h.file_header.bytes(),
            h.optional_header.bytes_64(),
        );
        lemma_split(b, p, u32_bytes(h.signature), h.file_header.bytes());
        lemma_u32_round_trip(b, p, h.signature);
        FileHeader::lemma_round_trip(b, p + 4, h.file_header);
        OptionalHeader::<u64>::lemma_round_trip_64(b, p + 24, h.optional_header);
    }
}

/// One 16-bit entry of a base-relocation block: a 4-bit kind above a 12-bit
/// offset into the block's page.
#[derive(Debug, Clone, Copy, PartialEq, Eq)]
pub struct BaseRelocationEntry {
    pub kind_offset: u16,
}

impl BaseRelocationEntry {
    pub open spec fn spec_kind(self) -> u8 {
        (self.kind_offset / 4096) as u8
    }

    pub open spec fn spec_offset(self) -> u16 {
        (self.kind_offset % 4096) as u16
    }

    pub fn kind(&self) -> (r: u8)
        ensures
            r == self.spec_kind(),
    {
        (self.kind_offset / 4096) as u8
    }

    pub fn offset(&self) -> (r: u16)
        ensures
            r == self.spec_offset(),
    {
        self.kind_offset % 4096
    }
}

/// One entry of a thunk table: `ThunkData<u32>` in 32-bit images,
/// `ThunkData<u64>` in 64-bit ones. Its top bit tells an import by ordinal
/// from one by name.
#[derive(Debug, Clone, Copy, PartialEq, Eq)]
pub struct ThunkData<T> {
    pub data: T,
}

pub type ThunkData32 = ThunkData<u32>;

pub type ThunkData64 = ThunkData<u64>;

/// The ordinal flag of a 32-bit thunk.
pub const ORDINAL_FLAG32: u32 = 0x8000_0000;

/// The ordinal flag of a 64-bit thunk.
pub const ORDINAL_FLAG64: u64 = 0x8000_0000_0000_0000;

/// A 32-bit thunk value in the 64-bit representation: the ordinal flag moves
/// from bit 31 to bit 63, the other bits stay as they are.
pub open spec fn widen_thunk(v: u32) -> u64 {
    if v >= ORDINAL_FLAG32 {
        (v - ORDINAL_FLAG32 + ORDINAL_FLAG64) as u64
    } else {
        v as u64
    }
}

impl ThunkData<u32> {
    pub fn forwarder_string(&self) -> (r: u32)
        ensures
            r == self.data,
    {
        self.data
    }

    pub fn function(&self) -> (r: u32)
        ensures
            r == self.data,
    {
        self.data
    }

    pub fn ordinal(&self) -> (r: u32)
        ensures
            r == self.data,
    {
        self.data
    }

    pub fn address_of_data(&self) -> (r: u32)
        ensures
            r == self.data,
    {
        self.data
    }

    pub fn is_ordinal(&self) -> (r: bool)
        ensures
            r == (self.data >= ORDINAL_FLAG32),
    {
        self.data >= ORDINAL_FLAG32
    }

    pub fn ordinal16(&self) -> (r: u16)
        ensures
            r == self.data % 0x1_0000,
    {
        (self.data % 0x1_0000) as u16
    }
}

impl ThunkData<u64> {
    pub fn forwarder_string(&self) -> (r: u64)
        ensures
            r == self.data,
    {
        self.data
    }

    pub fn function(&self) -> (r: u64)
        ensures
            r == self.data,
    {
        self.data
    }

    pub fn ordinal(&self) -> (r: u64)
        ensures
            r == self.data,
    {
        self.data
    }

    pub fn address_of_data(&self) -> (r: u64)
        ensures
            r == self.data,
    {
        self.data
    }

    pub fn is_ordinal(&self) -> (r: bool)
        ensures
            r == (self.data >= ORDINAL_FLAG64),
    {
        self.data >= ORDINAL_FLAG64
    }

    pub fn ordinal16(&self) -> (r: u16)
        ensures
            r == self.data % 0x1_0000,
    {
        (self.data % 0x1_0000) as u16
    }
}

impl From<ThunkData<u32>> for ThunkData<u64> {
    fn from(t: ThunkData<u32>) -> (r: ThunkData<u64>)
        ensures
            r.data == widen_thunk(t.data),
    {
        if t.data >= ORDINAL_FLAG32 {
            ThunkData { data: (t.data - ORDINAL_FLAG32) as u64 + ORDINAL_FLAG64 }
        } else {
            ThunkData { data: t.data as u64 }
        }
    }
}

impl vstd::std_specs::convert::FromSpecImpl<ThunkData<u32>> for ThunkData<u64> {
    open spec fn obeys_from_spec() -> bool {
        true
    }

    open spec fn from_spec(t: ThunkData<u32>) -> ThunkData<u64> {
        ThunkData { data: widen_thunk(t.data) }
    }
}

/// The fixed part of a name record of the import table: a hint into the
/// exporting module's name table, followed in the image by the
/// NUL-terminated name.
#[derive(Debug, Clone, Copy, PartialEq, Eq)]
pub struct ImportByName {
    pub hint: u16,
}

impl ImportByName {
    pub fn hint(&self) -> (r: u16)
        ensures
            r == self.hint,
    {
        self.hint
    }
}

impl DosHeader {
    pub fn magic(&self) -> (r: u16)
        ensures
            r == self.magic,
    {
        self.magic
    }

    pub fn cblp(&self) -> (r: u16)
        ensures
            r == self.cblp,
    {
        self.cblp
    }

    pub fn cp(&self) -> (r: u16)
        ensures
            r == self.cp,
    {
        self.cp
    }

    pub fn crlc(&self) -> (r: u16)
        ensures
            r == self.crlc,
    {
        self.crlc
    }

    pub fn cparhdr(&self) -> (r: u16)
        ensures
            r == self.cparhdr,
    {
        self.cparhdr
    }

    pub fn minalloc(&self) -> (r: u16)
        ensures
            r == self.minalloc,
    {
        self.minalloc
    }

    pub fn maxalloc(&self) -> (r: u16)
        ensures
            r == self.maxalloc,
    {
        self.maxalloc
    }

    pub fn ss(&self) -> (r: u16)
        ensures
            r == self.ss,
    {
        self.ss
    }

    pub fn sp(&self) -> (r: u16)
        ensures
            r == self.sp,
    {
        self.sp
    }

    pub fn csum(&self) -> (r: u16)
        ensures
            r == self.csum,
    {
        self.csum
    }

    pub fn ip(&self) -> (r: u16)
        ensures
            r == self.ip,
    {
        self.ip
    }

    pub fn cs(&self) -> (r: u16)
        ensures
            r == self.cs,
    {
        self.cs
    }

    pub fn lfarlc(&self) -> (r: u16)
        ensures
            r == self.lfarlc,
    {
        self.lfarlc
    }

    pub fn ovno(&self) -> (r: u16)
        ensures
            r == self.ovno,
    {
        self.ovno
    }

    pub fn oemid(&self) -> (r: u16)
        ensures
            r == self.oemid,
    {
        self.oemid
    }

    pub fn oeminfo(&self) -> (r: u16)
        ensures
            r == self.oeminfo,
    {
        self.oeminfo
    }

    pub fn lfanew(&self) -> (r: u32)
        ensures
            r == self.lfanew,
    {
        self.lfanew
    }

}
impl FileHeader {
    pub fn machine(&self) -> (r: u16)
        ensures
            r == self.machine,
    {
        self.machine
    }

    pub fn number_of_sections(&self) -> (r: u16)
        ensures
            r == self.number_of_sections,
    {
        self.number_of_sections
    }

    pub fn time_date_stamp(&self) -> (r: u32)
        ensures
            r == self.time_date_stamp,
    {
        self.time_date_stamp
    }

    pub fn pointer_to_symbol_table(&self) -> (r: u32)
        ensures
            r == self.pointer_to_symbol_table,
    {
        self.pointer_to_symbol_table
    }

    pub fn number_of_symbols(&self) -> (r: u32)
        ensures
            r == self.number_of_symbols,
    {
        self.number_of_symbols
    }

    pub fn size_of_optional_header(&self) -> (r: u16)
        ensures
            r == self.size_of_optional_header,
    {
        self.size_of_optional_header
    }

    pub fn characteristics(&self) -> (r: u16)
        ensures
            r == self.characteristics,
    {
        self.characteristics
    }

}
impl DataDirectory {
    pub fn virtual_address(&self) -> (r: u32)
        ensures
            r == self.virtual_address,
    {
        self.virtual_address
    }

    pub fn size(&self) -> (r: u32)
        ensures
            r == self.size,
    {
        self.size
    }

}
impl<T: Copy> OptionalHeader<T> {
    pub fn magic(&self) -> (r: u16)
        ensures
            r == self.magic,
    {
        self.magic
    }

    pub fn major_linker_version(&self) -> (r: u8)
        ensures
            r == self.major_linker_version,
    {
        self.major_linker_version
    }

    pub fn minor_linker_version(&self) -> (r: u8)
        ensures
            r == self.minor_linker_version,
    {
        self.minor_linker_version
    }

    pub fn size_of_code(&self) -> (r: u32)
        ensures
            r == self.size_of_code,
    {
        self.size_of_code
    }

    pub fn size_of_initialized_data(&self) -> (r: u32)
        ensures
            r == self.size_of_initialized_data,
    {
        self.size_of_initialized_data
    }

    pub fn size_of_uninitialized_data(&self) -> (r: u32)
        ensures
            r == self.size_of_uninitialized_data,
    {
        self.size_of_uninitialized_data
    }

    pub fn address_of_entry_point(&self) -> (r: u32)
        ensures
            r == self.address_of_entry_point,
    {
        self.address_of_entry_point
    }

    pub fn base_of_code(&self) -> (r: u32)
        ensures
            r == self.base_of_code,
    {
        self.base_of_code
    }

    pub fn section_alignment(&self) -> (r: u32)
        ensures
            r == self.section_alignment,
    {
        self.section_alignment
    }

    pub fn file_alignment(&self) -> (r: u32)
        ensures
            r == self.file_alignment,
    {
        self.file_alignment
    }

    pub fn major_operating_system_version(&self) -> (r: u16)
        ensures
            r == self.major_operating_system_version,
    {
        self.major_operating_system_version
    }

    pub fn minor_operating_system_version(&self) -> (r: u16)
        ensures
            r == self.minor_operating_system_version,
    {
        self.minor_operating_system_version
    }

    pub fn major_image_version(&self) -> (r: u16)
        ensures
            r == self.major_image_version,
    {
        self.major_image_version
    }

    pub fn minor_image_version(&self) -> (r: u16)
        ensures
            r == self.minor_image_version,
    {
        self.minor_image_version
    }

    pub fn major_subsystem_version(&self) -> (r: u16)
        ensures
            r == self.major_subsystem_version,
    {
        self.major_subsystem_version
    }

    pub fn minor_subsystem_version(&self) -> (r: u16)
        ensures
            r == self.minor_subsystem_version,
    {
        self.minor_subsystem_version
    }

    pub fn win32_version_value(&self) -> (r: u32)
        ensures
            r == self.win32_version_value,
    {
        self.win32_version_value
    }

    pub fn size_of_image(&self) -> (r: u32)
        ensures
            r == self.size_of_image,
    {
        self.size_of_image
    }

    pub fn size_of_headers(&self) -> (r: u32)
        ensures
            r == self.size_of_headers,
    {
        self.size_of_headers
    }

    pub fn check_sum(&self) -> (r: u32)
        ensures
            r == self.check_sum,
    {
        self.check_sum
    }

    pub fn subsystem(&self) -> (r: u16)
        ensures
            r == self.subsystem,
    {
        self.subsystem
    }

    pub fn dll_characteristics(&self) -> (r: u16)
        ensures
            r == self.dll_characteristics,
    {
        self.dll_characteristics
    }

    pub fn size_of_stack_reserve(&self) -> (r: T)
        ensures
            r == self.size_of_stack_reserve,
    {
        self.size_of_stack_reserve
    }

    pub fn size_of_stack_commit(&self) -> (r: T)
        ensures
            r == self.size_of_stack_commit,
    {
        self.size_of_stack_commit
    }

    pub fn size_of_heap_reserve(&self) -> (r: T)
        ensures
            r == self.size_of_heap_reserve,
    {
        self.size_of_heap_reserve
    }

    pub fn size_of_heap_commit(&self) -> (r: T)
        ensures
            r == self.size_of_heap_commit,
    {
        self.size_of_heap_commit
    }

    pub fn loader_flags(&self) -> (r: u32)
        ensures
            r == self.loader_flags,
    {
        self.loader_flags
    }

    pub fn number_of_rva_and_sizes(&self) -> (r: u32)
        ensures
            r == self.number_of_rva_and_sizes,
    {
        self.number_of_rva_and_sizes
    }

}
impl SectionHeader {
    pub fn virtual_size(&self) -> (r: u32)
        ensures
            r == self.virtual_size_physical_address,
    {
        self.virtual_size_physical_address
    }

    pub fn physical_address(&self) -> (r: u32)
        ensures
            r == self.virtual_size_physical_address,
    {
        self.virtual_size_physical_address
    }

    pub fn virtual_address(&self) -> (r: u32)
        ensures
            r == self.virtual_address,
    {
        self.virtual_address
    }

    pub fn size_of_raw_data(&self) -> (r: u32)
        ensures
            r == self.size_of_raw_data,
    {
        self.size_of_raw_data
    }

    pub fn pointer_to_raw_data(&self) -> (r: u32)
        ensures
            r == self.pointer_to_raw_data,
    {
        self.pointer_to_raw_data
    }

    pub fn pointer_to_relocations(&self) -> (r: u32)
        ensures
            r == self.pointer_to_relocations,
    {
        self.pointer_to_relocations
    }

    pub fn pointer_to_linenumbers(&self) -> (r: u32)
        ensures
            r == self.pointer_to_linenumbers,
    {
        self.pointer_to_linenumbers
    }

    pub fn number_of_relocations(&self) -> (r: u16)
        ensures
            r == self.number_of_relocations,
    {
        self.number_of_relocations
    }

    pub fn number_of_linenumbers(&self) -> (r: u16)
        ensures
            r == self.number_of_linenumbers,
    {
        self.number_of_linenumbers
    }

    pub fn characteristics(&self) -> (r: u32)
        ensures
            r == self.characteristics,
    {
        self.characteristics
    }

}
impl Relocation {
    pub fn virtual_address(&self) -> (r: u32)
        ensures
            r == self.virtual_address_reloc_count,
    {
        self.virtual_address_reloc_count
    }

    pub fn reloc_count(&self) -> (r: u32)
        ensures
            r == self.virtual_address_reloc_count,
    {
        self.virtual_address_reloc_count
    }

    pub fn symbol_table_index(&self) -> (r: u32)
        ensures
            r == self.symbol_table_index,
    {
        self.symbol_table_index
    }

    pub fn kind(&self) -> (r: u16)
        ensures
            r == self.kind,
    {
        self.kind
    }

}
impl BaseRelocation {
    pub fn virtual_address(&self) -> (r: u32)
        ensures
            r == self.virtual_address,
    {
        self.virtual_address
    }

    pub fn size_of_block(&self) -> (r: u32)
        ensures
            r == self.size_of_block,
    {
        self.size_of_block
    }

}
impl ImportDescriptor {
    pub fn characteristics(&self) -> (r: u32)
        ensures
            r == self.characteristics_original_first_thunk,
    {
        self.characteristics_original_first_thunk
    }

    pub fn original_first_thunk(&self) -> (r: u32)
        ensures
            r == self.characteristics_original_first_thunk,
    {
        self.characteristics_original_first_thunk
    }

    pub fn time_date_stamp(&self) -> (r: u32)
        ensures
            r == self.time_date_stamp,
    {
        self.time_date_stamp
    }

    pub fn forwarder_chain(&self) -> (r: u32)
        ensures
            r == self.forwarder_chain,
    {
        self.forwarder_chain
    }

    pub fn name(&self) -> (r: u32)
        ensures
            r == self.name,
    {
        self.name
    }

    pub fn first_thunk(&self) -> (r: u32)
        ensures
            r == self.first_thunk,
    {
        self.first_thunk
    }

}

impl<T> NtHeaders<T> {
    pub fn signature(&self) -> (r: u32)
        ensures
            r == self.signature,
    {
        self.signature
    }

    pub fn file_header(&self) -> (r: &FileHeader)
        ensures
            *r == self.file_header,
    {
        &self.file_header
    }

    pub fn optional_header(&self) -> (r: &T)
        ensures
            *r == self.optional_header,
    {
        &self.optional_header
    }
}

impl DosHeader {
    pub fn res(&self, index: usize) -> (r: Option<u16>)
        ensures
            r == (if index < 4 {
                Some(self.res@[index as int])
            } else {
                None
            }),
    {
        if index < 4 {
            Some(self.res[index])
        } else {
            None
        }
    }

    pub fn res2(&self, index: usize) -> (r: Option<u16>)
        ensures
            r == (if index < 10 {
                Some(self.res2@[index as int])
            } else {
                None
            }),
    {
        if index < 10 {
            Some(self.res2[index])
        } else {
            None
        }
    }
}

impl DataDirectory {
    /// Whether the directory is absent: a size of zero.
    pub fn is_empty(&self) -> (r: bool)
        ensures
            r == (self.size == 0),
    {
        self.size == 0
    }
}

impl OptionalHeader<u32> {
    pub fn base_of_data(&self) -> (r: u32)
        ensures
            r == self.base_of_data,
    {
        self.base_of_data
    }

    pub fn image_base(&self) -> (r: u32)
        ensures
            r == self.image_base,
    {
        self.image_base
    }
}

impl OptionalHeader<u64> {
    /// The 64-bit image base: its low half is stored in the `base_of_data`
    /// slot, its high half in the `image_base` slot.
    pub fn image_base(&self) -> (r: u64)
        ensures
            r == self.base_of_data + 0x1_0000_0000 * self.image_base,
    {
        self.base_of_data as u64 + self.image_base as u64 * 0x1_0000_0000
    }
}

/// The name bytes of a section: those before the first NUL, all eight if
/// there is none.
pub open spec fn section_name(name: Seq<u8>) -> Seq<u8> {
    if exists|i: int| 0 <= i < name.len() && name[i] == 0 {
        name.take(choose|i: int| 0 <= i < name.len() && name[i] == 0 && forall|j: int| 0 <= j < i ==> name[j] != 0)
    } else {
        name
    }
}

impl SectionHeader {
    /// The section's name, if its bytes before the first NUL are UTF-8.
    pub fn name(&self) -> (r: Option<&str>)
        ensures
            r is Some <==> valid_utf8(section_name(self.name@)),
            r matches Some(s) ==> s.spec_bytes() == section_name(self.name@),
    {
        let mut len: usize = 0;
        while len < 8 && self.name[len] != 0
            invariant
                len <= 8,
                forall|j: int| 0 <= j < len ==> self.name@[j] != 0,
            decreases 8 - len,
        {
            len = len + 1;
        }
        proof {
            let name = self.name@;
            if len < 8 {
                assert(0 <= len < name.len() && name[len as int] == 0 && forall|j: int|
                    0 <= j < len ==> name[j] != 0);
                let n = choose|i: int|
                    0 <= i < name.len() && name[i] == 0 && forall|j: int| 0 <= j < i ==> name[j] != 0;
                if n > len {
                    assert(name[len as int] != 0);
                }
                if n < len {
                    assert(name[n] != 0);
                }
            } else {
                assert(name.take(8) =~= name);
            }
        }
        let bytes = slice_subrange(self.name.as_slice(), 0, len);
        utf8_str(bytes)
    }
}

/// Relies on `core::str::from_utf8`: `Ok` exactly when the bytes are valid
/// UTF-8, and then a string of those very bytes.
#[verifier::external_body]
fn utf8_str(b: &[u8]) -> (r: Option<&str>)
    ensures
        r is Some <==> valid_utf8(b@),
        r matches Some(s) ==> s.spec_bytes() == b@,
{
    core::str::from_utf8(b).ok()
}

} // verus!
