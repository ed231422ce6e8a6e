//! Headers read from the start of a file into owned values.
use vstd::prelude::*;
use crate::error::Error;
use crate::image::{DataDirectory, DosHeader, SectionHeader};
use crate::nt::{NtHeaders, NtKind};
use crate::parse::{read_headers, read_headers_spec, Headers};
use crate::traits::PeHeaders;

verus! {

/// The headers of an image file, validated and copied out of its bytes.
pub struct File {
    dos: DosHeader,
    dos_stub: Vec<u8>,
    nt: NtHeaders,
    data_directories: Vec<DataDirectory>,
    sections: Vec<SectionHeader>,
}

impl File {
    /// Reads and validates the headers at the start of `data`.
    pub fn new(data: &[u8]) -> (r: Result<File, Error>)
        ensures
            match r {
                Ok(f) => read_headers_spec(data@) == Ok::<Headers, crate::error::Reason>(
                    f.headers(),
                ),
                Err(e) => read_headers_spec(data@) == Err::<Headers, crate::error::Reason>(
                    e.reason,
                ),
            },
    {
        let (dos, dos_stub, nt, data_directories, sections) = read_headers(data)?;
        Ok(File { dos, dos_stub, nt, data_directories, sections })
    }
}

impl PeHeaders for File {
    closed spec fn headers(&self) -> Headers {
        Headers {
            dos: self.dos,
            stub: self.dos_stub@,
            nt: self.nt,
            dirs: self.data_directories@,
            sections: self.sections@,
        }
    }

    fn kind(&self) -> (r: NtKind) {
        self.nt.kind()
    }

    fn dos_header(&self) -> (r: DosHeader) {
        self.dos
    }

    fn dos_stub(&self) -> (r: &[u8]) {
        self.dos_stub.as_slice()
    }

    fn nt_headers(&self) -> (r: NtHeaders) {
        self.nt
    }

    fn directory_headers(&self) -> (r: Vec<DataDirectory>) {
        self.data_directories.clone()
    }

    fn section_headers(&self) -> (r: Vec<SectionHeader>) {
        self.sections.clone()
    }
}

} // verus!
