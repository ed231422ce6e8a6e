//! The single error of the library: a malformed image, with the reason.
use vstd::prelude::*;

verus! {

/// Why an image, or a structure inside it, was rejected.
#[derive(Debug, Clone, Copy, PartialEq, Eq, Structural)]
pub enum Reason {
    /// The input ended inside a fixed-size record.
    UnexpectedEof,
    /// The DOS header does not start with "MZ".
    BadDosMagic,
    /// The NT headers would start inside the DOS header.
    BadPeOffset,
    /// The input ends before the NT headers start.
    PeOffsetPastEof,
    /// The NT headers do not start with "PE\0\0".
    BadNtMagic,
    /// The optional header is neither the 32-bit nor the 64-bit one.
    BadOptionalMagic,
    /// The declared optional-header size is below what the header and its
    /// data directories take.
    BadSizeOfOptionalHeader,
    /// The input ends inside the declared optional-header size.
    TrailingDataDirectoryEof,
    /// A section's end overflows 32 bits.
    BadSectionVirtualSize,
    /// A section, or the headers, reach past the declared image size.
    InvalidSizeOfImage,
    /// The declared size of the headers is below what they take.
    BadSizeOfHeaders,
    /// The input ends inside the declared size of the headers.
    TrailingHeaderEof,
    /// A base-relocation entry has a reserved or unknown kind.
    BadRelocationKind,
    /// A base-relocation block is smaller than its own header.
    BadRelocationBlockSize,
    /// A base relocation's address overflows 32 bits.
    BadRelocationAddress,
    /// No section holds the address.
    RvaNotFound,
    /// The range runs past the end of the section that holds its start.
    SegmentBeyondSectionEnd,
    /// The range overflows, or lies outside the buffer.
    BadSegmentRva,
    /// No NUL byte before the end of the section.
    CStringNotNullTerminated,
    /// The image has no base-relocation directory.
    RelocationSegmentNotFound,
    /// The image has no import directory.
    ImportSegmentNotFound,
    /// A section's offset lies before the end of what precedes it in the output.
    BadSectionOffset,
}

/// A malformed image.
#[derive(Debug, Clone, Copy, PartialEq, Eq, Structural)]
pub struct Error {
    pub reason: Reason,
}

} // verus!
