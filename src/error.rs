use vstd::prelude::*;

verus! {

/// The conditions of a failed filesystem or kernel call that callers branch on.
#[derive(Clone, Copy, Debug, PartialEq, Eq, Structural)]
pub enum IoErrorKind {
    /// The file, directory or link does not exist.
    NotFound,
    /// The directory or link already exists.
    AlreadyExists,
    /// The caller may not perform the call.
    PermissionDenied,
    /// The directory still holds entries.
    DirectoryNotEmpty,
    /// Any other failure, such as a value that the kernel driver rejected.
    Other,
}

/// A failed filesystem or kernel call, as the operating system reported it.
#[derive(Clone, Copy, Debug, PartialEq, Eq, Structural)]
pub struct IoError {
    pub kind: IoErrorKind,
    /// The operating system's error number, where it gave one.
    pub os_code: Option<i32>,
}

/// Why attribute text could not be decoded.
#[derive(Clone, Copy, Debug, PartialEq, Eq, Structural)]
pub enum ParseError {
    /// The text holds nothing but white space.
    Empty,
    /// The text holds a character that is not a decimal digit where one is needed.
    InvalidDigit,
    /// The number is larger than the attribute's type can hold.
    PosOverflow,
    /// The text is neither `0` nor `1`.
    InvalidBool,
}

/// The failure of reading a typed attribute.
#[derive(Clone, Copy, Debug, PartialEq, Eq, Structural)]
pub enum ReadError {
    /// Reading the attribute's file failed.
    Io(IoError),
    /// The file's text does not denote a value of the attribute's type.
    Parse(ParseError),
}

} // verus!
