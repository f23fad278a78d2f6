//! Typed reads and writes of single attribute files.
use vstd::prelude::*;

use crate::error::{IoError, ReadError};
use crate::path::{join, join_path};
use crate::text::{
    boolean_round_trip, decimal, decode_bool, decode_boolean, decode_device_path, decode_path,
    decode_uint, decode_unsigned, encode_bool, encode_boolean, encode_text, encode_uint, line_of,
    strip_newlines, strip_trailing_newlines, trim, trim_text, unsigned_round_trip,
};

verus! {

/// One write of an attribute: the whole of `text` goes into the file at `path`.
pub struct AttrWrite {
    pub path: String,
    pub text: String,
}

/// What a boolean attribute reads as, given the outcome of reading its file.
pub open spec fn read_bool(read: Result<String, IoError>) -> Result<bool, ReadError> {
    match read {
        Err(e) => Err(ReadError::Io(e)),
        Ok(t) => match decode_bool(t@) {
            Ok(b) => Ok(b),
            Err(p) => Err(ReadError::Parse(p)),
        },
    }
}

/// What an unsigned integer attribute no larger than `max` reads as, given the
/// outcome of reading its file.
pub open spec fn read_uint(read: Result<String, IoError>, max: nat) -> Result<nat, ReadError> {
    match read {
        Err(e) => Err(ReadError::Io(e)),
        Ok(t) => match decode_uint(t@, max) {
            Ok(n) => Ok(n),
            Err(p) => Err(ReadError::Parse(p)),
        },
    }
}

/// The write that stores the boolean `value` in the attribute `name` of the directory `dir`.
pub fn bool_write(dir: &str, name: &str, value: bool) -> (r: AttrWrite)
    ensures
        r.path@ == join_path(dir@, name@),
        r.text@ == encode_bool(value),
{
    AttrWrite { path: join(dir, name), text: encode_boolean(value) }
}

/// The write that stores the unsigned integer `value` in the attribute `name` of the directory `dir`.
pub fn uint_write(dir: &str, name: &str, value: u64) -> (r: AttrWrite)
    ensures
        r.path@ == join_path(dir@, name@),
        r.text@ == line_of(decimal(value as nat)),
{
    AttrWrite { path: join(dir, name), text: encode_uint(value) }
}

/// The write that stores the string `value` in the attribute `name` of the directory `dir`.
pub fn text_write(dir: &str, name: &str, value: &str) -> (r: AttrWrite)
    ensures
        r.path@ == join_path(dir@, name@),
        r.text@ == line_of(value@),
{
    AttrWrite { path: join(dir, name), text: encode_text(value) }
}

/// Decodes a boolean attribute from the outcome of reading its file.
pub fn read_boolean(read: Result<String, IoError>) -> (r: Result<bool, ReadError>)
    ensures
        r == read_bool(read),
{
    match read {
        Err(e) => Err(ReadError::Io(e)),
        Ok(t) => match decode_boolean(t.as_str()) {
            Ok(b) => Ok(b),
            Err(p) => Err(ReadError::Parse(p)),
        },
    }
}

/// Decodes an unsigned integer attribute no larger than `max` from the outcome
/// of reading its file.
pub fn read_unsigned(read: Result<String, IoError>, max: u64) -> (r: Result<u64, ReadError>)
    requires
        max <= u32::MAX,
    ensures
        r matches Ok(v) ==> read_uint(read, max as nat) == Ok::<nat, ReadError>(v as nat),
        r matches Err(e) ==> read_uint(read, max as nat) == Err::<nat, ReadError>(e),
        r matches Ok(v) ==> v <= max,
{
    match read {
        Err(e) => Err(ReadError::Io(e)),
        Ok(t) => match decode_unsigned(t.as_str(), max) {
            Ok(n) => {
                proof {
                    crate::text::lemma_parsed_bound(trim(t@), max as nat);
                }
                Ok(n)
            },
            Err(p) => Err(ReadError::Parse(p)),
        },
    }
}

/// Decodes a string attribute from the outcome of reading its file: the text
/// without its surrounding white space.
pub fn read_trimmed(read: Result<String, IoError>) -> (r: Result<String, ReadError>)
    ensures
        read matches Err(e) ==> r == Err::<String, ReadError>(ReadError::Io(e)),
        read matches Ok(t) ==> r matches Ok(v) && v@ == trim(t@),
{
    match read {
        Err(e) => Err(ReadError::Io(e)),
        Ok(t) => Ok(trim_text(t.as_str())),
    }
}

/// Decodes a string attribute from the outcome of reading its file: the text
/// without the newlines at its end.
pub fn read_line(read: Result<String, IoError>) -> (r: Result<String, IoError>)
    ensures
        read matches Err(e) ==> r == Err::<String, IoError>(e),
        read matches Ok(t) ==> r matches Ok(v) && v@ == strip_newlines(t@),
{
    match read {
        Err(e) => Err(e),
        Ok(t) => Ok(strip_trailing_newlines(t.as_str())),
    }
}

/// Decodes the device path attribute from the outcome of reading its file.
pub fn read_device_path(read: Result<String, IoError>) -> (r: Result<Option<String>, IoError>)
    ensures
        read matches Err(e) ==> r == Err::<Option<String>, IoError>(e),
        read matches Ok(t) ==> r matches Ok(v) && (v is None <==> decode_device_path(t@) is None)
            && (v matches Some(p) ==> decode_device_path(t@) == Some(p@)),
{
    match read {
        Err(e) => Err(e),
        Ok(t) => Ok(decode_path(&t)),
    }
}

/// A boolean attribute set to `b` reads back as `b`: the text that the write
/// stores decodes to `b`.
pub proof fn bool_attr_round_trip(b: bool, written: String)
    requires
        written@ == encode_bool(b),
    ensures
        read_bool(Ok::<String, IoError>(written)) == Ok::<bool, ReadError>(b),
{
    boolean_round_trip(b);
}

/// An unsigned integer attribute of bound `max` set to `n` reads back as `n`.
pub proof fn uint_attr_round_trip(n: nat, max: nat, written: String)
    requires
        n <= max,
        written@ == line_of(decimal(n)),
    ensures
        read_uint(Ok::<String, IoError>(written), max) == Ok::<nat, ReadError>(n),
{
    unsigned_round_trip(n, max);
}

} // verus!
