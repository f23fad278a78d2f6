//! A namespace of a subsystem: the directory `namespaces/<nsid>` of its subsystem.
use vstd::prelude::*;

use crate::attr::{
    bool_write, read_bool, read_boolean, read_device_path, read_trimmed, read_uint,
    read_unsigned, text_write, uint_write, AttrWrite,
};
use crate::error::{IoError, ReadError};
use crate::path::join_path;
use crate::text::{decimal, decode_device_path, encode_bool, line_of, trim};

verus! {

/// A handle on a namespace directory. It holds the directory's path and
/// nothing else: every attribute is read from or written to the kernel anew.
#[derive(Clone, Debug)]
pub struct Namespace {
    path: String,
}

impl View for Namespace {
    type V = Seq<char>;

    /// The path of the namespace directory.
    closed spec fn view(&self) -> Seq<char> {
        self.path@
    }
}

impl Namespace {
    /// The handle on the namespace directory at `path`.
    pub(crate) fn at(path: String) -> (r: Namespace)
        ensures
            r@ == path@,
    {
        Namespace { path }
    }

    /// The path of the namespace directory.
    pub fn path(&self) -> (r: &str)
        ensures
            r@ == self@,
    {
        self.path.as_str()
    }

    /// The path of the attribute file `name` of this namespace.
    pub fn attribute(&self, name: &str) -> (r: String)
        ensures
            r@ == join_path(self@, name@),
    {
        crate::path::join(self.path.as_str(), name)
    }

    /// The write that enables or disables the namespace.
    pub fn set_enable(&self, value: bool) -> (r: AttrWrite)
        ensures
            r.path@ == join_path(self@, "enable"@),
            r.text@ == encode_bool(value),
    {
        bool_write(self.path.as_str(), "enable", value)
    }

    /// Whether the namespace is enabled, from the outcome of reading its `enable` file.
    pub fn enable(&self, read: Result<String, IoError>) -> (r: Result<bool, ReadError>)
        ensures
            r == read_bool(read),
    {
        read_boolean(read)
    }

    /// The write that sets the namespace's ANA group id.
    pub fn set_ana_grpid(&self, value: u32) -> (r: AttrWrite)
        ensures
            r.path@ == join_path(self@, "ana_grpid"@),
            r.text@ == line_of(decimal(value as nat)),
    {
        uint_write(self.path.as_str(), "ana_grpid", value as u64)
    }

    /// The namespace's ANA group id, from the outcome of reading its `ana_grpid` file.
    pub fn ana_grpid(&self, read: Result<String, IoError>) -> (r: Result<u32, ReadError>)
        ensures
            r matches Ok(v) ==> read_uint(read, u32::MAX as nat) == Ok::<nat, ReadError>(v as nat),
            r matches Err(e) ==> read_uint(read, u32::MAX as nat) == Err::<nat, ReadError>(e),
    {
        match read_unsigned(read, u32::MAX as u64) {
            Ok(v) => Ok(v as u32),
            Err(e) => Err(e),
        }
    }

    /// The write that sets the namespace's NGUID.
    pub fn set_device_nguid(&self, value: &str) -> (r: AttrWrite)
        ensures
            r.path@ == join_path(self@, "device_nguid"@),
            r.text@ == line_of(value@),
    {
        text_write(self.path.as_str(), "device_nguid", value)
    }

    /// The namespace's NGUID, from the outcome of reading its `device_nguid` file.
    pub fn device_nguid(&self, read: Result<String, IoError>) -> (r: Result<String, ReadError>)
        ensures
            read matches Err(e) ==> r == Err::<String, ReadError>(ReadError::Io(e)),
            read matches Ok(t) ==> r matches Ok(v) && v@ == trim(t@),
    {
        read_trimmed(read)
    }

    /// The write that sets the namespace's UUID.
    pub fn set_device_uuid(&self, value: &str) -> (r: AttrWrite)
        ensures
            r.path@ == join_path(self@, "device_uuid"@),
            r.text@ == line_of(value@),
    {
        text_write(self.path.as_str(), "device_uuid", value)
    }

    /// The namespace's UUID, from the outcome of reading its `device_uuid` file.
    pub fn device_uuid(&self, read: Result<String, IoError>) -> (r: Result<String, ReadError>)
        ensures
            read matches Err(e) ==> r == Err::<String, ReadError>(ReadError::Io(e)),
            read matches Ok(t) ==> r matches Ok(v) && v@ == trim(t@),
    {
        read_trimmed(read)
    }

    /// The write that sets the path of the block device or file behind the namespace.
    pub fn set_device_path(&self, value: &str) -> (r: AttrWrite)
        ensures
            r.path@ == join_path(self@, "device_path"@),
            r.text@ == line_of(value@),
    {
        text_write(self.path.as_str(), "device_path", value)
    }

    /// The path of the device behind the namespace, from the outcome of reading
    /// its `device_path` file: `None` while the file holds `(null)`.
    pub fn device_path(&self, read: Result<String, IoError>) -> (r: Result<Option<String>, IoError>)
        ensures
            read matches Err(e) ==> r == Err::<Option<String>, IoError>(e),
            read matches Ok(t) ==> r matches Ok(v) && (v is None <==> decode_device_path(t@) is None)
                && (v matches Some(p) ==> decode_device_path(t@) == Some(p@)),
    {
        read_device_path(read)
    }
}

} // verus!
