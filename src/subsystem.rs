//! A subsystem: the directory `subsystems/<nqn>` of the configuration tree,
//! with its namespaces under `namespaces/`.
use vstd::prelude::*;

use crate::attr::{
    bool_write, read_bool, read_boolean, read_line, read_uint, read_unsigned, text_write,
    uint_write, AttrWrite,
};
use crate::error::{IoError, ReadError};
use crate::namespace::Namespace;
use crate::path::{join, join_path, subsystems_dir, subsystems_root};
use crate::text::{decimal, decimal_text, encode_bool, line_of, strip_newlines};

verus! {

/// The directory of the subsystem named `nqn`.
pub open spec fn subsystem_path(nqn: Seq<char>) -> Seq<char> {
    join_path(subsystems_dir(), nqn)
}

/// The directory that holds the namespaces of the subsystem named `nqn`.
pub open spec fn namespaces_path(nqn: Seq<char>) -> Seq<char> {
    join_path(subsystem_path(nqn), "namespaces"@)
}

/// The directory of the namespace `nsid` of the subsystem named `nqn`.
pub open spec fn namespace_path(nqn: Seq<char>, nsid: nat) -> Seq<char> {
    join_path(namespaces_path(nqn), decimal(nsid))
}

/// A handle on a subsystem, identified by its NQN. It holds the name and
/// nothing else: every attribute is read from or written to the kernel anew.
#[derive(Clone, Debug)]
pub struct Subsystem {
    nqn: String,
}

impl View for Subsystem {
    type V = Seq<char>;

    /// The subsystem's NQN.
    closed spec fn view(&self) -> Seq<char> {
        self.nqn@
    }
}

impl Subsystem {
    /// The handle on the subsystem named `nqn`, whether or not it exists.
    pub fn open(nqn: String) -> (r: Subsystem)
        ensures
            r@ == nqn@,
    {
        Subsystem { nqn }
    }

    /// The subsystem's NQN.
    pub fn nqn(&self) -> (r: &str)
        ensures
            r@ == self@,
    {
        self.nqn.as_str()
    }

    /// The path of the subsystem's directory.
    pub fn path(&self) -> (r: String)
        ensures
            r@ == subsystem_path(self@),
    {
        let root = subsystems_root();
        join(root.as_str(), self.nqn.as_str())
    }

    /// The path of the attribute file `name` of this subsystem.
    pub fn attribute(&self, name: &str) -> (r: String)
        ensures
            r@ == join_path(subsystem_path(self@), name@),
    {
        let dir = self.path();
        join(dir.as_str(), name)
    }

    /// The directory that holds the subsystem's namespaces.
    pub fn namespaces_dir(&self) -> (r: String)
        ensures
            r@ == namespaces_path(self@),
    {
        self.attribute("namespaces")
    }

    /// The handle on the namespace `nsid` of this subsystem: the directory that
    /// creating that namespace makes.
    pub fn namespace(&self, nsid: u32) -> (r: Namespace)
        ensures
            r@ == namespace_path(self@, nsid as nat),
    {
        let dir = self.namespaces_dir();
        let name = decimal_text(nsid as u64);
        Namespace::at(join(dir.as_str(), name.as_str()))
    }

    /// The handles on the namespaces named by the entries of the subsystem's
    /// `namespaces` directory, one per entry and in the order given.
    pub fn namespaces(&self, entries: &Vec<String>) -> (r: Vec<Namespace>)
        ensures
            r.len() == entries.len(),
            forall|i: int| 0 <= i < r.len() ==> #[trigger] r[i]@ == join_path(namespaces_path(self@), entries[i]@),
    {
        let dir = self.namespaces_dir();
        let mut r: Vec<Namespace> = Vec::new();
        let mut i: usize = 0;
        while i < entries.len()
            invariant
                i <= entries.len(),
                dir@ == namespaces_path(self@),
                r.len() == i,
                forall|j: int| 0 <= j < i ==> #[trigger] r[j]@ == join_path(namespaces_path(self@), entries[j]@),
            decreases entries.len() - i,
        {
            r.push(Namespace::at(join(dir.as_str(), entries[i].as_str())));
            i = i + 1;
        }
        r
    }

    /// The handles on the subsystems named by the entries of the `subsystems`
    /// directory, one per entry and in the order given. No attribute is read.
    pub fn list_all(entries: &Vec<String>) -> (r: Vec<Subsystem>)
        ensures
            r.len() == entries.len(),
            forall|i: int| 0 <= i < r.len() ==> #[trigger] r[i]@ == entries[i]@,
    {
        let mut r: Vec<Subsystem> = Vec::new();
        let mut i: usize = 0;
        while i < entries.len()
            invariant
                i <= entries.len(),
                r.len() == i,
                forall|j: int| 0 <= j < i ==> #[trigger] r[j]@ == entries[j]@,
            decreases entries.len() - i,
        {
            r.push(Subsystem::open(entries[i].clone()));
            i = i + 1;
        }
        r
    }

    /// The write that lets any host connect to the subsystem, or only the allowed ones.
    pub fn set_attr_allow_any_host(&self, value: bool) -> (r: AttrWrite)
        ensures
            r.path@ == join_path(subsystem_path(self@), "attr_allow_any_host"@),
            r.text@ == encode_bool(value),
    {
        let dir = self.path();
        bool_write(dir.as_str(), "attr_allow_any_host", value)
    }

    /// Whether any host may connect, from the outcome of reading the
    /// `attr_allow_any_host` file.
    pub fn attr_allow_any_host(&self, read: Result<String, IoError>) -> (r: Result<bool, ReadError>)
        ensures
            r == read_bool(read),
    {
        read_boolean(read)
    }

    /// The write that sets the largest controller id.
    pub fn set_attr_cntlid_max(&self, value: u16) -> (r: AttrWrite)
        ensures
            r.path@ == join_path(subsystem_path(self@), "attr_cntlid_max"@),
            r.text@ == line_of(decimal(value as nat)),
    {
        let dir = self.path();
        uint_write(dir.as_str(), "attr_cntlid_max", value as u64)
    }

    /// The largest controller id, from the outcome of reading the `attr_cntlid_max` file.
    pub fn attr_cntlid_max(&self, read: Result<String, IoError>) -> (r: Result<u16, ReadError>)
        ensures
            r matches Ok(v) ==> read_uint(read, u16::MAX as nat) == Ok::<nat, ReadError>(v as nat),
            r matches Err(e) ==> read_uint(read, u16::MAX as nat) == Err::<nat, ReadError>(e),
    {
        match read_unsigned(read, u16::MAX as u64) {
            Ok(v) => Ok(v as u16),
            Err(e) => Err(e),
        }
    }

    /// The write that sets the smallest controller id.
    pub fn set_attr_cntlid_min(&self, value: u16) -> (r: AttrWrite)
        ensures
            r.path@ == join_path(subsystem_path(self@), "attr_cntlid_min"@),
            r.text@ == line_of(decimal(value as nat)),
    {
        let dir = self.path();
        uint_write(dir.as_str(), "attr_cntlid_min", value as u64)
    }

    /// The smallest controller id, from the outcome of reading the `attr_cntlid_min` file.
    pub fn attr_cntlid_min(&self, read: Result<String, IoError>) -> (r: Result<u16, ReadError>)
        ensures
            r matches Ok(v) ==> read_uint(read, u16::MAX as nat) == Ok::<nat, ReadError>(v as nat),
            r matches Err(e) ==> read_uint(read, u16::MAX as nat) == Err::<nat, ReadError>(e),
    {
        match read_unsigned(read, u16::MAX as u64) {
            Ok(v) => Ok(v as u16),
            Err(e) => Err(e),
        }
    }

    /// The write that sets the model the subsystem reports.
    pub fn set_attr_model(&self, value: &str) -> (r: AttrWrite)
        ensures
            r.path@ == join_path(subsystem_path(self@), "attr_model"@),
            r.text@ == line_of(value@),
    {
        let dir = self.path();
        text_write(dir.as_str(), "attr_model", value)
    }

    /// The model the subsystem reports, from the outcome of reading the `attr_model` file.
    pub fn attr_model(&self, read: Result<String, IoError>) -> (r: Result<String, IoError>)
        ensures
            read matches Err(e) ==> r == Err::<String, IoError>(e),
            read matches Ok(t) ==> r matches Ok(v) && v@ == strip_newlines(t@),
    {
        read_line(read)
    }

    /// The write that sets the serial number the subsystem reports.
    pub fn set_attr_serial(&self, value: &str) -> (r: AttrWrite)
        ensures
            r.path@ == join_path(subsystem_path(self@), "attr_serial"@),
            r.text@ == line_of(value@),
    {
        let dir = self.path();
        text_write(dir.as_str(), "attr_serial", value)
    }

    /// The serial number the subsystem reports, from the outcome of reading the
    /// `attr_serial` file.
    pub fn attr_serial(&self, read: Result<String, IoError>) -> (r: Result<String, IoError>)
        ensures
            read matches Err(e) ==> r == Err::<String, IoError>(e),
            read matches Ok(t) ==> r matches Ok(v) && v@ == strip_newlines(t@),
    {
        read_line(read)
    }
}

} // verus!
