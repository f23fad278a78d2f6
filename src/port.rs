//! A port: the directory `ports/<id>` of the configuration tree. A subsystem
//! is exported through a port by a symbolic link, named after the subsystem's
//! NQN, in the port's `subsystems` directory.
use vstd::prelude::*;

use crate::attr::{read_trimmed, text_write, AttrWrite};
use crate::error::{IoError, IoErrorKind, ReadError};
use crate::path::{join, join_path, ports_dir, ports_root};
use crate::subsystem::{subsystem_path, Subsystem};
use crate::text::{decimal, decimal_text, line_of, trim};

verus! {

/// The directory of the port `id`.
pub open spec fn port_path(id: nat) -> Seq<char> {
    join_path(ports_dir(), decimal(id))
}

/// The directory of the port `id` that holds its links to subsystems.
pub open spec fn port_subsystems_path(id: nat) -> Seq<char> {
    join_path(port_path(id), "subsystems"@)
}

/// The link that exports the subsystem named `nqn` through the port `id`.
pub open spec fn link_path(id: nat, nqn: Seq<char>) -> Seq<char> {
    join_path(port_subsystems_path(id), nqn)
}

/// What probing for a subsystem's link gives: a link that is not found is
/// absent, any other failure is passed on.
pub open spec fn link_present(probe: Result<(), IoError>) -> Result<bool, IoError> {
    match probe {
        Ok(()) => Ok(true),
        Err(e) => if e.kind == IoErrorKind::NotFound {
            Ok(false)
        } else {
            Err(e)
        },
    }
}

/// The symbolic link at `link` that points at `target`.
pub struct Symlink {
    pub target: String,
    pub link: String,
}

/// A handle on a port, identified by its number.
#[derive(Clone, Copy, Debug)]
pub struct Port {
    id: u32,
}

impl View for Port {
    type V = nat;

    /// The port's number.
    closed spec fn view(&self) -> nat {
        self.id as nat
    }
}

impl Port {
    /// The handle on the port `id`, whether or not it exists.
    pub fn open(id: u32) -> (r: Port)
        ensures
            r@ == id as nat,
    {
        Port { id }
    }

    /// The port's number.
    pub fn id(&self) -> (r: u32)
        ensures
            r as nat == self@,
    {
        self.id
    }

    /// The path of the port's directory.
    pub fn path(&self) -> (r: String)
        ensures
            r@ == port_path(self@),
    {
        let root = ports_root();
        let name = decimal_text(self.id as u64);
        join(root.as_str(), name.as_str())
    }

    /// The path of the attribute file `name` of this port.
    pub fn attribute(&self, name: &str) -> (r: String)
        ensures
            r@ == join_path(port_path(self@), name@),
    {
        let dir = self.path();
        join(dir.as_str(), name)
    }

    /// The directory that holds the port's links to subsystems.
    pub fn subsystems_dir(&self) -> (r: String)
        ensures
            r@ == port_subsystems_path(self@),
    {
        self.attribute("subsystems")
    }

    /// The path of the link that exports the subsystem named `nqn` through this port.
    pub fn subsystem_link(&self, nqn: &str) -> (r: String)
        ensures
            r@ == link_path(self@, nqn@),
    {
        let dir = self.subsystems_dir();
        join(dir.as_str(), nqn)
    }

    /// The handles on the subsystems named by the entries of the port's
    /// `subsystems` directory, one per entry and in the order given. The
    /// links are not followed: the name is the identity.
    pub fn subsystems(&self, entries: &Vec<String>) -> (r: Vec<Subsystem>)
        ensures
            r.len() == entries.len(),
            forall|i: int| 0 <= i < r.len() ==> #[trigger] r[i]@ == entries[i]@,
    {
        Subsystem::list_all(entries)
    }

    /// Whether the subsystem is exported through this port, from the outcome
    /// of reading its link: a link that is not found means `false`.
    pub fn has_subsystem(&self, probe: Result<(), IoError>) -> (r: Result<bool, IoError>)
        ensures
            r == link_present(probe),
    {
        match probe {
            Ok(()) => Ok(true),
            Err(e) => {
                if e.kind == IoErrorKind::NotFound {
                    Ok(false)
                } else {
                    Err(e)
                }
            },
        }
    }

    /// The link that exports `subsys` through this port: named after its NQN
    /// and pointing at its directory.
    pub fn add_subsystem(&self, subsys: &Subsystem) -> (r: Symlink)
        ensures
            r.target@ == subsystem_path(subsys@),
            r.link@ == link_path(self@, subsys@),
    {
        Symlink { target: subsys.path(), link: self.subsystem_link(subsys.nqn()) }
    }

    /// The link to remove so that the subsystem named `nqn` is no longer
    /// exported through this port.
    pub fn remove_subsystem(&self, nqn: &str) -> (r: String)
        ensures
            r@ == link_path(self@, nqn@),
    {
        self.subsystem_link(nqn)
    }

    /// The write that sets the port's address family.
    pub fn set_addr_adrfam(&self, value: &str) -> (r: AttrWrite)
        ensures
            r.path@ == join_path(port_path(self@), "addr_adrfam"@),
            r.text@ == line_of(value@),
    {
        let dir = self.path();
        text_write(dir.as_str(), "addr_adrfam", value)
    }

    /// The port's address family, from the outcome of reading the `addr_adrfam` file.
    pub fn addr_adrfam(&self, read: Result<String, IoError>) -> (r: Result<String, ReadError>)
        ensures
            read matches Err(e) ==> r == Err::<String, ReadError>(ReadError::Io(e)),
            read matches Ok(t) ==> r matches Ok(v) && v@ == trim(t@),
    {
        read_trimmed(read)
    }

    /// The write that sets the port's transport address.
    pub fn set_addr_traddr(&self, value: &str) -> (r: AttrWrite)
        ensures
            r.path@ == join_path(port_path(self@), "addr_traddr"@),
            r.text@ == line_of(value@),
    {
        let dir = self.path();
        text_write(dir.as_str(), "addr_traddr", value)
    }

    /// The port's transport address, from the outcome of reading the `addr_traddr` file.
    pub fn addr_traddr(&self, read: Result<String, IoError>) -> (r: Result<String, ReadError>)
        ensures
            read matches Err(e) ==> r == Err::<String, ReadError>(ReadError::Io(e)),
            read matches Ok(t) ==> r matches Ok(v) && v@ == trim(t@),
    {
        read_trimmed(read)
    }

    /// The write that sets the port's transport service id.
    pub fn set_addr_trsvcid(&self, value: &str) -> (r: AttrWrite)
        ensures
            r.path@ == join_path(port_path(self@), "addr_trsvcid"@),
            r.text@ == line_of(value@),
    {
        let dir = self.path();
        text_write(dir.as_str(), "addr_trsvcid", value)
    }

    /// The port's transport service id, from the outcome of reading the `addr_trsvcid` file.
    pub fn addr_trsvcid(&self, read: Result<String, IoError>) -> (r: Result<String, ReadError>)
        ensures
            read matches Err(e) ==> r == Err::<String, ReadError>(ReadError::Io(e)),
            read matches Ok(t) ==> r matches Ok(v) && v@ == trim(t@),
    {
        read_trimmed(read)
    }

    /// The write that sets the port's transport type.
    pub fn set_addr_trtype(&self, value: &str) -> (r: AttrWrite)
        ensures
            r.path@ == join_path(port_path(self@), "addr_trtype"@),
            r.text@ == line_of(value@),
    {
        let dir = self.path();
        text_write(dir.as_str(), "addr_trtype", value)
    }

    /// The port's transport type, from the outcome of reading the `addr_trtype` file.
    pub fn addr_trtype(&self, read: Result<String, IoError>) -> (r: Result<String, ReadError>)
        ensures
            read matches Err(e) ==> r == Err::<String, ReadError>(ReadError::Io(e)),
            read matches Ok(t) ==> r matches Ok(v) && v@ == trim(t@),
    {
        read_trimmed(read)
    }
}

} // verus!
