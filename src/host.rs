//! A host: the directory `hosts/<nqn>` of the configuration tree. A host has
//! no attributes; it exists or it does not.
use vstd::prelude::*;

use crate::path::{hosts_dir, hosts_root, join, join_path};

verus! {

/// The directory of the host named `nqn`.
pub open spec fn host_path(nqn: Seq<char>) -> Seq<char> {
    join_path(hosts_dir(), nqn)
}

/// A handle on a host, identified by its NQN.
#[derive(Clone, Debug)]
pub struct Host {
    nqn: String,
}

impl View for Host {
    type V = Seq<char>;

    /// The host's NQN.
    closed spec fn view(&self) -> Seq<char> {
        self.nqn@
    }
}

impl Host {
    /// The handle on the host named `nqn`, whether or not it exists.
    pub fn open(nqn: String) -> (r: Host)
        ensures
            r@ == nqn@,
    {
        Host { nqn }
    }

    /// The path of the host's directory.
    pub fn path(&self) -> (r: String)
        ensures
            r@ == host_path(self@),
    {
        let root = hosts_root();
        join(root.as_str(), self.nqn.as_str())
    }

    /// The host's NQN.
    pub fn nqn(&self) -> (r: &str)
        ensures
            r@ == self@,
    {
        self.nqn.as_str()
    }
}

} // verus!
