//! Where each object of the configuration tree lives.
use vstd::prelude::*;
use vstd::string::StringExecFns;

verus! {

/// The directory where the kernel mounts the NVMe target's configuration.
pub const CONFIGFS_DIR: &'static str = "/sys/kernel/config/nvmet";

/// The path of the entry `name` inside the directory `dir`.
pub open spec fn join_path(dir: Seq<char>, name: Seq<char>) -> Seq<char> {
    dir + seq!['/'] + name
}

/// The directory that holds one directory per subsystem.
pub open spec fn subsystems_dir() -> Seq<char> {
    join_path(CONFIGFS_DIR@, "subsystems"@)
}

/// The directory that holds one directory per port.
pub open spec fn ports_dir() -> Seq<char> {
    join_path(CONFIGFS_DIR@, "ports"@)
}

/// The directory that holds one directory per host.
pub open spec fn hosts_dir() -> Seq<char> {
    join_path(CONFIGFS_DIR@, "hosts"@)
}

/// The path of the entry `name` inside the directory `dir`.
pub fn join(dir: &str, name: &str) -> (r: String)
    ensures
        r@ == join_path(dir@, name@),
{
    let mut r = String::from_str(dir);
    r.append("/");
    r.append(name);
    proof {
        reveal_strlit("/");
        assert(r@ =~= join_path(dir@, name@));
    }
    r
}

/// The directory that holds one directory per subsystem.
pub fn subsystems_root() -> (r: String)
    ensures
        r@ == subsystems_dir(),
{
    join(CONFIGFS_DIR, "subsystems")
}

/// The directory that holds one directory per port.
pub fn ports_root() -> (r: String)
    ensures
        r@ == ports_dir(),
{
    join(CONFIGFS_DIR, "ports")
}

/// The directory that holds one directory per host.
pub fn hosts_root() -> (r: String)
    ensures
        r@ == hosts_dir(),
{
    join(CONFIGFS_DIR, "hosts")
}

} // verus!
