//! Typed access to the configuration tree of the Linux NVMe target (`nvmet`)
//! under configfs: where each subsystem, namespace, port and host lives, and
//! how each attribute is written to and read from its one-line text file.
//!
//! The functions here compute; they perform no I/O. A getter decodes the
//! outcome of reading an attribute's file, a setter gives the exact write that
//! sets it, and the handles give the directories that the lifecycle calls
//! create, probe and remove.

mod attr;
mod error;
mod host;
mod namespace;
mod path;
mod port;
mod subsystem;
mod text;

pub use attr::{bool_attr_round_trip, read_bool, read_uint, uint_attr_round_trip, AttrWrite};
pub use error::{IoError, IoErrorKind, ParseError, ReadError};
pub use host::{host_path, Host};
pub use namespace::Namespace;
pub use path::{
    hosts_dir, hosts_root, join_path, ports_dir, ports_root, subsystems_dir, subsystems_root,
    CONFIGFS_DIR,
};
pub use port::{link_path, link_present, port_path, port_subsystems_path, Port, Symlink};
pub use subsystem::{namespace_path, namespaces_path, subsystem_path, Subsystem};
pub use text::{
    boolean_round_trip, decimal, decode_bool, decode_device_path, decode_uint,
    device_path_round_trip, encode_bool, line_of, line_round_trip, null_path,
    strip_final_newline, strip_newlines, text_round_trip, trim, unsigned_round_trip,
};
