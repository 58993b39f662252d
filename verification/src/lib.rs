//! A bridge between numeric SNMP object identifiers and the symbolic names
//! that a management information base (MIB) defines for them.
//!
//! The crate holds the resolver-independent half of that bridge: the codec
//! between an object identifier and the fixed-capacity array the native
//! resolver takes, the codec between resolver text and nul-terminated byte
//! buffers, the configuration value that describes one initialization, and
//! the decisions that initialization makes before any native call.  The
//! native resolver itself, the loader that opens it, and the process-wide
//! state that keeps it alive live outside this crate.

mod config;
mod error;
mod name;
mod oid;
mod resolve;

pub use config::Config;
pub use error::Error;
pub use error::ErrorKind;
pub use name::decode_name;
pub use name::encode_name;
pub use name::first_nul;
pub use name::lemma_name_round_trip;
pub use name::lemma_utf8_nul;
pub use name::lossy_of;
pub use name::name_prefix;
pub use name::MAX_NAME_LEN;
pub use oid::decode_oid;
pub use oid::encode_oid;
pub use oid::lemma_oid_round_trip;
pub use oid::oid_encoding;
pub use oid::oid_from_node_result;
pub use oid::Oid;
pub use oid::MAX_OID_LEN;
pub use resolve::init_app_name;
pub use resolve::init_dynamic_lib_path;
pub use resolve::init_env_values;
pub use resolve::join_colon;
pub use resolve::join_paths;
