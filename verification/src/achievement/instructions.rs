//! The achievement program's instructions.

pub mod init_collection;
pub mod set_base_uri;
