//! Decision logic of a desktop shell: resolving OAuth callbacks delivered as
//! deep links, and supervising the single local API server process.

pub mod deeplink;
pub mod opencode;
pub mod query;
pub mod redirect;
pub mod secure_storage;
pub mod sidecar;
pub mod text;
