//! Reading-progress synchronisation: the rules by which a sync server
//! validates request fields, authenticates callers and answers the
//! account, pull and push operations, stated over an abstract store.

pub mod api;
pub mod clock;
pub mod defs;
pub mod fields;
pub mod headers;
pub mod laws;
pub mod memstore;
pub mod store;
pub mod table;
pub mod text;

pub use api::{
    accept_credential, auth, auth_user, auth_verdict, authenticate, check_account, create_user,
    created, credential, get_progress, healthcheck, pulled, pushed, robots, update_progress,
    update_progress_at, vacancy,
};
pub use clock::{now_timestamp, timestamp};
pub use defs::{Authed, CreateUser, Error, Fault, ProgressState, Reply};
pub use fields::{is_valid_field, is_valid_key_field, FIELD_LEN_LIMIT};
pub use headers::{get_remote_addr, header_str, remote_addr};
pub use memstore::MemStore;
pub use store::Store;
pub use text::same_text;
