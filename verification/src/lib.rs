//! A cross-ledger asset bridge: the transactional state machine that locks or
//! burns tokens on deposit and releases or mints them, exactly once per
//! withdrawal identifier, on behalf of a single administrator.

pub mod bridge;
pub mod env;
pub mod laws;
pub mod model;
pub mod storage;
pub mod types;

pub use bridge::{check_admin, get_paused, Bridge};
pub use env::{Env, EnvView};
pub use storage::{Storage, StorageView};
pub use types::{bytes_eq, DataKey, Error, Event, Identifier, Pause, TokenCall};
