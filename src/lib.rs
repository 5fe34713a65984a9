//! Session management for interactive terminals: shell descriptors, launch
//! plans, a registry of live sessions keyed by identifier, and the output
//! pump that forwards a backend's bytes to a subscriber without splitting
//! characters.

pub mod pty_conn;
pub mod pump;
pub mod shell_list;
pub mod ssh_conn;
pub mod state;
pub mod text;
