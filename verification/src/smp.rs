pub mod channel;
pub mod ipc;
pub mod rwlock;
