//! Verified core of an SMP extension of the Tock kernel: a bounded ring
//! buffer and its lock-guarded form, spin locks modelled as ownership
//! protocols, inter-thread messages, and the IPC command logic.

pub mod collections;
pub mod process;
pub mod smp;
pub mod chips;
pub mod ipc;
