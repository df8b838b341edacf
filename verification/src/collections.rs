pub mod ring_buffer;
pub mod blocking_atomic_ring_buffer;
