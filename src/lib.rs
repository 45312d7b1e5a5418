//! A single-core thread scheduler modelled as a verified state machine over
//! thread identifiers: a FIFO ready queue, a sleep list, a join map and the
//! current-thread slot. Beside it, the virtio structures that a GPU driver
//! reads from a device.

pub mod capabilities;
pub mod gpu;
pub mod join_map;
pub mod laws;
pub mod scheduler;
pub mod thread_id;
