//! Verified core of a small x86 hobby kernel: fixed-capacity queues, a
//! lock, keyboard scancode decoding, and the bit layouts of the descriptor
//! tables, page tables and UART registers that the kernel programs.
pub mod datastructures;
pub mod sync;
pub mod kernel;
pub mod bootstrap;
