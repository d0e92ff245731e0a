//! User-space half of a zero-copy packet socket: the frame arena shared with
//! the kernel, the four descriptor rings that move frames across that
//! boundary, and the sequence that configures a socket before it is used.
//!
//! The shared memory is held here as plain values: a ring owns its two index
//! cells and its descriptor slots, the arena owns its bytes. Whoever maps the
//! real memory copies the kernel's side in before a call and the process's
//! side out after it.

pub mod slots;
pub mod error;
pub mod ring_model;
pub mod ring_laws;
pub mod if_xdp;
pub mod kernel;
pub mod configure;
pub mod configure_laws;
pub mod xdp_sock;
pub mod libbpf;
