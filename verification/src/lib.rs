//! Building blocks for cooperative ("green") threads: page-granular planning
//! of guarded stacks, detection of the register set a context switch has to
//! preserve, and selection of the switch routine that matches it.
//!
//! The library decides and the caller performs. The system calls that work on
//! raw addresses, and the transfer of control itself, are carried out by the
//! embedding program, which hands the raw outcome back to the functions here
//! as plain values. What safe libraries offer, the identification of the
//! processor and a plain mapping for a stack, the library calls itself.

pub mod aarch64;
pub mod allocator;
pub mod arm;
pub mod dispatch;
pub mod platform;
pub mod x86;
pub mod x86_64;
