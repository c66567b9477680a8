//! Verified decision logic of the Tifflin kernel's thread and GUI system calls.
//!
//! The kernel services these calls act on (the object table, the scheduler,
//! the window manager) stay with the caller: each function here decides what
//! a call does and what it answers, and takes the services' answers as values.
use vstd::prelude::*;

pub mod values;
pub mod gui;
pub mod threads;

verus! {

/// A process's handle to one of its kernel objects.
pub type ObjectHandle = u32;

} // verus!
