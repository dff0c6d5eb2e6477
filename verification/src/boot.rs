//! What the kernel asks of the loader that starts it.

use vstd::prelude::*;

verus! {

/// The size in bytes of the stack that the loader sets up before it hands
/// control to the kernel: 100 KiB. The loader's own default is too small
/// for the deep call chains of formatting and panic handling.
pub const KERNEL_STACK_SIZE: u64 = 100 * 1024;

} // verus!
