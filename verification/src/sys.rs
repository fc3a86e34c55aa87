//! Types of the operating system and graphics hardware interfaces.

pub mod ge;
pub mod gu;
pub mod ctrl;
pub mod codec;
pub mod fpu;
pub mod heap;
pub mod mem;
