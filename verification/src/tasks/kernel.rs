//! Checks that inspect the kernel's own state.

pub mod rukinia_kconf;
pub mod rukinia_kmod;
