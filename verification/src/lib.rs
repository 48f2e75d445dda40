//! An early-boot memory arena that hands out bytes from the bottom and pages
//! from the top, together with the small pieces of guest-loading and
//! hypervisor-exit logic that surround it.

pub mod align;
pub mod layout;
pub mod bump;
pub mod bump_laws;
pub mod elf_image;
pub mod loader;
pub mod guest;
