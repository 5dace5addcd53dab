//! Computes the expected AMD SEV-SNP launch measurement of a virtual machine
//! booted from a Stage0 firmware image.

pub mod bytes;
pub mod cli;
pub mod error;
pub mod measure;
pub mod page;
pub mod stage0;
pub mod vmsa;
