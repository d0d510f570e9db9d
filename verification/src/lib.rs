//! Early bring-up logic for a 32-bit ARM virtual machine: the boot translation
//! table, the generic timer's tick arithmetic and one-shot policy, and the
//! order in which the platform's collaborators are initialised.
//!
//! Everything here works on plain values. Register access, the reset entry
//! point and the calls into device drivers belong to the program that links
//! this library.

pub mod boot;
pub mod generic_timer;
pub mod init;
