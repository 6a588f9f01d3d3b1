//! Core of a live-memory trainer for one specific game process.
//!
//! The library contains everything that decides or computes: the typed
//! cross-process memory access primitive, the process directory and handle
//! lifecycle, and the pointer-chasing decoder/encoder that locates the live
//! resource record of the target process and reads or overrides its fields.
//!
//! Every operating-system call is reached through the [`port::OsPort`]
//! capability trait. The library ships a simulated port ([`sim::SimOs`]) whose
//! behaviour is verified against the trait's contract; a real port that calls
//! the platform's process APIs lives outside the library, since those calls
//! cross an unsafe foreign boundary.

pub mod errors;
pub mod port;
pub mod memory;
pub mod process;
pub mod game;
pub mod sim;
pub mod app;
