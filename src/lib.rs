//! Inspection and comparison of AMD platform firmware images (SPI flash dumps).
//!
//! - `flash`: the Embedded Firmware Structure (EFS), the anchor of an image.
//! - `rom`: locating the EFS and reaching the directories it points at.
//! - `directory`, `psp`, `bios`: directory headers and entries, address
//!   resolution, and payload extraction.
//! - `walk`: every directory reachable from the EFS, depth-first.
//! - `diff`: pairing the entries of two images and comparing their payloads.
//! - `laws`: properties proved of every image.
//!
//! Every read is bounds-checked against the image; a malformed image yields a
//! `ParseError` in place, never a panic.
use vstd::prelude::*;

pub mod bios;
pub mod bytes;
pub mod diff;
pub mod directory;
pub mod error;
pub mod flash;
pub mod laws;
pub mod psp;
pub mod rom;
pub mod walk;
