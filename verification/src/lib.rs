//! Verified core of a PNG to JPEG 2000 conversion tool: the text that the
//! codestream dump writes, the command-line decisions, the encoder parameter
//! sets and the pixel layout handed to the encoder.
#![allow(non_snake_case)]

pub mod text;
pub mod cli;
pub mod dump;
pub mod encode;
pub mod params;
pub mod pixels;
