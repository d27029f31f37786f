//! A verified core for driving a barcode-recognition engine through its native handles.
//!
//! The engine is reached through calls that answer with integer status codes. This crate
//! holds what is decided around those calls: the fourcc pixel formats, the buffer-size
//! rule for images, the ordered configuration calls that build a processor or an image
//! scanner and the stop at the first refusal, the meaning of each status code, and the
//! decoded symbols read out of a scan.

use vstd::prelude::*;

pub mod error;
pub mod format;
pub mod image;
pub mod processor;
pub mod scanner;
pub mod status;
pub mod symbol;
pub mod symbol_set;

verus! {

} // verus!
