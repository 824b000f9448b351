//! Audio channel types, frames and buffers with verified integer arithmetic.
use vstd::prelude::*;

pub mod audio;
pub mod chan;
pub mod frame;
pub mod pos;
mod private;
pub mod ratio;
pub mod sink;
pub mod speex;
pub mod stream;


verus! {

} // verus!
