//! Values that several atoms share: timestamps, transform matrices and
//! fixed-point numbers.
use vstd::prelude::*;

pub mod fixed_point;
pub mod qtfile_datetime;
pub mod qtfile_matrix;

use crate::field::IoError;

verus! {

/// Why a shared value could not be read.
#[derive(Debug, Clone, Copy, PartialEq, Eq, Structural)]
pub enum ElementParseError {
    IoError(IoError),
}

} // verus!
