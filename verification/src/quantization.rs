//! Quantization data model.
//!
//! The tensor arithmetic of quantization is an external collaborator's
//! business; the library carries the closed set of quantization schemes.

use vstd::prelude::*;

verus! {

/// The quantization scheme applied to a model's weights.
#[derive(Debug, Clone, Copy, PartialEq, Eq, Structural)]
pub enum QuantizationType {
    /// No quantization: full 32-bit floating point weights.
    Unquantized,
    /// Half precision (16-bit floating point).
    FP16,
    /// 8-bit integer quantization.
    INT8,
    /// 4-bit integer quantization.
    INT4,
    /// Quantization chosen dynamically at load time.
    Dynamic,
}

} // verus!
