//! Error taxonomy of the native utility layer.

use vstd::prelude::*;

verus! {

/// Errors of the native utilities: tokenization, quantization, tensor
/// work, memory management and input handling.
#[derive(Debug, Clone)]
pub enum NativeError {
    /// Tokenizer failure.
    Tokenizer { message: String },
    /// Quantization failure.
    Quantization { message: String },
    /// Tensor operation failure.
    TensorOp { message: String },
    /// Memory management failure.
    Memory { message: String },
    /// Input or output failure.
    Io { message: String },
    /// The input was rejected.
    InvalidInput { message: String },
    /// The feature is not implemented.
    NotImplemented { feature: String },
    /// An internal invariant broke.
    Internal { message: String },
}

/// The human-readable message of a native error, its kind named in front.
pub open spec fn spec_native_message(e: NativeError) -> Seq<char> {
    match e {
        NativeError::Tokenizer { message } => "Tokenizer error: "@ + message@,
        NativeError::Quantization { message } => "Quantization error: "@ + message@,
        NativeError::TensorOp { message } => "Tensor operation error: "@ + message@,
        NativeError::Memory { message } => "Memory error: "@ + message@,
        NativeError::Io { message } => "IO error: "@ + message@,
        NativeError::InvalidInput { message } => "Invalid input: "@ + message@,
        NativeError::NotImplemented { feature } => "Not implemented: "@ + feature@,
        NativeError::Internal { message } => "Internal error: "@ + message@,
    }
}

impl NativeError {
    /// Render the error as its human-readable message.
    pub fn to_message(&self) -> (r: String)
        ensures
            r@ == spec_native_message(*self),
    {
        match self {
            NativeError::Tokenizer { message } => {
                let mut s = String::from_str("Tokenizer error: ");
                s.append(message.as_str());
                s
            },
            NativeError::Quantization { message } => {
                let mut s = String::from_str("Quantization error: ");
                s.append(message.as_str());
                s
            },
            NativeError::TensorOp { message } => {
                let mut s = String::from_str("Tensor operation error: ");
                s.append(message.as_str());
                s
            },
            NativeError::Memory { message } => {
                let mut s = String::from_str("Memory error: ");
                s.append(message.as_str());
                s
            },
            NativeError::Io { message } => {
                let mut s = String::from_str("IO error: ");
                s.append(message.as_str());
                s
            },
            NativeError::InvalidInput { message } => {
                let mut s = String::from_str("Invalid input: ");
                s.append(message.as_str());
                s
            },
            NativeError::NotImplemented { feature } => {
                let mut s = String::from_str("Not implemented: ");
                s.append(feature.as_str());
                s
            },
            NativeError::Internal { message } => {
                let mut s = String::from_str("Internal error: ");
                s.append(message.as_str());
                s
            },
        }
    }

    /// Create a tokenizer error.
    pub fn tokenizer(message: &str) -> (r: Self)
        ensures
            r matches NativeError::Tokenizer { message: m } && m@ == message@,
    {
        NativeError::Tokenizer { message: String::from_str(message) }
    }

    /// Create a quantization error.
    pub fn quantization(message: &str) -> (r: Self)
        ensures
            r matches NativeError::Quantization { message: m } && m@ == message@,
    {
        NativeError::Quantization { message: String::from_str(message) }
    }

    /// Create a tensor operation error.
    pub fn tensor_op(message: &str) -> (r: Self)
        ensures
            r matches NativeError::TensorOp { message: m } && m@ == message@,
    {
        NativeError::TensorOp { message: String::from_str(message) }
    }

    /// Create a memory error.
    pub fn memory(message: &str) -> (r: Self)
        ensures
            r matches NativeError::Memory { message: m } && m@ == message@,
    {
        NativeError::Memory { message: String::from_str(message) }
    }

    /// Create an input/output error.
    pub fn io(message: &str) -> (r: Self)
        ensures
            r matches NativeError::Io { message: m } && m@ == message@,
    {
        NativeError::Io { message: String::from_str(message) }
    }

    /// Create an invalid input error.
    pub fn invalid_input(message: &str) -> (r: Self)
        ensures
            r matches NativeError::InvalidInput { message: m } && m@ == message@,
    {
        NativeError::InvalidInput { message: String::from_str(message) }
    }

    /// Create a not-implemented error.
    pub fn not_implemented(feature: &str) -> (r: Self)
        ensures
            r matches NativeError::NotImplemented { feature: f } && f@ == feature@,
    {
        NativeError::NotImplemented { feature: String::from_str(feature) }
    }

    /// Create an internal error.
    pub fn internal(message: &str) -> (r: Self)
        ensures
            r matches NativeError::Internal { message: m } && m@ == message@,
    {
        NativeError::Internal { message: String::from_str(message) }
    }
}

} // verus!
