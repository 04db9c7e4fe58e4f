//! Error taxonomy of the rendering facade.
//!
//! Buffer writes that violate capacity, a pipeline builder invoked with an
//! unset required field, and a failed shader compilation are each reported as
//! a distinct variant.  A surface that cannot produce a render target this
//! tick is *not* an error: that case is modelled as an absent value and
//! handled by skipping the frame.

use vstd::prelude::*;
use vstd::string::StringExecFns;

verus! {

/// The required pipeline-builder field that was left unset.
#[derive(Copy, Clone, Debug, PartialEq, Eq, Structural)]
pub enum MissingField {
    /// No vertex entry point was given.
    VertexFunction,
    /// No fragment entry point was given.
    FragmentFunction,
    /// No target color pixel format was given.
    ColorFormat,
}

/// An error reported by the rendering facade.
#[derive(Copy, Clone, Debug, PartialEq, Eq, Structural)]
pub enum Error {
    /// Shader source was rejected by the platform compiler.
    CompilationError,
    /// The pipeline builder was asked to build with a required field unset.
    ConfigError {
        /// Which required field was missing.
        missing: MissingField,
    },
    /// A single-element write targeted an index at or past the buffer length.
    IndexOutOfRange,
    /// A slice write was longer than the buffer it targeted.
    SliceTooLarge,
}

impl Error {
    /// The text of this error, as a sequence of characters.
    pub closed spec fn spec_message(self) -> Seq<char> {
        match self {
            Error::CompilationError => "failed to compile shader library"@,
            Error::ConfigError { missing: MissingField::VertexFunction } => "vertex function name not set"@,
            Error::ConfigError { missing: MissingField::FragmentFunction } => "fragment function name not set"@,
            Error::ConfigError { missing: MissingField::ColorFormat } => "color format not set"@,
            Error::IndexOutOfRange => "index out of range"@,
            Error::SliceTooLarge => "slice larger than buffer"@,
        }
    }

    /// A human-readable description of the error.
    pub fn message(&self) -> (r: String)
        ensures
            r@ == self.spec_message(),
    {
        match self {
            Error::CompilationError => String::from_str("failed to compile shader library"),
            Error::ConfigError { missing: MissingField::VertexFunction } => String::from_str(
                "vertex function name not set",
            ),
            Error::ConfigError { missing: MissingField::FragmentFunction } => String::from_str(
                "fragment function name not set",
            ),
            Error::ConfigError { missing: MissingField::ColorFormat } => String::from_str(
                "color format not set",
            ),
            Error::IndexOutOfRange => String::from_str("index out of range"),
            Error::SliceTooLarge => String::from_str("slice larger than buffer"),
        }
    }
}

} // verus!
