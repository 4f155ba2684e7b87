//! Stable, payload-free failure classification keys for NGINX-boundary logs.

use vstd::prelude::*;

verus! {

/// The NGINX callback in which a failure was observed.
#[derive(Clone, Copy, Debug, PartialEq, Eq, Structural)]
pub enum Callback {
    Preconfiguration,
    Postconfiguration,
    SetDirective,
    SetBuffers,
    SetTypes,
    HeaderFilter,
    BodyFilter,
    StaticHandler,
}

impl Callback {
    pub open spec fn key(self) -> Seq<char> {
        match self {
            Callback::Preconfiguration => "preconfiguration"@,
            Callback::Postconfiguration => "postconfiguration"@,
            Callback::SetDirective => "set_directive"@,
            Callback::SetBuffers => "set_buffers"@,
            Callback::SetTypes => "set_types"@,
            Callback::HeaderFilter => "header_filter"@,
            Callback::BodyFilter => "body_filter"@,
            Callback::StaticHandler => "static_handler"@,
        }
    }

    /// The stable log key of this callback.
    pub fn name(self) -> (r: &'static str)
        ensures
            r@ == self.key(),
    {
        match self {
            Callback::Preconfiguration => "preconfiguration",
            Callback::Postconfiguration => "postconfiguration",
            Callback::SetDirective => "set_directive",
            Callback::SetBuffers => "set_buffers",
            Callback::SetTypes => "set_types",
            Callback::HeaderFilter => "header_filter",
            Callback::BodyFilter => "body_filter",
            Callback::StaticHandler => "static_handler",
        }
    }
}

/// The class of a failure, logged without any request data.
#[derive(Clone, Copy, Debug, PartialEq, Eq, Structural)]
pub enum FailureClass {
    RustPanic,
    CodecInitialization,
    CodecReset,
    OutputAllocation,
    InvalidFfiState,
    InvalidCodecProgress,
    CodecBackend,
    Downstream,
}

impl FailureClass {
    pub open spec fn key(self) -> Seq<char> {
        match self {
            FailureClass::RustPanic => "rust_panic"@,
            FailureClass::CodecInitialization => "codec_initialization"@,
            FailureClass::CodecReset => "codec_reset"@,
            FailureClass::OutputAllocation => "output_allocation"@,
            FailureClass::InvalidFfiState => "invalid_ffi_state"@,
            FailureClass::InvalidCodecProgress => "invalid_codec_progress"@,
            FailureClass::CodecBackend => "codec_backend"@,
            FailureClass::Downstream => "downstream"@,
        }
    }

    /// The stable log key of this failure class.
    pub fn name(self) -> (r: &'static str)
        ensures
            r@ == self.key(),
    {
        match self {
            FailureClass::RustPanic => "rust_panic",
            FailureClass::CodecInitialization => "codec_initialization",
            FailureClass::CodecReset => "codec_reset",
            FailureClass::OutputAllocation => "output_allocation",
            FailureClass::InvalidFfiState => "invalid_ffi_state",
            FailureClass::InvalidCodecProgress => "invalid_codec_progress",
            FailureClass::CodecBackend => "codec_backend",
            FailureClass::Downstream => "downstream",
        }
    }
}

} // verus!
