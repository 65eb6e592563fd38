//! What the back end sends to the user interface: event channels and error messages.
use vstd::prelude::*;
use crate::result::WWError;

verus! {

/// The channels on which events are sent.
#[derive(Debug, Clone, Copy)]
pub enum EmitChannel {
    IMPORT,
}

impl From<EmitChannel> for &'static str {
    fn from(value: EmitChannel) -> (r: Self) {
        match value {
            EmitChannel::IMPORT => "IMPORT",
        }
    }
}

impl vstd::std_specs::convert::FromSpecImpl<EmitChannel> for &'static str {
    open spec fn obeys_from_spec() -> bool {
        true
    }

    open spec fn from_spec(v: EmitChannel) -> &'static str {
        match v {
            EmitChannel::IMPORT => "IMPORT",
        }
    }
}

/// An error as the user interface receives it.
#[derive(Debug)]
pub struct IpcError {
    pub message: String,
}

impl From<WWError> for IpcError {
    fn from(value: WWError) -> (r: Self) {
        match value {
            WWError::Generic(m) => IpcError { message: m },
        }
    }
}

impl vstd::std_specs::convert::FromSpecImpl<WWError> for IpcError {
    open spec fn obeys_from_spec() -> bool {
        true
    }

    open spec fn from_spec(v: WWError) -> IpcError {
        match v {
            WWError::Generic(m) => IpcError { message: m },
        }
    }
}

} // verus!
