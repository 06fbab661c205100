use vstd::prelude::*;
use crate::registry::Shield;
use std::sync::Arc;

verus! {

/// The status with which an extraction is rejected: an internal server error.
pub const REJECTION_STATUS: u16 = 500;

pub const REJECTION_MESSAGE: &'static str = "Can't extract Shield. Is `ShieldLayer` enabled?";

/// Why a request could not hand over the registry.
#[derive(Debug)]
pub struct Rejection {
    pub status: u16,
    pub message: &'static str,
}

/// The registry as a request handler receives it.
pub struct ExtractShield(pub Arc<Shield>);

impl ExtractShield {
    /// Wraps the registry found among a request's extensions, or rejects the
    /// request where none was found.
    pub fn from_extension(found: Option<Arc<Shield>>) -> (out: Result<ExtractShield, Rejection>)
        ensures
            match found {
                Some(shield) => out is Ok && out->Ok_0.0 == shield,
                None => out is Err && out->Err_0.status == REJECTION_STATUS
                    && out->Err_0.message@ == REJECTION_MESSAGE@,
            },
    {
        match found {
            Some(shield) => Ok(ExtractShield(shield)),
            None => Err(Rejection { status: REJECTION_STATUS, message: REJECTION_MESSAGE }),
        }
    }
}

} // verus!
