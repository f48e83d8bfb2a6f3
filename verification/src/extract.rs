//! The first step of reading a command from a request: a body over the limit
//! is turned away before anything is decoded.

use crate::errors::{AppError, PayloadError};
use vstd::prelude::*;

verus! {

/// The most bytes that the body of a command may have.
pub const JSON_LIMIT: usize = 4056;

/// Turns a request away whose announced length is over the limit; a request
/// that announces no length passes, and is measured when it is read.
pub fn admit_announced(length: Option<usize>) -> (res: Result<(), AppError>)
    ensures
        res == match length {
            Some(length) if length > JSON_LIMIT => Err::<(), AppError>(
                AppError::Payload(
                    PayloadError::OverflowKnownLength { length, limit: JSON_LIMIT },
                ),
            ),
            _ => Ok(()),
        },
{
    match length {
        Some(length) if length > JSON_LIMIT => Err(
            AppError::Payload(PayloadError::OverflowKnownLength { length, limit: JSON_LIMIT }),
        ),
        _ => Ok(()),
    }
}

/// Turns a body away that is over the limit.
pub fn admit_body(body: &[u8]) -> (res: Result<(), AppError>)
    ensures
        res == if body@.len() > JSON_LIMIT {
            Err::<(), AppError>(AppError::Payload(PayloadError::Overflow { limit: JSON_LIMIT }))
        } else {
            Ok(())
        },
{
    if body.len() > JSON_LIMIT {
        Err(AppError::Payload(PayloadError::Overflow { limit: JSON_LIMIT }))
    } else {
        Ok(())
    }
}

} // verus!
