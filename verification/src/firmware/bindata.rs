//! GSP bindata firmware loading.

use vstd::prelude::*;

use crate::error::Error;

verus! {

/// Returns what loading the `ucodes` bindata metadata yields, given what requesting it did.
///
/// An absent metadata file yields `None` rather than an error, because whether ucodes are
/// required depends on the boot path. Other errors are propagated as-is.
pub fn request_ucodes_firmware<T>(request: Result<T, Error>) -> (metadata: Result<Option<T>, Error>)
    ensures
        metadata == match request {
            Ok(metadata) => Ok::<Option<T>, Error>(Some(metadata)),
            Err(error) => if error == Error::ENOENT {
                Ok(None)
            } else {
                Err(error)
            },
        },
{
    match request {
        Ok(metadata) => Ok(Some(metadata)),
        Err(error) => {
            if error == Error::ENOENT {
                Ok(None)
            } else {
                Err(error)
            }
        },
    }
}

} // verus!
