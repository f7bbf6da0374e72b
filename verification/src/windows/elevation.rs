use vstd::prelude::*;

use super::error::RecordError;

verus! {

/// `Err(RecordError::NotElevated)` when the process is not running as
/// Administrator (`elevated` is the token's elevation state).
pub fn require_elevated(elevated: bool) -> (r: Result<(), RecordError>)
    ensures
        elevated <==> r is Ok,
        !elevated ==> (r matches Err(e) && e is NotElevated),
{
    if elevated {
        Ok(())
    } else {
        Err(RecordError::NotElevated)
    }
}

} // verus!
