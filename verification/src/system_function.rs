//! Housekeeping of the game's files.
use vstd::prelude::*;
use crate::error::ShapoError;

verus! {

/// The log files to delete, given the listing of the log directory (or the
/// error of listing it): all of them once there are more than five, else
/// none.
pub fn clear_log(log_files: Result<Vec<String>, ShapoError>) -> (r: Result<Vec<String>, ShapoError>)
    ensures
        match log_files {
            Err(e) => r == Err::<Vec<String>, ShapoError>(e),
            Ok(v) => r matches Ok(w) && if v.len() > 5 {
                w@ == v@
            } else {
                w@.len() == 0
            },
        },
{
    let file = match log_files {
        Ok(v) => v,
        Err(e) => return Err(e),
    };
    if file.len() > 5 {
        Ok(file)
    } else {
        Ok(Vec::new())
    }
}

} // verus!
