use vstd::prelude::*;
use crate::directive::{BuildError, ErrorModel};

verus! {

/// Relies on glob::glob: expands a shell-style pattern against the
/// filesystem. Which paths come back depends on what is on disk, so nothing
/// is promised of the list itself; a failure names the pattern that caused
/// it.
#[verifier::external_body]
pub(crate) fn glob_paths(pattern: &str) -> (r: Result<Vec<String>, BuildError>)
    ensures
        match r {
            Ok(v) => true,
            Err(e) => e@ == (ErrorModel::BadPattern { pattern: pattern@ }) || e@
                == (ErrorModel::WalkFailed { pattern: pattern@ }),
        },
{
    let paths = match glob::glob(pattern) {
        Ok(p) => p,
        Err(_) => return Err(BuildError::BadPattern { pattern: pattern.to_string() }),
    };
    match paths.collect::<Result<Vec<_>, _>>() {
        Ok(v) => Ok(v.into_iter().map(|p| p.to_string_lossy().into_owned()).collect()),
        Err(_) => Err(BuildError::WalkFailed { pattern: pattern.to_string() }),
    }
}

} // verus!
