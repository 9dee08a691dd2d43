//! File paths, as far as the library needs them.

use std::path::PathBuf;
use vstd::prelude::*;

verus! {

/// `std::path::PathBuf`. The library never looks inside a path: it receives
/// one from the host, keeps it with the document and hands it back.
#[verifier::external_type_specification]
#[verifier::external_body]
pub struct ExPathBuf(PathBuf);

/// `PathBuf::clone` is taken to return a path equal to the one it was given;
/// nothing else about paths is assumed.
pub assume_specification[ <PathBuf as Clone>::clone ](path: &PathBuf) -> (copy: PathBuf)
    ensures
        copy == *path,
;

} // verus!
