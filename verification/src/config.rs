use vstd::prelude::*;

use crate::source::GithubConfig;
use crate::source::GitlabConfig;

verus! {

/// The pre-validated configuration handed to registry construction: one
/// optional list of descriptors per host kind. A missing list means zero
/// sources of that kind.
#[derive(Debug)]
pub struct Config {
    pub github: Option<Vec<GithubConfig>>,
    pub gitlab: Option<Vec<GitlabConfig>>,
}

} // verus!
