use vstd::prelude::*;

verus! {

/// The command line: whether to use the default commit types, whether to
/// open an editor after the survey, and where the repository is.
pub struct App {
    pub default: bool,
    pub edit: bool,
    pub repo_path: String,
}

} // verus!
