use vstd::prelude::*;

verus! {

/// Command-line input for the install path: the configuration file to read.
pub struct FrontierArgs {
    /// The .toml file to use.
    pub config_file: String,
}

} // verus!
