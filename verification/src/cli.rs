//! The parameters that the command line gives.

use vstd::prelude::*;

verus! {

/// What the command line asks for.
#[derive(Debug)]
pub struct CliParams {
    pub dry_run: bool,
    pub config_file_path: Option<String>,
}

impl CliParams {
    /// The parameters for what was found on the command line: the path given
    /// for the configuration file, if any, and the dry-run flag, which is off
    /// where it was not given.
    pub fn from_arguments(config_file_path: Option<String>, dry_run: Option<bool>) -> (r: Self)
        ensures
            r.config_file_path == config_file_path,
            r.dry_run == (dry_run == Some(true)),
    {
        CliParams {
            dry_run: match dry_run {
                Some(flag) => flag,
                None => false,
            },
            config_file_path,
        }
    }
}

} // verus!
