use vstd::prelude::*;

verus! {

/// Command-line settings, as handed over by the argument parser.
///
/// Every field is optional: an absent or empty value leaves the decision to
/// the configuration files and the built-in defaults.
#[derive(Debug)]
pub struct Args {
    /// API key given on the command line (or through its environment variable).
    pub coinmarketcap_api_key: Option<String>,
    /// Explicit data directory.
    pub data_dir: Option<String>,
    /// Explicit user configuration file.
    pub config: Option<String>,
}

} // verus!
