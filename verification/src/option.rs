//! Configurations for raf

use vstd::prelude::*;

verus! {

/// The configuration, as the configuration file holds it.
#[derive(Debug, PartialEq, Eq)]
pub struct RafConfig {
    /// Where things are kept.
    pub path: RafConfigPath,
}

/// The directories that the configuration names.
#[derive(Debug, PartialEq, Eq)]
pub struct RafConfigPath {
    /// The drafts root: every entry lies below it.
    pub root: String,
    /// The templates root: the templates of a kind lie in its directory of
    /// that name.
    pub template: String,
}

/// Where the configuration file lies below the home directory `home`.
pub open spec fn config_location(home: Seq<char>) -> Seq<char> {
    home + "/.config/raf/config.toml"@
}

/// The path of the configuration file of the user whose home directory is
/// `home`.
pub fn config_file(home: &str) -> (file: String)
    ensures
        file@ == config_location(home@),
{
    let mut file = home.to_owned();
    file.append("/.config/raf/config.toml");
    file
}

} // verus!
