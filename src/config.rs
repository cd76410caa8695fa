//! The roster of sinners and identities that drives a run.
use vstd::prelude::*;

verus! {

/// Command-line arguments: an optional path to the configuration file.
#[derive(Debug)]
pub struct Cli {
    pub config: Option<String>,
}

/// Configuration: the roster and the folder that input, asset and output
/// folders are relative to.
#[derive(Debug)]
pub struct Config {
    pub data: SinnerData,
    pub relative_root: String,
}

/// Each sinner
#[derive(Debug)]
pub struct SinnerData {
    pub sinner: Vec<Sinner>,
}

/// Each sinner's array of identities
#[derive(Debug)]
pub struct Sinner {
    pub id: Vec<Identity>,
    pub name: String,
    pub path: String,
}

/// Each identity's name and image link
#[derive(Debug)]
pub struct Identity {
    pub name: String,
    pub rarity: u8,
    pub image: String,
}

impl Cli {
    /// The configuration file given, or `./config.toml` when none was.
    pub fn config_path(&self) -> (r: String)
        ensures
            r@ == (match self.config {
                Some(p) => p@,
                None => "./config.toml"@,
            }),
    {
        match &self.config {
            Some(p) => p.clone(),
            None => String::from_str("./config.toml"),
        }
    }
}

} // verus!
