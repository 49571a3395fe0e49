//! Configuration handed to the operations of the pipeline.

use vstd::prelude::*;

verus! {

/// Where the emulator archive is downloaded from.
#[derive(Debug, Clone, PartialEq, Eq)]
pub struct Goldberg {
    pub download_url: String,
}

/// Where the game lives and which releases complete it.
#[derive(Debug, Clone, PartialEq, Eq)]
pub struct AoE2 {
    pub steam_folder: String,
    pub gh_companion_user: String,
    pub gh_companion_repo: String,
    pub gh_launcher_user: String,
    pub gh_launcher_repo: String,
}

/// The whole configuration.
#[derive(Debug, Clone, PartialEq, Eq)]
pub struct Config {
    pub goldberg: Goldberg,
    pub aoe2: AoE2,
}

} // verus!
