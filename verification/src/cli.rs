use vstd::prelude::*;

use crate::text::{split_on, split_text};

verus! {

/// The command line: options for every command, and the command.
pub struct Cli {
    pub global_opts: GlobalOpts,
    pub commands: Commands,
}

/// Options that every command takes.
pub struct GlobalOpts {
    /// Path of the configuration file.
    pub config: String,
    /// Whether to log at debug level.
    pub debug: bool,
}

/// What the tool is asked to do.
pub enum Commands {
    /// Serve the HTTP interface on a port.
    Server { port: u16 },
    /// Update and rebuild websites: `all`, or ids separated by commas.
    Update { sites: String },
    /// Push one website's changes.
    Push { site: String },
}

/// Which websites an update is for.
pub enum SiteSelection {
    All,
    /// These ids, in the order given.
    Listed(Vec<String>),
}

/// The word that selects every website.
pub open spec fn all_sites_word() -> Seq<char> {
    "all"@
}

/// Reads the websites an update names: the word `all` selects every website;
/// anything else is a list of ids separated by commas, each piece taken as it
/// stands.
pub fn parse_site_selection(sites: &str) -> (selection: SiteSelection)
    ensures
        sites@ == all_sites_word() ==> selection is All,
        sites@ != all_sites_word() ==> (selection matches SiteSelection::Listed(ids)
            && ids@.map_values(|id: String| id@) == split_on(sites@, ',')),
{
    if sites.to_owned() == String::from_str("all") {
        SiteSelection::All
    } else {
        SiteSelection::Listed(split_text(sites, ','))
    }
}

} // verus!
