//! The declared entries, as plain data.

use vstd::prelude::*;

verus! {

/// What one declared entry says, with every string as a sequence of characters.
pub struct ConfigView {
    pub name: Seq<char>,
    pub target: Seq<char>,
    pub external: Seq<char>,
    pub repo: Option<Seq<char>>,
}

/// One declared mapping between a content location and a link location.
#[derive(Debug, Clone)]
pub struct Config {
    /// Identifies the entry in diagnostics.
    pub name: String,
    /// Where the content resides.
    pub target: String,
    /// Where the link to the content appears.
    pub external: String,
    /// Where the content is cloned from when it has to be provisioned.
    pub repo: Option<String>,
}

impl View for Config {
    type V = ConfigView;

    open spec fn view(&self) -> ConfigView {
        ConfigView {
            name: self.name@,
            target: self.target@,
            external: self.external@,
            repo: match self.repo {
                Some(source) => Some(source@),
                None => None,
            },
        }
    }
}

/// The ordered entries of one configuration.
#[derive(Debug, Clone)]
pub struct Data {
    pub item: Vec<Config>,
}

impl View for Data {
    type V = Seq<ConfigView>;

    open spec fn view(&self) -> Seq<ConfigView> {
        self.item@.map_values(|entry: Config| entry@)
    }
}

} // verus!
