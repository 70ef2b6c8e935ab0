//! A loaded configuration: where it was read from and what it declares.

use vstd::prelude::*;
use vstd::string::*;
use crate::parser::dto::Data;

verus! {

/// The location a configuration is read from when none is given.
pub open spec fn default_location() -> Seq<char> {
    "config_mapper.toml"@
}

/// The location a configuration is read from: the one given, else the default.
pub open spec fn location_of(given: Option<Seq<char>>) -> Seq<char> {
    match given {
        Some(path) => path,
        None => default_location(),
    }
}

/// A configuration together with the location it came from.
pub struct Parser {
    pub path: String,
    pub data: Data,
}

impl Parser {
    /// Chooses the location to read: `config_path` when given, else the default.
    pub fn location(config_path: Option<String>) -> (path: String)
        ensures
            path@ == location_of(
                match config_path {
                    Some(given) => Some(given@),
                    None => None,
                },
            ),
    {
        match config_path {
            Some(given) => given,
            None => String::from_str("config_mapper.toml"),
        }
    }

    /// Joins the entries read from the chosen location with that location.
    pub fn new(config_path: Option<String>, data: Data) -> (parser: Parser)
        ensures
            parser.path@ == location_of(
                match config_path {
                    Some(given) => Some(given@),
                    None => None,
                },
            ),
            parser.data == data,
    {
        Parser { path: Parser::location(config_path), data }
    }
}

} // verus!
