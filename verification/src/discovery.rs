//! The TypeWhisper discovery file: where it is, what it holds, and how a
//! failure to read it is reported.
use crate::config::home_dir;
use crate::path::{join_path, joined};
use crate::text::opt_view;
use vstd::prelude::*;

verus! {

/// The API's port and token, as TypeWhisper publishes them.
#[derive(Debug, Clone, PartialEq)]
pub struct Discovery {
    pub port: u16,
    pub token: Option<String>,
    pub version: Option<u32>,
}

#[derive(Debug)]
pub enum DiscoveryError {
    /// No discovery file at the given path.
    Missing(String),
    NoHome,
    Parse(String),
    Io(String),
}

pub open spec fn discovery_error_text(e: DiscoveryError) -> Seq<char> {
    match e {
        DiscoveryError::Missing(p) => "TypeWhisper discovery file not found at "@ + p@
            + " \u{2014} is TypeWhisper running with the API server enabled?"@,
        DiscoveryError::NoHome => "cannot determine home directory"@,
        DiscoveryError::Parse(m) => "invalid discovery file: "@ + m@,
        DiscoveryError::Io(m) => "discovery io error: "@ + m@,
    }
}

impl DiscoveryError {
    /// The human-readable text of the error.
    pub fn describe(&self) -> (s: String)
        ensures
            s@ == discovery_error_text(*self),
    {
        let mut s = String::new();
        match self {
            DiscoveryError::Missing(p) => {
                s.push_str("TypeWhisper discovery file not found at ");
                s.push_str(p.as_str());
                s.push_str(" \u{2014} is TypeWhisper running with the API server enabled?");
            },
            DiscoveryError::NoHome => s.push_str("cannot determine home directory"),
            DiscoveryError::Parse(m) => {
                s.push_str("invalid discovery file: ");
                s.push_str(m.as_str());
            },
            DiscoveryError::Io(m) => {
                s.push_str("discovery io error: ");
                s.push_str(m.as_str());
            },
        }
        s
    }
}

/// Where TypeWhisper writes its discovery file, below the home directory.
pub open spec fn discovery_location(home: Option<Seq<char>>) -> Option<Seq<char>> {
    match home {
        Some(h) => Some(joined(h, "Library/Application Support/TypeWhisper/api-discovery.json"@)),
        None => None,
    }
}

/// The discovery file's path below a given home directory.
pub fn discovery_path_with(home: Option<&str>) -> (r: Result<String, DiscoveryError>)
    ensures
        match discovery_location(opt_view(home)) {
            Some(p) => r matches Ok(s) && s@ == p,
            None => r matches Err(DiscoveryError::NoHome),
        },
{
    match home {
        Some(h) => Ok(join_path(h, "Library/Application Support/TypeWhisper/api-discovery.json")),
        None => Err(DiscoveryError::NoHome),
    }
}

/// The discovery file's path below the user's home directory.
pub fn discovery_path() -> (r: Result<String, DiscoveryError>)
    ensures
        exists|home: Option<Seq<char>>|
            match #[trigger] discovery_location(home) {
                Some(p) => r matches Ok(s) && s@ == p,
                None => r matches Err(DiscoveryError::NoHome),
            },
{
    let home = home_dir();
    match &home {
        Some(h) => discovery_path_with(Some(h.as_str())),
        None => discovery_path_with(None),
    }
}

} // verus!
