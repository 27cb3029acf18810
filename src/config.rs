//! Node configuration.
use vstd::prelude::*;

verus! {

/// Settings of a node.
#[derive(Debug)]
pub struct Config {
    /// The log filter, such as a level name.
    pub log_level: String,
}

impl Config {
    /// The configuration given the value of the log-level variable of the
    /// environment, if it is set; the level defaults to `info`.
    pub fn new(log_level: Option<String>) -> (r: Config)
        ensures
            r.log_level@ == match log_level {
                Some(v) => v@,
                None => "info"@,
            },
    {
        match log_level {
            Some(v) => Config { log_level: v },
            None => Config { log_level: "info".to_owned() },
        }
    }
}

} // verus!
