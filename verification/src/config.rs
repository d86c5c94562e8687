//! Configuration values.
//!
//! Configuration is read from a TOML file by the surrounding program; the
//! library holds the parsed values and the search order for the file.  The
//! only value the orchestrator itself consumes is `primary_display`, the
//! ordered list of preferred output names for primary election; an absent
//! or empty list is valid and falls back to registry order.

use std::collections::HashMap;

use vstd::prelude::*;

verus! {

/// The session command launched after a successful greeter login.
#[derive(Debug)]
pub struct Session {
    /// Command line, program first.
    pub cmd: Vec<String>,
    /// Extra environment for the command.
    pub env: HashMap<String, String>,
}

impl Default for Session {
    /// An empty command with no extra environment.
    fn default() -> (s: Self)
        ensures
            s.cmd@ == Seq::<String>::empty(),
    {
        Session { cmd: Vec::new(), env: HashMap::new() }
    }
}

/// Values read from the configuration file.
#[derive(Debug)]
pub struct ConfigValues {
    /// The user the greeter logs in.
    pub user: String,
    /// Preferred output names for primary election, most preferred first.
    pub primary_display: Vec<String>,
    /// The session to launch.
    pub session: Session,
}

impl Default for ConfigValues {
    /// An empty user, no display preferences, and the default session.
    fn default() -> (c: Self)
        ensures
            c.user@ == Seq::<char>::empty(),
            c.primary_display@ == Seq::<String>::empty(),
    {
        ConfigValues { user: String::new(), primary_display: Vec::new(), session: Session::default() }
    }
}

/// Where the configuration file is searched, in order: a path given on the
/// command line wins outright; otherwise `dash2/config.toml` under the
/// user's configuration directory, then the system-wide copy under `/etc`.
pub fn config_candidates(provided: Option<String>, config_dir: Option<String>) -> (r: Vec<String>)
    ensures
        match provided {
            Some(p) => r.deep_view() =~~= seq![p@],
            None => match config_dir {
                Some(d) => r.deep_view() =~~= seq![
                    d@ + "/dash2/config.toml"@,
                    "/etc/dash2/config.toml"@,
                ],
                None => r.deep_view() =~~= seq!["/etc/dash2/config.toml"@],
            },
        },
{
    let mut r: Vec<String> = Vec::new();
    match provided {
        Some(p) => {
            r.push(p);
        },
        None => {
            match config_dir {
                Some(d) => {
                    r.push(d.concat("/dash2/config.toml"));
                },
                None => {},
            }
            r.push(String::from_str("/etc/dash2/config.toml"));
        },
    }
    r
}

} // verus!
