//! The server configuration: loaded once before startup, immutable and
//! shared read-only afterwards.

use vstd::prelude::*;
use vstd::string::StringExecFns;
use crate::utils;

verus! {

/// The active runtime mode, derived once at startup from the debug flag.
#[derive(Clone, Copy, PartialEq, Eq, Structural, Debug)]
pub enum RuntimeMode {
    /// Assets are read from a working-directory-relative source tree.
    Development,
    /// Assets are read from beside the installed executable.
    Production,
}

/// Listener settings.
#[derive(Clone, Debug)]
pub struct Server {
    pub workers: usize,
    pub bind_address: String,
    pub port: u16,
    pub keep_alive: u64,
}

/// The whole configuration object.
#[derive(Clone, Debug)]
pub struct Config {
    pub log_level: String,
    pub server: Server,
    pub debug: bool,
}

impl Default for Config {
    /// The configuration written when none exists yet.
    fn default() -> (c: Config)
        ensures
            c.log_level@ == "DEBUG"@,
            c.server.workers == 4,
            c.server.bind_address@ == "0.0.0.0"@,
            c.server.port == 8000,
            c.server.keep_alive == 10,
            c.debug == true,
    {
        Config {
            log_level: "DEBUG".to_owned(),
            server: Server {
                workers: 4,
                bind_address: "0.0.0.0".to_owned(),
                port: 8000,
                keep_alive: 10,
            },
            debug: true,
        }
    }
}

impl Config {
    /// The runtime mode this configuration selects: the debug flag chooses
    /// Development, otherwise Production.
    pub fn runtime_mode(&self) -> (m: RuntimeMode)
        ensures
            m == RuntimeMode::Development <==> self.debug,
            m == RuntimeMode::Production <==> !self.debug,
    {
        if self.debug {
            RuntimeMode::Development
        } else {
            RuntimeMode::Production
        }
    }

    /// Where the configuration file lives: `config.json` under the
    /// application's data directory. `None` when the platform offers no
    /// local configuration directory.
    pub fn config_path() -> (r: Option<String>)
        ensures
            r matches Some(p) ==> "/asset_server/config.json"@.is_suffix_of(p@),
    {
        match utils::data_dir() {
            None => None,
            Some(dir) => {
                let ghost dir_view = dir@;
                let p = dir.concat("/config.json");
                proof {
                    reveal_strlit("/asset_server");
                    reveal_strlit("/config.json");
                    reveal_strlit("/asset_server/config.json");
                    let whole = p@;
                    let a = "/asset_server"@;
                    let b = "/config.json"@;
                    let suf = "/asset_server/config.json"@;
                    assert(suf =~= a + b);
                    assert(a =~= dir_view.subrange(
                        dir_view.len() - a.len(),
                        dir_view.len() as int,
                    ));
                    assert(whole == dir_view + b);
                    assert(suf =~= whole.subrange(whole.len() - suf.len(), whole.len() as int));
                }
                Some(p)
            },
        }
    }
}

} // verus!
