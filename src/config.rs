//! The command line and the watch configuration, as the library sees them,
//! and the values derived from them.

use vstd::prelude::*;
use crate::text::{decimal_u16, parse_decimal_u16, same_text};

verus! {

/// The command line.
pub struct Cli {
    pub command: Commands,
}

/// The subcommands.
pub enum Commands {
    /// Run the watched processes, restarting them on changes; `config` is
    /// the path of the configuration file.
    Run { config: String },
}

/// The watch configuration: the environment given to every command (keys
/// unique), the commands, the directory to watch and the ignore rules.
pub struct Config {
    pub env: Vec<(String, String)>,
    pub commands: Vec<String>,
    pub watch_dir: String,
    pub ignore: Option<Vec<String>>,
}

/// The port used when the environment names none that can be read.
pub const DEFAULT_PORT: u16 = 8080;

/// Whether no two entries of `env` share a key, as in a map.
pub open spec fn keys_unique(env: Seq<(String, String)>) -> bool {
    forall|i: int, j: int| 0 <= i < j < env.len() ==> env[i].0@ != env[j].0@
}

/// The value of the first entry of `env` with this key.
pub open spec fn env_lookup(env: Seq<(String, String)>, key: Seq<char>) -> Option<Seq<char>>
    decreases env.len(),
{
    if env.len() == 0 {
        None
    } else if env[0].0@ == key {
        Some(env[0].1@)
    } else {
        env_lookup(env.drop_first(), key)
    }
}

/// The target port: the `PORT` entry of the environment read as a 16-bit
/// number, or 8080 when there is none or it does not read as one.
pub open spec fn port_of(env: Seq<(String, String)>) -> u16 {
    match env_lookup(env, "PORT"@) {
        Some(v) => match decimal_u16(v) {
            Some(p) => p,
            None => DEFAULT_PORT,
        },
        None => DEFAULT_PORT,
    }
}

/// The value of the first entry of `env` with this key.
pub fn lookup_env<'a>(env: &'a Vec<(String, String)>, key: &str) -> (r: Option<&'a String>)
    ensures
        match r {
            Some(v) => env_lookup(env@, key@) == Some(v@),
            None => env_lookup(env@, key@) is None,
        },
{
    let mut i: usize = 0;
    assert(env@.subrange(0, env@.len() as int) =~= env@);
    while i < env.len()
        invariant
            i <= env.len(),
            env_lookup(env@, key@) == env_lookup(env@.subrange(i as int, env@.len() as int), key@),
        decreases env.len() - i,
    {
        let ghost rest = env@.subrange(i as int, env@.len() as int);
        assert(rest.drop_first() =~= env@.subrange(i + 1, env@.len() as int));
        if same_text(env[i].0.as_str(), key) {
            return Some(&env[i].1);
        }
        i = i + 1;
    }
    None
}

/// With keys unique, looking a key up finds the one entry with that key,
/// wherever it stands: the lookup reads `env` as a map.
pub proof fn lemma_lookup_finds_entry(env: Seq<(String, String)>, i: int)
    requires
        keys_unique(env),
        0 <= i < env.len(),
    ensures
        env_lookup(env, env[i].0@) == Some(env[i].1@),
    decreases i,
{
    if i > 0 {
        assert(env[0].0@ != env[i].0@);
        let rest = env.drop_first();
        assert(keys_unique(rest)) by {
            assert forall|a: int, b: int| 0 <= a < b < rest.len() implies rest[a].0@ != rest[b].0@ by {
                assert(rest[a] == env[a + 1] && rest[b] == env[b + 1]);
            }
        }
        assert(rest[i - 1] == env[i]);
        lemma_lookup_finds_entry(rest, i - 1);
    }
}

impl Config {
    /// The port that a restart reclaims, from the environment's `PORT` entry.
    pub fn target_port(&self) -> (r: u16)
        ensures
            r == port_of(self.env@),
    {
        match lookup_env(&self.env, "PORT") {
            Some(v) => match parse_decimal_u16(v.as_str()) {
                Some(p) => p,
                None => DEFAULT_PORT,
            },
            None => DEFAULT_PORT,
        }
    }
}

} // verus!
