//! Daemon configuration and its defaults.
//!
//! The file is `config.toml` with a `[server]` and an `[engine]` table; a
//! field left out takes the default given here.

use vstd::prelude::*;
use vstd::string::*;

verus! {

/// Daemon configuration: the `[server]` and `[engine]` tables.
pub struct Config {
    pub server: ServerConfig,
    pub engine: EngineConfig,
}

/// Where the daemon listens.
pub struct ServerConfig {
    pub host: String,
    pub port: u16,
}

/// Which inference backend the daemon loads, from which model file, and
/// with how many threads.
pub struct EngineConfig {
    pub provider: String,
    pub model_path: String,
    pub threads: u16,
}

/// The host used when `[server]` names none.
pub fn default_host() -> (host: String)
    ensures
        host@ == "127.0.0.1"@,
{
    String::from_str("127.0.0.1")
}

/// The port used when `[server]` names none.
pub fn default_port() -> (port: u16)
    ensures
        port == 3030,
{
    3030
}

/// The inference backend used when `[engine]` names none.
pub fn default_provider() -> (provider: String)
    ensures
        provider@ == "whisper_cpp"@,
{
    String::from_str("whisper_cpp")
}

/// The thread count used when `[engine]` names none and the machine's
/// parallelism is not known.
pub fn default_threads() -> (threads: u16)
    ensures
        threads == 4,
{
    4
}

/// The thread count used when `[engine]` names none, given the parallelism
/// that the machine reports (`None` where it reports none): that count,
/// kept within 1..=65535, else `default_threads()`. It is never zero.
pub fn default_threads_for(parallelism: Option<usize>) -> (threads: u16)
    ensures
        threads >= 1,
        match parallelism {
            Some(n) => threads as int == if n == 0 { 1 } else if n > 65535 { 65535 } else { n as int },
            None => threads == 4,
        },
{
    match parallelism {
        Some(n) => {
            if n == 0 {
                1
            } else if n > 65535 {
                65535
            } else {
                n as u16
            }
        },
        None => default_threads(),
    }
}

} // verus!
