//! The validated configuration of one run.

use vstd::prelude::*;

verus! {

/// The default free-memory threshold, in whole gigabytes.
pub const DEFAULT_THRESHOLD_GB: u64 = 1;

/// Why a configuration was rejected.
#[derive(Clone, Copy, Debug, PartialEq, Eq, Structural)]
pub enum ConfigError {
    /// The command held no token at all: there is no executable to spawn.
    EmptyCommand,
}

/// The configuration of one run: the free-memory threshold in whole
/// gigabytes, and the command to execute, its first token the executable and
/// the rest its arguments. Immutable once constructed.
pub struct Config {
    pub threshold_gb: u64,
    pub command: Vec<String>,
}

impl Config {
    /// A configuration is well formed when the command holds at least the
    /// executable token.
    pub open spec fn wf(self) -> bool {
        self.command@.len() > 0
    }

    /// Validates and builds a configuration. A command with at least one
    /// token is accepted exactly as given, any threshold with it; an empty
    /// command is rejected, and nothing else is.
    pub fn new(threshold_gb: u64, command: Vec<String>) -> (r: Result<Config, ConfigError>)
        ensures
            (match r {
                Ok(c) => command@.len() > 0 && c.threshold_gb == threshold_gb && c.command@
                    == command@,
                Err(e) => command@.len() == 0 && e == ConfigError::EmptyCommand,
            }),
    {
        if command.len() == 0 {
            Err(ConfigError::EmptyCommand)
        } else {
            Ok(Config { threshold_gb, command })
        }
    }

    /// The executable: the command's first token.
    pub fn executable(&self) -> (r: &String)
        requires
            self.wf(),
        ensures
            r@ == self.command@[0]@,
    {
        &self.command[0]
    }

    /// How many arguments follow the executable.
    pub fn argument_count(&self) -> (n: usize)
        requires
            self.wf(),
        ensures
            n == self.command@.len() - 1,
    {
        self.command.len() - 1
    }

    /// The argument at this position among the tokens after the executable,
    /// passed through verbatim.
    pub fn argument(&self, i: usize) -> (r: &String)
        requires
            self.wf(),
            i < self.command@.len() - 1,
        ensures
            r@ == self.command@[i as int + 1]@,
    {
        let n: usize = self.command.len();
        assert(i + 1 < n);
        &self.command[i + 1]
    }
}

} // verus!
