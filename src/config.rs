use vstd::prelude::*;

verus! {

/// Subcommands besides the dashboard itself.
#[derive(Debug, Clone, Copy, PartialEq, Eq, Structural)]
pub enum Commands {
    /// Replace the program with its latest release.
    Update,
}

/// Startup settings.
#[derive(Debug, Clone, Copy, PartialEq, Eq, Structural)]
pub struct Config {
    pub command: Option<Commands>,
    /// Disables deletion.
    pub readonly: bool,
    /// Concurrent snapshot fetches for the prefetch; detected when absent.
    pub threads: Option<usize>,
}

/// Largest accepted thread count.
pub const MAX_THREADS: usize = 1000;

/// Concurrent fetches per detected processor when no count is configured.
pub const IO_CONCURRENCY_MULTIPLIER: usize = 8;

/// Processors assumed when detection fails.
pub const FALLBACK_CPUS: usize = 4;

/// Why a configuration is refused, if it is.
pub enum ConfigError {
    ZeroThreads,
    TooManyThreads,
}

impl ConfigError {
    /// The message shown for the refusal.
    pub fn message(&self) -> (r: String)
        ensures
            r@ == match self {
                ConfigError::ZeroThreads => "Thread count must be at least 1"@,
                ConfigError::TooManyThreads => "Thread count must not exceed 1000"@,
            },
    {
        match self {
            ConfigError::ZeroThreads => "Thread count must be at least 1".to_owned(),
            ConfigError::TooManyThreads => "Thread count must not exceed 1000".to_owned(),
        }
    }
}

/// The prefetch concurrency for a configured count and a detected processor
/// count: the configured count, else eight per processor (four processors
/// where none were detected), kept within `1..=MAX_THREADS`.
pub open spec fn thread_count_for(threads: Option<usize>, detected: Option<usize>) -> int {
    let base: int = match threads {
        Some(t) => t as int,
        None => {
            let cpus: int = match detected {
                Some(c) => c as int,
                None => FALLBACK_CPUS as int,
            };
            let want = cpus * IO_CONCURRENCY_MULTIPLIER;
            if want > usize::MAX {
                usize::MAX as int
            } else {
                want
            }
        },
    };
    if base < 1 {
        1
    } else if base > MAX_THREADS {
        MAX_THREADS as int
    } else {
        base
    }
}

impl Default for Config {
    fn default() -> (r: Self)
        ensures
            r.command.is_none(),
            !r.readonly,
            r.threads.is_none(),
    {
        Config { command: None, readonly: false, threads: None }
    }
}

impl Config {
    /// The number of concurrent prefetch fetches, given the processor count
    /// that the platform reports (see `thread_count_for`).
    pub fn effective_thread_count(&self, detected: Option<usize>) -> (r: usize)
        ensures
            r as int == thread_count_for(self.threads, detected),
            1 <= r <= MAX_THREADS,
    {
        let base: usize = match self.threads {
            Some(t) => t,
            None => {
                let cpus: usize = match detected {
                    Some(c) => c,
                    None => FALLBACK_CPUS,
                };
                if cpus > usize::MAX / IO_CONCURRENCY_MULTIPLIER {
                    usize::MAX
                } else {
                    cpus * IO_CONCURRENCY_MULTIPLIER
                }
            },
        };
        if base < 1 {
            1
        } else if base > MAX_THREADS {
            MAX_THREADS
        } else {
            base
        }
    }

    /// Accepts a configuration whose thread count, where given, lies in
    /// `1..=1000`.
    pub fn validate(&self) -> (r: Result<(), ConfigError>)
        ensures
            match self.threads {
                Some(t) => {
                    &&& (t == 0 <==> r matches Err(ConfigError::ZeroThreads))
                    &&& (t > MAX_THREADS <==> r matches Err(ConfigError::TooManyThreads))
                    &&& (1 <= t <= MAX_THREADS <==> r is Ok)
                },
                None => r is Ok,
            },
    {
        if let Some(threads) = self.threads {
            if threads == 0 {
                return Err(ConfigError::ZeroThreads);
            }
            if threads > MAX_THREADS {
                return Err(ConfigError::TooManyThreads);
            }
        }
        Ok(())
    }
}

} // verus!
