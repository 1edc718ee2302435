use vstd::prelude::*;

verus! {

/// The debugging port used when no other is configured.
pub const DEFAULT_PORT: u16 = 9222;

/// Settings that persist between runs.
pub struct Config {
    pub port: Option<u16>,
}

impl Config {
    /// The port a settings value stands for.
    pub open spec fn spec_port(&self) -> u16 {
        match self.port {
            Some(p) => p,
            None => DEFAULT_PORT,
        }
    }

    /// The configured port, or the default one.
    pub fn port(&self) -> (r: u16)
        ensures
            r == self.spec_port(),
    {
        match self.port {
            Some(p) => p,
            None => DEFAULT_PORT,
        }
    }
}

impl Default for Config {
    /// Settings with nothing chosen.
    fn default() -> (r: Config)
        ensures
            r.port is None,
    {
        Config { port: None }
    }
}

} // verus!
