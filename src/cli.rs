//! Command-line options of the service and of the community store server.
use vstd::prelude::*;

verus! {

/// A special operation run instead of the service.
#[derive(Clone, Copy, Debug, PartialEq, Eq, Structural)]
pub enum Operation {
    /// Dump system information useful to add support for a new device.
    DumpSys,
    /// Remove every file the service created.
    Clean,
}

/// Options of the service.
#[derive(Debug)]
pub struct Args {
    /// Port for the front-end client's connection.
    pub port: Option<u16>,
    /// Log file location to use instead of the default.
    pub log: Option<String>,
    /// Force verbose logging.
    pub verbose: bool,
    /// Special operation to perform.
    pub op: Option<Operation>,
}

impl Args {
    /// No option was given.
    pub fn is_default(&self) -> (r: bool)
        ensures
            r == (self.port is None && self.log is None && !self.verbose && self.op is None),
    {
        self.port.is_none() && self.log.is_none() && !self.verbose && self.op.is_none()
    }
}

/// Options of the community store server.
#[derive(Debug)]
pub struct Cli {
    /// Root folder of the contributed setting files.
    pub folder: String,
    /// Server port.
    pub port: u16,
    /// Log file location.
    pub log: String,
}

} // verus!
