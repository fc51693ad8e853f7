//! How much the commands report, passed explicitly to every caller.
use vstd::prelude::*;

verus! {

#[derive(Debug)]
pub struct Config {
    pub silent: bool,
    pub verbose: bool,
}

impl Config {
    pub fn new(silent: bool, verbose: bool) -> (r: Config)
        ensures
            r.silent == silent,
            r.verbose == verbose,
    {
        Config { silent, verbose }
    }

    /// Whether ordinary messages are shown: all but in silent mode.
    pub fn shows_normal(&self) -> (r: bool)
        ensures
            r == !self.silent,
    {
        !self.silent
    }

    /// Whether detailed messages are shown: only in verbose mode.
    pub fn shows_verbose(&self) -> (r: bool)
        ensures
            r == self.verbose,
    {
        self.verbose
    }

    /// Whether warnings are shown: all but in silent mode.
    pub fn shows_warnings(&self) -> (r: bool)
        ensures
            r == !self.silent,
    {
        !self.silent
    }
}

} // verus!
