//! Session configuration.

use vstd::prelude::*;

verus! {

/// User-visible session settings.
#[derive(Debug)]
pub struct Config {
    /// Print the parse tree of each statement.
    pub show_ast: bool,
    /// Print the elapsed time after each statement.
    pub timer: bool,
    /// The data directory.
    pub data_path: String,
}

/// The mathematical value of a [`Config`].
pub struct ConfigV {
    pub show_ast: bool,
    pub timer: bool,
    pub data_path: Seq<char>,
}

impl View for Config {
    type V = ConfigV;

    open spec fn view(&self) -> ConfigV {
        ConfigV { show_ast: self.show_ast, timer: self.timer, data_path: self.data_path@ }
    }
}

impl Config {
    /// Create a configuration: AST printing off, the timer on.
    pub fn new(data_path: String) -> (r: Config)
        ensures
            r@ == (ConfigV { show_ast: false, timer: true, data_path: data_path@ }),
    {
        Config { show_ast: false, timer: true, data_path }
    }
}

} // verus!
