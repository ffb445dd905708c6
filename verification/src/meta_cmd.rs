//! Meta commands: session commands starting with a dot.

use crate::error::res_view;
use crate::text::{spec_split_ws, split_ws, str_eq};
use vstd::prelude::*;
use vstd::string::*;

verus! {

/// A meta command could not be understood.
#[derive(Debug)]
pub enum MetaCmdError {
    UnknownCommand { cmd: String },
    InvalidUsage { correct_usage: &'static str },
}

/// The mathematical value of a [`MetaCmdError`].
pub enum MetaCmdErrorV {
    UnknownCommand { cmd: Seq<char> },
    InvalidUsage { correct_usage: Seq<char> },
}

impl View for MetaCmdError {
    type V = MetaCmdErrorV;

    open spec fn view(&self) -> MetaCmdErrorV {
        match self {
            MetaCmdError::UnknownCommand { cmd } => MetaCmdErrorV::UnknownCommand { cmd: cmd@ },
            MetaCmdError::InvalidUsage { correct_usage } => MetaCmdErrorV::InvalidUsage {
                correct_usage: correct_usage@,
            },
        }
    }
}

impl DeepView for MetaCmdError {
    type V = MetaCmdErrorV;

    open spec fn deep_view(&self) -> MetaCmdErrorV {
        self.view()
    }
}

/// The recognised meta commands.
#[derive(Debug, Copy, Clone, PartialEq, Eq, Structural)]
pub enum MetaCmd {
    Help,
    /// When enabled, the AST of each parsed SQL statement is printed.
    Ast(bool),
    Timer(bool),
}

impl View for MetaCmd {
    type V = MetaCmd;

    open spec fn view(&self) -> MetaCmd {
        *self
    }
}

impl DeepView for MetaCmd {
    type V = MetaCmd;

    open spec fn deep_view(&self) -> MetaCmd {
        *self
    }
}

impl MetaCmd {
    /// The usage string of this command.
    pub fn usage(&self) -> (r: &'static str)
        ensures
            r@ == match *self {
                MetaCmd::Help => ".help"@,
                MetaCmd::Ast(_) => ".ast on | off"@,
                MetaCmd::Timer(_) => ".timer on | off"@,
            },
    {
        match self {
            MetaCmd::Help => ".help",
            MetaCmd::Ast(_) => ".ast on | off",
            MetaCmd::Timer(_) => ".timer on | off",
        }
    }

    /// The description string of this command.
    pub fn desc(&self) -> (r: &'static str)
        ensures
            r@ == match *self {
                MetaCmd::Help => "Show help text"@,
                MetaCmd::Ast(_) => "Print AST for each SQL if enabled"@,
                MetaCmd::Timer(_) => "Turn SQL timer on or off"@,
            },
    {
        match self {
            MetaCmd::Help => "Show help text",
            MetaCmd::Ast(_) => "Print AST for each SQL if enabled",
            MetaCmd::Timer(_) => "Turn SQL timer on or off",
        }
    }

    /// The output of `.help`: every command's usage, padded to thirty
    /// characters, then its description, one line per command.
    pub fn help_str(&self) -> (r: String)
        ensures
            r@
                == ".help                          Show help text\n.ast on | off                  Print AST for each SQL if enabled\n.timer on | off                Turn SQL timer on or off\n"@,
    {
        String::from_str(
            ".help                          Show help text\n.ast on | off                  Print AST for each SQL if enabled\n.timer on | off                Turn SQL timer on or off\n",
        )
    }
}


/// What a tokenized meta command means.  The first token selects the
/// command; `.ast` and `.timer` take `on` or `off`.
pub open spec fn spec_meta_parse(toks: Seq<Seq<char>>) -> Result<MetaCmd, MetaCmdErrorV>
    recommends
        toks.len() >= 1,
{
    let cmd = toks[0];
    if cmd == ".help"@ {
        Ok(MetaCmd::Help)
    } else if cmd == ".ast"@ {
        if toks.len() < 2 {
            Err(MetaCmdErrorV::InvalidUsage { correct_usage: ".ast on | off"@ })
        } else if toks[1] == "on"@ {
            Ok(MetaCmd::Ast(true))
        } else if toks[1] == "off"@ {
            Ok(MetaCmd::Ast(false))
        } else {
            Err(MetaCmdErrorV::InvalidUsage { correct_usage: ".timer on | off"@ })
        }
    } else if cmd == ".timer"@ {
        if toks.len() < 2 {
            Err(MetaCmdErrorV::InvalidUsage { correct_usage: ".timer on | off"@ })
        } else if toks[1] == "on"@ {
            Ok(MetaCmd::Timer(true))
        } else if toks[1] == "off"@ {
            Ok(MetaCmd::Timer(false))
        } else {
            Err(MetaCmdErrorV::InvalidUsage { correct_usage: ".timer on | off"@ })
        }
    } else {
        Err(MetaCmdErrorV::UnknownCommand { cmd })
    }
}

impl MetaCmd {
    /// Parse a meta command line; it must hold at least one token.
    pub fn parse(s: &str) -> (r: Result<MetaCmd, MetaCmdError>)
        requires
            spec_split_ws(s@).len() >= 1,
        ensures
            res_view(r) == spec_meta_parse(spec_split_ws(s@)),
    {
        let tokens = split_ws(s);
        proof {
            assert(tokens.deep_view().len() == tokens@.len());
            assert(tokens.deep_view()[0] == tokens@[0]@);
        }
        let cmd = &tokens[0];
        if str_eq(cmd.as_str(), ".help") {
            return Ok(MetaCmd::Help);
        }
        if str_eq(cmd.as_str(), ".ast") {
            if tokens.len() < 2 {
                return Err(MetaCmdError::InvalidUsage { correct_usage: ".ast on | off" });
            }
            proof {
                assert(tokens.deep_view()[1] == tokens@[1]@);
            }
            let val = &tokens[1];
            if str_eq(val.as_str(), "on") {
                return Ok(MetaCmd::Ast(true));
            }
            if str_eq(val.as_str(), "off") {
                return Ok(MetaCmd::Ast(false));
            }
            return Err(MetaCmdError::InvalidUsage { correct_usage: ".timer on | off" });
        }
        if str_eq(cmd.as_str(), ".timer") {
            if tokens.len() < 2 {
                return Err(MetaCmdError::InvalidUsage { correct_usage: ".timer on | off" });
            }
            proof {
                assert(tokens.deep_view()[1] == tokens@[1]@);
            }
            let val = &tokens[1];
            if str_eq(val.as_str(), "on") {
                return Ok(MetaCmd::Timer(true));
            }
            if str_eq(val.as_str(), "off") {
                return Ok(MetaCmd::Timer(false));
            }
            return Err(MetaCmdError::InvalidUsage { correct_usage: ".timer on | off" });
        }
        Err(MetaCmdError::UnknownCommand { cmd: cmd.clone() })
    }
}


/// The session settings after a meta command: `.ast` and `.timer` set
/// their flags; `.help` changes nothing (the embedder prints
/// [`MetaCmd::help_str`]).
pub open spec fn spec_meta_apply(cmd: MetaCmd, c: crate::config::ConfigV) -> crate::config::ConfigV {
    match cmd {
        MetaCmd::Help => c,
        MetaCmd::Ast(v) => crate::config::ConfigV { show_ast: v, timer: c.timer, data_path: c.data_path },
        MetaCmd::Timer(v) => crate::config::ConfigV {
            show_ast: c.show_ast,
            timer: v,
            data_path: c.data_path,
        },
    }
}

impl MetaCmd {
    /// Apply this meta command to the session's settings.
    pub fn execute(&self, ctx: &mut crate::ctx::Context)
        ensures
            final (ctx).config@ == spec_meta_apply(*self, old(ctx).config@),
            final (ctx).catalog == old(ctx).catalog,
            final (ctx).storage == old(ctx).storage,
    {
        match self {
            MetaCmd::Help => {},
            MetaCmd::Ast(val) => {
                ctx.config.show_ast = *val;
            },
            MetaCmd::Timer(val) => {
                ctx.config.timer = *val;
            },
        }
    }
}

} // verus!
