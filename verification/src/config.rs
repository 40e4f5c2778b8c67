//! The program's configuration: which template, and where.
//!
//! `build` classifies a command line: a version, help or list request,
//! a malformed call, or a template identifier with a destination path.
//! It performs no input or output itself; the front end prints the text
//! each outcome calls for.  `run` resolves the configured template and
//! hands back the engine that will drive the run.

use vstd::prelude::*;

use crate::engine::Engine;
use crate::engine::ErrorV;
use crate::engine::PhaseV;
use crate::engine::ScaffoldError;
use crate::engine::engine_wf;
use crate::registry::find_template;
use crate::step::wf_template;
use crate::text::str_eq;

verus! {

/// Struct to manage the initial configuration of the application.
pub struct Config {
    pub template: String,
    pub path: String,
}

/// A call that asks for the program's version: exactly one argument,
/// the version flag.
pub open spec fn asks_version(args: Seq<String>) -> bool {
    args.len() == 2 && (args[1]@ == "-v"@ || args[1]@ == "--version"@)
}

/// A call that asks for the help text, anywhere on the line.
pub open spec fn asks_help(args: Seq<String>) -> bool {
    exists|i: int| 0 <= i < args.len() && (args[i]@ == "-h"@ || args[i]@ == "--help"@)
}

/// A call that asks for the template list, anywhere on the line.
pub open spec fn asks_list(args: Seq<String>) -> bool {
    exists|i: int| 0 <= i < args.len() && (args[i]@ == "-l"@ || args[i]@ == "--list"@)
}

/// Whether some argument equals the short or the long spelling of a
/// flag.
fn has_flag(args: &Vec<String>, short: &str, long: &str) -> (b: bool)
    ensures
        b == exists|i: int|
            0 <= i < args@.len() && (args@[i]@ == short@ || args@[i]@ == long@),
{
    let n = args.len();
    let mut i: usize = 0;
    while i < n
        invariant
            0 <= i <= n,
            n == args@.len(),
            forall|k: int| 0 <= k < i ==> args@[k]@ != short@ && args@[k]@ != long@,
        decreases n - i,
    {
        if str_eq(args[i].as_str(), short) || str_eq(args[i].as_str(), long) {
            return true;
        }
        i = i + 1;
    }
    false
}

impl Config {
    /// Classify the command line.
    ///
    /// A version request comes back as `Err("version")`, a help request
    /// as `Err("help")`, a list request as `Err("list")`, any other
    /// malformed call as `Err("bad usage")`; a well-formed call gives
    /// the template identifier and the destination path.
    pub fn build(args: &Vec<String>) -> (r: Result<Config, &'static str>)
        ensures
            match r {
                Ok(c) => {
                    &&& !asks_version(args@)
                    &&& !asks_help(args@)
                    &&& !asks_list(args@)
                    &&& args@.len() == 3
                    &&& c.template@ == args@[1]@
                    &&& c.path@ == args@[2]@
                },
                Err(e) => {
                    if asks_version(args@) {
                        e@ == "version"@
                    } else if asks_help(args@) {
                        e@ == "help"@
                    } else if asks_list(args@) {
                        e@ == "list"@
                    } else {
                        args@.len() != 3 && e@ == "bad usage"@
                    }
                },
            },
    {
        if args.len() == 2 && (str_eq(args[1].as_str(), "-v") || str_eq(
            args[1].as_str(),
            "--version",
        )) {
            return Err("version");
        }
        if has_flag(args, "-h", "--help") {
            return Err("help");
        }
        if has_flag(args, "-l", "--list") {
            return Err("list");
        }
        if args.len() != 3 {
            return Err("bad usage");
        }
        Ok(Config { template: args[1].clone(), path: args[2].clone() })
    }

    /// Resolve the configured template and start a run: the engine comes
    /// back ready to ask for the project root's name, or the identifier
    /// is refused as unknown.
    pub fn run(&self) -> (r: Result<Engine, ScaffoldError>)
        ensures
            match r {
                Ok(eng) => {
                    &&& find_template(self.template@) is Some
                    &&& eng@.steps == find_template(self.template@)->Some_0.steps
                    &&& wf_template(find_template(self.template@)->Some_0)
                    &&& eng@.dest == self.path@
                    &&& eng@.phase == PhaseV::AskName
                    &&& engine_wf(eng@)
                },
                Err(e) => e@ == ErrorV::UnknownTemplate && find_template(self.template@) is None,
            },
    {
        Engine::new(self.template.as_str(), self.path.as_str())
    }
}

} // verus!
