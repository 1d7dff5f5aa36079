//! The configuration of one search, resolved from the invocation arguments.

use vstd::prelude::*;

verus! {

/// An argument that the invocation is expected to carry, by its place.
#[derive(Clone, Copy, Debug, PartialEq, Eq, Structural)]
pub enum Argument {
    /// The program's own name, first of all arguments.
    Program,
    /// The text to search for.
    Query,
    /// The path of the file to search in.
    Filename,
}

/// Why no configuration could be resolved.
#[derive(Clone, Copy, Debug, PartialEq, Eq, Structural)]
pub enum ConfigError {
    /// The arguments ended before this one was reached.
    MissingArgument(Argument),
}

impl ConfigError {
    /// The diagnostic for this error.
    pub fn message(&self) -> (text: &'static str)
        ensures
            *self == ConfigError::MissingArgument(Argument::Program) ==> text@
                == "An empty iterator was passed"@,
            *self == ConfigError::MissingArgument(Argument::Query) ==> text@
                == "Didn't get a query string"@,
            *self == ConfigError::MissingArgument(Argument::Filename) ==> text@
                == "Didn't get a filename string"@,
    {
        match self {
            ConfigError::MissingArgument(Argument::Program) => "An empty iterator was passed",
            ConfigError::MissingArgument(Argument::Query) => "Didn't get a query string",
            ConfigError::MissingArgument(Argument::Filename) => "Didn't get a filename string",
        }
    }
}

/// What one search needs: what to look for, where, and how to compare.
#[derive(Debug, PartialEq, Eq)]
pub struct Config {
    /// The text to search for.
    pub query: String,
    /// The path of the file to search in.
    pub filename: String,
    /// Whether letter case counts in the comparison.
    pub case_sensitive: bool,
}

impl Config {
    /// Resolves the configuration from the invocation arguments, the
    /// program's name first, and from whether the environment asks for a
    /// case-insensitive search. Three arguments are expected: the program's
    /// name, the query and the file name. The first of them that is missing
    /// is the error; arguments after the third are not looked at.
    pub fn new(args: &[String], case_insensitive: bool) -> (resolved: Result<Config, ConfigError>)
        ensures
            args@.len() == 0 ==> resolved == Err::<Config, ConfigError>(
                ConfigError::MissingArgument(Argument::Program),
            ),
            args@.len() == 1 ==> resolved == Err::<Config, ConfigError>(
                ConfigError::MissingArgument(Argument::Query),
            ),
            args@.len() == 2 ==> resolved == Err::<Config, ConfigError>(
                ConfigError::MissingArgument(Argument::Filename),
            ),
            args@.len() >= 3 ==> (resolved matches Ok(config) && config.query@ == args@[1]@
                && config.filename@ == args@[2]@ && config.case_sensitive == !case_insensitive),
    {
        if args.len() == 0 {
            return Err(ConfigError::MissingArgument(Argument::Program));
        }
        if args.len() == 1 {
            return Err(ConfigError::MissingArgument(Argument::Query));
        }
        if args.len() == 2 {
            return Err(ConfigError::MissingArgument(Argument::Filename));
        }
        Ok(Config {
            query: args[1].clone(),
            filename: args[2].clone(),
            case_sensitive: !case_insensitive,
        })
    }
}

} // verus!
