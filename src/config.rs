use vstd::prelude::*;

verus! {

/// What a search run needs: the text to look for, the file to look in, and
/// whether case is ignored.
pub struct Config {
    pub query: String,
    pub file_path: String,
    pub ignore_case: bool,
}

/// Why the command-line arguments do not make a `Config`.
#[derive(Clone, Copy, Debug, PartialEq, Eq, Structural)]
pub enum ConfigError {
    MissingQuery,
    MissingFilePath,
}

impl ConfigError {
    /// The message shown to the user.
    pub fn message(&self) -> (r: &'static str)
        ensures
            *self == ConfigError::MissingQuery ==> r@ == "Could not find query to search for."@,
            *self == ConfigError::MissingFilePath ==> r@
                == "Could not find file path to search in."@,
    {
        match self {
            ConfigError::MissingQuery => "Could not find query to search for.",
            ConfigError::MissingFilePath => "Could not find file path to search in.",
        }
    }
}

impl Config {
    /// Reads the query from `args[1]` and the file path from `args[2]`;
    /// `args[0]`, the program's name, and anything after the path are not read.
    pub fn build(args: &Vec<String>, ignore_case: bool) -> (r: Result<Config, ConfigError>)
        ensures
            args@.len() < 2 ==> r == Err::<Config, ConfigError>(ConfigError::MissingQuery),
            args@.len() == 2 ==> r == Err::<Config, ConfigError>(ConfigError::MissingFilePath),
            r is Ok <==> args@.len() >= 3,
            r matches Ok(c) ==> c.query@ == args@[1]@ && c.file_path@ == args@[2]@
                && c.ignore_case == ignore_case,
    {
        if args.len() < 2 {
            return Err(ConfigError::MissingQuery);
        }
        if args.len() < 3 {
            return Err(ConfigError::MissingFilePath);
        }
        let query = args[1].clone();
        let file_path = args[2].clone();
        Ok(Config { query, file_path, ignore_case })
    }
}

} // verus!
