use vstd::prelude::*;
use vstd::string::StringExecFns;

verus! {

/// Which layers a command reads. At most one of the two is set.
#[derive(Debug, Clone, Copy, PartialEq, Eq, Structural)]
pub struct Args {
    /// Read the project's layer alone.
    pub local: bool,
    /// Read the user's layer alone.
    pub global: bool,
}

impl Default for Args {
    fn default() -> (args: Args)
        ensures
            args == (Args { local: false, global: false }),
    {
        Args { local: false, global: false }
    }
}

/// What the program is asked to do.
#[derive(Debug, Clone, Copy, PartialEq, Eq, Structural)]
pub enum Command {
    /// Resolve the configuration and report, but write nothing.
    Validate(Args),
    /// Resolve the configuration and write the manifests.
    Generate(Args),
    /// Convert an older configuration.
    Migrate,
    /// Print the version.
    Version,
}

impl Default for Command {
    fn default() -> (command: Command)
        ensures
            command == Command::Validate(Args { local: false, global: false }),
    {
        Command::Validate(Args::default())
    }
}

/// The command line.
#[derive(Debug, Clone, Copy, PartialEq, Eq, Structural)]
pub struct Cli {
    /// Whether to log in detail.
    pub debug: bool,
    /// The command, if one was given.
    pub command: Option<Command>,
}

/// The layers that a command names.
pub open spec fn args_of(command: Command) -> Option<Args> {
    match command {
        Command::Generate(args) => Some(args),
        Command::Validate(args) => Some(args),
        _ => None,
    }
}

/// The path of the user's configuration document below the home directory `home`.
pub open spec fn home_config_path(home: Seq<char>) -> Seq<char> {
    home + "/.kiro/generators/kg.toml"@
}

impl Cli {
    /// The command that was given, or the default: to validate both layers.
    pub fn command(&self) -> (command: Command)
        ensures
            command == match self.command {
                Some(c) => c,
                None => Command::Validate(Args { local: false, global: false }),
            },
    {
        match &self.command {
            Some(command) => *command,
            None => Command::default(),
        }
    }

    /// Whether the command writes nothing.
    pub fn dry_run(&self, command: &Command) -> (b: bool)
        ensures
            b == (*command is Validate),
    {
        match command {
            Command::Validate(_) => true,
            _ => false,
        }
    }

    /// Whether the command reads the project's layer alone.
    pub fn is_local(&self, command: &Command) -> (b: bool)
        ensures
            b == match args_of(*command) {
                Some(args) => args.local,
                None => false,
            },
    {
        match command {
            Command::Generate(args) => args.local,
            Command::Validate(args) => args.local,
            _ => false,
        }
    }

    /// Whether the command reads the user's layer alone.
    pub fn is_global(&self, command: &Command) -> (b: bool)
        ensures
            b == match args_of(*command) {
                Some(args) => args.global,
                None => false,
            },
    {
        match command {
            Command::Generate(args) => args.global,
            Command::Validate(args) => args.global,
            _ => false,
        }
    }

    /// The home directory and the path of the user's configuration document below
    /// it, where the home directory `home` is known.
    pub fn config(&self, home: Option<&str>) -> (r: Option<(String, String)>)
        ensures
            match home {
                Some(h) => r is Some && r->Some_0.0@ == h@ && r->Some_0.1@ == home_config_path(
                    h@,
                ),
                None => r is None,
            },
    {
        match home {
            Some(h) => Some(
                (String::from_str(h), String::from_str(h).concat("/.kiro/generators/kg.toml")),
            ),
            None => None,
        }
    }
}

} // verus!
