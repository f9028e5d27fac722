//! The command-line surface, as plain data: the subcommand tree and
//! the arguments of the web installation. The binary parses the real
//! command line into copies of these and converts; the library only
//! sees the resolved values.

use vstd::prelude::*;

verus! {

use crate::Mode;
use crate::pipeline::Pipeline;
use crate::pipeline::spec_init;

/// Arguments of the web installation subcommand.
pub struct WebInstallArgs {
    /// Install in development mode.
    pub dev: bool,
    /// The API server URL; prompted for interactively when absent.
    pub api_url: Option<String>,
}

/// The installation subcommands.
pub enum InstallCommands {
    Web(WebInstallArgs),
}

/// The top-level subcommands.
pub enum Commands {
    Install { command: InstallCommands },
}

/// The parsed command line.
pub struct Cli {
    pub command: Commands,
}

impl Cli {
    /// Dispatches the parsed command line to the web installation
    /// arguments — the only command family there is.
    pub fn into_web_args(self) -> (r: WebInstallArgs)
        ensures
            self.command matches Commands::Install {
                command: InstallCommands::Web(args) } ==> r == args,
    {
        match self.command {
            Commands::Install { command: InstallCommands::Web(args) } => args,
        }
    }
}

/// The installation mode selected by the `dev` flag.
pub open spec fn spec_mode_of(dev: bool) -> Mode {
    if dev {
        Mode::Development
    } else {
        Mode::Production
    }
}

impl WebInstallArgs {
    /// The installation mode these arguments select: development when
    /// the flag is given, production otherwise.
    pub fn mode(&self) -> (m: Mode)
        ensures
            m == spec_mode_of(self.dev),
    {
        if self.dev {
            Mode::Development
        } else {
            Mode::Production
        }
    }

    /// The pipeline answering these arguments.
    pub fn into_pipeline(self) -> (p: Pipeline)
        ensures
            p == spec_init(spec_mode_of(self.dev), self.api_url),
    {
        let mode = self.mode();
        Pipeline::new(mode, self.api_url)
    }
}

} // verus!
