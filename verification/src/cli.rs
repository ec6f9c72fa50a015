//! The command line of the installer, as plain values.
use crate::install::Installation;
use vstd::prelude::*;

verus! {

/// What `install` can install.
#[derive(Debug, Clone, Copy, PartialEq, Eq, Structural)]
pub enum InstallCommands {
    /// The loader for a player.
    Client,
    /// The loader for a dedicated server.
    Server,
}

/// The arguments of `install`.
#[derive(Debug, Clone, Copy, PartialEq, Eq, Structural)]
pub struct Install {
    /// What to install.
    pub command: InstallCommands,
}

/// The commands of the installer.
#[derive(Debug, Clone, Copy, PartialEq, Eq, Structural)]
pub enum Commands {
    /// Install the loader.
    Install(Install),
}

/// The command line: one command, and whether to run without a window.
#[derive(Debug, Clone, Copy, PartialEq, Eq, Structural)]
pub struct Cli {
    command: Commands,
    no_gui: bool,
}

impl Cli {
    /// The model of this command line: its command, and whether it asks to
    /// run without a window.
    pub closed spec fn model(&self) -> (Commands, bool) {
        (self.command, self.no_gui)
    }

    /// The command line that gives `command`, with or without `--no-gui`.
    pub fn new(command: Commands, no_gui: bool) -> (cli: Cli)
        ensures
            cli.model() == (command, no_gui),
    {
        Cli { command, no_gui }
    }

    /// The command that was given.
    pub fn command(&self) -> (command: Commands)
        ensures
            command == self.model().0,
    {
        self.command
    }

    /// Whether the installer is to run without a window.
    pub fn no_gui(&self) -> (no_gui: bool)
        ensures
            no_gui == self.model().1,
    {
        self.no_gui
    }

    /// The kind of installation that the command line asks for.
    pub fn installation(&self) -> (installation: Installation)
        ensures
            installation == match self.model().0 {
                Commands::Install(install) => match install.command {
                    InstallCommands::Client => Installation::Client,
                    InstallCommands::Server => Installation::Server,
                },
            },
    {
        match self.command {
            Commands::Install(install) => match install.command {
                InstallCommands::Client => Installation::Client,
                InstallCommands::Server => Installation::Server,
            },
        }
    }
}

} // verus!
