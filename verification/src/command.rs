//! The command line with which `hypridle` is started.

use crate::config::{Config, ConfigView};
use crate::power::PowerSource;
use vstd::prelude::*;
use vstd::string::StringExecFns;

verus! {

/// A program and the arguments it is started with, in order.
pub struct CommandLine {
    pub program: String,
    pub args: Vec<String>,
}

/// A command line as mathematical values.
pub struct CommandLineView {
    pub program: Seq<char>,
    pub args: Seq<Seq<char>>,
}

impl View for CommandLine {
    type V = CommandLineView;

    open spec fn view(&self) -> CommandLineView {
        CommandLineView { program: self.program@, args: self.args.deep_view() }
    }
}

/// The command that starts `hypridle` for a power source: the program
/// `hypridle`, the flag `-c` with the configuration path of that source, and
/// the flag `-q` after them exactly when the configuration asks for quiet.
pub open spec fn hypridle_command_for(config: ConfigView, source: PowerSource) -> CommandLineView {
    CommandLineView {
        program: "hypridle"@,
        args: if config.hypridle_quiet {
            seq!["-c"@, config.conf_path(source), "-q"@]
        } else {
            seq!["-c"@, config.conf_path(source)]
        },
    }
}

/// Builds the command that starts `hypridle` for the given value of the
/// service's "on battery" property.
pub fn hypridle_command(on_battery: bool, config: &Config) -> (command: CommandLine)
    ensures
        command@ == hypridle_command_for(config@, PowerSource::of(on_battery)),
{
    let source = PowerSource::from_on_battery(on_battery);
    let mut args: Vec<String> = Vec::new();
    args.push(String::from_str("-c"));
    args.push(config.conf_path(source).clone());
    if config.hypridle_quiet {
        args.push(String::from_str("-q"));
    }
    let command = CommandLine { program: String::from_str("hypridle"), args };
    assert(command@.args =~= hypridle_command_for(config@, source).args);
    command
}

} // verus!
