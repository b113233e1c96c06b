//! The pure core of the command line tool: from the parsed arguments to the
//! settings of a run, and from the text that was read to what is to be
//! written where. Reading and writing themselves are left to the caller.

use crate::error::LibError;
use crate::text::uppercase_of;
use vstd::prelude::*;

verus! {

/// The command line, once parsed.
#[derive(Debug)]
pub struct Args {
    /// Input file path.
    pub input: String,
    /// Output file path; standard output when absent.
    pub output: Option<String>,
    /// Verbose mode.
    pub verbose: bool,
    /// Configuration file.
    pub config: String,
}

/// The settings of one run.
#[derive(Debug)]
pub struct Config {
    /// Path of the file to read.
    pub input: String,
    /// Path of the file to write; standard output when absent.
    pub output: Option<String>,
    /// Path of the configuration file.
    pub config_path: String,
}

impl Config {
    /// Takes the settings of a run from the parsed command line. The verbosity
    /// flag is not a setting of the run and is left behind.
    pub fn from_args(args: Args) -> (config: Config)
        ensures
            config.input == args.input,
            config.output == args.output,
            config.config_path == args.config,
    {
        Config { input: args.input, output: args.output, config_path: args.config }
    }
}

/// What the caller has to do to deliver the result of a run.
#[derive(Debug)]
pub enum OutputAction {
    /// Replace the contents of the file at `path` with `data`.
    WriteFile { path: String, data: String },
    /// Print `data`, followed by a line break, on standard output.
    PrintLine { data: String },
}

impl OutputAction {
    /// Whether this action delivers exactly `data` to the place that `output`
    /// designates: the file at that path, or standard output when there is
    /// none.
    pub open spec fn delivers(&self, output: Option<String>, data: Seq<char>) -> bool {
        match output {
            Some(target) => self matches OutputAction::WriteFile { path, data: written }
                && path@ == target@ && written@ == data,
            None => self matches OutputAction::PrintLine { data: printed } && printed@ == data,
        }
    }
}

/// The text that a run produces from the text it has read: empty input stays
/// as it is, anything else is put in upper case.
pub open spec fn processed(input: Seq<char>) -> Seq<char> {
    if input.len() == 0 {
        input
    } else {
        uppercase_of(input)
    }
}

/// The application: its settings, and the steps of a run that need no access
/// to the outside world.
#[derive(Debug)]
pub struct App {
    config: Config,
}

impl App {
    /// The settings this application runs with.
    pub closed spec fn settings(&self) -> Config {
        self.config
    }

    /// Creates the application for the given settings.
    pub fn new(config: Config) -> (app: App)
        ensures
            app.settings() == config,
    {
        App { config }
    }

    /// Returns the settings this application runs with.
    pub fn config(&self) -> (config: &Config)
        ensures
            *config == self.settings(),
    {
        &self.config
    }

    /// Turns the text that was read into the text to be written. This step
    /// never fails.
    pub fn process(&self, input: &str) -> (r: Result<String, LibError>)
        ensures
            r matches Ok(output) && output@ == processed(input@),
    {
        if input.is_empty() {
            return Ok(input.to_owned());
        }
        let output = input.to_uppercase();
        Ok(output)
    }

    /// Decides where `data` goes: into the output file if the settings name
    /// one, to standard output otherwise.
    pub fn write_output(&self, data: &str) -> (action: OutputAction)
        ensures
            action.delivers(self.settings().output, data@),
    {
        match &self.config.output {
            Some(path) => OutputAction::WriteFile { path: path.clone(), data: data.to_owned() },
            None => OutputAction::PrintLine { data: data.to_owned() },
        }
    }

    /// Runs the application on the text that was read from the input file:
    /// processes it and decides where the result goes. A run never fails once
    /// its input has been read.
    pub fn run(&self, input: &str) -> (r: Result<OutputAction, LibError>)
        ensures
            r matches Ok(action) && action.delivers(self.settings().output, processed(input@)),
    {
        let output = self.process(input)?;
        Ok(self.write_output(output.as_str()))
    }
}

} // verus!
