//! The configured text processor and the trait it is an instance of.

use crate::error::LibError;
use crate::text::{trim, trimmed};
use vstd::prelude::*;

verus! {

/// The text that processing makes of `input`: a fixed label, then the input
/// without the white space around it.
pub open spec fn labelled(input: Seq<char>) -> Seq<char> {
    "PROCESSED: "@ + trimmed(input)
}

/// The one-line description of a processor whose configuration is `config`.
pub open spec fn described(config: Seq<char>) -> Seq<char> {
    "MyLib(config: "@ + config + ")"@
}

/// Anything that can process a piece of text. Implementations decide what
/// processing means and when it fails.
pub trait Processor {
    /// Processes `input`.
    fn process(&self, input: &str) -> (r: Result<String, LibError>);
}

/// A text processor with a configuration, which is never empty.
#[derive(Debug)]
pub struct MyLib {
    config: String,
}

impl View for MyLib {
    type V = Seq<char>;

    /// A processor is known by its configuration.
    closed spec fn view(&self) -> Seq<char> {
        self.config@
    }
}

impl MyLib {
    #[verifier::type_invariant]
    spec fn configured(self) -> bool {
        self.config@.len() > 0
    }

    /// Creates a processor with the given configuration. An empty
    /// configuration is rejected as invalid input.
    pub fn new(config: &str) -> (r: Result<MyLib, LibError>)
        ensures
            match r {
                Ok(lib) => config@.len() > 0 && lib@ == config@,
                Err(LibError::InvalidInput(reason)) => config@.len() == 0 && reason@
                    == "config cannot be empty"@,
                Err(_) => false,
            },
    {
        if config.is_empty() {
            return Err(LibError::InvalidInput(String::from_str("config cannot be empty")));
        }
        Ok(MyLib { config: config.to_owned() })
    }

    /// Processes `input`: the result is the input, trimmed of the white space
    /// around it, behind a fixed label. Empty input is rejected as invalid;
    /// input made of white space alone is not, and leaves the label by itself.
    pub fn process(&self, input: &str) -> (r: Result<String, LibError>)
        ensures
            match r {
                Ok(output) => input@.len() > 0 && output@ == labelled(input@),
                Err(LibError::InvalidInput(reason)) => input@.len() == 0 && reason@
                    == "input cannot be empty"@,
                Err(_) => false,
            },
    {
        if input.is_empty() {
            return Err(LibError::InvalidInput(String::from_str("input cannot be empty")));
        }
        Ok(String::from_str("PROCESSED: ").concat(trim(input)))
    }

    /// Returns the configuration.
    pub fn config(&self) -> (config: &str)
        ensures
            config@ == self@,
            config@.len() > 0,
    {
        proof {
            use_type_invariant(self);
        }
        self.config.as_str()
    }

    /// Describes the processor in one line.
    pub fn to_string(&self) -> (text: String)
        ensures
            text@ == described(self@),
    {
        String::from_str("MyLib(config: ").concat(self.config.as_str()).concat(")")
    }
}

impl Clone for MyLib {
    /// The copy has the same configuration.
    fn clone(&self) -> (copy: MyLib)
        ensures
            copy@ == self@,
    {
        proof {
            use_type_invariant(self);
        }
        MyLib { config: self.config.clone() }
    }
}

impl Processor for MyLib {
    /// Processes `input` exactly as [`MyLib::process`] does.
    fn process(&self, input: &str) -> (r: Result<String, LibError>)
        ensures
            match r {
                Ok(output) => input@.len() > 0 && output@ == labelled(input@),
                Err(LibError::InvalidInput(reason)) => input@.len() == 0 && reason@
                    == "input cannot be empty"@,
                Err(_) => false,
            },
    {
        MyLib::process(self, input)
    }
}

} // verus!
