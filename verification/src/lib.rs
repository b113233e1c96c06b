//! A small verified library: a configured text processor, the pure core of a
//! file-to-file command line tool, and a few arithmetic helpers.

pub mod calculator;
pub mod cli;
pub mod doubling;
pub mod error;
pub mod processor;
pub mod text;

pub use calculator::Calculator;
pub use cli::{App, Args, Config, OutputAction};
pub use doubling::operation;
pub use error::LibError;
pub use processor::{MyLib, Processor};
