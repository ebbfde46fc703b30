//! Printing to the terminal.

use crate::printer::{pretty_json, pretty_json_of, PrinterError};
use vstd::prelude::*;
use vstd::string::StringSliceAdditionalSpecFns;

verus! {

/// What the terminal shows for a response: its pretty-printed form, or the
/// failure where it is no JSON document.
pub open spec fn terminal_text(rendering: Option<Seq<char>>) -> Result<Seq<char>, PrinterError> {
    match rendering {
        Some(text) => Ok(text),
        None => Err(PrinterError::InvalidJson),
    }
}

/// The view of a rendering result.
pub open spec fn rendered_view(r: Result<String, PrinterError>) -> Result<Seq<char>, PrinterError> {
    match r {
        Ok(text) => Ok(text@),
        Err(e) => Err(e),
    }
}

/// Prints responses to the terminal.
#[derive(Debug)]
pub struct TerminalPrinter {}

impl TerminalPrinter {
    /// A terminal printer.
    pub fn new() -> (out: TerminalPrinter) {
        TerminalPrinter {  }
    }

    /// The text to show for a response.
    pub fn print(&self, bytes: &[u8]) -> (out: Result<String, PrinterError>)
        ensures
            rendered_view(out) == terminal_text(pretty_json_of(bytes@)),
    {
        match pretty_json(bytes) {
            Ok(text) => Ok(text),
            Err(_) => Err(PrinterError::InvalidJson),
        }
    }

    /// The text to show for a response that is held as text.
    pub fn print_string(&self, path: &str) -> (out: Result<String, PrinterError>)
        ensures
            rendered_view(out) == terminal_text(pretty_json_of(path.spec_bytes())),
    {
        self.print(path.as_bytes())
    }
}

} // verus!
