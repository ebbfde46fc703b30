//! Where a response goes and what is written there.

pub mod file_printer;
pub mod terminal_printer;

use crate::config::types::GemonPrinter;
use crate::config::GemonConfig;
use crate::printer::file_printer::{FilePrinter, FilePrinterView};
use crate::printer::terminal_printer::TerminalPrinter;
use vstd::prelude::*;

verus! {

/// The error type of `serde_json`. Values of it are told from success and
/// never inspected.
#[verifier::external_type_specification]
#[verifier::external_body]
pub struct ExJsonError(serde_json::Error);

/// The pretty-printed form of the JSON document that the bytes hold, as
/// `serde_json` renders it; `None` where the bytes hold no JSON document.
pub uninterp spec fn pretty_json_of(bytes: Seq<u8>) -> Option<Seq<char>>;

/// Parses the bytes with `serde_json::from_slice` into a `serde_json::Value`
/// and renders the value with `serde_json::to_string_pretty`. Both depend on
/// the bytes alone, so the result has a name; an error of either call means
/// that there is no rendering.
#[verifier::external_body]
pub(crate) fn pretty_json(bytes: &[u8]) -> (out: Result<String, serde_json::Error>)
    ensures
        match out {
            Ok(text) => pretty_json_of(bytes@) == Some(text@),
            Err(_) => pretty_json_of(bytes@) is None,
        },
{
    let value: serde_json::Value = serde_json::from_slice(bytes)?;
    serde_json::to_string_pretty(&value)
}

/// A response could not be printed.
#[derive(Debug, Clone, Copy, PartialEq, Eq, Structural)]
pub enum PrinterError {
    /// The response is no JSON document.
    InvalidJson,
}

/// The printer that a configuration selects.
#[derive(Debug)]
pub enum SelectedPrinter {
    Terminal(TerminalPrinter),
    File(FilePrinter),
}

/// Selects the printer of a configuration.
pub struct PrinterBuilder {}

impl PrinterBuilder {
    /// The terminal printer, or the file printer with the response file and
    /// the echo flag of the configuration.
    pub fn build(config: &GemonConfig) -> (out: SelectedPrinter)
        ensures
            match out {
                SelectedPrinter::Terminal(_) => config@.printer == GemonPrinter::Terminal,
                SelectedPrinter::File(p) => config@.printer == GemonPrinter::File && p@ == (
                FilePrinterView {
                    file_path: config@.response_file_path,
                    also_print_to_terminal: config@.also_print_to_terminal,
                }),
            },
    {
        match config.gemon_printer() {
            GemonPrinter::Terminal => SelectedPrinter::Terminal(TerminalPrinter::new()),
            GemonPrinter::File => {
                let mut file_printer = FilePrinter::new(config.gemon_also_print_to_terminal());
                file_printer.set_file_path(config.gemon_response_file_path());
                SelectedPrinter::File(file_printer)
            },
        }
    }
}

} // verus!
