//! Printing to a file, with an optional echo on the terminal.

use crate::printer::{pretty_json, pretty_json_of, PrinterError};
use crate::text::text_of;
use vstd::prelude::*;

verus! {

/// The mathematical value of a [`FilePrinter`].
pub struct FilePrinterView {
    pub file_path: Option<Seq<char>>,
    pub also_print_to_terminal: bool,
}

/// What a file printer does with a response: the text for the terminal, if
/// the response is echoed, and the file with its content.
#[derive(Debug)]
pub struct FileOutput {
    pub echo: Option<String>,
    pub path: String,
    pub content: String,
}

/// The mathematical value of a [`FileOutput`].
pub struct FileOutputView {
    pub echo: Option<Seq<char>>,
    pub path: Seq<char>,
    pub content: Seq<char>,
}

impl View for FileOutput {
    type V = FileOutputView;

    open spec fn view(&self) -> FileOutputView {
        FileOutputView { echo: text_of(self.echo), path: self.path@, content: self.content@ }
    }
}

/// What a printer with a file path does with a rendering: the rendering goes
/// to the file, and to the terminal as well if the printer echoes.
pub open spec fn file_output(p: FilePrinterView, rendering: Seq<char>) -> FileOutputView {
    FileOutputView {
        echo: if p.also_print_to_terminal {
            Some(rendering)
        } else {
            None
        },
        path: p.file_path.unwrap(),
        content: rendering,
    }
}

/// What a printer does with a response, or the failure where the response
/// is no JSON document.
pub open spec fn file_result(p: FilePrinterView, rendering: Option<Seq<char>>) -> Result<
    FileOutputView,
    PrinterError,
> {
    match rendering {
        Some(text) => Ok(file_output(p, text)),
        None => Err(PrinterError::InvalidJson),
    }
}

/// The view of a printing result.
pub open spec fn output_view(r: Result<FileOutput, PrinterError>) -> Result<
    FileOutputView,
    PrinterError,
> {
    match r {
        Ok(o) => Ok(o@),
        Err(e) => Err(e),
    }
}

/// Prints responses to a file.
#[derive(Debug)]
pub struct FilePrinter {
    file_path: Option<String>,
    also_print_to_terminal: bool,
}

impl View for FilePrinter {
    type V = FilePrinterView;

    closed spec fn view(&self) -> FilePrinterView {
        FilePrinterView {
            file_path: text_of(self.file_path),
            also_print_to_terminal: self.also_print_to_terminal,
        }
    }
}

impl FilePrinter {
    /// A file printer without a file path.
    pub fn new(also_print_to_terminal: bool) -> (out: FilePrinter)
        ensures
            out@ == (FilePrinterView { file_path: None, also_print_to_terminal }),
    {
        FilePrinter { file_path: None, also_print_to_terminal }
    }

    /// Sets or clears the file path.
    pub fn set_file_path(&mut self, file_path: Option<String>)
        ensures
            final(self)@ == (FilePrinterView { file_path: text_of(file_path), ..old(self)@ }),
    {
        self.file_path = file_path;
    }

    /// Whether a file path is set, so that responses can be printed.
    pub fn has_file_path(&self) -> (out: bool)
        ensures
            out == self@.file_path is Some,
    {
        self.file_path.is_some()
    }

    /// What to do with a response whose pretty-printed form is `rendering`.
    /// A file path must be set.
    pub fn output(&self, rendering: String) -> (out: FileOutput)
        requires
            self@.file_path is Some,
        ensures
            out@ == file_output(self@, rendering@),
    {
        let echo = if self.also_print_to_terminal {
            Some(rendering.clone())
        } else {
            None
        };
        let path = match &self.file_path {
            Some(p) => p.clone(),
            None => String::new(),
        };
        FileOutput { echo, path, content: rendering }
    }

    /// What to do with a response. A file path must be set.
    pub fn print(&self, bytes: &[u8]) -> (out: Result<FileOutput, PrinterError>)
        requires
            self@.file_path is Some,
        ensures
            output_view(out) == file_result(self@, pretty_json_of(bytes@)),
    {
        match pretty_json(bytes) {
            Ok(text) => Ok(self.output(text)),
            Err(_) => Err(PrinterError::InvalidJson),
        }
    }
}

} // verus!
