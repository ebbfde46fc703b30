use gemon::config::arguments::GemonArguments;
use gemon::config::GemonConfig;
use gemon::misc::Misc;
use gemon::config::types::MiscScenario;
use gemon::printer::file_printer::FilePrinter;
use gemon::printer::terminal_printer::TerminalPrinter;
use gemon::printer::{PrinterBuilder, PrinterError, SelectedPrinter};

fn config(list: &[&str]) -> GemonConfig {
    let arguments = GemonArguments::new(list.iter().map(|t| t.to_string()).collect()).unwrap();
    GemonConfig::new(&arguments).unwrap()
}

#[test]
fn terminal_printer_renders_pretty_json() {
    let out = TerminalPrinter::new().print(b"{\"b\":[1,2],\"a\":null}").unwrap();
    assert_eq!(out, "{\n  \"a\": null,\n  \"b\": [\n    1,\n    2\n  ]\n}");
}

#[test]
fn terminal_printer_renders_text() {
    let out = TerminalPrinter::new().print_string(" {\"a\" : 1 } ").unwrap();
    assert_eq!(out, "{\n  \"a\": 1\n}");
    assert_eq!(TerminalPrinter::new().print_string("true").unwrap(), "true");
}

#[test]
fn what_is_no_json_is_not_printed() {
    assert_eq!(TerminalPrinter::new().print(b"<html>").unwrap_err(), PrinterError::InvalidJson);
    assert_eq!(TerminalPrinter::new().print(b"").unwrap_err(), PrinterError::InvalidJson);
    assert_eq!(TerminalPrinter::new().print_string("{\"a\":").unwrap_err(), PrinterError::InvalidJson);
    let mut printer = FilePrinter::new(true);
    printer.set_file_path(Some("o.json".to_string()));
    assert_eq!(printer.print(b"{]").unwrap_err(), PrinterError::InvalidJson);
}

#[test]
fn file_printer_writes_and_echoes() {
    let mut printer = FilePrinter::new(true);
    assert!(!printer.has_file_path());
    printer.set_file_path(Some("out/r.json".to_string()));
    assert!(printer.has_file_path());
    let out = printer.print(b"[1]").unwrap();
    assert_eq!(out.path, "out/r.json");
    assert_eq!(out.content, "[\n  1\n]");
    assert_eq!(out.echo, Some("[\n  1\n]".to_string()));
}

#[test]
fn file_printer_without_echo() {
    let mut printer = FilePrinter::new(false);
    printer.set_file_path(Some("r.json".to_string()));
    let out = printer.print(b"{}").unwrap();
    assert_eq!(out.path, "r.json");
    assert_eq!(out.content, "{}");
    assert_eq!(out.echo, None);
    let out = printer.output("given".to_string());
    assert_eq!(out.content, "given");
    assert_eq!(out.echo, None);
}

#[test]
fn printer_follows_the_configuration() {
    assert!(matches!(PrinterBuilder::build(&config(&["prog", "-u=x"])), SelectedPrinter::Terminal(_)));
    match PrinterBuilder::build(&config(&["prog", "-c=login", "-f", "-p"])) {
        SelectedPrinter::File(printer) => {
            let out = printer.print(b"1").unwrap();
            assert_eq!(out.path, "login/response.json");
            assert_eq!(out.echo, Some("1".to_string()));
        }
        other => panic!("unexpected printer {:?}", other),
    }
    match PrinterBuilder::build(&config(&["prog", "-rf=a.json"])) {
        SelectedPrinter::File(printer) => {
            let out = printer.print(b"1").unwrap();
            assert_eq!(out.path, "a.json");
            assert_eq!(out.echo, None);
        }
        other => panic!("unexpected printer {:?}", other),
    }
}

#[test]
fn version_line() {
    assert_eq!(Misc::version(), "Gemon version: 0.1.0");
    assert_eq!(Misc::execute(&MiscScenario::Version), "Gemon version: 0.1.0");
}
