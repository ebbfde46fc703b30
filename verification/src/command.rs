//! The closed vocabulary of command-line tokens and the classifier that maps
//! one token to one recognized command.

use crate::text::{chars_of, is_text, starts_with};
use vstd::prelude::*;

verus! {

/// Which spelling of a flag matched.
#[derive(Debug, Clone, Copy, PartialEq, Eq, Structural)]
pub enum Form {
    Short,
    Long,
}

/// A recognized command. Payload-bearing variants carry the whole token as it
/// was given; variants with two spellings of a value flag also record which
/// spelling matched.
#[derive(Debug)]
pub enum GemonCommand {
    Invalid,
    Help,
    Version,
    Init(String),
    PrintEnvAll(String),
    PrintEnv(String),
    PrintLastCall(String),
    TypeRest(String),
    TypeWebsocket(String),
    TypeProto(String),
    MethodGet(String),
    MethodPost(String),
    MethodDelete(String),
    MethodPut(String),
    MethodPatch(String),
    File(String),
    LogResponse(String),
    AlsoPrintToTerminal(String),
    Uri(String, Form),
    Header(String, Form),
    Body(String, Form),
    FormData(String, Form),
    ResponseFile(String, Form),
    Save(String, Form),
    Call(String, Form),
    SaveAndCall(String, Form),
    Delete(String, Form),
    RemoveEnv(String, Form),
    AddEnv(String, Form),
    RemoveEnvValue(String, Form),
    SelectEnv(String, Form),
    AddAuthorization(String, Form),
    RemoveAuthorization,
    Secure,
}

/// The mathematical value of a [`GemonCommand`]: tokens are character
/// sequences.
pub enum CommandView {
    Invalid,
    Help,
    Version,
    Init(Seq<char>),
    PrintEnvAll(Seq<char>),
    PrintEnv(Seq<char>),
    PrintLastCall(Seq<char>),
    TypeRest(Seq<char>),
    TypeWebsocket(Seq<char>),
    TypeProto(Seq<char>),
    MethodGet(Seq<char>),
    MethodPost(Seq<char>),
    MethodDelete(Seq<char>),
    MethodPut(Seq<char>),
    MethodPatch(Seq<char>),
    File(Seq<char>),
    LogResponse(Seq<char>),
    AlsoPrintToTerminal(Seq<char>),
    Uri(Seq<char>, Form),
    Header(Seq<char>, Form),
    Body(Seq<char>, Form),
    FormData(Seq<char>, Form),
    ResponseFile(Seq<char>, Form),
    Save(Seq<char>, Form),
    Call(Seq<char>, Form),
    SaveAndCall(Seq<char>, Form),
    Delete(Seq<char>, Form),
    RemoveEnv(Seq<char>, Form),
    AddEnv(Seq<char>, Form),
    RemoveEnvValue(Seq<char>, Form),
    SelectEnv(Seq<char>, Form),
    AddAuthorization(Seq<char>, Form),
    RemoveAuthorization,
    Secure,
}

impl View for GemonCommand {
    type V = CommandView;

    open spec fn view(&self) -> CommandView {
        match self {
            GemonCommand::Invalid => CommandView::Invalid,
            GemonCommand::Help => CommandView::Help,
            GemonCommand::Version => CommandView::Version,
            GemonCommand::Init(s) => CommandView::Init(s@),
            GemonCommand::PrintEnvAll(s) => CommandView::PrintEnvAll(s@),
            GemonCommand::PrintEnv(s) => CommandView::PrintEnv(s@),
            GemonCommand::PrintLastCall(s) => CommandView::PrintLastCall(s@),
            GemonCommand::TypeRest(s) => CommandView::TypeRest(s@),
            GemonCommand::TypeWebsocket(s) => CommandView::TypeWebsocket(s@),
            GemonCommand::TypeProto(s) => CommandView::TypeProto(s@),
            GemonCommand::MethodGet(s) => CommandView::MethodGet(s@),
            GemonCommand::MethodPost(s) => CommandView::MethodPost(s@),
            GemonCommand::MethodDelete(s) => CommandView::MethodDelete(s@),
            GemonCommand::MethodPut(s) => CommandView::MethodPut(s@),
            GemonCommand::MethodPatch(s) => CommandView::MethodPatch(s@),
            GemonCommand::File(s) => CommandView::File(s@),
            GemonCommand::LogResponse(s) => CommandView::LogResponse(s@),
            GemonCommand::AlsoPrintToTerminal(s) => CommandView::AlsoPrintToTerminal(s@),
            GemonCommand::Uri(s, f) => CommandView::Uri(s@, *f),
            GemonCommand::Header(s, f) => CommandView::Header(s@, *f),
            GemonCommand::Body(s, f) => CommandView::Body(s@, *f),
            GemonCommand::FormData(s, f) => CommandView::FormData(s@, *f),
            GemonCommand::ResponseFile(s, f) => CommandView::ResponseFile(s@, *f),
            GemonCommand::Save(s, f) => CommandView::Save(s@, *f),
            GemonCommand::Call(s, f) => CommandView::Call(s@, *f),
            GemonCommand::SaveAndCall(s, f) => CommandView::SaveAndCall(s@, *f),
            GemonCommand::Delete(s, f) => CommandView::Delete(s@, *f),
            GemonCommand::RemoveEnv(s, f) => CommandView::RemoveEnv(s@, *f),
            GemonCommand::AddEnv(s, f) => CommandView::AddEnv(s@, *f),
            GemonCommand::RemoveEnvValue(s, f) => CommandView::RemoveEnvValue(s@, *f),
            GemonCommand::SelectEnv(s, f) => CommandView::SelectEnv(s@, *f),
            GemonCommand::AddAuthorization(s, f) => CommandView::AddAuthorization(s@, *f),
            GemonCommand::RemoveAuthorization => CommandView::RemoveAuthorization,
            GemonCommand::Secure => CommandView::Secure,
        }
    }
}

/// The command that a token stands for. A token that is one of the fixed
/// words or fixed `flag=VALUE` spellings is that command; otherwise the value
/// flags are tried in the order below and the first whose short or long
/// spelling begins the token wins; a token that matches nothing is `Invalid`.
pub open spec fn classify(t: Seq<char>) -> CommandView {
    if t == "-h"@ || t == "--help"@ {
        CommandView::Help
    } else if t == "-v"@ || t == "--version"@ {
        CommandView::Version
    } else if t == "init"@ {
        CommandView::Init(t)
    } else if t == "print-env-all"@ {
        CommandView::PrintEnvAll(t)
    } else if t == "print-env"@ {
        CommandView::PrintEnv(t)
    } else if t == "print"@ {
        CommandView::PrintLastCall(t)
    } else if t == "-t=REST"@ || t == "--type=REST"@ {
        CommandView::TypeRest(t)
    } else if t == "-t=WEBSOCKET"@ || t == "--type=WEBSOCKET"@ {
        CommandView::TypeWebsocket(t)
    } else if t == "-t=PROTO"@ || t == "--type=PROTO"@ {
        CommandView::TypeProto(t)
    } else if t == "-m=GET"@ || t == "--method=GET"@ {
        CommandView::MethodGet(t)
    } else if t == "-m=POST"@ || t == "--method=POST"@ {
        CommandView::MethodPost(t)
    } else if t == "-m=DELETE"@ || t == "--method=DELETE"@ {
        CommandView::MethodDelete(t)
    } else if t == "-m=PUT"@ || t == "--method=PUT"@ {
        CommandView::MethodPut(t)
    } else if t == "-m=PATCH"@ || t == "--method=PATCH"@ {
        CommandView::MethodPatch(t)
    } else if t == "-f"@ || t == "--file"@ {
        CommandView::File(t)
    } else if t == "-l"@ || t == "--log"@ {
        CommandView::LogResponse(t)
    } else if t == "-p"@ || t == "--print"@ {
        CommandView::AlsoPrintToTerminal(t)
    } else if t == "-sec"@ || t == "--secure"@ {
        CommandView::Secure
    } else if t == "-r-auth"@ || t == "--remove-authorization"@ {
        CommandView::RemoveAuthorization
    } else if "-auth="@.is_prefix_of(t) {
        CommandView::AddAuthorization(t, Form::Short)
    } else if "--authorization="@.is_prefix_of(t) {
        CommandView::AddAuthorization(t, Form::Long)
    } else if "-u="@.is_prefix_of(t) {
        CommandView::Uri(t, Form::Short)
    } else if "--uri="@.is_prefix_of(t) {
        CommandView::Uri(t, Form::Long)
    } else if "-h="@.is_prefix_of(t) {
        CommandView::Header(t, Form::Short)
    } else if "--header="@.is_prefix_of(t) {
        CommandView::Header(t, Form::Long)
    } else if "-b="@.is_prefix_of(t) {
        CommandView::Body(t, Form::Short)
    } else if "--body="@.is_prefix_of(t) {
        CommandView::Body(t, Form::Long)
    } else if "-fd="@.is_prefix_of(t) {
        CommandView::FormData(t, Form::Short)
    } else if "--form-data="@.is_prefix_of(t) {
        CommandView::FormData(t, Form::Long)
    } else if "-rf="@.is_prefix_of(t) {
        CommandView::ResponseFile(t, Form::Short)
    } else if "--response-file="@.is_prefix_of(t) {
        CommandView::ResponseFile(t, Form::Long)
    } else if "-s="@.is_prefix_of(t) {
        CommandView::Save(t, Form::Short)
    } else if "--save="@.is_prefix_of(t) {
        CommandView::Save(t, Form::Long)
    } else if "-c="@.is_prefix_of(t) {
        CommandView::Call(t, Form::Short)
    } else if "--call="@.is_prefix_of(t) {
        CommandView::Call(t, Form::Long)
    } else if "-sc="@.is_prefix_of(t) {
        CommandView::SaveAndCall(t, Form::Short)
    } else if "--save-and-call="@.is_prefix_of(t) {
        CommandView::SaveAndCall(t, Form::Long)
    } else if "-d="@.is_prefix_of(t) {
        CommandView::Delete(t, Form::Short)
    } else if "--delete="@.is_prefix_of(t) {
        CommandView::Delete(t, Form::Long)
    } else if "-ed="@.is_prefix_of(t) {
        CommandView::RemoveEnv(t, Form::Short)
    } else if "--env-delete="@.is_prefix_of(t) {
        CommandView::RemoveEnv(t, Form::Long)
    } else if "-e="@.is_prefix_of(t) {
        CommandView::AddEnv(t, Form::Short)
    } else if "--env="@.is_prefix_of(t) {
        CommandView::AddEnv(t, Form::Long)
    } else if "-edv="@.is_prefix_of(t) {
        CommandView::RemoveEnvValue(t, Form::Short)
    } else if "-env-delete-value="@.is_prefix_of(t) {
        CommandView::RemoveEnvValue(t, Form::Long)
    } else if "-se="@.is_prefix_of(t) {
        CommandView::SelectEnv(t, Form::Short)
    } else if "--select-env="@.is_prefix_of(t) {
        CommandView::SelectEnv(t, Form::Long)
    } else {
        CommandView::Invalid
    }
}

/// The flag spelling, up to and including `=`, that precedes the payload of a
/// command with a value; empty for the other commands.
pub open spec fn flag_of(c: CommandView) -> Seq<char> {
    match c {
        CommandView::AddAuthorization(_, Form::Short) => "-auth="@,
        CommandView::AddAuthorization(_, Form::Long) => "--authorization="@,
        CommandView::Uri(_, Form::Short) => "-u="@,
        CommandView::Uri(_, Form::Long) => "--uri="@,
        CommandView::Header(_, Form::Short) => "-h="@,
        CommandView::Header(_, Form::Long) => "--header="@,
        CommandView::Body(_, Form::Short) => "-b="@,
        CommandView::Body(_, Form::Long) => "--body="@,
        CommandView::FormData(_, Form::Short) => "-fd="@,
        CommandView::FormData(_, Form::Long) => "--form-data="@,
        CommandView::ResponseFile(_, Form::Short) => "-rf="@,
        CommandView::ResponseFile(_, Form::Long) => "--response-file="@,
        CommandView::Save(_, Form::Short) => "-s="@,
        CommandView::Save(_, Form::Long) => "--save="@,
        CommandView::Call(_, Form::Short) => "-c="@,
        CommandView::Call(_, Form::Long) => "--call="@,
        CommandView::SaveAndCall(_, Form::Short) => "-sc="@,
        CommandView::SaveAndCall(_, Form::Long) => "--save-and-call="@,
        CommandView::Delete(_, Form::Short) => "-d="@,
        CommandView::Delete(_, Form::Long) => "--delete="@,
        CommandView::RemoveEnv(_, Form::Short) => "-ed="@,
        CommandView::RemoveEnv(_, Form::Long) => "--env-delete="@,
        CommandView::AddEnv(_, Form::Short) => "-e="@,
        CommandView::AddEnv(_, Form::Long) => "--env="@,
        CommandView::RemoveEnvValue(_, Form::Short) => "-edv="@,
        CommandView::RemoveEnvValue(_, Form::Long) => "-env-delete-value="@,
        CommandView::SelectEnv(_, Form::Short) => "-se="@,
        CommandView::SelectEnv(_, Form::Long) => "--select-env="@,
        _ => Seq::empty(),
    }
}

/// The token that a command carries; empty for commands without one.
pub open spec fn raw_of(c: CommandView) -> Seq<char> {
    match c {
        CommandView::Init(s) => s,
        CommandView::PrintEnvAll(s) => s,
        CommandView::PrintEnv(s) => s,
        CommandView::PrintLastCall(s) => s,
        CommandView::TypeRest(s) => s,
        CommandView::TypeWebsocket(s) => s,
        CommandView::TypeProto(s) => s,
        CommandView::MethodGet(s) => s,
        CommandView::MethodPost(s) => s,
        CommandView::MethodDelete(s) => s,
        CommandView::MethodPut(s) => s,
        CommandView::MethodPatch(s) => s,
        CommandView::File(s) => s,
        CommandView::LogResponse(s) => s,
        CommandView::AlsoPrintToTerminal(s) => s,
        CommandView::Uri(s, _) => s,
        CommandView::Header(s, _) => s,
        CommandView::Body(s, _) => s,
        CommandView::FormData(s, _) => s,
        CommandView::ResponseFile(s, _) => s,
        CommandView::Save(s, _) => s,
        CommandView::Call(s, _) => s,
        CommandView::SaveAndCall(s, _) => s,
        CommandView::Delete(s, _) => s,
        CommandView::RemoveEnv(s, _) => s,
        CommandView::AddEnv(s, _) => s,
        CommandView::RemoveEnvValue(s, _) => s,
        CommandView::SelectEnv(s, _) => s,
        CommandView::AddAuthorization(s, _) => s,
        _ => Seq::empty(),
    }
}

/// What follows the flag spelling in the token of a command with a value.
pub open spec fn payload_of(c: CommandView) -> Seq<char> {
    raw_of(c).skip(flag_of(c).len() as int)
}

/// The command of the shape `c` that carries the token `raw`.
pub open spec fn carrying(c: CommandView, raw: String) -> GemonCommand {
    match c {
        CommandView::Invalid => GemonCommand::Invalid,
        CommandView::Help => GemonCommand::Help,
        CommandView::Version => GemonCommand::Version,
        CommandView::Init(_) => GemonCommand::Init(raw),
        CommandView::PrintEnvAll(_) => GemonCommand::PrintEnvAll(raw),
        CommandView::PrintEnv(_) => GemonCommand::PrintEnv(raw),
        CommandView::PrintLastCall(_) => GemonCommand::PrintLastCall(raw),
        CommandView::TypeRest(_) => GemonCommand::TypeRest(raw),
        CommandView::TypeWebsocket(_) => GemonCommand::TypeWebsocket(raw),
        CommandView::TypeProto(_) => GemonCommand::TypeProto(raw),
        CommandView::MethodGet(_) => GemonCommand::MethodGet(raw),
        CommandView::MethodPost(_) => GemonCommand::MethodPost(raw),
        CommandView::MethodDelete(_) => GemonCommand::MethodDelete(raw),
        CommandView::MethodPut(_) => GemonCommand::MethodPut(raw),
        CommandView::MethodPatch(_) => GemonCommand::MethodPatch(raw),
        CommandView::File(_) => GemonCommand::File(raw),
        CommandView::LogResponse(_) => GemonCommand::LogResponse(raw),
        CommandView::AlsoPrintToTerminal(_) => GemonCommand::AlsoPrintToTerminal(raw),
        CommandView::Uri(_, f) => GemonCommand::Uri(raw, f),
        CommandView::Header(_, f) => GemonCommand::Header(raw, f),
        CommandView::Body(_, f) => GemonCommand::Body(raw, f),
        CommandView::FormData(_, f) => GemonCommand::FormData(raw, f),
        CommandView::ResponseFile(_, f) => GemonCommand::ResponseFile(raw, f),
        CommandView::Save(_, f) => GemonCommand::Save(raw, f),
        CommandView::Call(_, f) => GemonCommand::Call(raw, f),
        CommandView::SaveAndCall(_, f) => GemonCommand::SaveAndCall(raw, f),
        CommandView::Delete(_, f) => GemonCommand::Delete(raw, f),
        CommandView::RemoveEnv(_, f) => GemonCommand::RemoveEnv(raw, f),
        CommandView::AddEnv(_, f) => GemonCommand::AddEnv(raw, f),
        CommandView::RemoveEnvValue(_, f) => GemonCommand::RemoveEnvValue(raw, f),
        CommandView::SelectEnv(_, f) => GemonCommand::SelectEnv(raw, f),
        CommandView::AddAuthorization(_, f) => GemonCommand::AddAuthorization(raw, f),
        CommandView::RemoveAuthorization => GemonCommand::RemoveAuthorization,
        CommandView::Secure => GemonCommand::Secure,
    }
}

impl vstd::std_specs::convert::FromSpecImpl<String> for GemonCommand {
    open spec fn obeys_from_spec() -> bool {
        true
    }

    open spec fn from_spec(cmd: String) -> GemonCommand {
        carrying(classify(cmd@), cmd)
    }
}

impl From<String> for GemonCommand {
    /// Classifies one token.
    #[verifier::rlimit(50)]
    fn from(cmd: String) -> (out: GemonCommand)
        ensures
            out@ == classify(cmd@),
    {
        let t = chars_of(cmd.as_str());
        if is_text(&t, "-h") || is_text(&t, "--help") {
            GemonCommand::Help
        } else if is_text(&t, "-v") || is_text(&t, "--version") {
            GemonCommand::Version
        } else if is_text(&t, "init") {
            GemonCommand::Init(cmd)
        } else if is_text(&t, "print-env-all") {
            GemonCommand::PrintEnvAll(cmd)
        } else if is_text(&t, "print-env") {
            GemonCommand::PrintEnv(cmd)
        } else if is_text(&t, "print") {
            GemonCommand::PrintLastCall(cmd)
        } else if is_text(&t, "-t=REST") || is_text(&t, "--type=REST") {
            GemonCommand::TypeRest(cmd)
        } else if is_text(&t, "-t=WEBSOCKET") || is_text(&t, "--type=WEBSOCKET") {
            GemonCommand::TypeWebsocket(cmd)
        } else if is_text(&t, "-t=PROTO") || is_text(&t, "--type=PROTO") {
            GemonCommand::TypeProto(cmd)
        } else if is_text(&t, "-m=GET") || is_text(&t, "--method=GET") {
            GemonCommand::MethodGet(cmd)
        } else if is_text(&t, "-m=POST") || is_text(&t, "--method=POST") {
            GemonCommand::MethodPost(cmd)
        } else if is_text(&t, "-m=DELETE") || is_text(&t, "--method=DELETE") {
            GemonCommand::MethodDelete(cmd)
        } else if is_text(&t, "-m=PUT") || is_text(&t, "--method=PUT") {
            GemonCommand::MethodPut(cmd)
        } else if is_text(&t, "-m=PATCH") || is_text(&t, "--method=PATCH") {
            GemonCommand::MethodPatch(cmd)
        } else if is_text(&t, "-f") || is_text(&t, "--file") {
            GemonCommand::File(cmd)
        } else if is_text(&t, "-l") || is_text(&t, "--log") {
            GemonCommand::LogResponse(cmd)
        } else if is_text(&t, "-p") || is_text(&t, "--print") {
            GemonCommand::AlsoPrintToTerminal(cmd)
        } else if is_text(&t, "-sec") || is_text(&t, "--secure") {
            GemonCommand::Secure
        } else if is_text(&t, "-r-auth") || is_text(&t, "--remove-authorization") {
            GemonCommand::RemoveAuthorization
        } else if starts_with(&t, "-auth=") {
            GemonCommand::AddAuthorization(cmd, Form::Short)
        } else if starts_with(&t, "--authorization=") {
            GemonCommand::AddAuthorization(cmd, Form::Long)
        } else if starts_with(&t, "-u=") {
            GemonCommand::Uri(cmd, Form::Short)
        } else if starts_with(&t, "--uri=") {
            GemonCommand::Uri(cmd, Form::Long)
        } else if starts_with(&t, "-h=") {
            GemonCommand::Header(cmd, Form::Short)
        } else if starts_with(&t, "--header=") {
            GemonCommand::Header(cmd, Form::Long)
        } else if starts_with(&t, "-b=") {
            GemonCommand::Body(cmd, Form::Short)
        } else if starts_with(&t, "--body=") {
            GemonCommand::Body(cmd, Form::Long)
        } else if starts_with(&t, "-fd=") {
            GemonCommand::FormData(cmd, Form::Short)
        } else if starts_with(&t, "--form-data=") {
            GemonCommand::FormData(cmd, Form::Long)
        } else if starts_with(&t, "-rf=") {
            GemonCommand::ResponseFile(cmd, Form::Short)
        } else if starts_with(&t, "--response-file=") {
            GemonCommand::ResponseFile(cmd, Form::Long)
        } else if starts_with(&t, "-s=") {
            GemonCommand::Save(cmd, Form::Short)
        } else if starts_with(&t, "--save=") {
            GemonCommand::Save(cmd, Form::Long)
        } else if starts_with(&t, "-c=") {
            GemonCommand::Call(cmd, Form::Short)
        } else if starts_with(&t, "--call=") {
            GemonCommand::Call(cmd, Form::Long)
        } else if starts_with(&t, "-sc=") {
            GemonCommand::SaveAndCall(cmd, Form::Short)
        } else if starts_with(&t, "--save-and-call=") {
            GemonCommand::SaveAndCall(cmd, Form::Long)
        } else if starts_with(&t, "-d=") {
            GemonCommand::Delete(cmd, Form::Short)
        } else if starts_with(&t, "--delete=") {
            GemonCommand::Delete(cmd, Form::Long)
        } else if starts_with(&t, "-ed=") {
            GemonCommand::RemoveEnv(cmd, Form::Short)
        } else if starts_with(&t, "--env-delete=") {
            GemonCommand::RemoveEnv(cmd, Form::Long)
        } else if starts_with(&t, "-e=") {
            GemonCommand::AddEnv(cmd, Form::Short)
        } else if starts_with(&t, "--env=") {
            GemonCommand::AddEnv(cmd, Form::Long)
        } else if starts_with(&t, "-edv=") {
            GemonCommand::RemoveEnvValue(cmd, Form::Short)
        } else if starts_with(&t, "-env-delete-value=") {
            GemonCommand::RemoveEnvValue(cmd, Form::Long)
        } else if starts_with(&t, "-se=") {
            GemonCommand::SelectEnv(cmd, Form::Short)
        } else if starts_with(&t, "--select-env=") {
            GemonCommand::SelectEnv(cmd, Form::Long)
        } else {
            GemonCommand::Invalid
        }
    }
}

impl GemonCommand {
    /// The flag spelling that precedes the payload.
    pub fn flag(&self) -> (out: &'static str)
        ensures
            out@ == flag_of(self@),
    {
        match self {
            GemonCommand::AddAuthorization(_, Form::Short) => "-auth=",
            GemonCommand::AddAuthorization(_, Form::Long) => "--authorization=",
            GemonCommand::Uri(_, Form::Short) => "-u=",
            GemonCommand::Uri(_, Form::Long) => "--uri=",
            GemonCommand::Header(_, Form::Short) => "-h=",
            GemonCommand::Header(_, Form::Long) => "--header=",
            GemonCommand::Body(_, Form::Short) => "-b=",
            GemonCommand::Body(_, Form::Long) => "--body=",
            GemonCommand::FormData(_, Form::Short) => "-fd=",
            GemonCommand::FormData(_, Form::Long) => "--form-data=",
            GemonCommand::ResponseFile(_, Form::Short) => "-rf=",
            GemonCommand::ResponseFile(_, Form::Long) => "--response-file=",
            GemonCommand::Save(_, Form::Short) => "-s=",
            GemonCommand::Save(_, Form::Long) => "--save=",
            GemonCommand::Call(_, Form::Short) => "-c=",
            GemonCommand::Call(_, Form::Long) => "--call=",
            GemonCommand::SaveAndCall(_, Form::Short) => "-sc=",
            GemonCommand::SaveAndCall(_, Form::Long) => "--save-and-call=",
            GemonCommand::Delete(_, Form::Short) => "-d=",
            GemonCommand::Delete(_, Form::Long) => "--delete=",
            GemonCommand::RemoveEnv(_, Form::Short) => "-ed=",
            GemonCommand::RemoveEnv(_, Form::Long) => "--env-delete=",
            GemonCommand::AddEnv(_, Form::Short) => "-e=",
            GemonCommand::AddEnv(_, Form::Long) => "--env=",
            GemonCommand::RemoveEnvValue(_, Form::Short) => "-edv=",
            GemonCommand::RemoveEnvValue(_, Form::Long) => "-env-delete-value=",
            GemonCommand::SelectEnv(_, Form::Short) => "-se=",
            GemonCommand::SelectEnv(_, Form::Long) => "--select-env=",
            _ => {
                let out = "";
                proof {
                    reveal_strlit("");
                    assert(out@ =~= Seq::<char>::empty());
                }
                out
            },
        }
    }
}

} // verus!
