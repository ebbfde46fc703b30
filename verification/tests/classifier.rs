use gemon::command::{Form, GemonCommand};

fn classify(token: &str) -> GemonCommand {
    GemonCommand::from(token.to_string())
}

#[test]
fn classifies_help_in_both_spellings() {
    assert!(matches!(classify("-h"), GemonCommand::Help));
    assert!(matches!(classify("--help"), GemonCommand::Help));
}

#[test]
fn classifies_version_in_both_spellings() {
    assert!(matches!(classify("-v"), GemonCommand::Version));
    assert!(matches!(classify("--version"), GemonCommand::Version));
}

#[test]
fn classifies_fixed_words() {
    assert!(matches!(classify("init"), GemonCommand::Init(s) if s == "init"));
    assert!(matches!(classify("print"), GemonCommand::PrintLastCall(s) if s == "print"));
    assert!(matches!(classify("print-env"), GemonCommand::PrintEnv(s) if s == "print-env"));
    assert!(matches!(classify("print-env-all"), GemonCommand::PrintEnvAll(s) if s == "print-env-all"));
}

#[test]
fn classifies_types_and_methods() {
    assert!(matches!(classify("-t=REST"), GemonCommand::TypeRest(_)));
    assert!(matches!(classify("--type=REST"), GemonCommand::TypeRest(_)));
    assert!(matches!(classify("-t=WEBSOCKET"), GemonCommand::TypeWebsocket(_)));
    assert!(matches!(classify("--type=PROTO"), GemonCommand::TypeProto(_)));
    assert!(matches!(classify("-m=GET"), GemonCommand::MethodGet(_)));
    assert!(matches!(classify("--method=GET"), GemonCommand::MethodGet(_)));
    assert!(matches!(classify("-m=POST"), GemonCommand::MethodPost(_)));
    assert!(matches!(classify("-m=DELETE"), GemonCommand::MethodDelete(_)));
    assert!(matches!(classify("--method=PUT"), GemonCommand::MethodPut(_)));
    assert!(matches!(classify("-m=PATCH"), GemonCommand::MethodPatch(_)));
}

#[test]
fn unknown_method_value_is_invalid() {
    assert!(matches!(classify("-m=HEAD"), GemonCommand::Invalid));
    assert!(matches!(classify("-t=SOAP"), GemonCommand::Invalid));
    assert!(matches!(classify("-m=get"), GemonCommand::Invalid));
}

#[test]
fn classifies_bare_flags() {
    assert!(matches!(classify("-f"), GemonCommand::File(_)));
    assert!(matches!(classify("--file"), GemonCommand::File(_)));
    assert!(matches!(classify("-l"), GemonCommand::LogResponse(_)));
    assert!(matches!(classify("--log"), GemonCommand::LogResponse(_)));
    assert!(matches!(classify("-p"), GemonCommand::AlsoPrintToTerminal(_)));
    assert!(matches!(classify("--print"), GemonCommand::AlsoPrintToTerminal(_)));
    assert!(matches!(classify("-sec"), GemonCommand::Secure));
    assert!(matches!(classify("--secure"), GemonCommand::Secure));
    assert!(matches!(classify("-r-auth"), GemonCommand::RemoveAuthorization));
    assert!(matches!(classify("--remove-authorization"), GemonCommand::RemoveAuthorization));
}

#[test]
fn classifies_uri_with_its_form() {
    match classify("-u=https://api.example.com") {
        GemonCommand::Uri(raw, Form::Short) => assert_eq!(raw, "-u=https://api.example.com"),
        other => panic!("unexpected command {:?}", other),
    }
    match classify("--uri=https://api.example.com") {
        GemonCommand::Uri(raw, Form::Long) => assert_eq!(raw, "--uri=https://api.example.com"),
        other => panic!("unexpected command {:?}", other),
    }
}

#[test]
fn classifies_every_value_flag() {
    assert!(matches!(classify("-auth=Bearer x"), GemonCommand::AddAuthorization(_, Form::Short)));
    assert!(matches!(classify("--authorization=Bearer x"), GemonCommand::AddAuthorization(_, Form::Long)));
    assert!(matches!(classify("-h=a::b"), GemonCommand::Header(_, Form::Short)));
    assert!(matches!(classify("--header=a::b"), GemonCommand::Header(_, Form::Long)));
    assert!(matches!(classify("-b={}"), GemonCommand::Body(_, Form::Short)));
    assert!(matches!(classify("--body={}"), GemonCommand::Body(_, Form::Long)));
    assert!(matches!(classify("-fd=a::b"), GemonCommand::FormData(_, Form::Short)));
    assert!(matches!(classify("--form-data=a::b"), GemonCommand::FormData(_, Form::Long)));
    assert!(matches!(classify("-rf=out.json"), GemonCommand::ResponseFile(_, Form::Short)));
    assert!(matches!(classify("--response-file=out.json"), GemonCommand::ResponseFile(_, Form::Long)));
    assert!(matches!(classify("-s=login"), GemonCommand::Save(_, Form::Short)));
    assert!(matches!(classify("--save=login"), GemonCommand::Save(_, Form::Long)));
    assert!(matches!(classify("-c=login"), GemonCommand::Call(_, Form::Short)));
    assert!(matches!(classify("--call=login"), GemonCommand::Call(_, Form::Long)));
    assert!(matches!(classify("-sc=login"), GemonCommand::SaveAndCall(_, Form::Short)));
    assert!(matches!(classify("--save-and-call=login"), GemonCommand::SaveAndCall(_, Form::Long)));
    assert!(matches!(classify("-d=login"), GemonCommand::Delete(_, Form::Short)));
    assert!(matches!(classify("--delete=login"), GemonCommand::Delete(_, Form::Long)));
    assert!(matches!(classify("-ed=prod"), GemonCommand::RemoveEnv(_, Form::Short)));
    assert!(matches!(classify("--env-delete=prod"), GemonCommand::RemoveEnv(_, Form::Long)));
    assert!(matches!(classify("-e=prod::k::v"), GemonCommand::AddEnv(_, Form::Short)));
    assert!(matches!(classify("--env=prod::k::v"), GemonCommand::AddEnv(_, Form::Long)));
    assert!(matches!(classify("-edv=prod::k"), GemonCommand::RemoveEnvValue(_, Form::Short)));
    assert!(matches!(classify("-env-delete-value=prod::k"), GemonCommand::RemoveEnvValue(_, Form::Long)));
    assert!(matches!(classify("-se=prod"), GemonCommand::SelectEnv(_, Form::Short)));
    assert!(matches!(classify("--select-env=prod"), GemonCommand::SelectEnv(_, Form::Long)));
}

#[test]
fn exact_word_beats_prefix() {
    assert!(matches!(classify("-h"), GemonCommand::Help));
    assert!(matches!(classify("-h="), GemonCommand::Header(_, Form::Short)));
    assert!(matches!(classify("-sec"), GemonCommand::Secure));
    assert!(matches!(classify("-se=x"), GemonCommand::SelectEnv(_, _)));
    assert!(matches!(classify("-s=x"), GemonCommand::Save(_, _)));
}

#[test]
fn unknown_tokens_are_invalid() {
    assert!(matches!(classify(""), GemonCommand::Invalid));
    assert!(matches!(classify("gemon"), GemonCommand::Invalid));
    assert!(matches!(classify("-x=1"), GemonCommand::Invalid));
    assert!(matches!(classify("-u"), GemonCommand::Invalid));
    assert!(matches!(classify("--uri"), GemonCommand::Invalid));
    assert!(matches!(classify("INIT"), GemonCommand::Invalid));
    assert!(matches!(classify(" -h"), GemonCommand::Invalid));
}

#[test]
fn flag_is_the_spelling_that_matched() {
    assert_eq!(classify("-u=x").flag(), "-u=");
    assert_eq!(classify("--uri=x").flag(), "--uri=");
    assert_eq!(classify("--save-and-call=x").flag(), "--save-and-call=");
    assert_eq!(classify("-sc=x").flag(), "-sc=");
    assert_eq!(classify("--call=x").flag(), "--call=");
    assert_eq!(classify("-h").flag(), "");
    assert_eq!(classify("init").flag(), "");
}
