use gemon::config::arguments::{GemonArgument, GemonArguments};
use gemon::config::parser::{
    is_well_formed, key_value_pair_arg_parser, simple_arg_parser, triple_value_arg_parser,
    GemonArgumentParser,
};
use gemon::config::types::{GemonMethodType, GemonProjectScenario, GemonType, MiscScenario};

fn parse(token: &str) -> Option<GemonArgument> {
    token.to_string().parse_argument()
}

fn tokens(list: &[&str]) -> Vec<String> {
    list.iter().map(|t| t.to_string()).collect()
}

#[test]
fn simple_parser_returns_the_tail() {
    assert_eq!(simple_arg_parser("-u=https://api.example.com/x", 3), "https://api.example.com/x");
    assert_eq!(simple_arg_parser("--uri=abc", 6), "abc");
}

#[test]
fn simple_parser_accepts_the_empty_tail() {
    assert_eq!(simple_arg_parser("-u=", 3), "");
    assert_eq!(simple_arg_parser("", 0), "");
}

#[test]
fn simple_parser_counts_characters() {
    assert_eq!(simple_arg_parser("-b=héllo", 3), "héllo");
    assert_eq!(simple_arg_parser("é=x", 2), "x");
}

#[test]
fn pair_parser_splits_on_double_colon() {
    let (k, v) = key_value_pair_arg_parser("-h=Content-Type::application/json", 3);
    assert_eq!(k, "Content-Type");
    assert_eq!(v, "application/json");
}

#[test]
fn pair_parser_keeps_single_colons() {
    let (k, v) = key_value_pair_arg_parser("-h=Authorization::Bearer token:v1", 3);
    assert_eq!(k, "Authorization");
    assert_eq!(v, "Bearer token:v1");
}

#[test]
fn pair_parser_ignores_further_parts() {
    let (k, v) = key_value_pair_arg_parser("--header=a::b::c", 9);
    assert_eq!(k, "a");
    assert_eq!(v, "b");
}

#[test]
fn pair_parser_accepts_empty_parts() {
    let (k, v) = key_value_pair_arg_parser("-h=::", 3);
    assert_eq!(k, "");
    assert_eq!(v, "");
    let (k, v) = key_value_pair_arg_parser("-h=a:::b", 3);
    assert_eq!(k, "a");
    assert_eq!(v, ":b");
}

#[test]
fn triple_parser_splits_three_parts() {
    let (a, b, c) = triple_value_arg_parser("-e=int::base_uri::https://api.com", 3);
    assert_eq!(a, "int");
    assert_eq!(b, "base_uri");
    assert_eq!(c, "https://api.com");
}

#[test]
fn missing_separator_is_not_well_formed() {
    assert!(!is_well_formed("-h=Authorization"));
    assert!(!is_well_formed("--header=Authorization"));
    assert!(!is_well_formed("-fd=name"));
    assert!(!is_well_formed("--form-data=name"));
    assert!(!is_well_formed("-e=prod"));
    assert!(!is_well_formed("-e=prod::token"));
    assert!(!is_well_formed("--env=prod::token"));
    assert!(!is_well_formed("-edv=prod"));
    assert!(!is_well_formed("-h=a:b"));
}

#[test]
fn complete_tokens_are_well_formed() {
    assert!(is_well_formed("-h=Authorization::x"));
    assert!(is_well_formed("-fd=name::x"));
    assert!(is_well_formed("-e=prod::token::abc"));
    assert!(is_well_formed("-edv=prod::token"));
    assert!(is_well_formed("-u="));
    assert!(is_well_formed("whatever"));
    assert!(is_well_formed("-h"));
}

#[test]
fn run_with_a_malformed_token_is_not_well_formed() {
    assert!(!GemonArguments::well_formed(&tokens(&["prog", "-u=x", "-h=Authorization"])));
    assert!(GemonArguments::well_formed(&tokens(&["prog", "-u=x", "-h=Authorization::y"])));
    assert!(GemonArguments::well_formed(&tokens(&["-h=Authorization"])));
    assert!(GemonArguments::well_formed(&tokens(&[])));
}

#[test]
fn program_name_is_not_checked() {
    assert!(GemonArguments::well_formed(&tokens(&["-h=Authorization", "-u=x"])));
}

#[test]
fn parses_fixed_tokens() {
    assert!(matches!(parse("-h"), Some(GemonArgument::ProjectSetup(GemonProjectScenario::Help))));
    assert!(matches!(parse("-v"), Some(GemonArgument::MiscScenario(MiscScenario::Version))));
    assert!(matches!(parse("init"), Some(GemonArgument::ProjectSetup(GemonProjectScenario::Init))));
    assert!(matches!(parse("print"), Some(GemonArgument::ProjectSetup(GemonProjectScenario::PrintLastCall))));
    assert!(matches!(parse("print-env"), Some(GemonArgument::ProjectSetup(GemonProjectScenario::PrintEnv))));
    assert!(matches!(parse("print-env-all"), Some(GemonArgument::ProjectSetup(GemonProjectScenario::PrintEnvAll))));
    assert!(matches!(parse("-t=PROTO"), Some(GemonArgument::Type(GemonType::Proto))));
    assert!(matches!(parse("-m=PATCH"), Some(GemonArgument::Method { gemon_method_type: GemonMethodType::Patch })));
    assert!(matches!(parse("-f"), Some(GemonArgument::ResponseFilePath(None))));
    assert!(matches!(parse("-l"), Some(GemonArgument::LogResponse)));
    assert!(matches!(parse("-p"), Some(GemonArgument::AlsoPrintToTerminal)));
    assert!(matches!(parse("-sec"), Some(GemonArgument::Secure)));
    assert!(matches!(parse("-r-auth"), Some(GemonArgument::ProjectSetup(GemonProjectScenario::RemoveAuthorization))));
}

#[test]
fn parses_value_tokens_in_both_spellings() {
    assert!(matches!(parse("-u=abc"), Some(GemonArgument::Uri(u)) if u == "abc"));
    assert!(matches!(parse("--uri=abc"), Some(GemonArgument::Uri(u)) if u == "abc"));
    assert!(matches!(parse("-b=abc"), Some(GemonArgument::Body(b)) if b == "abc"));
    assert!(matches!(parse("--body=abc"), Some(GemonArgument::Body(b)) if b == "abc"));
    assert!(matches!(parse("-rf=o.json"), Some(GemonArgument::ResponseFilePath(Some(p))) if p == "o.json"));
    assert!(matches!(parse("--response-file=o.json"), Some(GemonArgument::ResponseFilePath(Some(p))) if p == "o.json"));
    assert!(matches!(parse("-h=a::b"), Some(GemonArgument::Header(k, v)) if k == "a" && v == "b"));
    assert!(matches!(parse("--header=a::b"), Some(GemonArgument::Header(k, v)) if k == "a" && v == "b"));
    assert!(matches!(parse("-fd=a::b"), Some(GemonArgument::FormData(k, v)) if k == "a" && v == "b"));
    assert!(matches!(parse("--form-data=a::b"), Some(GemonArgument::FormData(k, v)) if k == "a" && v == "b"));
}

#[test]
fn parses_project_tokens_in_both_spellings() {
    assert!(matches!(parse("-s=login"), Some(GemonArgument::ProjectSetup(GemonProjectScenario::Save(n))) if n == "login"));
    assert!(matches!(parse("--save=login"), Some(GemonArgument::ProjectSetup(GemonProjectScenario::Save(n))) if n == "login"));
    assert!(matches!(parse("-c=login"), Some(GemonArgument::ProjectSetup(GemonProjectScenario::Call(n))) if n == "login"));
    assert!(matches!(parse("--call=login"), Some(GemonArgument::ProjectSetup(GemonProjectScenario::Call(n))) if n == "login"));
    assert!(matches!(parse("-sc=login"), Some(GemonArgument::ProjectSetup(GemonProjectScenario::SaveAndCall(n))) if n == "login"));
    assert!(matches!(parse("--save-and-call=login"), Some(GemonArgument::ProjectSetup(GemonProjectScenario::SaveAndCall(n))) if n == "login"));
    assert!(matches!(parse("-d=login"), Some(GemonArgument::ProjectSetup(GemonProjectScenario::Delete(n))) if n == "login"));
    assert!(matches!(parse("--delete=login"), Some(GemonArgument::ProjectSetup(GemonProjectScenario::Delete(n))) if n == "login"));
    assert!(matches!(parse("-ed=prod"), Some(GemonArgument::ProjectSetup(GemonProjectScenario::RemoveEnv(n))) if n == "prod"));
    assert!(matches!(parse("--env-delete=prod"), Some(GemonArgument::ProjectSetup(GemonProjectScenario::RemoveEnv(n))) if n == "prod"));
    assert!(matches!(parse("-se=prod"), Some(GemonArgument::ProjectSetup(GemonProjectScenario::SelectEnv(n))) if n == "prod"));
    assert!(matches!(parse("--select-env=prod"), Some(GemonArgument::ProjectSetup(GemonProjectScenario::SelectEnv(n))) if n == "prod"));
    assert!(matches!(parse("-auth=Bearer t"), Some(GemonArgument::ProjectSetup(GemonProjectScenario::AddAuthorization(a))) if a == "Bearer t"));
    assert!(matches!(parse("--authorization=Bearer t"), Some(GemonArgument::ProjectSetup(GemonProjectScenario::AddAuthorization(a))) if a == "Bearer t"));
    assert!(matches!(parse("-e=prod::token::abc123"), Some(GemonArgument::ProjectSetup(GemonProjectScenario::AddEnv(e, k, v))) if e == "prod" && k == "token" && v == "abc123"));
    assert!(matches!(parse("--env=prod::token::abc123"), Some(GemonArgument::ProjectSetup(GemonProjectScenario::AddEnv(e, k, v))) if e == "prod" && k == "token" && v == "abc123"));
    assert!(matches!(parse("-edv=prod::token"), Some(GemonArgument::ProjectSetup(GemonProjectScenario::RemoveEnvValue(e, k))) if e == "prod" && k == "token"));
    assert!(matches!(parse("-env-delete-value=prod::token"), Some(GemonArgument::ProjectSetup(GemonProjectScenario::RemoveEnvValue(e, k))) if e == "prod" && k == "token"));
}

#[test]
fn unknown_token_parses_to_nothing() {
    assert!(parse("bogus").is_none());
    assert!(parse("").is_none());
}

#[test]
fn too_few_tokens_ask_for_help() {
    let arguments = GemonArguments::new(tokens(&["prog"])).unwrap();
    assert_eq!(arguments.arguments().len(), 1);
    assert!(matches!(arguments.arguments()[0], GemonArgument::ProjectSetup(GemonProjectScenario::Help)));
    let arguments = GemonArguments::new(tokens(&[])).unwrap();
    assert_eq!(arguments.arguments().len(), 1);
    assert!(matches!(arguments.arguments()[0], GemonArgument::ProjectSetup(GemonProjectScenario::Help)));
}

#[test]
fn default_arguments_ask_for_help() {
    let arguments = GemonArguments::default();
    assert_eq!(arguments.arguments().len(), 1);
    assert!(matches!(GemonArgument::default(), GemonArgument::ProjectSetup(GemonProjectScenario::Help)));
}

#[test]
fn unknown_tokens_are_dropped_and_order_is_kept() {
    let arguments = GemonArguments::new(tokens(&["prog", "-m=POST", "what", "-u=x", "", "-l"])).unwrap();
    let list = arguments.arguments();
    assert_eq!(list.len(), 3);
    assert!(matches!(list[0], GemonArgument::Method { gemon_method_type: GemonMethodType::Post }));
    assert!(matches!(&list[1], GemonArgument::Uri(u) if u == "x"));
    assert!(matches!(list[2], GemonArgument::LogResponse));
}

#[test]
fn program_name_is_not_parsed() {
    let arguments = GemonArguments::new(tokens(&["init", "-u=x"])).unwrap();
    let list = arguments.arguments();
    assert_eq!(list.len(), 1);
    assert!(matches!(&list[0], GemonArgument::Uri(u) if u == "x"));
}
