use gemon::config::arguments::{GemonArgument, GemonArguments};
use gemon::config::effector::Effector;
use gemon::config::types::{
    GemonMethodType, GemonPrinter, GemonProjectScenario, GemonScenario, GemonType,
};
use gemon::config::{GemonConfig, GemonConfigBuilder};
use gemon::project::Environment;

fn args(list: &[&str]) -> GemonArguments {
    GemonArguments::new(list.iter().map(|t| t.to_string()).collect()).unwrap()
}

fn config(list: &[&str]) -> GemonConfig {
    GemonConfig::new(&args(list)).unwrap()
}

#[test]
fn plain_get_request_goes_to_the_terminal() {
    let c = config(&["prog", "-m=GET", "-u=https://api.example.com/x"]);
    assert_eq!(c.gemon_method_type(), GemonMethodType::Get);
    assert_eq!(c.gemon_url(), "https://api.example.com/x");
    assert_eq!(*c.gemon_printer(), GemonPrinter::Terminal);
    assert_eq!(c.gemon_response_file_path(), None);
    assert!(matches!(c.gemon_scenario(), GemonScenario::Request));
    assert_eq!(*c.gemon_type(), GemonType::Rest);
}

#[test]
fn default_file_of_a_called_request() {
    let c = config(&["prog", "-c=login", "-u=https://api.example.com", "-f"]);
    assert_eq!(c.gemon_response_file_path(), Some("login/response.json".to_string()));
    assert_eq!(*c.gemon_printer(), GemonPrinter::File);
    assert!(matches!(c.gemon_scenario(), GemonScenario::Project(GemonProjectScenario::Call(n)) if n == "login"));
}

#[test]
fn default_file_through_the_path_rule() {
    let scenario = GemonScenario::Project(GemonProjectScenario::Call("login".to_string()));
    let path = GemonConfigBuilder::build_response_file_path(true, false, &None, &scenario, "");
    assert_eq!(path, Some("login/response.json".to_string()));
}

#[test]
fn logged_file_of_a_called_request_carries_a_time_stamp() {
    let c = config(&["prog", "-c=login", "-u=https://api.example.com", "-f", "-l"]);
    let path = c.gemon_response_file_path().unwrap();
    assert!(path.starts_with("login/response_"));
    assert!(path.ends_with(".json"));
    let stamp = &path["login/response_".len()..path.len() - ".json".len()];
    assert_eq!(stamp.len(), 19);
    for (i, ch) in stamp.chars().enumerate() {
        if i == 4 || i == 7 || i == 10 || i == 13 || i == 16 {
            assert_eq!(ch, '_');
        } else {
            assert!(ch.is_ascii_digit());
        }
    }
    assert_eq!(*c.gemon_printer(), GemonPrinter::File);
}

#[test]
fn logged_file_at_a_given_moment() {
    let a = args(&["prog", "-c=login", "-u=https://api.example.com", "-f", "-l"]);
    let c = GemonConfig::new_at(&a, "2024_01_31_23_59_58");
    assert_eq!(
        c.gemon_response_file_path(),
        Some("login/response_2024_01_31_23_59_58.json".to_string())
    );
}

#[test]
fn logged_file_through_the_path_rule() {
    let scenario = GemonScenario::Project(GemonProjectScenario::Call("login".to_string()));
    let path = GemonConfigBuilder::build_response_file_path(true, true, &None, &scenario, "S");
    assert_eq!(path, Some("login/response_S.json".to_string()));
}

#[test]
fn default_file_without_a_call_falls_back_to_the_terminal() {
    let c = config(&["prog", "-u=https://api.example.com", "-f"]);
    assert_eq!(c.gemon_response_file_path(), None);
    assert_eq!(*c.gemon_printer(), GemonPrinter::Terminal);
    let c = config(&["prog", "-s=login", "-u=https://api.example.com", "-f", "-l"]);
    assert_eq!(c.gemon_response_file_path(), None);
    assert_eq!(*c.gemon_printer(), GemonPrinter::Terminal);
}

#[test]
fn explicit_file_is_used_as_it_is() {
    let c = config(&["prog", "-u=x", "-rf=out/r.json"]);
    assert_eq!(c.gemon_response_file_path(), Some("out/r.json".to_string()));
    assert_eq!(*c.gemon_printer(), GemonPrinter::File);
}

#[test]
fn explicit_file_beats_the_default_file() {
    let c = config(&["prog", "-c=login", "-f", "-l", "--response-file=mine.json"]);
    assert_eq!(c.gemon_response_file_path(), Some("mine.json".to_string()));
    let c = config(&["prog", "-c=login", "-rf=mine.json", "-f"]);
    assert_eq!(c.gemon_response_file_path(), Some("mine.json".to_string()));
}

#[test]
fn no_file_flag_means_terminal() {
    let c = config(&["prog", "-c=login", "-l"]);
    assert_eq!(c.gemon_response_file_path(), None);
    assert_eq!(*c.gemon_printer(), GemonPrinter::Terminal);
}

#[test]
fn later_uri_wins_whatever_the_spelling() {
    assert_eq!(config(&["prog", "-u=a", "--uri=b"]).gemon_url(), "b");
    assert_eq!(config(&["prog", "--uri=a", "-u=b"]).gemon_url(), "b");
    assert_eq!(config(&["prog", "-u=a", "-m=GET", "-u=b", "-l", "--uri=c"]).gemon_url(), "c");
}

#[test]
fn later_method_type_and_body_win() {
    let c = config(&["prog", "--method=POST", "-m=DELETE", "-t=PROTO", "--type=REST", "-b=1", "--body=2"]);
    assert_eq!(c.gemon_method_type(), GemonMethodType::Delete);
    assert_eq!(*c.gemon_type(), GemonType::Rest);
    assert_eq!(c.gemon_body(), Some("2".to_string()));
    let c = config(&["prog", "-m=DELETE", "--method=POST", "--type=REST", "-t=PROTO", "--body=2", "-b=1"]);
    assert_eq!(c.gemon_method_type(), GemonMethodType::Post);
    assert_eq!(*c.gemon_type(), GemonType::Proto);
    assert_eq!(c.gemon_body(), Some("1".to_string()));
}

#[test]
fn later_scenario_wins() {
    let c = config(&["prog", "-s=a", "-c=b"]);
    assert!(matches!(c.gemon_scenario(), GemonScenario::Project(GemonProjectScenario::Call(n)) if n == "b"));
    let c = config(&["prog", "-c=b", "-v"]);
    assert!(matches!(c.gemon_scenario(), GemonScenario::Misc(_)));
}

#[test]
fn headers_and_form_data_merge_by_key() {
    let c = config(&[
        "prog", "-h=Accept::a", "--header=X-Id::1", "-h=Accept::b", "-fd=user::u", "--form-data=user::v",
        "-fd=pass::p",
    ]);
    let headers = c.gemon_headers();
    assert_eq!(headers.len(), 2);
    assert_eq!(headers.get("Accept"), Some(&"b".to_string()));
    assert_eq!(headers.get("X-Id"), Some(&"1".to_string()));
    assert_eq!(headers.get("accept"), None);
    let form = c.gemon_form_data();
    assert_eq!(form.len(), 2);
    assert_eq!(form.get("user"), Some(&"v".to_string()));
    assert_eq!(form.get("pass"), Some(&"p".to_string()));
}

#[test]
fn defaults_of_an_empty_run() {
    let c = config(&["prog", "nothing"]);
    assert_eq!(c.gemon_method_type(), GemonMethodType::Get);
    assert_eq!(c.gemon_url(), "");
    assert_eq!(c.gemon_body(), None);
    assert_eq!(c.gemon_headers().len(), 0);
    assert_eq!(c.gemon_form_data().len(), 0);
    assert!(!c.gemon_also_print_to_terminal());
    assert!(!c.gemon_secure());
    assert!(matches!(c.gemon_scenario(), GemonScenario::Request));
}

#[test]
fn no_tokens_resolve_to_help() {
    let c = config(&["prog"]);
    assert!(matches!(c.gemon_scenario(), GemonScenario::Project(GemonProjectScenario::Help)));
    let c = config(&[]);
    assert!(matches!(c.gemon_scenario(), GemonScenario::Project(GemonProjectScenario::Help)));
}

#[test]
fn flags_are_raised() {
    let c = config(&["prog", "-p", "-sec", "-u=x"]);
    assert!(c.gemon_also_print_to_terminal());
    assert!(c.gemon_secure());
    let c = config(&["prog", "--print", "--secure"]);
    assert!(c.gemon_also_print_to_terminal());
    assert!(c.gemon_secure());
}

#[test]
fn builder_takes_arguments_one_by_one() {
    let mut builder = GemonConfigBuilder::new();
    assert!(!builder.needs_stamp());
    builder.process_argument(&GemonArgument::Uri("a".to_string()));
    builder.process_argument(&GemonArgument::ProjectSetup(GemonProjectScenario::Call("n".to_string())));
    builder.process_argument(&GemonArgument::ResponseFilePath(None));
    assert!(!builder.needs_stamp());
    builder.process_argument(&GemonArgument::LogResponse);
    assert!(builder.needs_stamp());
    builder.process_argument(&GemonArgument::Uri("b".to_string()));
    let c = builder.build_at("T");
    assert_eq!(c.gemon_url(), "b");
    assert_eq!(c.gemon_response_file_path(), Some("n/response_T.json".to_string()));
}

#[test]
fn builder_without_stamp_builds_the_same_now_and_at_any_moment() {
    let mut first = GemonConfigBuilder::new();
    first.process_argument(&GemonArgument::ProjectSetup(GemonProjectScenario::Call("n".to_string())));
    first.process_argument(&GemonArgument::ResponseFilePath(None));
    let mut second = GemonConfigBuilder::new();
    second.process_argument(&GemonArgument::ProjectSetup(GemonProjectScenario::Call("n".to_string())));
    second.process_argument(&GemonArgument::ResponseFilePath(None));
    assert_eq!(first.build().gemon_response_file_path(), second.build_at("x").gemon_response_file_path());
}

#[test]
fn environment_value_is_substituted_into_the_uri() {
    let env = Some(Environment::from(("base_uri".to_string(), "https://api.example.com".to_string())));
    let tokens = Effector::apply_env_to_args(&env, vec!["prog".to_string(), "-u={base_uri}/path".to_string()]);
    assert_eq!(tokens, vec!["prog".to_string(), "-u=https://api.example.com/path".to_string()]);
    let c = GemonConfig::new(&GemonArguments::new(tokens).unwrap()).unwrap();
    assert_eq!(c.gemon_url(), "https://api.example.com/path");
}
