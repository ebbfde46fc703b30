//! The request configuration and the reducer that folds arguments into it.

pub mod arguments;
pub mod effector;
pub mod parser;
pub mod spellings;
pub mod types;

use crate::config::arguments::{argument_views, ArgumentView, GemonArgument, GemonArguments};
use crate::config::parser::{parse_token, parsed_tokens};
use crate::config::spellings::{lemma_uri_long, lemma_uri_short};
use crate::config::types::{
    GemonMethodType, GemonPrinter, GemonProjectScenario, GemonScenario, GemonType,
    ProjectScenarioView, ScenarioView,
};
use crate::constants::TIMESTAMP_PATTERN;
use crate::dict::Dict;
use crate::text::{copy_text, text_of};
use vstd::prelude::*;
use vstd::string::StringExecFns;

verus! {

/// The mathematical value of a [`GemonConfigBuilder`]: what the arguments
/// seen so far have set.
pub struct BuilderView {
    pub scenario: ScenarioView,
    pub kind: GemonType,
    pub method: Option<GemonMethodType>,
    pub url: Option<Seq<char>>,
    pub headers: Map<Seq<char>, Seq<char>>,
    pub body: Option<Seq<char>>,
    pub form_data: Map<Seq<char>, Seq<char>>,
    pub write_default_file: bool,
    pub response_file_path: Option<Seq<char>>,
    pub log_response: bool,
    pub also_print_to_terminal: bool,
    pub secure: bool,
}

/// The mathematical value of a [`GemonConfig`].
pub struct ConfigView {
    pub scenario: ScenarioView,
    pub kind: GemonType,
    pub printer: GemonPrinter,
    pub method: Option<GemonMethodType>,
    pub url: Option<Seq<char>>,
    pub headers: Map<Seq<char>, Seq<char>>,
    pub body: Option<Seq<char>>,
    pub form_data: Map<Seq<char>, Seq<char>>,
    pub response_file_path: Option<Seq<char>>,
    pub also_print_to_terminal: bool,
    pub secure: bool,
}

/// The state before any argument: a plain REST request, nothing set.
pub open spec fn initial() -> BuilderView {
    BuilderView {
        scenario: ScenarioView::Request,
        kind: GemonType::Rest,
        method: None,
        url: None,
        headers: Map::empty(),
        body: None,
        form_data: Map::empty(),
        write_default_file: false,
        response_file_path: None,
        log_response: false,
        also_print_to_terminal: false,
        secure: false,
    }
}

/// The state after one more argument. A singular field takes the new value;
/// a header or form-data pair overwrites the pair of the same key; a flag is
/// raised.
pub open spec fn step(b: BuilderView, a: ArgumentView) -> BuilderView {
    match a {
        ArgumentView::Type(t) => BuilderView { kind: t, ..b },
        ArgumentView::Method(m) => BuilderView { method: Some(m), ..b },
        ArgumentView::Uri(u) => BuilderView { url: Some(u), ..b },
        ArgumentView::Header(k, v) => BuilderView { headers: b.headers.insert(k, v), ..b },
        ArgumentView::Body(t) => BuilderView { body: Some(t), ..b },
        ArgumentView::FormData(k, v) => BuilderView { form_data: b.form_data.insert(k, v), ..b },
        ArgumentView::ResponseFilePath(Some(p)) => BuilderView { response_file_path: Some(p), ..b },
        ArgumentView::ResponseFilePath(None) => BuilderView { write_default_file: true, ..b },
        ArgumentView::ProjectSetup(s) => BuilderView { scenario: ScenarioView::Project(s), ..b },
        ArgumentView::MiscScenario(m) => BuilderView { scenario: ScenarioView::Misc(m), ..b },
        ArgumentView::LogResponse => BuilderView { log_response: true, ..b },
        ArgumentView::AlsoPrintToTerminal => BuilderView { also_print_to_terminal: true, ..b },
        ArgumentView::Secure => BuilderView { secure: true, ..b },
    }
}

/// The state after a list of arguments, taken from left to right.
pub open spec fn reduce(args: Seq<ArgumentView>) -> BuilderView
    decreases args.len(),
{
    if args.len() == 0 {
        initial()
    } else {
        step(reduce(args.drop_last()), args.last())
    }
}

/// The name of the default response file of a saved request: in the
/// directory of the request, with the time stamp in the name if responses
/// are logged.
pub open spec fn default_response_file(name: Seq<char>, log: bool, stamp: Seq<char>) -> Seq<char> {
    if log {
        name + "/response_"@ + stamp + ".json"@
    } else {
        name + "/response.json"@
    }
}

/// The file that the response goes to, if any. An explicit path is used as
/// it is. Else, if the default file was asked for, a saved request that is
/// called writes to its default response file, and any other scenario to no
/// file. Else there is no file.
pub open spec fn response_path(
    write_default_file: bool,
    log: bool,
    explicit: Option<Seq<char>>,
    scenario: ScenarioView,
    stamp: Seq<char>,
) -> Option<Seq<char>> {
    match explicit {
        Some(p) => Some(p),
        None => if write_default_file {
            match scenario {
                ScenarioView::Project(ProjectScenarioView::Call(name)) => Some(
                    default_response_file(name, log, stamp),
                ),
                _ => None,
            }
        } else {
            None
        },
    }
}

/// The response file of this state carries a time stamp.
pub open spec fn stamped(b: BuilderView) -> bool {
    b.response_file_path is None && b.write_default_file && b.log_response && b.scenario matches ScenarioView::Project(
        ProjectScenarioView::Call(_),
    )
}

/// The configuration that a state resolves to at the moment `stamp`. The
/// response goes to a file exactly if a response file results.
pub open spec fn finish(b: BuilderView, stamp: Seq<char>) -> ConfigView {
    let path = response_path(
        b.write_default_file,
        b.log_response,
        b.response_file_path,
        b.scenario,
        stamp,
    );
    ConfigView {
        scenario: b.scenario,
        kind: b.kind,
        printer: if path is Some {
            GemonPrinter::File
        } else {
            GemonPrinter::Terminal
        },
        method: b.method,
        url: b.url,
        headers: b.headers,
        body: b.body,
        form_data: b.form_data,
        response_file_path: path,
        also_print_to_terminal: b.also_print_to_terminal,
        secure: b.secure,
    }
}

/// Renders the current local time: `chrono::Local::now()` formatted by
/// `DateTime::format` with the given pattern, which must be the time stamp
/// pattern of this crate, so that formatting cannot fail. The result depends
/// on the clock and the time zone of the machine; nothing is claimed of it.
#[verifier::external_body]
fn local_timestamp(pattern: &str) -> (stamp: String)
    requires
        pattern@ == TIMESTAMP_PATTERN@,
{
    chrono::Local::now().format(pattern).to_string()
}

/// Folds arguments into a configuration.
pub struct GemonConfigBuilder {
    gemon_scenario: GemonScenario,
    gemon_type: GemonType,
    gemon_method_type: Option<GemonMethodType>,
    url: Option<String>,
    headers: Dict<String>,
    body: Option<String>,
    form_data: Dict<String>,
    write_to_request_response_file: bool,
    response_file_path: Option<String>,
    log_response: bool,
    also_print_to_terminal: bool,
    secure: bool,
}

impl View for GemonConfigBuilder {
    type V = BuilderView;

    closed spec fn view(&self) -> BuilderView {
        BuilderView {
            scenario: self.gemon_scenario@,
            kind: self.gemon_type,
            method: self.gemon_method_type,
            url: text_of(self.url),
            headers: self.headers@,
            body: text_of(self.body),
            form_data: self.form_data@,
            write_default_file: self.write_to_request_response_file,
            response_file_path: text_of(self.response_file_path),
            log_response: self.log_response,
            also_print_to_terminal: self.also_print_to_terminal,
            secure: self.secure,
        }
    }
}

impl GemonConfigBuilder {
    /// The builder before any argument.
    pub fn new() -> (out: GemonConfigBuilder)
        ensures
            out@ == initial(),
    {
        GemonConfigBuilder {
            gemon_scenario: GemonScenario::Request,
            gemon_type: GemonType::Rest,
            gemon_method_type: None,
            url: None,
            headers: Dict::new(),
            body: None,
            form_data: Dict::new(),
            response_file_path: None,
            write_to_request_response_file: false,
            log_response: false,
            also_print_to_terminal: false,
            secure: false,
        }
    }

    /// Takes one more argument.
    pub fn process_argument(&mut self, argument: &GemonArgument)
        ensures
            final(self)@ == step(old(self)@, argument@),
    {
        match argument {
            GemonArgument::Type(t) => self.gemon_type = *t,
            GemonArgument::Method { gemon_method_type: t } => self.gemon_method_type = Some(*t),
            GemonArgument::Uri(t) => self.url = Some(t.clone()),
            GemonArgument::Header(key, value) => {
                self.headers.insert(key.clone(), value.clone());
            },
            GemonArgument::Body(b) => self.body = Some(b.clone()),
            GemonArgument::FormData(key, value) => {
                self.form_data.insert(key.clone(), value.clone());
            },
            GemonArgument::ResponseFilePath(f) => match f {
                Some(path) => self.response_file_path = Some(path.clone()),
                None => self.write_to_request_response_file = true,
            },
            GemonArgument::ProjectSetup(scenario) => {
                self.gemon_scenario = GemonScenario::Project(scenario.duplicate())
            },
            GemonArgument::LogResponse => self.log_response = true,
            GemonArgument::AlsoPrintToTerminal => self.also_print_to_terminal = true,
            GemonArgument::MiscScenario(scenario) => {
                self.gemon_scenario = GemonScenario::Misc(*scenario)
            },
            GemonArgument::Secure => self.secure = true,
        }
    }

    /// The file that the response goes to, if any, at the moment `stamp`.
    pub fn build_response_file_path(
        write_to_request_response_file: bool,
        log_response: bool,
        response_file_path: &Option<String>,
        gemon_scenario: &GemonScenario,
        stamp: &str,
    ) -> (out: Option<String>)
        ensures
            text_of(out) == response_path(
                write_to_request_response_file,
                log_response,
                text_of(*response_file_path),
                gemon_scenario@,
                stamp@,
            ),
    {
        match response_file_path {
            Some(path) => Some(path.clone()),
            None => {
                if !write_to_request_response_file {
                    return None;
                }
                match gemon_scenario {
                    GemonScenario::Project(GemonProjectScenario::Call(name)) => {
                        let mut path = name.clone();
                        if log_response {
                            path.append("/response_");
                            path.append(stamp);
                            path.append(".json");
                        } else {
                            path.append("/response.json");
                        }
                        Some(path)
                    },
                    _ => None,
                }
            },
        }
    }

    /// Whether the response file will carry a time stamp.
    pub fn needs_stamp(&self) -> (out: bool)
        ensures
            out == stamped(self@),
    {
        let called = match &self.gemon_scenario {
            GemonScenario::Project(GemonProjectScenario::Call(_)) => true,
            _ => false,
        };
        self.response_file_path.is_none() && self.write_to_request_response_file
            && self.log_response && called
    }

    /// Resolves the configuration at the moment `stamp`.
    pub fn build_at(self, stamp: &str) -> (out: GemonConfig)
        ensures
            out@ == finish(self@, stamp@),
    {
        let path = GemonConfigBuilder::build_response_file_path(
            self.write_to_request_response_file,
            self.log_response,
            &self.response_file_path,
            &self.gemon_scenario,
            stamp,
        );
        GemonConfig {
            gemon_scenario: self.gemon_scenario,
            gemon_type: self.gemon_type,
            gemon_printer: match path {
                Some(_) => GemonPrinter::File,
                None => GemonPrinter::Terminal,
            },
            gemon_method_type: self.gemon_method_type,
            url: self.url,
            headers: self.headers,
            body: self.body,
            form_data: self.form_data,
            response_file_path: path,
            also_print_to_terminal: self.also_print_to_terminal,
            secure: self.secure,
        }
    }

    /// Resolves the configuration now. The clock is read only where the
    /// response file carries a time stamp; otherwise the result is fixed by
    /// the arguments.
    pub fn build(self) -> (out: GemonConfig)
        ensures
            exists|stamp: Seq<char>| out@ == finish(self@, stamp),
            !stamped(self@) ==> out@ == finish(self@, Seq::empty()),
    {
        let stamp = if self.needs_stamp() {
            local_timestamp(TIMESTAMP_PATTERN)
        } else {
            String::new()
        };
        self.build_at(stamp.as_str())
    }
}

/// The fully reduced description of one run.
#[derive(Debug)]
pub struct GemonConfig {
    gemon_scenario: GemonScenario,
    gemon_type: GemonType,
    gemon_printer: GemonPrinter,
    gemon_method_type: Option<GemonMethodType>,
    url: Option<String>,
    headers: Dict<String>,
    body: Option<String>,
    form_data: Dict<String>,
    response_file_path: Option<String>,
    also_print_to_terminal: bool,
    secure: bool,
}

impl View for GemonConfig {
    type V = ConfigView;

    closed spec fn view(&self) -> ConfigView {
        ConfigView {
            scenario: self.gemon_scenario@,
            kind: self.gemon_type,
            printer: self.gemon_printer,
            method: self.gemon_method_type,
            url: text_of(self.url),
            headers: self.headers@,
            body: text_of(self.body),
            form_data: self.form_data@,
            response_file_path: text_of(self.response_file_path),
            also_print_to_terminal: self.also_print_to_terminal,
            secure: self.secure,
        }
    }
}

impl GemonConfig {
    /// Reduces the arguments of a run at the moment `stamp`.
    pub fn new_at(gemon_arguments: &GemonArguments, stamp: &str) -> (out: GemonConfig)
        ensures
            out@ == finish(reduce(gemon_arguments@), stamp@),
    {
        GemonConfig::reduced(gemon_arguments).build_at(stamp)
    }

    fn reduced(gemon_arguments: &GemonArguments) -> (out: GemonConfigBuilder)
        ensures
            out@ == reduce(gemon_arguments@),
    {
        let mut builder = GemonConfigBuilder::new();
        let arguments = gemon_arguments.arguments();
        let ghost all = argument_views(arguments@);
        let mut i: usize = 0;
        assert(all.take(0) =~= Seq::<ArgumentView>::empty());
        while i < arguments.len()
            invariant
                i <= arguments.len(),
                all == argument_views(arguments@),
                builder@ == reduce(all.take(i as int)),
            decreases arguments.len() - i,
        {
            proof {
                assert(all.take(i + 1).drop_last() =~= all.take(i as int));
                assert(all.take(i + 1).last() == arguments@[i as int]@);
            }
            builder.process_argument(&arguments[i]);
            i += 1;
        }
        assert(all.take(arguments.len() as int) =~= all);
        builder
    }

    /// Reduces the arguments of a run now. The clock is read only where the
    /// response file carries a time stamp.
    pub fn new(gemon_arguments: &GemonArguments) -> (out: Result<GemonConfig, std::io::Error>)
        ensures
            out matches Ok(config) && (exists|stamp: Seq<char>|
                config@ == finish(reduce(gemon_arguments@), stamp)) && (!stamped(
                reduce(gemon_arguments@),
            ) ==> config@ == finish(reduce(gemon_arguments@), Seq::empty())),
    {
        let builder = GemonConfig::reduced(gemon_arguments);
        Ok(builder.build())
    }

    /// The action of the run.
    pub fn gemon_scenario(&self) -> (out: &GemonScenario)
        ensures
            out@ == self@.scenario,
    {
        &self.gemon_scenario
    }

    /// The kind of the request.
    pub fn gemon_type(&self) -> (out: &GemonType)
        ensures
            *out == self@.kind,
    {
        &self.gemon_type
    }

    /// Where the response goes.
    pub fn gemon_printer(&self) -> (out: &GemonPrinter)
        ensures
            *out == self@.printer,
    {
        &self.gemon_printer
    }

    /// The method of the request: `Get` where none was given.
    pub fn gemon_method_type(&self) -> (out: GemonMethodType)
        ensures
            out == match self@.method {
                Some(m) => m,
                None => GemonMethodType::Get,
            },
    {
        match self.gemon_method_type {
            Some(m) => m,
            None => GemonMethodType::Get,
        }
    }

    /// The URL of the request: empty where none was given.
    pub fn gemon_url(&self) -> (out: String)
        ensures
            out@ == match self@.url {
                Some(u) => u,
                None => Seq::empty(),
            },
    {
        match &self.url {
            Some(u) => u.clone(),
            None => String::new(),
        }
    }

    /// The headers of the request.
    pub fn gemon_headers(&self) -> (out: &Dict<String>)
        ensures
            out@ == self@.headers,
    {
        &self.headers
    }

    /// The body of the request.
    pub fn gemon_body(&self) -> (out: Option<String>)
        ensures
            text_of(out) == self@.body,
    {
        copy_text(&self.body)
    }

    /// The form-data pairs of the request.
    pub fn gemon_form_data(&self) -> (out: &Dict<String>)
        ensures
            out@ == self@.form_data,
    {
        &self.form_data
    }

    /// The file that the response goes to, if any.
    pub fn gemon_response_file_path(&self) -> (out: Option<String>)
        ensures
            text_of(out) == self@.response_file_path,
    {
        copy_text(&self.response_file_path)
    }

    /// Whether a response that goes to a file is printed as well.
    pub fn gemon_also_print_to_terminal(&self) -> (out: bool)
        ensures
            out == self@.also_print_to_terminal,
    {
        self.also_print_to_terminal
    }

    /// Whether the request is to carry the authorization of the project.
    pub fn gemon_secure(&self) -> (out: bool)
        ensures
            out == self@.secure,
    {
        self.secure
    }
}

/// The state after a non-empty list of arguments is the state after all but
/// the last, stepped by the last; the step of a list of one is the step from
/// the initial state.
pub proof fn lemma_reduce_push(args: Seq<ArgumentView>, a: ArgumentView)
    ensures
        reduce(args.push(a)) == step(reduce(args), a),
{
    assert(args.push(a).drop_last() =~= args);
}

/// Of the arguments that set the URL, the last one wins.
pub proof fn lemma_last_uri_wins(args: Seq<ArgumentView>, i: int, uri: Seq<char>)
    requires
        0 <= i < args.len(),
        args[i] == ArgumentView::Uri(uri),
        forall|j: int| i < j < args.len() ==> !(args[j] is Uri),
    ensures
        reduce(args).url == Some(uri),
    decreases args.len(),
{
    if i < args.len() - 1 {
        lemma_last_uri_wins(args.drop_last(), i, uri);
        assert(!(args[args.len() - 1] is Uri));
    }
}

/// Of the arguments that set the method, the last one wins.
pub proof fn lemma_last_method_wins(args: Seq<ArgumentView>, i: int, method: GemonMethodType)
    requires
        0 <= i < args.len(),
        args[i] == ArgumentView::Method(method),
        forall|j: int| i < j < args.len() ==> !(args[j] is Method),
    ensures
        reduce(args).method == Some(method),
    decreases args.len(),
{
    if i < args.len() - 1 {
        lemma_last_method_wins(args.drop_last(), i, method);
        assert(!(args[args.len() - 1] is Method));
    }
}

/// Of the arguments that set the request kind, the last one wins.
pub proof fn lemma_last_type_wins(args: Seq<ArgumentView>, i: int, kind: GemonType)
    requires
        0 <= i < args.len(),
        args[i] == ArgumentView::Type(kind),
        forall|j: int| i < j < args.len() ==> !(args[j] is Type),
    ensures
        reduce(args).kind == kind,
    decreases args.len(),
{
    if i < args.len() - 1 {
        lemma_last_type_wins(args.drop_last(), i, kind);
        assert(!(args[args.len() - 1] is Type));
    }
}

/// Of the arguments that set the body, the last one wins.
pub proof fn lemma_last_body_wins(args: Seq<ArgumentView>, i: int, body: Seq<char>)
    requires
        0 <= i < args.len(),
        args[i] == ArgumentView::Body(body),
        forall|j: int| i < j < args.len() ==> !(args[j] is Body),
    ensures
        reduce(args).body == Some(body),
    decreases args.len(),
{
    if i < args.len() - 1 {
        lemma_last_body_wins(args.drop_last(), i, body);
        assert(!(args[args.len() - 1] is Body));
    }
}

/// The argument sets the header of the given name.
pub open spec fn sets_header(a: ArgumentView, name: Seq<char>) -> bool {
    a matches ArgumentView::Header(n, _) && n == name
}

/// Of the arguments that set a header of one name, the last one wins,
/// whatever headers of other names come after it.
pub proof fn lemma_last_header_wins(
    args: Seq<ArgumentView>,
    i: int,
    name: Seq<char>,
    value: Seq<char>,
)
    requires
        0 <= i < args.len(),
        args[i] == ArgumentView::Header(name, value),
        forall|j: int| i < j < args.len() ==> !sets_header(#[trigger] args[j], name),
    ensures
        reduce(args).headers.contains_key(name),
        reduce(args).headers[name] == value,
    decreases args.len(),
{
    if i < args.len() - 1 {
        lemma_last_header_wins(args.drop_last(), i, name, value);
        assert(!sets_header(args[args.len() - 1], name));
    }
}

/// Without a time stamp in the file name the moment does not matter.
pub proof fn lemma_finish_without_stamp(b: BuilderView, first: Seq<char>, second: Seq<char>)
    requires
        !stamped(b),
    ensures
        finish(b, first) == finish(b, second),
{
}

/// The token sets the URL.
pub open spec fn sets_url(t: Seq<char>) -> bool {
    parse_token(t) matches Some(ArgumentView::Uri(_))
}

/// In a list of tokens, the last token that sets the URL decides it,
/// whichever spelling of the flag it and the earlier ones use.
pub proof fn lemma_later_url_token_wins(tokens: Seq<Seq<char>>, i: int, value: Seq<char>)
    requires
        0 <= i < tokens.len(),
        parse_token(tokens[i]) == Some(ArgumentView::Uri(value)),
        forall|j: int| i < j < tokens.len() ==> !sets_url(#[trigger] tokens[j]),
    ensures
        reduce(parsed_tokens(tokens)).url == Some(value),
    decreases tokens.len(),
{
    let rest = parsed_tokens(tokens.drop_last());
    if i == tokens.len() - 1 {
        lemma_reduce_push(rest, ArgumentView::Uri(value));
    } else {
        lemma_later_url_token_wins(tokens.drop_last(), i, value);
        assert(!sets_url(tokens[tokens.len() - 1]));
        match parse_token(tokens.last()) {
            Some(a) => {
                lemma_reduce_push(rest, a);
            },
            None => {},
        }
    }
}

/// The token sets the method.
pub open spec fn sets_method(t: Seq<char>) -> bool {
    parse_token(t) matches Some(ArgumentView::Method(_))
}

/// In a list of tokens, the last token that sets the method decides it,
/// whichever spelling of the flag it and the earlier ones use.
pub proof fn lemma_later_method_token_wins(tokens: Seq<Seq<char>>, i: int, value: GemonMethodType)
    requires
        0 <= i < tokens.len(),
        parse_token(tokens[i]) == Some(ArgumentView::Method(value)),
        forall|j: int| i < j < tokens.len() ==> !sets_method(#[trigger] tokens[j]),
    ensures
        reduce(parsed_tokens(tokens)).method == Some(value),
    decreases tokens.len(),
{
    let rest = parsed_tokens(tokens.drop_last());
    if i == tokens.len() - 1 {
        lemma_reduce_push(rest, ArgumentView::Method(value));
    } else {
        lemma_later_method_token_wins(tokens.drop_last(), i, value);
        assert(!sets_method(tokens[tokens.len() - 1]));
        match parse_token(tokens.last()) {
            Some(a) => {
                lemma_reduce_push(rest, a);
            },
            None => {},
        }
    }
}

/// The token sets the request kind.
pub open spec fn sets_kind(t: Seq<char>) -> bool {
    parse_token(t) matches Some(ArgumentView::Type(_))
}

/// In a list of tokens, the last token that sets the request kind decides it,
/// whichever spelling of the flag it and the earlier ones use.
pub proof fn lemma_later_kind_token_wins(tokens: Seq<Seq<char>>, i: int, value: GemonType)
    requires
        0 <= i < tokens.len(),
        parse_token(tokens[i]) == Some(ArgumentView::Type(value)),
        forall|j: int| i < j < tokens.len() ==> !sets_kind(#[trigger] tokens[j]),
    ensures
        reduce(parsed_tokens(tokens)).kind == value,
    decreases tokens.len(),
{
    let rest = parsed_tokens(tokens.drop_last());
    if i == tokens.len() - 1 {
        lemma_reduce_push(rest, ArgumentView::Type(value));
    } else {
        lemma_later_kind_token_wins(tokens.drop_last(), i, value);
        assert(!sets_kind(tokens[tokens.len() - 1]));
        match parse_token(tokens.last()) {
            Some(a) => {
                lemma_reduce_push(rest, a);
            },
            None => {},
        }
    }
}

/// The token sets the body.
pub open spec fn sets_body(t: Seq<char>) -> bool {
    parse_token(t) matches Some(ArgumentView::Body(_))
}

/// In a list of tokens, the last token that sets the body decides it,
/// whichever spelling of the flag it and the earlier ones use.
pub proof fn lemma_later_body_token_wins(tokens: Seq<Seq<char>>, i: int, value: Seq<char>)
    requires
        0 <= i < tokens.len(),
        parse_token(tokens[i]) == Some(ArgumentView::Body(value)),
        forall|j: int| i < j < tokens.len() ==> !sets_body(#[trigger] tokens[j]),
    ensures
        reduce(parsed_tokens(tokens)).body == Some(value),
    decreases tokens.len(),
{
    let rest = parsed_tokens(tokens.drop_last());
    if i == tokens.len() - 1 {
        lemma_reduce_push(rest, ArgumentView::Body(value));
    } else {
        lemma_later_body_token_wins(tokens.drop_last(), i, value);
        assert(!sets_body(tokens[tokens.len() - 1]));
        match parse_token(tokens.last()) {
            Some(a) => {
                lemma_reduce_push(rest, a);
            },
            None => {},
        }
    }
}

/// Of two URL tokens the later one decides the URL, in each combination of
/// the short and the long spelling.
pub proof fn lemma_later_uri_spelling_wins(first: Seq<char>, second: Seq<char>)
    ensures
        reduce(parsed_tokens(seq!["-u="@ + first, "-u="@ + second])).url == Some(second),
        reduce(parsed_tokens(seq!["-u="@ + first, "--uri="@ + second])).url == Some(second),
        reduce(parsed_tokens(seq!["--uri="@ + first, "-u="@ + second])).url == Some(second),
        reduce(parsed_tokens(seq!["--uri="@ + first, "--uri="@ + second])).url == Some(second),
{
    lemma_uri_short(second);
    lemma_uri_long(second);
    lemma_later_url_token_wins(seq!["-u="@ + first, "-u="@ + second], 1, second);
    lemma_later_url_token_wins(seq!["-u="@ + first, "--uri="@ + second], 1, second);
    lemma_later_url_token_wins(seq!["--uri="@ + first, "-u="@ + second], 1, second);
    lemma_later_url_token_wins(seq!["--uri="@ + first, "--uri="@ + second], 1, second);
}

} // verus!
