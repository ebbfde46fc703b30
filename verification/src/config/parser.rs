//! The value sub-parsers and the step from a token to its argument.

use crate::command::{classify, payload_of, CommandView, GemonCommand};
use crate::config::arguments::{ArgumentView, GemonArgument};
use crate::config::types::{
    GemonMethodType, GemonProjectScenario, GemonType, MiscScenario, ProjectScenarioView,
};
use crate::text::{
    chars_of, lemma_split_without_delimiter, occurs_at, skip_chars, split, split_on, string_of,
};
use vstd::prelude::*;
use vstd::string::StrSliceExecFns;

verus! {

/// The delimiter `::` between the parts of a payload. A value may hold single
/// colons, as URLs do, but not this sequence.
pub open spec fn delimiter() -> Seq<char> {
    seq![':', ':']
}

/// The parts of a payload.
pub open spec fn parts_of(payload: Seq<char>) -> Seq<Seq<char>> {
    split(payload, delimiter())
}

/// How many parts the payload of a command must have.
pub open spec fn arity(c: CommandView) -> nat {
    match c {
        CommandView::Header(_, _) => 2,
        CommandView::FormData(_, _) => 2,
        CommandView::RemoveEnvValue(_, _) => 2,
        CommandView::AddEnv(_, _) => 3,
        _ => 0,
    }
}

/// A token can be parsed: where its flag takes two or three parts, the
/// payload has them.
pub open spec fn token_well_formed(t: Seq<char>) -> bool {
    parts_of(payload_of(classify(t))).len() >= arity(classify(t))
}

/// Every token of the list can be parsed.
pub open spec fn tokens_well_formed(tokens: Seq<Seq<char>>) -> bool {
    forall|i: int| 0 <= i < tokens.len() ==> token_well_formed(#[trigger] tokens[i])
}

/// The argument that a recognized command resolves to; `Invalid` resolves to
/// none. Both spellings of a flag resolve to the same argument: only the
/// length of the flag that is stripped differs.
pub open spec fn argument_of(c: CommandView) -> Option<ArgumentView> {
    let payload = payload_of(c);
    let parts = parts_of(payload);
    match c {
        CommandView::Invalid => None,
        CommandView::Help => Some(ArgumentView::ProjectSetup(ProjectScenarioView::Help)),
        CommandView::Version => Some(ArgumentView::MiscScenario(MiscScenario::Version)),
        CommandView::Init(_) => Some(ArgumentView::ProjectSetup(ProjectScenarioView::Init)),
        CommandView::PrintEnvAll(_) => Some(
            ArgumentView::ProjectSetup(ProjectScenarioView::PrintEnvAll),
        ),
        CommandView::PrintEnv(_) => Some(ArgumentView::ProjectSetup(ProjectScenarioView::PrintEnv)),
        CommandView::PrintLastCall(_) => Some(
            ArgumentView::ProjectSetup(ProjectScenarioView::PrintLastCall),
        ),
        CommandView::TypeRest(_) => Some(ArgumentView::Type(GemonType::Rest)),
        CommandView::TypeWebsocket(_) => Some(ArgumentView::Type(GemonType::Websocket)),
        CommandView::TypeProto(_) => Some(ArgumentView::Type(GemonType::Proto)),
        CommandView::MethodGet(_) => Some(ArgumentView::Method(GemonMethodType::Get)),
        CommandView::MethodPost(_) => Some(ArgumentView::Method(GemonMethodType::Post)),
        CommandView::MethodDelete(_) => Some(ArgumentView::Method(GemonMethodType::Delete)),
        CommandView::MethodPut(_) => Some(ArgumentView::Method(GemonMethodType::Put)),
        CommandView::MethodPatch(_) => Some(ArgumentView::Method(GemonMethodType::Patch)),
        CommandView::File(_) => Some(ArgumentView::ResponseFilePath(None)),
        CommandView::LogResponse(_) => Some(ArgumentView::LogResponse),
        CommandView::AlsoPrintToTerminal(_) => Some(ArgumentView::AlsoPrintToTerminal),
        CommandView::Uri(_, _) => Some(ArgumentView::Uri(payload)),
        CommandView::Header(_, _) => Some(ArgumentView::Header(parts[0], parts[1])),
        CommandView::Body(_, _) => Some(ArgumentView::Body(payload)),
        CommandView::FormData(_, _) => Some(ArgumentView::FormData(parts[0], parts[1])),
        CommandView::ResponseFile(_, _) => Some(ArgumentView::ResponseFilePath(Some(payload))),
        CommandView::Save(_, _) => Some(
            ArgumentView::ProjectSetup(ProjectScenarioView::Save(payload)),
        ),
        CommandView::Call(_, _) => Some(
            ArgumentView::ProjectSetup(ProjectScenarioView::Call(payload)),
        ),
        CommandView::SaveAndCall(_, _) => Some(
            ArgumentView::ProjectSetup(ProjectScenarioView::SaveAndCall(payload)),
        ),
        CommandView::Delete(_, _) => Some(
            ArgumentView::ProjectSetup(ProjectScenarioView::Delete(payload)),
        ),
        CommandView::RemoveEnv(_, _) => Some(
            ArgumentView::ProjectSetup(ProjectScenarioView::RemoveEnv(payload)),
        ),
        CommandView::AddEnv(_, _) => Some(
            ArgumentView::ProjectSetup(ProjectScenarioView::AddEnv(parts[0], parts[1], parts[2])),
        ),
        CommandView::RemoveEnvValue(_, _) => Some(
            ArgumentView::ProjectSetup(ProjectScenarioView::RemoveEnvValue(parts[0], parts[1])),
        ),
        CommandView::SelectEnv(_, _) => Some(
            ArgumentView::ProjectSetup(ProjectScenarioView::SelectEnv(payload)),
        ),
        CommandView::AddAuthorization(_, _) => Some(
            ArgumentView::ProjectSetup(ProjectScenarioView::AddAuthorization(payload)),
        ),
        CommandView::RemoveAuthorization => Some(
            ArgumentView::ProjectSetup(ProjectScenarioView::RemoveAuthorization),
        ),
        CommandView::Secure => Some(ArgumentView::Secure),
    }
}

/// The argument of one token, if the token is recognized.
pub open spec fn parse_token(t: Seq<char>) -> Option<ArgumentView> {
    argument_of(classify(t))
}

/// The arguments of the recognized tokens of a list, in order.
pub open spec fn parsed_tokens(tokens: Seq<Seq<char>>) -> Seq<ArgumentView>
    decreases tokens.len(),
{
    if tokens.len() == 0 {
        Seq::empty()
    } else {
        let rest = parsed_tokens(tokens.drop_last());
        match parse_token(tokens.last()) {
            Some(a) => rest.push(a),
            None => rest,
        }
    }
}

/// The view of an optional argument.
pub open spec fn parsed_view(a: Option<GemonArgument>) -> Option<ArgumentView> {
    match a {
        Some(x) => Some(x@),
        None => None,
    }
}

/// The tail of `s` from character `i` on. Any tail is accepted, the empty one
/// too.
pub fn simple_arg_parser(s: &str, i: usize) -> (out: String)
    requires
        i <= s@.len(),
    ensures
        out@ == s@.skip(i as int),
{
    let chars = chars_of(s);
    string_of(&chars, i, chars.len())
}

/// All `::`-separated parts of the tail of `s` from character `i` on.
pub fn payload_parts(s: &str, i: usize) -> (parts: Vec<String>)
    requires
        i <= s@.len(),
    ensures
        crate::text::views(parts@) == parts_of(s@.skip(i as int)),
{
    let chars = chars_of(s);
    let tail = skip_chars(&chars, i);
    let mut delim: Vec<char> = Vec::new();
    delim.push(':');
    delim.push(':');
    assert(delim@ =~= delimiter());
    split_on(&tail, &delim)
}

/// The first two `::`-separated parts of the tail of `s` from character `i`
/// on. Further parts are ignored.
pub fn key_value_pair_arg_parser(s: &str, i: usize) -> (out: (String, String))
    requires
        i <= s@.len(),
        parts_of(s@.skip(i as int)).len() >= 2,
    ensures
        out.0@ == parts_of(s@.skip(i as int))[0],
        out.1@ == parts_of(s@.skip(i as int))[1],
{
    let parts = payload_parts(s, i);
    assert(crate::text::views(parts@)[0] == parts@[0]@);
    assert(crate::text::views(parts@)[1] == parts@[1]@);
    (parts[0].clone(), parts[1].clone())
}

/// The first three `::`-separated parts of the tail of `s` from character
/// `i` on. Further parts are ignored.
pub fn triple_value_arg_parser(s: &str, i: usize) -> (out: (String, String, String))
    requires
        i <= s@.len(),
        parts_of(s@.skip(i as int)).len() >= 3,
    ensures
        out.0@ == parts_of(s@.skip(i as int))[0],
        out.1@ == parts_of(s@.skip(i as int))[1],
        out.2@ == parts_of(s@.skip(i as int))[2],
{
    let parts = payload_parts(s, i);
    assert(crate::text::views(parts@)[0] == parts@[0]@);
    assert(crate::text::views(parts@)[1] == parts@[1]@);
    assert(crate::text::views(parts@)[2] == parts@[2]@);
    (parts[0].clone(), parts[1].clone(), parts[2].clone())
}

/// Whether a token can be parsed.
#[verifier::rlimit(50)]
pub fn is_well_formed(token: &str) -> (ok: bool)
    ensures
        ok == token_well_formed(token@),
{
    let cmd = GemonCommand::from(String::from_str(token));
    let offset = cmd.flag().unicode_len();
    match cmd {
        GemonCommand::Header(s, _) | GemonCommand::FormData(s, _) | GemonCommand::RemoveEnvValue(
            s,
            _,
        ) => payload_parts(s.as_str(), offset).len() >= 2,
        GemonCommand::AddEnv(s, _) => payload_parts(s.as_str(), offset).len() >= 3,
        _ => true,
    }
}

/// Turns a token into its argument.
pub trait GemonArgumentParser: Sized {
    /// The characters of the token.
    spec fn token(&self) -> Seq<char>;

    /// The argument of the token, or `None` for a token that is not
    /// recognized.
    fn parse_argument(self) -> (out: Option<GemonArgument>)
        requires
            token_well_formed(self.token()),
        ensures
            parsed_view(out) == parse_token(self.token()),
    ;
}

impl GemonArgumentParser for String {
    open spec fn token(&self) -> Seq<char> {
        self@
    }

    #[verifier::rlimit(50)]
    fn parse_argument(self) -> (out: Option<GemonArgument>) {
        let cmd = GemonCommand::from(self);
        let offset = cmd.flag().unicode_len();
        match cmd {
            GemonCommand::Invalid => None,
            GemonCommand::Help => Some(GemonArgument::ProjectSetup(GemonProjectScenario::Help)),
            GemonCommand::Version => Some(GemonArgument::MiscScenario(MiscScenario::Version)),
            GemonCommand::Init(_) => Some(GemonArgument::ProjectSetup(GemonProjectScenario::Init)),
            GemonCommand::PrintEnvAll(_) => Some(
                GemonArgument::ProjectSetup(GemonProjectScenario::PrintEnvAll),
            ),
            GemonCommand::PrintEnv(_) => Some(
                GemonArgument::ProjectSetup(GemonProjectScenario::PrintEnv),
            ),
            GemonCommand::PrintLastCall(_) => Some(
                GemonArgument::ProjectSetup(GemonProjectScenario::PrintLastCall),
            ),
            GemonCommand::TypeRest(_) => Some(GemonArgument::Type(GemonType::Rest)),
            GemonCommand::TypeWebsocket(_) => Some(GemonArgument::Type(GemonType::Websocket)),
            GemonCommand::TypeProto(_) => Some(GemonArgument::Type(GemonType::Proto)),
            GemonCommand::MethodGet(_) => Some(
                GemonArgument::Method { gemon_method_type: GemonMethodType::Get },
            ),
            GemonCommand::MethodPost(_) => Some(
                GemonArgument::Method { gemon_method_type: GemonMethodType::Post },
            ),
            GemonCommand::MethodDelete(_) => Some(
                GemonArgument::Method { gemon_method_type: GemonMethodType::Delete },
            ),
            GemonCommand::MethodPut(_) => Some(
                GemonArgument::Method { gemon_method_type: GemonMethodType::Put },
            ),
            GemonCommand::MethodPatch(_) => Some(
                GemonArgument::Method { gemon_method_type: GemonMethodType::Patch },
            ),
            GemonCommand::File(_) => Some(GemonArgument::ResponseFilePath(None)),
            GemonCommand::LogResponse(_) => Some(GemonArgument::LogResponse),
            GemonCommand::AlsoPrintToTerminal(_) => Some(GemonArgument::AlsoPrintToTerminal),
            GemonCommand::Uri(s, _) => Some(GemonArgument::Uri(simple_arg_parser(s.as_str(), offset))),
            GemonCommand::Header(s, _) => {
                let arg = key_value_pair_arg_parser(s.as_str(), offset);
                Some(GemonArgument::Header(arg.0, arg.1))
            },
            GemonCommand::Body(s, _) => Some(
                GemonArgument::Body(simple_arg_parser(s.as_str(), offset)),
            ),
            GemonCommand::FormData(s, _) => {
                let arg = key_value_pair_arg_parser(s.as_str(), offset);
                Some(GemonArgument::FormData(arg.0, arg.1))
            },
            GemonCommand::ResponseFile(s, _) => Some(
                GemonArgument::ResponseFilePath(Some(simple_arg_parser(s.as_str(), offset))),
            ),
            GemonCommand::Save(s, _) => Some(
                GemonArgument::ProjectSetup(
                    GemonProjectScenario::Save(simple_arg_parser(s.as_str(), offset)),
                ),
            ),
            GemonCommand::Call(s, _) => Some(
                GemonArgument::ProjectSetup(
                    GemonProjectScenario::Call(simple_arg_parser(s.as_str(), offset)),
                ),
            ),
            GemonCommand::SaveAndCall(s, _) => Some(
                GemonArgument::ProjectSetup(
                    GemonProjectScenario::SaveAndCall(simple_arg_parser(s.as_str(), offset)),
                ),
            ),
            GemonCommand::Delete(s, _) => Some(
                GemonArgument::ProjectSetup(
                    GemonProjectScenario::Delete(simple_arg_parser(s.as_str(), offset)),
                ),
            ),
            GemonCommand::RemoveEnv(s, _) => Some(
                GemonArgument::ProjectSetup(
                    GemonProjectScenario::RemoveEnv(simple_arg_parser(s.as_str(), offset)),
                ),
            ),
            GemonCommand::AddEnv(s, _) => {
                let (one, two, three) = triple_value_arg_parser(s.as_str(), offset);
                Some(GemonArgument::ProjectSetup(GemonProjectScenario::AddEnv(one, two, three)))
            },
            GemonCommand::RemoveEnvValue(s, _) => {
                let (one, two) = key_value_pair_arg_parser(s.as_str(), offset);
                Some(GemonArgument::ProjectSetup(GemonProjectScenario::RemoveEnvValue(one, two)))
            },
            GemonCommand::SelectEnv(s, _) => Some(
                GemonArgument::ProjectSetup(
                    GemonProjectScenario::SelectEnv(simple_arg_parser(s.as_str(), offset)),
                ),
            ),
            GemonCommand::AddAuthorization(s, _) => Some(
                GemonArgument::ProjectSetup(
                    GemonProjectScenario::AddAuthorization(simple_arg_parser(s.as_str(), offset)),
                ),
            ),
            GemonCommand::RemoveAuthorization => Some(
                GemonArgument::ProjectSetup(GemonProjectScenario::RemoveAuthorization),
            ),
            GemonCommand::Secure => Some(GemonArgument::Secure),
        }
    }
}

/// A payload without the delimiter is a single part, so a flag that takes
/// two or three parts is not well formed without it.
pub proof fn lemma_missing_separator(t: Seq<char>)
    requires
        arity(classify(t)) >= 2,
        forall|i: int| !occurs_at(payload_of(classify(t)), delimiter(), i),
    ensures
        parts_of(payload_of(classify(t))) == seq![payload_of(classify(t))],
        !token_well_formed(t),
{
    let payload = payload_of(classify(t));
    lemma_split_without_delimiter(payload, delimiter(), 0);
    assert(payload.subrange(0, payload.len() as int) =~= payload);
}

} // verus!
