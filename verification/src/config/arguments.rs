//! Arguments: the resolved form of recognized commands.

use crate::config::parser::{
    is_well_formed, parsed_tokens, token_well_formed, tokens_well_formed, GemonArgumentParser,
};
use crate::config::types::{
    GemonMethodType, GemonProjectScenario, GemonType, MiscScenario, ProjectScenarioView,
};
use crate::text::views;
use vstd::prelude::*;

verus! {

/// One resolved instruction, derived from one recognized token.
#[derive(Debug)]
pub enum GemonArgument {
    Type(GemonType),
    Method { gemon_method_type: GemonMethodType },
    Uri(String),
    Header(String, String),
    Body(String),
    FormData(String, String),
    ResponseFilePath(Option<String>),
    ProjectSetup(GemonProjectScenario),
    MiscScenario(MiscScenario),
    LogResponse,
    AlsoPrintToTerminal,
    Secure,
}

/// The mathematical value of a [`GemonArgument`].
pub enum ArgumentView {
    Type(GemonType),
    Method(GemonMethodType),
    Uri(Seq<char>),
    Header(Seq<char>, Seq<char>),
    Body(Seq<char>),
    FormData(Seq<char>, Seq<char>),
    ResponseFilePath(Option<Seq<char>>),
    ProjectSetup(ProjectScenarioView),
    MiscScenario(MiscScenario),
    LogResponse,
    AlsoPrintToTerminal,
    Secure,
}

impl View for GemonArgument {
    type V = ArgumentView;

    open spec fn view(&self) -> ArgumentView {
        match self {
            GemonArgument::Type(t) => ArgumentView::Type(*t),
            GemonArgument::Method { gemon_method_type } => ArgumentView::Method(
                *gemon_method_type,
            ),
            GemonArgument::Uri(u) => ArgumentView::Uri(u@),
            GemonArgument::Header(k, v) => ArgumentView::Header(k@, v@),
            GemonArgument::Body(b) => ArgumentView::Body(b@),
            GemonArgument::FormData(k, v) => ArgumentView::FormData(k@, v@),
            GemonArgument::ResponseFilePath(p) => ArgumentView::ResponseFilePath(
                match p {
                    Some(path) => Some(path@),
                    None => None,
                },
            ),
            GemonArgument::ProjectSetup(s) => ArgumentView::ProjectSetup(s@),
            GemonArgument::MiscScenario(m) => ArgumentView::MiscScenario(*m),
            GemonArgument::LogResponse => ArgumentView::LogResponse,
            GemonArgument::AlsoPrintToTerminal => ArgumentView::AlsoPrintToTerminal,
            GemonArgument::Secure => ArgumentView::Secure,
        }
    }
}

impl Default for GemonArgument {
    fn default() -> (out: Self)
        ensures
            out@ == ArgumentView::ProjectSetup(ProjectScenarioView::Help),
    {
        GemonArgument::ProjectSetup(GemonProjectScenario::Help)
    }
}

/// The error type of `std::io`. Values of it are carried through and never
/// inspected.
#[verifier::external_type_specification]
#[verifier::external_body]
pub struct ExIoError(std::io::Error);

/// The ordered arguments of one run.
#[derive(Debug)]
pub struct GemonArguments {
    arguments: Vec<GemonArgument>,
}

/// The views of a list of arguments.
pub open spec fn argument_views(v: Seq<GemonArgument>) -> Seq<ArgumentView> {
    Seq::new(v.len(), |i: int| v[i]@)
}

impl View for GemonArguments {
    type V = Seq<ArgumentView>;

    closed spec fn view(&self) -> Seq<ArgumentView> {
        argument_views(self.arguments@)
    }
}

/// The arguments that a token list stands for. Token 0 is the program name
/// and is not parsed. With no further token the single argument asks for
/// help; else every recognized token gives its argument, in order, and
/// unrecognized tokens are dropped.
pub open spec fn arguments_of(tokens: Seq<Seq<char>>) -> Seq<ArgumentView> {
    if tokens.len() < 2 {
        seq![ArgumentView::ProjectSetup(ProjectScenarioView::Help)]
    } else {
        parsed_tokens(tokens.skip(1))
    }
}

/// The tokens of a run can be parsed: every token after the program name is
/// well formed.
pub open spec fn run_well_formed(tokens: Seq<Seq<char>>) -> bool {
    tokens.len() >= 2 ==> tokens_well_formed(tokens.skip(1))
}

impl Default for GemonArguments {
    fn default() -> (out: Self)
        ensures
            out@ == seq![ArgumentView::ProjectSetup(ProjectScenarioView::Help)],
    {
        let mut arguments: Vec<GemonArgument> = Vec::new();
        arguments.push(GemonArgument::default());
        let out = GemonArguments { arguments };
        assert(out@ =~= seq![ArgumentView::ProjectSetup(ProjectScenarioView::Help)]);
        out
    }
}

impl GemonArguments {
    /// Whether every token after the program name can be parsed: each flag
    /// that takes `key::value` or `a::b::c` has all its parts.
    pub fn well_formed(input_args: &Vec<String>) -> (ok: bool)
        ensures
            ok == run_well_formed(views(input_args@)),
    {
        if input_args.len() < 2 {
            return true;
        }
        let mut i: usize = 1;
        while i < input_args.len()
            invariant
                1 <= i <= input_args.len(),
                forall|j: int| 1 <= j < i ==> token_well_formed(#[trigger] input_args@[j]@),
            decreases input_args.len() - i,
        {
            if !is_well_formed(input_args[i].as_str()) {
                assert(!token_well_formed(views(input_args@).skip(1)[i - 1]));
                return false;
            }
            i += 1;
        }
        assert forall|j: int|
            0 <= j < views(input_args@).skip(1).len() implies token_well_formed(
            #[trigger] views(input_args@).skip(1)[j],
        ) by {
            assert(token_well_formed(input_args@[j + 1]@));
        }
        true
    }

    /// Parses the tokens of one run.
    pub fn new(input_args: Vec<String>) -> (out: Result<GemonArguments, std::io::Error>)
        requires
            run_well_formed(views(input_args@)),
        ensures
            out matches Ok(args) && args@ == arguments_of(views(input_args@)),
    {
        if input_args.len() < 2 {
            return Ok(GemonArguments::default());
        }
        let ghost tokens = views(input_args@).skip(1);
        let mut arguments: Vec<GemonArgument> = Vec::new();
        let mut i: usize = 1;
        assert(argument_views(arguments@) =~= parsed_tokens(tokens.take(0)));
        while i < input_args.len()
            invariant
                1 <= i <= input_args.len(),
                tokens == views(input_args@).skip(1),
                tokens_well_formed(tokens),
                argument_views(arguments@) == parsed_tokens(tokens.take(i - 1)),
            decreases input_args.len() - i,
        {
            assert(token_well_formed(tokens[i - 1]));
            let parsed = input_args[i].clone().parse_argument();
            proof {
                assert(tokens.take(i as int).drop_last() =~= tokens.take(i - 1));
                assert(tokens.take(i as int).last() == tokens[i - 1]);
            }
            let ghost before = argument_views(arguments@);
            match parsed {
                Some(argument) => {
                    arguments.push(argument);
                    assert(argument_views(arguments@) =~= before.push(argument@));
                },
                None => {},
            }
            i += 1;
        }
        assert(tokens.take(input_args.len() - 1) =~= tokens);
        Ok(GemonArguments { arguments })
    }

    /// The arguments in order.
    pub fn arguments(&self) -> (out: &Vec<GemonArgument>)
        ensures
            argument_views(out@) == self@,
    {
        &self.arguments
    }
}

} // verus!
