//! The closed enumerations of the request configuration.

use vstd::prelude::*;

verus! {

/// The top-level action of one run.
#[derive(Debug)]
pub enum GemonScenario {
    Request,
    Misc(MiscScenario),
    Project(GemonProjectScenario),
}

/// The actions on a project and its saved requests.
#[derive(Debug, Clone)]
pub enum GemonProjectScenario {
    Init,
    Call(String),
    Save(String),
    SaveAndCall(String),
    Delete(String),
    PrintLastCall,
    PrintEnvAll,
    PrintEnv,
    AddEnv(String, String, String),
    RemoveEnvValue(String, String),
    RemoveEnv(String),
    SelectEnv(String),
    Help,
    AddAuthorization(String),
    RemoveAuthorization,
}

/// Actions that touch neither a request nor a project.
#[derive(Debug, Clone, Copy, PartialEq, Eq, Structural)]
pub enum MiscScenario {
    Version,
}

/// The kind of a request.
#[derive(Debug, Clone, Copy, PartialEq, Eq, Structural)]
pub enum GemonType {
    Rest,
    Websocket,
    Proto,
}

/// The verbs of a REST request.
#[derive(Debug, Clone, Copy, PartialEq, Eq, Structural)]
pub enum GemonMethodType {
    Get,
    Post,
    Delete,
    Put,
    Patch,
}

/// Where the response goes.
#[derive(Debug, Clone, Copy, PartialEq, Eq, Structural)]
pub enum GemonPrinter {
    Terminal,
    File,
}

/// The mathematical value of a [`GemonProjectScenario`].
pub enum ProjectScenarioView {
    Init,
    Call(Seq<char>),
    Save(Seq<char>),
    SaveAndCall(Seq<char>),
    Delete(Seq<char>),
    PrintLastCall,
    PrintEnvAll,
    PrintEnv,
    AddEnv(Seq<char>, Seq<char>, Seq<char>),
    RemoveEnvValue(Seq<char>, Seq<char>),
    RemoveEnv(Seq<char>),
    SelectEnv(Seq<char>),
    Help,
    AddAuthorization(Seq<char>),
    RemoveAuthorization,
}

/// The mathematical value of a [`GemonScenario`].
pub enum ScenarioView {
    Request,
    Misc(MiscScenario),
    Project(ProjectScenarioView),
}

impl View for GemonProjectScenario {
    type V = ProjectScenarioView;

    open spec fn view(&self) -> ProjectScenarioView {
        match self {
            GemonProjectScenario::Init => ProjectScenarioView::Init,
            GemonProjectScenario::Call(n) => ProjectScenarioView::Call(n@),
            GemonProjectScenario::Save(n) => ProjectScenarioView::Save(n@),
            GemonProjectScenario::SaveAndCall(n) => ProjectScenarioView::SaveAndCall(n@),
            GemonProjectScenario::Delete(n) => ProjectScenarioView::Delete(n@),
            GemonProjectScenario::PrintLastCall => ProjectScenarioView::PrintLastCall,
            GemonProjectScenario::PrintEnvAll => ProjectScenarioView::PrintEnvAll,
            GemonProjectScenario::PrintEnv => ProjectScenarioView::PrintEnv,
            GemonProjectScenario::AddEnv(e, k, v) => ProjectScenarioView::AddEnv(e@, k@, v@),
            GemonProjectScenario::RemoveEnvValue(e, k) => ProjectScenarioView::RemoveEnvValue(
                e@,
                k@,
            ),
            GemonProjectScenario::RemoveEnv(e) => ProjectScenarioView::RemoveEnv(e@),
            GemonProjectScenario::SelectEnv(e) => ProjectScenarioView::SelectEnv(e@),
            GemonProjectScenario::Help => ProjectScenarioView::Help,
            GemonProjectScenario::AddAuthorization(a) => ProjectScenarioView::AddAuthorization(a@),
            GemonProjectScenario::RemoveAuthorization => ProjectScenarioView::RemoveAuthorization,
        }
    }
}

impl View for GemonScenario {
    type V = ScenarioView;

    open spec fn view(&self) -> ScenarioView {
        match self {
            GemonScenario::Request => ScenarioView::Request,
            GemonScenario::Misc(m) => ScenarioView::Misc(*m),
            GemonScenario::Project(p) => ScenarioView::Project(p@),
        }
    }
}

impl GemonProjectScenario {
    /// A copy with the same value.
    pub fn duplicate(&self) -> (out: GemonProjectScenario)
        ensures
            out@ == self@,
    {
        match self {
            GemonProjectScenario::Init => GemonProjectScenario::Init,
            GemonProjectScenario::Call(n) => GemonProjectScenario::Call(n.clone()),
            GemonProjectScenario::Save(n) => GemonProjectScenario::Save(n.clone()),
            GemonProjectScenario::SaveAndCall(n) => GemonProjectScenario::SaveAndCall(n.clone()),
            GemonProjectScenario::Delete(n) => GemonProjectScenario::Delete(n.clone()),
            GemonProjectScenario::PrintLastCall => GemonProjectScenario::PrintLastCall,
            GemonProjectScenario::PrintEnvAll => GemonProjectScenario::PrintEnvAll,
            GemonProjectScenario::PrintEnv => GemonProjectScenario::PrintEnv,
            GemonProjectScenario::AddEnv(e, k, v) => GemonProjectScenario::AddEnv(
                e.clone(),
                k.clone(),
                v.clone(),
            ),
            GemonProjectScenario::RemoveEnvValue(e, k) => GemonProjectScenario::RemoveEnvValue(
                e.clone(),
                k.clone(),
            ),
            GemonProjectScenario::RemoveEnv(e) => GemonProjectScenario::RemoveEnv(e.clone()),
            GemonProjectScenario::SelectEnv(e) => GemonProjectScenario::SelectEnv(e.clone()),
            GemonProjectScenario::Help => GemonProjectScenario::Help,
            GemonProjectScenario::AddAuthorization(a) => GemonProjectScenario::AddAuthorization(
                a.clone(),
            ),
            GemonProjectScenario::RemoveAuthorization => GemonProjectScenario::RemoveAuthorization,
        }
    }
}

} // verus!
