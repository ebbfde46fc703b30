//! Operations on a project document that was loaded, or was not found.

use crate::config::effector::{applied, Effector};
use crate::config::types::GemonType;
use crate::dict::Dict;
use crate::project::{environment_view, Environment, Project, ProjectError, ProjectView};
use crate::request::request_builder::{kind_of_marker, RequestBuilder};
use crate::request::rest_request::GemonRestRequest;
use crate::text::text_of;
use vstd::prelude::*;
use vstd::string::StringExecFns;

verus! {

/// The project that was found. There must be one.
pub fn validate_prject(project: &Option<Project>) -> (out: &Project)
    requires
        project is Some,
    ensures
        Some(*out) == *project,
{
    match project {
        Some(p) => p,
        None => {
            assert(false);
            vstd::pervasive::unreached()
        },
    }
}

/// The document to write after a key is bound in an environment. Fails
/// without a project.
pub fn add_env_value(project: Option<Project>, name: &String, env_value: (String, String)) -> (out:
    Result<Project, Box<ProjectError>>)
    ensures
        match out {
            Ok(p) => project is Some && p@ == project.unwrap()@.with_env_value(
                name@,
                env_value.0@,
                env_value.1@,
            ),
            Err(e) => project is None && e.message@ == "Project not found!"@,
        },
{
    match project {
        None => Err(ProjectError::from("Project not found!")),
        Some(mut p) => {
            p.add_env_value(name, env_value);
            Ok(p)
        },
    }
}

/// The document to write after a key is removed from an environment. Fails
/// without a project.
pub fn remove_env_value(project: Option<Project>, env: &String, key: &str) -> (out: Result<
    Project,
    Box<ProjectError>,
>)
    ensures
        match out {
            Ok(p) => project is Some && p@ == project.unwrap()@.without_env_value(env@, key@),
            Err(e) => project is None && e.message@ == "Project not found!"@,
        },
{
    match project {
        None => Err(ProjectError::from("Project not found!")),
        Some(mut p) => {
            p.remove_env_value(env, key);
            Ok(p)
        },
    }
}

/// The document to write after an environment is removed. Fails without a
/// project.
pub fn remove_env(project: Option<Project>, env: &String) -> (out: Result<
    Project,
    Box<ProjectError>,
>)
    ensures
        match out {
            Ok(p) => project is Some && p@ == project.unwrap()@.without_env(env@),
            Err(e) => project is None && e.message@ == "Project not found!"@,
        },
{
    match project {
        None => Err(ProjectError::from("Project not found!")),
        Some(mut p) => {
            p.remove_env(env);
            Ok(p)
        },
    }
}

/// The document to write after an environment is selected. Fails without a
/// project, and where no environment of that name exists.
pub fn set_selected_env(project: Option<Project>, env: &String) -> (out: Result<
    Project,
    Box<ProjectError>,
>)
    ensures
        match out {
            Ok(p) => project is Some && project.unwrap()@.environments.contains_key(env@) && p@
                == project.unwrap()@.with_selected(env@),
            Err(e) => match project {
                None => e.message@ == "Project not found!"@,
                Some(p) => !p@.environments.contains_key(env@) && e.message@
                    == "Environment does not exist!"@,
            },
        },
{
    match project {
        None => Err(ProjectError::from("Project not found!")),
        Some(mut p) => {
            match p.set_selected_env(env) {
                Ok(_) => Ok(p),
                Err(e) => Err(e),
            }
        },
    }
}

/// The selected environment of a project that may be absent.
pub fn get_selected_env(project: &Option<Project>) -> (out: Option<Environment>)
    ensures
        environment_view(out) == match project {
            Some(p) => p@.selected(),
            None => None,
        },
{
    match project {
        Some(p) => p.get_selected_env(),
        None => None,
    }
}

/// The pairs of the selected environment, to be printed. Fails without a
/// project, and where no environment is selected or the selected one does
/// not exist.
pub fn print_selected_env(project: &Option<Project>) -> (out: Result<
    Dict<String>,
    Box<ProjectError>,
>)
    ensures
        match out {
            Ok(values) => project matches Some(p) && p@.selected() == Some(values@),
            Err(e) => match project {
                None => e.message@ == "Project not found!"@,
                Some(p) => p@.selected() is None && e.message@ == "Selected env not set!"@,
            },
        },
{
    match project {
        None => Err(ProjectError::from("Project not found!")),
        Some(p) => match p.get_selected_env() {
            Some(env) => Ok(env.values()),
            None => Err(ProjectError::from("Selected env not set!")),
        },
    }
}

/// All environments of the project, to be printed. Fails without a project.
pub fn print_all_env(project: &Option<Project>) -> (out: Result<
    &Dict<Environment>,
    Box<ProjectError>,
>)
    ensures
        match out {
            Ok(environments) => project matches Some(p) && environments@ == p@.environments,
            Err(e) => project is None && e.message@ == "Project not found!"@,
        },
{
    match project {
        None => Err(ProjectError::from("Project not found!")),
        Some(p) => Ok(p.environments()),
    }
}

/// The document to write after the authorization is set. Fails without a
/// project.
pub fn add_authorization(project: Option<Project>, authorization: &String) -> (out: Result<
    Project,
    Box<ProjectError>,
>)
    ensures
        match out {
            Ok(p) => project is Some && p@ == (ProjectView {
                authorization: project.unwrap()@.authorization.insert(
                    project.unwrap()@.authorization_key(),
                    authorization@,
                ),
                ..project.unwrap()@
            }),
            Err(e) => project is None && e.message@ == "Project not found!"@,
        },
{
    match project {
        None => Err(ProjectError::from("Project not found!")),
        Some(mut p) => {
            let _ = p.set_authorization(authorization);
            Ok(p)
        },
    }
}

/// The document to write after the authorization is removed. Fails without
/// a project.
pub fn remove_authorization(project: Option<Project>) -> (out: Result<Project, Box<ProjectError>>)
    ensures
        match out {
            Ok(p) => project is Some && p@ == (ProjectView {
                authorization: project.unwrap()@.authorization.remove(
                    project.unwrap()@.authorization_key(),
                ),
                ..project.unwrap()@
            }),
            Err(e) => project is None && e.message@ == "Project not found!"@,
        },
{
    match project {
        None => Err(ProjectError::from("Project not found!")),
        Some(mut p) => {
            let _ = p.remove_authorization();
            Ok(p)
        },
    }
}

/// The authorization in force in a project that may be absent.
pub fn authorization(project: &Option<Project>) -> (out: Option<String>)
    ensures
        text_of(out) == match project {
            Some(p) => p@.active_authorization(),
            None => None,
        },
{
    match project {
        Some(p) => match p.authorization() {
            Some(a) => Some(a.clone()),
            None => None,
        },
        None => None,
    }
}

/// The path of a file of the saved request `name`.
pub open spec fn saved_path(name: Seq<char>, file: Seq<char>) -> Seq<char> {
    name + "/"@ + file
}

/// The path of a file of a saved request.
pub fn saved_file(name: &String, file: &str) -> (out: String)
    ensures
        out@ == saved_path(name@, file@),
{
    let mut out = name.clone();
    out.append("/");
    out.append(file);
    out
}

/// The files of a saved request: the metadata, which is the request without
/// its body, the body text, and the marker of the request kind, each with
/// its path.
#[derive(Debug)]
pub struct SavedRequest {
    pub metadata_path: String,
    pub metadata: GemonRestRequest,
    pub body_path: String,
    pub body: String,
    pub marker_path: String,
    pub marker: String,
}

/// What is to be written to save `request` under `name`, and the request
/// itself, for a call that may follow. There must be a project.
pub fn save_request(project: &Option<Project>, request: Box<GemonRestRequest>, name: &String) -> (out:
    (Box<GemonRestRequest>, SavedRequest))
    requires
        project is Some,
    ensures
        out.0@ == request@,
        out.1.metadata@ == request@.metadata(),
        out.1.body@ == request@.body_text(),
        out.1.marker@ == "REST"@,
        out.1.metadata_path@ == saved_path(name@, "metadata.json"@),
        out.1.body_path@ == saved_path(name@, "body.json"@),
        out.1.marker_path@ == saved_path(name@, ".marker"@),
{
    let _ = validate_prject(project);
    let saved = SavedRequest {
        metadata_path: saved_file(name, "metadata.json"),
        metadata: request.metadata(),
        body_path: saved_file(name, "body.json"),
        body: request.json_body(),
        marker_path: saved_file(name, ".marker"),
        marker: request.request_type(),
    };
    (request, saved)
}

/// A saved request as it was read and prepared: its kind, and the metadata
/// text and the body text with the placeholders of the environment
/// replaced.
#[derive(Debug)]
pub struct LoadedRequest {
    pub kind: GemonType,
    pub metadata_json: String,
    pub body_json: Option<String>,
}

/// A body text under an environment; a missing body stays missing.
pub open spec fn applied_body(env: Option<Environment>, body: Option<Seq<char>>) -> Option<Seq<char>> {
    match body {
        Some(b) => Some(applied(env, b)),
        None => None,
    }
}

/// Prepares a saved request from what its files hold. There must be a
/// project, and the marker must name a request kind. A missing body file is
/// no body.
pub fn get_request(
    project: &Option<Project>,
    env: &Option<Environment>,
    request_type: &str,
    metadata_json: String,
    body_json: Option<String>,
) -> (out: LoadedRequest)
    requires
        project is Some,
        kind_of_marker(request_type@) is Some,
    ensures
        Some(out.kind) == kind_of_marker(request_type@),
        out.metadata_json@ == applied(*env, metadata_json@),
        text_of(out.body_json) == applied_body(*env, text_of(body_json)),
{
    let _ = validate_prject(project);
    let kind = match RequestBuilder::request_kind(request_type) {
        Some(k) => k,
        None => GemonType::Rest,
    };
    let metadata_json = Effector::apply_env_to_string(env, metadata_json);
    let body_json = match body_json {
        Some(b) => Some(Effector::apply_env_to_string(env, b)),
        None => None,
    };
    LoadedRequest { kind, metadata_json, body_json }
}

/// The request that a saved request stands for: the metadata as it was
/// parsed, with the body text that was read.
pub fn restore_request(metadata: GemonRestRequest, body_json: Option<String>) -> (out: Box<
    GemonRestRequest,
>)
    ensures
        out@ == metadata@.with_body(text_of(body_json)),
{
    let mut request = metadata;
    request.set_body(body_json);
    Box::new(request)
}

} // verus!
