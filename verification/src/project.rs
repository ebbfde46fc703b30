//! The project document: environments, authorization, and the pointer to the
//! last response that was written to a file.

pub mod project_handler;

use crate::constants::NO_ENV;
use crate::dict::{bindings, distinct_pairs, insert_pair, remove_pair, Dict};
use crate::text::{copy_text, text_of};
use vstd::prelude::*;
use vstd::string::StringExecFns;

verus! {

/// A named set of substitutable key/value pairs.
#[derive(Debug)]
pub struct Environment {
    values: Dict<String>,
}

impl View for Environment {
    type V = Map<Seq<char>, Seq<char>>;

    closed spec fn view(&self) -> Map<Seq<char>, Seq<char>> {
        self.values@
    }
}

impl Environment {
    /// The pairs in the order in which their keys were first added.
    pub closed spec fn pairs(&self) -> Seq<(Seq<char>, Seq<char>)> {
        self.values.pairs()
    }

    /// An environment with one pair.
    pub fn from(touple: (String, String)) -> (out: Environment)
        ensures
            out@ == Map::<Seq<char>, Seq<char>>::empty().insert(touple.0@, touple.1@),
            out.pairs() == seq![(touple.0@, touple.1@)],
    {
        let mut values: Dict<String> = Dict::new();
        values.insert(touple.0, touple.1);
        assert(values.pairs() =~= seq![(touple.0@, touple.1@)]);
        Environment { values }
    }

    /// An environment with the given pairs.
    pub fn from_values(values: Dict<String>) -> (out: Environment)
        ensures
            out@ == values@,
            out.pairs() == values.pairs(),
    {
        Environment { values }
    }

    /// The map is the one that the pairs stand for.
    pub proof fn lemma_pairs(&self)
        ensures
            self@ == bindings(self.pairs()),
    {
    }

    /// The number of pairs. No key occurs twice among them.
    pub fn len(&self) -> (n: usize)
        ensures
            n == self.pairs().len(),
            n == self@.len(),
            distinct_pairs(self.pairs()),
    {
        self.values.len()
    }

    /// Binds a key to a value; an earlier value of the key is overwritten.
    pub fn add_value(&mut self, env: (String, String))
        ensures
            final(self)@ == old(self)@.insert(env.0@, env.1@),
            final(self).pairs() == insert_pair(old(self).pairs(), env.0@, env.1@),
    {
        self.values.insert(env.0, env.1);
    }

    /// Removes a key; an absent key changes nothing.
    pub fn remove_value(&mut self, key: &str)
        ensures
            final(self)@ == old(self)@.remove(key@),
            final(self).pairs() == remove_pair(old(self).pairs(), key@),
    {
        self.values.remove(key);
    }

    /// A copy of the pairs.
    pub fn values(&self) -> (out: Dict<String>)
        ensures
            out@ == self@,
            out.pairs() == self.pairs(),
    {
        self.values.duplicate()
    }

    /// A copy of the environment.
    pub fn duplicate(&self) -> (out: Environment)
        ensures
            out@ == self@,
            out.pairs() == self.pairs(),
    {
        Environment { values: self.values.duplicate() }
    }
}

/// A failure of an operation on the project, with its message.
#[derive(Debug)]
pub struct ProjectError {
    pub message: String,
}

impl ProjectError {
    /// An error with the given message.
    pub fn from(message: &str) -> (out: Box<Self>)
        ensures
            out.message@ == message@,
    {
        Box::new(ProjectError { message: String::from_str(message) })
    }

    /// The message as it is shown: `Error: ` and the message.
    pub fn describe(&self) -> (out: String)
        ensures
            out@ == "Error: "@ + self.message@,
    {
        let mut out = String::from_str("Error: ");
        out.append(self.message.as_str());
        out
    }
}

/// The persisted root document of a project.
#[derive(Debug)]
pub struct Project {
    name: String,
    selected_environment: Option<String>,
    environments: Dict<Environment>,
    authorization: Dict<String>,
    last_called_request_path: Option<String>,
}

/// The mathematical value of a [`Project`].
pub struct ProjectView {
    pub name: Seq<char>,
    pub selected_environment: Option<Seq<char>>,
    pub environments: Map<Seq<char>, Map<Seq<char>, Seq<char>>>,
    pub authorization: Map<Seq<char>, Seq<char>>,
    pub last_called_request_path: Option<Seq<char>>,
}

impl ProjectView {
    /// The key under which the authorization is kept: the selected
    /// environment, or the reserved key while none is selected.
    pub open spec fn authorization_key(self) -> Seq<char> {
        match self.selected_environment {
            Some(e) => e,
            None => NO_ENV@,
        }
    }

    /// The authorization that is in force.
    pub open spec fn active_authorization(self) -> Option<Seq<char>> {
        if self.authorization.contains_key(self.authorization_key()) {
            Some(self.authorization[self.authorization_key()])
        } else {
            None
        }
    }

    /// The document after `key` is bound to `value` in the environment
    /// `env`, which is created if it does not exist.
    pub open spec fn with_env_value(self, env: Seq<char>, key: Seq<char>, value: Seq<char>) -> Self {
        let before = if self.environments.contains_key(env) {
            self.environments[env]
        } else {
            Map::empty()
        };
        ProjectView { environments: self.environments.insert(env, before.insert(key, value)), ..self }
    }

    /// The document after `key` is removed from the environment `env`;
    /// unchanged where `env` does not exist.
    pub open spec fn without_env_value(self, env: Seq<char>, key: Seq<char>) -> Self {
        if self.environments.contains_key(env) {
            ProjectView {
                environments: self.environments.insert(env, self.environments[env].remove(key)),
                ..self
            }
        } else {
            self
        }
    }

    /// The document after the environment `env` is removed.
    pub open spec fn without_env(self, env: Seq<char>) -> Self {
        ProjectView { environments: self.environments.remove(env), ..self }
    }

    /// The document after `env` is selected.
    pub open spec fn with_selected(self, env: Seq<char>) -> Self {
        ProjectView { selected_environment: Some(env), ..self }
    }

    /// The selected environment, if one is selected and exists.
    pub open spec fn selected(self) -> Option<Map<Seq<char>, Seq<char>>> {
        match self.selected_environment {
            Some(e) => if self.environments.contains_key(e) {
                Some(self.environments[e])
            } else {
                None
            },
            None => None,
        }
    }

    /// The selection names an existing environment, or nothing is selected.
    pub open spec fn selection_valid(self) -> bool {
        match self.selected_environment {
            Some(e) => self.environments.contains_key(e),
            None => true,
        }
    }
}

impl View for Project {
    type V = ProjectView;

    closed spec fn view(&self) -> ProjectView {
        ProjectView {
            name: self.name@,
            selected_environment: text_of(self.selected_environment),
            environments: self.environments@,
            authorization: self.authorization@,
            last_called_request_path: text_of(self.last_called_request_path),
        }
    }
}

/// The view of an optional environment.
pub open spec fn environment_view(o: Option<Environment>) -> Option<Map<Seq<char>, Seq<char>>> {
    match o {
        Some(e) => Some(e@),
        None => None,
    }
}

/// The view of an optional project.
pub open spec fn project_view(o: Option<Project>) -> Option<ProjectView> {
    match o {
        Some(p) => Some(p@),
        None => None,
    }
}

impl Project {
    /// A fresh project: no environment, no authorization, no last call.
    pub fn new(name: String) -> (out: Project)
        ensures
            out@ == (ProjectView {
                name: name@,
                selected_environment: None,
                environments: Map::empty(),
                authorization: Map::empty(),
                last_called_request_path: None,
            }),
    {
        Project {
            name,
            selected_environment: None,
            environments: Dict::new(),
            authorization: Dict::new(),
            last_called_request_path: None,
        }
    }

    /// A project with the given contents.
    pub fn from_parts(
        name: String,
        selected_environment: Option<String>,
        environments: Dict<Environment>,
        authorization: Dict<String>,
        last_called_request_path: Option<String>,
    ) -> (out: Project)
        ensures
            out@ == (ProjectView {
                name: name@,
                selected_environment: text_of(selected_environment),
                environments: environments@,
                authorization: authorization@,
                last_called_request_path: text_of(last_called_request_path),
            }),
    {
        Project { name, selected_environment, environments, authorization, last_called_request_path }
    }

    /// Creates the project document. Fails if one exists already.
    pub fn init(existing: &Option<Project>, name: String) -> (out: Result<Project, Box<ProjectError>>)
        ensures
            match out {
                Ok(p) => existing is None && p@ == (ProjectView {
                    name: name@,
                    selected_environment: None,
                    environments: Map::empty(),
                    authorization: Map::empty(),
                    last_called_request_path: None,
                }),
                Err(e) => existing is Some && e.message@ == "Project already exists"@,
            },
    {
        if existing.is_some() {
            return Err(ProjectError::from("Project already exists"));
        }
        Ok(Project::new(name))
    }

    /// The name of the project.
    pub fn name(&self) -> (out: &String)
        ensures
            out@ == self@.name,
    {
        &self.name
    }

    /// The name of the selected environment.
    pub fn selected_environment(&self) -> (out: &Option<String>)
        ensures
            text_of(*out) == self@.selected_environment,
    {
        &self.selected_environment
    }

    /// The environments by name.
    pub fn environments(&self) -> (out: &Dict<Environment>)
        ensures
            out@ == self@.environments,
    {
        &self.environments
    }

    /// The authorizations by environment name.
    pub fn authorizations(&self) -> (out: &Dict<String>)
        ensures
            out@ == self@.authorization,
    {
        &self.authorization
    }

    /// Records where the last response was written.
    pub fn set_last_called_request_path(&mut self, path: Option<String>)
        ensures
            final(self)@ == (ProjectView {
                last_called_request_path: text_of(path),
                ..old(self)@
            }),
    {
        self.last_called_request_path = path;
    }

    /// Where the last response was written, if any was.
    pub fn get_last_called_request_path(&self) -> (out: Option<String>)
        ensures
            text_of(out) == self@.last_called_request_path,
    {
        copy_text(&self.last_called_request_path)
    }

    /// Binds a key to a value in an environment, which is created if it does
    /// not exist.
    pub fn add_env_value(&mut self, name: &String, env_value: (String, String))
        ensures
            final(self)@ == old(self)@.with_env_value(name@, env_value.0@, env_value.1@),
    {
        let mut env = match self.environments.get(name.as_str()) {
            Some(e) => e.duplicate(),
            None => Environment::from_values(Dict::new()),
        };
        env.add_value(env_value);
        self.environments.insert(name.clone(), env);
    }

    /// Removes a key from an environment. An absent environment or key
    /// changes nothing.
    pub fn remove_env_value(&mut self, name: &String, key: &str)
        ensures
            final(self)@ == old(self)@.without_env_value(name@, key@),
    {
        let found = match self.environments.get(name.as_str()) {
            Some(e) => Some(e.duplicate()),
            None => None,
        };
        match found {
            Some(mut env) => {
                env.remove_value(key);
                self.environments.insert(name.clone(), env);
            },
            None => {},
        }
    }

    /// Removes an environment with all its values. An absent environment
    /// changes nothing. The selection is left as it is.
    pub fn remove_env(&mut self, env: &String)
        ensures
            final(self)@ == old(self)@.without_env(env@),
    {
        self.environments.remove(env.as_str());
    }

    /// Selects an environment. Fails, and changes nothing, if no environment
    /// of that name exists.
    pub fn set_selected_env(&mut self, env: &String) -> (out: Result<(), Box<ProjectError>>)
        ensures
            match out {
                Ok(_) => old(self)@.environments.contains_key(env@) && final(self)@ == old(
                    self,
                )@.with_selected(env@),
                Err(e) => !old(self)@.environments.contains_key(env@) && final(self)@ == old(self)@
                    && e.message@ == "Environment does not exist!"@,
            },
    {
        if !self.environments.contains_key(env.as_str()) {
            return Err(ProjectError::from("Environment does not exist!"));
        }
        self.selected_environment = Some(env.clone());
        Ok(())
    }

    /// A copy of the selected environment, if one is selected and exists.
    pub fn get_selected_env(&self) -> (out: Option<Environment>)
        ensures
            environment_view(out) == self@.selected(),
    {
        match &self.selected_environment {
            Some(env) => match self.environments.get(env.as_str()) {
                Some(e) => Some(e.duplicate()),
                None => None,
            },
            None => None,
        }
    }

    /// The selected environment of a project that may be absent.
    pub fn env(project: &Option<Project>) -> (out: Option<Environment>)
        ensures
            environment_view(out) == match project {
                Some(p) => p@.selected(),
                None => None,
            },
    {
        project_handler::get_selected_env(project)
    }

    fn authorization_key(&self) -> (out: String)
        ensures
            out@ == self@.authorization_key(),
    {
        match &self.selected_environment {
            Some(e) => e.clone(),
            None => String::from_str(NO_ENV),
        }
    }

    /// The authorization that is in force.
    pub fn authorization(&self) -> (out: Option<&String>)
        ensures
            match out {
                Some(a) => self@.active_authorization() == Some(a@),
                None => self@.active_authorization() is None,
            },
    {
        let env = self.authorization_key();
        self.authorization.get(env.as_str())
    }

    /// Sets the authorization for the selected environment, or for the
    /// reserved key while none is selected.
    pub fn set_authorization(&mut self, authorization: &String) -> (out: Result<
        (),
        Box<ProjectError>,
    >)
        ensures
            out is Ok,
            final(self)@ == (ProjectView {
                authorization: old(self)@.authorization.insert(
                    old(self)@.authorization_key(),
                    authorization@,
                ),
                ..old(self)@
            }),
    {
        let env = self.authorization_key();
        self.authorization.insert(env, authorization.clone());
        Ok(())
    }

    /// Removes the authorization that is in force, if there is one.
    pub fn remove_authorization(&mut self) -> (out: Result<(), Box<ProjectError>>)
        ensures
            out is Ok,
            final(self)@ == (ProjectView {
                authorization: old(self)@.authorization.remove(old(self)@.authorization_key()),
                ..old(self)@
            }),
    {
        let env = self.authorization_key();
        self.authorization.remove(env.as_str());
        Ok(())
    }

    /// The document to write after a call whose response went to `path`.
    /// Fails without a project; with a project and no path nothing is to be
    /// written.
    pub fn update_last_request_path(project: Option<Project>, path: Option<String>) -> (out: Result<
        Option<Project>,
        Box<ProjectError>,
    >)
        ensures
            match out {
                Ok(Some(p)) => project is Some && path is Some && p@ == (ProjectView {
                    last_called_request_path: text_of(path),
                    ..project.unwrap()@
                }),
                Ok(None) => project is Some && path is None,
                Err(e) => project is None && e.message@ == "Project could not be found!"@,
            },
    {
        match project {
            None => Err(ProjectError::from("Project could not be found!")),
            Some(mut p) => {
                if path.is_none() {
                    return Ok(None);
                }
                p.set_last_called_request_path(path);
                Ok(Some(p))
            },
        }
    }

    /// The path of the response file to print. Fails without a project, and
    /// where no response was ever written to a file.
    pub fn print_last_called_request(project: &Option<Project>) -> (out: Result<
        String,
        Box<ProjectError>,
    >)
        ensures
            match out {
                Ok(path) => project matches Some(p) && p@.last_called_request_path == Some(path@),
                Err(e) => match project {
                    None => e.message@ == "Project could not be found!"@,
                    Some(p) => p@.last_called_request_path is None && e.message@
                        == "No available response to print!"@,
                },
            },
    {
        match project {
            None => Err(ProjectError::from("Project could not be found!")),
            Some(p) => match p.get_last_called_request_path() {
                Some(path) => Ok(path),
                None => Err(ProjectError::from("No available response to print!")),
            },
        }
    }
}

/// Selecting an environment that is selected already changes nothing, and
/// selecting the same environment twice is selecting it once.
pub proof fn lemma_select_idempotent(p: ProjectView, env: Seq<char>)
    ensures
        p.selected_environment == Some(env) ==> p.with_selected(env) == p,
        p.with_selected(env).with_selected(env) == p.with_selected(env),
{
}

/// Binding a key to the value that it has already changes nothing, and
/// binding the same pair twice is binding it once.
pub proof fn lemma_add_env_value_idempotent(
    p: ProjectView,
    env: Seq<char>,
    key: Seq<char>,
    value: Seq<char>,
)
    ensures
        p.environments.contains_key(env) && p.environments[env].contains_key(key)
            && p.environments[env][key] == value ==> p.with_env_value(env, key, value) == p,
        p.with_env_value(env, key, value).with_env_value(env, key, value) == p.with_env_value(
            env,
            key,
            value,
        ),
{
    let once = p.with_env_value(env, key, value);
    let twice = once.with_env_value(env, key, value);
    assert(once.environments[env].insert(key, value) =~= once.environments[env]);
    assert(twice.environments =~= once.environments);
    if p.environments.contains_key(env) && p.environments[env].contains_key(key)
        && p.environments[env][key] == value {
        assert(p.environments[env].insert(key, value) =~= p.environments[env]);
        assert(once.environments =~= p.environments);
    }
}

/// Of two values bound to the same key of the same environment, the later
/// one is the one that is stored.
pub proof fn lemma_later_value_wins(
    p: ProjectView,
    env: Seq<char>,
    key: Seq<char>,
    first: Seq<char>,
    second: Seq<char>,
)
    ensures
        p.with_env_value(env, key, first).with_env_value(env, key, second) == p.with_env_value(
            env,
            key,
            second,
        ),
        p.with_env_value(env, key, first).with_env_value(env, key, second).environments[env][key]
            == second,
{
    let once = p.with_env_value(env, key, first);
    let twice = once.with_env_value(env, key, second);
    let direct = p.with_env_value(env, key, second);
    assert(once.environments[env].insert(key, second) =~= direct.environments[env]);
    assert(twice.environments =~= direct.environments);
}

/// Selecting an environment that exists leaves the selection valid; removing
/// the selected environment is what can break it.
pub proof fn lemma_selection_valid(p: ProjectView, env: Seq<char>)
    requires
        p.environments.contains_key(env),
    ensures
        p.with_selected(env).selection_valid(),
{
}

} // verus!
