use crate::v1::api::{Method, Request};
use crate::v1::endpoints::administration::Administration;
use crate::v1::resources::administration::project_user::{
    CreateProjectUserParameters,
    ModifyProjectUserParameters,
};
use crate::v1::resources::shared::SimpleListParameters;
use vstd::prelude::*;
use vstd::string::StringExecFns;

verus! {

/// The routes that manage the users of a project.
#[derive(Debug, Clone, Copy)]
pub struct ProjectUsers<'a> {
    pub administration: &'a Administration<'a>,
}

impl<'a> Administration<'a> {
    /// Manage users within a project, including adding, updating roles, and
    /// removing users.
    pub fn project_users(&self) -> (project_users: ProjectUsers<'_>)
        ensures
            project_users.administration == self,
    {
        ProjectUsers { administration: self }
    }
}

/// The route of the users of a project.
pub open spec fn users_path(project_id: Seq<char>) -> Seq<char> {
    "/organization/projects/"@ + project_id + "/users"@
}

/// The route of one user of a project.
pub open spec fn user_path(project_id: Seq<char>, user_id: Seq<char>) -> Seq<char> {
    users_path(project_id) + "/"@ + user_id
}

/// Different projects have different routes, and within one project
/// different users have different routes: a route as these functions write
/// it names one project, and below it one user.
pub proof fn lemma_routes_tell_apart(
    project_id: Seq<char>,
    other_project_id: Seq<char>,
    user_id: Seq<char>,
    other_user_id: Seq<char>,
)
    ensures
        users_path(project_id) == users_path(other_project_id) <==> project_id == other_project_id,
        user_path(project_id, user_id) == user_path(project_id, other_user_id) <==> user_id
            == other_user_id,
{
    if users_path(project_id) == users_path(other_project_id) {
        lemma_same_middle(
            "/organization/projects/"@,
            project_id,
            other_project_id,
            "/users"@,
        );
    }
    if user_path(project_id, user_id) == user_path(project_id, other_user_id) {
        let stem = users_path(project_id) + "/"@;
        assert(stem + user_id + Seq::<char>::empty() =~= user_path(project_id, user_id));
        assert(stem + other_user_id + Seq::<char>::empty() =~= user_path(
            project_id,
            other_user_id,
        ));
        lemma_same_middle(stem, user_id, other_user_id, Seq::empty());
    }
}

/// Two texts that begin alike, end alike and are equal as wholes are equal
/// in the middle.
proof fn lemma_same_middle(
    front: Seq<char>,
    middle: Seq<char>,
    other_middle: Seq<char>,
    back: Seq<char>,
)
    requires
        front + middle + back == front + other_middle + back,
    ensures
        middle == other_middle,
{
    let whole = front + middle + back;
    let other_whole = front + other_middle + back;
    let start = front.len() as int;
    assert(whole.len() == other_whole.len());
    assert(middle =~= whole.subrange(start, start + middle.len()));
    assert(other_middle =~= other_whole.subrange(start, start + other_middle.len()));
}

/// Writes out the route of the users of a project.
fn users_route(project_id: &str) -> (path: String)
    ensures
        path@ == users_path(project_id@),
{
    String::from_str("/organization/projects/").concat(project_id).concat("/users")
}

/// Writes out the route of one user of a project.
fn user_route(project_id: &str, user_id: &str) -> (path: String)
    ensures
        path@ == user_path(project_id@, user_id@),
{
    users_route(project_id).concat("/").concat(user_id)
}

impl<'a> ProjectUsers<'a> {
    /// Returns a list of users in the project.
    pub fn list(&self, project_id: &str, query: Option<SimpleListParameters>) -> (request: Request<
        Option<SimpleListParameters>,
    >)
        ensures
            request.method == Method::Get,
            request.path@ == users_path(project_id@),
            request.payload == query,
    {
        Request { method: Method::Get, path: users_route(project_id), payload: query }
    }

    /// Retrieves a user in the project.
    pub fn retrieve(&self, project_id: &str, user_id: &str) -> (request: Request<()>)
        ensures
            request.method == Method::Get,
            request.path@ == user_path(project_id@, user_id@),
    {
        Request { method: Method::Get, path: user_route(project_id, user_id), payload: () }
    }

    /// Adds a user to the project.
    pub fn create(&self, project_id: &str, parameters: CreateProjectUserParameters) -> (request:
        Request<CreateProjectUserParameters>)
        ensures
            request.method == Method::Post,
            request.path@ == users_path(project_id@),
            request.payload == parameters,
    {
        Request { method: Method::Post, path: users_route(project_id), payload: parameters }
    }

    /// Modifies a user's role in the project.
    pub fn modify(
        &self,
        project_id: &str,
        user_id: &str,
        parameters: ModifyProjectUserParameters,
    ) -> (request: Request<ModifyProjectUserParameters>)
        ensures
            request.method == Method::Post,
            request.path@ == user_path(project_id@, user_id@),
            request.payload == parameters,
    {
        Request { method: Method::Post, path: user_route(project_id, user_id), payload: parameters }
    }

    /// Deletes a user from the project.
    pub fn delete(&self, project_id: &str, user_id: &str) -> (request: Request<()>)
        ensures
            request.method == Method::Delete,
            request.path@ == user_path(project_id@, user_id@),
    {
        Request { method: Method::Delete, path: user_route(project_id, user_id), payload: () }
    }
}

} // verus!
