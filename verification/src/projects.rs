//! Projects: the records, the request payloads, the repository that
//! stores them, and the two HTTP handlers that create and list them.

use vstd::prelude::*;

use crate::clock::Timestamp;
use crate::text::{is_blank, is_blank_text};

verus! {

/// A stored project.
#[derive(Clone, Debug)]
pub struct Project {
    pub id: u128,
    pub name: String,
    pub description: String,
    pub created_at: Timestamp,
    pub updated_at: Timestamp,
}

/// Body of a request that creates a project.
#[derive(Clone, Debug)]
pub struct CreateProjectPayload {
    pub name: String,
    pub description: Option<String>,
}

/// Query parameters of a request that lists projects.
#[derive(Clone, Copy, Debug, PartialEq, Eq, Structural)]
pub struct GetProjectsParams {
    pub page: i64,
    pub page_size: i64,
}

/// Failure reported by a project repository.
#[derive(Clone, Debug)]
pub struct RepositoryError {
    pub message: String,
}

/// An HTTP error answer: its status code and its text body.
#[derive(Clone, Debug)]
pub struct ApiError {
    pub status: u16,
    pub body: String,
}

/// HTTP 400.
pub const BAD_REQUEST: u16 = 400;

/// HTTP 500.
pub const INTERNAL_SERVER_ERROR: u16 = 500;

/// One request a repository received, with the answer it gave.
pub enum RepositoryRequest {
    /// Store a project under `name`, with `description` if one was given.
    Store {
        name: Seq<char>,
        description: Option<Seq<char>>,
        answer: Result<Project, RepositoryError>,
    },
    /// List page `page` of size `page_size`.
    List {
        page: Option<i64>,
        page_size: Option<i64>,
        answer: Result<Vec<Project>, RepositoryError>,
    },
}

/// Where projects are kept. Implementations talk to a database (or, in
/// tests, to memory); the handlers below are written against this trait.
/// Each request is recorded, with its answer, in the repository's request
/// history; what the answers are is up to the implementation.
pub trait ProjectRepository {
    /// The requests this repository has received, oldest first. An
    /// implementation checked by Verus defines it: the default, an empty
    /// history, cannot meet the contracts of the methods below.
    open spec fn requests(&self) -> Seq<RepositoryRequest> {
        Seq::empty()
    }

    /// Stores a new project with the given name and description.
    fn create_project(&mut self, name: &str, description: Option<&str>) -> (result: Result<
        Project,
        RepositoryError,
    >)
        ensures
            final(self).requests() == old(self).requests().push(
                RepositoryRequest::Store {
                    name: name@,
                    description: opt_text(description),
                    answer: result,
                },
            ),
    ;

    /// Lists one page of projects.
    fn get_projects(&mut self, page: Option<i64>, page_size: Option<i64>) -> (result: Result<
        Vec<Project>,
        RepositoryError,
    >)
        ensures
            final(self).requests() == old(self).requests().push(
                RepositoryRequest::List { page, page_size, answer: result },
            ),
    ;
}

/// The handler's answer `r` passes on the repository's `answer`: its
/// value, or a bare 500 for a failure.
pub open spec fn passes_on<T>(r: Result<T, ApiError>, answer: Result<T, RepositoryError>) -> bool {
    match answer {
        Ok(v) => r == Ok::<T, ApiError>(v),
        Err(_) => r matches Err(e) && is_repository_failure(e),
    }
}

/// Body of the answer to a nameless project.
pub open spec fn empty_name_body() -> Seq<char> {
    "Project name cannot be empty"@
}

/// Body of the answer to a project without a description.
pub open spec fn empty_description_body() -> Seq<char> {
    "Project description cannot be empty"@
}

/// The characters of an optional text.
pub open spec fn opt_text(t: Option<&str>) -> Option<Seq<char>> {
    match t {
        Some(s) => Some(s@),
        None => None,
    }
}

/// The characters of an optional owned text.
pub open spec fn opt_string(t: Option<String>) -> Option<Seq<char>> {
    match t {
        Some(s) => Some(s@),
        None => None,
    }
}

/// A description that is given but blank. A missing description is left
/// to the repository.
pub open spec fn description_is_blank(description: Option<String>) -> bool {
    match description {
        Some(d) => is_blank_text(d@),
        None => false,
    }
}

/// A payload is accepted when its name is not blank (empty once white
/// space is trimmed) and its description, if given, is not blank either.
pub open spec fn payload_accepted(payload: CreateProjectPayload) -> bool {
    !is_blank_text(payload.name@) && !description_is_blank(payload.description)
}

/// The error that rejects `payload`, if any: the name is checked first.
pub open spec fn is_payload_rejection(payload: CreateProjectPayload, e: ApiError) -> bool {
    &&& e.status == BAD_REQUEST
    &&& if is_blank_text(payload.name@) {
        e.body@ == empty_name_body()
    } else {
        e.body@ == empty_description_body()
    }
}

/// A bare 500 answer, sent when the repository fails.
pub open spec fn is_repository_failure(e: ApiError) -> bool {
    e.status == INTERNAL_SERVER_ERROR && e.body@ == Seq::<char>::empty()
}

/// Builds an error answer.
pub fn api_error(status: u16, body: &str) -> (e: ApiError)
    ensures
        e.status == status,
        e.body@ == body@,
{
    ApiError { status, body: String::from_str(body) }
}

/// Builds an error answer with an empty body.
pub fn bare_error(status: u16) -> (e: ApiError)
    ensures
        e.status == status,
        e.body@ == Seq::<char>::empty(),
{
    ApiError { status, body: String::new() }
}

/// Validates a creation request and hands back its description.
pub fn check_create_payload(payload: &CreateProjectPayload) -> (r: Result<Option<&str>, ApiError>)
    ensures
        payload_accepted(*payload) <==> r is Ok,
        r matches Ok(d) ==> opt_text(d) == opt_string(payload.description),
        r matches Err(e) ==> is_payload_rejection(*payload, e),
{
    if is_blank(payload.name.as_str()) {
        return Err(api_error(BAD_REQUEST, "Project name cannot be empty"));
    }
    match &payload.description {
        Some(d) => {
            if is_blank(d.as_str()) {
                Err(api_error(BAD_REQUEST, "Project description cannot be empty"))
            } else {
                Ok(Some(d.as_str()))
            }
        },
        None => Ok(None),
    }
}

/// Turns a repository answer into an HTTP answer: the value is passed on,
/// a failure becomes a bare 500.
pub fn repository_response<T>(result: Result<T, RepositoryError>) -> (r: Result<T, ApiError>)
    ensures
        result matches Ok(v) ==> r == Ok::<T, ApiError>(v),
        result is Err ==> (r matches Err(e) && is_repository_failure(e)),
{
    match result {
        Ok(v) => Ok(v),
        Err(_) => Err(bare_error(INTERNAL_SERVER_ERROR)),
    }
}

/// `POST /projects`: rejects a blank name, or a given but blank
/// description, with a 400 and asks the repository nothing; otherwise asks
/// it once to store the project under the payload's name and description,
/// as given (a missing description is passed on as missing); the stored project is returned and a
/// repository failure becomes a bare 500.
pub fn create_project<R: ProjectRepository>(repo: &mut R, payload: &CreateProjectPayload) -> (r:
    Result<Project, ApiError>)
    ensures
        !payload_accepted(*payload) ==> {
            &&& r matches Err(e) && is_payload_rejection(*payload, e)
            &&& final(repo).requests() == old(repo).requests()
        },
        payload_accepted(*payload) ==> {
            &&& final(repo).requests().len() == old(repo).requests().len() + 1
            &&& final(repo).requests().drop_last() == old(repo).requests()
            &&& final(repo).requests().last() matches RepositoryRequest::Store {
                name,
                description,
                answer,
            } && name == payload.name@ && description == opt_string(payload.description)
                && passes_on(r, answer)
        },
{
    let description = match check_create_payload(payload) {
        Ok(d) => d,
        Err(e) => return Err(e),
    };
    let stored = repo.create_project(payload.name.as_str(), description);
    repository_response(stored)
}

/// `GET /projects`: asks the repository once for the page and page size of
/// the query, unchanged; its list is returned unchanged and a failure
/// becomes a bare 500.
pub fn get_projects<R: ProjectRepository>(repo: &mut R, params: &GetProjectsParams) -> (r: Result<
    Vec<Project>,
    ApiError,
>)
    ensures
        final(repo).requests().len() == old(repo).requests().len() + 1,
        final(repo).requests().drop_last() == old(repo).requests(),
        final(repo).requests().last() matches RepositoryRequest::List { page, page_size, answer }
            && page == Some(params.page) && page_size == Some(params.page_size) && passes_on(
            r,
            answer,
        ),
{
    let listed = repo.get_projects(Some(params.page), Some(params.page_size));
    repository_response(listed)
}

/// `GET /`: the greeting.
pub fn root() -> (greeting: &'static str)
    ensures
        greeting@ == "Hello, World!"@,
{
    "Hello, World!"
}

} // verus!
