//! The authenticated request client: one request description per REST
//! endpoint, with its method, resolved URL, credentials and body.
use crate::errors::RusjiError;
use crate::json::{
    assignee_body, assignee_body_from, json_quoted, json_string_literal, story_points_body,
    story_points_body_from, transition_body, transition_body_from,
};
use crate::metadata::{story_points_target, IssueMetaData};
use vstd::prelude::*;

verus! {

#[verifier::external_type_specification]
#[verifier::external_body]
pub struct ExUrl(url::Url);

#[verifier::external_type_specification]
#[verifier::external_body]
pub struct ExParseError(url::ParseError);

/// Whether the base URL `base` parses and the path `path` resolves against it.
pub uninterp spec fn url_resolves(base: Seq<char>, path: Seq<char>) -> bool;

/// Relies on `url::Url::parse` of `base` and then `Url::join` of `path`:
/// whether both succeed depends on the two texts alone.
#[verifier::external_body]
fn resolve_url(base: &str, path: &str) -> (r: Result<url::Url, url::ParseError>)
    ensures
        r is Ok <==> url_resolves(base@, path@),
{
    match url::Url::parse(base) {
        Ok(b) => b.join(path),
        Err(e) => Err(e),
    }
}

/// Content type sent with every request.
pub const CONTENT_TYPE: &'static str = "application/json";

/// Time a request may take, in microseconds.
pub const REQUEST_TIMEOUT_MICROS: u64 = 5000000;

#[derive(Debug, Clone, Copy, PartialEq, Eq, Structural)]
pub enum HttpMethod {
    Get,
    Post,
    Put,
}

/// One request ready to be sent: `url` is `path` resolved against the base URL.
pub struct ApiRequest {
    pub method: HttpMethod,
    pub path: String,
    pub url: url::Url,
    pub authorization: String,
    pub body: Option<String>,
}

/// The body a request came back with.
pub struct RequestResponse {
    body: String,
}

impl RequestResponse {
    pub fn new(body: String) -> (r: Self)
        ensures
            r.body_view() == body@,
    {
        RequestResponse { body }
    }

    pub closed spec fn body_view(&self) -> Seq<char> {
        self.body@
    }

    /// Returns the body.
    pub fn get_body(&self) -> (r: &str)
        ensures
            r@ == self.body_view(),
    {
        self.body.as_str()
    }
}

pub open spec fn projects_path() -> Seq<char> {
    "/rest/api/2/project"@
}

pub open spec fn project_issues_path(project_key: Seq<char>) -> Seq<char> {
    "/rest/api/2/search?jql=project="@ + project_key + "&expand=renderedFields"@
}

pub open spec fn issue_path(issue_key: Seq<char>) -> Seq<char> {
    "/rest/api/2/issue/"@ + issue_key + "?expand=renderedFields"@
}

pub open spec fn project_statuses_path(project_key: Seq<char>) -> Seq<char> {
    "/rest/api/2/project/"@ + project_key + "/statuses"@
}

pub open spec fn issue_transitions_path(issue_key: Seq<char>) -> Seq<char> {
    "/rest/api/2/issue/"@ + issue_key + "/transitions"@
}

pub open spec fn issue_editmeta_path(issue_key: Seq<char>) -> Seq<char> {
    "/rest/api/2/issue/"@ + issue_key + "/editmeta"@
}

pub open spec fn user_search_path(username: Seq<char>) -> Seq<char> {
    "/rest/api/2/user/search?username="@ + username
}

pub open spec fn issue_update_path(issue_key: Seq<char>) -> Seq<char> {
    "/rest/api/2/issue/"@ + issue_key
}

fn text_around(prefix: &str, middle: &str, suffix: &str) -> (r: String)
    ensures
        r@ == prefix@ + middle@ + suffix@,
{
    let mut s = prefix.to_string();
    s.append(middle);
    s.append(suffix);
    s
}

/// Transition payload: `{"transition":{"id": ...}}`, the inner object once set.
pub struct IssueTransitionsReqData {
    pub transition: Option<IssueTransitionData>,
}

pub struct IssueTransitionData {
    pub id: String,
}

impl IssueTransitionsReqData {
    pub fn new() -> (r: Self)
        ensures
            r.transition is None,
    {
        IssueTransitionsReqData { transition: None }
    }

    pub fn add_transition_data(self, transition_id: &str) -> (r: Self)
        ensures
            r.transition matches Some(t) && t.id@ == transition_id@,
    {
        IssueTransitionsReqData { transition: Some(IssueTransitionData { id: transition_id.to_string() }) }
    }

    /// The payload as JSON text.
    pub fn to_json(&self) -> (r: String)
        ensures
            match self.transition {
                Some(t) => r@ == transition_body(json_string_literal(t.id@)),
                None => r@ == "{\"transition\":null}"@,
            },
    {
        match &self.transition {
            Some(t) => {
                let q = json_quoted(t.id.as_str());
                transition_body_from(q.as_str())
            },
            None => "{\"transition\":null}".to_string(),
        }
    }
}

/// The user an issue is assigned to, by login name.
pub struct AssigneeData {
    pub name: String,
}

impl AssigneeData {
    pub fn new(assignee_username: &str) -> (r: Self)
        ensures
            r.name@ == assignee_username@,
    {
        AssigneeData { name: assignee_username.to_string() }
    }
}

pub struct IssueFieldsReqData {
    pub assignee: Option<AssigneeData>,
}

/// Issue update payload: `{"fields":{...}}` with the fields that were set.
pub struct IssuePropertiesReqData {
    pub fields: IssueFieldsReqData,
}

pub open spec fn quoted_assignee(a: Option<AssigneeData>) -> Option<Seq<char>> {
    match a {
        Some(d) => Some(json_string_literal(d.name@)),
        None => None,
    }
}

impl IssuePropertiesReqData {
    pub fn new() -> (r: Self)
        ensures
            r.fields.assignee is None,
    {
        IssuePropertiesReqData { fields: IssueFieldsReqData { assignee: None } }
    }

    pub fn set_assignee(&mut self, assignee_username: &str)
        ensures
            final(self).fields.assignee matches Some(a) && a.name@ == assignee_username@,
    {
        self.fields.assignee = Some(AssigneeData::new(assignee_username));
    }

    /// The payload as JSON text.
    pub fn to_json(&self) -> (r: String)
        ensures
            match self.fields.assignee {
                Some(a) => r@ == assignee_body(json_string_literal(a.name@)),
                None => r@ == "{\"fields\":{}}"@,
            },
    {
        match &self.fields.assignee {
            Some(a) => {
                let q = json_quoted(a.name.as_str());
                assignee_body_from(q.as_str())
            },
            None => "{\"fields\":{}}".to_string(),
        }
    }

    /// The payload with the field `story_point_field_id` set to
    /// `new_story_points`, as JSON text.
    pub fn add_story_points_and_return_as_string(
        self,
        new_story_points: usize,
        story_point_field_id: String,
    ) -> (r: String)
        ensures
            r@ == story_points_body(
                quoted_assignee(self.fields.assignee),
                json_string_literal(story_point_field_id@),
                new_story_points as nat,
            ),
    {
        let qf = json_quoted(story_point_field_id.as_str());
        match &self.fields.assignee {
            Some(a) => {
                let qa = json_quoted(a.name.as_str());
                story_points_body_from(Some(qa.as_str()), qf.as_str(), new_story_points)
            },
            None => story_points_body_from(None, qf.as_str(), new_story_points),
        }
    }
}

/// Knows the base URL and the pre-encoded Basic credentials; builds one
/// request per endpoint.
pub struct RequestClient {
    jira_url: String,
    request_credentials: String,
}

/// `r` is a request with this method, path, credentials and body.
pub open spec fn request_is(
    r: ApiRequest,
    method: HttpMethod,
    path: Seq<char>,
    credentials: Seq<char>,
    body: Option<Seq<char>>,
) -> bool {
    &&& r.method == method
    &&& r.path@ == path
    &&& r.authorization@ == "Basic "@ + credentials
    &&& match (r.body, body) {
        (Some(b), Some(c)) => b@ == c,
        (None, None) => true,
        _ => false,
    }
}

impl RequestClient {
    pub fn new(request_credentials: String, jira_url: &str) -> (r: Self)
        ensures
            r.credentials() == request_credentials@,
            r.base_url() == jira_url@,
    {
        RequestClient { jira_url: jira_url.to_string(), request_credentials }
    }

    pub closed spec fn credentials(&self) -> Seq<char> {
        self.request_credentials@
    }

    pub closed spec fn base_url(&self) -> Seq<char> {
        self.jira_url@
    }

    /// A request to `path`; fails with `RequestError` where the URL cannot be resolved.
    fn build(&self, method: HttpMethod, path: String, body: Option<String>) -> (r: Result<
        ApiRequest,
        RusjiError,
    >)
        ensures
            r is Ok <==> url_resolves(self.base_url(), path@),
            r matches Ok(req) ==> req.method == method && req.path == path && req.body == body
                && req.authorization@ == "Basic "@ + self.credentials(),
            r matches Err(e) ==> e == RusjiError::RequestError,
    {
        let url = match resolve_url(self.jira_url.as_str(), path.as_str()) {
            Ok(u) => u,
            Err(_) => return Err(RusjiError::RequestError),
        };
        let mut authorization = "Basic ".to_string();
        authorization.append(self.request_credentials.as_str());
        Ok(ApiRequest { method, path, url, authorization, body })
    }

    /// `GET` of all projects.
    pub fn get_jira_projects(&self) -> (r: Result<ApiRequest, RusjiError>)
        ensures
            r is Ok <==> url_resolves(self.base_url(), projects_path()),
            r matches Ok(req) ==> request_is(req, HttpMethod::Get, projects_path(), self.credentials(), None),
            r matches Err(e) ==> e == RusjiError::RequestError,
    {
        self.build(HttpMethod::Get, "/rest/api/2/project".to_string(), None)
    }

    /// `GET` of the issues of one project, with rendered fields.
    pub fn get_tasks_from_project(&self, project_key: &str) -> (r: Result<ApiRequest, RusjiError>)
        ensures
            r is Ok <==> url_resolves(self.base_url(), project_issues_path(project_key@)),
            r matches Ok(req) ==> request_is(req, HttpMethod::Get, project_issues_path(project_key@), self.credentials(), None),
            r matches Err(e) ==> e == RusjiError::RequestError,
    {
        let path = text_around("/rest/api/2/search?jql=project=", project_key, "&expand=renderedFields");
        self.build(HttpMethod::Get, path, None)
    }

    /// `GET` of one issue, with rendered fields.
    pub fn get_task(&self, task_key: &str) -> (r: Result<ApiRequest, RusjiError>)
        ensures
            r is Ok <==> url_resolves(self.base_url(), issue_path(task_key@)),
            r matches Ok(req) ==> request_is(req, HttpMethod::Get, issue_path(task_key@), self.credentials(), None),
            r matches Err(e) ==> e == RusjiError::RequestError,
    {
        let path = text_around("/rest/api/2/issue/", task_key, "?expand=renderedFields");
        self.build(HttpMethod::Get, path, None)
    }

    /// `GET` of the statuses of a project.
    pub fn get_task_statuses(&self, project_key: &str) -> (r: Result<ApiRequest, RusjiError>)
        ensures
            r is Ok <==> url_resolves(self.base_url(), project_statuses_path(project_key@)),
            r matches Ok(req) ==> request_is(req, HttpMethod::Get, project_statuses_path(project_key@), self.credentials(), None),
            r matches Err(e) ==> e == RusjiError::RequestError,
    {
        let path = text_around("/rest/api/2/project/", project_key, "/statuses");
        self.build(HttpMethod::Get, path, None)
    }

    /// `GET` of the transitions currently open to an issue.
    pub fn get_issue_transitions(&self, issue_key: &str) -> (r: Result<ApiRequest, RusjiError>)
        ensures
            r is Ok <==> url_resolves(self.base_url(), issue_transitions_path(issue_key@)),
            r matches Ok(req) ==> request_is(req, HttpMethod::Get, issue_transitions_path(issue_key@), self.credentials(), None),
            r matches Err(e) ==> e == RusjiError::RequestError,
    {
        let path = text_around("/rest/api/2/issue/", issue_key, "/transitions");
        self.build(HttpMethod::Get, path, None)
    }

    /// `GET` of the edit metadata of an issue.
    pub fn get_issue_metadata(&self, issue_key: &str) -> (r: Result<ApiRequest, RusjiError>)
        ensures
            r is Ok <==> url_resolves(self.base_url(), issue_editmeta_path(issue_key@)),
            r matches Ok(req) ==> request_is(req, HttpMethod::Get, issue_editmeta_path(issue_key@), self.credentials(), None),
            r matches Err(e) ==> e == RusjiError::RequestError,
    {
        let path = text_around("/rest/api/2/issue/", issue_key, "/editmeta");
        self.build(HttpMethod::Get, path, None)
    }

    /// `GET` of the users whose login matches `username`.
    pub fn get_jira_users(&self, username: &str) -> (r: Result<ApiRequest, RusjiError>)
        ensures
            r is Ok <==> url_resolves(self.base_url(), user_search_path(username@)),
            r matches Ok(req) ==> request_is(req, HttpMethod::Get, user_search_path(username@), self.credentials(), None),
            r matches Err(e) ==> e == RusjiError::RequestError,
    {
        let path = text_around("/rest/api/2/user/search?username=", username, "");
        proof {
            assert(path@ =~= user_search_path(username@)) by {
                reveal_strlit("");
            }
        }
        self.build(HttpMethod::Get, path, None)
    }

    /// `POST` moving an issue along the transition `transition_id`.
    pub fn update_task_transition(&self, issue_key: &str, transition_id: &str) -> (r: Result<
        ApiRequest,
        RusjiError,
    >)
        ensures
            r is Ok <==> url_resolves(self.base_url(), issue_transitions_path(issue_key@)),
            r matches Err(e) ==> e == RusjiError::RequestError,
            r matches Ok(req) ==> request_is(
                req,
                HttpMethod::Post,
                issue_transitions_path(issue_key@),
                self.credentials(),
                Some(transition_body(json_string_literal(transition_id@))),
            ),
    {
        let request_data = IssueTransitionsReqData::new().add_transition_data(transition_id);
        let body = request_data.to_json();
        let path = text_around("/rest/api/2/issue/", issue_key, "/transitions");
        self.build(HttpMethod::Post, path, Some(body))
    }

    /// `PUT` assigning an issue to the user `assignee_username`.
    pub fn update_issue_assignee(&self, assignee_username: &str, issue_key: &str) -> (r: Result<
        ApiRequest,
        RusjiError,
    >)
        ensures
            r is Ok <==> url_resolves(self.base_url(), issue_update_path(issue_key@)),
            r matches Err(e) ==> e == RusjiError::RequestError,
            r matches Ok(req) ==> request_is(
                req,
                HttpMethod::Put,
                issue_update_path(issue_key@),
                self.credentials(),
                Some(assignee_body(json_string_literal(assignee_username@))),
            ),
    {
        let mut request_data = IssuePropertiesReqData::new();
        request_data.set_assignee(assignee_username);
        let body = request_data.to_json();
        let path = text_around("/rest/api/2/issue/", issue_key, "");
        proof {
            assert(path@ =~= issue_update_path(issue_key@)) by {
                reveal_strlit("");
            }
        }
        self.build(HttpMethod::Put, path, Some(body))
    }

    /// `PUT` setting the story points of an issue, under the field id that
    /// `issue_metadata` reveals (or "Story Points" where it reveals none).
    pub fn update_issue_story_points(
        &self,
        new_story_points: usize,
        issue_key: &str,
        issue_metadata: &IssueMetaData,
    ) -> (r: Result<ApiRequest, RusjiError>)
        ensures
            r is Ok <==> url_resolves(self.base_url(), issue_update_path(issue_key@)),
            r matches Err(e) ==> e == RusjiError::RequestError,
            r matches Ok(req) ==> request_is(
                req,
                HttpMethod::Put,
                issue_update_path(issue_key@),
                self.credentials(),
                Some(
                    story_points_body(
                        None,
                        json_string_literal(story_points_target(issue_metadata.fields@)),
                        new_story_points as nat,
                    ),
                ),
            ),
    {
        let field_id = issue_metadata.story_points_field_or_default();
        let request_data = IssuePropertiesReqData::new();
        let body = request_data.add_story_points_and_return_as_string(new_story_points, field_id);
        let path = text_around("/rest/api/2/issue/", issue_key, "");
        proof {
            assert(path@ =~= issue_update_path(issue_key@)) by {
                reveal_strlit("");
            }
        }
        self.build(HttpMethod::Put, path, Some(body))
    }
}

} // verus!
