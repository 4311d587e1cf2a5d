//! The web client's backend services. Each call is planned here as a plain
//! request (method, URL, body, headers); sending it and decoding the reply
//! is the browser's work.

use vstd::prelude::*;

verus! {

/// Root of the backend API that the services address.
pub const API_BASE_URL: &'static str = "/api";

/// Content type of every request body.
pub const JSON_CONTENT_TYPE: &'static str = "application/json";

/// One HTTP request, ready to be sent in CORS mode.
#[derive(Clone, Debug, PartialEq, Eq)]
pub struct RequestPlan {
    pub method: String,
    pub url: String,
    pub body: Option<String>,
    pub headers: Vec<(String, String)>,
}

/// The view of an optional text.
pub open spec fn opt_view(o: Option<&str>) -> Option<Seq<char>> {
    match o {
        Some(s) => Some(s@),
        None => None,
    }
}

/// The headers of a request: the JSON content type, then the bearer token
/// when one is known.
pub open spec fn request_headers(token: Option<Seq<char>>) -> Seq<(Seq<char>, Seq<char>)> {
    match token {
        Some(t) => seq![
            ("Content-Type"@, JSON_CONTENT_TYPE@),
            ("Authorization"@, "Bearer "@ + t),
        ],
        None => seq![("Content-Type"@, JSON_CONTENT_TYPE@)],
    }
}

/// `plan` is the request `method` on `base/path` with `body` and `token`.
pub open spec fn plans(
    plan: RequestPlan,
    method: Seq<char>,
    base: Seq<char>,
    path: Seq<char>,
    body: Option<Seq<char>>,
    token: Option<Seq<char>>,
) -> bool {
    &&& plan.method@ == method
    &&& plan.url@ == base + "/"@ + path
    &&& plan.body is Some <==> body is Some
    &&& body is Some ==> plan.body->0@ == body->0
    &&& plan.headers@.len() == request_headers(token).len()
    &&& forall|i: int|
        0 <= i < plan.headers@.len() ==> (#[trigger] plan.headers@[i].0@, plan.headers@[i].1@)
            == request_headers(token)[i]
}

/// Plans the request `method` on `base/path`, with the JSON content type
/// and, when `token` is given, a bearer authorization header.
pub fn plan_request(base: &str, method: &str, path: &str, body: Option<&str>, token: Option<&str>) -> (r: RequestPlan)
    ensures
        plans(r, method@, base@, path@, opt_view(body), opt_view(token)),
{
    let mut url = base.to_owned();
    url.append("/");
    url.append(path);
    let body_text: Option<String> = match body {
        Some(b) => Some(b.to_owned()),
        None => None,
    };
    let mut headers: Vec<(String, String)> = Vec::new();
    headers.push(("Content-Type".to_owned(), JSON_CONTENT_TYPE.to_owned()));
    match token {
        Some(t) => {
            let mut bearer = "Bearer ".to_owned();
            bearer.append(t);
            headers.push(("Authorization".to_owned(), bearer));
        },
        None => {},
    }
    RequestPlan { method: method.to_owned(), url, body: body_text, headers }
}

/// Joins `prefix`, `id` and `suffix` into one path.
fn path_with_id(prefix: &str, id: &str, suffix: &str) -> (r: String)
    ensures
        r@ == prefix@ + id@ + suffix@,
{
    let mut p = prefix.to_owned();
    p.append(id);
    p.append(suffix);
    p
}

/// The research backend: survey creation, analyses and data export.
pub struct ResearchService {
    base_url: String,
}

impl View for ResearchService {
    type V = Seq<char>;

    /// The service's base URL.
    closed spec fn view(&self) -> Seq<char> {
        self.base_url@
    }
}

impl ResearchService {
    /// The service rooted at `API_BASE_URL/research`.
    pub fn new() -> (r: ResearchService)
        ensures
            r@ == API_BASE_URL@ + "/research"@,
    {
        let mut base_url = API_BASE_URL.to_owned();
        base_url.append("/research");
        ResearchService { base_url }
    }

    /// The base URL every request of this service starts with.
    pub fn base_url(&self) -> (r: &str)
        ensures
            r@ == self@,
    {
        self.base_url.as_str()
    }

    /// Plans `method` on `path` under the service's base URL. No session
    /// token is kept, so no authorization header is sent.
    pub fn create_request(&self, method: &str, path: &str, body: Option<&str>) -> (r: RequestPlan)
        ensures
            plans(r, method@, self@, path@, opt_view(body), None),
    {
        plan_request(self.base_url.as_str(), method, path, body, None)
    }

    /// The request that fetches the research data.
    pub fn fetch_research_data_request(&self) -> (r: RequestPlan)
        ensures
            plans(r, "GET"@, self@, "data"@, None, None),
    {
        self.create_request("GET", "data", None)
    }

    /// The request that creates a survey from its JSON text.
    pub fn create_survey_request(&self, survey_json: &str) -> (r: RequestPlan)
        ensures
            plans(r, "POST"@, self@, "surveys"@, Some(survey_json@), None),
    {
        self.create_request("POST", "surveys", Some(survey_json))
    }

    /// The request that replaces analysis `analysis_id` with its JSON text.
    pub fn update_analysis_request(&self, analysis_id: &str, analysis_json: &str) -> (r: RequestPlan)
        ensures
            plans(r, "PUT"@, self@, "analysis/"@ + analysis_id@, Some(analysis_json@), None),
    {
        let path = path_with_id("analysis/", analysis_id, "");
        proof {
            reveal_strlit("");
            assert(path@ =~= "analysis/"@ + analysis_id@);
        }
        self.create_request("PUT", path.as_str(), Some(analysis_json))
    }

    /// The request that exports the data in `format`.
    pub fn export_data_request(&self, format: &str) -> (r: RequestPlan)
        ensures
            plans(r, "GET"@, self@, "export?format="@ + format@, None, None),
    {
        let path = path_with_id("export?format=", format, "");
        proof {
            reveal_strlit("");
            assert(path@ =~= "export?format="@ + format@);
        }
        self.create_request("GET", path.as_str(), None)
    }
}

/// The volunteer backend: survey answers, tasks and badges.
pub struct VolunteerService {
    base_url: String,
}

impl View for VolunteerService {
    type V = Seq<char>;

    /// The service's base URL.
    closed spec fn view(&self) -> Seq<char> {
        self.base_url@
    }
}

impl VolunteerService {
    /// The service rooted at `API_BASE_URL/volunteer`.
    pub fn new() -> (r: VolunteerService)
        ensures
            r@ == API_BASE_URL@ + "/volunteer"@,
    {
        let mut base_url = API_BASE_URL.to_owned();
        base_url.append("/volunteer");
        VolunteerService { base_url }
    }

    /// The base URL every request of this service starts with.
    pub fn base_url(&self) -> (r: &str)
        ensures
            r@ == self@,
    {
        self.base_url.as_str()
    }

    /// The session token to authorize with. No session store exists, so
    /// there is none.
    pub fn get_auth_token(&self) -> (r: Option<String>)
        ensures
            r is None,
    {
        None
    }

    /// Plans `method` on `path` under the service's base URL, with a bearer
    /// header when a session token is known.
    pub fn create_request(&self, method: &str, path: &str, body: Option<&str>) -> (r: RequestPlan)
        ensures
            plans(r, method@, self@, path@, opt_view(body), None),
    {
        let token = self.get_auth_token();
        match token {
            Some(t) => plan_request(self.base_url.as_str(), method, path, body, Some(t.as_str())),
            None => plan_request(self.base_url.as_str(), method, path, body, None),
        }
    }

    /// The request that fetches the volunteer's data.
    pub fn fetch_volunteer_data_request(&self) -> (r: RequestPlan)
        ensures
            plans(r, "GET"@, self@, "data"@, None, None),
    {
        self.create_request("GET", "data", None)
    }

    /// The request that submits answers to a survey, given as JSON text.
    pub fn submit_survey_response_request(&self, response_json: &str) -> (r: RequestPlan)
        ensures
            plans(r, "POST"@, self@, "surveys/submit"@, Some(response_json@), None),
    {
        self.create_request("POST", "surveys/submit", Some(response_json))
    }

    /// The request that marks task `task_id` complete.
    pub fn complete_task_request(&self, task_id: &str) -> (r: RequestPlan)
        ensures
            plans(r, "POST"@, self@, "tasks/"@ + task_id@ + "/complete"@, None, None),
    {
        let path = path_with_id("tasks/", task_id, "/complete");
        self.create_request("POST", path.as_str(), None)
    }

    /// The request that claims badge `badge_id`.
    pub fn claim_badge_request(&self, badge_id: &str) -> (r: RequestPlan)
        ensures
            plans(r, "POST"@, self@, "badges/"@ + badge_id@ + "/claim"@, None, None),
    {
        let path = path_with_id("badges/", badge_id, "/claim");
        self.create_request("POST", path.as_str(), None)
    }
}

} // verus!
