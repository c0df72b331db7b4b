//! Cloud Tasks: requests for queues and tasks, and the values their answers make.
use vstd::prelude::*;
use crate::text::{owned, push_str, str_eq};
use crate::external::{json_quote, json_quoted, base64_encode, base64_text, base64_encodable, Base64Engine};
use crate::json::{canonical_string_pairs, canonical_pairs, pairs_view, push_string_object, json_string_object};
use crate::http::{Method, BodyView, HttpRequest, ApiError, json_parse_message, parsed};
use crate::api::{bodyless_spec, with_body_spec, get_request, delete_request, json_request};

verus! {

/// The scope a Cloud Tasks token is asked for.
pub open spec fn tasks_scope() -> Seq<char> {
    "https://www.googleapis.com/auth/cloud-platform"@
}

/// The scope a Cloud Tasks token is asked for.
pub fn tasks_scope_string() -> (res: String)
    ensures
        res@ == tasks_scope(),
{
    owned("https://www.googleapis.com/auth/cloud-platform")
}

/// The API base URL.
pub open spec fn base_url() -> Seq<char> {
    "https://cloudtasks.googleapis.com/v2"@
}

/// The state of a queue.
#[derive(Clone, Copy, PartialEq, Eq, Structural)]
pub enum QueueState {
    StateUnspecified,
    Running,
    Paused,
    Disabled,
}

/// The HTTP method of a task's request.
#[derive(Clone, Copy, PartialEq, Eq, Structural)]
pub enum HttpMethod {
    MethodUnspecified,
    Post,
    Get,
    Head,
    Put,
    Delete,
    Patch,
    Options,
}

/// A queue.
pub struct Queue {
    pub name: String,
    pub state: Option<QueueState>,
}

/// A task.
pub struct Task {
    pub name: String,
    pub schedule_time: Option<String>,
    pub create_time: Option<String>,
}

/// The HTTP request a task makes when it runs.
pub struct TaskHttpRequest {
    pub url: String,
    pub method: HttpMethod,
    pub headers: Vec<(String, String)>,
    pub body: Vec<u8>,
}

/// A queue as the API describes it.
pub struct QueueJson {
    pub name: String,
    pub state: Option<String>,
}

/// A task as the API describes it.
pub struct TaskJson {
    pub name: String,
    pub schedule_time: Option<String>,
    pub create_time: Option<String>,
}

/// The answer to a queue listing.
pub struct ListQueuesResponse {
    pub queues: Vec<QueueJson>,
}

/// The answer to a task listing.
pub struct ListTasksResponse {
    pub tasks: Vec<TaskJson>,
}

/// The queue state an API state name stands for; any other name is unspecified.
pub open spec fn queue_state_spec(s: Seq<char>) -> QueueState {
    if s == "RUNNING"@ {
        QueueState::Running
    } else if s == "PAUSED"@ {
        QueueState::Paused
    } else if s == "DISABLED"@ {
        QueueState::Disabled
    } else {
        QueueState::StateUnspecified
    }
}

/// The queue state an API state name stands for.
pub fn parse_queue_state(s: &str) -> (res: QueueState)
    ensures
        res == queue_state_spec(s@),
{
    if str_eq(s, "RUNNING") {
        QueueState::Running
    } else if str_eq(s, "PAUSED") {
        QueueState::Paused
    } else if str_eq(s, "DISABLED") {
        QueueState::Disabled
    } else {
        QueueState::StateUnspecified
    }
}

/// The name of an HTTP method; an unspecified method is sent as `POST`.
pub open spec fn http_method_name(m: HttpMethod) -> Seq<char> {
    match m {
        HttpMethod::Post => "POST"@,
        HttpMethod::Get => "GET"@,
        HttpMethod::Head => "HEAD"@,
        HttpMethod::Put => "PUT"@,
        HttpMethod::Delete => "DELETE"@,
        HttpMethod::Patch => "PATCH"@,
        HttpMethod::Options => "OPTIONS"@,
        HttpMethod::MethodUnspecified => "POST"@,
    }
}

/// The name of an HTTP method.
pub fn http_method_to_str(m: &HttpMethod) -> (res: &'static str)
    ensures
        res@ == http_method_name(*m),
{
    match m {
        HttpMethod::Post => "POST",
        HttpMethod::Get => "GET",
        HttpMethod::Head => "HEAD",
        HttpMethod::Put => "PUT",
        HttpMethod::Delete => "DELETE",
        HttpMethod::Patch => "PATCH",
        HttpMethod::Options => "OPTIONS",
        HttpMethod::MethodUnspecified => "POST",
    }
}

/// The contents of a `Queue`.
pub struct QueueView {
    pub name: Seq<char>,
    pub state: Option<QueueState>,
}

impl View for Queue {
    type V = QueueView;

    open spec fn view(&self) -> QueueView {
        QueueView { name: self.name@, state: self.state }
    }
}

/// The queue a description makes: its state name read as a queue state.
pub open spec fn queue_spec(q: QueueJson) -> QueueView {
    QueueView {
        name: q.name@,
        state: match q.state {
            Some(s) => Some(queue_state_spec(s@)),
            None => None,
        },
    }
}

/// The task a description makes: the same fields.
pub open spec fn task_spec(t: TaskJson) -> Task {
    Task { name: t.name, schedule_time: t.schedule_time, create_time: t.create_time }
}

impl Queue {
    /// The queue a description makes.
    pub fn from_json(q: QueueJson) -> (res: Queue)
        ensures
            res@ == queue_spec(q),
    {
        let state = match &q.state {
            Some(s) => Some(parse_queue_state(s.as_str())),
            None => None,
        };
        Queue { name: q.name, state }
    }
}

impl Task {
    /// The task a description makes.
    pub fn from_json(t: TaskJson) -> (res: Task)
        ensures
            res == task_spec(t),
    {
        Task { name: t.name, schedule_time: t.schedule_time, create_time: t.create_time }
    }
}

/// The queues of a parsed listing, or the request failure of a parse error.
pub fn list_queues_result(r: Result<ListQueuesResponse, String>) -> (res: Result<Vec<Queue>, ApiError>)
    ensures
        r matches Ok(l) ==> (res matches Ok(v) && v@.len() == l.queues@.len()
            && forall|i: int| 0 <= i < v@.len() ==> (#[trigger] v@[i])@ == queue_spec(l.queues@[i])),
        r matches Err(e) ==> (res matches Err(ApiError::RequestFailed(m)) && m@ == json_parse_message(e@)),
{
    let l = parsed(r)?;
    let items = l.queues;
    let mut out: Vec<Queue> = Vec::new();
    for q in it: items
        invariant
            out@.len() == it.index(),
            forall|i: int| 0 <= i < it.index() ==> (#[trigger] out@[i])@ == queue_spec(items@[i]),
    {
        out.push(Queue::from_json(q));
    }
    Ok(out)
}

/// The queue of a parsed description, or the request failure of a parse error.
pub fn queue_result(r: Result<QueueJson, String>) -> (res: Result<Queue, ApiError>)
    ensures
        r matches Ok(q) ==> (res matches Ok(v) && v@ == queue_spec(q)),
        r matches Err(e) ==> (res matches Err(ApiError::RequestFailed(m)) && m@ == json_parse_message(e@)),
{
    let q = parsed(r)?;
    Ok(Queue::from_json(q))
}

/// The tasks of a parsed listing, or the request failure of a parse error.
pub fn list_tasks_result(r: Result<ListTasksResponse, String>) -> (res: Result<Vec<Task>, ApiError>)
    ensures
        r matches Ok(l) ==> (res matches Ok(v) && v@ == l.tasks@.map_values(|t: TaskJson| task_spec(t))),
        r matches Err(e) ==> (res matches Err(ApiError::RequestFailed(m)) && m@ == json_parse_message(e@)),
{
    let l = parsed(r)?;
    let items = l.tasks;
    let mut out: Vec<Task> = Vec::new();
    for t in it: items
        invariant
            out@ == items@.take(it.index() as int).map_values(|t: TaskJson| task_spec(t)),
    {
        out.push(Task::from_json(t));
        proof {
            assert(items@.take(it.index() + 1) =~= items@.take(it.index() as int).push(items@[it.index() as int]));
            assert(out@ =~= items@.take(it.index() + 1).map_values(|t: TaskJson| task_spec(t)));
        }
    }
    assert(items@.take(items@.len() as int) =~= items@);
    Ok(out)
}

/// The task of a parsed description, or the request failure of a parse error.
pub fn task_result(r: Result<TaskJson, String>) -> (res: Result<Task, ApiError>)
    ensures
        r matches Ok(t) ==> res == Ok::<Task, ApiError>(task_spec(t)),
        r matches Err(e) ==> (res matches Err(ApiError::RequestFailed(m)) && m@ == json_parse_message(e@)),
{
    let t = parsed(r)?;
    Ok(Task::from_json(t))
}

// ---------------------------------------------------------------------------
// Requests

/// The URL of a named resource.
pub open spec fn resource_url(name: Seq<char>) -> Seq<char> {
    base_url() + "/"@ + name
}

fn resource_url_string(name: &str) -> (res: String)
    ensures
        res@ == resource_url(name@),
{
    let mut url = owned("https://cloudtasks.googleapis.com/v2");
    push_str(&mut url, "/");
    push_str(&mut url, name);
    url
}

/// The request listing a location's queues.
pub fn list_queues_request(auth: &str, parent: &str) -> (res: HttpRequest)
    ensures
        res@ == bodyless_spec(Method::Get, resource_url(parent@) + "/queues"@, auth@),
{
    let mut url = resource_url_string(parent);
    push_str(&mut url, "/queues");
    get_request(url, auth)
}

/// The request describing a queue.
pub fn get_queue_request(auth: &str, name: &str) -> (res: HttpRequest)
    ensures
        res@ == bodyless_spec(Method::Get, resource_url(name@), auth@),
{
    get_request(resource_url_string(name), auth)
}

/// The body creating a queue: `{"name":"<parent>/queues/<queue_id>"}`.
pub open spec fn create_queue_body(parent: Seq<char>, queue_id: Seq<char>) -> Seq<char> {
    "{\"name\":"@ + json_quoted(parent + "/queues/"@ + queue_id) + "}"@
}

/// The request creating a queue in a location.
pub fn create_queue_request(auth: &str, parent: &str, queue_id: &str) -> (res: HttpRequest)
    ensures
        res@ == with_body_spec(Method::Post, resource_url(parent@) + "/queues"@, auth@,
            "application/json"@, BodyView::Text(create_queue_body(parent@, queue_id@))),
{
    let mut full = owned(parent);
    push_str(&mut full, "/queues/");
    push_str(&mut full, queue_id);
    let mut body = owned("{\"name\":");
    let q = json_quote(full.as_str());
    push_str(&mut body, q.as_str());
    push_str(&mut body, "}");
    let mut url = resource_url_string(parent);
    push_str(&mut url, "/queues");
    json_request(Method::Post, url, auth, body)
}

/// The request deleting a queue.
pub fn delete_queue_request(auth: &str, name: &str) -> (res: HttpRequest)
    ensures
        res@ == bodyless_spec(Method::Delete, resource_url(name@), auth@),
{
    delete_request(resource_url_string(name), auth)
}

/// The request performing a custom method (`:pause`, `:resume`, `:run`) on a resource: a POST
/// of an empty object.
pub open spec fn custom_method_spec(auth: Seq<char>, name: Seq<char>, verb: Seq<char>) -> crate::http::RequestView {
    with_body_spec(Method::Post, resource_url(name) + ":"@ + verb, auth, "application/json"@, BodyView::Text("{}"@))
}

fn custom_method_request(auth: &str, name: &str, verb: &str) -> (res: HttpRequest)
    ensures
        res@ == custom_method_spec(auth@, name@, verb@),
{
    let mut url = resource_url_string(name);
    push_str(&mut url, ":");
    push_str(&mut url, verb);
    json_request(Method::Post, url, auth, owned("{}"))
}

/// The request pausing a queue.
pub fn pause_queue_request(auth: &str, name: &str) -> (res: HttpRequest)
    ensures
        res@ == custom_method_spec(auth@, name@, "pause"@),
{
    custom_method_request(auth, name, "pause")
}

/// The request resuming a queue.
pub fn resume_queue_request(auth: &str, name: &str) -> (res: HttpRequest)
    ensures
        res@ == custom_method_spec(auth@, name@, "resume"@),
{
    custom_method_request(auth, name, "resume")
}

/// The request listing a queue's tasks.
pub fn list_tasks_request(auth: &str, parent: &str) -> (res: HttpRequest)
    ensures
        res@ == bodyless_spec(Method::Get, resource_url(parent@) + "/tasks"@, auth@),
{
    let mut url = resource_url_string(parent);
    push_str(&mut url, "/tasks");
    get_request(url, auth)
}

/// The request describing a task.
pub fn get_task_request(auth: &str, name: &str) -> (res: HttpRequest)
    ensures
        res@ == bodyless_spec(Method::Get, resource_url(name@), auth@),
{
    get_request(resource_url_string(name), auth)
}

/// The JSON of a task's HTTP request (keys in order): its body in standard base64, its
/// headers as an object (one entry per name, the last given, names in order), its method's
/// name and its URL.
pub open spec fn task_http_request_json(r: TaskHttpRequest) -> Seq<char> {
    "{\"body\":"@ + json_quoted(base64_text(Base64Engine::Standard, r.body@)) + ",\"headers\":"@
        + json_string_object(canonical_pairs(pairs_view(r.headers@))) + ",\"httpMethod\":"@
        + json_quoted(http_method_name(r.method)) + ",\"url\":"@ + json_quoted(r.url@) + "}"@
}

/// The body creating a task: `{"task":{"httpRequest":...,"scheduleTime":...}}`, the schedule
/// time only when one is given.
pub open spec fn create_task_body(r: TaskHttpRequest, schedule_time: Option<Seq<char>>) -> Seq<char> {
    "{\"task\":{\"httpRequest\":"@ + task_http_request_json(r) + match schedule_time {
        Some(st) => ",\"scheduleTime\":"@ + json_quoted(st),
        None => Seq::empty(),
    } + "}}"@
}

/// The request creating a task in a queue.
pub fn create_task_request(auth: &str, parent: &str, http_request: &TaskHttpRequest, schedule_time: Option<&str>) -> (res: HttpRequest)
    requires
        base64_encodable(http_request.body@.len()),
    ensures
        res@ == with_body_spec(Method::Post, resource_url(parent@) + "/tasks"@, auth@,
            "application/json"@, BodyView::Text(create_task_body(*http_request, match schedule_time {
                Some(st) => Some(st@),
                None => None,
            }))),
{
    let mut body = owned("{\"task\":{\"httpRequest\":");
    push_str(&mut body, "{\"body\":");
    let encoded = base64_encode(Base64Engine::Standard, http_request.body.as_slice());
    let q = json_quote(encoded.as_str());
    push_str(&mut body, q.as_str());
    push_str(&mut body, ",\"headers\":");
    let headers = canonical_string_pairs(http_request.headers.as_slice());
    push_string_object(&mut body, headers.as_slice());
    push_str(&mut body, ",\"httpMethod\":");
    let q = json_quote(http_method_to_str(&http_request.method));
    push_str(&mut body, q.as_str());
    push_str(&mut body, ",\"url\":");
    let q = json_quote(http_request.url.as_str());
    push_str(&mut body, q.as_str());
    push_str(&mut body, "}");
    let ghost prefix = body@;
    assert(prefix =~= "{\"task\":{\"httpRequest\":"@ + task_http_request_json(*http_request));
    match schedule_time {
        Some(st) => {
            push_str(&mut body, ",\"scheduleTime\":");
            let q = json_quote(st);
            push_str(&mut body, q.as_str());
            assert(body@ =~= prefix + (",\"scheduleTime\":"@ + json_quoted(st@)));
        },
        None => {
            assert(body@ =~= prefix + Seq::<char>::empty());
        },
    }
    push_str(&mut body, "}}");
    let mut url = resource_url_string(parent);
    push_str(&mut url, "/tasks");
    json_request(Method::Post, url, auth, body)
}

/// The request deleting a task.
pub fn delete_task_request(auth: &str, name: &str) -> (res: HttpRequest)
    ensures
        res@ == bodyless_spec(Method::Delete, resource_url(name@), auth@),
{
    delete_request(resource_url_string(name), auth)
}

/// The request running a task now.
pub fn run_task_request(auth: &str, name: &str) -> (res: HttpRequest)
    ensures
        res@ == custom_method_spec(auth@, name@, "run"@),
{
    custom_method_request(auth, name, "run")
}

} // verus!
