//! The inbound adapter's verified half: request bodies, response envelopes,
//! the error mapping into protocol status codes, and the handlers' decisions.
use crate::readiness::ReadinessService;
use crate::reminders::ReminderService;
use crate::task::{CreateTaskError, CreateTaskRequest, Task, TaskTitle, TaskTitleEmptyError};
use crate::text::trimmed;
use vstd::prelude::*;
use vstd::string::StringExecFns;

verus! {

/// Configure the HTTP server.
#[derive(Debug, Clone)]
pub struct HttpServerConfig<'a> {
    pub port: &'a str,
}

/// Generic envelope shared by all API responses.
#[derive(Debug, Clone, PartialEq, Eq)]
pub struct ResponseBody<T> {
    pub status_code: u16,
    pub data: T,
}

/// The data carried by every error response.
#[derive(Debug, Clone, PartialEq, Eq)]
pub struct ErrorResponseData {
    pub message: String,
}

/// A successful API response: a protocol status code and the payload.
#[derive(Debug, Clone, PartialEq, Eq)]
pub struct ApiSuccess<T> {
    pub status_code: u16,
    pub data: T,
}

impl<T> ApiSuccess<T> {
    pub fn new(status_code: u16, data: T) -> (r: Self)
        ensures
            r.status_code == status_code,
            r.data == data,
    {
        ApiSuccess { status_code, data }
    }

    /// The wire envelope for this response.
    pub fn into_body(self) -> (r: ResponseBody<T>)
        ensures
            r.status_code == self.status_code,
            r.data == self.data,
    {
        ResponseBody { status_code: self.status_code, data: self.data }
    }
}

/// A failed API response, by its protocol meaning.
#[derive(Debug, Clone, PartialEq, Eq)]
pub enum ApiError {
    UnprocessableEntity(String),
    InternalServerError(String),
}

/// The duplicate-title message, with the offending title in it.
pub open spec fn duplicate_task_message(title: Seq<char>) -> Seq<char> {
    "task with title "@ + title + " already exists"@
}

impl ApiError {
    /// The protocol status code: 422 for a request the domain rejects, 500
    /// for an internal failure.
    pub open spec fn spec_status_code(&self) -> u16 {
        match self {
            ApiError::UnprocessableEntity(_) => 422,
            ApiError::InternalServerError(_) => 500,
        }
    }

    /// The message shown to the caller.
    pub open spec fn spec_message(&self) -> Seq<char> {
        match self {
            ApiError::UnprocessableEntity(m) => m@,
            ApiError::InternalServerError(m) => m@,
        }
    }

    pub fn status_code(&self) -> (c: u16)
        ensures
            c == self.spec_status_code(),
    {
        match self {
            ApiError::UnprocessableEntity(_) => 422,
            ApiError::InternalServerError(_) => 500,
        }
    }

    /// The wire envelope for this error: the status code repeated in the
    /// body, and the message as the data.
    pub fn into_body(self) -> (r: ResponseBody<ErrorResponseData>)
        ensures
            r.status_code == self.spec_status_code(),
            r.data.message@ == self.spec_message(),
    {
        let status_code = self.status_code();
        match self {
            ApiError::UnprocessableEntity(m) => ResponseBody {
                status_code,
                data: ErrorResponseData { message: m },
            },
            ApiError::InternalServerError(m) => ResponseBody {
                status_code,
                data: ErrorResponseData { message: m },
            },
        }
    }

    /// Maps a domain creation failure to its protocol meaning: a duplicate
    /// title is unprocessable, with a human-readable message naming the
    /// title; an unclassified cause is an internal error whose cause is never
    /// leaked.
    pub fn of_create_error(e: CreateTaskError) -> (r: ApiError)
        ensures
            e matches CreateTaskError::Duplicate { title } ==> (r matches
                ApiError::UnprocessableEntity(m) && m@ == duplicate_task_message(title@)),
            e is Unknown ==> (r matches ApiError::InternalServerError(m) && m@
                == "Internal server error"@),
    {
        match e {
            CreateTaskError::Duplicate { title } => ApiError::UnprocessableEntity(
                "task with title ".to_owned().concat(title.as_str()).concat(" already exists"),
            ),
            CreateTaskError::Unknown(_) => ApiError::InternalServerError(
                "Internal server error".to_owned(),
            ),
        }
    }

    /// Maps a request-parsing failure: an empty title is unprocessable, with
    /// a message distinct from the domain errors'.
    pub fn of_parse_error(e: ParseCreateTaskHttpRequestError) -> (r: ApiError)
        ensures
            r matches ApiError::UnprocessableEntity(m) && m@ == "task title cannot be empty"@,
    {
        match e {
            ParseCreateTaskHttpRequestError::Title(inner) => ApiError::UnprocessableEntity(
                inner.message(),
            ),
        }
    }
}

/// The body of a task creation request.
#[derive(Debug, Clone, PartialEq, Eq)]
pub struct CreateTaskRequestBody {
    pub title: String,
}

/// The response body data field for successful task creation.
#[derive(Debug, Clone, PartialEq, Eq)]
pub struct CreateTaskResponseData {
    pub id: String,
}

/// The canonical hyphenated text of a 128-bit task identifier, a function of
/// the identifier alone.
pub uninterp spec fn uuid_text_of(id: u128) -> Seq<char>;

/// A lowercase hexadecimal digit.
pub open spec fn is_lower_hex_digit(c: char) -> bool {
    let n = c as u32;
    (0x30 <= n && n <= 0x39) || (0x61 <= n && n <= 0x66)
}

/// The shape of a hyphenated identifier: 36 characters, hyphens at positions
/// 8, 13, 18 and 23, lowercase hexadecimal digits everywhere else.
pub open spec fn hyphenated_uuid_shape(s: Seq<char>) -> bool {
    &&& s.len() == 36
    &&& (forall|i: int|
        0 <= i < 36 ==> {
            if i == 8 || i == 13 || i == 18 || i == 23 {
                s[i] == '-'
            } else {
                is_lower_hex_digit(s[i])
            }
        })
}

/// Relies on `uuid::fmt::Hyphenated`, reached through `Uuid::from_u128` and
/// `to_string`: the canonical hyphenated form of the identifier — 36
/// characters, lowercase hex in five hyphen-separated groups — a function of
/// the identifier alone.
#[verifier::external_body]
fn format_task_id(id: u128) -> (r: String)
    ensures
        r@ == uuid_text_of(id),
        hyphenated_uuid_shape(r@),
{
    uuid::Uuid::from_u128(id).hyphenated().to_string()
}

impl CreateTaskResponseData {
    /// The payload for a created task: its identifier in hyphenated text
    /// form.
    pub fn of_task(task: &Task) -> (r: CreateTaskResponseData)
        ensures
            r.id@ == uuid_text_of(task.id),
            hyphenated_uuid_shape(r.id@),
    {
        CreateTaskResponseData { id: format_task_id(task.id) }
    }
}

/// The body of a task creation request, as decoded from the wire.
#[derive(Debug, Clone, PartialEq, Eq)]
pub struct CreateTaskHttpRequestBody {
    pub title: String,
}

/// Why an HTTP creation request failed to parse into a domain request:
/// distinct from the domain's own errors.
#[derive(Debug, Clone)]
pub enum ParseCreateTaskHttpRequestError {
    Title(TaskTitleEmptyError),
}

impl CreateTaskHttpRequestBody {
    /// Converts the HTTP request body into a domain request, through the
    /// single title validation gate.
    pub fn try_into_domain(self) -> (r: Result<
        CreateTaskRequest,
        ParseCreateTaskHttpRequestError,
    >)
        ensures
            r is Ok <==> trimmed(self.title@).len() > 0,
            r matches Ok(req) ==> req@ == trimmed(self.title@) && req.wf(),
    {
        match TaskTitle::new(self.title.as_str()) {
            Ok(title) => Ok(CreateTaskRequest::new(title)),
            Err(e) => Err(ParseCreateTaskHttpRequestError::Title(e)),
        }
    }
}

/// Create a new task: decode the body into a domain request, invoke the
/// service, and map the outcome to its protocol meaning — 201 with the new
/// identifier, 422 for an empty or duplicate title, 500 for anything else.
pub fn create_task<S: ReminderService>(service: &mut S, body: CreateTaskHttpRequestBody) -> (r:
    Result<ApiSuccess<CreateTaskResponseData>, ApiError>)
    requires
        old(service).inv(),
    ensures
        final(service).inv(),
        trimmed(body.title@).len() == 0 ==> *final(service) == *old(service) && (r matches Err(
            ApiError::UnprocessableEntity(m),
        ) && m@ == "task title cannot be empty"@),
        trimmed(body.title@).len() > 0 && old(service).has_title(trimmed(body.title@))
            ==> *final(service) == *old(service) && (r matches Err(
            ApiError::UnprocessableEntity(m),
        ) && m@ == duplicate_task_message(trimmed(body.title@))),
        trimmed(body.title@).len() > 0 && !old(service).has_title(trimmed(body.title@)) ==> {
            &&& (r matches Ok(s) ==> {
                &&& s.status_code == 201
                &&& hyphenated_uuid_shape(s.data.id@)
                &&& final(service).task_count() == old(service).task_count() + 1
                &&& final(service).has_title(trimmed(body.title@))
                &&& exists|id: u128|
                    !(#[trigger] old(service).has_id(id)) && final(service).has_id(id)
                        && s.data.id@ == uuid_text_of(id)
            })
            &&& (r matches Err(e) ==> *final(service) == *old(service) && (e matches
                ApiError::InternalServerError(m) && m@ == "Internal server error"@))
        },
{
    let domain_req = match body.try_into_domain() {
        Ok(req) => req,
        Err(e) => {
            return Err(ApiError::of_parse_error(e));
        },
    };
    match service.create_task(&domain_req) {
        Ok(task) => {
            let data = CreateTaskResponseData::of_task(&task);
            proof {
                assert(!old(service).has_id(task.id) && final(service).has_id(task.id) && data.id@
                    == uuid_text_of(task.id));
            }
            Ok(ApiSuccess::new(201, data))
        },
        Err(e) => Err(ApiError::of_create_error(e)),
    }
}

/// Check if the server is alive: always 200, consulting nothing downstream.
pub fn liveness() -> (r: Result<ApiSuccess<()>, ApiError>)
    ensures
        r is Ok,
        r matches Ok(s) ==> s.status_code == 200,
{
    Ok(ApiSuccess::new(200, ()))
}

/// Check if the server is ready to accept requests: 200 exactly when the
/// storage probe succeeds, 500 otherwise.
pub fn readiness<S: ReadinessService>(service: &S) -> (r: Result<ApiSuccess<()>, ApiError>)
    ensures
        r is Ok <==> service.ready(),
        r matches Ok(s) ==> s.status_code == 200,
        r matches Err(e) ==> (e matches ApiError::InternalServerError(m) && m@
            == "database is not ready"@),
{
    match service.is_ready() {
        Ok(()) => Ok(ApiSuccess::new(200, ())),
        Err(e) => Err(ApiError::InternalServerError(e.message())),
    }
}

} // verus!
