//! Routing and responses: from one request text to either an immediate
//! response or a store action, and from a store outcome back to the
//! response the service writes.
//!
//! The route table, first match wins, with an exact method match:
//! `POST /users` creates, `GET /users/{id}` reads one, `GET /users`
//! reads all, `PUT /users/{id}` updates, `DELETE /users/{id}` deletes;
//! anything else is not found. A path identifier that is not a decimal
//! number within the signed 32-bit range is answered not-found, since
//! no record can carry it.

use vstd::prelude::*;
use crate::User;
use crate::UserV;
use crate::http::spec_body_start;
use crate::http::spec_extract_id;
use crate::http::spec_parse_request;
use crate::http::body_start;
use crate::http::extract_id;
use crate::http::parse_request;
use crate::json::parse_record_chars;
use crate::json::record_to_json;
use crate::json::records_to_json;
use crate::json::spec_parse_record;
use crate::json::spec_render_record;
use crate::json::spec_render_records;
use crate::num::parse_i32;
use crate::num::spec_parse_i32;
use crate::store::StoreError;
use crate::store::StoreV;
use crate::store::list_res_view;
use crate::store::spec_create;
use crate::store::spec_delete;
use crate::store::spec_get_all;
use crate::store::spec_get_user;
use crate::store::spec_update;
use crate::store::user_res_view;
use crate::text::str_to_chars;
use crate::text::sub_chars;

verus! {

/// The routes of the service; `Unmatched` answers for every other
/// method and path.
#[derive(Clone, Copy, Debug, PartialEq, Eq)]
pub enum Route {
    Create,
    ReadOne,
    ReadAll,
    Update,
    Delete,
    Unmatched,
}

/// The status lines the service uses.
#[derive(Clone, Copy, Debug, PartialEq, Eq)]
pub enum Status {
    Okay,
    NotFound,
    ServerError,
}

/// A response: a status line and the text written after the headers.
#[derive(Debug, Clone)]
pub struct Response {
    pub status: Status,
    pub body: String,
}

/// The mathematical value of a response.
pub struct RespV {
    pub status: Status,
    pub body: Seq<char>,
}

impl View for Response {
    type V = RespV;

    open spec fn view(&self) -> RespV {
        RespV { status: self.status, body: self.body@ }
    }
}

/// A store operation the dispatcher asks for.
#[derive(Debug, Clone)]
pub enum StoreAction {
    Insert { name: String, email: String },
    FetchById { id: i32 },
    FetchAll,
    UpdateById { id: i32, name: String, email: String },
    DeleteById { id: i32 },
}

/// The mathematical value of a store action.
pub enum ActionV {
    Insert { name: Seq<char>, email: Seq<char> },
    FetchById { id: int },
    FetchAll,
    UpdateById { id: int, name: Seq<char>, email: Seq<char> },
    DeleteById { id: int },
}

impl View for StoreAction {
    type V = ActionV;

    open spec fn view(&self) -> ActionV {
        match self {
            StoreAction::Insert { name, email } => ActionV::Insert { name: name@, email: email@ },
            StoreAction::FetchById { id } => ActionV::FetchById { id: *id as int },
            StoreAction::FetchAll => ActionV::FetchAll,
            StoreAction::UpdateById { id, name, email } => ActionV::UpdateById {
                id: *id as int,
                name: name@,
                email: email@,
            },
            StoreAction::DeleteById { id } => ActionV::DeleteById { id: *id as int },
        }
    }
}

/// What one request asks of the service: answer at once, or perform a
/// store action and answer from its outcome.
#[derive(Debug, Clone)]
pub enum Dispatch {
    Reply(Response),
    Act(StoreAction),
}

/// The mathematical value of a dispatch decision.
pub enum DispatchV {
    Reply(RespV),
    Act(ActionV),
}

impl View for Dispatch {
    type V = DispatchV;

    open spec fn view(&self) -> DispatchV {
        match self {
            Dispatch::Reply(r) => DispatchV::Reply(r@),
            Dispatch::Act(a) => DispatchV::Act(a@),
        }
    }
}

/// Whether the path names a record: the `/users/` prefix.
pub open spec fn starts_users(p: Seq<char>) -> bool {
    p.len() >= 7 && p.subrange(0, 7) == "/users/"@
}

/// The route table.
pub open spec fn spec_route(m: Seq<char>, p: Seq<char>) -> Route {
    if m == "POST"@ && p == "/users"@ {
        Route::Create
    } else if m == "GET"@ && starts_users(p) {
        Route::ReadOne
    } else if m == "GET"@ && p == "/users"@ {
        Route::ReadAll
    } else if m == "PUT"@ && starts_users(p) {
        Route::Update
    } else if m == "DELETE"@ && starts_users(p) {
        Route::Delete
    } else {
        Route::Unmatched
    }
}

/// The identifier a path carries, when its segment is a decimal number
/// in the signed 32-bit range.
pub open spec fn spec_path_id(p: Seq<char>) -> Option<int> {
    match spec_extract_id(p) {
        Some((a, b)) => spec_parse_i32(p, a, b),
        None => None,
    }
}

/// The body of a request text.
pub open spec fn spec_body(s: Seq<char>) -> Seq<char> {
    s.subrange(spec_body_start(s), s.len() as int)
}

/// What the dispatcher decides for one request text.
pub open spec fn spec_dispatch(req: Seq<char>) -> DispatchV {
    match spec_parse_request(req) {
        None => DispatchV::Reply(RespV { status: Status::NotFound, body: "404 Not Found"@ }),
        Some((m, p)) => match spec_route(m, p) {
            Route::Create => match spec_parse_record(spec_body(req)) {
                Some(rec) => DispatchV::Act(ActionV::Insert { name: rec.name, email: rec.email }),
                None => DispatchV::Reply(RespV { status: Status::ServerError, body: "Error"@ }),
            },
            Route::ReadOne => match spec_path_id(p) {
                Some(id) => DispatchV::Act(ActionV::FetchById { id }),
                None => DispatchV::Reply(RespV { status: Status::NotFound, body: "User not found"@ }),
            },
            Route::ReadAll => DispatchV::Act(ActionV::FetchAll),
            Route::Update => match spec_parse_record(spec_body(req)) {
                Some(rec) => match spec_path_id(p) {
                    Some(id) => DispatchV::Act(ActionV::UpdateById {
                        id,
                        name: rec.name,
                        email: rec.email,
                    }),
                    None => DispatchV::Reply(RespV { status: Status::NotFound, body: "User not found"@ }),
                },
                None => DispatchV::Reply(RespV { status: Status::ServerError, body: "Error"@ }),
            },
            Route::Delete => match spec_path_id(p) {
                Some(id) => DispatchV::Act(ActionV::DeleteById { id }),
                None => DispatchV::Reply(RespV { status: Status::NotFound, body: "User not found"@ }),
            },
            Route::Unmatched => DispatchV::Reply(RespV { status: Status::NotFound, body: "404 Not Found"@ }),
        },
    }
}

/// Compares an owned string against a routing literal.
fn eq_lit(a: &String, b: &str) -> (r: bool)
    ensures
        r == (a@ == b@),
{
    let bo: String = b.to_owned();
    *a == bo
}

/// Decides `starts_users`.
fn is_users_prefix(p: &String) -> (r: bool)
    ensures
        r == starts_users(p@),
{
    let s: &str = p.as_str();
    let n: usize = s.unicode_len();
    if n < 7 {
        return false;
    }
    if s.get_char(0) == '/' && s.get_char(1) == 'u' && s.get_char(2) == 's' && s.get_char(3) == 'e'
        && s.get_char(4) == 'r' && s.get_char(5) == 's' && s.get_char(6) == '/' {
        proof {
            reveal_strlit("/users/");
            assert(p@.subrange(0, 7) =~= "/users/"@);
        }
        true
    } else {
        proof {
            reveal_strlit("/users/");
            if p@.subrange(0, 7) == "/users/"@ {
                assert(p@.subrange(0, 7)[0] == '/');
                assert(p@.subrange(0, 7)[1] == 'u');
                assert(p@.subrange(0, 7)[2] == 's');
                assert(p@.subrange(0, 7)[3] == 'e');
                assert(p@.subrange(0, 7)[4] == 'r');
                assert(p@.subrange(0, 7)[5] == 's');
                assert(p@.subrange(0, 7)[6] == '/');
            }
        }
        false
    }
}

/// Looks a method and path up in the route table.
pub fn route_request(m: &String, p: &String) -> (r: Route)
    ensures
        r == spec_route(m@, p@),
{
    if eq_lit(m, "POST") && eq_lit(p, "/users") {
        Route::Create
    } else if eq_lit(m, "GET") && is_users_prefix(p) {
        Route::ReadOne
    } else if eq_lit(m, "GET") && eq_lit(p, "/users") {
        Route::ReadAll
    } else if eq_lit(m, "PUT") && is_users_prefix(p) {
        Route::Update
    } else if eq_lit(m, "DELETE") && is_users_prefix(p) {
        Route::Delete
    } else {
        Route::Unmatched
    }
}

/// Reads the identifier out of a path.
fn path_id(p: &String) -> (r: Option<i32>)
    ensures
        match spec_path_id(p@) {
            Some(v) => r == Some(v as i32),
            None => r is None,
        },
{
    let pc = str_to_chars(p.as_str());
    match extract_id(&pc) {
        Some((a, b)) => parse_i32(&pc, a, b),
        None => None,
    }
}

/// Decides what one request asks of the service.
pub fn dispatch(request: &str) -> (d: Dispatch)
    ensures
        d@ == spec_dispatch(request@),
{
    let cs = str_to_chars(request);
    match parse_request(&cs) {
        None => Dispatch::Reply(Response { status: Status::NotFound, body: "404 Not Found".to_owned() }),
        Some((m, p)) => match route_request(&m, &p) {
            Route::Create => {
                let bs: usize = body_start(&cs);
                let body = sub_chars(&cs, bs, cs.len());
                match parse_record_chars(&body) {
                    Some(u) => Dispatch::Act(StoreAction::Insert { name: u.name, email: u.email }),
                    None => Dispatch::Reply(
                        Response { status: Status::ServerError, body: "Error".to_owned() },
                    ),
                }
            },
            Route::ReadOne => match path_id(&p) {
                Some(id) => Dispatch::Act(StoreAction::FetchById { id }),
                None => Dispatch::Reply(
                    Response { status: Status::NotFound, body: "User not found".to_owned() },
                ),
            },
            Route::ReadAll => Dispatch::Act(StoreAction::FetchAll),
            Route::Update => {
                let bs: usize = body_start(&cs);
                let body = sub_chars(&cs, bs, cs.len());
                match parse_record_chars(&body) {
                    Some(u) => match path_id(&p) {
                        Some(id) => Dispatch::Act(
                            StoreAction::UpdateById { id, name: u.name, email: u.email },
                        ),
                        None => Dispatch::Reply(
                            Response { status: Status::NotFound, body: "User not found".to_owned() },
                        ),
                    },
                    None => Dispatch::Reply(
                        Response { status: Status::ServerError, body: "Error".to_owned() },
                    ),
                }
            },
            Route::Delete => match path_id(&p) {
                Some(id) => Dispatch::Act(StoreAction::DeleteById { id }),
                None => Dispatch::Reply(
                    Response { status: Status::NotFound, body: "User not found".to_owned() },
                ),
            },
            Route::Unmatched => Dispatch::Reply(
                Response { status: Status::NotFound, body: "404 Not Found".to_owned() },
            ),
        },
    }
}

/// The response after a create.
pub open spec fn spec_respond_create(r: Result<(), StoreError>) -> RespV {
    match r {
        Ok(_) => RespV { status: Status::Okay, body: "User created"@ },
        Err(_) => RespV { status: Status::ServerError, body: "Error"@ },
    }
}

/// The response after a read-one: the record rendered, or not-found for
/// any failure.
pub open spec fn spec_respond_read_one(r: Result<UserV, StoreError>) -> RespV {
    match r {
        Ok(u) => RespV { status: Status::Okay, body: spec_render_record(u) },
        Err(_) => RespV { status: Status::NotFound, body: "User not found"@ },
    }
}

/// The response after a read-all: the listing rendered.
pub open spec fn spec_respond_read_all(r: Result<Seq<UserV>, StoreError>) -> RespV {
    match r {
        Ok(l) => RespV { status: Status::Okay, body: spec_render_records(l) },
        Err(_) => RespV { status: Status::ServerError, body: "Error"@ },
    }
}

/// The response after an update.
pub open spec fn spec_respond_update(r: Result<(), StoreError>) -> RespV {
    match r {
        Ok(_) => RespV { status: Status::Okay, body: "User updated"@ },
        Err(_) => RespV { status: Status::ServerError, body: "Error"@ },
    }
}

/// The response after a delete: a store failure is answered not-found,
/// as the delete route conflates the two.
pub open spec fn spec_respond_delete(r: Result<(), StoreError>) -> RespV {
    match r {
        Ok(_) => RespV { status: Status::Okay, body: "User deleted"@ },
        Err(_) => RespV { status: Status::NotFound, body: "User not found"@ },
    }
}

/// Builds the create response.
pub fn respond_create(r: Result<(), StoreError>) -> (resp: Response)
    ensures
        resp@ == spec_respond_create(r),
{
    match r {
        Ok(_) => Response { status: Status::Okay, body: "User created".to_owned() },
        Err(_) => Response { status: Status::ServerError, body: "Error".to_owned() },
    }
}

/// Builds the read-one response.
pub fn respond_read_one(r: Result<User, StoreError>) -> (resp: Response)
    ensures
        resp@ == spec_respond_read_one(user_res_view(r)),
{
    match r {
        Ok(u) => Response { status: Status::Okay, body: record_to_json(&u) },
        Err(_) => Response { status: Status::NotFound, body: "User not found".to_owned() },
    }
}

/// Builds the read-all response.
pub fn respond_read_all(r: Result<Vec<User>, StoreError>) -> (resp: Response)
    ensures
        resp@ == spec_respond_read_all(list_res_view(r)),
{
    match r {
        Ok(v) => Response { status: Status::Okay, body: records_to_json(&v) },
        Err(_) => Response { status: Status::ServerError, body: "Error".to_owned() },
    }
}

/// Builds the update response.
pub fn respond_update(r: Result<(), StoreError>) -> (resp: Response)
    ensures
        resp@ == spec_respond_update(r),
{
    match r {
        Ok(_) => Response { status: Status::Okay, body: "User updated".to_owned() },
        Err(_) => Response { status: Status::ServerError, body: "Error".to_owned() },
    }
}

/// Builds the delete response.
pub fn respond_delete(r: Result<(), StoreError>) -> (resp: Response)
    ensures
        resp@ == spec_respond_delete(r),
{
    match r {
        Ok(_) => Response { status: Status::Okay, body: "User deleted".to_owned() },
        Err(_) => Response { status: Status::NotFound, body: "User not found".to_owned() },
    }
}

/// What performing one action does to the store and answers.
pub open spec fn spec_step(s: StoreV, a: ActionV) -> (StoreV, RespV) {
    match a {
        ActionV::Insert { name, email } => {
            let t = spec_create(s, name, email);
            (t.0, spec_respond_create(t.1))
        },
        ActionV::FetchById { id } => (s, spec_respond_read_one(spec_get_user(s, id))),
        ActionV::FetchAll => (s, spec_respond_read_all(spec_get_all(s))),
        ActionV::UpdateById { id, name, email } => {
            let t = spec_update(s, id, name, email);
            (t.0, spec_respond_update(t.1))
        },
        ActionV::DeleteById { id } => {
            let t = spec_delete(s, id);
            (t.0, spec_respond_delete(t.1))
        },
    }
}

/// What one whole request does to a store and answers: the composition
/// of dispatching and, when an action was asked for, performing it.
pub open spec fn spec_handle(s: StoreV, req: Seq<char>) -> (StoreV, RespV) {
    match spec_dispatch(req) {
        DispatchV::Reply(r) => (s, r),
        DispatchV::Act(a) => spec_step(s, a),
    }
}

/// The status line and headers of each status.
pub open spec fn spec_status_text(st: Status) -> Seq<char> {
    match st {
        Status::Okay => "HTTP/1.1 200 OK\r\nContent-Type: application/json\r\n\r\n"@,
        Status::NotFound => "HTTP/1.1 404 NOT FOUND\r\n\r\n"@,
        Status::ServerError => "HTTP/1.1 500 INTERNAL SERVER ERROR\r\n\r\n"@,
    }
}

/// The text written back on the connection for a response.
pub open spec fn spec_render_response(r: RespV) -> Seq<char> {
    spec_status_text(r.status) + r.body
}

/// Renders a response into the text written back on the connection.
pub fn render_response(r: &Response) -> (out: String)
    ensures
        out@ == spec_render_response(r@),
{
    let mut out: String = match r.status {
        Status::Okay => "HTTP/1.1 200 OK\r\nContent-Type: application/json\r\n\r\n".to_owned(),
        Status::NotFound => "HTTP/1.1 404 NOT FOUND\r\n\r\n".to_owned(),
        Status::ServerError => "HTTP/1.1 500 INTERNAL SERVER ERROR\r\n\r\n".to_owned(),
    };
    out.append(r.body.as_str());
    out
}

} // verus!
