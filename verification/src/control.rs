//! The control plane: the routes under the reserved prefix and what each of
//! them decides.

use crate::auth::{header_bytes, write_decision, RequestParts, UserData, WriteUser};
use crate::status::{
    Reply, ReplyView, INTERNAL_SERVER_ERROR, METHOD_NOT_ALLOWED, NOT_FOUND, OK,
    SERVICE_UNAVAILABLE,
};
use crate::subproc::{ServerView, WrappedServer, WrappedServerCommand};
use crate::text::{same_text, skip_chars, starts_with};
use vstd::prelude::*;
use vstd::string::*;
use vstd::utf8::valid_utf8;

verus! {

/// The port on which the proxy listens unless told otherwise.
pub const DEFAULT_PORT: u16 = 8080;

/// The local port to which requests are forwarded unless told otherwise.
pub const DEFAULT_SUBPROCESS_PORT: u16 = 9090;

/// What the request handlers share: the supervisor, and the local port to
/// which requests are forwarded.
pub struct ServerState {
    pub wrapped_server: WrappedServer,
    pub subprocess_port: u16,
}

/// The request methods that the control plane tells apart.
#[derive(Debug, Clone, Copy, PartialEq, Eq, Structural)]
pub enum Method {
    Get,
    Post,
    Other,
}

/// Where a request goes.
#[derive(Debug, Clone, PartialEq, Eq)]
pub enum Route {
    /// `GET /_frag/status`
    Status,
    /// `POST /_frag/restart`
    Restart,
    /// `POST /_frag/interrupt`
    Interrupt,
    /// `GET /_frag/await`
    Await,
    /// `POST /_frag/upload/<path>`, with the path as it stands in the URL.
    Upload(String),
    /// A control path asked for with a method it does not serve.
    MethodNotAllowed,
    /// A path under the reserved prefix that names no control endpoint.
    NotFound,
    /// Any other path: the request belongs to the subprocess.
    Proxy,
}

/// A `Route` as the contracts see it.
pub enum RouteView {
    Status,
    Restart,
    Interrupt,
    Await,
    Upload(Seq<char>),
    MethodNotAllowed,
    NotFound,
    Proxy,
}

impl View for Route {
    type V = RouteView;

    open spec fn view(&self) -> RouteView {
        match *self {
            Route::Status => RouteView::Status,
            Route::Restart => RouteView::Restart,
            Route::Interrupt => RouteView::Interrupt,
            Route::Await => RouteView::Await,
            Route::Upload(path) => RouteView::Upload(path@),
            Route::MethodNotAllowed => RouteView::MethodNotAllowed,
            Route::NotFound => RouteView::NotFound,
            Route::Proxy => RouteView::Proxy,
        }
    }
}

/// The status that answers a request under the reserved prefix which no
/// endpoint serves.
pub open spec fn unserved_status(route: RouteView) -> Option<u16> {
    match route {
        RouteView::NotFound => Some(NOT_FOUND),
        RouteView::MethodNotAllowed => Some(METHOD_NOT_ALLOWED),
        _ => None,
    }
}

impl Route {
    /// The status to answer with where no endpoint serves the request, and
    /// `None` where one does or the request belongs to the subprocess.
    pub fn unserved(&self) -> (status: Option<u16>)
        ensures
            status == unserved_status(self@),
    {
        match self {
            Route::NotFound => Some(NOT_FOUND),
            Route::MethodNotAllowed => Some(METHOD_NOT_ALLOWED),
            _ => None,
        }
    }
}

/// The prefix that is reserved for the control plane.
pub open spec fn reserved_prefix() -> Seq<char> {
    "/_frag/"@
}

/// The endpoint that `served` stands for when asked with `method`.
pub open spec fn with_method(method: Method, accepted: Method, served: RouteView) -> RouteView {
    if method == accepted {
        served
    } else {
        RouteView::MethodNotAllowed
    }
}

/// Where a request under the reserved prefix goes; `rest` is its path after
/// the prefix.
pub open spec fn control_route(method: Method, rest: Seq<char>) -> RouteView {
    if rest == "status"@ {
        with_method(method, Method::Get, RouteView::Status)
    } else if rest == "restart"@ {
        with_method(method, Method::Post, RouteView::Restart)
    } else if rest == "interrupt"@ {
        with_method(method, Method::Post, RouteView::Interrupt)
    } else if rest == "await"@ {
        with_method(method, Method::Get, RouteView::Await)
    } else if "upload/"@.is_prefix_of(rest) && rest.len() > "upload/"@.len() {
        with_method(method, Method::Post, RouteView::Upload(rest.skip("upload/"@.len() as int)))
    } else {
        RouteView::NotFound
    }
}

/// Where a request goes: to the control plane if its path begins with the
/// reserved prefix, to the subprocess otherwise.
pub open spec fn route_of(method: Method, path: Seq<char>) -> RouteView {
    if reserved_prefix().is_prefix_of(path) {
        control_route(method, path.skip(reserved_prefix().len() as int))
    } else {
        RouteView::Proxy
    }
}

fn guarded(method: Method, accepted: Method, served: Route) -> (route: Route)
    ensures
        route@ == with_method(method, accepted, served@),
{
    if method == accepted {
        served
    } else {
        Route::MethodNotAllowed
    }
}

/// Finds the route of a request from its method and the path of its URL.
pub fn route(method: Method, path: &str) -> (route: Route)
    ensures
        route@ == route_of(method, path@),
{
    if !starts_with(path, "/_frag/") {
        return Route::Proxy;
    }
    let prefix_len = "/_frag/".unicode_len();
    let rest = skip_chars(path, prefix_len);
    if same_text(rest, "status") {
        guarded(method, Method::Get, Route::Status)
    } else if same_text(rest, "restart") {
        guarded(method, Method::Post, Route::Restart)
    } else if same_text(rest, "interrupt") {
        guarded(method, Method::Post, Route::Interrupt)
    } else if same_text(rest, "await") {
        guarded(method, Method::Get, Route::Await)
    } else {
        let upload_len = "upload/".unicode_len();
        if starts_with(rest, "upload/") && rest.unicode_len() > upload_len {
            let target = skip_chars(rest, upload_len).to_owned();
            guarded(method, Method::Post, Route::Upload(target))
        } else {
            Route::NotFound
        }
    }
}

/// A request is handed to the subprocess exactly when its path does not begin
/// with the reserved prefix; every path that does is answered by the control
/// plane.
pub proof fn lemma_reserved_prefix_never_proxied(method: Method, path: Seq<char>)
    ensures
        route_of(method, path) is Proxy <==> !reserved_prefix().is_prefix_of(path),
{
}

/// The answer of the status endpoint.
pub open spec fn status_reply(running: bool) -> ReplyView {
    if running {
        (OK, "Running."@)
    } else {
        (SERVICE_UNAVAILABLE, "Not running."@)
    }
}

/// Reports whether the subprocess is alive.
pub fn status(state: &ServerState) -> (reply: Reply)
    ensures
        (reply.0, reply.1@) == status_reply(state.wrapped_server@.running),
{
    if state.wrapped_server.running() {
        (OK, "Running.".to_owned())
    } else {
        (SERVICE_UNAVAILABLE, "Not running.".to_owned())
    }
}

/// What a control endpoint that sends a command decides: the refusal, or the
/// command to put on the supervisor's queue and the answer to give once it
/// is there.
pub open spec fn command_outcome(
    admitted: Result<(), ReplyView>,
    command: WrappedServerCommand,
    answer: Seq<char>,
) -> Result<(WrappedServerCommand, ReplyView), ReplyView> {
    match admitted {
        Ok(_) => Ok((command, (OK, answer))),
        Err(refusal) => Err(refusal),
    }
}

/// Whether `result` is the outcome that `expected` describes.
pub open spec fn outcome_is(
    result: Result<(WrappedServerCommand, Reply), Reply>,
    expected: Result<(WrappedServerCommand, ReplyView), ReplyView>,
) -> bool {
    match result {
        Ok((command, (status, body))) => expected == Ok::<(WrappedServerCommand, ReplyView), ReplyView>(
            (command, (status, body@)),
        ),
        Err((status, message)) => expected == Err::<(WrappedServerCommand, ReplyView), ReplyView>(
            (status, message@),
        ),
    }
}

/// The restart endpoint. A request that may change things has `Restart` put
/// on the queue and is told so; any other is refused and nothing is sent.
pub fn restart(state: &ServerState, parts: &RequestParts, user_data: Option<UserData>) -> (result:
    Result<(WrappedServerCommand, Reply), Reply>)
    ensures
        outcome_is(
            result,
            command_outcome(
                write_decision(header_bytes(parts.user_data), user_data),
                WrappedServerCommand::Restart,
                "Server restarting."@,
            ),
        ),
{
    match WriteUser::from_parts_sync(parts, user_data) {
        Ok(_) => Ok((state.wrapped_server.restart(), (OK, "Server restarting.".to_owned()))),
        Err(refusal) => Err(refusal),
    }
}

/// The interrupt endpoint. A request that may change things has `Interrupt`
/// put on the queue and is told so; any other is refused and nothing is sent.
pub fn interrupt(state: &ServerState, parts: &RequestParts, user_data: Option<UserData>) -> (result:
    Result<(WrappedServerCommand, Reply), Reply>)
    ensures
        outcome_is(
            result,
            command_outcome(
                write_decision(header_bytes(parts.user_data), user_data),
                WrappedServerCommand::Interrupt,
                "Server interrupted."@,
            ),
        ),
{
    match WriteUser::from_parts_sync(parts, user_data) {
        Ok(_) => Ok((state.wrapped_server.interrupt(), (OK, "Server interrupted.".to_owned()))),
        Err(refusal) => Err(refusal),
    }
}

/// The await endpoint: whether the caller has to wait for the next reload
/// notice before it is answered, and the answer. With a live subprocess
/// there is nothing to wait for.
pub fn wait_for_reload(state: &ServerState) -> (decision: (bool, Reply))
    ensures
        decision.0 == !state.wrapped_server@.running,
        decision.1.0 == OK,
        decision.1.1@ == "OK"@,
{
    (!state.wrapped_server.running(), (OK, "OK".to_owned()))
}

/// The switches in the query of an upload.
#[derive(Debug, Clone, Copy, PartialEq, Eq, Structural)]
pub struct UploadQuery {
    /// Kill the subprocess once the file is written.
    pub restart: bool,
    /// Interrupt the subprocess once the file is written.
    pub interrupt: bool,
}

/// The command that follows an upload: `restart` comes before `interrupt`,
/// and without either the supervisor hears of a change of state.
pub open spec fn upload_command(query: UploadQuery) -> WrappedServerCommand {
    if query.restart {
        WrappedServerCommand::Restart
    } else if query.interrupt {
        WrappedServerCommand::Interrupt
    } else {
        WrappedServerCommand::StateChange
    }
}

/// What the upload handler has just seen.
#[derive(Debug, Clone, PartialEq, Eq)]
pub enum UploadEvent {
    /// The request arrived.
    Start,
    /// Every ancestor directory of the target exists.
    DirectoryReady,
    /// Creating the directories failed, with the error's text.
    DirectoryFailed(String),
    /// The target file was created, empty.
    FileReady,
    /// Creating the file failed, with the error's text.
    FileFailed(String),
    /// The whole body was written to the file.
    BodyWritten,
    /// Writing a chunk failed, with the error's text; the file stays as far
    /// as it was written.
    WriteFailed(String),
    /// The command is on the supervisor's queue.
    Sent,
}

/// What the upload handler does next.
#[derive(Debug, Clone, PartialEq, Eq)]
pub enum UploadAction {
    /// Create every missing ancestor directory of this path; a path without
    /// a parent needs none. Answered by `DirectoryReady` or `DirectoryFailed`.
    CreateParentDirs(String),
    /// Create the file at this path, truncating one that exists. Answered by
    /// `FileReady` or `FileFailed`.
    CreateFile(String),
    /// Write the body to the file chunk by chunk. Answered by `BodyWritten` or
    /// `WriteFailed`.
    WriteBody,
    /// Put this command on the supervisor's queue. Answered by `Sent`.
    Send(WrappedServerCommand),
    /// Answer the request with this status and body.
    Reply(u16, String),
}

/// An `UploadAction` as the contracts see it.
pub enum UploadActionView {
    CreateParentDirs(Seq<char>),
    CreateFile(Seq<char>),
    WriteBody,
    Send(WrappedServerCommand),
    Reply(u16, Seq<char>),
}

impl View for UploadAction {
    type V = UploadActionView;

    open spec fn view(&self) -> UploadActionView {
        match *self {
            UploadAction::CreateParentDirs(path) => UploadActionView::CreateParentDirs(path@),
            UploadAction::CreateFile(path) => UploadActionView::CreateFile(path@),
            UploadAction::WriteBody => UploadActionView::WriteBody,
            UploadAction::Send(command) => UploadActionView::Send(command),
            UploadAction::Reply(status, body) => UploadActionView::Reply(status, body@),
        }
    }
}

/// The next step of an upload that was admitted.
pub open spec fn upload_step(query: UploadQuery, filename: Seq<char>, event: UploadEvent) -> UploadActionView {
    match event {
        UploadEvent::Start => UploadActionView::CreateParentDirs(filename),
        UploadEvent::DirectoryReady => UploadActionView::CreateFile(filename),
        UploadEvent::DirectoryFailed(error) => UploadActionView::Reply(
            INTERNAL_SERVER_ERROR,
            "Failed to create directory: "@ + error@,
        ),
        UploadEvent::FileReady => UploadActionView::WriteBody,
        UploadEvent::FileFailed(error) => UploadActionView::Reply(
            INTERNAL_SERVER_ERROR,
            "Failed to create file: "@ + error@,
        ),
        UploadEvent::BodyWritten => UploadActionView::Send(upload_command(query)),
        UploadEvent::WriteFailed(error) => UploadActionView::Reply(
            INTERNAL_SERVER_ERROR,
            "Failed to write file: "@ + error@,
        ),
        UploadEvent::Sent => UploadActionView::Reply(OK, "File uploaded successfully to "@ + filename),
    }
}

/// What the upload endpoint does next: a request that may not change things
/// is answered with its refusal, whatever has happened; one that may goes
/// through the steps of the upload.
pub open spec fn upload_decision(
    admitted: Result<(), ReplyView>,
    query: UploadQuery,
    filename: Seq<char>,
    event: UploadEvent,
) -> UploadActionView {
    match admitted {
        Ok(_) => upload_step(query, filename, event),
        Err((status, message)) => UploadActionView::Reply(status, message),
    }
}

/// The upload endpoint, one step at a time: creates the directories above
/// `filename`, creates the file, writes the body, tells the supervisor, and
/// answers. `filename` is taken as it stands in the URL.
pub fn upload(
    state: &ServerState,
    query: UploadQuery,
    filename: &str,
    parts: &RequestParts,
    user_data: Option<UserData>,
    event: UploadEvent,
) -> (action: UploadAction)
    ensures
        action@ == upload_decision(
            write_decision(header_bytes(parts.user_data), user_data),
            query,
            filename@,
            event,
        ),
{
    match WriteUser::from_parts_sync(parts, user_data) {
        Err((status, message)) => UploadAction::Reply(status, message),
        Ok(_) => match event {
            UploadEvent::Start => UploadAction::CreateParentDirs(filename.to_owned()),
            UploadEvent::DirectoryReady => UploadAction::CreateFile(filename.to_owned()),
            UploadEvent::DirectoryFailed(error) => UploadAction::Reply(
                INTERNAL_SERVER_ERROR,
                "Failed to create directory: ".to_owned().concat(error.as_str()),
            ),
            UploadEvent::FileReady => UploadAction::WriteBody,
            UploadEvent::FileFailed(error) => UploadAction::Reply(
                INTERNAL_SERVER_ERROR,
                "Failed to create file: ".to_owned().concat(error.as_str()),
            ),
            UploadEvent::BodyWritten => {
                let command = if query.restart {
                    state.wrapped_server.restart()
                } else if query.interrupt {
                    state.wrapped_server.interrupt()
                } else {
                    state.wrapped_server.state_change()
                };
                UploadAction::Send(command)
            },
            UploadEvent::WriteFailed(error) => UploadAction::Reply(
                INTERNAL_SERVER_ERROR,
                "Failed to write file: ".to_owned().concat(error.as_str()),
            ),
            UploadEvent::Sent => UploadAction::Reply(
                OK,
                "File uploaded successfully to ".to_owned().concat(filename),
            ),
        },
    }
}

/// A request is admitted to an endpoint that changes things exactly when its
/// user-data header is present, is UTF-8, holds user data, and does not say
/// `read_only: true`.
pub proof fn lemma_write_needs_valid_user_data(header: Option<Seq<u8>>, user_data: Option<UserData>)
    ensures
        write_decision(header, user_data) is Ok <==> {
            &&& header matches Some(bytes)
            &&& valid_utf8(bytes)
            &&& user_data matches Some(data)
            &&& data.read_only != Some(true)
        },
{
}

/// A request that is not admitted gets nothing done by the endpoints that
/// change things: `restart` and `interrupt` send no command, and `upload`
/// touches no file and sends no command, at any step.
pub proof fn lemma_refused_requests_change_nothing(
    header: Option<Seq<u8>>,
    user_data: Option<UserData>,
    command: WrappedServerCommand,
    answer: Seq<char>,
    query: UploadQuery,
    filename: Seq<char>,
    event: UploadEvent,
)
    requires
        write_decision(header, user_data) is Err,
    ensures
        command_outcome(write_decision(header, user_data), command, answer) is Err,
        upload_decision(write_decision(header, user_data), query, filename, event) is Reply,
        upload_decision(write_decision(header, user_data), query, filename, event)
            == UploadActionView::Reply(
            write_decision(header, user_data)->Err_0.0,
            write_decision(header, user_data)->Err_0.1,
        ),
{
}

/// Restart, then await, while no child is alive: the command starts a
/// child; until it is started the await endpoint makes its caller wait; the
/// start raises the running flag and sends the reload notice that ends the
/// wait; from then on the await endpoint answers at once.
pub proof fn lemma_restart_then_await(state: ServerView, child_id: Option<u32>)
    requires
        state.inv(),
        state.phase is Waiting,
    ensures
        ({
            let (spawning, first) = state.on_command(WrappedServerCommand::Restart, child_id);
            let (started, second) = spawning.on_spawned();
            &&& first is Spawn
            &&& !spawning.running
            &&& second is Reload
            &&& started.running
            &&& started.inv()
        }),
{
}

/// Restart while a child is alive: the child is killed and nothing else
/// changes, so the await endpoint still answers at once; when the exit is
/// seen the flag goes down and the loop waits for a further command before a
/// child is started again.
pub proof fn lemma_restart_of_live_child(state: ServerView, child_id: Option<u32>, code: Option<i32>)
    requires
        state.inv(),
        state.phase is Running,
    ensures
        ({
            let (killed, first) = state.on_command(WrappedServerCommand::Restart, child_id);
            let (waiting, second) = killed.on_exited(code);
            &&& first is Kill
            &&& killed == state
            &&& killed.running
            &&& second is Continue
            &&& waiting.phase is Waiting
            &&& !waiting.running
        }),
{
}

} // verus!
