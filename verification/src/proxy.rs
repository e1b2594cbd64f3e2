//! The data plane: requests that do not belong to the control plane go to the
//! subprocess, or get a page that says why they cannot.

use crate::auth::{header_text, verified_path_text, VerifiedPath};
use crate::control::ServerState;
use crate::status::{BAD_GATEWAY, GATEWAY_TIMEOUT, SERVICE_UNAVAILABLE};
use crate::text::{decimal, decimal_string, join_lines};
use vstd::prelude::*;
use vstd::string::*;

verus! {

/// The page shown while the subprocess cannot answer: the newest output of
/// the subprocess, and a script that waits at `await_url` and then reloads.
pub const ERROR_TEMPLATE: &'static str = "<!DOCTYPE html>
<html>
<head>
<meta charset='utf-8'>
<title>Server not running</title>
<style>
body { font-family: sans-serif; margin: 2em; }
pre { background: #f4f4f4; padding: 1em; overflow: auto; }
</style>
</head>
<body>
<h1>The server is not running</h1>
<p>This page reloads as soon as the server is back.</p>
<pre>{{stdout}}</pre>
<script>
fetch('{{await_url}}').then(function () { window.location.reload(); });
</script>
</body>
</html>
";

/// The three parts of a request's URI that forwarding looks at.
#[derive(Debug, Clone, PartialEq, Eq)]
pub struct UriParts {
    pub scheme: Option<String>,
    pub authority: Option<String>,
    pub path_and_query: Option<String>,
}

/// `UriParts` as the contracts see them.
pub struct UriPartsView {
    pub scheme: Option<Seq<char>>,
    pub authority: Option<Seq<char>>,
    pub path_and_query: Option<Seq<char>>,
}

impl View for UriParts {
    type V = UriPartsView;

    open spec fn view(&self) -> UriPartsView {
        UriPartsView {
            scheme: self.scheme.deep_view(),
            authority: self.authority.deep_view(),
            path_and_query: self.path_and_query.deep_view(),
        }
    }
}

/// The URI under which the subprocess sees a request: plain HTTP to the
/// loopback address at `port`, with the path and query as they came.
pub open spec fn translated(uri: UriPartsView, port: u16) -> UriPartsView {
    UriPartsView {
        scheme: Some("http"@),
        authority: Some("127.0.0.1:"@ + decimal(port as nat)),
        path_and_query: uri.path_and_query,
    }
}

/// Points a request's URI at the subprocess. Method, headers and body are
/// not the library's to touch: they stay as they are.
pub fn translate_request(uri: UriParts, port: u16) -> (upstream: UriParts)
    ensures
        upstream@ == translated(uri@, port),
{
    let digits = decimal_string(port as u64);
    UriParts {
        scheme: Some("http".to_owned()),
        authority: Some("127.0.0.1:".to_owned().concat(digits.as_str())),
        path_and_query: uri.path_and_query,
    }
}

/// The address at which the error page waits for the subprocess: the outer
/// base path with `_frag/await` written after it, as it stands.
pub open spec fn await_url(path: Seq<char>) -> Seq<char> {
    path + "_frag/await"@
}

/// Without a usable path header the error page waits at `/_frag/await`.
pub proof fn lemma_default_await_url(header: Option<Seq<u8>>)
    requires
        header_text(header) is None,
    ensures
        verified_path_text(header) == "/"@,
        await_url(verified_path_text(header)) == "/_frag/await"@,
{
    reveal_strlit("/");
    reveal_strlit("_frag/await");
    reveal_strlit("/_frag/await");
}

/// The values that the error page is rendered with.
pub open spec fn error_data(stdout: Seq<Seq<char>>, path: Seq<char>) -> Seq<(Seq<char>, Seq<char>)> {
    seq![("stdout"@, join_lines(stdout)), ("await_url"@, await_url(path))]
}

/// What the template engine makes of `template` when each name in `data` is
/// bound to the text beside it; `None` where it reports an error.
pub uninterp spec fn rendered_template(template: Seq<char>, data: Seq<(Seq<char>, Seq<char>)>) -> Option<
    Seq<char>,
>;

/// `handlebars::Handlebars::render_template` on a registry as
/// `Handlebars::new()` makes it, with a JSON object that maps each name to a
/// string. The contract names the result and claims nothing of the page.
#[verifier::external_body]
fn render_template(template: &str, data: &Vec<(String, String)>) -> (page: Option<String>)
    ensures
        page.deep_view() == rendered_template(template@, data.deep_view()),
{
    let object: serde_json::Map<String, serde_json::Value> =
        data.iter().map(|(name, text)| (name.clone(), serde_json::Value::String(text.clone()))).collect();
    handlebars::Handlebars::new().render_template(template, &serde_json::Value::Object(object)).ok()
}

/// What the proxy handler has just seen.
#[derive(Debug, Clone, Copy, PartialEq, Eq, Structural)]
pub enum ProxyEvent {
    /// The request arrived.
    Start,
    /// The subprocess, or the forwarding on the way to it, answered with this
    /// status; `upgrade` says whether the answer came with a connection to
    /// keep open, as a WebSocket handshake does.
    Upstream { status: u16, upgrade: bool },
}

/// What the proxy handler does next.
#[derive(Debug, Clone, PartialEq, Eq)]
pub enum ProxyAction {
    /// Send the request to this URI; answered by `Upstream`.
    Forward(UriParts),
    /// Answer with what came from upstream. With `upgrade`, first set the
    /// upgraded connection running on its own.
    Relay { upgrade: bool },
    /// Answer with this status and body.
    Reply(u16, String),
    /// The error page could not be rendered; there is nothing to answer with.
    RenderFailed,
}

/// A `ProxyAction` as the contracts see it.
pub enum ProxyActionView {
    Forward(UriPartsView),
    Relay { upgrade: bool },
    Reply(u16, Seq<char>),
    RenderFailed,
}

impl View for ProxyAction {
    type V = ProxyActionView;

    open spec fn view(&self) -> ProxyActionView {
        match *self {
            ProxyAction::Forward(uri) => ProxyActionView::Forward(uri@),
            ProxyAction::Relay { upgrade } => ProxyActionView::Relay { upgrade },
            ProxyAction::Reply(status, body) => ProxyActionView::Reply(status, body@),
            ProxyAction::RenderFailed => ProxyActionView::RenderFailed,
        }
    }
}

/// The answer that carries the error page, if there is a page.
pub open spec fn error_reply(page: Option<Seq<char>>) -> ProxyActionView {
    match page {
        Some(body) => ProxyActionView::Reply(SERVICE_UNAVAILABLE, body),
        None => ProxyActionView::RenderFailed,
    }
}

/// Whether an upstream status means that the subprocess could not be
/// reached in time, or at all.
pub open spec fn upstream_unavailable(status: u16) -> bool {
    status == BAD_GATEWAY || status == GATEWAY_TIMEOUT
}

/// What the proxy handler does next, given the error page as the template
/// engine renders it for the moment.
pub open spec fn proxy_decision(
    running: bool,
    page: Option<Seq<char>>,
    uri: UriPartsView,
    port: u16,
    event: ProxyEvent,
) -> ProxyActionView {
    match event {
        ProxyEvent::Start => if running {
            ProxyActionView::Forward(translated(uri, port))
        } else {
            error_reply(page)
        },
        ProxyEvent::Upstream { status, upgrade } => if upstream_unavailable(status) {
            error_reply(page)
        } else {
            ProxyActionView::Relay { upgrade }
        },
    }
}

/// Wraps a rendered page into the answer that carries it.
pub fn error_response(page: Option<String>) -> (action: ProxyAction)
    ensures
        action@ == error_reply(page.deep_view()),
{
    match page {
        Some(body) => ProxyAction::Reply(SERVICE_UNAVAILABLE, body),
        None => ProxyAction::RenderFailed,
    }
}

/// Renders the error page for a request that came in under `path`.
pub fn render_error(state: &ServerState, path: String) -> (action: ProxyAction)
    ensures
        action@ == error_reply(
            rendered_template(ERROR_TEMPLATE@, error_data(state.wrapped_server@.stdout, path@)),
        ),
{
    let stdout = state.wrapped_server.stdout();
    let url = path.concat("_frag/await");
    let mut data: Vec<(String, String)> = Vec::new();
    data.push(("stdout".to_owned(), stdout));
    data.push(("await_url".to_owned(), url));
    assert(data.deep_view() =~= error_data(state.wrapped_server@.stdout, path@));
    error_response(render_template(ERROR_TEMPLATE, &data))
}

/// The handler of every request outside the control plane, one step at a
/// time. While no child is alive the request gets the error page. Otherwise
/// it is forwarded; an answer of 502 or 504 is replaced by the error page,
/// any other is passed on.
pub fn proxy_request(state: &ServerState, path: &VerifiedPath, uri: UriParts, event: ProxyEvent) -> (action:
    ProxyAction)
    ensures
        action@ == proxy_decision(
            state.wrapped_server@.running,
            rendered_template(ERROR_TEMPLATE@, error_data(state.wrapped_server@.stdout, path.0@)),
            uri@,
            state.subprocess_port,
            event,
        ),
{
    match event {
        ProxyEvent::Start => {
            if !state.wrapped_server.running() {
                return render_error(state, path.0.clone());
            }
            ProxyAction::Forward(translate_request(uri, state.subprocess_port))
        },
        ProxyEvent::Upstream { status, upgrade } => {
            if status == GATEWAY_TIMEOUT || status == BAD_GATEWAY {
                return render_error(state, path.0.clone());
            }
            ProxyAction::Relay { upgrade }
        },
    }
}

} // verus!
