//! The file server's decisions: where a request path leads, what is sent
//! back, and when the server stops. Listening, looking files up and sending
//! are left to the caller, which reports each outcome as an event.

use vstd::prelude::*;

verus! {

/// Status of a reply that carries a file.
pub const STATUS_OK: u16 = 200;

/// Status of the reply for a file that does not exist.
pub const STATUS_NOT_FOUND: u16 = 404;

/// Body of the reply for a file that does not exist.
pub const NOT_FOUND_BODY: &'static str = "404 Not Found";

/// The file that the request path `/` stands for.
pub const INDEX_PAGE: &'static str = "index.html";

/// The part of a request path that names a file under the output directory:
/// `index.html` for `/`, otherwise the path without its one leading slash.
pub open spec fn target_of(url: Seq<char>) -> Seq<char> {
    if url == "/"@ {
        INDEX_PAGE@
    } else if url.len() > 0 && url[0] == '/' {
        url.skip(1)
    } else {
        url
    }
}

/// The file that a request path stands for: `<out_dir>/<target>`. The target
/// is appended as it is: `..` segments and query strings are not touched.
pub open spec fn request_path_of(out_dir: Seq<char>, url: Seq<char>) -> Seq<char> {
    out_dir + "/"@ + target_of(url)
}

/// The greatest port number.
pub const MAX_PORT: u32 = 65535;

/// `c` is one of the decimal digits `0` to `9`.
pub open spec fn is_digit(c: char) -> bool {
    '0' as u32 <= c as u32 <= '9' as u32
}

/// The value of a decimal digit; 0 for any other character.
pub open spec fn digit_value(c: char) -> nat {
    if is_digit(c) {
        (c as u32 - '0' as u32) as nat
    } else {
        0
    }
}

/// The number that a string of decimal digits writes.
pub open spec fn decimal_value(digits: Seq<char>) -> nat
    decreases digits.len(),
{
    if digits.len() == 0 {
        0
    } else {
        decimal_value(digits.drop_last()) * 10 + digit_value(digits.last())
    }
}

/// `port` writes a port number: one or more decimal digits, and nothing
/// else, whose value is at most 65535. Leading zeros are allowed.
pub open spec fn is_port(port: Seq<char>) -> bool {
    &&& port.len() > 0
    &&& forall|i: int| 0 <= i < port.len() ==> is_digit(#[trigger] port[i])
    &&& decimal_value(port) <= MAX_PORT
}

/// The address the server listens on: the loopback interface and `port`.
pub open spec fn bind_address_of(port: Seq<char>) -> Seq<char> {
    "127.0.0.1:"@ + port
}

/// Maps a request path to the file it stands for.
pub fn request_path(out_dir: &str, url: &str) -> (path: String)
    ensures
        path@ == request_path_of(out_dir@, url@),
{
    proof {
        reveal_strlit("/");
    }
    let len = url.unicode_len();
    let mut path = String::from_str(out_dir);
    path.append("/");
    if len > 0 && url.get_char(0) == '/' {
        if len == 1 {
            assert(url@ =~= "/"@);
            path.append(INDEX_PAGE);
        } else {
            path.append(url.substring_char(1, len));
        }
    } else {
        path.append(url);
    }
    path
}

/// A string of digits is worth at least as much as any of its beginnings.
pub proof fn lemma_decimal_value_grows(digits: Seq<char>, k: int)
    requires
        0 <= k <= digits.len(),
    ensures
        decimal_value(digits.take(k)) <= decimal_value(digits),
    decreases digits.len() - k,
{
    if k < digits.len() {
        let longer = digits.take(k + 1);
        assert(longer.drop_last() =~= digits.take(k));
        lemma_decimal_value_grows(digits, k + 1);
    } else {
        assert(digits.take(k) =~= digits);
    }
}

/// Whether `port` writes a port number, as [`is_port`] defines it.
pub fn is_valid_port(port: &str) -> (ok: bool)
    ensures
        ok == is_port(port@),
{
    let len = port.unicode_len();
    if len == 0 {
        return false;
    }
    let mut value: u32 = 0;
    let mut i: usize = 0;
    while i < len
        invariant
            i <= len,
            len == port@.len(),
            forall|j: int| 0 <= j < i ==> is_digit(#[trigger] port@[j]),
            value == decimal_value(port@.take(i as int)),
            value <= MAX_PORT,
        decreases len - i,
    {
        let code = port.get_char(i) as u32;
        if code < '0' as u32 || code > '9' as u32 {
            assert(!is_digit(port@[i as int]));
            return false;
        }
        assert(port@.take(i + 1).drop_last() =~= port@.take(i as int));
        value = value * 10 + (code - '0' as u32);
        if value > MAX_PORT {
            proof {
                lemma_decimal_value_grows(port@, i + 1);
            }
            return false;
        }
        i += 1;
    }
    assert(port@.take(len as int) =~= port@);
    true
}

/// Builds the address to listen on for `port`.
pub fn bind_address(port: &str) -> (address: String)
    ensures
        address@ == bind_address_of(port@),
{
    let mut address = String::from_str("127.0.0.1:");
    address.append(port);
    address
}

/// Where the server stands between two outside operations.
#[derive(Debug, Clone, PartialEq, Eq)]
pub enum ServerState {
    /// The listener is being bound.
    Binding,
    /// No request is in progress; the next one is awaited.
    Waiting,
    /// A request is in progress and the file at `path` is being looked up.
    Checking { path: String },
    /// The reply to the request in progress is being sent.
    Replying,
    /// The server has stopped, after a failure or not.
    Stopped { failed: bool },
}

/// What the caller reports after carrying out a [`ServerAction`].
#[derive(Debug, Clone, PartialEq, Eq)]
pub enum ServerEvent {
    /// The listener is bound.
    Bound,
    /// A request arrived, with this path. Method and headers play no part.
    Request { url: String },
    /// The looked-up file exists, or not.
    Exists(bool),
    /// The reply was sent.
    Replied,
    /// Binding, opening the file or sending the reply failed.
    Failed,
    /// The listener was closed: no further request will arrive.
    Closed,
}

/// What the caller is to do next.
#[derive(Debug, Clone, PartialEq, Eq)]
pub enum ServerAction {
    /// Bind the listener to `address`.
    Bind { address: String },
    /// Wait for the next request.
    Accept,
    /// Find out whether the file at `path` exists.
    Check { path: String },
    /// Reply with `status` and the raw bytes of the file at `path`.
    SendFile { status: u16, path: String },
    /// Reply with `status` and `body` as text.
    SendText { status: u16, body: String },
    /// Stop serving.
    Stop { failed: bool },
}

/// `next` and `action` are the server's answer to `event` in `state`.
///
/// A request is looked up at the file its path stands for; a file that
/// exists is sent with status 200, a missing one is answered with status 404
/// and the body `404 Not Found`. Requests are taken one at a time. A failure
/// stops the server, and so does an event that does not answer the pending
/// action. A stopped server stays stopped.
pub open spec fn server_step_spec(
    out_dir: Seq<char>,
    state: ServerState,
    event: ServerEvent,
    next: ServerState,
    action: ServerAction,
) -> bool {
    match (state, event) {
        (ServerState::Binding, ServerEvent::Bound) => {
            &&& next == ServerState::Waiting
            &&& action == ServerAction::Accept
        },
        (ServerState::Waiting, ServerEvent::Request { url }) => {
            &&& next matches ServerState::Checking { path }
            &&& path@ == request_path_of(out_dir, url@)
            &&& action matches ServerAction::Check { path: checked }
            &&& checked@ == request_path_of(out_dir, url@)
        },
        (ServerState::Waiting, ServerEvent::Closed) => {
            &&& next == ServerState::Stopped { failed: false }
            &&& action == ServerAction::Stop { failed: false }
        },
        (ServerState::Checking { path }, ServerEvent::Exists(true)) => {
            &&& next == ServerState::Replying
            &&& action matches ServerAction::SendFile { status, path: sent }
            &&& status == STATUS_OK
            &&& sent@ == path@
        },
        (ServerState::Checking { path }, ServerEvent::Exists(false)) => {
            &&& next == ServerState::Replying
            &&& action matches ServerAction::SendText { status, body }
            &&& status == STATUS_NOT_FOUND
            &&& body@ == NOT_FOUND_BODY@
        },
        (ServerState::Replying, ServerEvent::Replied) => {
            &&& next == ServerState::Waiting
            &&& action == ServerAction::Accept
        },
        (ServerState::Stopped { failed }, _) => {
            &&& next == ServerState::Stopped { failed }
            &&& action == ServerAction::Stop { failed }
        },
        _ => {
            &&& next == ServerState::Stopped { failed: true }
            &&& action == ServerAction::Stop { failed: true }
        },
    }
}

/// The state a server starts in, and the action that binds it to `port` on
/// the loopback interface. The port has to be a port number; whether it is
/// one, [`is_valid_port`] tells.
pub fn server_start(port: &str) -> (start: (ServerState, ServerAction))
    requires
        is_port(port@),
    ensures
        start.0 == ServerState::Binding,
        start.1 matches ServerAction::Bind { address } && address@ == bind_address_of(port@),
{
    (ServerState::Binding, ServerAction::Bind { address: bind_address(port) })
}

/// Answers `event` in `state`: the next state and the next action, as
/// [`server_step_spec`] relates them.
pub fn server_step(out_dir: &str, state: ServerState, event: ServerEvent) -> (step: (
    ServerState,
    ServerAction,
))
    ensures
        server_step_spec(out_dir@, state, event, step.0, step.1),
{
    match (state, event) {
        (ServerState::Binding, ServerEvent::Bound) => (ServerState::Waiting, ServerAction::Accept),
        (ServerState::Waiting, ServerEvent::Request { url }) => {
            let path = request_path(out_dir, url.as_str());
            let checked = path.clone();
            (ServerState::Checking { path }, ServerAction::Check { path: checked })
        },
        (ServerState::Waiting, ServerEvent::Closed) => (
            ServerState::Stopped { failed: false },
            ServerAction::Stop { failed: false },
        ),
        (ServerState::Checking { path }, ServerEvent::Exists(true)) => (
            ServerState::Replying,
            ServerAction::SendFile { status: STATUS_OK, path },
        ),
        (ServerState::Checking { path }, ServerEvent::Exists(false)) => (
            ServerState::Replying,
            ServerAction::SendText {
                status: STATUS_NOT_FOUND,
                body: String::from_str(NOT_FOUND_BODY),
            },
        ),
        (ServerState::Replying, ServerEvent::Replied) => (
            ServerState::Waiting,
            ServerAction::Accept,
        ),
        (ServerState::Stopped { failed }, _) => (
            ServerState::Stopped { failed },
            ServerAction::Stop { failed },
        ),
        _ => (ServerState::Stopped { failed: true }, ServerAction::Stop { failed: true }),
    }
}

/// The request path `/` leads to `<out_dir>/index.html`.
pub proof fn lemma_root_is_index(out_dir: Seq<char>)
    ensures
        request_path_of(out_dir, "/"@) == out_dir + "/index.html"@,
{
    reveal_strlit("/");
    reveal_strlit("index.html");
    reveal_strlit("/index.html");
    assert(out_dir + "/"@ + "index.html"@ =~= out_dir + "/index.html"@);
}

/// The request path `/<name>` leads to `<out_dir>/<name>`, for any
/// non-empty name, whatever it holds.
pub proof fn lemma_named_file(out_dir: Seq<char>, name: Seq<char>)
    requires
        name.len() > 0,
    ensures
        request_path_of(out_dir, "/"@ + name) == out_dir + "/"@ + name,
{
    reveal_strlit("/");
    let url = "/"@ + name;
    assert(url.len() != "/"@.len());
    assert(url.skip(1) =~= name);
}

/// A request is answered in two steps. If the file its path stands for
/// exists, that file is sent with status 200; if not, the reply has status
/// 404 and the body `404 Not Found`. No other status is ever sent.
pub proof fn lemma_request_is_answered(
    out_dir: Seq<char>,
    url: String,
    exists: bool,
    checking: ServerState,
    check: ServerAction,
    replying: ServerState,
    reply: ServerAction,
)
    requires
        server_step_spec(
            out_dir,
            ServerState::Waiting,
            ServerEvent::Request { url },
            checking,
            check,
        ),
        server_step_spec(out_dir, checking, ServerEvent::Exists(exists), replying, reply),
    ensures
        check matches ServerAction::Check { path } && path@ == request_path_of(out_dir, url@),
        replying == ServerState::Replying,
        exists ==> (reply matches ServerAction::SendFile { status, path } && status == 200
            && path@ == request_path_of(out_dir, url@)),
        !exists ==> (reply matches ServerAction::SendText { status, body } && status == 404
            && body@ == "404 Not Found"@),
{
}

} // verus!
