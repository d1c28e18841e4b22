//! The listener of the code-mode host: how it announces itself, and which requests it lets
//! through.

use crate::text::{concat3, push_text};
use vstd::prelude::*;

verus! {

/// A way in which the host listens.
#[derive(Debug, Clone, Copy, PartialEq, Eq, Structural)]
pub enum Listener {
    /// The listener for gRPC.
    Grpc,
    /// The listener that answers to the probe of earlier source updates.
    LegacyProbe,
}

impl Listener {
    /// The scheme under which the listener announces its address.
    pub open spec fn scheme_text(self) -> Seq<char> {
        match self {
            Listener::Grpc => "http"@,
            Listener::LegacyProbe => "ws"@,
        }
    }

    /// The path under which the listener tells that it is ready.
    pub open spec fn health_text(self) -> Seq<char> {
        match self {
            Listener::Grpc => "/healthz"@,
            Listener::LegacyProbe => "/readyz"@,
        }
    }

    /// What comes before the address in the announcement of the listener.
    pub open spec fn prefix_text(self) -> Seq<char> {
        match self {
            Listener::Grpc => "http://"@,
            Listener::LegacyProbe => "ws://"@,
        }
    }

    /// The scheme under which the listener announces its address.
    pub fn endpoint_scheme(self) -> (r: &'static str)
        ensures
            r@ == self.scheme_text(),
    {
        match self {
            Listener::Grpc => "http",
            Listener::LegacyProbe => "ws",
        }
    }

    /// The path under which the listener tells that it is ready.
    pub fn health_path(self) -> (r: &'static str)
        ensures
            r@ == self.health_text(),
    {
        match self {
            Listener::Grpc => "/healthz",
            Listener::LegacyProbe => "/readyz",
        }
    }

    /// What comes before the address in the announcement of the listener.
    pub fn prefix(self) -> (r: &'static str)
        ensures
            r@ == self.prefix_text(),
    {
        match self {
            Listener::Grpc => "http://",
            Listener::LegacyProbe => "ws://",
        }
    }

    /// The line with which the listener announces that it listens at `address`.
    pub fn announcement(self, address: &str) -> (r: String)
        ensures
            r@ == announced(self, address@),
    {
        concat3(self.endpoint_scheme(), "://", address)
    }
}

/// The line with which a listener announces that it listens at `address`.
pub open spec fn announced(listener: Listener, address: Seq<char>) -> Seq<char> {
    listener.scheme_text() + "://"@ + address
}

/// An announcement is the prefix of the listener and the address.
pub proof fn lemma_announced(listener: Listener, address: Seq<char>)
    ensures
        announced(listener, address) == listener.prefix_text() + address,
{
    reveal_strlit("http");
    reveal_strlit("ws");
    reveal_strlit("://");
    reveal_strlit("http://");
    reveal_strlit("ws://");
    assert("http"@ + "://"@ == "http://"@);
    assert("ws"@ + "://"@ == "ws://"@);
}

/// What the listener looks at in a request.
#[derive(Debug, PartialEq, Eq)]
pub struct RequestHead {
    /// Whether it comes over HTTP/2.
    pub http2: bool,
    pub method: String,
    pub path: String,
}

/// What the listener looks at in a request, as a value of mathematics.
#[verifier::ext_equal]
pub struct RequestHeadView {
    pub http2: bool,
    pub method: Seq<char>,
    pub path: Seq<char>,
}

impl View for RequestHead {
    type V = RequestHeadView;

    open spec fn view(&self) -> RequestHeadView {
        RequestHeadView { http2: self.http2, method: self.method@, path: self.path@ }
    }
}

/// The status "HTTP version not supported".
pub const HTTP_VERSION_NOT_SUPPORTED: u16 = 505;

/// Whether a listener lets a request through to its routes: every one over HTTP/2, and of others
/// only the question whether it is ready.
pub open spec fn admitted(listener: Listener, request: RequestHeadView) -> bool {
    request.http2 || (request.method == "GET"@ && request.path == listener.health_text())
}

/// The status with which a listener refuses a request; nothing for one that it lets through.
pub fn refusal(listener: Listener, request: &RequestHead) -> (r: Option<u16>)
    ensures
        r == (if admitted(listener, request@) {
            None::<u16>
        } else {
            Some(HTTP_VERSION_NOT_SUPPORTED)
        }),
{
    if request.http2 {
        return None;
    }
    if request.method == "GET".to_owned() && request.path == listener.health_path().to_owned() {
        None
    } else {
        Some(HTTP_VERSION_NOT_SUPPORTED)
    }
}

/// The question whether a listener is ready.
pub open spec fn readiness_question(listener: Listener) -> RequestHeadView {
    RequestHeadView { http2: false, method: "GET"@, path: listener.health_text() }
}

/// Over HTTP/1 a listener lets through the question whether it is ready, and nothing else.
pub proof fn only_readiness_questions_over_http1(listener: Listener, request: RequestHeadView)
    requires
        !request.http2,
    ensures
        admitted(listener, request) <==> request == readiness_question(listener),
{
    if admitted(listener, request) {
        assert(request =~= readiness_question(listener));
    }
}

/// The text of a request without a body over HTTP/1.1, after which the connection is closed.
pub open spec fn request_text(request: RequestHeadView, address: Seq<char>) -> Seq<char> {
    request.method + " "@ + request.path + " HTTP/1.1\r\nHost: "@ + address
        + "\r\nConnection: close\r\n\r\n"@
}

/// The text of the question, put to the address of a listener, whether it is ready.
pub fn readiness_request(listener: Listener, address: &str) -> (r: String)
    ensures
        r@ == request_text(readiness_question(listener), address@),
{
    let mut r = "GET".to_owned();
    push_text(&mut r, " ");
    push_text(&mut r, listener.health_path());
    push_text(&mut r, " HTTP/1.1\r\nHost: ");
    push_text(&mut r, address);
    push_text(&mut r, "\r\nConnection: close\r\n\r\n");
    r
}

/// The gRPC listener announces itself as `http://` and its address and tells that it is ready under
/// `/healthz`; the listener for earlier probes announces `ws://` and answers under `/readyz`.
pub proof fn listeners_differ_in_scheme_and_path(address: Seq<char>)
    ensures
        announced(Listener::Grpc, address) == "http://"@ + address,
        announced(Listener::LegacyProbe, address) == "ws://"@ + address,
        Listener::Grpc.scheme_text() == "http"@,
        Listener::LegacyProbe.scheme_text() == "ws"@,
        Listener::Grpc.prefix_text() == "http://"@,
        Listener::LegacyProbe.prefix_text() == "ws://"@,
        Listener::Grpc.health_text() == "/healthz"@,
        Listener::LegacyProbe.health_text() == "/readyz"@,
{
    lemma_announced(Listener::Grpc, address);
    lemma_announced(Listener::LegacyProbe, address);
}

/// Whatever comes over HTTP/2 is let through. Over HTTP/1 only a GET of the path under which the
/// listener tells that it is ready is; the path of the other listener, or another method, is
/// refused.
pub proof fn requests_are_admitted_by_version_method_and_path(request: RequestHeadView)
    ensures
        request.http2 ==> admitted(Listener::Grpc, request) && admitted(
            Listener::LegacyProbe,
            request,
        ),
        !request.http2 ==> (admitted(Listener::Grpc, request) <==> request.method == "GET"@
            && request.path == "/healthz"@),
        !request.http2 ==> (admitted(Listener::LegacyProbe, request) <==> request.method
            == "GET"@ && request.path == "/readyz"@),
        HTTP_VERSION_NOT_SUPPORTED == 505,
{
}

} // verus!
