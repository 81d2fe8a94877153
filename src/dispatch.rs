use vstd::prelude::*;
use crate::call::{CallError, MethodCall};
use crate::introspect::{introspection_xml, introspection_document};
use crate::methods::{Method, method_of};
use crate::notify::{
    RenderRequest, RendererSettings, decode_notify, notify_args_error, notify_args_ok,
    render_request, renders_call, NOTIFICATION_ID,
};

verus! {

/// Name under which the service identifies itself.
pub const SERVER_NAME: &'static str = "notrs";

/// Author of the service.
pub const SERVER_VENDOR: &'static str = "vaelio <archelio@protonmail.com>";

/// Version of the service.
pub const SERVER_VERSION: &'static str = "0.1.0";

/// Version of the notification protocol that the service follows.
pub const SPEC_VERSION: &'static str = "1.2";

/// Capability tag: the service supports actions.
pub const CAP_ACTIONS: &'static str = "actions";

/// Capability tag: the service shows a body.
pub const CAP_BODY: &'static str = "body";

/// The identity returned by `GetServerInformation`.
#[derive(Clone, Debug)]
pub struct ServerInfo {
    pub name: String,
    pub vendor: String,
    pub version: String,
    pub spec_version: String,
}

/// The values carried by a reply.
#[derive(Clone, Debug)]
pub enum ReplyBody {
    ServerInformation(ServerInfo),
    Capabilities(Vec<String>),
    NotificationId(u32),
    /// A reply that carries no value.
    Empty,
    Introspection(String),
    /// An error reply: the call could not be decoded.
    Error(CallError),
}

/// A reply, addressed to the caller and tied to the call it answers.
#[derive(Clone, Debug)]
pub struct Reply {
    pub destination: String,
    pub reply_serial: u32,
    pub body: ReplyBody,
}

/// What handling one call asks of the bus and of the renderer.
#[derive(Clone, Debug)]
pub struct Handled {
    /// The reply to send, if any.
    pub reply: Option<Reply>,
    /// What to show, if anything.
    pub render: Option<RenderRequest>,
}

/// Whether `r` answers `call`: it goes back to the caller and names the
/// call's serial.
pub open spec fn answers(r: Reply, call: MethodCall) -> bool {
    r.destination@ == call.sender@ && r.reply_serial == call.serial
}

/// The capability tags, as text.
pub open spec fn capability_tags() -> Seq<Seq<char>> {
    seq![CAP_ACTIONS@, CAP_BODY@]
}

/// Whether `b` carries the server's fixed identity.
pub open spec fn is_server_information(b: ReplyBody) -> bool {
    match b {
        ReplyBody::ServerInformation(i) => i.name@ == SERVER_NAME@ && i.vendor@ == SERVER_VENDOR@
            && i.version@ == SERVER_VERSION@ && i.spec_version@ == SPEC_VERSION@,
        _ => false,
    }
}

/// Whether `b` carries the capability tags, in order.
pub open spec fn is_capabilities(b: ReplyBody) -> bool {
    match b {
        ReplyBody::Capabilities(v) => v@.map_values(|s: String| s@) == capability_tags(),
        _ => false,
    }
}

/// Whether `b` carries the introspection document.
pub open spec fn is_introspection(b: ReplyBody) -> bool {
    match b {
        ReplyBody::Introspection(x) => x@ == introspection_document(),
        _ => false,
    }
}

/// Whether `h` is what a `Notify` call with arguments `call.args` yields:
/// the fixed id and one render request when they decode, an error reply and
/// nothing to render when they do not.
pub open spec fn notify_outcome(h: Handled, call: MethodCall, settings: RendererSettings) -> bool {
    &&& h.reply matches Some(r) && answers(r, call)
    &&& if notify_args_ok(call.args@) {
        &&& h.reply->Some_0.body == ReplyBody::NotificationId(NOTIFICATION_ID)
        &&& h.render matches Some(rr) && renders_call(rr, call.args@, settings)
    } else {
        &&& h.reply->Some_0.body == ReplyBody::Error(notify_args_error(call.args@))
        &&& h.render is None
    }
}

/// Whether `h` is the outcome of dispatching `call`: each method's handler
/// for the five member names, and neither a reply nor a render request for
/// any other name.
pub open spec fn dispatched(h: Handled, call: MethodCall, settings: RendererSettings) -> bool {
    match method_of(call.member@) {
        None => h.reply is None && h.render is None,
        Some(Method::Notify) => notify_outcome(h, call, settings),
        Some(m) => {
            &&& h.render is None
            &&& h.reply matches Some(r) && answers(r, call)
            &&& match m {
                Method::GetServerInformation => is_server_information(h.reply->Some_0.body),
                Method::GetCapabilities => is_capabilities(h.reply->Some_0.body),
                Method::CloseNotification => h.reply->Some_0.body == ReplyBody::Empty,
                _ => is_introspection(h.reply->Some_0.body),
            }
        },
    }
}

/// A reply to `call` carrying `body`.
pub fn method_return(call: &MethodCall, body: ReplyBody) -> (r: Reply)
    ensures
        answers(r, *call),
        r.body == body,
{
    Reply { destination: call.sender.clone(), reply_serial: call.serial, body }
}

/// The reply to `GetServerInformation`.
pub fn reply_server_information(call: &MethodCall) -> (r: Reply)
    ensures
        answers(r, *call),
        is_server_information(r.body),
{
    let info = ServerInfo {
        name: String::from_str(SERVER_NAME),
        vendor: String::from_str(SERVER_VENDOR),
        version: String::from_str(SERVER_VERSION),
        spec_version: String::from_str(SPEC_VERSION),
    };
    method_return(call, ReplyBody::ServerInformation(info))
}

/// The reply to `GetCapabilities`.
pub fn reply_capabilities(call: &MethodCall) -> (r: Reply)
    ensures
        answers(r, *call),
        is_capabilities(r.body),
{
    let tags = vec![String::from_str(CAP_ACTIONS), String::from_str(CAP_BODY)];
    assert(tags@.map_values(|s: String| s@) =~= capability_tags());
    method_return(call, ReplyBody::Capabilities(tags))
}

/// The reply to `Introspect`.
pub fn reply_introspect(call: &MethodCall) -> (r: Reply)
    ensures
        answers(r, *call),
        is_introspection(r.body),
{
    method_return(call, ReplyBody::Introspection(introspection_xml()))
}

/// The reply to `CloseNotification`: no notification is kept, so there is
/// nothing to close.
pub fn close(call: &MethodCall) -> (r: Reply)
    ensures
        answers(r, *call),
        r.body == ReplyBody::Empty,
{
    method_return(call, ReplyBody::Empty)
}

/// Handles `Notify`: the fixed id and what to show when the arguments
/// decode, an error reply otherwise.
pub fn notify(call: &MethodCall, settings: &RendererSettings) -> (r: Handled)
    ensures
        notify_outcome(r, *call, *settings),
{
    match decode_notify(&call.args) {
        Ok(req) => {
            let render = render_request(&req, settings);
            let reply = method_return(call, ReplyBody::NotificationId(NOTIFICATION_ID));
            Handled { reply: Some(reply), render: Some(render) }
        },
        Err(e) => {
            let reply = method_return(call, ReplyBody::Error(e));
            Handled { reply: Some(reply), render: None }
        },
    }
}

/// Routes `call` by its member name to its handler. A name that the service
/// does not define is acknowledged with neither a reply nor a render request.
pub fn handle_message(call: &MethodCall, settings: &RendererSettings) -> (r: Handled)
    ensures
        dispatched(r, *call, *settings),
{
    match Method::from_member(call.member.as_str()) {
        Some(Method::GetServerInformation) => Handled {
            reply: Some(reply_server_information(call)),
            render: None,
        },
        Some(Method::GetCapabilities) => Handled {
            reply: Some(reply_capabilities(call)),
            render: None,
        },
        Some(Method::Notify) => notify(call, settings),
        Some(Method::CloseNotification) => Handled { reply: Some(close(call)), render: None },
        Some(Method::Introspect) => Handled { reply: Some(reply_introspect(call)), render: None },
        None => Handled { reply: None, render: None },
    }
}

} // verus!
