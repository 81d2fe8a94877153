use vstd::prelude::*;
use crate::call::{Arg, CallError, arg_text, arg_i32, text_arg, i32_arg};
use crate::duration::{word_count_duration, duration_for_body};

verus! {

/// Position of the application name among the arguments of `Notify`.
pub const APP_NAME_ARG: usize = 0;

/// Position of the summary among the arguments of `Notify`.
pub const SUMMARY_ARG: usize = 3;

/// Position of the body among the arguments of `Notify`.
pub const BODY_ARG: usize = 4;

/// Position of the requested expiry among the arguments of `Notify`.
pub const EXPIRE_TIMEOUT_ARG: usize = 7;

/// The notification id returned for every `Notify` call.
pub const NOTIFICATION_ID: u32 = 2;

/// What a `Notify` call asks to show. The replaced id, icon, actions and
/// hints of the call are not used.
#[derive(Clone, Debug)]
pub struct NotifyRequest {
    pub app_name: String,
    pub summary: String,
    pub body: String,
    /// The requested expiry in milliseconds, when the call carries one.
    pub expire_timeout: Option<i32>,
}

/// How the display time of a notification is chosen.
#[derive(Clone, Copy, Debug, PartialEq, Eq, Structural)]
pub enum DurationPolicy {
    /// A base time plus a fixed amount per word of the body.
    WordCount,
    /// The expiry that the call requests when it is positive, else `default_ms`.
    Requested { default_ms: u64 },
}

/// The fixed parameters handed to the renderer with every message.
#[derive(Clone, Copy, Debug, PartialEq, Eq, Structural)]
pub struct RendererSettings {
    /// Icon or urgency code; -1 for none.
    pub icon: i32,
    /// Colour code; 0 for the default.
    pub color: u32,
    pub duration: DurationPolicy,
}

/// What the renderer is asked to show, and for how long.
#[derive(Clone, Debug)]
pub struct RenderRequest {
    pub icon: i32,
    pub duration_ms: u64,
    pub color: u32,
    pub message: String,
}

/// Whether the application name, summary and body of a `Notify` call can be read.
pub open spec fn notify_args_ok(args: Seq<Arg>) -> bool {
    arg_text(args, APP_NAME_ARG as int) is Ok && arg_text(args, SUMMARY_ARG as int) is Ok
        && arg_text(args, BODY_ARG as int) is Ok
}

/// The error of the first of the application name, summary and body that
/// cannot be read.
pub open spec fn notify_args_error(args: Seq<Arg>) -> CallError {
    if arg_text(args, APP_NAME_ARG as int) is Err {
        arg_text(args, APP_NAME_ARG as int)->Err_0
    } else if arg_text(args, SUMMARY_ARG as int) is Err {
        arg_text(args, SUMMARY_ARG as int)->Err_0
    } else {
        arg_text(args, BODY_ARG as int)->Err_0
    }
}

/// Whether `req` holds what the arguments `args` of a `Notify` call give.
pub open spec fn decoded_from(req: NotifyRequest, args: Seq<Arg>) -> bool {
    &&& arg_text(args, APP_NAME_ARG as int) == Ok::<Seq<char>, CallError>(req.app_name@)
    &&& arg_text(args, SUMMARY_ARG as int) == Ok::<Seq<char>, CallError>(req.summary@)
    &&& arg_text(args, BODY_ARG as int) == Ok::<Seq<char>, CallError>(req.body@)
    &&& req.expire_timeout == arg_i32(args, EXPIRE_TIMEOUT_ARG as int)
}

/// Decodes the arguments of a `Notify` call. It fails exactly when the
/// application name, summary or body is missing or is not text.
pub fn decode_notify(args: &Vec<Arg>) -> (r: Result<NotifyRequest, CallError>)
    ensures
        r is Ok <==> notify_args_ok(args@),
        r matches Ok(req) ==> decoded_from(req, args@),
        r matches Err(e) ==> e == notify_args_error(args@),
{
    let app_name = match text_arg(args, APP_NAME_ARG) {
        Ok(s) => s,
        Err(e) => return Err(e),
    };
    let summary = match text_arg(args, SUMMARY_ARG) {
        Ok(s) => s,
        Err(e) => return Err(e),
    };
    let body = match text_arg(args, BODY_ARG) {
        Ok(s) => s,
        Err(e) => return Err(e),
    };
    let expire_timeout = i32_arg(args, EXPIRE_TIMEOUT_ARG);
    Ok(NotifyRequest { app_name, summary, body, expire_timeout })
}

/// The text shown for a notification: `[app]: summary - body`.
pub open spec fn message_text(app: Seq<char>, summary: Seq<char>, body: Seq<char>) -> Seq<char> {
    "["@ + app + "]: "@ + summary + " - "@ + body
}

/// Formats the text shown for a notification.
pub fn format_message(app: &str, summary: &str, body: &str) -> (r: String)
    ensures
        r@ == message_text(app@, summary@, body@),
{
    let mut s = String::from_str("[");
    s.append(app);
    s.append("]: ");
    s.append(summary);
    s.append(" - ");
    s.append(body);
    s
}

/// `v` when it fits in a `u64`, else `u64::MAX`.
pub open spec fn saturate(v: int) -> int {
    if v <= u64::MAX {
        v
    } else {
        u64::MAX as int
    }
}

/// The display time, in milliseconds, that `policy` gives a notification
/// with body `body` and requested expiry `expire`.
pub open spec fn display_duration(policy: DurationPolicy, body: Seq<char>, expire: Option<i32>) -> int {
    match policy {
        DurationPolicy::WordCount => saturate(word_count_duration(body)),
        DurationPolicy::Requested { default_ms } => match expire {
            Some(t) => if t > 0 {
                t as int
            } else {
                default_ms as int
            },
            None => default_ms as int,
        },
    }
}

/// Computes the display time of a notification.
pub fn duration_for(policy: DurationPolicy, body: &str, expire: Option<i32>) -> (r: u64)
    ensures
        r == display_duration(policy, body@, expire),
{
    match policy {
        DurationPolicy::WordCount => duration_for_body(body),
        DurationPolicy::Requested { default_ms } => match expire {
            Some(t) => if t > 0 {
                t as u64
            } else {
                default_ms
            },
            None => default_ms,
        },
    }
}

/// Whether `r` is what the renderer is asked to show for `req` under `settings`.
pub open spec fn renders(r: RenderRequest, req: NotifyRequest, settings: RendererSettings) -> bool {
    &&& r.icon == settings.icon
    &&& r.color == settings.color
    &&& r.duration_ms == display_duration(settings.duration, req.body@, req.expire_timeout)
    &&& r.message@ == message_text(req.app_name@, req.summary@, req.body@)
}

/// Whether `r` is what the renderer is asked to show for a `Notify` call
/// with arguments `args` under `settings`.
pub open spec fn renders_call(r: RenderRequest, args: Seq<Arg>, settings: RendererSettings) -> bool {
    &&& r.icon == settings.icon
    &&& r.color == settings.color
    &&& r.duration_ms == display_duration(
        settings.duration,
        arg_text(args, BODY_ARG as int)->Ok_0,
        arg_i32(args, EXPIRE_TIMEOUT_ARG as int),
    )
    &&& r.message@ == message_text(
        arg_text(args, APP_NAME_ARG as int)->Ok_0,
        arg_text(args, SUMMARY_ARG as int)->Ok_0,
        arg_text(args, BODY_ARG as int)->Ok_0,
    )
}

/// The renderer request for a decoded notification.
pub fn render_request(req: &NotifyRequest, settings: &RendererSettings) -> (r: RenderRequest)
    ensures
        renders(r, *req, *settings),
{
    RenderRequest {
        icon: settings.icon,
        duration_ms: duration_for(settings.duration, req.body.as_str(), req.expire_timeout),
        color: settings.color,
        message: format_message(req.app_name.as_str(), req.summary.as_str(), req.body.as_str()),
    }
}

} // verus!
