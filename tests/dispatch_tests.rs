use notrs::call::{Arg, CallError, MethodCall};
use notrs::dispatch::{handle_message, Handled, ReplyBody};
use notrs::methods::{same_text, Method};
use notrs::notify::{DurationPolicy, RendererSettings};

fn settings() -> RendererSettings {
    RendererSettings { icon: 1, color: 0, duration: DurationPolicy::WordCount }
}

fn call(sender: &str, serial: u32, member: &str, args: Vec<Arg>) -> MethodCall {
    MethodCall {
        sender: sender.to_string(),
        serial,
        member: member.to_string(),
        args,
    }
}

fn notify_args(app: &str, summary: &str, body: &str, expire: i32) -> Vec<Arg> {
    vec![
        Arg::Str(app.to_string()),
        Arg::U32(0),
        Arg::Str(String::new()),
        Arg::Str(summary.to_string()),
        Arg::Str(body.to_string()),
        Arg::StrList(vec![]),
        Arg::Other,
        Arg::I32(expire),
    ]
}

fn reply_body(h: &Handled) -> ReplyBody {
    h.reply.as_ref().expect("a reply").body.clone()
}

#[test]
fn server_information_is_fixed() {
    let h = handle_message(&call(":1.5", 7, "GetServerInformation", vec![]), &settings());
    assert!(h.render.is_none());
    match reply_body(&h) {
        ReplyBody::ServerInformation(i) => {
            assert_eq!(i.name, "notrs");
            assert_eq!(i.vendor, "vaelio <archelio@protonmail.com>");
            assert_eq!(i.version, "0.1.0");
            assert_eq!(i.spec_version, "1.2");
        }
        other => panic!("unexpected reply {:?}", other),
    }
}

#[test]
fn capabilities_are_actions_and_body() {
    let h = handle_message(&call(":1.5", 8, "GetCapabilities", vec![]), &settings());
    assert!(h.render.is_none());
    match reply_body(&h) {
        ReplyBody::Capabilities(v) => assert_eq!(v, vec!["actions".to_string(), "body".to_string()]),
        other => panic!("unexpected reply {:?}", other),
    }
}

#[test]
fn close_notification_replies_empty() {
    let h = handle_message(&call(":1.5", 9, "CloseNotification", vec![Arg::U32(2)]), &settings());
    assert!(h.render.is_none());
    assert!(matches!(reply_body(&h), ReplyBody::Empty));
}

#[test]
fn introspect_replies_document() {
    let h = handle_message(&call(":1.5", 10, "Introspect", vec![]), &settings());
    assert!(h.render.is_none());
    match reply_body(&h) {
        ReplyBody::Introspection(x) => assert!(x.contains("<method name=\"Notify\">")),
        other => panic!("unexpected reply {:?}", other),
    }
}

#[test]
fn notify_formats_message_and_returns_fixed_id() {
    let args = notify_args("Mail", "New message", "You have 2 unread items", -1);
    let h = handle_message(&call(":1.5", 11, "Notify", args), &settings());
    assert!(matches!(reply_body(&h), ReplyBody::NotificationId(2)));
    let r = h.render.expect("a render request");
    assert_eq!(r.message, "[Mail]: New message - You have 2 unread items");
    assert_eq!(r.duration_ms, 4500);
    assert_eq!(r.icon, 1);
    assert_eq!(r.color, 0);
}

#[test]
fn notify_id_does_not_depend_on_input() {
    let args = notify_args("Other", "x", "", 1234);
    let h = handle_message(&call(":1.9", 1, "Notify", args), &settings());
    assert!(matches!(reply_body(&h), ReplyBody::NotificationId(2)));
    assert_eq!(h.render.expect("a render request").duration_ms, 3000);
}

#[test]
fn notify_requested_policy_uses_expiry() {
    let s = RendererSettings { icon: -1, color: 7, duration: DurationPolicy::Requested { default_ms: 5000 } };
    let h = handle_message(&call(":1.5", 12, "Notify", notify_args("a", "b", "c d e", 1500)), &s);
    let r = h.render.expect("a render request");
    assert_eq!(r.duration_ms, 1500);
    assert_eq!(r.icon, -1);
    assert_eq!(r.color, 7);
    let h = handle_message(&call(":1.5", 13, "Notify", notify_args("a", "b", "c", -1)), &s);
    assert_eq!(h.render.expect("a render request").duration_ms, 5000);
    let h = handle_message(&call(":1.5", 14, "Notify", notify_args("a", "b", "c", 0)), &s);
    assert_eq!(h.render.expect("a render request").duration_ms, 5000);
    let mut args = notify_args("a", "b", "c", 0);
    args.truncate(5);
    let h = handle_message(&call(":1.5", 15, "Notify", args), &s);
    assert_eq!(h.render.expect("a render request").duration_ms, 5000);
}

#[test]
fn notify_missing_argument_is_an_error_reply() {
    let args = vec![Arg::Str("Mail".to_string()), Arg::U32(0)];
    let h = handle_message(&call(":1.5", 16, "Notify", args), &settings());
    assert!(h.render.is_none());
    assert!(matches!(reply_body(&h), ReplyBody::Error(CallError::MissingArgument)));
    let rep = h.reply.unwrap();
    assert_eq!(rep.destination, ":1.5");
    assert_eq!(rep.reply_serial, 16);
}

#[test]
fn notify_wrong_argument_type_is_an_error_reply() {
    let mut args = notify_args("Mail", "s", "b", 0);
    args[3] = Arg::U32(4);
    let h = handle_message(&call(":1.5", 17, "Notify", args), &settings());
    assert!(h.render.is_none());
    assert!(matches!(reply_body(&h), ReplyBody::Error(CallError::WrongArgumentType)));
}

#[test]
fn unknown_member_is_acknowledged_silently() {
    for m in ["Foo", "notify", "", "GetServerInformationX", "Introspect "] {
        let h = handle_message(&call(":1.5", 18, m, notify_args("a", "b", "c", 0)), &settings());
        assert!(h.reply.is_none());
        assert!(h.render.is_none());
    }
}

#[test]
fn each_member_routes_to_its_method() {
    for m in Method::all() {
        assert_eq!(Method::from_member(m.name()), Some(m));
    }
    assert_eq!(Method::from_member("Notify"), Some(Method::Notify));
    assert_eq!(Method::from_member("Introspect"), Some(Method::Introspect));
    assert_eq!(Method::from_member("introspect"), None);
    assert_eq!(Method::all().len(), 5);
}

#[test]
fn replies_go_back_to_their_callers() {
    let calls = vec![
        call(":1.20", 3, "GetCapabilities", vec![]),
        call(":1.31", 3, "Notify", notify_args("A", "s", "b", 0)),
        call(":1.20", 4, "Notify", notify_args("B", "t", "c", 0)),
        call(":1.31", 9, "CloseNotification", vec![Arg::U32(2)]),
    ];
    for c in &calls {
        let h = handle_message(c, &settings());
        let r = h.reply.expect("a reply");
        assert_eq!(r.destination, c.sender);
        assert_eq!(r.reply_serial, c.serial);
    }
}

#[test]
fn same_text_compares_characters() {
    assert!(same_text("abc", "abc"));
    assert!(same_text("", ""));
    assert!(!same_text("abc", "abd"));
    assert!(!same_text("abc", "ab"));
    assert!(same_text("é", "é"));
}
