use indexmap::IndexMap;
use webhookd::config::{Command, CommandArgs, Hook, MaybeBound, Stdin};
use webhookd::request::{authorize, generic_error, simple_response, Authorization, HookTable, Rejection};
use webhookd::signature::{compute_digest, SignatureCheck};
use webhookd::types::QueueType;

fn hook(url: &str, secret: Option<&str>) -> Hook {
    Hook {
        url: url.to_string(),
        commands: vec![Command::new(CommandArgs::from_vec(vec!["true".to_string()]).unwrap(), Stdin::Nothing, false)],
        environment: IndexMap::new(),
        max_concurrent: MaybeBound::N(1),
        queue_size: MaybeBound::N(1),
        queue_type: QueueType::Lifo,
        working_dir: None,
        secret: secret.map(|s| s.to_string()),
    }
}

#[test]
fn replies_end_with_a_newline() {
    let r = simple_response(200, b"hello".to_vec());
    assert_eq!(r.status, 200);
    assert_eq!(r.body, b"hello\n");
    assert_eq!(simple_response(201, b"hello\n".to_vec()).body, b"hello\n");
    assert_eq!(simple_response(200, Vec::new()).body, b"\n");
    assert_eq!(simple_response(200, b"a\n\nb".to_vec()).body, b"a\n\nb\n");
}

#[test]
fn generic_error_reply() {
    let r = generic_error();
    assert_eq!(r.status, 500);
    assert_eq!(r.body, b"failed to run hook, see server logs for more details\n");
}

#[test]
fn rejection_replies() {
    let cases = [
        (Rejection::MethodNotAllowed, 405, "hooks must use the POST method\n"),
        (Rejection::NoHook, 404, "no hook found\n"),
        (Rejection::UnreadableBody, 400, "failed to read request body\n"),
        (Rejection::BadSignatureHeader, 400, "missing or invalid X-Hub-Signature-256 header\n"),
        (Rejection::SignatureMismatch, 400, "invalid X-Hub-Signature-256 header\n"),
    ];
    for (rejection, status, body) in cases {
        let r = rejection.reply();
        assert_eq!(r.status, status);
        assert_eq!(r.body, body.as_bytes());
    }
}

#[test]
fn duplicate_urls_are_refused() {
    let err = HookTable::build(vec![hook("/a", None), hook("/b", None), hook("/a", None), hook("/b", None)]).unwrap_err();
    assert_eq!(err.url, "/a");
    assert!(HookTable::build(vec![hook("/a", None), hook("/b", None)]).is_ok());
    assert_eq!(HookTable::build(Vec::new()).unwrap().len(), 0);
}

#[test]
fn requests_are_routed_by_method_and_path() {
    let table = HookTable::build(vec![hook("/a", None), hook("/b", None)]).unwrap();
    assert_eq!(table.len(), 2);
    assert_eq!(table.lookup("/b"), Some(1));
    assert_eq!(table.lookup("/c"), None);
    assert_eq!(table.get(0).url, "/a");
    assert_eq!(table.route(true, "/a"), Ok(0));
    assert_eq!(table.route(true, "/a/"), Err(Rejection::NoHook));
    assert_eq!(table.route(false, "/a"), Err(Rejection::MethodNotAllowed));
    assert_eq!(table.route(false, "/missing"), Err(Rejection::MethodNotAllowed));
}

#[test]
fn hooks_without_secret_take_any_request() {
    let a = authorize(&hook("/a", None), b"body", None);
    assert!(matches!(a, Authorization::Unsigned));
    assert_eq!(a.rejection(), None);
}

#[test]
fn hooks_with_secret_check_the_signature() {
    let h = hook("/a", Some("secret"));
    let header = format!("sha256={}", compute_digest("secret", b"body"));
    let ok = authorize(&h, b"body", Some(header.as_bytes()));
    assert!(matches!(ok, Authorization::Checked(SignatureCheck::Valid { .. })));
    assert_eq!(ok.rejection(), None);

    let missing = authorize(&h, b"body", None);
    assert_eq!(missing.rejection(), Some(Rejection::BadSignatureHeader));

    let wrong = authorize(&h, b"other body", Some(header.as_bytes()));
    assert_eq!(wrong.rejection(), Some(Rejection::SignatureMismatch));
}
