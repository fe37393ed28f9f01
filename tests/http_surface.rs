use provisioner::orchestrator::{HttpAction, Provisioner};
use provisioner::web::{
    asset_path, asset_reply, backend_kind_reply, connect_ack_reply, route, Route,
};

#[test]
fn routes() {
    assert!(matches!(route("GET", "/api/scan"), Route::Scan));
    assert!(matches!(route("HEAD", "/api/scan"), Route::Scan));
    assert!(matches!(route("POST", "/api/scan"), Route::MethodNotAllowed));
    assert!(matches!(route("POST", "/api/connect"), Route::Connect));
    assert!(matches!(route("GET", "/api/connect"), Route::MethodNotAllowed));
    assert!(matches!(route("GET", "/api/backend_kind"), Route::BackendKind));
    assert!(matches!(route("GET", "/generate_204"), Route::CaptivePortalProbe));
    assert!(matches!(route("DELETE", "/style.css"), Route::MethodNotAllowed));
    match route("GET", "/css/app.css") {
        Route::Asset(p) => assert_eq!(p, "css/app.css"),
        other => panic!("unexpected {:?}", other),
    }
    match route("GET", "/") {
        Route::Asset(p) => assert_eq!(p, "index.html"),
        other => panic!("unexpected {:?}", other),
    }
}

#[test]
fn asset_paths() {
    assert_eq!(asset_path("/"), "index.html");
    assert_eq!(asset_path(""), "index.html");
    assert_eq!(asset_path("///"), "index.html");
    assert_eq!(asset_path("//a/b.js"), "a/b.js");
    assert_eq!(asset_path("x"), "x");
}

#[test]
fn backend_kind_body() {
    let r = backend_kind_reply();
    assert_eq!(r.status, 200);
    assert_eq!(r.content_type, "application/json");
    assert_eq!(String::from_utf8(r.body).unwrap(), "{\"kind\":\"tdm\"}");
}

#[test]
fn connect_is_acknowledged_at_once() {
    let r = connect_ack_reply();
    assert_eq!(r.status, 200);
    let body = String::from_utf8(r.body).unwrap();
    assert!(body.contains("\"status\":\"success\""));
    let p = Provisioner::new();
    assert!(matches!(p.handle(&Route::Connect), HttpAction::AcknowledgeThenCommit(_)));
}

#[test]
fn asset_replies() {
    let r = asset_reply("index.html", Some(b"<html></html>".to_vec()));
    assert_eq!(r.status, 200);
    assert_eq!(r.content_type, "text/html");
    assert_eq!(r.body, b"<html></html>".to_vec());
    let r = asset_reply("app.js", Some(Vec::new()));
    assert_eq!(r.content_type, "text/javascript");
    let r = asset_reply("blob", Some(vec![1, 2]));
    assert_eq!(r.content_type, "application/octet-stream");
    let r = asset_reply("missing.png", None);
    assert_eq!(r.status, 404);
    assert_eq!(r.body, b"Not Found".to_vec());
}

#[test]
fn method_not_allowed() {
    let p = Provisioner::new();
    match p.handle(&route("PUT", "/api/backend_kind")) {
        HttpAction::Reply(r) => assert_eq!(r.status, 405),
        other => panic!("unexpected {:?}", other),
    }
}
