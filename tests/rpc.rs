use wry::rpc::{
    completion_script, dispatch_rpc, RpcRequest, RpcTable, WEBKIT_BRIDGE_SCRIPT, WEBVIEW2_BRIDGE_SCRIPT,
};
use wry::WindowId;
use wry::text::{append_int, append_nat};
use wry::version::version_string;
use wry::webview::{
    grants_permission, indexeddb_subpath, init_scripts, local_storage_subpath, PermissionKind,
};

#[test]
fn success_resolves_the_promise_and_clears_the_slot() {
    assert_eq!(
        completion_script(7, &Ok(())),
        "window._rpc[7].resolve(\"RPC call success\"); window._rpc[7] = undefined"
    );
}

#[test]
fn failure_rejects_with_the_message() {
    assert_eq!(
        completion_script(12, &Err("boom".to_string())),
        "window._rpc[12].reject(\"RPC call fail with error boom\"); window._rpc[12] = undefined"
    );
    assert_eq!(
        completion_script(-3, &Ok(())),
        "window._rpc[-3].resolve(\"RPC call success\"); window._rpc[-3] = undefined"
    );
}

#[test]
fn table_finds_the_handler_of_window_and_method() {
    let mut t: RpcTable<u32> = RpcTable::new();
    assert_eq!(t.lookup(1, "sum"), None);
    t.register(1, "sum".to_string(), 10);
    t.register(2, "sum".to_string(), 20);
    t.register(1, "max".to_string(), 30);
    assert_eq!(t.lookup(1, "sum"), Some(&10));
    assert_eq!(t.lookup(2, "sum"), Some(&20));
    assert_eq!(t.lookup(1, "max"), Some(&30));
    assert_eq!(t.lookup(2, "max"), None);
    assert_eq!(t.lookup(3, "sum"), None);
}

#[test]
fn later_registration_takes_the_place_of_the_earlier() {
    let mut t: RpcTable<&str> = RpcTable::new();
    t.register(5, "go".to_string(), "first");
    t.register(5, "go".to_string(), "second");
    assert_eq!(t.lookup(5, "go"), Some(&"second"));
}

#[test]
fn bridge_scripts_post_to_the_host() {
    assert!(WEBKIT_BRIDGE_SCRIPT.contains("window.webkit.messageHandlers.external.postMessage"));
    assert!(WEBVIEW2_BRIDGE_SCRIPT.contains("window.chrome.webview.postMessage"));
}

#[test]
fn decimal_text_of_integers() {
    let mut s = String::new();
    append_nat(&mut s, 0);
    s.push(' ');
    append_nat(&mut s, 1234);
    s.push(' ');
    append_nat(&mut s, u64::MAX);
    s.push(' ');
    append_int(&mut s, i64::MIN);
    s.push(' ');
    append_int(&mut s, -5);
    assert_eq!(s, "0 1234 18446744073709551615 -9223372036854775808 -5");
}

#[test]
fn version_string_joins_with_dots() {
    assert_eq!(version_string(2, 30, 1), "2.30.1");
    assert_eq!(version_string(0, 0, 0), "0.0.0");
}

type Handler = Box<dyn Fn(WindowId, &RpcRequest) -> Result<(), String>>;

#[test]
fn dispatch_runs_the_registered_handler_and_settles_the_promise() {
    let mut t: RpcTable<Handler> = RpcTable::new();
    t.register(1, "ok".to_string(), Box::new(|w, r| if w == 1 && r.id == 4 { Ok(()) } else { Err("bad".to_string()) }));
    t.register(1, "fail".to_string(), Box::new(|_w, r| Err(format!("no {}", r.method))));
    let req = |id: i32, method: &str| RpcRequest { id, method: method.to_string(), params: vec![] };
    assert_eq!(
        dispatch_rpc(&t, 1, &req(4, "ok")),
        Some("window._rpc[4].resolve(\"RPC call success\"); window._rpc[4] = undefined".to_string())
    );
    assert_eq!(
        dispatch_rpc(&t, 1, &req(2, "fail")),
        Some("window._rpc[2].reject(\"RPC call fail with error no fail\"); window._rpc[2] = undefined".to_string())
    );
    assert_eq!(dispatch_rpc(&t, 2, &req(4, "ok")), None);
    assert_eq!(dispatch_rpc(&t, 1, &req(4, "missing")), None);
}

#[test]
fn bridge_runs_before_the_application_scripts() {
    let user = vec!["window.x = 42".to_string(), "window.y = 1".to_string()];
    assert_eq!(
        init_scripts(WEBKIT_BRIDGE_SCRIPT, &user),
        vec![WEBKIT_BRIDGE_SCRIPT.to_string(), "window.x = 42".to_string(), "window.y = 1".to_string()]
    );
    assert_eq!(init_scripts("b", &vec![]), vec!["b".to_string()]);
}

#[test]
fn only_clipboard_reads_are_granted() {
    assert!(grants_permission(PermissionKind::ClipboardRead));
    assert!(!grants_permission(PermissionKind::Camera));
    assert!(!grants_permission(PermissionKind::Microphone));
    assert!(!grants_permission(PermissionKind::UnknownPermission));
}

#[test]
fn site_data_subpaths() {
    assert_eq!(local_storage_subpath(), vec!["localstorage"]);
    assert_eq!(indexeddb_subpath(), vec!["databases", "indexeddb"]);
}
