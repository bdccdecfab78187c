//! How a webview is set up: the scripts it runs as pages load, the
//! permission requests it grants, and where it keeps site data.
use vstd::prelude::*;
use vstd::string::*;

verus! {

/// The scripts a webview runs as each page loads: the RPC bridge first,
/// then the application's scripts in their order.
pub fn init_scripts(bridge: &str, scripts: &Vec<String>) -> (r: Vec<String>)
    ensures
        r@.len() == scripts@.len() + 1,
        r@[0]@ == bridge@,
        forall|i: int| 0 <= i < scripts@.len() ==> (#[trigger] r@[i + 1])@ == scripts@[i]@,
{
    let mut r: Vec<String> = Vec::new();
    r.push(bridge.to_owned());
    let mut i: usize = 0;
    while i < scripts.len()
        invariant
            i <= scripts@.len(),
            r@.len() == i + 1,
            r@[0]@ == bridge@,
            forall|k: int| 0 <= k < i ==> (#[trigger] r@[k + 1])@ == scripts@[k]@,
        decreases scripts@.len() - i,
    {
        r.push(scripts[i].clone());
        i = i + 1;
    }
    r
}

/// A kind of permission that a page asks a WebView2 webview for.
#[derive(PartialEq, Eq, Structural, Clone, Copy, Debug)]
pub enum PermissionKind {
    UnknownPermission,
    Microphone,
    Camera,
    Geolocation,
    Notifications,
    OtherSensors,
    ClipboardRead,
}

/// Whether a request for `kind` is granted. Only reading the clipboard is;
/// any other request is left to the webview's own handling.
pub fn grants_permission(kind: PermissionKind) -> (r: bool)
    ensures
        r == (kind == PermissionKind::ClipboardRead),
{
    kind == PermissionKind::ClipboardRead
}

/// Where, under a webview's data directory, local storage is kept.
pub fn local_storage_subpath() -> (r: Vec<&'static str>)
    ensures
        r@.len() == 1,
        r@[0]@ == "localstorage"@,
{
    vec!["localstorage"]
}

/// Where, under a webview's data directory, IndexedDB databases are kept.
pub fn indexeddb_subpath() -> (r: Vec<&'static str>)
    ensures
        r@.len() == 2,
        r@[0]@ == "databases"@,
        r@[1]@ == "indexeddb"@,
{
    vec!["databases", "indexeddb"]
}

} // verus!
