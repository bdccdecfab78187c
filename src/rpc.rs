//! The in-page RPC bridge.
//!
//! The page calls `window.external.invoke` with a JSON payload
//! `{method, id, params}`; the host looks the call up by window and method,
//! runs it, and completes the page's promise kept in `window._rpc[id]`.
use serde_json::Value;
use vstd::prelude::*;
use vstd::string::*;

use crate::text::{append_int, int_text};
use crate::WindowId;

verus! {

#[verifier::external_type_specification]
#[verifier::external_body]
pub struct ExValue(Value);

/// Installs `window.external.invoke` on WebKitGTK, posting to the host's
/// `external` message handler.
pub const WEBKIT_BRIDGE_SCRIPT: &'static str = "window.external={invoke:function(x){window.webkit.messageHandlers.external.postMessage(x);}}";

/// Installs `window.external.invoke` on WebView2, posting through the
/// webview's message channel.
pub const WEBVIEW2_BRIDGE_SCRIPT: &'static str = "window.external={invoke:s=>window.chrome.webview.postMessage(s)}";

/// A call that the page made: the method it names, the id under which its
/// promise waits, and the parameters it passed.
pub struct RpcRequest {
    pub id: i32,
    pub method: String,
    pub params: Vec<Value>,
}

/// The page's promise slot for call `id`: `window._rpc[id]`.
pub open spec fn rpc_slot(id: int) -> Seq<char> {
    "window._rpc["@ + int_text(id) + "]"@
}

/// The script that settles call `id` in the page and clears its slot: it
/// resolves the promise when the host call succeeded, and rejects it with the
/// host's error message otherwise.
pub open spec fn completion_text(id: int, outcome: Result<(), Seq<char>>) -> Seq<char> {
    match outcome {
        Ok(_) => rpc_slot(id) + ".resolve(\"RPC call success\"); "@ + rpc_slot(id)
            + " = undefined"@,
        Err(message) => rpc_slot(id) + ".reject(\"RPC call fail with error "@ + message
            + "\"); "@ + rpc_slot(id) + " = undefined"@,
    }
}

fn append_slot(s: &mut String, id: i32)
    ensures
        final(s)@ == old(s)@ + rpc_slot(id as int),
{
    s.append("window._rpc[");
    append_int(s, id as i64);
    s.append("]");
    assert(s@ =~= old(s)@ + rpc_slot(id as int));
}

/// The view of a host call's outcome.
pub open spec fn outcome_view(outcome: Result<(), String>) -> Result<(), Seq<char>> {
    match outcome {
        Ok(_) => Ok(()),
        Err(m) => Err(m@),
    }
}

/// The script that hands the outcome of call `id` back to the page.
/// `outcome` holds the host's error message when the call failed.
pub fn completion_script(id: i32, outcome: &Result<(), String>) -> (r: String)
    ensures
        r@ == completion_text(id as int, outcome_view(*outcome)),
{
    let mut s = String::new();
    append_slot(&mut s, id);
    match outcome {
        Ok(_) => {
            s.append(".resolve(\"RPC call success\"); ");
        },
        Err(message) => {
            s.append(".reject(\"RPC call fail with error ");
            s.append(message.as_str());
            s.append("\"); ");
        },
    }
    append_slot(&mut s, id);
    s.append(" = undefined");
    proof {
        let slot = rpc_slot(id as int);
        match outcome {
            Ok(_) => {
                assert(s@ =~= slot + ".resolve(\"RPC call success\"); "@ + slot
                    + " = undefined"@);
            },
            Err(m) => {
                assert(s@ =~= slot + ".reject(\"RPC call fail with error "@ + m@ + "\"); "@
                    + slot + " = undefined"@);
            },
        }
    }
    s
}


struct RpcEntry<H> {
    window: WindowId,
    method: String,
    handler: H,
}

/// What a sequence of registrations leaves in force: for each window and
/// method, the handler registered last.
closed spec fn registered<H>(s: Seq<RpcEntry<H>>) -> Map<(WindowId, Seq<char>), H>
    decreases s.len(),
{
    if s.len() == 0 {
        Map::empty()
    } else {
        registered(s.drop_last()).insert((s.last().window, s.last().method@), s.last().handler)
    }
}

/// Registrations after index `i` that are for another key leave the handler
/// of `k` as the first `i` registrations had it.
proof fn lemma_registered_skip<H>(s: Seq<RpcEntry<H>>, i: int, k: (WindowId, Seq<char>))
    requires
        0 <= i <= s.len(),
        forall|j: int| i <= j < s.len() ==> (#[trigger] s[j].window, s[j].method@) != k,
    ensures
        registered(s).contains_key(k) == registered(s.take(i)).contains_key(k),
        registered(s).contains_key(k) ==> registered(s)[k] == registered(s.take(i))[k],
    decreases s.len() - i,
{
    if i == s.len() {
        assert(s.take(i) =~= s);
    } else {
        let t = s.drop_last();
        assert(t.take(i) =~= s.take(i));
        assert((s[s.len() - 1].window, s[s.len() - 1].method@) != k);
        lemma_registered_skip(t, i, k);
    }
}

/// The dispatch table of RPC calls: a handler for each window and method
/// name. A later registration for the same window and method takes the place
/// of the earlier one.
pub struct RpcTable<H> {
    entries: Vec<RpcEntry<H>>,
}

impl<H> View for RpcTable<H> {
    type V = Map<(WindowId, Seq<char>), H>;

    closed spec fn view(&self) -> Map<(WindowId, Seq<char>), H> {
        registered(self.entries@)
    }
}

impl<H> RpcTable<H> {
    /// A table with no handler in it.
    pub fn new() -> (r: Self)
        ensures
            r@ == Map::<(WindowId, Seq<char>), H>::empty(),
    {
        RpcTable { entries: Vec::new() }
    }

    /// Registers `handler` for the calls of `method` made by `window`.
    pub fn register(&mut self, window: WindowId, method: String, handler: H)
        ensures
            final(self)@ == old(self)@.insert((window, method@), handler),
    {
        let ghost before = self.entries@;
        self.entries.push(RpcEntry { window, method, handler });
        assert(self.entries@.drop_last() =~= before);
    }

    /// The handler for the calls of `method` made by `window`, if one was
    /// registered.
    pub fn lookup(&self, window: WindowId, method: &str) -> (r: Option<&H>)
        ensures
            match r {
                Some(h) => self@.contains_key((window, method@)) && *h == self@[(window, method@)],
                None => !self@.contains_key((window, method@)),
            },
    {
        let name = method.to_owned();
        let ghost k = (window, method@);
        let ghost s = self.entries@;
        let mut i = self.entries.len();
        while i > 0
            invariant
                i <= s.len(),
                s == self.entries@,
                name@ == method@,
                k == (window, method@),
                forall|j: int| i <= j < s.len() ==> (#[trigger] s[j].window, s[j].method@) != k,
            decreases i,
        {
            let e = &self.entries[i - 1];
            if e.window == window && e.method == name {
                proof {
                    lemma_registered_skip(s, i as int, k);
                    assert(s.take(i as int).drop_last() =~= s.take(i - 1));
                }
                return Some(&e.handler);
            }
            i = i - 1;
        }
        proof {
            lemma_registered_skip(s, 0, k);
            assert(s.take(0) =~= Seq::<RpcEntry<H>>::empty());
        }
        None
    }
}


/// Runs the call that `window` made with `request`: the handler registered
/// for its window and method is given the window and the request, and the
/// script that settles the page's promise with its outcome is returned. A
/// call for which no handler is registered gets no answer.
pub fn dispatch_rpc<H: Fn(WindowId, &RpcRequest) -> Result<(), String>>(
    table: &RpcTable<H>,
    window: WindowId,
    request: &RpcRequest,
) -> (r: Option<String>)
    requires
        table@.contains_key((window, request.method@)) ==> table@[(
            window,
            request.method@,
        )].requires((window, request)),
    ensures
        match r {
            None => !table@.contains_key((window, request.method@)),
            Some(script) => {
                &&& table@.contains_key((window, request.method@))
                &&& exists|outcome: Result<(), String>|
                    #[trigger] table@[(window, request.method@)].ensures((window, request), outcome)
                        && script@ == completion_text(request.id as int, outcome_view(outcome))
            },
        },
{
    match table.lookup(window, request.method.as_str()) {
        Some(handler) => {
            let outcome = handler(window, request);
            Some(completion_script(request.id, &outcome))
        },
        None => None,
    }
}

} // verus!
