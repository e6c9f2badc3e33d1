//! Service discovery: where services publish their URLs, the URLs they are
//! reached at, and the decisions of the wait-for-service loop.
use vstd::prelude::*;

use crate::models::Route;
use crate::text::{decimal, trim, trim_end_char, trim_end_matches_char, trim_ws, u64_to_decimal};

verus! {

/// The path of file `name` under directory `base`, joined as `Path::join`
/// does on Unix: an absolute `name` replaces `base`; otherwise a `/` is put
/// between them unless `base` is empty or already ends with one.
pub open spec fn path_join(base: Seq<char>, name: Seq<char>) -> Seq<char> {
    if name.len() > 0 && name[0] == '/' {
        name
    } else if base.len() == 0 || base.last() == '/' {
        base + name
    } else {
        base + seq!['/'] + name
    }
}

/// The file a service's URL is written to: `name` under `runtime_path`.
pub fn service_file_path(runtime_path: &str, name: &str) -> (r: String)
    ensures
        r@ == path_join(runtime_path@, name@),
{
    let n = name.unicode_len();
    if n > 0 && name.get_char(0) == '/' {
        return String::from_str(name);
    }
    let b = runtime_path.unicode_len();
    let mut s = String::from_str(runtime_path);
    if b == 0 || runtime_path.get_char(b - 1) == '/' {
        s.append(name);
        s
    } else {
        proof {
            reveal_strlit("/");
        }
        s.append("/");
        s.append(name);
        s
    }
}

/// The address read from a service's URL file: its content without
/// surrounding whitespace.
pub fn service_address(content: &str) -> (r: String)
    ensures
        r@ == trim_ws(content@),
{
    trim(content)
}

/// `base` without trailing slashes, followed by `suffix`.
pub open spec fn endpoint(base: Seq<char>, suffix: Seq<char>) -> Seq<char> {
    trim_end_char(base, '/') + suffix
}

/// The liveness URL of a service reached at `addr`.
pub fn ping_url(addr: &str) -> (r: String)
    ensures
        r@ == endpoint(addr@, "/ping"@),
{
    let mut s = trim_end_matches_char(addr, '/');
    s.append("/ping");
    s
}

/// The gateway management endpoint routes are registered at.
pub fn routes_endpoint(management_url: &str) -> (r: String)
    ensures
        r@ == endpoint(management_url@, "/v1/gateway/routes"@),
{
    let mut s = trim_end_matches_char(management_url, '/');
    s.append("/v1/gateway/routes");
    s
}

/// The user service endpoint publishing its JWKS document.
pub fn jwks_endpoint(user_service_url: &str) -> (r: String)
    ensures
        r@ == endpoint(user_service_url@, "/.well-known/jwks.json"@),
{
    let mut s = trim_end_matches_char(user_service_url, '/');
    s.append("/.well-known/jwks.json");
    s
}

/// The message a wait for a service ends with when it never answered.
pub open spec fn not_available_message(filename: Seq<char>, retries: u32) -> Seq<char> {
    filename + " not available after "@ + decimal(retries as nat) + " retries"@
}

/// Where the wait for a service stands: how many attempts have been made.
#[derive(Debug, Clone, Copy)]
pub struct WaitState {
    pub attempt: u32,
    pub retries: u32,
}

/// What happened since the last step of the wait for a service.
#[derive(Debug, Clone)]
pub enum WaitEvent {
    /// The wait begins.
    Started,
    /// The service's URL file was read: its address, or none when it could not be read.
    AddressRead(Option<String>),
    /// The service at `addr` was pinged; `ok` tells whether it answered.
    Pinged { addr: String, ok: bool },
    /// The pause between two attempts is over.
    Slept,
}

/// What the wait for a service does next.
#[derive(Debug, Clone)]
pub enum WaitAction {
    /// Read the service's URL file.
    ReadAddress,
    /// Ping the service at `addr` through `url`.
    Ping { addr: String, url: String },
    /// Pause for a second before the next attempt.
    Sleep,
    /// The service answers at this address.
    Ready(String),
    /// Give up with this message.
    Fail(String),
}

/// The failure message for a service that never answered.
pub fn not_available(filename: &str, retries: u32) -> (r: String)
    ensures
        r@ == not_available_message(filename@, retries),
{
    let mut s = String::from_str(filename);
    s.append(" not available after ");
    let n = u64_to_decimal(retries as u64);
    s.append(n.as_str());
    s.append(" retries");
    s
}

/// The wait's state after `event`, as `wait_step` leaves it.
pub open spec fn wait_next(state: WaitState, event: WaitEvent) -> WaitState {
    match event {
        WaitEvent::Started => WaitState { attempt: 0, retries: state.retries },
        WaitEvent::Slept => if state.attempt + 1 < state.retries {
            WaitState { attempt: (state.attempt + 1) as u32, retries: state.retries }
        } else {
            state
        },
        _ => state,
    }
}

/// A pause in `state` ends the wait: it was the last of the attempts.
pub open spec fn pause_gives_up(state: WaitState) -> bool {
    state.attempt + 1 >= state.retries
}

/// The wait's state after the events `events`, in order, from `state`.
pub open spec fn wait_run(state: WaitState, events: Seq<WaitEvent>) -> WaitState
    decreases events.len(),
{
    if events.len() == 0 {
        state
    } else {
        wait_next(wait_run(state, events.drop_last()), events.last())
    }
}

/// The events of `k` failed attempts: each an unreadable URL file, then the
/// pause after it.
pub open spec fn failed_attempts(k: nat) -> Seq<WaitEvent>
    decreases k,
{
    if k == 0 {
        Seq::empty()
    } else {
        failed_attempts((k - 1) as nat) + seq![WaitEvent::AddressRead(None), WaitEvent::Slept]
    }
}

/// Law: a wait of `retries` attempts that never reaches the service makes
/// its attempts one by one and gives up at the pause after the last one, and
/// at no earlier pause.
pub proof fn law_wait_gives_up_after_retries(start: WaitState, k: nat)
    requires
        1 <= k <= start.retries,
    ensures
        wait_run(wait_next(start, WaitEvent::Started), failed_attempts((k - 1) as nat)).attempt == k
            - 1,
        wait_run(wait_next(start, WaitEvent::Started), failed_attempts((k - 1) as nat)).retries
            == start.retries,
        pause_gives_up(
            wait_run(wait_next(start, WaitEvent::Started), failed_attempts((k - 1) as nat)),
        ) <==> k == start.retries,
    decreases k,
{
    let s0 = wait_next(start, WaitEvent::Started);
    if k > 1 {
        law_wait_gives_up_after_retries(start, (k - 1) as nat);
        let a = failed_attempts((k - 2) as nat);
        let e = failed_attempts((k - 1) as nat);
        assert(e == a + seq![WaitEvent::AddressRead(None), WaitEvent::Slept]);
        assert(e.drop_last() =~= a + seq![WaitEvent::AddressRead(None)]);
        assert(e.drop_last().drop_last() =~= a);
        assert(e.last() == WaitEvent::Slept);
        assert(e.drop_last().last() == WaitEvent::AddressRead(None));
        assert(wait_run(s0, e.drop_last()) == wait_run(s0, a));
    }
}

/// One step of waiting for a service: up to `retries` attempts, each reading
/// the service's URL file and pinging the address it holds, with a pause
/// after each failed attempt.
pub fn wait_step(state: WaitState, filename: &str, event: WaitEvent) -> (r: (WaitState, WaitAction))
    ensures
        r.0.retries == state.retries,
        r.0 == wait_next(state, event),
        event is Slept ==> (r.1 is Fail <==> pause_gives_up(state)),
        match event {
            WaitEvent::Started => {
                &&& r.0.attempt == 0
                &&& 0 < state.retries ==> r.1 is ReadAddress
                &&& state.retries == 0 ==> (r.1 matches WaitAction::Fail(m) && m@
                    == not_available_message(filename@, state.retries))
            },
            WaitEvent::AddressRead(None) => r.0 == state && r.1 is Sleep,
            WaitEvent::AddressRead(Some(a)) => {
                &&& r.0 == state
                &&& r.1 matches WaitAction::Ping { addr, url } ==> addr@ == a@ && url@ == endpoint(
                    a@,
                    "/ping"@,
                )
                &&& r.1 is Ping
            },
            WaitEvent::Pinged { addr, ok } => {
                &&& r.0 == state
                &&& ok ==> (r.1 matches WaitAction::Ready(a) && a@ == addr@)
                &&& !ok ==> r.1 is Sleep
            },
            WaitEvent::Slept => {
                &&& state.attempt as int + 1 < state.retries as int ==> r.0.attempt
                    == state.attempt + 1 && r.1 is ReadAddress
                &&& state.attempt as int + 1 >= state.retries as int ==> {
                    &&& r.0 == state
                    &&& r.1 matches WaitAction::Fail(m) && m@ == not_available_message(
                        filename@,
                        state.retries,
                    )
                }
            },
        },
{
    match event {
        WaitEvent::Started => {
            let s = WaitState { attempt: 0, retries: state.retries };
            if 0 < state.retries {
                (s, WaitAction::ReadAddress)
            } else {
                (s, WaitAction::Fail(not_available(filename, state.retries)))
            }
        },
        WaitEvent::AddressRead(None) => (state, WaitAction::Sleep),
        WaitEvent::AddressRead(Some(a)) => {
            let url = ping_url(a.as_str());
            (state, WaitAction::Ping { addr: a, url })
        },
        WaitEvent::Pinged { addr, ok } => {
            if ok {
                (state, WaitAction::Ready(addr))
            } else {
                (state, WaitAction::Sleep)
            }
        },
        WaitEvent::Slept => {
            if (state.attempt as u64) + 1 < state.retries as u64 {
                (
                    WaitState { attempt: state.attempt + 1, retries: state.retries },
                    WaitAction::ReadAddress,
                )
            } else {
                (state, WaitAction::Fail(not_available(filename, state.retries)))
            }
        },
    }
}

/// The routes a service asks the gateway to forward to `listen_url`, one per path.
pub fn routes_to(paths: &Vec<&str>, listen_url: &str) -> (r: Vec<Route>)
    ensures
        r@.len() == paths@.len(),
        forall|i: int|
            0 <= i < r@.len() ==> (#[trigger] r@[i]).path@ == paths@[i]@ && r@[i].target@
                == listen_url@,
{
    let mut out: Vec<Route> = Vec::new();
    let mut i: usize = 0;
    while i < paths.len()
        invariant
            i <= paths@.len(),
            out@.len() == i,
            forall|j: int|
                0 <= j < i ==> (#[trigger] out@[j]).path@ == paths@[j]@ && out@[j].target@
                    == listen_url@,
        decreases paths@.len() - i,
    {
        out.push(Route { path: String::from_str(paths[i]), target: String::from_str(listen_url) });
        i = i + 1;
    }
    out
}

/// The URL a service listening on `port` on the loopback interface is reached at.
pub fn loopback_url(port: u16) -> (r: String)
    ensures
        r@ == "http://127.0.0.1:"@ + decimal(port as nat),
{
    let mut s = String::from_str("http://127.0.0.1:");
    let p = u64_to_decimal(port as u64);
    s.append(p.as_str());
    s
}

/// The URL the gateway is published at when it listens on `port` on all interfaces.
pub fn gateway_url(port: u16) -> (r: String)
    ensures
        r@ == "http://0.0.0.0:"@ + decimal(port as nat),
{
    let mut s = String::from_str("http://0.0.0.0:");
    let p = u64_to_decimal(port as u64);
    s.append(p.as_str());
    s
}

} // verus!
