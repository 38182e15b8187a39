//! The daemon API: its error type and how errors become HTTP responses,
//! request and response bodies, and the checks before the proxy starts.

use vstd::prelude::*;
use crate::backend::{BackendRegistry, BackendSnapshot, BackendType, CoreType, ProxyPorts, spec_core_supports, spec_resolve};
use crate::error::Error;
use crate::json::{Json, JsonV, ObjBuilder};
use crate::models::{HwidInfo, ProxyNode, SubscriptionMetadata};
use crate::text::spec_contains;

verus! {

/// Errors returned by API handlers.
#[derive(Debug)]
pub enum ApiError {
    NotFound(String),
    BadRequest(String),
    Conflict(String),
    Core(Error),
    /// An error that carries only its message.
    Anyhow(String),
    Internal(String),
}

/// The HTTP status and message an error is answered with. Messages of
/// unexpected errors are not shown; an otherwise unexpected error about a
/// missing node selection is the client's fault.
pub open spec fn spec_error_response(e: ApiError) -> (u16, Seq<char>) {
    match e {
        ApiError::NotFound(m) => (404, m@),
        ApiError::BadRequest(m) => (400, m@),
        ApiError::Conflict(m) => (409, m@),
        ApiError::Internal(m) => (500, m@),
        ApiError::Anyhow(m) => if spec_contains(m@, "No node selected"@) {
            (400, m@)
        } else {
            (500, "Internal server error"@)
        },
        ApiError::Core(c) => match c {
            Error::Config(m) => (400, m@),
            Error::Parse(m) => (400, m@),
            Error::Hwid(m) => (400, m@),
            Error::UnsupportedProtocol(m) => (400, m@),
            Error::Custom(m) => (400, m@),
            Error::Network(_) => (502, "Upstream network error"@),
            Error::Url(_) => (400, "Invalid URL"@),
            Error::Serialization(_) => (500, "Internal server error"@),
            Error::Yaml(_) => (500, "Internal server error"@),
            Error::Base64(_) => (500, "Internal server error"@),
            Error::Io(_) => (500, "Internal server error"@),
            Error::Database(_) => (500, "Internal server error"@),
            Error::SubscriptionExpired => (403, "Subscription expired"@),
            Error::DeviceLimitExceeded { current, limit } => (
                403,
                "Device limit exceeded: "@ + crate::text::dec_digits(current as nat) + "/"@
                    + crate::text::dec_digits(limit as nat),
            ),
        },
    }
}

impl ApiError {
    /// The HTTP status code and message of the response.
    pub fn status_and_message(self) -> (r: (u16, String))
        ensures
            (r.0, r.1@) == spec_error_response(self),
    {
        match self {
            ApiError::NotFound(m) => (404, m),
            ApiError::BadRequest(m) => (400, m),
            ApiError::Conflict(m) => (409, m),
            ApiError::Internal(m) => (500, m),
            ApiError::Anyhow(m) => {
                if crate::text::str_contains(m.as_str(), "No node selected") {
                    (400, m)
                } else {
                    (500, "Internal server error".to_owned())
                }
            },
            ApiError::Core(c) => match c {
                Error::Config(m) => (400, m),
                Error::Parse(m) => (400, m),
                Error::Hwid(m) => (400, m),
                Error::UnsupportedProtocol(m) => (400, m),
                Error::Custom(m) => (400, m),
                Error::Network(_) => (502, "Upstream network error".to_owned()),
                Error::Url(_) => (400, "Invalid URL".to_owned()),
                Error::Serialization(_) => (500, "Internal server error".to_owned()),
                Error::Yaml(_) => (500, "Internal server error".to_owned()),
                Error::Base64(_) => (500, "Internal server error".to_owned()),
                Error::Io(_) => (500, "Internal server error".to_owned()),
                Error::Database(_) => (500, "Internal server error".to_owned()),
                Error::SubscriptionExpired => (403, "Subscription expired".to_owned()),
                Error::DeviceLimitExceeded { current, limit } => {
                    let mut m = "Device limit exceeded: ".to_owned();
                    crate::text::push_decimal(&mut m, current as u64);
                    m.push('/');
                    crate::text::push_decimal(&mut m, limit as u64);
                    proof {
                        reveal_strlit("/");
                    }
                    (403, m)
                },
            },
        }
    }

    /// The HTTP status and the JSON body `{"error": message}`.
    pub fn into_response(self) -> (r: (u16, Json))
        ensures
            r.0 == spec_error_response(self).0,
            r.1.view() == JsonV::Obj(map!["error"@ => JsonV::Str(spec_error_response(self).1)]),
    {
        let (status, message) = self.status_and_message();
        let mut b = ObjBuilder::new();
        b.insert("error", Json::Str(message));
        let body = b.build();
        proof {
            assert(b.view() =~= map!["error"@ => JsonV::Str(spec_error_response(self).1)]);
        }
        (status, body)
    }
}

/// Request body for adding a subscription.
#[derive(Debug, Clone)]
pub struct AddSubscriptionRequest {
    pub url: String,
    pub name: Option<String>,
    pub hwid: Option<String>,
}

/// A stored subscription with its metadata; times are Unix milliseconds.
#[derive(Debug, Clone)]
pub struct StoredSubscription {
    pub id: u128,
    pub url: String,
    pub name: Option<String>,
    pub hwid: Option<String>,
    pub added_at: i64,
    pub last_updated: Option<i64>,
    pub is_active: bool,
    pub metadata: SubscriptionMetadata,
    pub traffic_used: Option<u64>,
    pub traffic_total: Option<u64>,
    pub expires_at: Option<i64>,
}

impl StoredSubscription {
    /// A new active subscription with identifier `id`, added at `now`.
    pub fn new(id: u128, url: String, name: Option<String>, hwid: Option<String>, now: i64) -> (s: Self)
        ensures
            s.id == id,
            s.url == url,
            s.name == name,
            s.hwid == hwid,
            s.added_at == now,
            s.last_updated is None,
            s.is_active,
            s.traffic_used is None,
            s.traffic_total is None,
            s.expires_at is None,
            s.metadata.headers@.len() == 0,
    {
        StoredSubscription {
            id,
            url,
            name,
            hwid,
            added_at: now,
            last_updated: None,
            is_active: true,
            metadata: SubscriptionMetadata::default(),
            traffic_used: None,
            traffic_total: None,
            expires_at: None,
        }
    }
}

/// A node with its owning subscription.
#[derive(Debug, Clone)]
pub struct NodeWithSubscription {
    pub id: u128,
    pub subscription_id: u128,
    pub subscription_name: Option<String>,
    pub node: ProxyNode,
}

/// Request body for starting the proxy.
#[derive(Debug, Clone)]
pub struct StartProxyRequest {
    pub node_id: Option<u128>,
    pub socks_port: Option<u16>,
    pub http_port: Option<u16>,
    pub mixed_port: Option<u16>,
    pub backend: Option<BackendType>,
}

/// Response body for the proxy status.
#[derive(Debug, Clone)]
pub struct ProxyStatus {
    pub running: bool,
    pub selected_node: Option<NodeWithSubscription>,
    pub socks_port: Option<u16>,
    pub http_port: Option<u16>,
    pub mixed_port: Option<u16>,
    pub pid: Option<u32>,
    pub uptime_secs: Option<u64>,
    pub last_error: Option<String>,
    pub backend: Option<BackendType>,
}

/// Aggregate health response.
#[derive(Debug, Clone)]
pub struct HealthResponse {
    pub status: String,
    pub version: String,
    pub uptime_secs: u64,
    pub hwid: String,
}

/// Configuration response.
#[derive(Debug, Clone)]
pub struct ConfigResponse {
    pub config: crate::config::AppConfig,
}

/// HWID response.
#[derive(Debug, Clone)]
pub struct HwidResponse {
    pub hwid: String,
    pub info: HwidInfo,
}

/// The message of a missing node.
pub open spec fn spec_node_not_found(id: u128) -> Seq<char> {
    "Node "@ + crate::uuid::spec_uuid_text(id) + " not found"@
}

pub fn node_not_found(id: u128) -> (e: ApiError)
    ensures
        e matches ApiError::NotFound(m) && m@ == spec_node_not_found(id),
{
    let mut m = "Node ".to_owned();
    let t = crate::uuid::uuid_to_string(id);
    m.append(t.as_str());
    m.append(" not found");
    ApiError::NotFound(m)
}

/// Which node a start request runs: the requested node, when the request
/// names one (it must exist), else the selected node (there must be one).
/// `requested` is the stored node with the requested identifier, if any.
pub fn choose_start_node(
    requested_id: Option<u128>,
    requested: Option<NodeWithSubscription>,
    selected: Option<NodeWithSubscription>,
) -> (r: Result<NodeWithSubscription, ApiError>)
    ensures
        match requested_id {
            Some(id) => match requested {
                Some(n) => r == Ok::<NodeWithSubscription, ApiError>(n),
                None => r matches Err(ApiError::NotFound(m)) && m@ == spec_node_not_found(id),
            },
            None => match selected {
                Some(n) => r == Ok::<NodeWithSubscription, ApiError>(n),
                None => r matches Err(ApiError::BadRequest(m)) && m@ == "No node selected"@,
            },
        },
{
    match requested_id {
        Some(id) => match requested {
            Some(n) => Ok(n),
            None => Err(node_not_found(id)),
        },
        None => match selected {
            Some(n) => Ok(n),
            None => Err(ApiError::BadRequest("No node selected".to_owned())),
        },
    }
}

/// The backend a start request runs with: the requested backend type (or
/// `Auto`) resolved for the node, which must be able to serve it.
pub fn choose_backend(registry: &BackendRegistry, requested: Option<BackendType>, node: &ProxyNode) -> (r: Result<BackendSnapshot, ApiError>)
    ensures
        ({
            let t = match requested { Some(t) => t, None => BackendType::Auto };
            let core = spec_resolve(t, *node);
            if spec_core_supports(core, *node) {
                r matches Ok(b) && b.core == core
                    && b.geo == (if core == CoreType::Xray { registry.xray.geo } else { registry.sing_box.geo })
            } else {
                r matches Err(ApiError::BadRequest(m)) && m@ == "Selected backend does not support this node"@
            }
        }),
{
    let t = match requested {
        Some(t) => t,
        None => BackendType::Auto,
    };
    let b = registry.resolve(t, node);
    if !b.supports(node) {
        return Err(ApiError::BadRequest("Selected backend does not support this node".to_owned()));
    }
    Ok(b)
}

/// Xray-core must be given by path or found in `PATH` before it starts.
pub fn check_core_available(core: CoreType, xray_path_set: bool, xray_in_path: bool) -> (r: Result<(), ApiError>)
    ensures
        r is Ok <==> (core != CoreType::Xray || xray_path_set || xray_in_path),
        r matches Err(e) ==> e matches ApiError::Anyhow(m) && m@ == "Xray-core is required for XHTTP/Splithttp nodes. Provide --xray <PATH> or ensure `xray`/`xray.exe` is in PATH."@,
{
    if core == CoreType::Xray && !xray_path_set && !xray_in_path {
        return Err(ApiError::Anyhow(
            "Xray-core is required for XHTTP/Splithttp nodes. Provide --xray <PATH> or ensure `xray`/`xray.exe` is in PATH.".to_owned(),
        ));
    }
    Ok(())
}


/// The name of the last listed subscription with identifier `id` (later
/// entries take the place of earlier ones, as when collected into a map).
pub open spec fn spec_subscription_name(subs: Seq<StoredSubscription>, id: u128) -> Option<String>
    decreases subs.len(),
{
    if subs.len() == 0 {
        None
    } else if subs.last().id == id {
        subs.last().name
    } else {
        spec_subscription_name(subs.drop_last(), id)
    }
}

fn subscription_name(subs: &Vec<StoredSubscription>, id: u128) -> (r: Option<String>)
    ensures
        r == spec_subscription_name(subs@, id),
{
    let mut i: usize = subs.len();
    proof {
        assert(subs@.take(i as int) =~= subs@);
    }
    while i > 0
        invariant
            i <= subs@.len(),
            spec_subscription_name(subs@.take(i as int), id) == spec_subscription_name(subs@, id),
        decreases i,
    {
        proof {
            assert(subs@.take(i as int).drop_last() =~= subs@.take(i - 1));
        }
        if subs[i - 1].id == id {
            return match &subs[i - 1].name {
                Some(n) => Some(n.clone()),
                None => None,
            };
        }
        i = i - 1;
    }
    None
}

/// The nodes of stored rows `(node id, subscription id, node)`, each with
/// the name of its subscription.
pub open spec fn spec_node_row(row: (u128, u128, ProxyNode), subs: Seq<StoredSubscription>) -> NodeWithSubscription {
    NodeWithSubscription {
        id: row.0,
        subscription_id: row.1,
        subscription_name: spec_subscription_name(subs, row.1),
        node: row.2,
    }
}

/// Lists stored node rows with their subscriptions' names, in order.
pub fn nodes_with_subscriptions(rows: Vec<(u128, u128, ProxyNode)>, subs: &Vec<StoredSubscription>) -> (v: Vec<NodeWithSubscription>)
    ensures
        v@.len() == rows@.len(),
        forall|i: int| 0 <= i < v@.len() ==> #[trigger] v@[i] == spec_node_row(rows@[i], subs@),
{
    let ghost orig = rows@;
    let mut rest = rows;
    let mut out: Vec<NodeWithSubscription> = Vec::new();
    let n = rest.len();
    let mut i: usize = 0;
    proof {
        assert(rest@ =~= orig.subrange(0, n as int));
    }
    while i < n
        invariant
            n == orig.len(),
            i <= n,
            rest@ == orig.subrange(i as int, n as int),
            out@.len() == i,
            forall|k: int| 0 <= k < i ==> #[trigger] out@[k] == spec_node_row(orig[k], subs@),
        decreases n - i,
    {
        let (id, sub_id, node) = rest.remove(0);
        proof {
            assert((id, sub_id, node) == orig[i as int]);
            assert(rest@ =~= orig.subrange(i + 1, n as int));
        }
        let name = subscription_name(subs, sub_id);
        out.push(NodeWithSubscription { id, subscription_id: sub_id, subscription_name: name, node });
        i = i + 1;
    }
    out
}

/// Whether deleting subscription `deleted` clears the node selection: the
/// selected node (if any) belongs to it.
pub fn selection_cleared_by_delete(selected_node_subscription: Option<u128>, deleted: u128) -> (r: bool)
    ensures
        r == (selected_node_subscription == Some(deleted)),
{
    match selected_node_subscription {
        Some(s) => s == deleted,
        None => false,
    }
}

/// The HWID a fetch sends: the one given with the request, else the one
/// stored with the subscription; `None` asks the device's provider.
pub fn requested_hwid(override_hwid: Option<String>, stored: Option<String>) -> (r: Option<String>)
    ensures
        r == (match override_hwid {
            Some(h) => Some(h),
            None => stored,
        }),
{
    match override_hwid {
        Some(h) => Some(h),
        None => stored,
    }
}

/// A stored subscription after a fetch at `now`: the fetched metadata,
/// traffic and expiry replace the old ones.
pub fn record_fetch(
    stored: StoredSubscription,
    now: i64,
    metadata: SubscriptionMetadata,
    traffic_used: Option<u64>,
    traffic_total: Option<u64>,
    expires_at: Option<i64>,
) -> (s: StoredSubscription)
    ensures
        s == (StoredSubscription {
            last_updated: Some(now),
            metadata,
            traffic_used,
            traffic_total,
            expires_at,
            ..stored
        }),
{
    let mut s = stored;
    s.last_updated = Some(now);
    s.metadata = metadata;
    s.traffic_used = traffic_used;
    s.traffic_total = traffic_total;
    s.expires_at = expires_at;
    s
}

/// The proxy status: the process details only while the core runs, the
/// ports it was started with, and the preferred backend.
pub fn proxy_status(
    running: bool,
    selected_node: Option<NodeWithSubscription>,
    ports: Option<ProxyPorts>,
    process: (Option<u32>, Option<u64>, Option<String>),
    backend: BackendType,
) -> (st: ProxyStatus)
    ensures
        st.running == running,
        st.selected_node == selected_node,
        st.socks_port == (match ports { Some(p) => p.socks, None => None }),
        st.http_port == (match ports { Some(p) => p.http, None => None }),
        st.mixed_port == (match ports { Some(p) => p.mixed, None => None }),
        running ==> st.pid == process.0 && st.uptime_secs == process.1 && st.last_error == process.2,
        !running ==> st.pid is None && st.uptime_secs is None && st.last_error is None,
        st.backend == Some(backend),
{
    let (pid, uptime_secs, last_error) = if running { process } else { (None, None, None) };
    ProxyStatus {
        running,
        selected_node,
        socks_port: match ports { Some(p) => p.socks, None => None },
        http_port: match ports { Some(p) => p.http, None => None },
        mixed_port: match ports { Some(p) => p.mixed, None => None },
        pid,
        uptime_secs,
        last_error,
        backend: Some(backend),
    }
}

impl StoredSubscription {
    /// A subscription saved by the command-line client, taken over with the
    /// identifier `id` and no metadata, traffic or expiry yet.
    pub fn from_legacy(id: u128, legacy: &crate::config::StoredSubscription) -> (s: Self)
        ensures
            s.id == id,
            s.url == legacy.url,
            s.name == legacy.name,
            s.hwid == legacy.hwid,
            s.added_at == legacy.added_at,
            s.last_updated == legacy.last_updated,
            s.is_active == legacy.is_active,
            s.metadata.headers@.len() == 0,
            s.metadata.profile_title is None,
            s.traffic_used is None,
            s.traffic_total is None,
            s.expires_at is None,
    {
        let l = legacy.copy();
        StoredSubscription {
            id,
            url: l.url,
            name: l.name,
            hwid: l.hwid,
            added_at: l.added_at,
            last_updated: l.last_updated,
            is_active: l.is_active,
            metadata: SubscriptionMetadata::default(),
            traffic_used: None,
            traffic_total: None,
            expires_at: None,
        }
    }
}

} // verus!
