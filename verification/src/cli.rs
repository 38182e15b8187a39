//! The command-line client's choices: its argument values and how they map
//! onto the library's types, the export targets, and which saved
//! subscriptions a command acts on.

use vstd::prelude::*;
use crate::config::StoredSubscription;
use crate::models::OutputFormat;
use crate::split_tunnel::{SplitTunnelAction as RuleAction, SplitTunnelTarget};
use crate::text::{dec_digits, push_decimal, str_eq};
use crate::uuid::{spec_uuid_parse, uuid_parse};
use crate::api::{NodeWithSubscription, ProxyStatus, StoredSubscription as ApiSubscription};

verus! {

/// What a split-tunnel rule matches, as given on the command line.
#[derive(Debug, Clone, Copy, PartialEq, Eq, Structural)]
pub enum SplitTunnelTargetArg {
    Domain,
    Ip,
    Cidr,
    App,
}

/// Where a split-tunnel rule sends traffic, as given on the command line.
#[derive(Debug, Clone, Copy, PartialEq, Eq, Structural)]
pub enum SplitTunnelActionArg {
    Direct,
    Proxy,
}

/// The rule target an argument names.
pub fn map_target(target: SplitTunnelTargetArg) -> (t: SplitTunnelTarget)
    ensures
        t == match target {
            SplitTunnelTargetArg::Domain => SplitTunnelTarget::Domain,
            SplitTunnelTargetArg::Ip => SplitTunnelTarget::Ip,
            SplitTunnelTargetArg::Cidr => SplitTunnelTarget::Cidr,
            SplitTunnelTargetArg::App => SplitTunnelTarget::App,
        },
{
    match target {
        SplitTunnelTargetArg::Domain => SplitTunnelTarget::Domain,
        SplitTunnelTargetArg::Ip => SplitTunnelTarget::Ip,
        SplitTunnelTargetArg::Cidr => SplitTunnelTarget::Cidr,
        SplitTunnelTargetArg::App => SplitTunnelTarget::App,
    }
}

/// The rule action an argument names.
pub fn map_action(action: SplitTunnelActionArg) -> (a: RuleAction)
    ensures
        a == match action {
            SplitTunnelActionArg::Direct => RuleAction::Direct,
            SplitTunnelActionArg::Proxy => RuleAction::Proxy,
        },
{
    match action {
        SplitTunnelActionArg::Direct => RuleAction::Direct,
        SplitTunnelActionArg::Proxy => RuleAction::Proxy,
    }
}

/// The output format of the `fetch` and `convert` commands.
#[derive(Debug, Clone, Copy, PartialEq, Eq, Structural)]
pub enum OutputFormatArg {
    Clash,
    SingBox,
    V2Ray,
    Raw,
    Json,
    Table,
}

/// The export format of an output argument: JSON and table output are
/// rendered by the client itself and export as raw links.
pub open spec fn spec_arg_to_output_format(arg: OutputFormatArg) -> OutputFormat {
    match arg {
        OutputFormatArg::Clash => OutputFormat::Clash,
        OutputFormatArg::SingBox => OutputFormat::SingBox,
        OutputFormatArg::V2Ray => OutputFormat::V2Ray,
        OutputFormatArg::Raw => OutputFormat::Raw,
        OutputFormatArg::Json => OutputFormat::Raw,
        OutputFormatArg::Table => OutputFormat::Raw,
    }
}

pub fn arg_to_output_format(arg: &OutputFormatArg) -> (f: OutputFormat)
    ensures
        f == spec_arg_to_output_format(*arg),
{
    match arg {
        OutputFormatArg::Clash => OutputFormat::Clash,
        OutputFormatArg::SingBox => OutputFormat::SingBox,
        OutputFormatArg::V2Ray => OutputFormat::V2Ray,
        OutputFormatArg::Raw => OutputFormat::Raw,
        OutputFormatArg::Json => OutputFormat::Raw,
        OutputFormatArg::Table => OutputFormat::Raw,
    }
}

/// The input format hint of the `convert` command.
#[derive(Debug, Clone, Copy, PartialEq, Eq, Structural)]
pub enum FormatHint {
    Base64,
    Clash,
    SingBox,
    Raw,
    Auto,
}

/// The client application an export is meant for.
#[derive(Debug, Clone, Copy, PartialEq, Eq, Structural)]
pub enum ExportTarget {
    Clash,
    ClashMeta,
    SingBox,
    V2RayN,
    V2RayNG,
    Hiddify,
    NekoRay,
    Surge,
    Shadowrocket,
    QuantumultX,
    Loon,
}

/// The export format a client reads and the client's display name.
pub open spec fn spec_export_format(target: ExportTarget) -> (OutputFormat, Seq<char>) {
    match target {
        ExportTarget::Clash => (OutputFormat::Clash, "Clash Meta / mihomo"@),
        ExportTarget::ClashMeta => (OutputFormat::Clash, "Clash Meta / mihomo"@),
        ExportTarget::SingBox => (OutputFormat::SingBox, "sing-box"@),
        ExportTarget::V2RayN => (OutputFormat::V2Ray, "V2RayN"@),
        ExportTarget::V2RayNG => (OutputFormat::V2Ray, "V2RayNG"@),
        ExportTarget::Hiddify => (OutputFormat::SingBox, "Hiddify"@),
        ExportTarget::NekoRay => (OutputFormat::V2Ray, "NekoRay"@),
        ExportTarget::Surge => (OutputFormat::Surge, "Surge"@),
        ExportTarget::Shadowrocket => (OutputFormat::V2Ray, "Shadowrocket"@),
        ExportTarget::QuantumultX => (OutputFormat::QuantumultX, "Quantumult X"@),
        ExportTarget::Loon => (OutputFormat::Loon, "Loon"@),
    }
}

pub fn export_format(target: ExportTarget) -> (r: (OutputFormat, &'static str))
    ensures
        r.0 == spec_export_format(target).0,
        r.1@ == spec_export_format(target).1,
{
    match target {
        ExportTarget::Clash => (OutputFormat::Clash, "Clash Meta / mihomo"),
        ExportTarget::ClashMeta => (OutputFormat::Clash, "Clash Meta / mihomo"),
        ExportTarget::SingBox => (OutputFormat::SingBox, "sing-box"),
        ExportTarget::V2RayN => (OutputFormat::V2Ray, "V2RayN"),
        ExportTarget::V2RayNG => (OutputFormat::V2Ray, "V2RayNG"),
        ExportTarget::Hiddify => (OutputFormat::SingBox, "Hiddify"),
        ExportTarget::NekoRay => (OutputFormat::V2Ray, "NekoRay"),
        ExportTarget::Surge => (OutputFormat::Surge, "Surge"),
        ExportTarget::Shadowrocket => (OutputFormat::V2Ray, "Shadowrocket"),
        ExportTarget::QuantumultX => (OutputFormat::QuantumultX, "Quantumult X"),
        ExportTarget::Loon => (OutputFormat::Loon, "Loon"),
    }
}

/// The daemon control commands.
#[derive(Debug, Clone, Copy, PartialEq, Eq, Structural)]
pub enum DaemonAction {
    Start,
    Stop,
    Status,
}

/// The next step of a daemon command.
#[derive(Debug, Clone, Copy)]
pub enum DaemonStep {
    /// Report this message; the command succeeded.
    Done(&'static str),
    /// The command failed with this message.
    Fail(&'static str),
    /// Start the daemon process, then check its health again.
    Spawn,
    /// Ask the daemon to stop its proxy, end the process, then check again.
    RequestStop,
}

/// What a daemon command does once it knows whether the daemon answers its
/// health check: starting a running daemon, or stopping one that is not
/// running, only says so.
pub fn daemon_first_step(action: DaemonAction, running: bool) -> (s: DaemonStep)
    ensures
        match action {
            DaemonAction::Start => if running {
                s matches DaemonStep::Done(m) && m@ == "ironpassd is already running"@
            } else {
                s is Spawn
            },
            DaemonAction::Stop => if running {
                s is RequestStop
            } else {
                s matches DaemonStep::Done(m) && m@ == "ironpassd is not running"@
            },
            DaemonAction::Status => s matches DaemonStep::Done(m) && m@ == (if running {
                "ironpassd is running"@
            } else {
                "ironpassd is not running"@
            }),
        },
{
    match action {
        DaemonAction::Start => if running {
            DaemonStep::Done("ironpassd is already running")
        } else {
            DaemonStep::Spawn
        },
        DaemonAction::Stop => if running {
            DaemonStep::RequestStop
        } else {
            DaemonStep::Done("ironpassd is not running")
        },
        DaemonAction::Status => if running {
            DaemonStep::Done("ironpassd is running")
        } else {
            DaemonStep::Done("ironpassd is not running")
        },
    }
}

/// How a start or stop ended, from the health check made after it: a
/// started daemon must answer, a stopped one must not.
pub fn daemon_outcome(action: DaemonAction, running_after: bool) -> (s: DaemonStep)
    ensures
        match action {
            DaemonAction::Start => if running_after {
                s matches DaemonStep::Done(m) && m@ == "ironpassd is healthy"@
            } else {
                s matches DaemonStep::Fail(m) && m@ == "ironpassd failed to start"@
            },
            DaemonAction::Stop => if running_after {
                s matches DaemonStep::Fail(m) && m@ == "Failed to stop ironpassd"@
            } else {
                s matches DaemonStep::Done(m) && m@ == "ironpassd stopped"@
            },
            DaemonAction::Status => s matches DaemonStep::Done(m) && m@ == (if running_after {
                "ironpassd is running"@
            } else {
                "ironpassd is not running"@
            }),
        },
{
    match action {
        DaemonAction::Start => if running_after {
            DaemonStep::Done("ironpassd is healthy")
        } else {
            DaemonStep::Fail("ironpassd failed to start")
        },
        DaemonAction::Stop => if running_after {
            DaemonStep::Fail("Failed to stop ironpassd")
        } else {
            DaemonStep::Done("ironpassd stopped")
        },
        DaemonAction::Status => if running_after {
            DaemonStep::Done("ironpassd is running")
        } else {
            DaemonStep::Done("ironpassd is not running")
        },
    }
}

/// The subscription commands.
#[derive(Debug, Clone)]
pub enum SubAction {
    Add { url: String, name: Option<String>, hwid: Option<String> },
    Remove { target: String },
    List { detailed: bool },
    Update { target: Option<String>, hwid: Option<String> },
}

/// The hardware ID commands.
#[derive(Debug, Clone)]
pub enum HwidAction {
    Show,
    Regenerate,
    Info,
    SetValue { value: String },
}

/// The configuration commands.
#[derive(Debug, Clone)]
pub enum ConfigAction {
    Show,
    Reset,
    SetValue { key: String, value: String },
    Paths,
}

/// The split-tunnel rule commands.
#[derive(Debug, Clone)]
pub enum SplitTunnelAction {
    List { node: Option<String> },
    Add { target: SplitTunnelTargetArg, value: String, action: SplitTunnelActionArg, node: Option<String> },
    Update { id: String, target: SplitTunnelTargetArg, value: String, action: SplitTunnelActionArg, node: Option<String> },
    Remove { id: String },
}

/// An optional identifier argument: absent, or parsed as a UUID.
pub fn parse_optional_uuid(value: &Option<String>) -> (r: Result<Option<u128>, String>)
    ensures
        match value {
            None => r matches Ok(None),
            Some(t) => match spec_uuid_parse(t@) {
                Some(id) => r matches Ok(Some(v)) && v == id,
                None => r is Err,
            },
        },
{
    match value {
        None => Ok(None),
        Some(t) => match uuid_parse(t.as_str()) {
            Ok(id) => Ok(Some(id)),
            Err(e) => Err(e),
        },
    }
}

/// The identifiers a split-tunnel command names: the rule it changes and
/// the node it is scoped to.
#[derive(Debug, Clone, Copy, PartialEq, Eq, Structural)]
pub struct SplitTunnelIds {
    pub rule: Option<u128>,
    pub node: Option<u128>,
}

/// Reads the identifiers of a split-tunnel command: `update` and `remove`
/// need a rule UUID (checked first), `list`, `add` and `update` take an
/// optional node UUID.
pub fn split_tunnel_ids(action: &SplitTunnelAction) -> (r: Result<SplitTunnelIds, String>)
    ensures
        match action {
            SplitTunnelAction::List { node } | SplitTunnelAction::Add { node, .. } => match node {
                None => r == Ok::<SplitTunnelIds, String>(SplitTunnelIds { rule: None, node: None }),
                Some(t) => match spec_uuid_parse(t@) {
                    Some(n) => r == Ok::<SplitTunnelIds, String>(SplitTunnelIds { rule: None, node: Some(n) }),
                    None => r is Err,
                },
            },
            SplitTunnelAction::Update { id, node, .. } => match spec_uuid_parse(id@) {
                None => r is Err,
                Some(i) => match node {
                    None => r == Ok::<SplitTunnelIds, String>(SplitTunnelIds { rule: Some(i), node: None }),
                    Some(t) => match spec_uuid_parse(t@) {
                        Some(n) => r == Ok::<SplitTunnelIds, String>(SplitTunnelIds { rule: Some(i), node: Some(n) }),
                        None => r is Err,
                    },
                },
            },
            SplitTunnelAction::Remove { id } => match spec_uuid_parse(id@) {
                None => r is Err,
                Some(i) => r == Ok::<SplitTunnelIds, String>(SplitTunnelIds { rule: Some(i), node: None }),
            },
        },
{
    match action {
        SplitTunnelAction::List { node } | SplitTunnelAction::Add { node, .. } => {
            let n = parse_optional_uuid(node)?;
            Ok(SplitTunnelIds { rule: None, node: n })
        },
        SplitTunnelAction::Update { id, node, .. } => {
            let i = uuid_parse(id.as_str())?;
            let n = parse_optional_uuid(node)?;
            Ok(SplitTunnelIds { rule: Some(i), node: n })
        },
        SplitTunnelAction::Remove { id } => {
            let i = uuid_parse(id.as_str())?;
            Ok(SplitTunnelIds { rule: Some(i), node: None })
        },
    }
}

/// A `proxy --node` target that is a node UUID.
pub fn node_id_from_target(target: &str) -> (r: Option<u128>)
    ensures
        r == spec_uuid_parse(target@),
        forall|id: u128| target@ == #[trigger] crate::uuid::spec_uuid_text(id) ==> r == Some(id),
{
    match uuid_parse(target) {
        Ok(id) => Some(id),
        Err(_) => None,
    }
}

/// Whether a subscription is the one a target names, by URL or name.
pub open spec fn spec_api_names(s: ApiSubscription, target: Seq<char>) -> bool {
    s.url@ == target || (s.name is Some && s.name->0@ == target)
}

/// The message when a target names neither a node nor a subscription.
pub open spec fn spec_target_not_found(target: Seq<char>) -> Seq<char> {
    "Node or subscription not found: "@ + target + ". Provide a node UUID."@
}

/// The subscription a target that is not a node UUID names: the first whose
/// URL or name is the target.
pub fn subscription_for_target(target: &str, subs: &Vec<ApiSubscription>) -> (r: Result<u128, String>)
    ensures
        match r {
            Ok(id) => exists|i: int| #![trigger subs@[i]] 0 <= i < subs@.len() && spec_api_names(subs@[i], target@)
                && subs@[i].id == id && forall|j: int| 0 <= j < i ==> !spec_api_names(#[trigger] subs@[j], target@),
            Err(m) => m@ == spec_target_not_found(target@)
                && forall|j: int| 0 <= j < subs@.len() ==> !spec_api_names(#[trigger] subs@[j], target@),
        },
{
    let mut i: usize = 0;
    while i < subs.len()
        invariant
            i <= subs@.len(),
            forall|j: int| 0 <= j < i ==> !spec_api_names(#[trigger] subs@[j], target@),
        decreases subs@.len() - i,
    {
        let s = &subs[i];
        let named = str_eq(s.url.as_str(), target) || match &s.name {
            Some(n) => str_eq(n.as_str(), target),
            None => false,
        };
        if named {
            return Ok(s.id);
        }
        i = i + 1;
    }
    let mut m = "Node or subscription not found: ".to_owned();
    m.append(target);
    m.append(". Provide a node UUID.");
    Err(m)
}

/// The node a subscription target resolves to: its first node.
pub fn first_node_id(nodes: &Vec<NodeWithSubscription>) -> (r: Result<u128, String>)
    ensures
        nodes@.len() > 0 ==> r == Ok::<u128, String>(nodes@[0].id),
        nodes@.len() == 0 ==> (r matches Err(m) && m@ == "Subscription has no nodes"@),
{
    if nodes.len() > 0 {
        Ok(nodes[0].id)
    } else {
        Err("Subscription has no nodes".to_owned())
    }
}

/// A local listening address line: the label, `127.0.0.1:` and the port.
pub open spec fn spec_listen_line(label: Seq<char>, port: u16) -> Seq<char> {
    label + "127.0.0.1:"@ + dec_digits(port as nat)
}

/// What `proxy` reports once the daemon started the proxy: the node's
/// name, endpoint, protocol and transport when one is selected, then each
/// listening port.
pub open spec fn spec_proxy_started_lines(status: ProxyStatus) -> Seq<Seq<char>> {
    let node_lines = match status.selected_node {
        Some(n) => seq![
            "  Node:      "@ + n.node.name@,
            "  Endpoint:  "@ + n.node.server@ + ":"@ + dec_digits(n.node.port as nat),
            "  Protocol:  "@ + n.node.protocol.spec_debug_name(),
            "  Transport: "@ + n.node.transport.spec_debug_name(),
        ],
        None => Seq::empty(),
    };
    let socks = match status.socks_port { Some(p) => seq![spec_listen_line("  SOCKS5:    "@, p)], None => Seq::empty() };
    let http = match status.http_port { Some(p) => seq![spec_listen_line("  HTTP:      "@, p)], None => Seq::empty() };
    let mixed = match status.mixed_port { Some(p) => seq![spec_listen_line("  Mixed:     "@, p)], None => Seq::empty() };
    seq!["Proxy started"@] + node_lines + socks + http + mixed
}

fn listen_line(label: &str, port: u16) -> (s: String)
    ensures
        s@ == spec_listen_line(label@, port),
{
    let mut s = label.to_owned();
    s.append("127.0.0.1:");
    push_decimal(&mut s, port as u64);
    s
}

fn push_line(v: &mut Vec<String>, s: String)
    ensures
        final(v)@.len() == old(v)@.len() + 1,
        forall|i: int| 0 <= i < old(v)@.len() ==> final(v)@[i]@ == old(v)@[i]@,
        final(v)@[old(v)@.len() as int]@ == s@,
{
    v.push(s);
}

/// The lines `proxy` prints after starting the proxy.
pub fn proxy_started_lines(status: &ProxyStatus) -> (v: Vec<String>)
    ensures
        v@.len() == spec_proxy_started_lines(*status).len(),
        forall|i: int| 0 <= i < v@.len() ==> #[trigger] v@[i]@ == spec_proxy_started_lines(*status)[i],
{
    let mut v: Vec<String> = Vec::new();
    let ghost mut want: Seq<Seq<char>> = seq!["Proxy started"@];
    push_line(&mut v, "Proxy started".to_owned());
    match &status.selected_node {
        Some(n) => {
            let mut a = "  Node:      ".to_owned();
            a.append(n.node.name.as_str());
            push_line(&mut v, a);
            let mut b = "  Endpoint:  ".to_owned();
            b.append(n.node.server.as_str());
            b.append(":");
            push_decimal(&mut b, n.node.port as u64);
            push_line(&mut v, b);
            let mut c = "  Protocol:  ".to_owned();
            c.append(n.node.protocol.debug_name());
            push_line(&mut v, c);
            let mut d = "  Transport: ".to_owned();
            d.append(n.node.transport.debug_name());
            push_line(&mut v, d);
            proof {
                want = want + seq![
                    "  Node:      "@ + n.node.name@,
                    "  Endpoint:  "@ + n.node.server@ + ":"@ + dec_digits(n.node.port as nat),
                    "  Protocol:  "@ + n.node.protocol.spec_debug_name(),
                    "  Transport: "@ + n.node.transport.spec_debug_name(),
                ];
            }
        },
        None => {},
    }
    match status.socks_port {
        Some(p) => {
            push_line(&mut v, listen_line("  SOCKS5:    ", p));
            proof { want = want.push(spec_listen_line("  SOCKS5:    "@, p)); }
        },
        None => {},
    }
    match status.http_port {
        Some(p) => {
            push_line(&mut v, listen_line("  HTTP:      ", p));
            proof { want = want.push(spec_listen_line("  HTTP:      "@, p)); }
        },
        None => {},
    }
    match status.mixed_port {
        Some(p) => {
            push_line(&mut v, listen_line("  Mixed:     ", p));
            proof { want = want.push(spec_listen_line("  Mixed:     "@, p)); }
        },
        None => {},
    }
    proof {
        assert(want =~= spec_proxy_started_lines(*status));
        assert forall|i: int| 0 <= i < v@.len() implies #[trigger] v@[i]@ == want[i] by {}
    }
    v
}

/// Whether a saved subscription is the one a command names: by URL or by
/// display name.
pub open spec fn spec_names_subscription(s: StoredSubscription, target: Seq<char>) -> bool {
    s.url@ == target || (s.name is Some && s.name->0@ == target)
}

/// The subscriptions `sub update` re-fetches: those named by the target,
/// or every active one when no target is given.
pub open spec fn spec_update_selected(s: StoredSubscription, target: Option<Seq<char>>) -> bool {
    match target {
        Some(t) => spec_names_subscription(s, t),
        None => s.is_active,
    }
}

fn names_subscription(s: &StoredSubscription, target: &str) -> (r: bool)
    ensures
        r == spec_names_subscription(*s, target@),
{
    str_eq(s.url.as_str(), target) || match &s.name {
        Some(n) => str_eq(n.as_str(), target),
        None => false,
    }
}

/// The saved subscriptions that `sub update` acts on, in their saved order.
pub fn subscriptions_to_update(subs: &Vec<StoredSubscription>, target: Option<&str>) -> (v: Vec<StoredSubscription>)
    ensures
        v@ == subs@.filter(|s: StoredSubscription| spec_update_selected(s, match target { Some(t) => Some(t@), None => None })),
{
    let ghost t = match target { Some(t) => Some(t@), None => None::<Seq<char>> };
    let ghost pred = |s: StoredSubscription| spec_update_selected(s, t);
    let mut v: Vec<StoredSubscription> = Vec::new();
    let n = subs.len();
    let mut i: usize = 0;
    while i < n
        invariant
            n == subs@.len(),
            i <= n,
            t == match target { Some(t) => Some(t@), None => None::<Seq<char>> },
            pred == (|s: StoredSubscription| spec_update_selected(s, t)),
            v@ == subs@.take(i as int).filter(pred),
        decreases n - i,
    {
        proof {
            assert(subs@.take(i + 1).drop_last() =~= subs@.take(i as int));
            reveal_with_fuel(Seq::filter, 1);
        }
        let chosen = match target {
            Some(t) => names_subscription(&subs[i], t),
            None => subs[i].is_active,
        };
        if chosen {
            v.push(subs[i].copy());
        }
        i = i + 1;
    }
    proof {
        assert(subs@.take(n as int) =~= subs@);
        assert(pred =~= (|s: StoredSubscription| spec_update_selected(s, match target { Some(t) => Some(t@), None => None })));
    }
    v
}

} // verus!
