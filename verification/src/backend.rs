//! Proxy-core backends (sing-box and Xray-core) and the choice between them.

use vstd::prelude::*;
use crate::ascii::{eq_ignore_ascii_case, str_eq_ignore_ascii_case};
use crate::json::JsonV;
use crate::models::{Protocol, ProxyNode, Security, Transport};
use crate::split_tunnel::SplitTunnelRule;
use crate::{singbox, xray};

verus! {

/// User-selectable backend type.
#[derive(Debug, Clone, Copy, PartialEq, Eq, Structural)]
pub enum BackendType {
    /// Automatically pick the best backend for the node.
    Auto,
    /// Use the sing-box generator.
    SingBox,
    /// Use the Xray-core generator.
    Xray,
}

impl Default for BackendType {
    fn default() -> (t: Self)
        ensures
            t == BackendType::Auto,
    {
        BackendType::Auto
    }
}

impl BackendType {
    pub open spec fn spec_as_str(self) -> Seq<char> {
        match self {
            BackendType::Auto => "auto"@,
            BackendType::SingBox => "sing_box"@,
            BackendType::Xray => "xray"@,
        }
    }

    /// The snake_case identifier used by the CLI and the API.
    pub fn as_str(&self) -> (s: &'static str)
        ensures
            s@ == self.spec_as_str(),
    {
        match self {
            BackendType::Auto => "auto",
            BackendType::SingBox => "sing_box",
            BackendType::Xray => "xray",
        }
    }

    /// The backend a name selects, ignoring case: `auto`; `sing-box`,
    /// `singbox` or `sb`; `xray` or `xray-core`. (Full Unicode lowercasing,
    /// which the name is compared under, agrees with ASCII case folding on
    /// these names.)
    pub open spec fn spec_from_str(s: Seq<char>) -> Option<BackendType> {
        if eq_ignore_ascii_case(s, "auto"@) {
            Some(BackendType::Auto)
        } else if eq_ignore_ascii_case(s, "sing-box"@) || eq_ignore_ascii_case(s, "singbox"@)
            || eq_ignore_ascii_case(s, "sb"@) {
            Some(BackendType::SingBox)
        } else if eq_ignore_ascii_case(s, "xray"@) || eq_ignore_ascii_case(s, "xray-core"@) {
            Some(BackendType::Xray)
        } else {
            None
        }
    }

    /// Parses a backend name; an unknown name is refused with a message.
    pub fn from_str(s: &str) -> (r: Result<BackendType, String>)
        ensures
            match BackendType::spec_from_str(s@) {
                Some(t) => r == Ok::<BackendType, String>(t),
                None => r matches Err(m) && m@ == "Unknown backend type: "@ + s@,
            },
    {
        if str_eq_ignore_ascii_case(s, "auto") {
            Ok(BackendType::Auto)
        } else if str_eq_ignore_ascii_case(s, "sing-box") || str_eq_ignore_ascii_case(s, "singbox")
            || str_eq_ignore_ascii_case(s, "sb") {
            Ok(BackendType::SingBox)
        } else if str_eq_ignore_ascii_case(s, "xray") || str_eq_ignore_ascii_case(s, "xray-core") {
            Ok(BackendType::Xray)
        } else {
            let mut m = "Unknown backend type: ".to_owned();
            m.append(s);
            Err(m)
        }
    }
}

impl core::str::FromStr for BackendType {
    type Err = String;

    fn from_str(s: &str) -> (r: Result<BackendType, String>)
        ensures
            match BackendType::spec_from_str(s@) {
                Some(t) => r == Ok::<BackendType, String>(t),
                None => r matches Err(m) && m@ == "Unknown backend type: "@ + s@,
            },
    {
        BackendType::from_str(s)
    }
}

/// The proxy core behind a process.
#[derive(Debug, Clone, Copy, PartialEq, Eq, Structural)]
pub enum CoreType {
    SingBox,
    Xray,
}

impl Default for CoreType {
    fn default() -> (t: Self)
        ensures
            t == CoreType::SingBox,
    {
        CoreType::SingBox
    }
}

impl CoreType {
    /// Executable names searched for in `PATH`, in order.
    pub open spec fn spec_binary_names(self) -> Seq<Seq<char>> {
        match self {
            CoreType::SingBox => seq!["sing-box"@, "sing-box.exe"@, "sb"@],
            CoreType::Xray => seq!["xray"@, "xray.exe"@],
        }
    }

    pub fn binary_names(&self) -> (v: Vec<&'static str>)
        ensures
            v@.len() == self.spec_binary_names().len(),
            forall|i: int| 0 <= i < v@.len() ==> #[trigger] v@[i]@ == self.spec_binary_names()[i],
    {
        let mut v: Vec<&'static str> = Vec::new();
        match self {
            CoreType::SingBox => {
                v.push("sing-box");
                v.push("sing-box.exe");
                v.push("sb");
            },
            CoreType::Xray => {
                v.push("xray");
                v.push("xray.exe");
            },
        }
        v
    }

    /// The arguments that run the core on a configuration file.
    pub open spec fn spec_run_args(self, config_path: Seq<char>) -> Seq<Seq<char>> {
        match self {
            CoreType::SingBox => seq!["run"@, "-c"@, config_path],
            CoreType::Xray => seq!["run"@, "-config"@, config_path],
        }
    }

    pub fn run_args(&self, config_path: &str) -> (v: Vec<String>)
        ensures
            v@.len() == self.spec_run_args(config_path@).len(),
            forall|i: int| 0 <= i < v@.len() ==> #[trigger] v@[i]@ == self.spec_run_args(config_path@)[i],
    {
        let mut v: Vec<String> = Vec::new();
        v.push("run".to_owned());
        match self {
            CoreType::SingBox => v.push("-c".to_owned()),
            CoreType::Xray => v.push("-config".to_owned()),
        }
        v.push(config_path.to_owned());
        v
    }

    pub open spec fn spec_config_file_prefix(self) -> Seq<char> {
        match self {
            CoreType::SingBox => "sing-box"@,
            CoreType::Xray => "xray"@,
        }
    }

    /// The first part of the generated configuration file's name.
    pub fn config_file_prefix(&self) -> (s: &'static str)
        ensures
            s@ == self.spec_config_file_prefix(),
    {
        match self {
            CoreType::SingBox => "sing-box",
            CoreType::Xray => "xray",
        }
    }

    pub open spec fn spec_core_name(self) -> Seq<char> {
        match self {
            CoreType::SingBox => "sing-box"@,
            CoreType::Xray => "xray-core"@,
        }
    }

    /// The name used in log lines and error messages.
    pub fn core_name(&self) -> (s: &'static str)
        ensures
            s@ == self.spec_core_name(),
    {
        match self {
            CoreType::SingBox => "sing-box",
            CoreType::Xray => "xray-core",
        }
    }

    /// The configuration file name for one start: `{prefix}-{id}.json`.
    pub fn config_file_name(&self, id: &str) -> (s: String)
        ensures
            s@ == self.spec_config_file_prefix() + "-"@ + id@ + ".json"@,
    {
        let mut s = self.config_file_prefix().to_owned();
        s.append("-");
        s.append(id);
        s.append(".json");
        s
    }
}

/// The core name for a core type.
pub fn core_name(core_type: CoreType) -> (s: &'static str)
    ensures
        s@ == core_type.spec_core_name(),
{
    core_type.core_name()
}

/// Whether geoip/geosite assets are available to a backend.
#[derive(Debug, Clone, Copy, PartialEq, Eq, Structural)]
pub struct GeoAssetStatus {
    pub available: bool,
}

impl GeoAssetStatus {
    pub fn new(available: bool) -> (s: Self)
        ensures
            s.available == available,
    {
        GeoAssetStatus { available }
    }
}

/// Whether sing-box can generate a working configuration for a node: its
/// generator builds an outbound for it (VLESS, Trojan and VMess nodes, and
/// Shadowsocks nodes whose credentials split into method and password).
pub open spec fn spec_supports_singbox(node: ProxyNode) -> bool {
    singbox::spec_outbound(node) is Ok
}

/// Returns true if sing-box can generate a working config for this node.
pub fn supports_singbox(node: &ProxyNode) -> (r: bool)
    ensures
        r == spec_supports_singbox(*node),
{
    match node.protocol {
        Protocol::Vless | Protocol::Trojan | Protocol::Vmess => true,
        Protocol::Shadowsocks => singbox::parse_shadowsocks_auth(node).is_ok(),
        _ => false,
    }
}

/// Xray-core serves VLESS and Trojan over XHTTP or SplitHTTP.
pub open spec fn spec_supports_xray(node: ProxyNode) -> bool {
    (node.transport == Transport::Xhttp || node.transport == Transport::Splithttp)
        && (node.protocol == Protocol::Vless || node.protocol == Protocol::Trojan)
}

/// Returns true if Xray-core can generate a working config for this node.
pub fn supports_xray(node: &ProxyNode) -> (r: bool)
    ensures
        r == spec_supports_xray(*node),
{
    let tr = match node.transport {
        Transport::Xhttp | Transport::Splithttp => true,
        _ => false,
    };
    let pr = match node.protocol {
        Protocol::Vless | Protocol::Trojan => true,
        _ => false,
    };
    tr && pr
}

/// Whether a core can serve a node.
pub open spec fn spec_core_supports(core: CoreType, node: ProxyNode) -> bool {
    match core {
        CoreType::SingBox => spec_supports_singbox(node),
        CoreType::Xray => spec_supports_xray(node),
    }
}

/// Port selection for proxy inbounds, shared across all backends.
#[derive(Debug, Clone, Copy, Default)]
pub struct ProxyPorts {
    pub socks: Option<u16>,
    pub http: Option<u16>,
    pub mixed: Option<u16>,
}

/// A generated core configuration together with the local ports it exposes.
#[derive(Debug)]
pub struct GeneratedConfig {
    pub json: crate::json::Json,
    pub socks_port: Option<u16>,
    pub http_port: Option<u16>,
    pub mixed_port: Option<u16>,
}

/// The sing-box backend: its geo asset status and an explicit binary path.
pub struct SingBoxBackend {
    pub geo: GeoAssetStatus,
    pub path: Option<String>,
}

impl SingBoxBackend {
    /// Starts without geo assets and without an explicit path.
    pub fn new() -> (b: Self)
        ensures
            !b.geo.available,
            b.path is None,
    {
        SingBoxBackend { geo: GeoAssetStatus::new(false), path: None }
    }
}

/// The Xray-core backend: its geo asset status and an explicit binary path.
pub struct XrayBackend {
    pub geo: GeoAssetStatus,
    pub path: Option<String>,
}

impl XrayBackend {
    /// Starts assuming geo assets and without an explicit path.
    pub fn new() -> (b: Self)
        ensures
            b.geo.available,
            b.path is None,
    {
        XrayBackend { geo: GeoAssetStatus::new(true), path: None }
    }
}

/// A resolved backend: the core and the geo asset status it generates with.
#[derive(Debug, Clone, Copy, PartialEq, Eq, Structural)]
pub struct BackendSnapshot {
    pub core: CoreType,
    pub geo: GeoAssetStatus,
}

impl BackendSnapshot {
    pub fn geo_asset_status(self) -> (g: GeoAssetStatus)
        ensures
            g == self.geo,
    {
        self.geo
    }

    pub fn core_type(&self) -> (c: CoreType)
        ensures
            c == self.core,
    {
        self.core
    }

    pub fn supports(&self, node: &ProxyNode) -> (r: bool)
        ensures
            r == spec_core_supports(self.core, *node),
    {
        match self.core {
            CoreType::SingBox => supports_singbox(node),
            CoreType::Xray => supports_xray(node),
        }
    }

    pub fn from_sing_box(b: &SingBoxBackend) -> (s: Self)
        ensures
            s.core == CoreType::SingBox,
            s.geo == b.geo,
    {
        BackendSnapshot { core: CoreType::SingBox, geo: b.geo }
    }

    pub fn from_xray(b: &XrayBackend) -> (s: Self)
        ensures
            s.core == CoreType::Xray,
            s.geo == b.geo,
    {
        BackendSnapshot { core: CoreType::Xray, geo: b.geo }
    }
}

/// The backends the daemon can run.
pub struct BackendRegistry {
    pub sing_box: SingBoxBackend,
    pub xray: XrayBackend,
}

/// Whether a node uses one of the transports `Auto` sends to Xray-core.
pub open spec fn spec_xray_transport(node: ProxyNode) -> bool {
    node.transport == Transport::Xhttp || node.transport == Transport::Splithttp
}

/// The core a backend choice resolves to: `Auto` takes Xray-core for
/// XHTTP/SplitHTTP nodes and sing-box for the rest.
pub open spec fn spec_resolve(t: BackendType, node: ProxyNode) -> CoreType {
    match t {
        BackendType::SingBox => CoreType::SingBox,
        BackendType::Xray => CoreType::Xray,
        BackendType::Auto => if spec_xray_transport(node) { CoreType::Xray } else { CoreType::SingBox },
    }
}

impl BackendRegistry {
    /// A registry with default sing-box and Xray-core backends.
    pub fn new() -> (r: Self)
        ensures
            !r.sing_box.geo.available,
            r.xray.geo.available,
            r.sing_box.path is None,
            r.xray.path is None,
    {
        BackendRegistry { sing_box: SingBoxBackend::new(), xray: XrayBackend::new() }
    }

    /// The current geo asset status of the Xray-core backend.
    pub fn xray_geo_status(&self) -> (g: GeoAssetStatus)
        ensures
            g == self.xray.geo,
    {
        self.xray.geo
    }

    /// The current geo asset status of the sing-box backend.
    pub fn sing_box_geo_status(&self) -> (g: GeoAssetStatus)
        ensures
            g == self.sing_box.geo,
    {
        self.sing_box.geo
    }

    /// Records freshly detected geo assets: a backend whose binary was found
    /// takes the status detected next to it; one whose binary was not found
    /// (`None`) keeps its status.
    pub fn refresh_geo_assets(&mut self, xray_detected: Option<GeoAssetStatus>, sing_box_detected: Option<GeoAssetStatus>)
        ensures
            final(self).xray.geo == (match xray_detected { Some(g) => g, None => old(self).xray.geo }),
            final(self).sing_box.geo == (match sing_box_detected { Some(g) => g, None => old(self).sing_box.geo }),
            final(self).xray.path == old(self).xray.path,
            final(self).sing_box.path == old(self).sing_box.path,
    {
        if let Some(g) = xray_detected {
            self.xray.geo = g;
        }
        if let Some(g) = sing_box_detected {
            self.sing_box.geo = g;
        }
    }

    /// Resolves a backend choice to a concrete backend for `node`.
    pub fn resolve(&self, backend_type: BackendType, node: &ProxyNode) -> (b: BackendSnapshot)
        ensures
            b.core == spec_resolve(backend_type, *node),
            b.core == CoreType::Xray ==> b.geo == self.xray.geo,
            b.core == CoreType::SingBox ==> b.geo == self.sing_box.geo,
    {
        match backend_type {
            BackendType::SingBox => BackendSnapshot::from_sing_box(&self.sing_box),
            BackendType::Xray => BackendSnapshot::from_xray(&self.xray),
            BackendType::Auto => {
                let xhttp = match node.transport {
                    Transport::Xhttp | Transport::Splithttp => true,
                    _ => false,
                };
                if xhttp {
                    BackendSnapshot::from_xray(&self.xray)
                } else {
                    BackendSnapshot::from_sing_box(&self.sing_box)
                }
            },
        }
    }
}


/// The ports as the Xray generator takes them.
pub open spec fn xray_ports(ports: ProxyPorts) -> xray::InboundPorts {
    xray::InboundPorts { socks_port: ports.socks, http_port: ports.http, mixed_port: ports.mixed }
}

/// The ports as the sing-box generator takes them.
pub open spec fn singbox_ports(ports: ProxyPorts) -> singbox::InboundPorts {
    singbox::InboundPorts { socks_port: ports.socks, http_port: ports.http, mixed_port: ports.mixed }
}

/// What a backend generates for a node: the configuration document and the
/// exposed (SOCKS, HTTP, mixed) ports, or the reason it cannot. Xray-core
/// takes the split-tunnel rules and the geo asset status into its routing;
/// the sing-box generator uses neither.
pub open spec fn spec_generate(
    core: CoreType,
    geo: GeoAssetStatus,
    node: ProxyNode,
    ports: ProxyPorts,
    rules: Seq<SplitTunnelRule>,
) -> Result<(JsonV, (Option<u16>, Option<u16>, Option<u16>)), Seq<char>> {
    match core {
        CoreType::Xray => match xray::spec_xray_config(node, xray_ports(ports), rules, geo) {
            Ok(j) => Ok((j, xray::spec_ports(xray_ports(ports)))),
            Err(e) => Err(e),
        },
        CoreType::SingBox => match singbox::spec_singbox_config(node, singbox_ports(ports)) {
            Ok(j) => Ok((j, singbox::spec_ports(singbox_ports(ports)))),
            Err(e) => Err(e),
        },
    }
}

/// Runs the generator of `core`.
fn generate_with(
    core: CoreType,
    geo: GeoAssetStatus,
    node: &ProxyNode,
    ports: ProxyPorts,
    rules: &[SplitTunnelRule],
) -> (r: Result<GeneratedConfig, String>)
    ensures
        match r {
            Ok(cfg) => spec_generate(core, geo, *node, ports, rules@)
                == Ok::<(JsonV, (Option<u16>, Option<u16>, Option<u16>)), Seq<char>>((cfg.json.view(), (cfg.socks_port, cfg.http_port, cfg.mixed_port))),
            Err(e) => spec_generate(core, geo, *node, ports, rules@)
                == Err::<(JsonV, (Option<u16>, Option<u16>, Option<u16>)), Seq<char>>(e@),
        },
{
    match core {
        CoreType::Xray => {
            let p = xray::InboundPorts { socks_port: ports.socks, http_port: ports.http, mixed_port: ports.mixed };
            match xray::generate_config(node, p, rules, geo) {
                Ok(cfg) => Ok(GeneratedConfig {
                    json: cfg.json,
                    socks_port: cfg.socks_port,
                    http_port: cfg.http_port,
                    mixed_port: cfg.mixed_port,
                }),
                Err(e) => Err(e),
            }
        },
        CoreType::SingBox => {
            let p = singbox::InboundPorts { socks_port: ports.socks, http_port: ports.http, mixed_port: ports.mixed };
            match singbox::generate_config(node, p) {
                Ok(cfg) => Ok(GeneratedConfig {
                    json: cfg.json,
                    socks_port: cfg.socks_port,
                    http_port: cfg.http_port,
                    mixed_port: cfg.mixed_port,
                }),
                Err(e) => Err(e),
            }
        },
    }
}

impl BackendSnapshot {
    /// Generates the configuration of the resolved core for `node`.
    pub fn generate_config(&self, node: &ProxyNode, ports: ProxyPorts, rules: &[SplitTunnelRule]) -> (r: Result<GeneratedConfig, String>)
        ensures
            match r {
                Ok(cfg) => spec_generate(self.core, self.geo, *node, ports, rules@)
                    == Ok::<(JsonV, (Option<u16>, Option<u16>, Option<u16>)), Seq<char>>((cfg.json.view(), (cfg.socks_port, cfg.http_port, cfg.mixed_port))),
                Err(e) => spec_generate(self.core, self.geo, *node, ports, rules@)
                    == Err::<(JsonV, (Option<u16>, Option<u16>, Option<u16>)), Seq<char>>(e@),
            },
    {
        generate_with(self.core, self.geo, node, ports, rules)
    }
}

/// A proxy-core backend that produces configurations for nodes.
pub trait Backend {
    /// Generates a core configuration for `node`.
    fn generate_config(&self, node: &ProxyNode, ports: ProxyPorts, rules: &[SplitTunnelRule]) -> Result<GeneratedConfig, String>;

    /// The core process this backend runs.
    fn core_type(&self) -> CoreType;

    /// Whether this backend can generate a working configuration for `node`.
    fn supports(&self, node: &ProxyNode) -> bool;

    /// Updates the backend's view of the available geo assets.
    fn set_geo_asset_status(&mut self, status: GeoAssetStatus) {
    }

    /// The configured geo asset status, if any.
    fn geo_asset_status(&self) -> (g: Option<GeoAssetStatus>)
        default_ensures
            g is None,
    {
        None
    }

    /// The explicit binary path, if set.
    fn binary_path(&self) -> (p: Option<&String>)
        default_ensures
            p is None,
    {
        None
    }

    /// Sets the explicit binary path.
    fn set_binary_path(&mut self, path: Option<String>) {
    }
}

impl Backend for BackendSnapshot {
    fn generate_config(&self, node: &ProxyNode, ports: ProxyPorts, rules: &[SplitTunnelRule]) -> (r: Result<GeneratedConfig, String>)
        ensures
            match r {
                Ok(cfg) => spec_generate(self.core, self.geo, *node, ports, rules@)
                    == Ok::<(JsonV, (Option<u16>, Option<u16>, Option<u16>)), Seq<char>>((cfg.json.view(), (cfg.socks_port, cfg.http_port, cfg.mixed_port))),
                Err(e) => spec_generate(self.core, self.geo, *node, ports, rules@)
                    == Err::<(JsonV, (Option<u16>, Option<u16>, Option<u16>)), Seq<char>>(e@),
            },
    {
        generate_with(self.core, self.geo, node, ports, rules)
    }

    fn core_type(&self) -> (c: CoreType)
        ensures
            c == self.core,
    {
        self.core
    }

    fn supports(&self, node: &ProxyNode) -> (r: bool)
        ensures
            r == spec_core_supports(self.core, *node),
    {
        match self.core {
            CoreType::SingBox => supports_singbox(node),
            CoreType::Xray => supports_xray(node),
        }
    }

    fn geo_asset_status(&self) -> (status: Option<GeoAssetStatus>)
        ensures
            status == Some(self.geo),
    {
        Some(self.geo)
    }
}

impl Backend for SingBoxBackend {
    fn generate_config(&self, node: &ProxyNode, ports: ProxyPorts, rules: &[SplitTunnelRule]) -> (r: Result<GeneratedConfig, String>)
        ensures
            match r {
                Ok(cfg) => spec_generate(CoreType::SingBox, self.geo, *node, ports, rules@)
                    == Ok::<(JsonV, (Option<u16>, Option<u16>, Option<u16>)), Seq<char>>((cfg.json.view(), (cfg.socks_port, cfg.http_port, cfg.mixed_port))),
                Err(e) => spec_generate(CoreType::SingBox, self.geo, *node, ports, rules@)
                    == Err::<(JsonV, (Option<u16>, Option<u16>, Option<u16>)), Seq<char>>(e@),
            },
    {
        generate_with(CoreType::SingBox, self.geo, node, ports, rules)
    }

    fn core_type(&self) -> (c: CoreType)
        ensures
            c == CoreType::SingBox,
    {
        CoreType::SingBox
    }

    fn supports(&self, node: &ProxyNode) -> (r: bool)
        ensures
            r == spec_supports_singbox(*node),
    {
        supports_singbox(node)
    }

    fn set_geo_asset_status(&mut self, status: GeoAssetStatus)
        ensures
            final(self).geo == status,
            final(self).path == old(self).path,
    {
        self.geo = status;
    }

    fn geo_asset_status(&self) -> (g: Option<GeoAssetStatus>)
        ensures
            g == Some(self.geo),
    {
        Some(self.geo)
    }

    fn binary_path(&self) -> (p: Option<&String>)
        ensures
            match p {
                Some(q) => self.path == Some(*q),
                None => self.path is None,
            },
    {
        match &self.path {
            Some(q) => Some(q),
            None => None,
        }
    }

    fn set_binary_path(&mut self, path: Option<String>)
        ensures
            final(self).path == path,
            final(self).geo == old(self).geo,
    {
        self.path = path;
    }
}

impl Backend for XrayBackend {
    fn generate_config(&self, node: &ProxyNode, ports: ProxyPorts, rules: &[SplitTunnelRule]) -> (r: Result<GeneratedConfig, String>)
        ensures
            match r {
                Ok(cfg) => spec_generate(CoreType::Xray, self.geo, *node, ports, rules@)
                    == Ok::<(JsonV, (Option<u16>, Option<u16>, Option<u16>)), Seq<char>>((cfg.json.view(), (cfg.socks_port, cfg.http_port, cfg.mixed_port))),
                Err(e) => spec_generate(CoreType::Xray, self.geo, *node, ports, rules@)
                    == Err::<(JsonV, (Option<u16>, Option<u16>, Option<u16>)), Seq<char>>(e@),
            },
    {
        generate_with(CoreType::Xray, self.geo, node, ports, rules)
    }

    fn core_type(&self) -> (c: CoreType)
        ensures
            c == CoreType::Xray,
    {
        CoreType::Xray
    }

    fn supports(&self, node: &ProxyNode) -> (r: bool)
        ensures
            r == spec_supports_xray(*node),
    {
        supports_xray(node)
    }

    fn set_geo_asset_status(&mut self, status: GeoAssetStatus)
        ensures
            final(self).geo == status,
            final(self).path == old(self).path,
    {
        self.geo = status;
    }

    fn geo_asset_status(&self) -> (g: Option<GeoAssetStatus>)
        ensures
            g == Some(self.geo),
    {
        Some(self.geo)
    }

    fn binary_path(&self) -> (p: Option<&String>)
        ensures
            match p {
                Some(q) => self.path == Some(*q),
                None => self.path is None,
            },
    {
        match &self.path {
            Some(q) => Some(q),
            None => None,
        }
    }

    fn set_binary_path(&mut self, path: Option<String>)
        ensures
            final(self).path == path,
            final(self).geo == old(self).geo,
    {
        self.path = path;
    }
}

/// Whether one proxy core is installed, has its geo assets, and which
/// version it reports.
#[derive(Debug, Clone)]
pub struct BackendCapability {
    pub available: bool,
    pub geo_assets_available: bool,
    pub version: Option<String>,
}

/// The capabilities of the installed proxy cores.
#[derive(Debug, Clone)]
pub struct BackendCapabilities {
    pub xray: BackendCapability,
    pub sing_box: BackendCapability,
}

impl BackendCapability {
    /// The capability of a core from where its binary was found (if it
    /// was), the geo assets detected for it, and the version it reported.
    pub fn from_probe(binary: &Option<String>, geo: GeoAssetStatus, version: Option<String>) -> (c: Self)
        ensures
            c.available == binary is Some,
            c.geo_assets_available == geo.available,
            c.version == version,
    {
        BackendCapability { available: binary.is_some(), geo_assets_available: geo.available, version }
    }
}

/// The version a core prints for `version`: its first output line, trimmed.
pub open spec fn spec_version_line(stdout: Seq<char>) -> Option<Seq<char>> {
    if stdout.len() == 0 {
        None
    } else {
        Some(crate::hwid::spec_trim(crate::hwid::spec_strip_cr(crate::split::split_on(stdout, '\n')[0])))
    }
}

/// Reads the version from a core's `version` output.
pub fn version_line(stdout: &str) -> (r: Option<String>)
    ensures
        match r {
            Some(v) => spec_version_line(stdout@) == Some(v@),
            None => spec_version_line(stdout@) is None,
        },
{
    let n = stdout.unicode_len();
    if n == 0 {
        return None;
    }
    let cs = crate::text::str_chars(stdout);
    let parts = crate::split::split_chars(&cs, '\n');
    proof {
        crate::split::lemma_split_nonempty(cs@, '\n');
    }
    let first = crate::hwid::strip_cr(&parts[0]);
    let line = crate::text::string_from_chars(first.as_slice(), 0, first.len());
    proof {
        assert(first@.subrange(0, first@.len() as int) =~= first@);
    }
    Some(crate::hwid::trim(line.as_str()))
}

} // verus!
