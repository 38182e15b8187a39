//! Application configuration, the saved-subscription store and the
//! configuration directories.

use vstd::prelude::*;
use crate::error::Error;
use crate::num::{spec_parse_unsigned_kind, spec_int_error_text, spec_bool_error_text, spec_parse_bool, IntErrorKind};
use crate::text::str_eq;

verus! {

pub const APP_NAME: &'static str = "ironpass";
pub const CONFIG_FILE: &'static str = "config.toml";
pub const SUBSCRIPTIONS_FILE: &'static str = "subscriptions.json";

pub fn default_user_agent() -> (s: String)
    ensures
        s@ == "v2rayN/6.0"@,
{
    "v2rayN/6.0".to_owned()
}

pub fn default_timeout() -> (v: u64)
    ensures
        v == 30,
{
    30
}

pub fn default_max_retries() -> (v: u32)
    ensures
        v == 3,
{
    3
}

pub fn default_auto_update() -> (b: bool)
    ensures
        b,
{
    true
}

pub fn default_update_interval() -> (v: u64)
    ensures
        v == 24,
{
    24
}

pub fn default_enabled() -> (b: bool)
    ensures
        b,
{
    true
}

pub fn default_format() -> (s: String)
    ensures
        s@ == "clash"@,
{
    "clash".to_owned()
}

pub fn default_pretty() -> (b: bool)
    ensures
        b,
{
    true
}

pub fn default_log_level() -> (s: String)
    ensures
        s@ == "info"@,
{
    "info".to_owned()
}

pub fn default_log_file() -> (b: bool)
    ensures
        b,
{
    true
}

#[derive(Debug, Clone)]
pub struct GeneralConfig {
    pub user_agent: String,
    pub timeout_secs: u64,
    pub max_retries: u32,
}

impl Default for GeneralConfig {
    fn default() -> (c: Self)
        ensures
            c.user_agent@ == "v2rayN/6.0"@,
            c.timeout_secs == 30,
            c.max_retries == 3,
    {
        GeneralConfig { user_agent: default_user_agent(), timeout_secs: default_timeout(), max_retries: default_max_retries() }
    }
}

#[derive(Debug, Clone)]
pub struct SubscriptionConfig {
    pub default_url: Option<String>,
    pub auto_update: bool,
    pub update_interval_hours: u64,
    pub proxy: Option<String>,
    /// Extra request headers, as name/value pairs.
    pub extra_headers: Vec<(String, String)>,
}

impl Default for SubscriptionConfig {
    fn default() -> (c: Self)
        ensures
            c.default_url is None,
            c.auto_update,
            c.update_interval_hours == 24,
            c.proxy is None,
            c.extra_headers@.len() == 0,
    {
        SubscriptionConfig {
            default_url: None,
            auto_update: default_auto_update(),
            update_interval_hours: default_update_interval(),
            proxy: None,
            extra_headers: Vec::new(),
        }
    }
}

#[derive(Debug, Clone)]
pub struct HwidConfig {
    pub enabled: bool,
    pub custom_id: Option<String>,
    pub device_model_override: Option<String>,
}

impl Default for HwidConfig {
    fn default() -> (c: Self)
        ensures
            c.enabled,
            c.custom_id is None,
            c.device_model_override is None,
    {
        HwidConfig { enabled: default_enabled(), custom_id: None, device_model_override: None }
    }
}

#[derive(Debug, Clone)]
pub struct OutputConfig {
    pub format: String,
    pub output_file: Option<String>,
    pub pretty: bool,
    pub sort_by: Option<String>,
}

impl Default for OutputConfig {
    fn default() -> (c: Self)
        ensures
            c.format@ == "clash"@,
            c.output_file is None,
            c.pretty,
            c.sort_by is None,
    {
        OutputConfig { format: default_format(), output_file: None, pretty: default_pretty(), sort_by: None }
    }
}

#[derive(Debug, Clone)]
pub struct LoggingConfig {
    pub level: String,
    pub file: bool,
    pub log_dir: Option<String>,
}

impl Default for LoggingConfig {
    fn default() -> (c: Self)
        ensures
            c.level@ == "info"@,
            c.file,
            c.log_dir is None,
    {
        LoggingConfig { level: default_log_level(), file: default_log_file(), log_dir: None }
    }
}

/// The whole configuration file.
#[derive(Debug, Clone)]
pub struct AppConfig {
    pub general: GeneralConfig,
    pub subscription: SubscriptionConfig,
    pub hwid: HwidConfig,
    pub output: OutputConfig,
    pub logging: LoggingConfig,
}

/// The documented defaults of every key.
pub open spec fn spec_is_default(c: AppConfig) -> bool {
    &&& c.general.user_agent@ == "v2rayN/6.0"@
    &&& c.general.timeout_secs == 30
    &&& c.general.max_retries == 3
    &&& c.subscription.default_url is None
    &&& c.subscription.auto_update
    &&& c.subscription.update_interval_hours == 24
    &&& c.subscription.proxy is None
    &&& c.subscription.extra_headers@.len() == 0
    &&& c.hwid.enabled
    &&& c.hwid.custom_id is None
    &&& c.hwid.device_model_override is None
    &&& c.output.format@ == "clash"@
    &&& c.output.output_file is None
    &&& c.output.pretty
    &&& c.output.sort_by is None
    &&& c.logging.level@ == "info"@
    &&& c.logging.file
    &&& c.logging.log_dir is None
}

impl Default for AppConfig {
    fn default() -> (c: Self)
        ensures
            spec_is_default(c),
    {
        AppConfig {
            general: GeneralConfig::default(),
            subscription: SubscriptionConfig::default(),
            hwid: HwidConfig::default(),
            output: OutputConfig::default(),
            logging: LoggingConfig::default(),
        }
    }
}

/// The keys that `config set` accepts.
pub open spec fn spec_known_key(k: Seq<char>) -> bool {
    ||| k == "general.user_agent"@
    ||| k == "general.timeout_secs"@
    ||| k == "general.max_retries"@
    ||| k == "subscription.default_url"@
    ||| k == "subscription.auto_update"@
    ||| k == "subscription.update_interval_hours"@
    ||| k == "subscription.proxy"@
    ||| k == "hwid.enabled"@
    ||| k == "hwid.custom_id"@
    ||| k == "hwid.device_model_override"@
    ||| k == "output.format"@
    ||| k == "output.pretty"@
    ||| k == "output.sort_by"@
    ||| k == "logging.level"@
    ||| k == "logging.file"@
}

/// The message `config set key value` fails with, if any: an unknown key,
/// or a value that does not parse as the key's type.
pub open spec fn spec_set_error(k: Seq<char>, v: Seq<char>) -> Option<Seq<char>> {
    if k == "general.timeout_secs"@ || k == "subscription.update_interval_hours"@ {
        match spec_parse_unsigned_kind(v, 0xffff_ffff_ffff_ffff) {
            Ok(_) => None,
            Err(e) => Some(spec_int_error_text(e)),
        }
    } else if k == "general.max_retries"@ {
        match spec_parse_unsigned_kind(v, 0xffff_ffff) {
            Ok(_) => None,
            Err(e) => Some(spec_int_error_text(e)),
        }
    } else if k == "subscription.auto_update"@ || k == "hwid.enabled"@ || k == "output.pretty"@
        || k == "logging.file"@ {
        match spec_parse_bool(v) {
            Some(_) => None,
            None => Some(spec_bool_error_text()),
        }
    } else if spec_known_key(k) {
        None
    } else {
        Some("Unknown config key: "@ + k)
    }
}

/// The effect of a successful `config set key value` on the configuration
/// `c` giving `n`: the named key takes the value, parsed as the key's type;
/// every other key keeps its value.
pub open spec fn spec_set_applied(c: AppConfig, n: AppConfig, k: Seq<char>, v: Seq<char>) -> bool {
    if k == "general.user_agent"@ {
        n.general.user_agent@ == v
            && n == (AppConfig { general: GeneralConfig { user_agent: n.general.user_agent, ..c.general }, ..c })
    } else if k == "general.timeout_secs"@ {
        spec_parse_unsigned_kind(v, 0xffff_ffff_ffff_ffff) == Ok::<nat, IntErrorKind>(n.general.timeout_secs as nat)
            && n == (AppConfig { general: GeneralConfig { timeout_secs: n.general.timeout_secs, ..c.general }, ..c })
    } else if k == "general.max_retries"@ {
        spec_parse_unsigned_kind(v, 0xffff_ffff) == Ok::<nat, IntErrorKind>(n.general.max_retries as nat)
            && n == (AppConfig { general: GeneralConfig { max_retries: n.general.max_retries, ..c.general }, ..c })
    } else if k == "subscription.default_url"@ {
        n.subscription.default_url matches Some(u) && u@ == v
            && n == (AppConfig { subscription: SubscriptionConfig { default_url: n.subscription.default_url, ..c.subscription }, ..c })
    } else if k == "subscription.auto_update"@ {
        spec_parse_bool(v) == Some(n.subscription.auto_update)
            && n == (AppConfig { subscription: SubscriptionConfig { auto_update: n.subscription.auto_update, ..c.subscription }, ..c })
    } else if k == "subscription.update_interval_hours"@ {
        spec_parse_unsigned_kind(v, 0xffff_ffff_ffff_ffff) == Ok::<nat, IntErrorKind>(n.subscription.update_interval_hours as nat)
            && n == (AppConfig { subscription: SubscriptionConfig { update_interval_hours: n.subscription.update_interval_hours, ..c.subscription }, ..c })
    } else if k == "subscription.proxy"@ {
        n.subscription.proxy matches Some(u) && u@ == v
            && n == (AppConfig { subscription: SubscriptionConfig { proxy: n.subscription.proxy, ..c.subscription }, ..c })
    } else if k == "hwid.enabled"@ {
        spec_parse_bool(v) == Some(n.hwid.enabled)
            && n == (AppConfig { hwid: HwidConfig { enabled: n.hwid.enabled, ..c.hwid }, ..c })
    } else if k == "hwid.custom_id"@ {
        n.hwid.custom_id matches Some(u) && u@ == v
            && n == (AppConfig { hwid: HwidConfig { custom_id: n.hwid.custom_id, ..c.hwid }, ..c })
    } else if k == "hwid.device_model_override"@ {
        n.hwid.device_model_override matches Some(u) && u@ == v
            && n == (AppConfig { hwid: HwidConfig { device_model_override: n.hwid.device_model_override, ..c.hwid }, ..c })
    } else if k == "output.format"@ {
        n.output.format@ == v
            && n == (AppConfig { output: OutputConfig { format: n.output.format, ..c.output }, ..c })
    } else if k == "output.pretty"@ {
        spec_parse_bool(v) == Some(n.output.pretty)
            && n == (AppConfig { output: OutputConfig { pretty: n.output.pretty, ..c.output }, ..c })
    } else if k == "output.sort_by"@ {
        n.output.sort_by matches Some(u) && u@ == v
            && n == (AppConfig { output: OutputConfig { sort_by: n.output.sort_by, ..c.output }, ..c })
    } else if k == "logging.level"@ {
        n.logging.level@ == v
            && n == (AppConfig { logging: LoggingConfig { level: n.logging.level, ..c.logging }, ..c })
    } else if k == "logging.file"@ {
        spec_parse_bool(v) == Some(n.logging.file)
            && n == (AppConfig { logging: LoggingConfig { file: n.logging.file, ..c.logging }, ..c })
    } else {
        false
    }
}

fn parse_u64_msg(v: &str) -> (r: Result<u64, String>)
    ensures
        match r {
            Ok(n) => spec_parse_unsigned_kind(v@, 0xffff_ffff_ffff_ffff) == Ok::<nat, IntErrorKind>(n as nat),
            Err(m) => spec_parse_unsigned_kind(v@, 0xffff_ffff_ffff_ffff) matches Err(e) && m@ == spec_int_error_text(e),
        },
{
    match crate::num::parse_unsigned_kind(v, 0xffff_ffff_ffff_ffff) {
        Ok(n) => Ok(n),
        Err(e) => Err(crate::num::int_error_text(e)),
    }
}

fn parse_bool_msg(v: &str) -> (r: Result<bool, String>)
    ensures
        match r {
            Ok(b) => spec_parse_bool(v@) == Some(b),
            Err(m) => spec_parse_bool(v@) is None && m@ == spec_bool_error_text(),
        },
{
    match crate::num::parse_bool(v) {
        Some(b) => Ok(b),
        None => Err("provided string was not `true` or `false`".to_owned()),
    }
}

/// Sets one configuration key from its text, as `config set` does.
pub fn set_config_value(config: &mut AppConfig, key: &str, value: &str) -> (r: Result<(), String>)
    ensures
        match spec_set_error(key@, value@) {
            None => r is Ok && spec_set_applied(*old(config), *final(config), key@, value@),
            Some(m) => r matches Err(em) && em@ == m && *final(config) == *old(config),
        },
{
    proof {
        reveal_strlit("general.user_agent");
        assert("general.user_agent"@ =~= seq!['g', 'e', 'n', 'e', 'r', 'a', 'l', '.', 'u', 's', 'e', 'r', '_', 'a', 'g', 'e', 'n', 't']);
        reveal_strlit("general.timeout_secs");
        assert("general.timeout_secs"@ =~= seq!['g', 'e', 'n', 'e', 'r', 'a', 'l', '.', 't', 'i', 'm', 'e', 'o', 'u', 't', '_', 's', 'e', 'c', 's']);
        reveal_strlit("general.max_retries");
        assert("general.max_retries"@ =~= seq!['g', 'e', 'n', 'e', 'r', 'a', 'l', '.', 'm', 'a', 'x', '_', 'r', 'e', 't', 'r', 'i', 'e', 's']);
        reveal_strlit("subscription.default_url");
        assert("subscription.default_url"@ =~= seq!['s', 'u', 'b', 's', 'c', 'r', 'i', 'p', 't', 'i', 'o', 'n', '.', 'd', 'e', 'f', 'a', 'u', 'l', 't', '_', 'u', 'r', 'l']);
        reveal_strlit("subscription.auto_update");
        assert("subscription.auto_update"@ =~= seq!['s', 'u', 'b', 's', 'c', 'r', 'i', 'p', 't', 'i', 'o', 'n', '.', 'a', 'u', 't', 'o', '_', 'u', 'p', 'd', 'a', 't', 'e']);
        reveal_strlit("subscription.update_interval_hours");
        assert("subscription.update_interval_hours"@ =~= seq!['s', 'u', 'b', 's', 'c', 'r', 'i', 'p', 't', 'i', 'o', 'n', '.', 'u', 'p', 'd', 'a', 't', 'e', '_', 'i', 'n', 't', 'e', 'r', 'v', 'a', 'l', '_', 'h', 'o', 'u', 'r', 's']);
        reveal_strlit("subscription.proxy");
        assert("subscription.proxy"@ =~= seq!['s', 'u', 'b', 's', 'c', 'r', 'i', 'p', 't', 'i', 'o', 'n', '.', 'p', 'r', 'o', 'x', 'y']);
        reveal_strlit("hwid.enabled");
        assert("hwid.enabled"@ =~= seq!['h', 'w', 'i', 'd', '.', 'e', 'n', 'a', 'b', 'l', 'e', 'd']);
        reveal_strlit("hwid.custom_id");
        assert("hwid.custom_id"@ =~= seq!['h', 'w', 'i', 'd', '.', 'c', 'u', 's', 't', 'o', 'm', '_', 'i', 'd']);
        reveal_strlit("hwid.device_model_override");
        assert("hwid.device_model_override"@ =~= seq!['h', 'w', 'i', 'd', '.', 'd', 'e', 'v', 'i', 'c', 'e', '_', 'm', 'o', 'd', 'e', 'l', '_', 'o', 'v', 'e', 'r', 'r', 'i', 'd', 'e']);
        reveal_strlit("output.format");
        assert("output.format"@ =~= seq!['o', 'u', 't', 'p', 'u', 't', '.', 'f', 'o', 'r', 'm', 'a', 't']);
        reveal_strlit("output.pretty");
        assert("output.pretty"@ =~= seq!['o', 'u', 't', 'p', 'u', 't', '.', 'p', 'r', 'e', 't', 't', 'y']);
        reveal_strlit("output.sort_by");
        assert("output.sort_by"@ =~= seq!['o', 'u', 't', 'p', 'u', 't', '.', 's', 'o', 'r', 't', '_', 'b', 'y']);
        reveal_strlit("logging.level");
        assert("logging.level"@ =~= seq!['l', 'o', 'g', 'g', 'i', 'n', 'g', '.', 'l', 'e', 'v', 'e', 'l']);
        reveal_strlit("logging.file");
        assert("logging.file"@ =~= seq!['l', 'o', 'g', 'g', 'i', 'n', 'g', '.', 'f', 'i', 'l', 'e']);
    }
    if str_eq(key, "general.user_agent") {
        config.general.user_agent = value.to_owned();
    } else if str_eq(key, "general.timeout_secs") {
        match parse_u64_msg(value) {
            Ok(n) => config.general.timeout_secs = n,
            Err(m) => return Err(m),
        }
    } else if str_eq(key, "general.max_retries") {
        match crate::num::parse_unsigned_kind(value, 0xffff_ffff) {
            Ok(n) => config.general.max_retries = n as u32,
            Err(e) => return Err(crate::num::int_error_text(e)),
        }
    } else if str_eq(key, "subscription.default_url") {
        config.subscription.default_url = Some(value.to_owned());
    } else if str_eq(key, "subscription.auto_update") {
        match parse_bool_msg(value) {
            Ok(b) => config.subscription.auto_update = b,
            Err(m) => return Err(m),
        }
    } else if str_eq(key, "subscription.update_interval_hours") {
        match parse_u64_msg(value) {
            Ok(n) => config.subscription.update_interval_hours = n,
            Err(m) => return Err(m),
        }
    } else if str_eq(key, "subscription.proxy") {
        config.subscription.proxy = Some(value.to_owned());
    } else if str_eq(key, "hwid.enabled") {
        match parse_bool_msg(value) {
            Ok(b) => config.hwid.enabled = b,
            Err(m) => return Err(m),
        }
    } else if str_eq(key, "hwid.custom_id") {
        config.hwid.custom_id = Some(value.to_owned());
    } else if str_eq(key, "hwid.device_model_override") {
        config.hwid.device_model_override = Some(value.to_owned());
    } else if str_eq(key, "output.format") {
        config.output.format = value.to_owned();
    } else if str_eq(key, "output.pretty") {
        match parse_bool_msg(value) {
            Ok(b) => config.output.pretty = b,
            Err(m) => return Err(m),
        }
    } else if str_eq(key, "output.sort_by") {
        config.output.sort_by = Some(value.to_owned());
    } else if str_eq(key, "logging.level") {
        config.logging.level = value.to_owned();
    } else if str_eq(key, "logging.file") {
        match parse_bool_msg(value) {
            Ok(b) => config.logging.file = b,
            Err(m) => return Err(m),
        }
    } else {
        let mut m = "Unknown config key: ".to_owned();
        m.append(key);
        return Err(m);
    }
    Ok(())
}

} // verus!

verus! {

/// Whether `target` names a saved subscription: its URL or its name.
pub open spec fn spec_named_by(s: StoredSubscription, target: Seq<char>) -> bool {
    s.url@ == target || (s.name is Some && s.name->0@ == target)
}

/// A saved subscription; times are Unix milliseconds.
#[derive(Debug, Clone)]
pub struct StoredSubscription {
    pub url: String,
    pub name: Option<String>,
    pub added_at: i64,
    pub last_updated: Option<i64>,
    pub hwid: Option<String>,
    pub is_active: bool,
}

impl StoredSubscription {
    pub fn copy(&self) -> (r: Self)
        ensures
            r == *self,
    {
        StoredSubscription {
            url: self.url.clone(),
            name: match &self.name {
                Some(n) => Some(n.clone()),
                None => None,
            },
            added_at: self.added_at,
            last_updated: self.last_updated,
            hwid: match &self.hwid {
                Some(h) => Some(h.clone()),
                None => None,
            },
            is_active: self.is_active,
        }
    }
}

/// The saved subscriptions, in the order they were added.
#[derive(Debug, Clone)]
pub struct SubscriptionsStore {
    pub subscriptions: Vec<StoredSubscription>,
}

/// Whether some saved subscription has this URL.
pub open spec fn spec_has_url(s: Seq<StoredSubscription>, url: Seq<char>) -> bool {
    exists|i: int| 0 <= i < s.len() && s[i].url@ == url
}

/// No URL is saved twice.
pub open spec fn spec_urls_unique(s: Seq<StoredSubscription>) -> bool {
    forall|i: int, j: int| 0 <= i < s.len() && 0 <= j < s.len() && i != j ==> s[i].url@ != s[j].url@
}

impl SubscriptionsStore {
    pub open spec fn wf(&self) -> bool {
        spec_urls_unique(self.subscriptions@)
    }

    pub fn new() -> (s: Self)
        ensures
            s.subscriptions@.len() == 0,
            s.wf(),
    {
        SubscriptionsStore { subscriptions: Vec::new() }
    }

    fn find_url(&self, url: &str) -> (r: Option<usize>)
        ensures
            match r {
                Some(i) => i < self.subscriptions@.len() && self.subscriptions@[i as int].url@ == url@
                    && forall|j: int| 0 <= j < i ==> self.subscriptions@[j].url@ != url@,
                None => !spec_has_url(self.subscriptions@, url@),
            },
    {
        let n = self.subscriptions.len();
        let mut i: usize = 0;
        while i < n
            invariant
                n == self.subscriptions@.len(),
                i <= n,
                forall|j: int| 0 <= j < i ==> self.subscriptions@[j].url@ != url@,
            decreases n - i,
        {
            if str_eq(self.subscriptions[i].url.as_str(), url) {
                return Some(i);
            }
            i = i + 1;
        }
        None
    }

    /// Saves a new active subscription added at `now`; a URL that is
    /// already saved is refused.
    pub fn add_subscription(&mut self, url: &str, name: Option<String>, hwid: Option<String>, now: i64) -> (r: Result<StoredSubscription, Error>)
        ensures
            old(self).wf() ==> final(self).wf(),
            spec_has_url(old(self).subscriptions@, url@) ==> {
                &&& r matches Err(Error::Custom(m)) && m@ == "Subscription already exists"@
                &&& final(self).subscriptions@ == old(self).subscriptions@
            },
            !spec_has_url(old(self).subscriptions@, url@) ==> {
                &&& r matches Ok(saved) && saved.url@ == url@ && saved.name == name && saved.hwid == hwid
                    && saved.added_at == now && saved.last_updated is None && saved.is_active
                    && final(self).subscriptions@ == old(self).subscriptions@.push(saved)
            },
    {
        if self.find_url(url).is_some() {
            return Err(Error::Custom("Subscription already exists".to_owned()));
        }
        let sub = StoredSubscription {
            url: url.to_owned(),
            name,
            added_at: now,
            last_updated: None,
            hwid,
            is_active: true,
        };
        let out = sub.copy();
        self.subscriptions.push(sub);
        proof {
            let s = self.subscriptions@;
            if old(self).wf() {
                assert forall|i: int, j: int| 0 <= i < s.len() && 0 <= j < s.len() && i != j implies s[i].url@ != s[j].url@ by {
                    if i == s.len() - 1 {
                        assert(old(self).subscriptions@[j] == s[j]);
                    } else if j == s.len() - 1 {
                        assert(old(self).subscriptions@[i] == s[i]);
                    }
                }
            }
        }
        Ok(out)
    }

    /// Removes the subscriptions that `target` names, by URL or by name,
    /// keeping the others in order.
    pub fn remove_subscription(&mut self, target: &str)
        ensures
            old(self).wf() ==> final(self).wf(),
            final(self).subscriptions@ == old(self).subscriptions@.filter(|s: StoredSubscription| !spec_named_by(s, target@)),
            forall|i: int| 0 <= i < final(self).subscriptions@.len()
                ==> !spec_named_by(#[trigger] final(self).subscriptions@[i], target@),
    {
        let mut kept: Vec<StoredSubscription> = Vec::new();
        let n = self.subscriptions.len();
        let mut i: usize = 0;
        let ghost pred = |s: StoredSubscription| !spec_named_by(s, target@);
        let ghost mut idx: Seq<int> = Seq::empty();
        while i < n
            invariant
                n == self.subscriptions@.len(),
                self.subscriptions@ == old(self).subscriptions@,
                i <= n,
                kept@ == self.subscriptions@.subrange(0, i as int).filter(pred),
                pred == (|s: StoredSubscription| !spec_named_by(s, target@)),
                idx.len() == kept@.len(),
                forall|k: int| 0 <= k < idx.len() ==> 0 <= #[trigger] idx[k] < i
                    && kept@[k] == self.subscriptions@[idx[k]],
                forall|a: int, b: int| 0 <= a < b < idx.len() ==> idx[a] < idx[b],
                forall|k: int| 0 <= k < kept@.len() ==> !spec_named_by(#[trigger] kept@[k], target@),
            decreases n - i,
        {
            proof {
                assert(self.subscriptions@.subrange(0, i + 1).drop_last() =~= self.subscriptions@.subrange(0, i as int));
                reveal_with_fuel(Seq::filter, 1);
            }
            let named = str_eq(self.subscriptions[i].url.as_str(), target) || match &self.subscriptions[i].name {
                Some(nm) => str_eq(nm.as_str(), target),
                None => false,
            };
            if !named {
                kept.push(self.subscriptions[i].copy());
                proof {
                    idx = idx.push(i as int);
                }
            }
            i = i + 1;
        }
        proof {
            assert(self.subscriptions@.subrange(0, n as int) =~= self.subscriptions@);
            let k = kept@;
            if old(self).wf() {
                assert forall|a: int, b: int| 0 <= a < k.len() && 0 <= b < k.len() && a != b implies k[a].url@ != k[b].url@ by {
                    if a < b {
                        assert(idx[a] < idx[b]);
                    } else {
                        assert(idx[b] < idx[a]);
                    }
                }
            }
        }
        self.subscriptions = kept;
    }

    /// Marks the first subscription saved under `url` as updated at `now`;
    /// returns whether there was one.
    pub fn update_subscription_timestamp(&mut self, url: &str, now: i64) -> (found: bool)
        ensures
            old(self).wf() ==> final(self).wf(),
            found == spec_has_url(old(self).subscriptions@, url@),
            !found ==> final(self).subscriptions@ == old(self).subscriptions@,
            found ==> exists|i: int| 0 <= i < old(self).subscriptions@.len()
                && old(self).subscriptions@[i].url@ == url@
                && final(self).subscriptions@ == old(self).subscriptions@.update(
                    i,
                    StoredSubscription { last_updated: Some(now), ..old(self).subscriptions@[i] },
                ),
    {
        match self.find_url(url) {
            Some(i) => {
                let mut s = self.subscriptions[i].copy();
                s.last_updated = Some(now);
                self.subscriptions.set(i, s);
                proof {
                    let t = self.subscriptions@;
                    if old(self).wf() {
                        assert forall|a: int, b: int| 0 <= a < t.len() && 0 <= b < t.len() && a != b implies t[a].url@ != t[b].url@ by {
                            assert(old(self).subscriptions@[a].url@ == t[a].url@);
                            assert(old(self).subscriptions@[b].url@ == t[b].url@);
                        }
                    }
                }
                true
            },
            None => false,
        }
    }

    /// The saved subscriptions.
    pub fn list_subscriptions(&self) -> (v: Vec<StoredSubscription>)
        ensures
            v@ == self.subscriptions@,
    {
        let mut v: Vec<StoredSubscription> = Vec::new();
        let n = self.subscriptions.len();
        let mut i: usize = 0;
        while i < n
            invariant
                n == self.subscriptions@.len(),
                i <= n,
                v@ == self.subscriptions@.subrange(0, i as int),
            decreases n - i,
        {
            v.push(self.subscriptions[i].copy());
            i = i + 1;
            proof {
                assert(v@ =~= self.subscriptions@.subrange(0, i as int));
            }
        }
        proof {
            assert(v@ =~= self.subscriptions@);
        }
        v
    }
}

} // verus!

verus! {

/// Where the configuration and the saved subscriptions live.
#[derive(Debug, Clone)]
pub struct ConfigManager {
    pub config_dir: String,
    pub data_dir: String,
}

impl ConfigManager {
    /// `ironpass` under the user's configuration and data directories (or
    /// under `.` where the platform has none).
    pub fn new() -> (m: Self)
        ensures
            exists|c: Seq<char>, d: Seq<char>| m.config_dir@ == crate::paths::spec_join(c, "ironpass"@)
                && m.data_dir@ == crate::paths::spec_join(d, "ironpass"@),
    {
        let c = crate::paths::dir_or_current(crate::paths::dirs_config_dir());
        let d = crate::paths::dir_or_current(crate::paths::dirs_data_dir());
        let config_dir = crate::paths::join(c.as_str(), APP_NAME);
        let data_dir = crate::paths::join(d.as_str(), APP_NAME);
        ConfigManager { config_dir, data_dir }
    }

    pub fn with_dirs(config_dir: String, data_dir: String) -> (m: Self)
        ensures
            m.config_dir == config_dir,
            m.data_dir == data_dir,
    {
        ConfigManager { config_dir, data_dir }
    }

    /// `config.toml` in the configuration directory.
    pub fn config_path(&self) -> (p: String)
        ensures
            p@ == crate::paths::spec_join(self.config_dir@, "config.toml"@),
    {
        crate::paths::join(self.config_dir.as_str(), CONFIG_FILE)
    }

    /// `subscriptions.json` in the data directory.
    pub fn subscriptions_path(&self) -> (p: String)
        ensures
            p@ == crate::paths::spec_join(self.data_dir@, "subscriptions.json"@),
    {
        crate::paths::join(self.data_dir.as_str(), SUBSCRIPTIONS_FILE)
    }

    pub fn config_dir_display(&self) -> (s: String)
        ensures
            s@ == self.config_dir@,
    {
        self.config_dir.clone()
    }

    pub fn data_dir_display(&self) -> (s: String)
        ensures
            s@ == self.data_dir@,
    {
        self.data_dir.clone()
    }
}

/// The manager for `--config DIR` (both kinds of file in `DIR`), or the
/// default directories.
pub fn build_config_manager(config_path: Option<&String>) -> (m: ConfigManager)
    ensures
        config_path matches Some(p) ==> m.config_dir@ == p@ && m.data_dir@ == p@,
        config_path is None ==> exists|c: Seq<char>, d: Seq<char>| m.config_dir@ == crate::paths::spec_join(c, "ironpass"@)
            && m.data_dir@ == crate::paths::spec_join(d, "ironpass"@),
{
    match config_path {
        Some(p) => ConfigManager::with_dirs(p.clone(), p.clone()),
        None => ConfigManager::new(),
    }
}

/// The subscription URL of a command: the given one, else the configured
/// default.
pub fn resolve_url(url: Option<String>, config: &AppConfig) -> (r: Result<String, String>)
    ensures
        match url {
            Some(u) => r == Ok::<String, String>(u),
            None => match config.subscription.default_url {
                Some(d) => r matches Ok(s) && s@ == d@,
                None => r matches Err(m)
                    && m@ == "No subscription URL provided. Pass a URL or set default_url in config."@,
            },
        },
{
    if let Some(u) = url {
        return Ok(u);
    }
    if let Some(d) = &config.subscription.default_url {
        return Ok(d.clone());
    }
    Err("No subscription URL provided. Pass a URL or set default_url in config.".to_owned())
}

} // verus!
