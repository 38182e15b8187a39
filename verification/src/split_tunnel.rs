//! Split-tunnel (selective routing) rules: their kinds, text forms,
//! validation, and the daemon's in-memory list of rules.

use vstd::prelude::*;
use crate::api::ApiError;
use crate::text::{spec_contains, spec_is_blank, str_eq};

verus! {

/// What a rule matches.
#[derive(Debug, Clone, Copy, PartialEq, Eq, Structural)]
pub enum SplitTunnelTarget {
    Domain,
    Ip,
    Cidr,
    App,
}

/// Where matching traffic goes.
#[derive(Debug, Clone, Copy, PartialEq, Eq, Structural)]
pub enum SplitTunnelAction {
    Direct,
    Proxy,
}

/// A split-tunnel rule; times are Unix milliseconds.
#[derive(Debug, Clone)]
pub struct SplitTunnelRule {
    pub id: u128,
    pub target: SplitTunnelTarget,
    pub value: String,
    pub action: SplitTunnelAction,
    pub node_id: Option<u128>,
    pub created_at: i64,
    pub updated_at: i64,
}

impl SplitTunnelRule {
    /// A new rule with identifier `id`, created and updated at `now`.
    pub fn new(
        id: u128,
        target: SplitTunnelTarget,
        value: String,
        action: SplitTunnelAction,
        node_id: Option<u128>,
        now: i64,
    ) -> (r: Self)
        ensures
            r.id == id,
            r.target == target,
            r.value == value,
            r.action == action,
            r.node_id == node_id,
            r.created_at == now,
            r.updated_at == now,
    {
        SplitTunnelRule { id, target, value, action, node_id, created_at: now, updated_at: now }
    }

    /// A copy of the rule.
    pub fn copy(&self) -> (r: Self)
        ensures
            r == *self,
    {
        SplitTunnelRule {
            id: self.id,
            target: self.target,
            value: self.value.clone(),
            action: self.action,
            node_id: self.node_id,
            created_at: self.created_at,
            updated_at: self.updated_at,
        }
    }
}

pub open spec fn spec_target_text(t: SplitTunnelTarget) -> Seq<char> {
    match t {
        SplitTunnelTarget::Domain => "domain"@,
        SplitTunnelTarget::Ip => "ip"@,
        SplitTunnelTarget::Cidr => "cidr"@,
        SplitTunnelTarget::App => "app"@,
    }
}

/// The stored text of a target.
pub fn target_to_string(target: SplitTunnelTarget) -> (s: String)
    ensures
        s@ == spec_target_text(target),
{
    let t: &str = match target {
        SplitTunnelTarget::Domain => "domain",
        SplitTunnelTarget::Ip => "ip",
        SplitTunnelTarget::Cidr => "cidr",
        SplitTunnelTarget::App => "app",
    };
    t.to_owned()
}

/// Reads a stored target; unknown text reads as a domain rule.
pub open spec fn spec_parse_target(s: Seq<char>) -> SplitTunnelTarget {
    if s == "ip"@ {
        SplitTunnelTarget::Ip
    } else if s == "cidr"@ {
        SplitTunnelTarget::Cidr
    } else if s == "app"@ {
        SplitTunnelTarget::App
    } else {
        SplitTunnelTarget::Domain
    }
}

pub fn parse_target(s: &str) -> (t: SplitTunnelTarget)
    ensures
        t == spec_parse_target(s@),
{
    if str_eq(s, "ip") {
        SplitTunnelTarget::Ip
    } else if str_eq(s, "cidr") {
        SplitTunnelTarget::Cidr
    } else if str_eq(s, "app") {
        SplitTunnelTarget::App
    } else {
        SplitTunnelTarget::Domain
    }
}

pub open spec fn spec_action_text(a: SplitTunnelAction) -> Seq<char> {
    match a {
        SplitTunnelAction::Direct => "direct"@,
        SplitTunnelAction::Proxy => "proxy"@,
    }
}

/// The stored text of an action.
pub fn action_to_string(action: SplitTunnelAction) -> (s: String)
    ensures
        s@ == spec_action_text(action),
{
    let t: &str = match action {
        SplitTunnelAction::Direct => "direct",
        SplitTunnelAction::Proxy => "proxy",
    };
    t.to_owned()
}

/// Reads a stored action; unknown text reads as `direct`.
pub open spec fn spec_parse_action(s: Seq<char>) -> SplitTunnelAction {
    if s == "proxy"@ { SplitTunnelAction::Proxy } else { SplitTunnelAction::Direct }
}

pub fn parse_action(s: &str) -> (a: SplitTunnelAction)
    ensures
        a == spec_parse_action(s@),
{
    if str_eq(s, "proxy") { SplitTunnelAction::Proxy } else { SplitTunnelAction::Direct }
}

/// Whether `str::parse::<ipnet::IpNet>` accepts the text.
pub uninterp spec fn spec_ipnet_parses(s: Seq<char>) -> bool;

/// Parses a network with `ipnet::IpNet`'s `FromStr`. Its grammar (an
/// address, `/`, a prefix length in range) is named, not stated, beyond the
/// `/` that every accepted text holds.
#[verifier::external_body]
pub(crate) fn ipnet_parses(s: &str) -> (r: bool)
    ensures
        r == spec_ipnet_parses(s@),
        r ==> spec_contains(s@, "/"@),
{
    s.parse::<ipnet::IpNet>().is_ok()
}

/// Whether a rule value is accepted: never blank; an IP rule needs an IP
/// address and a CIDR rule a network.
pub open spec fn spec_rule_error(target: SplitTunnelTarget, value: Seq<char>) -> Option<Seq<char>> {
    if spec_is_blank(value) {
        Some("Rule value cannot be empty"@)
    } else if target == SplitTunnelTarget::Ip && !crate::net::spec_is_ip_addr(value) {
        Some("Invalid IP address: "@ + value)
    } else if target == SplitTunnelTarget::Cidr && !spec_ipnet_parses(value) {
        Some("Invalid CIDR: "@ + value)
    } else {
        None
    }
}

/// Checks a rule value.
pub fn validate_rule(target: SplitTunnelTarget, value: &str) -> (r: Result<(), ApiError>)
    ensures
        match spec_rule_error(target, value@) {
            None => r is Ok,
            Some(m) => r matches Err(ApiError::Anyhow(em)) && em@ == m,
        },
{
    if crate::text::is_blank(value) {
        return Err(ApiError::Anyhow("Rule value cannot be empty".to_owned()));
    }
    match target {
        SplitTunnelTarget::Ip => {
            if !crate::net::is_ip_addr(value) {
                let mut m = "Invalid IP address: ".to_owned();
                m.append(value);
                return Err(ApiError::Anyhow(m));
            }
        },
        SplitTunnelTarget::Cidr => {
            if !ipnet_parses(value) {
                let mut m = "Invalid CIDR: ".to_owned();
                m.append(value);
                return Err(ApiError::Anyhow(m));
            }
        },
        _ => {},
    }
    Ok(())
}

/// The daemon's list of rules, in the order they were added.
pub struct RuleStore {
    pub rules: Vec<SplitTunnelRule>,
}

/// The rules left after removing those with identifier `id`, in order.
pub open spec fn spec_without(s: Seq<SplitTunnelRule>, id: u128) -> Seq<SplitTunnelRule> {
    s.filter(|r: SplitTunnelRule| r.id != id)
}

/// The position of the first rule with identifier `id`.
pub open spec fn spec_position(s: Seq<SplitTunnelRule>, id: u128) -> Option<int> {
    if exists|i: int| 0 <= i < s.len() && s[i].id == id {
        Some(choose|i: int| 0 <= i < s.len() && s[i].id == id && forall|j: int| 0 <= j < i ==> s[j].id != id)
    } else {
        None
    }
}

impl RuleStore {
    pub fn new() -> (s: Self)
        ensures
            s.rules@.len() == 0,
    {
        RuleStore { rules: Vec::new() }
    }

    /// Validates and adds a new rule at the end of the list.
    pub fn add_rule(
        &mut self,
        id: u128,
        target: SplitTunnelTarget,
        value: String,
        action: SplitTunnelAction,
        node_id: Option<u128>,
        now: i64,
    ) -> (r: Result<SplitTunnelRule, ApiError>)
        ensures
            match spec_rule_error(target, value@) {
                None => r matches Ok(rule) && rule == SplitTunnelRule {
                    id, target, value, action, node_id, created_at: now, updated_at: now,
                } && final(self).rules@ == old(self).rules@.push(rule),
                Some(m) => r matches Err(ApiError::Anyhow(em)) && em@ == m
                    && final(self).rules@ == old(self).rules@,
            },
    {
        match validate_rule(target, value.as_str()) {
            Ok(()) => {},
            Err(e) => {
                return Err(e);
            },
        }
        let rule = SplitTunnelRule::new(id, target, value, action, node_id, now);
        let out = rule.copy();
        self.rules.push(rule);
        Ok(out)
    }

    #[verifier::loop_isolation(false)]
    /// Validates and applies an update to `existing`, the stored rule with
    /// identifier `id` (`None` when there is none). The updated rule takes
    /// the place of the first rule with that identifier in the list, or is
    /// added at the end when the list has none.
    pub fn update_rule(
        &mut self,
        id: u128,
        existing: Option<SplitTunnelRule>,
        target: SplitTunnelTarget,
        value: String,
        action: SplitTunnelAction,
        node_id: Option<u128>,
        now: i64,
    ) -> (r: Result<SplitTunnelRule, ApiError>)
        ensures
            match spec_rule_error(target, value@) {
                Some(m) => r matches Err(ApiError::Anyhow(em)) && em@ == m
                    && final(self).rules@ == old(self).rules@,
                None => match existing {
                    None => r matches Err(ApiError::NotFound(em))
                        && em@ == "Rule "@ + crate::uuid::spec_uuid_text(id) + " not found"@
                        && final(self).rules@ == old(self).rules@,
                    Some(e) => r matches Ok(rule) && rule == (SplitTunnelRule {
                        target, value, action, node_id, updated_at: now, ..e
                    }) && match spec_position(old(self).rules@, id) {
                        Some(i) => final(self).rules@ == old(self).rules@.update(i, rule),
                        None => final(self).rules@ == old(self).rules@.push(rule),
                    },
                },
            },
    {
        match validate_rule(target, value.as_str()) {
            Ok(()) => {},
            Err(e) => {
                return Err(e);
            },
        }
        let mut updated = match existing {
            Some(e) => e,
            None => {
                let mut m = "Rule ".to_owned();
                let t = crate::uuid::uuid_to_string(id);
                m.append(t.as_str());
                m.append(" not found");
                return Err(ApiError::NotFound(m));
            },
        };
        updated.target = target;
        updated.value = value;
        updated.action = action;
        updated.node_id = node_id;
        updated.updated_at = now;
        let out = updated.copy();
        let n = self.rules.len();
        let mut i: usize = 0;
        while i < n
            invariant
                n == self.rules@.len(),
                self.rules@ == old(self).rules@,
                i <= n,
                forall|j: int| 0 <= j < i ==> self.rules@[j].id != id,
            decreases n - i,
        {
            if self.rules[i].id == id {
                proof {
                    let s = old(self).rules@;
                    assert(exists|k: int| 0 <= k < s.len() && s[k].id == id);
                    assert(0 <= i < s.len() && s[i as int].id == id && forall|j: int| 0 <= j < i ==> s[j].id != id);
                    let p = spec_position(s, id).unwrap();
                    if p < i {
                        assert(s[p].id != id);
                    }
                    if p > i {
                        assert(s[i as int].id == id);
                    }
                    assert(p == i);
                }
                self.rules.set(i, updated);
                return Ok(out);
            }
            i = i + 1;
        }
        self.rules.push(updated);
        Ok(out)
    }

    /// Removes every rule with identifier `id` when the stored rule was
    /// deleted; otherwise leaves the list as it is.
    pub fn delete_rule(&mut self, id: u128, deleted: bool)
        ensures
            deleted ==> final(self).rules@ == spec_without(old(self).rules@, id),
            !deleted ==> final(self).rules@ == old(self).rules@,
    {
        if !deleted {
            return;
        }
        let mut kept: Vec<SplitTunnelRule> = Vec::new();
        let n = self.rules.len();
        let mut i: usize = 0;
        while i < n
            invariant
                n == self.rules@.len(),
                self.rules@ == old(self).rules@,
                i <= n,
                kept@ == spec_without(self.rules@.subrange(0, i as int), id),
            decreases n - i,
        {
            let ghost pre = self.rules@.subrange(0, i as int);
            proof {
                assert(self.rules@.subrange(0, i + 1).drop_last() =~= pre);
                reveal_with_fuel(Seq::filter, 1);
            }
            if self.rules[i].id != id {
                kept.push(self.rules[i].copy());
            }
            i = i + 1;
        }
        proof {
            assert(self.rules@.subrange(0, n as int) =~= self.rules@);
        }
        self.rules = kept;
    }
}

} // verus!
