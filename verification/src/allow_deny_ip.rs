//! Access control by peer address: ordered allow and deny rules.

use vstd::prelude::*;
use crate::route::clone_opt_string;
use crate::text::same_text;

verus! {

/// The kind of an access rule.
#[derive(Clone, Copy, Debug, PartialEq, Eq, Structural)]
pub enum AllowType {
    ALLOWALL,
    DENYALL,
    ALLOW,
    DENY,
}

/// One access rule. `ALLOW` and `DENY` name the peer address they apply to
/// in `value`; `ALLOWALL` and `DENYALL` apply to every peer.
#[derive(Debug, PartialEq, Eq)]
pub struct AllowDenyObject {
    pub limit_type: AllowType,
    pub value: Option<String>,
}

pub struct AllowDenyObjectView {
    pub limit_type: AllowType,
    pub value: Option<Seq<char>>,
}

impl DeepView for AllowDenyObject {
    type V = AllowDenyObjectView;

    open spec fn deep_view(&self) -> AllowDenyObjectView {
        AllowDenyObjectView { limit_type: self.limit_type, value: self.value.deep_view() }
    }
}

impl View for AllowDenyObject {
    type V = AllowDenyObjectView;

    open spec fn view(&self) -> AllowDenyObjectView {
        self.deep_view()
    }
}

impl Clone for AllowDenyObject {
    fn clone(&self) -> (r: Self)
        ensures
            r@ == self@,
    {
        AllowDenyObject { limit_type: self.limit_type, value: clone_opt_string(&self.value) }
    }
}

/// What one rule says about a peer: `Some(true)` admits it, `Some(false)`
/// turns it away, `None` leaves the decision to the rules that follow.
/// A rule for a single address applies only to a peer with exactly that
/// address text; without an address it applies to nobody.
pub open spec fn rule_verdict(rule: AllowDenyObjectView, peer_ip: Seq<char>) -> Option<bool> {
    match rule.limit_type {
        AllowType::ALLOWALL => Some(true),
        AllowType::DENYALL => Some(false),
        AllowType::ALLOW => if rule.value == Some(peer_ip) {
            Some(true)
        } else {
            None
        },
        AllowType::DENY => if rule.value == Some(peer_ip) {
            Some(false)
        } else {
            None
        },
    }
}

/// Whether the rules admit the peer: the first rule with a verdict decides,
/// and a peer that no rule decides on is admitted.
pub open spec fn acl_allows(rules: Seq<AllowDenyObjectView>, peer_ip: Seq<char>) -> bool
    decreases rules.len(),
{
    if rules.len() == 0 {
        true
    } else {
        match rule_verdict(rules[0], peer_ip) {
            Some(v) => v,
            None => acl_allows(rules.drop_first(), peer_ip),
        }
    }
}

/// Admission under an optional rule list; no list admits everyone.
pub open spec fn admits(rules: Option<Seq<AllowDenyObjectView>>, peer_ip: Seq<char>) -> bool {
    match rules {
        Some(list) => acl_allows(list, peer_ip),
        None => true,
    }
}

/// The earliest rule with a verdict decides the admission.
pub proof fn lemma_first_verdict_decides(
    rules: Seq<AllowDenyObjectView>,
    peer_ip: Seq<char>,
    at: int,
)
    requires
        0 <= at < rules.len(),
        rule_verdict(rules[at], peer_ip) is Some,
        forall|j: int| 0 <= j < at ==> rule_verdict(#[trigger] rules[j], peer_ip) is None,
    ensures
        acl_allows(rules, peer_ip) == rule_verdict(rules[at], peer_ip)->Some_0,
    decreases at,
{
    if at > 0 {
        let rest = rules.drop_first();
        assert forall|j: int| 0 <= j < at - 1 implies rule_verdict(
            #[trigger] rest[j],
            peer_ip,
        ) is None by {
        }
        lemma_first_verdict_decides(rest, peer_ip, at - 1);
    }
}

/// A peer on which no rule has a verdict is admitted.
pub proof fn lemma_undecided_is_allowed(rules: Seq<AllowDenyObjectView>, peer_ip: Seq<char>)
    requires
        forall|j: int| 0 <= j < rules.len() ==> rule_verdict(#[trigger] rules[j], peer_ip) is None,
    ensures
        acl_allows(rules, peer_ip),
    decreases rules.len(),
{
    if rules.len() > 0 {
        let rest = rules.drop_first();
        assert forall|j: int| 0 <= j < rest.len() implies rule_verdict(
            #[trigger] rest[j],
            peer_ip,
        ) is None by {
        }
        lemma_undecided_is_allowed(rest, peer_ip);
    }
}

impl AllowDenyObject {
    /// The verdict of this rule on a peer.
    pub fn is_allowed(&self, peer_ip: &str) -> (r: Option<bool>)
        ensures
            r == rule_verdict(self@, peer_ip@),
    {
        match self.limit_type {
            AllowType::ALLOWALL => Some(true),
            AllowType::DENYALL => Some(false),
            AllowType::ALLOW => {
                if self.names(peer_ip) {
                    Some(true)
                } else {
                    None
                }
            },
            AllowType::DENY => {
                if self.names(peer_ip) {
                    Some(false)
                } else {
                    None
                }
            },
        }
    }

    /// Whether the rule carries exactly this peer address.
    fn names(&self, peer_ip: &str) -> (r: bool)
        ensures
            r == (self@.value == Some(peer_ip@)),
    {
        match &self.value {
            Some(v) => same_text(v.as_str(), peer_ip),
            None => false,
        }
    }
}

/// Decides whether the rules admit the peer.
pub fn ip_is_allowed(rules: &Vec<AllowDenyObject>, peer_ip: &str) -> (r: bool)
    ensures
        r == acl_allows(rules.deep_view(), peer_ip@),
{
    let ghost all = rules.deep_view();
    let mut i: usize = 0;
    assert(all.skip(0) =~= all);
    while i < rules.len()
        invariant
            i <= rules.len(),
            all == rules.deep_view(),
            acl_allows(all, peer_ip@) == acl_allows(all.skip(i as int), peer_ip@),
        decreases rules.len() - i,
    {
        let ghost tail = all.skip(i as int);
        assert(tail.drop_first() =~= all.skip(i + 1));
        match rules[i].is_allowed(peer_ip) {
            Some(v) => {
                return v;
            },
            None => {},
        }
        i += 1;
    }
    true
}

/// Decides admission under an optional rule list.
pub fn is_admitted(rules: &Option<Vec<AllowDenyObject>>, peer_ip: &str) -> (r: bool)
    ensures
        r == admits(rules.deep_view(), peer_ip@),
{
    match rules {
        Some(list) => ip_is_allowed(list, peer_ip),
        None => true,
    }
}

} // verus!
