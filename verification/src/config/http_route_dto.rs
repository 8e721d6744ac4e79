use crate::config::gateway_dto::SgProtocol;
use vstd::prelude::*;

verus! {

/// A backend as a route names it.
#[derive(Debug)]
pub struct SgBackendRef {
    /// Name or host of the backend.
    pub name_or_host: String,
    /// Namespace of the backend; it follows the host after a dot.
    pub namespace: Option<String>,
    /// Port of the backend; 0 stands for the default of the protocol.
    pub port: u16,
    /// Deadline of a request to this backend, in milliseconds.
    pub timeout_ms: Option<u64>,
    /// Protocol of the backend; http where none is given.
    pub protocol: Option<SgProtocol>,
    /// Share of the traffic that this backend takes.
    pub weight: Option<u16>,
}

/// One rule of a route: where the requests that it matches are sent.
#[derive(Debug)]
pub struct SgHttpRouteRule {
    /// The backends that requests are forwarded to.
    pub backends: Option<Vec<SgBackendRef>>,
    /// Deadline of a request under this rule, in milliseconds.
    pub timeout_ms: Option<u64>,
}

/// The names of the backends of one rule, in their order.
pub open spec fn spec_rule_backend_names(rule: SgHttpRouteRule) -> Seq<Seq<char>> {
    match rule.backends {
        Some(backends) => Seq::new(backends.len() as nat, |i: int| backends[i].name_or_host@),
        None => Seq::empty(),
    }
}

/// The names of the backends of `rules`, rule by rule and in their order.
/// A backend that several rules name occurs once for each.
pub open spec fn spec_backend_names(rules: Seq<SgHttpRouteRule>) -> Seq<Seq<char>>
    decreases rules.len(),
{
    if rules.len() == 0 {
        Seq::empty()
    } else {
        spec_backend_names(rules.drop_last()) + spec_rule_backend_names(rules.last())
    }
}

/// Every backend of every rule is among the names, and nothing else is.
pub proof fn lemma_backend_names(rules: Seq<SgHttpRouteRule>)
    ensures
        forall|name: Seq<char>|
            spec_backend_names(rules).contains(name) <==> exists|r: int, b: int|
                0 <= r < rules.len() && 0 <= b < spec_rule_backend_names(rules[r]).len()
                    && #[trigger] spec_rule_backend_names(rules[r])[b] == name,
    decreases rules.len(),
{
    if rules.len() == 0 {
    } else {
        let front = rules.drop_last();
        let last = spec_rule_backend_names(rules.last());
        let all = spec_backend_names(rules);
        lemma_backend_names(front);
        assert forall|name: Seq<char>| all.contains(name) implies exists|r: int, b: int|
            0 <= r < rules.len() && 0 <= b < spec_rule_backend_names(rules[r]).len()
                && #[trigger] spec_rule_backend_names(rules[r])[b] == name by {
            let i = all.index_of(name);
            if i < spec_backend_names(front).len() {
                assert(spec_backend_names(front)[i] == name);
                assert(spec_backend_names(front).contains(name));
                let (r, b) = choose|r: int, b: int|
                    0 <= r < front.len() && 0 <= b < spec_rule_backend_names(front[r]).len()
                        && #[trigger] spec_rule_backend_names(front[r])[b] == name;
                assert(front[r] == rules[r]);
                assert(spec_rule_backend_names(rules[r])[b] == name);
            } else {
                let b = i - spec_backend_names(front).len();
                assert(spec_rule_backend_names(rules[rules.len() - 1])[b] == name);
            }
        }
        assert forall|name: Seq<char>|
            (exists|r: int, b: int|
                0 <= r < rules.len() && 0 <= b < spec_rule_backend_names(rules[r]).len()
                    && #[trigger] spec_rule_backend_names(rules[r])[b] == name) implies all.contains(
            name,
        ) by {
            let (r, b) = choose|r: int, b: int|
                0 <= r < rules.len() && 0 <= b < spec_rule_backend_names(rules[r]).len()
                    && #[trigger] spec_rule_backend_names(rules[r])[b] == name;
            if r < front.len() {
                assert(front[r] == rules[r]);
                assert(spec_rule_backend_names(front[r])[b] == name);
                assert(spec_backend_names(front).contains(name));
                let i = spec_backend_names(front).index_of(name);
                assert(all[i] == name);
            } else {
                assert(all[spec_backend_names(front).len() + b] == name);
            }
        }
    }
}

} // verus!
