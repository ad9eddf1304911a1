//! Backend registry: an ordered list of routing rules over the model name,
//! first match wins, with a default target when no rule matches.

use vstd::prelude::*;

verus! {

/// Where chat-completion requests go when no rule picks another backend.
pub open spec fn llm_node_target() -> Seq<char> {
    "http://localhost:9000/v1/chat/completions"@
}

/// Where speech requests go.
pub open spec fn tts_node_target() -> Seq<char> {
    "http://localhost:9001/v1/audio/speech"@
}

/// `p` is a prefix of `s`.
pub open spec fn is_prefix_of(p: Seq<char>, s: Seq<char>) -> bool {
    p.len() <= s.len() && s.subrange(0, p.len() as int) == p
}

/// One routing rule: the model names it covers and the target it sends them to.
pub struct RouteRule {
    pub pattern: String,
    /// When set, the model name must equal `pattern`; otherwise `pattern` is a prefix.
    pub exact: bool,
    pub target: String,
}

/// Whether `rule` covers the model name `model`.
pub open spec fn rule_matches(rule: RouteRule, model: Seq<char>) -> bool {
    if rule.exact {
        model == rule.pattern@
    } else {
        is_prefix_of(rule.pattern@, model)
    }
}

/// The target of the first rule that covers `model`, or `default` when none does.
pub open spec fn resolve_in(rules: Seq<RouteRule>, default: Seq<char>, model: Seq<char>) -> Seq<char>
    decreases rules.len(),
{
    if rules.len() == 0 {
        default
    } else if rule_matches(rules[0], model) {
        rules[0].target@
    } else {
        resolve_in(rules.drop_first(), default, model)
    }
}

/// A routing table, fixed once built and shared read-only by all requests.
pub struct BackendRegistry {
    pub rules: Vec<RouteRule>,
    pub default_target: String,
}

impl BackendRegistry {
    pub open spec fn resolve_spec(&self, model: Seq<char>) -> Seq<char> {
        resolve_in(self.rules@, self.default_target@, model)
    }

    /// The chat table in use today: no specific rule, every model goes to the
    /// default chat backend.
    pub fn for_chat() -> (r: BackendRegistry)
        ensures
            r.rules@.len() == 0,
            r.default_target@ == llm_node_target(),
    {
        BackendRegistry { rules: Vec::new(), default_target: String::from_str("http://localhost:9000/v1/chat/completions") }
    }

    /// The speech table: a single backend.
    pub fn for_speech() -> (r: BackendRegistry)
        ensures
            r.rules@.len() == 0,
            r.default_target@ == tts_node_target(),
    {
        BackendRegistry { rules: Vec::new(), default_target: String::from_str("http://localhost:9001/v1/audio/speech") }
    }

    /// Adds a rule after the existing ones, so it is consulted last.
    pub fn add_rule(&mut self, rule: RouteRule)
        ensures
            final(self).rules@ == old(self).rules@.push(rule),
            final(self).default_target == old(self).default_target,
    {
        self.rules.push(rule);
    }

    /// The target for the model name `model`; never fails.
    pub fn resolve(&self, model: &str) -> (r: String)
        ensures
            r@ == self.resolve_spec(model@),
    {
        let n = self.rules.len();
        let mut i: usize = 0;
        assert(self.rules@.subrange(0, n as int) =~= self.rules@);
        while i < n
            invariant
                n == self.rules@.len(),
                i <= n,
                self.resolve_spec(model@) == resolve_in(
                    self.rules@.subrange(i as int, n as int),
                    self.default_target@,
                    model@,
                ),
            decreases n - i,
        {
            let rule = &self.rules[i];
            assert(self.rules@.subrange(i as int, n as int).drop_first() =~= self.rules@.subrange(
                i + 1,
                n as int,
            ));
            if matches_rule(rule, model) {
                return rule.target.clone();
            }
            i += 1;
        }
        assert(self.rules@.subrange(n as int, n as int).len() == 0);
        self.default_target.clone()
    }
}

/// Whether `p` is a prefix of `s`.
pub fn has_prefix(p: &str, s: &str) -> (r: bool)
    ensures
        r == is_prefix_of(p@, s@),
{
    let plen = p.unicode_len();
    let slen = s.unicode_len();
    if plen > slen {
        return false;
    }
    let mut i: usize = 0;
    while i < plen
        invariant
            plen == p@.len(),
            slen == s@.len(),
            plen <= slen,
            i <= plen,
            forall|j: int| 0 <= j < i ==> p@[j] == s@[j],
        decreases plen - i,
    {
        if p.get_char(i) != s.get_char(i) {
            assert(s@.subrange(0, plen as int)[i as int] != p@[i as int]);
            return false;
        }
        i += 1;
    }
    assert(s@.subrange(0, plen as int) =~= p@);
    true
}

/// Whether `s` and `t` hold the same characters.
pub fn same_text(s: &str, t: &str) -> (r: bool)
    ensures
        r == (s@ == t@),
{
    let slen = s.unicode_len();
    let tlen = t.unicode_len();
    if slen != tlen {
        return false;
    }
    let b = has_prefix(s, t);
    assert(t@.subrange(0, slen as int) =~= t@);
    b
}

/// Whether `rule` covers the model name `model`.
pub fn matches_rule(rule: &RouteRule, model: &str) -> (r: bool)
    ensures
        r == rule_matches(*rule, model@),
{
    if rule.exact {
        same_text(rule.pattern.as_str(), model)
    } else {
        has_prefix(rule.pattern.as_str(), model)
    }
}

/// The chat backend for the model name `model`.
pub fn get_llm_target(model: &str) -> (r: String)
    ensures
        r@ == llm_node_target(),
{
    BackendRegistry::for_chat().resolve(model)
}

/// The speech backend.
pub fn get_tts_target() -> (r: String)
    ensures
        r@ == tts_node_target(),
{
    BackendRegistry::for_speech().default_target
}

/// A model name that no rule covers is sent to the default target: resolution
/// is total and a routing miss is never a failure.
pub proof fn lemma_unmatched_model_gets_default(rules: Seq<RouteRule>, default: Seq<char>, model: Seq<char>)
    requires
        forall|i: int| 0 <= i < rules.len() ==> !rule_matches(#[trigger] rules[i], model),
    ensures
        resolve_in(rules, default, model) == default,
    decreases rules.len(),
{
    if rules.len() > 0 {
        assert(!rule_matches(rules[0], model));
        assert forall|i: int| 0 <= i < rules.drop_first().len() implies !rule_matches(
            #[trigger] rules.drop_first()[i],
            model,
        ) by {
            assert(rules.drop_first()[i] == rules[i + 1]);
        }
        lemma_unmatched_model_gets_default(rules.drop_first(), default, model);
    }
}

/// The first rule that covers a model name decides its target, whatever follows.
pub proof fn lemma_first_match_wins(rules: Seq<RouteRule>, default: Seq<char>, model: Seq<char>, k: int)
    requires
        0 <= k < rules.len(),
        rule_matches(rules[k], model),
        forall|i: int| 0 <= i < k ==> !rule_matches(#[trigger] rules[i], model),
    ensures
        resolve_in(rules, default, model) == rules[k].target@,
    decreases k,
{
    if k > 0 {
        assert(!rule_matches(rules[0], model));
        assert forall|i: int| 0 <= i < k - 1 implies !rule_matches(#[trigger] rules.drop_first()[i], model) by {
            assert(rules.drop_first()[i] == rules[i + 1]);
        }
        lemma_first_match_wins(rules.drop_first(), default, model, k - 1);
    }
}

} // verus!
