//! The cross-origin policy that the configured origins stand for.
//!
//! Origins are read in the order configured. A wildcard allows every origin
//! and ends the reading; the pattern of browser extensions allows every
//! extension origin; any other entry allows that one origin. Each rule
//! replaces the one before it, so the last rule read is the one in force.

use vstd::prelude::*;
use vstd::string::*;
use crate::text::{has_prefix, same_text};

verus! {

/// What one configured origin allows.
#[derive(Debug)]
pub enum OriginRule {
    /// Every origin.
    Any,
    /// Every origin of a browser extension.
    Extensions,
    /// One origin, letter for letter.
    Exact(String),
}

/// The rule that a configured origin stands for.
pub open spec fn rule_allows(origin: Seq<char>, rule: OriginRule) -> bool {
    if origin == "*"@ {
        rule is Any
    } else if origin == "moz-extension://*"@ {
        rule is Extensions
    } else {
        rule matches OriginRule::Exact(exact) && exact@ == origin
    }
}

/// The number of configured origins that are read: all of them, or those up
/// to and with the first wildcard.
pub open spec fn origins_read(origins: Seq<String>) -> int
    decreases origins.len(),
{
    if origins.len() == 0 {
        0
    } else if origins[0]@ == "*"@ {
        1
    } else {
        1 + origins_read(origins.drop_first())
    }
}

/// Whether `rules` are the rules of the configured origins, in order: one
/// for each origin that is read.
pub open spec fn rules_of(origins: Seq<String>, rules: Seq<OriginRule>) -> bool {
    &&& rules.len() == origins_read(origins)
    &&& rules.len() <= origins.len()
    &&& forall|i: int| 0 <= i < rules.len() ==> rule_allows(origins[i]@, #[trigger] rules[i])
    &&& forall|i: int| 0 <= i < rules.len() - 1 ==> (#[trigger] origins[i])@ != "*"@
    &&& rules.len() < origins.len() ==> rules.len() > 0 && origins[rules.len() - 1]@ == "*"@
}

/// The rule of one configured origin.
pub fn origin_rule(origin: &str) -> (rule: OriginRule)
    ensures
        rule_allows(origin@, rule),
{
    if same_text(origin, "*") {
        OriginRule::Any
    } else if same_text(origin, "moz-extension://*") {
        OriginRule::Extensions
    } else {
        OriginRule::Exact(origin.to_owned())
    }
}

/// The rules of the configured origins, in the order in which they take
/// effect. No origins give no rules: every cross-origin request is denied.
pub fn origin_rules(allowed_origins: &Vec<String>) -> (rules: Vec<OriginRule>)
    ensures
        rules_of(allowed_origins@, rules@),
{
    let mut rules: Vec<OriginRule> = Vec::new();
    let mut i: usize = 0;
    assert(allowed_origins@.skip(0) =~= allowed_origins@);
    while i < allowed_origins.len()
        invariant
            i <= allowed_origins@.len(),
            rules@.len() == i,
            forall|j: int| 0 <= j < i ==> rule_allows(allowed_origins@[j]@, #[trigger] rules@[j]),
            forall|j: int| 0 <= j < i ==> (#[trigger] allowed_origins@[j])@ != "*"@,
            origins_read(allowed_origins@) == i + origins_read(allowed_origins@.skip(i as int)),
        decreases allowed_origins@.len() - i,
    {
        let rule = origin_rule(allowed_origins[i].as_str());
        let ghost rest = allowed_origins@.skip(i as int);
        proof {
            assert(rest[0] == allowed_origins@[i as int]);
            assert(rest.drop_first() =~= allowed_origins@.skip(i + 1));
        }
        let done = same_text(allowed_origins[i].as_str(), "*");
        rules.push(rule);
        if done {
            return rules;
        }
        i += 1;
    }
    proof {
        assert(allowed_origins@.skip(i as int).len() == 0);
    }
    rules
}

/// Whether `origin` is the origin of a browser extension.
pub fn is_extension_origin(origin: &str) -> (r: bool)
    ensures
        r == "moz-extension://"@.is_prefix_of(origin@),
{
    has_prefix(origin, "moz-extension://")
}

} // verus!
