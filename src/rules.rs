use vstd::prelude::*;

verus! {

/// The wildcard rule, which admits every destination.
pub open spec fn wildcard() -> Seq<char> {
    seq!['*']
}

/// A rule set admits a destination when it holds the wildcard or the destination itself.
pub open spec fn admits(dest: Seq<char>, rules: Seq<Seq<char>>) -> bool {
    exists|i: int| 0 <= i < rules.len() && (rules[i] == wildcard() || rules[i] == dest)
}

/// The views of a slice of rule strings.
pub open spec fn rule_views(rules: &[String]) -> Seq<Seq<char>> {
    rules@.map_values(|r: String| r@)
}

fn is_wildcard(rule: &String) -> (r: bool)
    ensures
        r == (rule@ == wildcard()),
{
    let star = String::from_str("*");
    proof {
        reveal_strlit("*");
    }
    assert(star@ =~= wildcard());
    *rule == star
}

/// Whether `req` is admitted by `rules`: a rule is either `*` or a destination
/// that must equal `req` exactly.
pub fn matches(req: &str, rules: &[String]) -> (r: bool)
    ensures
        r == admits(req@, rule_views(rules)),
{
    let target = String::from_str(req);
    let mut i: usize = 0;
    while i < rules.len()
        invariant
            0 <= i <= rules@.len(),
            target@ == req@,
            forall|j: int|
                0 <= j < i ==> !(#[trigger] rules@[j]@ == wildcard() || rules@[j]@ == req@),
        decreases rules@.len() - i,
    {
        if is_wildcard(&rules[i]) || rules[i] == target {
            assert(rule_views(rules)[i as int] == rules@[i as int]@);
            return true;
        }
        i = i + 1;
    }
    proof {
        if admits(req@, rule_views(rules)) {
            let k = choose|k: int|
                0 <= k < rule_views(rules).len() && (rule_views(rules)[k] == wildcard()
                    || rule_views(rules)[k] == req@);
            assert(rule_views(rules)[k] == rules@[k]@);
        }
    }
    false
}

/// An empty rule set admits nothing, and a rule set admits a destination exactly
/// when it holds the wildcard or that destination.
pub proof fn lemma_matches_law(dest: Seq<char>, rules: Seq<Seq<char>>)
    ensures
        admits(dest, rules) <==> (rules.contains(wildcard()) || rules.contains(dest)),
        !admits(dest, Seq::<Seq<char>>::empty()),
{
    if rules.contains(wildcard()) {
        let k = choose|k: int| 0 <= k < rules.len() && rules[k] == wildcard();
        assert(rules[k] == wildcard());
    }
    if rules.contains(dest) {
        let k = choose|k: int| 0 <= k < rules.len() && rules[k] == dest;
        assert(rules[k] == dest);
    }
}

} // verus!
