//! Theme names: the three known ones and the order in which they cycle.
//! The colors of each theme belong to the terminal front end.
use vstd::prelude::*;
use crate::text::str_eq;

verus! {

/// The known theme names, in cycling order.
pub open spec fn names_spec() -> Seq<&'static str> {
    seq!["dark", "light", "cosmic"]
}

/// `light` and `cosmic` name themselves; any other name means `dark`.
pub open spec fn normalize_spec(name: Seq<char>) -> &'static str {
    if name == "light"@ {
        "light"
    } else if name == "cosmic"@ {
        "cosmic"
    } else {
        "dark"
    }
}

/// The theme that follows `name` (normalized first): dark, light, cosmic,
/// then dark again.
pub open spec fn next_spec(name: Seq<char>) -> &'static str {
    if name == "light"@ {
        "cosmic"
    } else if name == "cosmic"@ {
        "dark"
    } else {
        "light"
    }
}

/// The known theme names, in cycling order.
pub fn names() -> (r: Vec<&'static str>)
    ensures
        r@ == names_spec(),
{
    let r = vec!["dark", "light", "cosmic"];
    assert(r@ =~= names_spec());
    r
}

/// The theme name that `name` stands for.
pub fn normalize_name(name: &str) -> (r: &'static str)
    ensures
        r == normalize_spec(name@),
{
    if str_eq(name, "light") {
        "light"
    } else if str_eq(name, "cosmic") {
        "cosmic"
    } else {
        "dark"
    }
}

/// The theme after `name` in the cycle.
pub fn next_name(name: &str) -> (r: &'static str)
    ensures
        r == next_spec(name@),
{
    let current = normalize_name(name);
    proof {
        lemma_names_differ();
    }
    if str_eq(current, "light") {
        "cosmic"
    } else if str_eq(current, "cosmic") {
        "dark"
    } else {
        "light"
    }
}

proof fn lemma_names_differ()
    ensures
        "dark"@ != "light"@,
        "dark"@ != "cosmic"@,
        "light"@ != "cosmic"@,
{
    reveal_strlit("dark");
    reveal_strlit("light");
    reveal_strlit("cosmic");
    assert("dark"@.len() == 4);
    assert("light"@.len() == 5);
    assert("cosmic"@.len() == 6);
}

/// Three steps of the cycle come back to the normalized name, and the
/// cycle only ever yields known names.
pub proof fn law_theme_cycle(name: Seq<char>)
    ensures
        next_spec(next_spec(next_spec(name)@)@) == normalize_spec(name),
        names_spec().contains(next_spec(name)),
        normalize_spec(normalize_spec(name)@) == normalize_spec(name),
{
    lemma_names_differ();
    assert(names_spec()[0] == "dark");
    assert(names_spec()[1] == "light");
    assert(names_spec()[2] == "cosmic");
}

} // verus!
