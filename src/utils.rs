use vstd::prelude::*;
use crate::text::{chars_of, same_chars};

verus! {

/// The pairs of a name table, as character sequences.
pub open spec fn pair_views(v: Seq<(String, String)>) -> Seq<(Seq<char>, Seq<char>)> {
    v.map_values(|p: (String, String)| (p.0@, p.1@))
}

/// The completion tags that exist from the start, each with its display colour.
pub open spec fn initial_timer_colors() -> Seq<(Seq<char>, Seq<char>)> {
    seq![
        ("urgent"@, "Red"@),
        ("important"@, "Blue"@),
        ("casual"@, "Green"@),
        ("break"@, "Yellow"@),
        ("focus"@, "Magenta"@),
        ("fun"@, "LightMagenta"@),
        ("study"@, "LightCyan"@),
        ("deadline"@, "LightRed"@),
        ("coding"@, "LightGreen"@),
    ]
}

/// No name stands twice in a name table.
pub open spec fn names_unique(t: Seq<(Seq<char>, Seq<char>)>) -> bool {
    forall|i: int, j: int| 0 <= i < j < t.len() ==> #[trigger] t[i].0 != #[trigger] t[j].0
}

proof fn lemma_initial_names_unique()
    ensures
        names_unique(initial_timer_colors()),
{
    reveal_strlit("urgent");
    reveal_strlit("important");
    reveal_strlit("casual");
    reveal_strlit("break");
    reveal_strlit("focus");
    reveal_strlit("fun");
    reveal_strlit("study");
    reveal_strlit("deadline");
    reveal_strlit("coding");
    let t = initial_timer_colors();
    assert("urgent"@[0] != "casual"@[0]);
    assert("urgent"@[0] != "coding"@[0]);
    assert("casual"@[1] != "coding"@[1]);
    assert("break"@[0] != "focus"@[0]);
    assert("break"@[0] != "study"@[0]);
    assert("focus"@[0] != "study"@[0]);
    assert forall|i: int, j: int| 0 <= i < j < t.len() implies #[trigger] t[i].0 != #[trigger] t[j].0 by {
        if t[i].0.len() == t[j].0.len() {
            assert(t[i].0[0] != t[j].0[0] || t[i].0[1] != t[j].0[1]);
        }
    }
}

/// A setting flag's text negated: `"false"` for `"true"`, `"true"` for anything else.
pub open spec fn negated_flag(s: Seq<char>) -> Seq<char> {
    if s == "true"@ {
        "false"@
    } else {
        "true"@
    }
}

/// The text of a setting flag negated: `"false"` for `"true"`, `"true"` for anything else.
pub fn reverse_bool(input: &str) -> (r: String)
    ensures
        r@ == negated_flag(input@),
{
    if same_chars(&chars_of(input), &chars_of("true")) {
        String::from_str("false")
    } else {
        String::from_str("true")
    }
}

fn pair(k: &str, v: &str) -> (r: (String, String))
    ensures
        r.0@ == k@,
        r.1@ == v@,
{
    (String::from_str(k), String::from_str(v))
}

/// The default completion tags and their colours.
pub fn get_initial_timer_colors() -> (r: Vec<(String, String)>)
    ensures
        pair_views(r@) == initial_timer_colors(),
        names_unique(pair_views(r@)),
{
    proof {
        lemma_initial_names_unique();
    }
    let mut r: Vec<(String, String)> = Vec::new();
    r.push(pair("urgent", "Red"));
    r.push(pair("important", "Blue"));
    r.push(pair("casual", "Green"));
    r.push(pair("break", "Yellow"));
    r.push(pair("focus", "Magenta"));
    r.push(pair("fun", "LightMagenta"));
    r.push(pair("study", "LightCyan"));
    r.push(pair("deadline", "LightRed"));
    r.push(pair("coding", "LightGreen"));
    assert(pair_views(r@) =~= initial_timer_colors());
    r
}

/// The position of the first pair whose name is `key`.
pub fn find_name(table: &Vec<(String, String)>, key: &Vec<char>) -> (r: Option<usize>)
    ensures
        match r {
            Some(i) => i < table.len() && table@[i as int].0@ == key@ && forall|j: int|
                0 <= j < i ==> #[trigger] table@[j].0@ != key@,
            None => forall|j: int| 0 <= j < table.len() ==> #[trigger] table@[j].0@ != key@,
        },
{
    let mut i: usize = 0;
    while i < table.len()
        invariant
            i <= table.len(),
            forall|j: int| 0 <= j < i ==> #[trigger] table@[j].0@ != key@,
        decreases table.len() - i,
    {
        if same_chars(&chars_of(table[i].0.as_str()), key) {
            return Some(i);
        }
        i = i + 1;
    }
    None
}

} // verus!
