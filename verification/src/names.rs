//! Name-to-id tables: the association lists the assembler resolves mesh,
//! material and node names against. Names are unique within a table; the
//! first match is the match.
use vstd::prelude::*;

verus! {

/// The table as the specs see it: each entry's name by its view.
pub open spec fn view_map(m: Seq<(String, u32)>) -> Seq<(Seq<char>, u32)> {
    m.map_values(|p: (String, u32)| (p.0@, p.1))
}

/// The id filed under `name`: the first entry with that name, if any.
pub open spec fn spec_lookup(m: Seq<(Seq<char>, u32)>, name: Seq<char>) -> Option<u32>
    decreases m.len(),
{
    if m.len() == 0 {
        None
    } else if m[0].0 == name {
        Some(m[0].1)
    } else {
        spec_lookup(m.drop_first(), name)
    }
}

/// When the first `i` entries miss and entry `i` matches, the lookup
/// returns entry `i`.
pub proof fn lemma_lookup_hit(m: Seq<(Seq<char>, u32)>, name: Seq<char>, i: int)
    requires
        0 <= i < m.len(),
        forall|j: int| 0 <= j < i ==> (#[trigger] m[j]).0 != name,
        m[i].0 == name,
    ensures
        spec_lookup(m, name) == Some(m[i].1),
    decreases i,
{
    if i > 0 {
        lemma_lookup_hit(m.drop_first(), name, i - 1);
    }
}

/// When no entry matches, the lookup misses.
pub proof fn lemma_lookup_miss(m: Seq<(Seq<char>, u32)>, name: Seq<char>)
    requires
        forall|j: int| 0 <= j < m.len() ==> (#[trigger] m[j]).0 != name,
    ensures
        spec_lookup(m, name) is None,
    decreases m.len(),
{
    if m.len() > 0 {
        lemma_lookup_miss(m.drop_first(), name);
    }
}

/// Finds the id filed under `name`, scanning front to back.
pub fn lookup(m: &Vec<(String, u32)>, name: &String) -> (r: Option<u32>)
    ensures
        r == spec_lookup(view_map(m@), name@),
{
    let n = m.len();
    for i in 0..n
        invariant
            n == m@.len(),
            forall|j: int| 0 <= j < i ==> (#[trigger] view_map(m@)[j]).0 != name@,
    {
        if m[i].0 == *name {
            proof {
                lemma_lookup_hit(view_map(m@), name@, i as int);
            }
            return Some(m[i].1);
        }
        proof {
            assert(view_map(m@)[i as int].0 == m@[i as int].0@);
        }
    }
    proof {
        lemma_lookup_miss(view_map(m@), name@);
    }
    None
}

} // verus!
