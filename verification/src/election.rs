//! Primary election policy.
//!
//! A pure function picks which active lock surface receives keyboard focus:
//! the configured priority list is scanned in order and the first entry with
//! an active, name-matching surface wins; with no match the first active
//! surface in registry (insertion) order wins; with no active surface nobody
//! is primary.  Registry order as the tie-break keeps the result
//! deterministic under hot-plug event reordering.

use vstd::prelude::*;

use crate::surface::LockSurface;

verus! {

/// First index `>= i` of an active surface whose name equals `name`.
pub open spec fn first_match_from(surfaces: Seq<LockSurface>, name: Seq<char>, i: int) -> Option<int>
    decreases surfaces.len() - i when 0 <= i <= surfaces.len()
{
    if i >= surfaces.len() {
        None
    } else if surfaces[i].is_active && surfaces[i].output_name@ == name {
        Some(i)
    } else {
        first_match_from(surfaces, name, i + 1)
    }
}

/// First index `>= i` of an active surface.
pub open spec fn first_active_from(surfaces: Seq<LockSurface>, i: int) -> Option<int>
    decreases surfaces.len() - i when 0 <= i <= surfaces.len()
{
    if i >= surfaces.len() {
        None
    } else if surfaces[i].is_active {
        Some(i)
    } else {
        first_active_from(surfaces, i + 1)
    }
}

/// Surface elected by the priority entries `priority[j..]`, if any entry has
/// an active, name-matching surface.
pub open spec fn elect_by_priority_from(
    surfaces: Seq<LockSurface>,
    priority: Seq<Seq<char>>,
    j: int,
) -> Option<int>
    decreases priority.len() - j when 0 <= j <= priority.len()
{
    if j >= priority.len() {
        None
    } else {
        match first_match_from(surfaces, priority[j], 0) {
            Some(i) => Some(i),
            None => elect_by_priority_from(surfaces, priority, j + 1),
        }
    }
}

/// The election rule: first priority entry with an active match wins (the
/// earliest matching surface in registry order); otherwise the first active
/// surface; otherwise nobody.
pub open spec fn spec_elect(surfaces: Seq<LockSurface>, priority: Seq<Seq<char>>) -> Option<int> {
    match elect_by_priority_from(surfaces, priority, 0) {
        Some(i) => Some(i),
        None => first_active_from(surfaces, 0),
    }
}

/// An elected surface is always in range and active.
pub proof fn lemma_elected_is_active(surfaces: Seq<LockSurface>, priority: Seq<Seq<char>>)
    ensures
        match spec_elect(surfaces, priority) {
            Some(i) => 0 <= i < surfaces.len() && surfaces[i].is_active,
            None => forall|i: int| 0 <= i < surfaces.len() ==> !surfaces[i].is_active,
        },
{
    lemma_elect_by_priority_active(surfaces, priority, 0);
    lemma_first_active_props(surfaces, 0);
}

proof fn lemma_first_match_props(surfaces: Seq<LockSurface>, name: Seq<char>, i: int)
    requires
        0 <= i <= surfaces.len(),
    ensures
        match first_match_from(surfaces, name, i) {
            Some(k) => {
                &&& i <= k < surfaces.len()
                &&& surfaces[k].is_active && surfaces[k].output_name@ == name
                &&& forall|m: int| i <= m < k ==> !(surfaces[m].is_active && surfaces[m].output_name@ == name)
            },
            None => forall|m: int| i <= m < surfaces.len() ==> !(surfaces[m].is_active && surfaces[m].output_name@ == name),
        },
    decreases surfaces.len() - i,
{
    if i < surfaces.len() {
        lemma_first_match_props(surfaces, name, i + 1);
    }
}

proof fn lemma_first_active_props(surfaces: Seq<LockSurface>, i: int)
    requires
        0 <= i <= surfaces.len(),
    ensures
        match first_active_from(surfaces, i) {
            Some(k) => {
                &&& i <= k < surfaces.len()
                &&& surfaces[k].is_active
                &&& forall|m: int| i <= m < k ==> !surfaces[m].is_active
            },
            None => forall|m: int| i <= m < surfaces.len() ==> !surfaces[m].is_active,
        },
    decreases surfaces.len() - i,
{
    if i < surfaces.len() {
        lemma_first_active_props(surfaces, i + 1);
    }
}

proof fn lemma_elect_by_priority_active(surfaces: Seq<LockSurface>, priority: Seq<Seq<char>>, j: int)
    requires
        0 <= j <= priority.len(),
    ensures
        match elect_by_priority_from(surfaces, priority, j) {
            Some(i) => 0 <= i < surfaces.len() && surfaces[i].is_active,
            None => true,
        },
    decreases priority.len() - j,
{
    if j < priority.len() {
        lemma_first_match_props(surfaces, priority[j], 0);
        lemma_elect_by_priority_active(surfaces, priority, j + 1);
    }
}

/// Surface `i` is active and carries the name `name`.
pub open spec fn matches_entry(surfaces: Seq<LockSurface>, name: Seq<char>, i: int) -> bool {
    &&& 0 <= i < surfaces.len()
    &&& surfaces[i].is_active
    &&& surfaces[i].output_name@ == name
}

/// Some active surface carries the name `name`.
pub open spec fn entry_has_match(surfaces: Seq<LockSurface>, name: Seq<char>) -> bool {
    exists|i: int| matches_entry(surfaces, name, i)
}

proof fn lemma_elect_by_priority_rule(surfaces: Seq<LockSurface>, priority: Seq<Seq<char>>, j: int)
    requires
        0 <= j <= priority.len(),
    ensures
        match elect_by_priority_from(surfaces, priority, j) {
            Some(i) => exists|j1: int|
                {
                    &&& j <= j1 < priority.len()
                    &&& matches_entry(surfaces, priority[j1], i)
                    &&& (forall|j2: int|
                        j <= j2 < j1 ==> !entry_has_match(surfaces, #[trigger] priority[j2]))
                    &&& (forall|m: int| 0 <= m < i ==> !matches_entry(surfaces, priority[j1], m))
                },
            None => forall|j2: int|
                j <= j2 < priority.len() ==> !entry_has_match(surfaces, #[trigger] priority[j2]),
        },
    decreases priority.len() - j,
{
    if j < priority.len() {
        lemma_first_match_props(surfaces, priority[j], 0);
        match first_match_from(surfaces, priority[j], 0) {
            Some(i) => {
                assert(matches_entry(surfaces, priority[j], i));
                assert(forall|m: int| 0 <= m < i ==> !matches_entry(surfaces, priority[j], m));
            },
            None => {
                assert(!entry_has_match(surfaces, priority[j])) by {
                    if entry_has_match(surfaces, priority[j]) {
                        let w = choose|w: int| matches_entry(surfaces, priority[j], w);
                        assert(!(surfaces[w].is_active && surfaces[w].output_name@
                            == priority[j]));
                    }
                };
                lemma_elect_by_priority_rule(surfaces, priority, j + 1);
            },
        }
    }
}

/// The declarative election rule, as the elected index satisfies it.
///
/// When some priority entry has an active, name-matching surface, the
/// elected surface matches the earliest such entry and is the first match
/// for it in registry order.  When no entry matches, the elected surface is
/// the first active one in registry order.  When no surface is active,
/// nobody is elected.
pub proof fn lemma_election_rule(surfaces: Seq<LockSurface>, priority: Seq<Seq<char>>)
    ensures
        match spec_elect(surfaces, priority) {
            Some(i) => {
                &&& 0 <= i < surfaces.len() && surfaces[i].is_active
                &&& if exists|j: int|
                    0 <= j < priority.len() && entry_has_match(surfaces, #[trigger] priority[j]) {
                    exists|j1: int|
                        {
                            &&& 0 <= j1 < priority.len()
                            &&& matches_entry(surfaces, priority[j1], i)
                            &&& (forall|j2: int|
                                0 <= j2 < j1 ==> !entry_has_match(
                                    surfaces,
                                    #[trigger] priority[j2],
                                ))
                            &&& (forall|m: int|
                                0 <= m < i ==> !matches_entry(surfaces, priority[j1], m))
                        }
                } else {
                    forall|m: int| 0 <= m < i ==> !(#[trigger] surfaces[m]).is_active
                }
            },
            None => forall|i: int| 0 <= i < surfaces.len() ==> !(#[trigger] surfaces[i]).is_active,
        },
{
    lemma_elect_by_priority_rule(surfaces, priority, 0);
    lemma_first_active_props(surfaces, 0);
    lemma_elected_is_active(surfaces, priority);
}

/// Two registries agreeing pointwise on activity and display name.
pub open spec fn election_inputs_agree(s1: Seq<LockSurface>, s2: Seq<LockSurface>) -> bool {
    &&& s1.len() == s2.len()
    &&& forall|i: int| 0 <= i < s1.len() ==> (#[trigger] s1[i]).is_active == (
    #[trigger] s2[i]).is_active && s1[i].output_name@ == s2[i].output_name@
}

proof fn lemma_first_match_depends(s1: Seq<LockSurface>, s2: Seq<LockSurface>, name: Seq<char>, i: int)
    requires
        election_inputs_agree(s1, s2),
        0 <= i <= s1.len(),
    ensures
        first_match_from(s1, name, i) == first_match_from(s2, name, i),
    decreases s1.len() - i,
{
    if i < s1.len() {
        lemma_first_match_depends(s1, s2, name, i + 1);
    }
}

proof fn lemma_first_active_depends(s1: Seq<LockSurface>, s2: Seq<LockSurface>, i: int)
    requires
        election_inputs_agree(s1, s2),
        0 <= i <= s1.len(),
    ensures
        first_active_from(s1, i) == first_active_from(s2, i),
    decreases s1.len() - i,
{
    if i < s1.len() {
        lemma_first_active_depends(s1, s2, i + 1);
    }
}

proof fn lemma_elect_by_priority_depends(
    s1: Seq<LockSurface>,
    s2: Seq<LockSurface>,
    priority: Seq<Seq<char>>,
    j: int,
)
    requires
        election_inputs_agree(s1, s2),
        0 <= j <= priority.len(),
    ensures
        elect_by_priority_from(s1, priority, j) == elect_by_priority_from(s2, priority, j),
    decreases priority.len() - j,
{
    if j < priority.len() {
        lemma_first_match_depends(s1, s2, priority[j], 0);
        lemma_elect_by_priority_depends(s1, s2, priority, j + 1);
    }
}

/// The election rule reads only each surface's activity and display name,
/// so registries agreeing on those elect the same index.
pub proof fn lemma_elect_depends(s1: Seq<LockSurface>, s2: Seq<LockSurface>, priority: Seq<Seq<char>>)
    requires
        election_inputs_agree(s1, s2),
    ensures
        spec_elect(s1, priority) == spec_elect(s2, priority),
{
    lemma_elect_by_priority_depends(s1, s2, priority, 0);
    lemma_first_active_depends(s1, s2, 0);
}

/// Linear scan for the first active surface named `name`.
fn find_match(surfaces: &Vec<LockSurface>, name: &String) -> (r: Option<usize>)
    ensures
        match r {
            Some(i) => first_match_from(surfaces@, name@, 0) == Some(i as int),
            None => first_match_from(surfaces@, name@, 0) is None,
        },
{
    let n: usize = surfaces.len();
    let mut i: usize = 0;
    while i < n
        invariant
            0 <= i <= n,
            n == surfaces@.len(),
            first_match_from(surfaces@, name@, 0) == first_match_from(surfaces@, name@, i as int),
        decreases n - i,
    {
        if surfaces[i].is_active && surfaces[i].output_name == *name {
            return Some(i);
        }
        i = i + 1;
    }
    None
}

/// Linear scan for the first active surface.
fn find_first_active(surfaces: &Vec<LockSurface>) -> (r: Option<usize>)
    ensures
        match r {
            Some(i) => first_active_from(surfaces@, 0) == Some(i as int),
            None => first_active_from(surfaces@, 0) is None,
        },
{
    let n: usize = surfaces.len();
    let mut i: usize = 0;
    while i < n
        invariant
            0 <= i <= n,
            n == surfaces@.len(),
            first_active_from(surfaces@, 0) == first_active_from(surfaces@, i as int),
        decreases n - i,
    {
        if surfaces[i].is_active {
            return Some(i);
        }
        i = i + 1;
    }
    None
}

/// First index `>= i` of a monitor name equal to `name`.
pub open spec fn first_name_from(names: Seq<Seq<char>>, name: Seq<char>, i: int) -> Option<int>
    decreases names.len() - i when 0 <= i <= names.len()
{
    if i >= names.len() {
        None
    } else if names[i] == name {
        Some(i)
    } else {
        first_name_from(names, name, i + 1)
    }
}

/// Monitor index picked by the priority entries `priority[j..]`.
pub open spec fn monitor_by_priority_from(
    names: Seq<Seq<char>>,
    priority: Seq<Seq<char>>,
    j: int,
) -> Option<int>
    decreases priority.len() - j when 0 <= j <= priority.len()
{
    if j >= priority.len() {
        None
    } else {
        match first_name_from(names, priority[j], 0) {
            Some(i) => Some(i),
            None => monitor_by_priority_from(names, priority, j + 1),
        }
    }
}

/// The monitor index the non-lock windows treat as primary: the first
/// priority entry naming a connected monitor wins; with no match, the
/// first monitor.
pub open spec fn spec_primary_monitor_index(names: Seq<Seq<char>>, priority: Seq<Seq<char>>) -> int {
    match monitor_by_priority_from(names, priority, 0) {
        Some(i) => i,
        None => 0,
    }
}

proof fn lemma_first_name_bounds(names: Seq<Seq<char>>, name: Seq<char>, i: int)
    requires
        0 <= i <= names.len(),
    ensures
        match first_name_from(names, name, i) {
            Some(k) => i <= k < names.len() && names[k] == name,
            None => true,
        },
    decreases names.len() - i,
{
    if i < names.len() && names[i] != name {
        lemma_first_name_bounds(names, name, i + 1);
    }
}

/// A monitor index is always in range when any monitor is connected.
pub proof fn lemma_primary_monitor_index_in_range(names: Seq<Seq<char>>, priority: Seq<Seq<char>>)
    ensures
        names.len() > 0 ==> 0 <= spec_primary_monitor_index(names, priority) < names.len(),
        names.len() == 0 ==> spec_primary_monitor_index(names, priority) == 0,
    decreases priority.len(),
{
    lemma_monitor_by_priority_bounds(names, priority, 0);
}

proof fn lemma_monitor_by_priority_bounds(names: Seq<Seq<char>>, priority: Seq<Seq<char>>, j: int)
    requires
        0 <= j <= priority.len(),
    ensures
        match monitor_by_priority_from(names, priority, j) {
            Some(i) => 0 <= i < names.len(),
            None => true,
        },
    decreases priority.len() - j,
{
    if j < priority.len() {
        lemma_first_name_bounds(names, priority[j], 0);
        lemma_monitor_by_priority_bounds(names, priority, j + 1);
    }
}

/// Scan for the first monitor named `name`.
fn find_name(names: &Vec<String>, name: &String) -> (r: Option<usize>)
    ensures
        match r {
            Some(i) => first_name_from(names.deep_view(), name@, 0) == Some(i as int),
            None => first_name_from(names.deep_view(), name@, 0) is None,
        },
{
    let n: usize = names.len();
    let mut i: usize = 0;
    while i < n
        invariant
            0 <= i <= n,
            n == names@.len(),
            names.deep_view().len() == n,
            forall|k: int| 0 <= k < n ==> names.deep_view()[k] == names@[k]@,
            first_name_from(names.deep_view(), name@, 0) == first_name_from(
                names.deep_view(),
                name@,
                i as int,
            ),
        decreases n - i,
    {
        if names[i] == *name {
            return Some(i);
        }
        i = i + 1;
    }
    None
}

/// Index of the monitor the non-lock shell windows treat as primary: the
/// first monitor named by a priority entry, in priority order; the first
/// monitor when nothing matches or the priority list is empty.
pub fn primary_monitor_index(monitor_names: &Vec<String>, priority: &Vec<String>) -> (r: usize)
    ensures
        r as int == spec_primary_monitor_index(monitor_names.deep_view(), priority.deep_view()),
{
    let n: usize = priority.len();
    let mut j: usize = 0;
    while j < n
        invariant
            0 <= j <= n,
            n == priority@.len(),
            priority.deep_view().len() == n,
            forall|k: int| 0 <= k < n ==> priority.deep_view()[k] == priority@[k]@,
            monitor_by_priority_from(monitor_names.deep_view(), priority.deep_view(), 0)
                == monitor_by_priority_from(monitor_names.deep_view(), priority.deep_view(), j as int),
        decreases n - j,
    {
        if let Some(i) = find_name(monitor_names, &priority[j]) {
            return i;
        }
        j = j + 1;
    }
    0
}

/// Pick the surface that should be primary, per the election rule.
///
/// Scans the priority list in order and returns the first active surface
/// matching an entry; with no match, the first active surface in registry
/// order; `None` when no surface is active.
pub fn elect_primary(surfaces: &Vec<LockSurface>, priority: &Vec<String>) -> (r: Option<usize>)
    ensures
        match r {
            Some(i) => spec_elect(surfaces@, priority.deep_view()) == Some(i as int),
            None => spec_elect(surfaces@, priority.deep_view()) is None,
        },
{
    let n: usize = priority.len();
    let mut j: usize = 0;
    while j < n
        invariant
            0 <= j <= n,
            n == priority@.len(),
            priority.deep_view().len() == n,
            forall|k: int| 0 <= k < n ==> priority.deep_view()[k] == priority@[k]@,
            elect_by_priority_from(surfaces@, priority.deep_view(), 0)
                == elect_by_priority_from(surfaces@, priority.deep_view(), j as int),
        decreases n - j,
    {
        if let Some(i) = find_match(surfaces, &priority[j]) {
            return Some(i);
        }
        j = j + 1;
    }
    find_first_active(surfaces)
}

} // verus!
