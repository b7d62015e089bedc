//! Profiles: named sets of mappings from controller inputs to key combinations,
//! and the bookkeeping done on the set of profiles.
use vstd::prelude::*;
use crate::engine::{input_name, input_name_of, INPUT_COUNT};
use crate::keys::{recorded_combination, recorded_token};
use crate::text::{
    chars_of, decimal, lemma_decimal_digits, lemma_lex_total, lemma_lex_transitive, lex_less, lex_lt,
    push_decimal, str_eq, string_of, trim, trimmed,
};

verus! {

/// The key-combination slots of an input as character sequences.
pub open spec fn slots_view(v: Seq<String>) -> Seq<Seq<char>> {
    v.map_values(|s: String| s@)
}

/// A mapping table as (input name, slots) pairs of character sequences.
pub open spec fn mappings_view(m: Seq<(String, Vec<String>)>) -> Seq<(Seq<char>, Seq<Seq<char>>)> {
    m.map_values(|e: (String, Vec<String>)| (e.0@, slots_view(e.1@)))
}

/// The value of the first entry of `es` whose key is `k`.
pub open spec fn lookup<V>(es: Seq<(Seq<char>, V)>, k: Seq<char>) -> Option<V>
    decreases es.len(),
{
    if es.len() == 0 {
        None
    } else if es[0].0 == k {
        Some(es[0].1)
    } else {
        lookup(es.drop_first(), k)
    }
}

/// Whether no key occurs twice in `es`.
pub open spec fn distinct_keys<V>(es: Seq<(Seq<char>, V)>) -> bool {
    forall|i: int, j: int| 0 <= i < j < es.len() ==> #[trigger] es[i].0 != #[trigger] es[j].0
}

/// The position of the first entry of `m` whose key is `name`.
pub fn find_mapping(m: &[(String, Vec<String>)], name: &str) -> (r: Option<usize>)
    ensures
        match r {
            Some(i) => i < m@.len() && m@[i as int].0@ == name@ && lookup(mappings_view(m@), name@)
                == Some(mappings_view(m@)[i as int].1) && (forall|j: int|
                0 <= j < i ==> #[trigger] m@[j].0@ != name@),
            None => lookup(mappings_view(m@), name@) is None,
        },
{
    let ghost es = mappings_view(m@);
    let mut i: usize = 0;
    assert(es.skip(0) =~= es);
    while i < m.len()
        invariant
            i <= m@.len(),
            es == mappings_view(m@),
            lookup(es, name@) == lookup(es.skip(i as int), name@),
            forall|j: int| 0 <= j < i ==> #[trigger] m@[j].0@ != name@,
        decreases m.len() - i,
    {
        assert(es.skip(i as int)[0] == es[i as int]);
        if str_eq(m[i].0.as_str(), name) {
            return Some(i);
        }
        assert(es.skip(i as int).drop_first() =~= es.skip(i + 1));
        i = i + 1;
    }
    None
}

/// A profile: whether it was the profile in use, how many key presses it has
/// counted, and its mapping table from input names to key-combination slots.
pub struct Profile {
    pub last_used: bool,
    pub total_key_presses: u64,
    pub mappings: Vec<(String, Vec<String>)>,
}

/// A profile as saved by earlier versions: one key combination per input.
pub struct OldProfile {
    pub last_used: bool,
    pub mappings: Vec<(String, String)>,
}

/// A profile as plain values.
pub struct ProfileView {
    pub last_used: bool,
    pub total_key_presses: u64,
    pub mappings: Seq<(Seq<char>, Seq<Seq<char>>)>,
}

impl Profile {
    /// The profile as plain values.
    pub open spec fn view(&self) -> ProfileView {
        ProfileView {
            last_used: self.last_used,
            total_key_presses: self.total_key_presses,
            mappings: mappings_view(self.mappings@),
        }
    }
}

impl Default for Profile {
    /// An empty profile: not in use, no presses counted, no mappings.
    fn default() -> (p: Self)
        ensures
            !p@.last_used,
            p@.total_key_presses == 0,
            p@.mappings == Seq::<(Seq<char>, Seq<Seq<char>>)>::empty(),
    {
        let mappings: Vec<(String, Vec<String>)> = Vec::new();
        assert(mappings_view(mappings@) =~= Seq::<(Seq<char>, Seq<Seq<char>>)>::empty());
        Profile { last_used: false, total_key_presses: 0, mappings }
    }
}

/// An old-style table with each combination turned into a one-slot list.
pub open spec fn upgraded_mappings(m: Seq<(String, String)>) -> Seq<(Seq<char>, Seq<Seq<char>>)> {
    m.map_values(|e: (String, String)| (e.0@, seq![e.1@]))
}

proof fn lemma_slots_view_push(v: Seq<String>, x: String)
    ensures
        slots_view(v.push(x)) == slots_view(v).push(x@),
{
    assert(slots_view(v.push(x)) =~= slots_view(v).push(x@));
}

proof fn lemma_mappings_view_push(v: Seq<(String, Vec<String>)>, x: (String, Vec<String>))
    ensures
        mappings_view(v.push(x)) == mappings_view(v).push((x.0@, slots_view(x.1@))),
{
    assert(mappings_view(v.push(x)) =~= mappings_view(v).push((x.0@, slots_view(x.1@))));
}

fn copy_string(s: &String) -> (r: String)
    ensures
        r@ == s@,
{
    s.clone()
}

/// A copy of the slots.
pub fn copy_slots(slots: &Vec<String>) -> (r: Vec<String>)
    ensures
        slots_view(r@) == slots_view(slots@),
{
    let mut r: Vec<String> = Vec::new();
    let mut i: usize = 0;
    while i < slots.len()
        invariant
            i <= slots@.len(),
            slots_view(r@) == slots_view(slots@).take(i as int),
        decreases slots.len() - i,
    {
        let ghost before = r@;
        r.push(copy_string(&slots[i]));
        proof {
            lemma_slots_view_push(before, r@[i as int]);
            assert(slots_view(slots@).take(i + 1) =~= slots_view(slots@).take(i as int).push(slots@[i as int]@));
        }
        i = i + 1;
    }
    assert(slots_view(slots@).take(slots@.len() as int) =~= slots_view(slots@));
    r
}

/// A copy of the mapping table.
pub fn copy_mappings(m: &Vec<(String, Vec<String>)>) -> (r: Vec<(String, Vec<String>)>)
    ensures
        mappings_view(r@) == mappings_view(m@),
{
    let mut r: Vec<(String, Vec<String>)> = Vec::new();
    let mut i: usize = 0;
    while i < m.len()
        invariant
            i <= m@.len(),
            mappings_view(r@) == mappings_view(m@).take(i as int),
        decreases m.len() - i,
    {
        let ghost before = r@;
        r.push((copy_string(&m[i].0), copy_slots(&m[i].1)));
        proof {
            lemma_mappings_view_push(before, r@[i as int]);
            assert(mappings_view(m@).take(i + 1) =~= mappings_view(m@).take(i as int).push(
                (m@[i as int].0@, slots_view(m@[i as int].1@)),
            ));
        }
        i = i + 1;
    }
    assert(mappings_view(m@).take(m@.len() as int) =~= mappings_view(m@));
    r
}

impl Profile {
    /// A profile saved by an earlier version, read as a current one: each
    /// combination becomes a one-slot list, and the key-press count starts at 0.
    pub fn from_old(old: OldProfile) -> (p: Profile)
        ensures
            p@.last_used == old.last_used,
            p@.total_key_presses == 0,
            p@.mappings == upgraded_mappings(old.mappings@),
    {
        let mut mappings: Vec<(String, Vec<String>)> = Vec::new();
        let mut i: usize = 0;
        while i < old.mappings.len()
            invariant
                i <= old.mappings@.len(),
                mappings_view(mappings@) == upgraded_mappings(old.mappings@).take(i as int),
            decreases old.mappings.len() - i,
        {
            let mut one: Vec<String> = Vec::new();
            one.push(copy_string(&old.mappings[i].1));
            assert(slots_view(one@) =~= seq![old.mappings@[i as int].1@]);
            let ghost before = mappings@;
            mappings.push((copy_string(&old.mappings[i].0), one));
            proof {
                lemma_mappings_view_push(before, mappings@[i as int]);
                assert(upgraded_mappings(old.mappings@).take(i + 1) =~= upgraded_mappings(old.mappings@).take(
                    i as int,
                ).push((old.mappings@[i as int].0@, seq![old.mappings@[i as int].1@])));
            }
            i = i + 1;
        }
        assert(upgraded_mappings(old.mappings@).take(old.mappings@.len() as int) =~= upgraded_mappings(
            old.mappings@,
        ));
        Profile { last_used: old.last_used, total_key_presses: 0, mappings }
    }

    /// A copy of the profile.
    pub fn copy(&self) -> (p: Profile)
        ensures
            p@ == self@,
    {
        Profile {
            last_used: self.last_used,
            total_key_presses: self.total_key_presses,
            mappings: copy_mappings(&self.mappings),
        }
    }
}

/// The slots of an input that has no key assigned: one empty slot.
pub fn default_mapping_vec() -> (v: Vec<String>)
    ensures
        slots_view(v@) == seq![Seq::<char>::empty()],
{
    let mut v: Vec<String> = Vec::new();
    v.push(String::new());
    assert(slots_view(v@) =~= seq![Seq::<char>::empty()]);
    v
}

/// The table of the first `n` inputs, each with one empty slot.
pub open spec fn default_table(n: nat) -> Seq<(Seq<char>, Seq<Seq<char>>)>
    decreases n,
{
    if n == 0 {
        Seq::empty()
    } else {
        default_table((n - 1) as nat).push((input_name(n - 1), seq![Seq::<char>::empty()]))
    }
}

/// The mapping table of a new profile: every input, in order, with one empty slot.
pub fn default_mappings() -> (m: Vec<(String, Vec<String>)>)
    ensures
        mappings_view(m@) == default_table(INPUT_COUNT as nat),
{
    let mut m: Vec<(String, Vec<String>)> = Vec::new();
    let mut i: usize = 0;
    while i < INPUT_COUNT
        invariant
            i <= INPUT_COUNT,
            mappings_view(m@) == default_table(i as nat),
        decreases INPUT_COUNT - i,
    {
        m.push((String::from_str(input_name_of(i)), default_mapping_vec()));
        assert(mappings_view(m@) =~= default_table((i + 1) as nat));
        i = i + 1;
    }
    m
}

/// A new profile: not in use, no presses counted, every input unassigned.
pub fn new_profile() -> (p: Profile)
    ensures
        !p@.last_used,
        p@.total_key_presses == 0,
        p@.mappings == default_table(INPUT_COUNT as nat),
{
    Profile { last_used: false, total_key_presses: 0, mappings: default_mappings() }
}

/// The table after adding, for each of the first `n` inputs that it lacks, an
/// entry with one empty slot, in input order.
pub open spec fn repaired(m: Seq<(Seq<char>, Seq<Seq<char>>)>, n: nat) -> Seq<(Seq<char>, Seq<Seq<char>>)>
    decreases n,
{
    if n == 0 {
        m
    } else {
        let r = repaired(m, (n - 1) as nat);
        if lookup(r, input_name(n - 1)) is Some {
            r
        } else {
            r.push((input_name(n - 1), seq![Seq::<char>::empty()]))
        }
    }
}

/// Adds an unassigned entry for every input that the table lacks.
pub fn repair_mappings(m: &mut Vec<(String, Vec<String>)>)
    ensures
        mappings_view(final(m)@) == repaired(mappings_view(old(m)@), INPUT_COUNT as nat),
        distinct_keys(mappings_view(old(m)@)) ==> distinct_keys(mappings_view(final(m)@)),
{
    proof {
        if distinct_keys(mappings_view(m@)) {
            lemma_repair_keeps_names_distinct(mappings_view(m@), INPUT_COUNT as nat);
        }
    }
    let mut i: usize = 0;
    while i < INPUT_COUNT
        invariant
            i <= INPUT_COUNT,
            mappings_view(m@) == repaired(mappings_view(old(m)@), i as nat),
        decreases INPUT_COUNT - i,
    {
        let name = input_name_of(i);
        if find_mapping(m.as_slice(), name).is_none() {
            m.push((String::from_str(name), default_mapping_vec()));
            assert(mappings_view(m@) =~= repaired(mappings_view(old(m)@), (i + 1) as nat));
        }
        i = i + 1;
    }
}

/// The profiles as (name, plain profile) pairs.
pub open spec fn store_view(ps: Seq<(String, Profile)>) -> Seq<(Seq<char>, ProfileView)> {
    ps.map_values(|e: (String, Profile)| (e.0@, e.1@))
}

/// Whether profile `i` is flagged as the one last in use.
pub open spec fn flagged(v: Seq<(Seq<char>, ProfileView)>, i: int) -> bool {
    0 <= i < v.len() && v[i].1.last_used
}

/// Whether some profile is flagged as last in use.
pub open spec fn any_flagged(v: Seq<(Seq<char>, ProfileView)>) -> bool {
    exists|i: int| #[trigger] flagged(v, i)
}

/// Whether `r` is the name of a flagged profile that sorts before every other flagged name.
pub open spec fn first_flagged(v: Seq<(Seq<char>, ProfileView)>, r: Seq<char>) -> bool {
    &&& exists|i: int| #[trigger] flagged(v, i) && v[i].0 == r
    &&& forall|j: int| #[trigger] flagged(v, j) ==> v[j].0 == r || lex_lt(r, v[j].0)
}

/// The profile taken as current at start: the flagged one (the first by name when
/// several are flagged), else the one named `Default`, else the first.
pub open spec fn startup_choice(v: Seq<(Seq<char>, ProfileView)>, r: Seq<char>) -> bool {
    if any_flagged(v) {
        first_flagged(v, r)
    } else if lookup(v, "Default"@) is Some {
        r == "Default"@
    } else {
        r == v[0].0
    }
}

/// The profiles with exactly those named `r` flagged as last in use.
pub open spec fn flag_only(v: Seq<(Seq<char>, ProfileView)>, r: Seq<char>) -> Seq<(Seq<char>, ProfileView)> {
    v.map_values(
        |e: (Seq<char>, ProfileView)|
            (
                e.0,
                ProfileView {
                    last_used: e.0 == r,
                    total_key_presses: e.1.total_key_presses,
                    mappings: e.1.mappings,
                },
            ),
    )
}

/// The names of the flagged profiles other than `r`, in order.
pub open spec fn flagged_except(v: Seq<(Seq<char>, ProfileView)>, r: Seq<char>) -> Seq<Seq<char>>
    decreases v.len(),
{
    if v.len() == 0 {
        Seq::empty()
    } else {
        let rest = flagged_except(v.drop_last(), r);
        if v.last().1.last_used && v.last().0 != r {
            rest.push(v.last().0)
        } else {
            rest
        }
    }
}

/// The profile name as characters.
fn name_chars(ps: &Vec<(String, Profile)>, i: usize) -> (r: Vec<char>)
    requires
        i < ps@.len(),
    ensures
        r@ == ps@[i as int].0@,
{
    chars_of(ps[i].0.as_str())
}

/// The position of the first profile named `name`.
pub fn find_profile(ps: &Vec<(String, Profile)>, name: &str) -> (r: Option<usize>)
    ensures
        match r {
            Some(i) => i < ps@.len() && ps@[i as int].0@ == name@ && lookup(store_view(ps@), name@)
                == Some(store_view(ps@)[i as int].1) && (forall|j: int|
                0 <= j < i ==> #[trigger] ps@[j].0@ != name@),
            None => lookup(store_view(ps@), name@) is None && (forall|j: int|
                0 <= j < ps@.len() ==> #[trigger] ps@[j].0@ != name@),
        },
{
    let ghost es = store_view(ps@);
    let mut i: usize = 0;
    assert(es.skip(0) =~= es);
    while i < ps.len()
        invariant
            i <= ps@.len(),
            es == store_view(ps@),
            lookup(es, name@) == lookup(es.skip(i as int), name@),
            forall|j: int| 0 <= j < i ==> #[trigger] ps@[j].0@ != name@,
        decreases ps.len() - i,
    {
        assert(es.skip(i as int)[0] == es[i as int]);
        if str_eq(ps[i].0.as_str(), name) {
            return Some(i);
        }
        assert(es.skip(i as int).drop_first() =~= es.skip(i + 1));
        i = i + 1;
    }
    None
}

/// Picks the profile to use at start and leaves only it flagged as last in
/// use; gives its name and the names of the profiles whose flag was cleared
/// (their files are written again).
pub fn choose_current_profile(ps: &mut Vec<(String, Profile)>) -> (r: (String, Vec<String>))
    requires
        old(ps)@.len() > 0,
    ensures
        startup_choice(store_view(old(ps)@), r.0@),
        store_view(final(ps)@) == flag_only(store_view(old(ps)@), r.0@),
        slots_view(r.1@) == flagged_except(store_view(old(ps)@), r.0@),
        distinct_keys(store_view(old(ps)@)) ==> distinct_keys(store_view(final(ps)@)),
{
    let ghost v = store_view(ps@);
    let mut best: Option<usize> = None;
    let mut i: usize = 0;
    while i < ps.len()
        invariant
            i <= ps@.len(),
            v == store_view(ps@),
            best is None <==> (forall|j: int| 0 <= j < i ==> !#[trigger] flagged(v, j)),
            best matches Some(b) ==> b < i && flagged(v, b as int) && forall|j: int|
                0 <= j < i && #[trigger] flagged(v, j) ==> v[j].0 == v[b as int].0 || lex_lt(
                    v[b as int].0,
                    v[j].0,
                ),
        decreases ps.len() - i,
    {
        assert(flagged(v, i as int) == ps@[i as int].1.last_used);
        if ps[i].1.last_used {
            match best {
                None => {
                    best = Some(i);
                },
                Some(b) => {
                    let a = name_chars(ps, i);
                    let c = name_chars(ps, b);
                    if lex_less(a.as_slice(), c.as_slice()) {
                        proof {
                            assert forall|j: int| 0 <= j < i + 1 && #[trigger] flagged(v, j) implies v[j].0
                                == v[i as int].0 || lex_lt(v[i as int].0, v[j].0) by {
                                if j < i && v[j].0 != v[b as int].0 {
                                    lemma_lex_transitive(v[i as int].0, v[b as int].0, v[j].0);
                                }
                            }
                        }
                        best = Some(i);
                    } else {
                        proof {
                            lemma_lex_total(v[i as int].0, v[b as int].0);
                        }
                    }
                },
            }
        }
        i = i + 1;
    }
    let chosen: String = match best {
        Some(b) => ps[b].0.clone(),
        None => {
            proof {
                assert(!any_flagged(v));
            }
            match find_profile(ps, "Default") {
                Some(_) => String::from_str("Default"),
                None => ps[0].0.clone(),
            }
        },
    };
    let mut cleared: Vec<String> = Vec::new();
    let mut k: usize = 0;
    while k < ps.len()
        invariant
            k <= ps@.len(),
            ps@.len() == v.len(),
            store_view(ps@).take(k as int) == flag_only(v, chosen@).take(k as int),
            store_view(ps@).skip(k as int) == v.skip(k as int),
            slots_view(cleared@) == flagged_except(v.take(k as int), chosen@),
        decreases ps.len() - k,
    {
        proof {
            assert(store_view(ps@).skip(k as int)[0] == v[k as int]);
        }
        let same = str_eq(ps[k].0.as_str(), chosen.as_str());
        let ghost before = ps@;
        let ghost cleared_before = cleared@;
        if ps[k].1.last_used && !same {
            cleared.push(ps[k].0.clone());
            proof {
                lemma_slots_view_push(cleared_before, cleared@[cleared@.len() - 1]);
            }
        }
        ps[k].1.last_used = same;
        proof {
            assert(v.take(k + 1).drop_last() =~= v.take(k as int));
            assert(store_view(ps@).take(k + 1) =~= flag_only(v, chosen@).take(k + 1)) by {
                assert(store_view(ps@).take(k as int) =~= store_view(before).take(k as int));
            }
            assert(store_view(ps@).skip(k + 1) =~= v.skip(k + 1)) by {
                assert(store_view(ps@).skip(k + 1) =~= store_view(before).skip(k + 1));
                assert(store_view(before).skip(k + 1) =~= store_view(before).skip(k as int).drop_first());
                assert(v.skip(k + 1) =~= v.skip(k as int).drop_first());
            }
        }
        k = k + 1;
    }
    proof {
        assert(store_view(ps@) =~= store_view(ps@).take(ps@.len() as int));
        assert(flag_only(v, chosen@) =~= flag_only(v, chosen@).take(v.len() as int));
        assert(v.take(v.len() as int) =~= v);
        match best {
            Some(b) => {
                assert(any_flagged(v));
            },
            None => {},
        }
        if distinct_keys(v) {
            lemma_flag_only_keeps_names_distinct(v, chosen@);
        }
    }
    (chosen, cleared)
}

/// The profiles other than the current one, each unflagged, in order: what
/// saving writes before the current profile.
pub open spec fn others_unflagged(v: Seq<(Seq<char>, ProfileView)>, current: Seq<char>) -> Seq<(Seq<char>, ProfileView)>
    decreases v.len(),
{
    if v.len() == 0 {
        Seq::empty()
    } else {
        let rest = others_unflagged(v.drop_last(), current);
        let e = v.last();
        if e.0 != current {
            rest.push(
                (
                    e.0,
                    ProfileView {
                        last_used: false,
                        total_key_presses: e.1.total_key_presses,
                        mappings: e.1.mappings,
                    },
                ),
            )
        } else {
            rest
        }
    }
}

/// The (name, profile) pairs written when the profiles are saved.
pub open spec fn save_list(v: Seq<(Seq<char>, ProfileView)>, current: Seq<char>, counter: u64) -> Seq<(Seq<char>, ProfileView)> {
    others_unflagged(v, current) + match lookup(v, current) {
        Some(p) => seq![
            (current, ProfileView { last_used: true, total_key_presses: counter, mappings: p.mappings }),
        ],
        None => Seq::empty(),
    }
}

/// What saving writes, one file per pair, named after the profile: every other
/// profile, unflagged; then the current profile, flagged, with the key presses
/// counted so far.
pub fn save_plan(ps: &Vec<(String, Profile)>, current: &str, counter: u64) -> (plan: Vec<(String, Profile)>)
    ensures
        store_view(plan@) == save_list(store_view(ps@), current@, counter),
{
    let ghost v = store_view(ps@);
    let mut plan: Vec<(String, Profile)> = Vec::new();
    let mut i: usize = 0;
    while i < ps.len()
        invariant
            i <= ps@.len(),
            v == store_view(ps@),
            store_view(plan@) == others_unflagged(v.take(i as int), current@),
        decreases ps.len() - i,
    {
        assert(v.take(i + 1).drop_last() =~= v.take(i as int));
        if !str_eq(ps[i].0.as_str(), current) {
            let mut copy = ps[i].1.copy();
            copy.last_used = false;
            let ghost before = plan@;
            plan.push((ps[i].0.clone(), copy));
            assert(store_view(plan@) =~= store_view(before).push(store_view(plan@).last()));
        }
        i = i + 1;
    }
    assert(v.take(v.len() as int) =~= v);
    let ghost others = plan@;
    match find_profile(ps, current) {
        Some(c) => {
            let mut copy = ps[c].1.copy();
            copy.last_used = true;
            copy.total_key_presses = counter;
            plan.push((String::from_str(current), copy));
            assert(store_view(plan@) =~= store_view(others) + seq![store_view(plan@).last()]);
        },
        None => {
            assert(store_view(plan@) =~= store_view(others) + Seq::<(Seq<char>, ProfileView)>::empty());
        },
    }
    plan
}

/// The name of the `k`-th candidate for a new profile: `New Profile`, then
/// `New Profile (2)`, `New Profile (3)`, and so on.
pub open spec fn numbered_name(k: nat) -> Seq<char> {
    if k <= 1 {
        "New Profile"@
    } else {
        "New Profile ("@ + decimal(k) + ")"@
    }
}

/// Whether some profile has the name `n`.
pub open spec fn name_taken(v: Seq<(Seq<char>, ProfileView)>, n: Seq<char>) -> bool {
    exists|i: int| 0 <= i < v.len() && #[trigger] v[i].0 == n
}

proof fn lemma_numbered_name_injective(j: nat, k: nat)
    requires
        1 <= j,
        1 <= k,
        numbered_name(j) == numbered_name(k),
    ensures
        j == k,
{
    reveal_strlit("New Profile");
    reveal_strlit("New Profile (");
    reveal_strlit(")");
    lemma_decimal_digits(j);
    lemma_decimal_digits(k);
    if j >= 2 && k >= 2 {
        let a = numbered_name(j);
        assert(a.subrange(13, a.len() - 1) =~= decimal(j));
        assert(numbered_name(k).subrange(13, a.len() - 1) =~= decimal(k));
    } else if j >= 2 || k >= 2 {
        assert("New Profile"@.len() == 11);
        assert("New Profile ("@.len() == 13);
        assert(numbered_name(j).len() != numbered_name(k).len());
    }
}

fn numbered_name_of(k: u128) -> (r: String)
    ensures
        r@ == numbered_name(k as nat),
{
    if k <= 1 {
        String::from_str("New Profile")
    } else {
        let mut s = String::from_str("New Profile (");
        push_decimal(&mut s, k);
        s.append(")");
        s
    }
}

/// The name for a profile created with the New button: the first candidate of
/// [`numbered_name`] that no profile has yet.
pub fn unique_profile_name(ps: &Vec<(String, Profile)>) -> (r: String)
    ensures
        exists|k: nat| 1 <= k && r@ == numbered_name(k) && (forall|j: nat| 1 <= j < k ==> name_taken(store_view(ps@), #[trigger] numbered_name(j))),
        !name_taken(store_view(ps@), r@),
{
    let ghost v = store_view(ps@);
    let ghost names = v.map_values(|e: (Seq<char>, ProfileView)| e.0);
    let ghost mut tried: Set<Seq<char>> = Set::empty();
    let total = ps.len();
    let mut k: u128 = 1;
    let mut name = numbered_name_of(1);
    proof {
        names.lemma_cardinality_of_set();
    }
    while find_profile(ps, name.as_str()).is_some()
        invariant
            1 <= k,
            v == store_view(ps@),
            names == v.map_values(|e: (Seq<char>, ProfileView)| e.0),
            names.to_set().len() <= names.len(),
            names.len() == ps@.len(),
            total == ps@.len(),
            k <= total + 1,
            name@ == numbered_name(k as nat),
            tried.finite(),
            tried.len() == k - 1,
            tried.subset_of(names.to_set()),
            forall|n: Seq<char>| #[trigger] tried.contains(n) <==> exists|j: nat| 1 <= j < k && n == numbered_name(j),
            forall|j: nat| 1 <= j < k ==> name_taken(v, #[trigger] numbered_name(j)),
        decreases ps@.len() + 1 - k,
    {
        proof {
            let i = choose|i: int| 0 <= i < ps@.len() && #[trigger] ps@[i].0@ == name@;
            assert(names[i] == name@);
            assert(names.to_set().contains(name@));
            if tried.contains(name@) {
                let j = choose|j: nat| 1 <= j < k && name@ == numbered_name(j);
                lemma_numbered_name_injective(j, k as nat);
            }
            tried = tried.insert(name@);
            vstd::set_lib::lemma_len_subset(tried, names.to_set());
            assert(k <= total);
            assert(v[i].0 == numbered_name(k as nat));
            assert forall|n: Seq<char>| #[trigger] tried.contains(n) <==> exists|j: nat| 1 <= j < k + 1 && n == numbered_name(j) by {
                if n == numbered_name(k as nat) {
                    assert(1 <= k < k + 1);
                }
            }
        }
        k = k + 1;
        name = numbered_name_of(k);
    }
    proof {
        assert forall|i: int| 0 <= i < v.len() implies #[trigger] v[i].0 != name@ by {
            assert(ps@[i].0@ != name@);
        }
    }
    name
}

/// `v` without its first entry named `k` (unchanged when there is none).
pub open spec fn remove_first<V>(v: Seq<(Seq<char>, V)>, k: Seq<char>) -> Seq<(Seq<char>, V)>
    decreases v.len(),
{
    if v.len() == 0 {
        v
    } else if v[0].0 == k {
        v.drop_first()
    } else {
        seq![v[0]] + remove_first(v.drop_first(), k)
    }
}

proof fn lemma_remove_first_at<V>(v: Seq<(Seq<char>, V)>, k: Seq<char>, i: int)
    requires
        0 <= i < v.len(),
        v[i].0 == k,
        forall|j: int| 0 <= j < i ==> #[trigger] v[j].0 != k,
    ensures
        remove_first(v, k) == v.remove(i),
        lookup(v, k) == Some(v[i].1),
    decreases i,
{
    if i > 0 {
        assert forall|j: int| 0 <= j < i - 1 implies #[trigger] v.drop_first()[j].0 != k by {
            assert(v.drop_first()[j] == v[j + 1]);
        }
        lemma_remove_first_at(v.drop_first(), k, i - 1);
        assert(v.remove(i) =~= seq![v[0]] + v.drop_first().remove(i - 1));
    } else {
        assert(v.remove(0) =~= v.drop_first());
    }
}

proof fn lemma_remove_first_absent<V>(v: Seq<(Seq<char>, V)>, k: Seq<char>)
    requires
        forall|j: int| 0 <= j < v.len() ==> #[trigger] v[j].0 != k,
    ensures
        remove_first(v, k) == v,
        lookup(v, k) is None,
    decreases v.len(),
{
    if v.len() > 0 {
        assert forall|j: int| 0 <= j < v.len() - 1 implies #[trigger] v.drop_first()[j].0 != k by {
            assert(v.drop_first()[j] == v[j + 1]);
        }
        lemma_remove_first_absent(v.drop_first(), k);
        assert(v =~= seq![v[0]] + v.drop_first());
    }
}

proof fn lemma_store_view_remove(ps: Seq<(String, Profile)>, i: int)
    requires
        0 <= i < ps.len(),
    ensures
        store_view(ps.remove(i)) == store_view(ps).remove(i),
{
    assert(store_view(ps.remove(i)) =~= store_view(ps).remove(i));
}

proof fn lemma_store_view_push(ps: Seq<(String, Profile)>, e: (String, Profile))
    ensures
        store_view(ps.push(e)) == store_view(ps).push((e.0@, e.1@)),
{
    assert(store_view(ps.push(e)) =~= store_view(ps).push((e.0@, e.1@)));
}

/// Whether a profile may be renamed to `requested`: its trimmed form is not
/// empty and no profile has that name yet.
pub open spec fn rename_allowed(v: Seq<(Seq<char>, ProfileView)>, requested: Seq<char>) -> bool {
    trim(requested).len() > 0 && !name_taken(v, trim(requested))
}

/// Whether the profiles may be renamed to `requested` (see [`rename_allowed`]).
pub fn rename_request_ok(ps: &Vec<(String, Profile)>, requested: &str) -> (ok: bool)
    ensures
        ok == rename_allowed(store_view(ps@), requested@),
{
    let req = chars_of(requested);
    let trimmed_name = trimmed(req.as_slice());
    if trimmed_name.len() == 0 {
        return false;
    }
    let new_name = string_of(trimmed_name.as_slice());
    match find_profile(ps, new_name.as_str()) {
        Some(i) => {
            assert(store_view(ps@)[i as int].0 == new_name@);
            false
        },
        None => {
            proof {
                assert forall|i: int| 0 <= i < store_view(ps@).len() implies #[trigger] store_view(ps@)[i].0
                    != new_name@ by {
                    assert(ps@[i].0@ != new_name@);
                }
            }
            true
        },
    }
}

/// Renames the profile `target` to the trimmed `requested` name, unless that is
/// empty or taken: the profile moves to the end under the new name, keeps its
/// mappings, and starts unflagged with no presses counted. Gives the new name.
pub fn rename_profile(ps: &mut Vec<(String, Profile)>, target: &str, requested: &str) -> (r: Option<String>)
    requires
        rename_allowed(store_view(old(ps)@), requested@) ==> lookup(store_view(old(ps)@), target@) is Some,
    ensures
        r is None <==> !rename_allowed(store_view(old(ps)@), requested@),
        r is None ==> final(ps)@ == old(ps)@,
        r matches Some(n) ==> n@ == trim(requested@) && store_view(final(ps)@) == remove_first(
            store_view(old(ps)@),
            target@,
        ).push(
            (
                n@,
                ProfileView {
                    last_used: false,
                    total_key_presses: 0,
                    mappings: lookup(store_view(old(ps)@), target@)->0.mappings,
                },
            ),
        ),
        distinct_keys(store_view(old(ps)@)) ==> distinct_keys(store_view(final(ps)@)),
{
    if !rename_request_ok(ps, requested) {
        return None;
    }
    let req = chars_of(requested);
    let trimmed_name = trimmed(req.as_slice());
    let new_name = string_of(trimmed_name.as_slice());
    proof {
        assert forall|i: int| 0 <= i < store_view(ps@).len() implies #[trigger] store_view(ps@)[i].0 != new_name@ by {
            assert(!name_taken(store_view(ps@), new_name@));
        }
    }
    let idx = match find_profile(ps, target) {
        Some(i) => i,
        None => {
            proof {
                assert(false);
            }
            return None;
        },
    };
    let ghost v = store_view(ps@);
    proof {
        assert forall|j: int| 0 <= j < idx implies #[trigger] v[j].0 != target@ by {
            assert(ps@[j].0@ != target@);
        }
        lemma_remove_first_at(v, target@, idx as int);
        lemma_store_view_remove(ps@, idx as int);
    }
    let (_, old_profile) = ps.remove(idx);
    let renamed = Profile { last_used: false, total_key_presses: 0, mappings: old_profile.mappings };
    let ghost before = ps@;
    ps.push((new_name.clone(), renamed));
    proof {
        lemma_store_view_push(before, ps@.last());
        if distinct_keys(v) {
            lemma_rename_keeps_names_distinct(v, target@, new_name@, ps@.last().1@);
        }
    }
    Some(new_name)
}

/// Deletes the profile `current` and gives the name of the profile to show next:
/// the first of those left.
pub fn delete_profile(ps: &mut Vec<(String, Profile)>, current: &str) -> (next: String)
    requires
        remove_first(store_view(old(ps)@), current@).len() > 0,
    ensures
        store_view(final(ps)@) == remove_first(store_view(old(ps)@), current@),
        final(ps)@.len() > 0,
        next@ == final(ps)@[0].0@,
        distinct_keys(store_view(old(ps)@)) ==> distinct_keys(store_view(final(ps)@)),
{
    let ghost v = store_view(ps@);
    proof {
        if distinct_keys(v) {
            lemma_remove_keeps_names_distinct(v, current@);
        }
    }
    match find_profile(ps, current) {
        Some(idx) => {
            proof {
                assert forall|j: int| 0 <= j < idx implies #[trigger] v[j].0 != current@ by {
                    assert(ps@[j].0@ != current@);
                }
                lemma_remove_first_at(v, current@, idx as int);
                lemma_store_view_remove(ps@, idx as int);
            }
            ps.remove(idx);
        },
        None => {
            proof {
                assert forall|j: int| 0 <= j < v.len() implies #[trigger] v[j].0 != current@ by {
                    assert(ps@[j].0@ != current@);
                }
                lemma_remove_first_absent(v, current@);
            }
        },
    }
    ps[0].0.clone()
}

/// `v` with the profile `p` stored under `k`: in place of the first entry named
/// `k`, else added at the end.
pub open spec fn put<V>(v: Seq<(Seq<char>, V)>, k: Seq<char>, p: V) -> Seq<(Seq<char>, V)>
    decreases v.len(),
{
    if v.len() == 0 {
        seq![(k, p)]
    } else if v[0].0 == k {
        v.update(0, (k, p))
    } else {
        seq![v[0]] + put(v.drop_first(), k, p)
    }
}

proof fn lemma_put_at<V>(v: Seq<(Seq<char>, V)>, k: Seq<char>, p: V, i: int)
    requires
        0 <= i < v.len(),
        v[i].0 == k,
        forall|j: int| 0 <= j < i ==> #[trigger] v[j].0 != k,
    ensures
        put(v, k, p) == v.update(i, (k, p)),
    decreases i,
{
    if i > 0 {
        assert forall|j: int| 0 <= j < i - 1 implies #[trigger] v.drop_first()[j].0 != k by {
            assert(v.drop_first()[j] == v[j + 1]);
        }
        lemma_put_at(v.drop_first(), k, p, i - 1);
        assert(v.update(i, (k, p)) =~= seq![v[0]] + v.drop_first().update(i - 1, (k, p)));
    }
}

proof fn lemma_put_absent<V>(v: Seq<(Seq<char>, V)>, k: Seq<char>, p: V)
    requires
        forall|j: int| 0 <= j < v.len() ==> #[trigger] v[j].0 != k,
    ensures
        put(v, k, p) == v.push((k, p)),
    decreases v.len(),
{
    if v.len() > 0 {
        assert forall|j: int| 0 <= j < v.len() - 1 implies #[trigger] v.drop_first()[j].0 != k by {
            assert(v.drop_first()[j] == v[j + 1]);
        }
        lemma_put_absent(v.drop_first(), k, p);
        assert(v.push((k, p)) =~= seq![v[0]] + v.drop_first().push((k, p)));
    }
}

/// Stores `p` under `name`, replacing a profile of that name (as an imported
/// profile does).
pub fn insert_profile(ps: &mut Vec<(String, Profile)>, name: &str, p: Profile)
    ensures
        store_view(final(ps)@) == put(store_view(old(ps)@), name@, p@),
        distinct_keys(store_view(old(ps)@)) ==> distinct_keys(store_view(final(ps)@)),
{
    let ghost v = store_view(ps@);
    let ghost pv = p@;
    proof {
        if distinct_keys(v) {
            lemma_put_keeps_names_distinct(v, name@, pv);
        }
    }
    match find_profile(ps, name) {
        Some(idx) => {
            proof {
                assert forall|j: int| 0 <= j < idx implies #[trigger] v[j].0 != name@ by {
                    assert(ps@[j].0@ != name@);
                }
                lemma_put_at(v, name@, pv, idx as int);
            }
            ps[idx].1 = p;
            proof {
                assert(store_view(ps@) =~= v.update(idx as int, (name@, pv)));
            }
        },
        None => {
            proof {
                assert forall|j: int| 0 <= j < v.len() implies #[trigger] v[j].0 != name@ by {
                    assert(ps@[j].0@ != name@);
                }
                lemma_put_absent(v, name@, pv);
            }
            let ghost before = ps@;
            ps.push((String::from_str(name), p));
            proof {
                lemma_store_view_push(before, ps@.last());
            }
        },
    }
}

/// Adds a new profile with every input unassigned under the first free
/// candidate name, and gives that name.
pub fn add_new_profile(ps: &mut Vec<(String, Profile)>) -> (name: String)
    ensures
        !name_taken(store_view(old(ps)@), name@),
        exists|k: nat| 1 <= k && name@ == numbered_name(k) && (forall|j: nat| 1 <= j < k ==> name_taken(store_view(old(ps)@), #[trigger] numbered_name(j))),
        store_view(final(ps)@) == store_view(old(ps)@).push(
            (
                name@,
                ProfileView { last_used: false, total_key_presses: 0, mappings: default_table(INPUT_COUNT as nat) },
            ),
        ),
        distinct_keys(store_view(old(ps)@)) ==> distinct_keys(store_view(final(ps)@)),
{
    let name = unique_profile_name(ps);
    let ghost before = ps@;
    ps.push((name.clone(), new_profile()));
    proof {
        lemma_store_view_push(before, ps@.last());
        let v = store_view(before);
        if distinct_keys(v) {
            assert forall|j: int| 0 <= j < v.len() implies #[trigger] v[j].0 != name@ by {}
            lemma_push_fresh_keeps_names_distinct(v, name@, ps@.last().1@);
        }
    }
    name
}

/// The combination that stands for a cancelled recording.
pub const CANCEL_TOKEN: &'static str = "__cancel__";

/// The slots after recording `combo` into slot `slot`: in place when the slot
/// exists, else added after the last.
pub open spec fn record_into(slots: Seq<Seq<char>>, slot: int, combo: Seq<char>) -> Seq<Seq<char>> {
    if slot < slots.len() {
        slots.update(slot, combo)
    } else {
        slots.push(combo)
    }
}

proof fn lemma_mappings_view_update(m: Seq<(String, Vec<String>)>, i: int, e: (String, Vec<String>))
    requires
        0 <= i < m.len(),
    ensures
        mappings_view(m.update(i, e)) == mappings_view(m).update(i, (e.0@, slots_view(e.1@))),
{
    assert(mappings_view(m.update(i, e)) =~= mappings_view(m).update(i, (e.0@, slots_view(e.1@))));
}

/// Stores a finished recording: unless `combo` is the cancel token, the
/// combination goes into slot `slot` (slot 0 when none was chosen) of `input`'s
/// slots. Gives whether the profiles are to be saved.
pub fn apply_recording(
    m: &mut Vec<(String, Vec<String>)>,
    input: &str,
    slot: Option<usize>,
    combo: String,
) -> (save: bool)
    ensures
        save == (combo@ != CANCEL_TOKEN@),
        !save ==> final(m)@ == old(m)@,
        save ==> mappings_view(final(m)@) == match lookup(mappings_view(old(m)@), input@) {
            Some(slots) => put(
                mappings_view(old(m)@),
                input@,
                record_into(
                    slots,
                    match slot {
                        Some(s) => s as int,
                        None => 0,
                    },
                    combo@,
                ),
            ),
            None => mappings_view(old(m)@),
        },
        distinct_keys(mappings_view(old(m)@)) ==> distinct_keys(mappings_view(final(m)@)),
{
    proof {
        let mv0 = mappings_view(m@);
        if distinct_keys(mv0) {
            lemma_put_keeps_names_distinct(
                mv0,
                input@,
                record_into(
                    lookup(mv0, input@)->0,
                    match slot {
                        Some(s) => s as int,
                        None => 0,
                    },
                    combo@,
                ),
            );
        }
    }
    if str_eq(combo.as_str(), CANCEL_TOKEN) {
        return false;
    }
    let s: usize = match slot {
        Some(s) => s,
        None => 0,
    };
    let ghost mv = mappings_view(m@);
    match find_mapping(m.as_slice(), input) {
        Some(idx) => {
            let ghost slots = mv[idx as int].1;
            let ghost combo_view = combo@;
            let mut list = copy_slots(&m[idx].1);
            if s < list.len() {
                list.set(s, combo);
                assert(slots_view(list@) =~= slots.update(s as int, combo_view));
            } else {
                let ghost before = list@;
                list.push(combo);
                proof {
                    lemma_slots_view_push(before, list@.last());
                }
            }
            let name = copy_string(&m[idx].0);
            let ghost before = m@;
            m.set(idx, (name, list));
            proof {
                assert forall|j: int| 0 <= j < idx implies #[trigger] mv[j].0 != input@ by {
                    assert(before[j].0@ != input@);
                }
                lemma_put_at(mv, input@, record_into(slots, s as int, combo_view), idx as int);
                lemma_mappings_view_update(before, idx as int, m@[idx as int]);
            }
        },
        None => {},
    }
    true
}

/// The most slots an input can have.
pub const MAX_SLOTS: usize = 10;

/// Adds an empty slot, while there are fewer than ten.
pub fn add_slot(slots: &mut Vec<String>)
    ensures
        slots_view(final(slots)@) == (if old(slots)@.len() < MAX_SLOTS {
            slots_view(old(slots)@).push(Seq::<char>::empty())
        } else {
            slots_view(old(slots)@)
        }),
{
    if slots.len() < MAX_SLOTS {
        let ghost before = slots@;
        slots.push(String::new());
        proof {
            lemma_slots_view_push(before, slots@.last());
        }
    }
}

/// Resets the slots to a single empty one.
pub fn reset_slots(slots: &mut Vec<String>)
    ensures
        slots_view(final(slots)@) == seq![Seq::<char>::empty()],
{
    slots.clear();
    slots.push(String::new());
    assert(slots_view(slots@) =~= seq![Seq::<char>::empty()]);
}

/// Puts `token` into slot `idx` (an empty token clears the slot).
pub fn set_slot(slots: &mut Vec<String>, idx: usize, token: String)
    requires
        idx < old(slots)@.len(),
    ensures
        slots_view(final(slots)@) == slots_view(old(slots)@).update(idx as int, token@),
{
    let ghost t = token@;
    slots.set(idx, token);
    assert(slots_view(slots@) =~= slots_view(old(slots)@).update(idx as int, t));
}

proof fn lemma_lookup_prefix<V>(a: Seq<(Seq<char>, V)>, b: Seq<(Seq<char>, V)>, k: Seq<char>)
    requires
        lookup(a, k) is Some,
    ensures
        lookup(a + b, k) == lookup(a, k),
    decreases a.len(),
{
    if a[0].0 != k {
        lemma_lookup_prefix(a.drop_first(), b, k);
        assert((a + b).drop_first() =~= a.drop_first() + b);
    }
}

/// After the repair every input has an entry, and the entries that were there
/// come first, unchanged.
pub proof fn lemma_repair_complete(m: Seq<(Seq<char>, Seq<Seq<char>>)>, n: nat)
    ensures
        forall|i: int| 0 <= i < n ==> #[trigger] lookup(repaired(m, n), input_name(i)) is Some,
        repaired(m, n).len() >= m.len(),
        repaired(m, n).take(m.len() as int) == m,
    decreases n,
{
    if n > 0 {
        lemma_repair_complete(m, (n - 1) as nat);
        let r = repaired(m, (n - 1) as nat);
        if lookup(r, input_name(n - 1)) is None {
            let e = (input_name(n - 1), seq![Seq::<char>::empty()]);
            assert forall|i: int| 0 <= i < n implies #[trigger] lookup(repaired(m, n), input_name(i)) is Some by {
                if i < n - 1 {
                    lemma_lookup_prefix(r, seq![e], input_name(i));
                    assert(r.push(e) =~= r + seq![e]);
                } else {
                    lemma_lookup_appended(r, e);
                }
            }
            assert(r.push(e).take(m.len() as int) =~= r.take(m.len() as int));
        }
    }
}

proof fn lemma_lookup_appended<V>(r: Seq<(Seq<char>, V)>, e: (Seq<char>, V))
    requires
        lookup(r, e.0) is None,
    ensures
        lookup(r.push(e), e.0) == Some(e.1),
    decreases r.len(),
{
    if r.len() > 0 {
        lemma_lookup_appended(r.drop_first(), e);
        assert(r.push(e).drop_first() =~= r.drop_first().push(e));
    }
}

proof fn lemma_others_unflagged(v: Seq<(Seq<char>, ProfileView)>, current: Seq<char>)
    ensures
        forall|i: int| 0 <= i < others_unflagged(v, current).len() ==> !(#[trigger] others_unflagged(v, current)[i]).1.last_used,
    decreases v.len(),
{
    if v.len() > 0 {
        lemma_others_unflagged(v.drop_last(), current);
        let rest = others_unflagged(v.drop_last(), current);
        let st = others_unflagged(v, current);
        assert forall|i: int| 0 <= i < st.len() implies !(#[trigger] st[i]).1.last_used by {
            if i < rest.len() {
                assert(st[i] == rest[i]);
            }
        }
    }
}

/// Saving writes at most one flagged profile: the current one.
pub proof fn lemma_save_flags_only_current(v: Seq<(Seq<char>, ProfileView)>, current: Seq<char>, counter: u64)
    ensures
        forall|i: int| 0 <= i < save_list(v, current, counter).len() && #[trigger] save_list(v, current, counter)[i].1.last_used ==> save_list(v, current, counter)[i].0 == current,
{
    lemma_others_unflagged(v, current);
    let st = others_unflagged(v, current);
    let sl = save_list(v, current, counter);
    assert forall|i: int| 0 <= i < sl.len() && #[trigger] sl[i].1.last_used implies sl[i].0 == current by {
        if i < st.len() {
            assert(sl[i] == st[i]);
        }
    }
}

/// The file name of the profile `name`: the name with `.json` added.
pub fn profile_file_name(name: &str) -> (r: String)
    ensures
        r@ == name@ + ".json"@,
{
    let mut s = String::from_str(name);
    s.append(".json");
    s
}

/// The name of the profile created when there is none.
pub const DEFAULT_PROFILE: &'static str = "Default";

/// When there are no profiles, adds the profile `Default` with every input
/// unassigned; gives whether it did (the new profile is then written out).
pub fn add_default_if_empty(ps: &mut Vec<(String, Profile)>) -> (added: bool)
    ensures
        added == (old(ps)@.len() == 0),
        added ==> store_view(final(ps)@) == seq![
            (
                DEFAULT_PROFILE@,
                ProfileView { last_used: false, total_key_presses: 0, mappings: default_table(INPUT_COUNT as nat) },
            ),
        ],
        !added ==> final(ps)@ == old(ps)@,
        distinct_keys(store_view(old(ps)@)) ==> distinct_keys(store_view(final(ps)@)),
{
    if ps.len() == 0 {
        ps.push((String::from_str(DEFAULT_PROFILE), new_profile()));
        assert(store_view(ps@) =~= seq![(DEFAULT_PROFILE@, ps@[0].1@)]);
        true
    } else {
        false
    }
}

/// The profiles with each one's mapping table repaired.
pub open spec fn all_repaired(v: Seq<(Seq<char>, ProfileView)>) -> Seq<(Seq<char>, ProfileView)> {
    v.map_values(
        |e: (Seq<char>, ProfileView)|
            (
                e.0,
                ProfileView {
                    last_used: e.1.last_used,
                    total_key_presses: e.1.total_key_presses,
                    mappings: repaired(e.1.mappings, INPUT_COUNT as nat),
                },
            ),
    )
}

/// Adds an unassigned entry for every missing input to every profile.
pub fn repair_all(ps: &mut Vec<(String, Profile)>)
    ensures
        store_view(final(ps)@) == all_repaired(store_view(old(ps)@)),
        distinct_keys(store_view(old(ps)@)) ==> distinct_keys(store_view(final(ps)@)),
{
    let ghost v = store_view(ps@);
    proof {
        if distinct_keys(v) {
            lemma_all_repaired_keeps_names_distinct(v);
        }
    }
    let mut i: usize = 0;
    while i < ps.len()
        invariant
            i <= ps@.len(),
            ps@.len() == v.len(),
            store_view(ps@).take(i as int) == all_repaired(v).take(i as int),
            store_view(ps@).skip(i as int) == v.skip(i as int),
        decreases ps.len() - i,
    {
        let ghost before = ps@;
        proof {
            assert(store_view(before).skip(i as int)[0] == v[i as int]);
        }
        let mut table = copy_mappings(&ps[i].1.mappings);
        repair_mappings(&mut table);
        ps[i].1.mappings = table;
        proof {
            assert(store_view(ps@).take(i + 1) =~= all_repaired(v).take(i + 1)) by {
                assert(store_view(ps@).take(i as int) =~= store_view(before).take(i as int));
            }
            assert(store_view(ps@).skip(i + 1) =~= v.skip(i + 1)) by {
                assert(store_view(ps@).skip(i + 1) =~= store_view(before).skip(i + 1));
                assert(store_view(before).skip(i + 1) =~= store_view(before).skip(i as int).drop_first());
                assert(v.skip(i + 1) =~= v.skip(i as int).drop_first());
            }
        }
        i = i + 1;
    }
    proof {
        assert(store_view(ps@) =~= store_view(ps@).take(ps@.len() as int));
        assert(all_repaired(v) =~= all_repaired(v).take(v.len() as int));
    }
}


/// After `p` is stored under `k`, looking `k` up gives `p`, and every other
/// name gives what it gave before.
pub proof fn lemma_put_then_lookup<V>(v: Seq<(Seq<char>, V)>, k: Seq<char>, p: V, other: Seq<char>)
    ensures
        lookup(put(v, k, p), k) == Some(p),
        other != k ==> lookup(put(v, k, p), other) == lookup(v, other),
    decreases v.len(),
{
    if v.len() == 0 {
        let u = seq![(k, p)];
        assert(u[0] == (k, p));
        assert(u.drop_first() =~= Seq::<(Seq<char>, V)>::empty());
        assert(other != k ==> lookup(u, other) == lookup(u.drop_first(), other));
    } else if v[0].0 == k {
        let u = v.update(0, (k, p));
        assert(u[0] == (k, p));
        assert(u.drop_first() =~= v.drop_first());
        assert(other != k ==> lookup(u, other) == lookup(u.drop_first(), other));
        assert(other != k ==> lookup(v, other) == lookup(v.drop_first(), other));
    } else {
        lemma_put_then_lookup(v.drop_first(), k, p, other);
        let u = seq![v[0]] + put(v.drop_first(), k, p);
        assert(u[0] == v[0]);
        assert(u.drop_first() =~= put(v.drop_first(), k, p));
    }
}

/// After the first entry named `k` is removed from a table without repeated
/// names, `k` is no longer found, and every other name gives what it gave before.
pub proof fn lemma_remove_then_lookup<V>(v: Seq<(Seq<char>, V)>, k: Seq<char>, other: Seq<char>)
    requires
        distinct_keys(v),
    ensures
        lookup(remove_first(v, k), k) is None,
        other != k ==> lookup(remove_first(v, k), other) == lookup(v, other),
    decreases v.len(),
{
    if v.len() > 0 {
        if v[0].0 == k {
            assert forall|j: int| 0 <= j < v.drop_first().len() implies #[trigger] v.drop_first()[j].0 != k by {
                assert(v.drop_first()[j] == v[j + 1]);
            }
            lemma_remove_first_absent(v.drop_first(), k);
        } else {
            lemma_distinct_drop_first(v);
            lemma_remove_then_lookup(v.drop_first(), k, other);
            assert((seq![v[0]] + remove_first(v.drop_first(), k)).drop_first() =~= remove_first(
                v.drop_first(),
                k,
            ));
        }
    }
}

proof fn lemma_distinct_drop_first<V>(v: Seq<(Seq<char>, V)>)
    requires
        distinct_keys(v),
        v.len() > 0,
    ensures
        distinct_keys(v.drop_first()),
{
    assert forall|i: int, j: int| 0 <= i < j < v.drop_first().len() implies #[trigger] v.drop_first()[i].0
        != #[trigger] v.drop_first()[j].0 by {
        assert(v.drop_first()[i] == v[i + 1]);
        assert(v.drop_first()[j] == v[j + 1]);
    }
}

proof fn lemma_remove_first_distinct_cases<V>(v: Seq<(Seq<char>, V)>, k: Seq<char>)
    requires
        distinct_keys(v),
    ensures
        (forall|j: int| 0 <= j < v.len() ==> #[trigger] v[j].0 != k) ==> remove_first(v, k) == v,
        forall|i: int| 0 <= i < v.len() && #[trigger] v[i].0 == k ==> remove_first(v, k) == v.remove(i),
{
    if forall|j: int| 0 <= j < v.len() ==> #[trigger] v[j].0 != k {
        lemma_remove_first_absent(v, k);
    }
    assert forall|i: int| 0 <= i < v.len() && #[trigger] v[i].0 == k implies remove_first(v, k) == v.remove(i) by {
        assert forall|j: int| 0 <= j < i implies #[trigger] v[j].0 != k by {}
        lemma_remove_first_at(v, k, i);
    }
}

/// Removing the first entry of a name keeps the names of a table distinct.
pub proof fn lemma_remove_keeps_names_distinct<V>(v: Seq<(Seq<char>, V)>, k: Seq<char>)
    requires
        distinct_keys(v),
    ensures
        distinct_keys(remove_first(v, k)),
{
    lemma_remove_first_distinct_cases(v, k);
    if exists|i: int| 0 <= i < v.len() && #[trigger] v[i].0 == k {
        let i = choose|i: int| 0 <= i < v.len() && #[trigger] v[i].0 == k;
        let r = v.remove(i);
        assert forall|a: int, b: int| 0 <= a < b < r.len() implies #[trigger] r[a].0 != #[trigger] r[b].0 by {
            let a2 = if a < i { a } else { a + 1 };
            let b2 = if b < i { b } else { b + 1 };
            assert(r[a] == v[a2]);
            assert(r[b] == v[b2]);
        }
    }
}

/// Storing under a name keeps the names of a table distinct.
pub proof fn lemma_put_keeps_names_distinct<V>(v: Seq<(Seq<char>, V)>, k: Seq<char>, p: V)
    requires
        distinct_keys(v),
    ensures
        distinct_keys(put(v, k, p)),
{
    if exists|i: int| 0 <= i < v.len() && v[i].0 == k {
        let i = choose|i: int| 0 <= i < v.len() && v[i].0 == k;
        assert forall|j: int| 0 <= j < i implies #[trigger] v[j].0 != k by {}
        lemma_put_at(v, k, p, i);
        let u = put(v, k, p);
        assert forall|a: int, b: int| 0 <= a < b < u.len() implies #[trigger] u[a].0 != #[trigger] u[b].0 by {
            assert(u[a].0 == v[a].0);
            assert(u[b].0 == v[b].0);
        }
    } else {
        assert forall|j: int| 0 <= j < v.len() implies #[trigger] v[j].0 != k by {}
        lemma_put_absent(v, k, p);
    }
}

/// Adding an entry under a name that the table does not have keeps its names distinct.
pub proof fn lemma_push_fresh_keeps_names_distinct<V>(v: Seq<(Seq<char>, V)>, k: Seq<char>, p: V)
    requires
        distinct_keys(v),
        forall|j: int| 0 <= j < v.len() ==> #[trigger] v[j].0 != k,
    ensures
        distinct_keys(v.push((k, p))),
{
    let u = v.push((k, p));
    assert forall|a: int, b: int| 0 <= a < b < u.len() implies #[trigger] u[a].0 != #[trigger] u[b].0 by {
        if b < v.len() {
            assert(u[a] == v[a] && u[b] == v[b]);
        } else {
            assert(u[a] == v[a]);
        }
    }
}

/// A rename keeps the profile names distinct: the old entry goes and the new
/// name was free.
pub proof fn lemma_rename_keeps_names_distinct(
    v: Seq<(Seq<char>, ProfileView)>,
    target: Seq<char>,
    new_name: Seq<char>,
    p: ProfileView,
)
    requires
        distinct_keys(v),
        !name_taken(v, new_name),
    ensures
        distinct_keys(remove_first(v, target).push((new_name, p))),
{
    lemma_remove_keeps_names_distinct(v, target);
    lemma_remove_first_distinct_cases(v, target);
    let r = remove_first(v, target);
    if exists|i: int| 0 <= i < v.len() && #[trigger] v[i].0 == target {
        let i = choose|i: int| 0 <= i < v.len() && #[trigger] v[i].0 == target;
        assert forall|j: int| 0 <= j < r.len() implies #[trigger] r[j].0 != new_name by {
            let j2 = if j < i { j } else { j + 1 };
            assert(r[j] == v[j2]);
        }
    } else {
        assert forall|j: int| 0 <= j < r.len() implies #[trigger] r[j].0 != new_name by {
            assert(r[j] == v[j]);
        }
    }
    lemma_push_fresh_keeps_names_distinct(r, new_name, p);
}


proof fn lemma_lookup_found<V>(v: Seq<(Seq<char>, V)>, k: Seq<char>)
    ensures
        lookup(v, k) is Some <==> exists|i: int| 0 <= i < v.len() && #[trigger] v[i].0 == k,
    decreases v.len(),
{
    if v.len() > 0 {
        lemma_lookup_found(v.drop_first(), k);
        if lookup(v.drop_first(), k) is Some {
            let i = choose|i: int| 0 <= i < v.drop_first().len() && #[trigger] v.drop_first()[i].0 == k;
            assert(v[i + 1].0 == k);
        }
        if exists|i: int| 0 <= i < v.len() && #[trigger] v[i].0 == k {
            let i = choose|i: int| 0 <= i < v.len() && #[trigger] v[i].0 == k;
            if i > 0 {
                assert(v.drop_first()[i - 1].0 == k);
            }
        }
    }
}

/// The profile taken at start is one of the profiles, and afterwards it is the
/// only one flagged as last in use (when no two profiles share a name).
pub proof fn lemma_startup_flags_one_profile(v: Seq<(Seq<char>, ProfileView)>, r: Seq<char>)
    requires
        v.len() > 0,
        startup_choice(v, r),
    ensures
        name_taken(v, r),
        exists|i: int| #[trigger] flagged(flag_only(v, r), i),
        distinct_keys(v) ==> forall|i: int, j: int|
            #[trigger] flagged(flag_only(v, r), i) && #[trigger] flagged(flag_only(v, r), j) ==> i == j,
{
    reveal_strlit("Default");
    lemma_lookup_found(v, "Default"@);
    let f = flag_only(v, r);
    if any_flagged(v) {
        let i = choose|i: int| #[trigger] flagged(v, i) && v[i].0 == r;
        assert(v[i].0 == r);
        assert(flagged(f, i));
    } else if lookup(v, "Default"@) is Some {
        let i = choose|i: int| 0 <= i < v.len() && #[trigger] v[i].0 == "Default"@;
        assert(flagged(f, i));
    } else {
        assert(v[0].0 == r);
        assert(flagged(f, 0));
    }
}

proof fn lemma_lookup_none_absent<V>(v: Seq<(Seq<char>, V)>, k: Seq<char>)
    requires
        lookup(v, k) is None,
    ensures
        forall|j: int| 0 <= j < v.len() ==> #[trigger] v[j].0 != k,
{
    lemma_lookup_found(v, k);
}

/// The repair of a mapping table without repeated input names adds no repeated name.
pub proof fn lemma_repair_keeps_names_distinct(m: Seq<(Seq<char>, Seq<Seq<char>>)>, n: nat)
    requires
        distinct_keys(m),
    ensures
        distinct_keys(repaired(m, n)),
    decreases n,
{
    if n > 0 {
        lemma_repair_keeps_names_distinct(m, (n - 1) as nat);
        let r = repaired(m, (n - 1) as nat);
        if lookup(r, input_name(n - 1)) is None {
            lemma_lookup_none_absent(r, input_name(n - 1));
            lemma_push_fresh_keeps_names_distinct(r, input_name(n - 1), seq![Seq::<char>::empty()]);
        }
    }
}

/// Escape cancels a recording whatever modifiers are held: the combination
/// recorded is the cancel token, which [`apply_recording`] does not store.
pub proof fn lemma_escape_always_cancels(ctrl: bool, shift: bool, alt: bool, win: bool)
    ensures
        recorded_combination(ctrl, shift, alt, win, recorded_token("escape"@)) == CANCEL_TOKEN@,
{
    reveal_strlit("escape");
}


proof fn lemma_flag_only_keeps_names_distinct(v: Seq<(Seq<char>, ProfileView)>, r: Seq<char>)
    requires
        distinct_keys(v),
    ensures
        distinct_keys(flag_only(v, r)),
{
    let f = flag_only(v, r);
    assert forall|a: int, b: int| 0 <= a < b < f.len() implies #[trigger] f[a].0 != #[trigger] f[b].0 by {
        assert(f[a].0 == v[a].0 && f[b].0 == v[b].0);
    }
}

proof fn lemma_all_repaired_keeps_names_distinct(v: Seq<(Seq<char>, ProfileView)>)
    requires
        distinct_keys(v),
    ensures
        distinct_keys(all_repaired(v)),
{
    let f = all_repaired(v);
    assert forall|a: int, b: int| 0 <= a < b < f.len() implies #[trigger] f[a].0 != #[trigger] f[b].0 by {
        assert(f[a].0 == v[a].0 && f[b].0 == v[b].0);
    }
}

/// Stores an imported profile under `name`, replacing a profile of that name,
/// with an unassigned entry added for every input that its table lacks.
pub fn import_profile(ps: &mut Vec<(String, Profile)>, name: &str, p: Profile)
    ensures
        store_view(final(ps)@) == put(
            store_view(old(ps)@),
            name@,
            ProfileView {
                last_used: p@.last_used,
                total_key_presses: p@.total_key_presses,
                mappings: repaired(p@.mappings, INPUT_COUNT as nat),
            },
        ),
        distinct_keys(store_view(old(ps)@)) ==> distinct_keys(store_view(final(ps)@)),
{
    let mut p = p;
    repair_mappings(&mut p.mappings);
    insert_profile(ps, name, p);
}

/// A profile as written when it is not the current one: unflagged, otherwise unchanged.
pub open spec fn unflagged(p: ProfileView) -> ProfileView {
    ProfileView { last_used: false, total_key_presses: p.total_key_presses, mappings: p.mappings }
}

proof fn lemma_others_contain(v: Seq<(Seq<char>, ProfileView)>, current: Seq<char>, i: int)
    requires
        0 <= i < v.len(),
        v[i].0 != current,
    ensures
        others_unflagged(v, current).contains((v[i].0, unflagged(v[i].1))),
    decreases v.len(),
{
    let rest = others_unflagged(v.drop_last(), current);
    if i == v.len() - 1 {
        assert(others_unflagged(v, current) == rest.push((v[i].0, unflagged(v[i].1))));
        assert(others_unflagged(v, current)[rest.len() as int] == (v[i].0, unflagged(v[i].1)));
    } else {
        lemma_others_contain(v.drop_last(), current, i);
        let j = choose|j: int| 0 <= j < rest.len() && rest[j] == (v[i].0, unflagged(v[i].1));
        let all = others_unflagged(v, current);
        assert(all[j] == rest[j]);
    }
}

/// Saving writes every profile other than the current one, unflagged.
pub proof fn lemma_save_writes_every_other(v: Seq<(Seq<char>, ProfileView)>, current: Seq<char>, counter: u64, i: int)
    requires
        0 <= i < v.len(),
        v[i].0 != current,
    ensures
        save_list(v, current, counter).contains((v[i].0, unflagged(v[i].1))),
{
    lemma_others_contain(v, current, i);
    let o = others_unflagged(v, current);
    let j = choose|j: int| 0 <= j < o.len() && o[j] == (v[i].0, unflagged(v[i].1));
    assert(save_list(v, current, counter)[j] == o[j]);
}

/// Whether the mapping table has an entry for every controller input.
pub open spec fn lists_every_input(m: Seq<(Seq<char>, Seq<Seq<char>>)>) -> bool {
    forall|i: int| 0 <= i < INPUT_COUNT ==> #[trigger] lookup(m, input_name(i)) is Some
}

/// What the window relies on: there is a profile, the current one is among
/// them, and every profile's table lists every input.
pub open spec fn store_ok(v: Seq<(Seq<char>, ProfileView)>, current: Seq<char>) -> bool {
    &&& v.len() > 0
    &&& lookup(v, current) is Some
    &&& forall|j: int| 0 <= j < v.len() ==> lists_every_input(#[trigger] v[j].1.mappings)
}

proof fn lemma_lookup_source<V>(v: Seq<(Seq<char>, V)>, k: Seq<char>) -> (i: int)
    requires
        lookup(v, k) is Some,
    ensures
        0 <= i < v.len(),
        v[i].0 == k,
        lookup(v, k) == Some(v[i].1),
    decreases v.len(),
{
    if v[0].0 == k {
        0
    } else {
        let j = lemma_lookup_source(v.drop_first(), k);
        j + 1
    }
}

proof fn lemma_remove_first_source<V>(v: Seq<(Seq<char>, V)>, k: Seq<char>, j: int) -> (i: int)
    requires
        0 <= j < remove_first(v, k).len(),
    ensures
        0 <= i < v.len(),
        remove_first(v, k)[j] == v[i],
    decreases v.len(),
{
    if v[0].0 == k {
        j + 1
    } else if j == 0 {
        0
    } else {
        let t = remove_first(v.drop_first(), k);
        assert(remove_first(v, k)[j] == t[j - 1]);
        let i = lemma_remove_first_source(v.drop_first(), k, j - 1);
        i + 1
    }
}

proof fn lemma_put_source<V>(v: Seq<(Seq<char>, V)>, k: Seq<char>, p: V, j: int) -> (i: int)
    requires
        0 <= j < put(v, k, p).len(),
    ensures
        i == -1 ==> put(v, k, p)[j] == (k, p),
        i != -1 ==> 0 <= i < v.len() && put(v, k, p)[j] == v[i],
    decreases v.len(),
{
    if v.len() == 0 {
        -1
    } else if v[0].0 == k {
        if j == 0 {
            -1
        } else {
            j
        }
    } else if j == 0 {
        0
    } else {
        let t = put(v.drop_first(), k, p);
        assert(put(v, k, p)[j] == t[j - 1]);
        let i = lemma_put_source(v.drop_first(), k, p, j - 1);
        if i == -1 {
            -1
        } else {
            i + 1
        }
    }
}

proof fn lemma_found_at<V>(v: Seq<(Seq<char>, V)>, k: Seq<char>, i: int)
    requires
        0 <= i < v.len(),
        v[i].0 == k,
    ensures
        lookup(v, k) is Some,
{
    lemma_lookup_found(v, k);
}

proof fn lemma_default_table_entries(n: nat)
    ensures
        default_table(n).len() == n,
        forall|i: int| 0 <= i < n ==> (#[trigger] default_table(n)[i]).0 == input_name(i),
    decreases n,
{
    if n > 0 {
        lemma_default_table_entries((n - 1) as nat);
    }
}

proof fn lemma_default_table_complete()
    ensures
        lists_every_input(default_table(INPUT_COUNT as nat)),
{
    lemma_default_table_entries(INPUT_COUNT as nat);
    assert forall|i: int| 0 <= i < INPUT_COUNT implies #[trigger] lookup(default_table(INPUT_COUNT as nat), input_name(i)) is Some by {
        lemma_found_at(default_table(INPUT_COUNT as nat), input_name(i), i);
    }
}

proof fn lemma_repaired_complete(m: Seq<(Seq<char>, Seq<Seq<char>>)>)
    ensures
        lists_every_input(repaired(m, INPUT_COUNT as nat)),
{
    lemma_repair_complete(m, INPUT_COUNT as nat);
}

/// At start (after every table is repaired), the chosen profile gives a store
/// that the window can rely on.
pub proof fn lemma_store_ok_at_start(v: Seq<(Seq<char>, ProfileView)>, r: Seq<char>)
    requires
        v.len() > 0,
        startup_choice(all_repaired(v), r),
    ensures
        store_ok(flag_only(all_repaired(v), r), r),
{
    let a = all_repaired(v);
    let f = flag_only(a, r);
    lemma_startup_flags_one_profile(a, r);
    let i = choose|i: int| 0 <= i < a.len() && #[trigger] a[i].0 == r;
    assert(f[i].0 == r);
    lemma_found_at(f, r, i);
    assert forall|j: int| 0 <= j < f.len() implies lists_every_input(#[trigger] f[j].1.mappings) by {
        assert(f[j].1.mappings == repaired(v[j].1.mappings, INPUT_COUNT as nat));
        lemma_repaired_complete(v[j].1.mappings);
    }
}

/// Picking another profile that exists keeps the store reliable.
pub proof fn lemma_store_ok_select(v: Seq<(Seq<char>, ProfileView)>, current: Seq<char>, next: Seq<char>)
    requires
        store_ok(v, current),
        name_taken(v, next),
    ensures
        store_ok(v, next),
{
    let i = choose|i: int| 0 <= i < v.len() && #[trigger] v[i].0 == next;
    lemma_found_at(v, next, i);
}

/// Adding a new profile and making it current keeps the store reliable.
pub proof fn lemma_store_ok_new(v: Seq<(Seq<char>, ProfileView)>, current: Seq<char>, name: Seq<char>)
    requires
        store_ok(v, current),
    ensures
        store_ok(
            v.push(
                (
                    name,
                    ProfileView { last_used: false, total_key_presses: 0, mappings: default_table(INPUT_COUNT as nat) },
                ),
            ),
            name,
        ),
{
    let e = (name, ProfileView { last_used: false, total_key_presses: 0, mappings: default_table(INPUT_COUNT as nat) });
    let u = v.push(e);
    lemma_found_at(u, name, v.len() as int);
    lemma_default_table_complete();
    assert forall|j: int| 0 <= j < u.len() implies lists_every_input(#[trigger] u[j].1.mappings) by {
        if j < v.len() {
            assert(u[j] == v[j]);
        }
    }
}

/// Deleting the current profile, when one is left, and showing the first of
/// those left keeps the store reliable.
pub proof fn lemma_store_ok_delete(v: Seq<(Seq<char>, ProfileView)>, current: Seq<char>)
    requires
        store_ok(v, current),
        remove_first(v, current).len() > 0,
    ensures
        store_ok(remove_first(v, current), remove_first(v, current)[0].0),
{
    let r = remove_first(v, current);
    lemma_found_at(r, r[0].0, 0);
    assert forall|j: int| 0 <= j < r.len() implies lists_every_input(#[trigger] r[j].1.mappings) by {
        let i = lemma_remove_first_source(v, current, j);
        assert(lists_every_input(v[i].1.mappings));
    }
}

/// Renaming the current profile and making the new name current keeps the
/// store reliable.
pub proof fn lemma_store_ok_rename(v: Seq<(Seq<char>, ProfileView)>, current: Seq<char>, name: Seq<char>)
    requires
        store_ok(v, current),
    ensures
        store_ok(
            remove_first(v, current).push(
                (
                    name,
                    ProfileView {
                        last_used: false,
                        total_key_presses: 0,
                        mappings: lookup(v, current)->0.mappings,
                    },
                ),
            ),
            name,
        ),
{
    let r = remove_first(v, current);
    let e = (name, ProfileView { last_used: false, total_key_presses: 0, mappings: lookup(v, current)->0.mappings });
    let u = r.push(e);
    lemma_found_at(u, name, r.len() as int);
    let s = lemma_lookup_source(v, current);
    assert(lists_every_input(v[s].1.mappings));
    assert forall|j: int| 0 <= j < u.len() implies lists_every_input(#[trigger] u[j].1.mappings) by {
        if j < r.len() {
            assert(u[j] == r[j]);
            let i = lemma_remove_first_source(v, current, j);
            assert(lists_every_input(v[i].1.mappings));
        }
    }
}

/// Importing a profile (its table repaired) and making it current keeps the
/// store reliable.
pub proof fn lemma_store_ok_import(v: Seq<(Seq<char>, ProfileView)>, current: Seq<char>, name: Seq<char>, p: ProfileView)
    requires
        store_ok(v, current),
    ensures
        store_ok(
            put(
                v,
                name,
                ProfileView {
                    last_used: p.last_used,
                    total_key_presses: p.total_key_presses,
                    mappings: repaired(p.mappings, INPUT_COUNT as nat),
                },
            ),
            name,
        ),
{
    let q = ProfileView {
        last_used: p.last_used,
        total_key_presses: p.total_key_presses,
        mappings: repaired(p.mappings, INPUT_COUNT as nat),
    };
    let u = put(v, name, q);
    lemma_put_then_lookup(v, name, q, name);
    lemma_repaired_complete(p.mappings);
    assert(u.len() > 0) by {
        let k = lemma_lookup_source(u, name);
    }
    assert forall|j: int| 0 <= j < u.len() implies lists_every_input(#[trigger] u[j].1.mappings) by {
        let i = lemma_put_source(v, name, q, j);
        if i != -1 {
            assert(lists_every_input(v[i].1.mappings));
        }
    }
}

/// Recording into, or editing the slots of, an input that the table lists
/// keeps every input listed.
pub proof fn lemma_store_ok_edit_slots(
    m: Seq<(Seq<char>, Seq<Seq<char>>)>,
    input: Seq<char>,
    slots: Seq<Seq<char>>,
)
    requires
        lists_every_input(m),
    ensures
        lists_every_input(put(m, input, slots)),
{
    assert forall|i: int| 0 <= i < INPUT_COUNT implies #[trigger] lookup(put(m, input, slots), input_name(i)) is Some by {
        lemma_put_then_lookup(m, input, slots, input_name(i));
    }
}
} // verus!
