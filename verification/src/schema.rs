//! Table descriptors and the schema manager.
//!
//! A descriptor names one logical table, the tables it depends on, and the
//! SQL that creates and disposes of it. The schema manager owns a sequence
//! of descriptors arranged by a topological sort: every descriptor stands
//! strictly after everything it depends on. Construction fails — before any
//! SQL is issued — when the descriptors contain a dependency cycle or a
//! dependency on a name no descriptor declares.

use vstd::prelude::*;

use crate::dialect::DatabaseScheme;
use crate::entities::user_table;
use crate::sql::{rewrite, spec_rewrite};

verus! {

broadcast use
    vstd::seq_lib::group_to_multiset_ensures,
    vstd::multiset::group_multiset_axioms,
    vstd::set::group_set_axioms,
    vstd::string::group_string_axioms,
;

/// One logical table: a stable name, the names of the tables that must
/// exist before it, and the SQL producing and disposing of it. The creation
/// statement is stored in ordinal-placeholder form and translated per
/// dialect on demand; immutable once supplied.
pub struct Table {
    pub name: String,
    pub dependencies: Vec<String>,
    pub create_sql: String,
    pub dispose_sql: String,
}

impl Table {
    /// The table's creation statement, translated for `scheme`.
    pub fn create(&self, scheme: &DatabaseScheme) -> (r: String)
        ensures
            r@ == spec_rewrite(*scheme, self.create_sql@),
    {
        rewrite(scheme, self.create_sql.as_str())
    }

    /// The table's disposal statement; the same text for every dialect.
    pub fn dispose(&self) -> (r: String)
        ensures
            r@ == self.dispose_sql@,
    {
        self.dispose_sql.clone()
    }
}

/// Construction failed before any SQL was issued: the descriptors contain a
/// dependency cycle, or depend on a name no descriptor declares.
#[derive(Clone, Copy, Debug, PartialEq, Eq, Structural)]
pub enum SchemaError {
    UnsatisfiableDependencies,
}

/// Some descriptor in `ts` bears the name `n`.
pub open spec fn has_name(ts: Seq<Table>, n: Seq<char>) -> bool {
    exists|j: int| 0 <= j < ts.len() && ts[j].name@ == n
}

/// Descriptor names are unique across the schema.
pub open spec fn unique_names(ts: Seq<Table>) -> bool {
    forall|i: int, j: int| 0 <= i < j < ts.len() ==> ts[i].name@ != ts[j].name@
}

/// Dependency `d` of descriptor `i` is borne by a descriptor strictly
/// earlier in the sequence.
pub open spec fn dep_borne_earlier(ts: Seq<Table>, i: int, d: int) -> bool {
    exists|j: int| 0 <= j < i && ts[j].name@ == ts[i].dependencies@[d]@
}

/// The dependency invariant: every name a descriptor depends on is borne by
/// a descriptor strictly earlier in the sequence.
pub open spec fn dependency_ordered(ts: Seq<Table>) -> bool {
    forall|i: int, d: int|
        0 <= i < ts.len() && 0 <= d < ts[i].dependencies@.len() ==> #[trigger] dep_borne_earlier(
            ts,
            i,
            d,
        )
}

/// Some linear order of exactly these descriptors satisfies the dependency
/// invariant.
pub open spec fn satisfiable(ts: Seq<Table>) -> bool {
    exists|p: Seq<Table>|
        #[trigger] p.to_multiset() == ts.to_multiset() && dependency_ordered(p)
}

/// Dependency `d` of descriptor `i` leads only into the family `s`: if any
/// descriptor bears that name, the name lies in `s`.
pub open spec fn dep_confined(ts: Seq<Table>, s: Set<Seq<char>>, i: int, d: int) -> bool {
    has_name(ts, ts[i].dependencies@[d]@) ==> s.contains(ts[i].dependencies@[d]@)
}

/// Descriptor `t` cannot be placed yet: some dependency of it is borne by
/// none of the placed descriptors.
pub open spec fn blocked(placed: Seq<Table>, t: Table) -> bool {
    exists|d: int|
        0 <= d < t.dependencies@.len() && !has_name(placed, #[trigger] t.dependencies@[d]@)
}

/// An element with positive multiset count occurs at some index.
proof fn lemma_to_multiset_index(s: Seq<Table>, t: Table)
    requires
        s.to_multiset().count(t) > 0,
    ensures
        exists|i: int| 0 <= i < s.len() && s[i] == t,
{
    assert(s.contains(t));
}

/// Among the positions of `p` whose name lies in `s`, there is a least one.
proof fn lemma_least_name_index(p: Seq<Table>, s: Set<Seq<char>>, j0: int)
    requires
        0 <= j0 < p.len(),
        s.contains(p[j0].name@),
    ensures
        exists|j: int|
            0 <= j <= j0 && #[trigger] s.contains(p[j].name@) && forall|j2: int|
                0 <= j2 < j ==> !s.contains(p[j2].name@),
    decreases j0,
{
    if exists|j2: int| 0 <= j2 < j0 && s.contains(p[j2].name@) {
        let j2 = choose|j2: int| 0 <= j2 < j0 && s.contains(p[j2].name@);
        lemma_least_name_index(p, s, j2);
    } else {
        assert(s.contains(p[j0].name@) && forall|j2: int| 0 <= j2 < j0 ==> !s.contains(p[j2].name@));
    }
}

/// If a nonempty family of names is trapped — some descriptor bears a name
/// of the family, and every descriptor bearing one has a dependency leading
/// only back into the family — then no order of the descriptors satisfies
/// the dependency invariant.
proof fn lemma_trapped_family_unsatisfiable(ts: Seq<Table>, s: Set<Seq<char>>)
    requires
        exists|i: int| 0 <= i < ts.len() && #[trigger] s.contains(ts[i].name@),
        forall|i: int|
            0 <= i < ts.len() && #[trigger] s.contains(ts[i].name@) ==> exists|d: int|
                0 <= d < ts[i].dependencies@.len() && dep_confined(ts, s, i, d),
    ensures
        !satisfiable(ts),
{
    if satisfiable(ts) {
        let p = choose|p: Seq<Table>|
            #[trigger] p.to_multiset() == ts.to_multiset() && dependency_ordered(p);
        let i0 = choose|i: int| 0 <= i < ts.len() && #[trigger] s.contains(ts[i].name@);
        assert(ts.contains(ts[i0]));
        lemma_to_multiset_index(p, ts[i0]);
        let jj = choose|j: int| 0 <= j < p.len() && p[j] == ts[i0];
        lemma_least_name_index(p, s, jj);
        let jstar = choose|j: int|
            0 <= j <= jj && #[trigger] s.contains(p[j].name@) && forall|j2: int|
                0 <= j2 < j ==> !s.contains(p[j2].name@);
        let t = p[jstar];
        assert(p.contains(t));
        lemma_to_multiset_index(ts, t);
        let i = choose|i: int| 0 <= i < ts.len() && ts[i] == t;
        assert(s.contains(ts[i].name@));
        let d = choose|d: int| 0 <= d < ts[i].dependencies@.len() && dep_confined(ts, s, i, d);
        // The dependency must be borne strictly earlier in p ...
        assert(0 <= d < p[jstar].dependencies@.len());
        assert(dep_borne_earlier(p, jstar, d));
        let j = choose|j: int| 0 <= j < jstar && p[j].name@ == p[jstar].dependencies@[d]@;
        // ... but whoever bears it has a name of the family, a contradiction
        // with jstar being the least such position.
        assert(p.contains(p[j]));
        lemma_to_multiset_index(ts, p[j]);
        let j2 = choose|i2: int| 0 <= i2 < ts.len() && ts[i2] == p[j];
        assert(has_name(ts, ts[i].dependencies@[d]@));
        assert(s.contains(p[j].name@));
        assert(false);
    }
}

/// Seen from the sort: if every still-unplaced descriptor has a dependency
/// that no placed descriptor bears, the whole input is unsatisfiable.
proof fn lemma_blocked_round_unsatisfiable(
    input: Seq<Table>,
    placed: Seq<Table>,
    remaining: Seq<Table>,
)
    requires
        unique_names(input),
        placed.to_multiset().add(remaining.to_multiset()) == input.to_multiset(),
        remaining.len() > 0,
        forall|k: int| 0 <= k < remaining.len() ==> blocked(placed, #[trigger] remaining[k]),
    ensures
        !satisfiable(input),
{
    let s = Set::new(|n: Seq<char>| has_name(remaining, n));
    // The family is occupied: remaining[0] is an element of the input.
    assert(remaining.contains(remaining[0]));
    assert(placed.to_multiset().add(remaining.to_multiset()).count(remaining[0])
        == placed.to_multiset().count(remaining[0]) + remaining.to_multiset().count(remaining[0]));
    lemma_to_multiset_index(input, remaining[0]);
    let iw = choose|i: int| 0 <= i < input.len() && input[i] == remaining[0];
    assert(s.contains(input[iw].name@));
    // Every input descriptor whose name lies in the family is itself one of
    // the remaining descriptors, and its blocked dependency is confined.
    assert forall|i: int|
        0 <= i < input.len() && #[trigger] s.contains(input[i].name@) implies exists|d: int|
        0 <= d < input[i].dependencies@.len() && dep_confined(input, s, i, d) by {
        let k = choose|k: int| 0 <= k < remaining.len() && remaining[k].name@ == input[i].name@;
        assert(remaining.contains(remaining[k]));
        assert(placed.to_multiset().add(remaining.to_multiset()).count(remaining[k])
            == placed.to_multiset().count(remaining[k]) + remaining.to_multiset().count(
            remaining[k],
        ));
        lemma_to_multiset_index(input, remaining[k]);
        let i2 = choose|i2: int| 0 <= i2 < input.len() && input[i2] == remaining[k];
        assert(input[i2].name@ == input[i].name@);
        assert(i2 == i);
        assert(blocked(placed, remaining[k]));
        let d = choose|d: int|
            0 <= d < remaining[k].dependencies@.len() && !has_name(
                placed,
                remaining[k].dependencies@[d]@,
            );
        let dep = input[i].dependencies@[d]@;
        assert(dep_confined(input, s, i, d)) by {
            if has_name(input, dep) {
                let j = choose|j: int| 0 <= j < input.len() && input[j].name@ == dep;
                assert(input.contains(input[j]));
                assert(input.to_multiset().count(input[j]) > 0);
                assert(placed.to_multiset().add(remaining.to_multiset()).count(input[j])
                    == placed.to_multiset().count(input[j]) + remaining.to_multiset().count(
                    input[j],
                ));
                if placed.to_multiset().count(input[j]) > 0 {
                    lemma_to_multiset_index(placed, input[j]);
                    assert(has_name(placed, dep));
                } else {
                    lemma_to_multiset_index(remaining, input[j]);
                    assert(has_name(remaining, dep));
                }
            }
        }
    }
    lemma_trapped_family_unsatisfiable(input, s);
}

/// `c` lists positions of `ts` forming a dependency cycle: each one depends
/// on the name of the next, and the last on the first.
pub open spec fn is_dependency_cycle(ts: Seq<Table>, c: Seq<int>) -> bool {
    &&& c.len() > 0
    &&& forall|k: int| 0 <= k < c.len() ==> 0 <= #[trigger] c[k] < ts.len()
    &&& forall|k: int|
        0 <= k < c.len() ==> exists|d: int|
            0 <= d < ts[c[k]].dependencies@.len() && ts[#[trigger] c[k]].dependencies@[d]@ == ts[c[
                if k + 1 == c.len() {
                    0
                } else {
                    k + 1
                }
            ]].name@
}

/// `n` is the name of some descriptor the cycle `c` passes through.
/// Opaque: revealed only where the cycle argument below needs it.
#[verifier::opaque]
pub open spec fn in_cycle(ts: Seq<Table>, c: Seq<int>, n: Seq<char>) -> bool {
    exists|k: int| 0 <= k < c.len() && ts[#[trigger] c[k]].name@ == n
}

/// Cycle detection: a dependency cycle among uniquely named descriptors
/// makes the set unsatisfiable, so by `SchemaManager::new`'s contract the
/// construction fails on it — it can neither loop forever nor hand back a
/// partial order.
#[verifier::rlimit(60)]
pub proof fn lemma_cycle_unsatisfiable(ts: Seq<Table>, c: Seq<int>)
    requires
        unique_names(ts),
        is_dependency_cycle(ts, c),
    ensures
        !satisfiable(ts),
{
    let s = Set::new(|n: Seq<char>| in_cycle(ts, c, n));
    assert(in_cycle(ts, c, ts[c[0]].name@)) by {
        reveal(in_cycle);
    }
    assert(s.contains(ts[c[0]].name@));
    assert forall|i: int|
        0 <= i < ts.len() && #[trigger] s.contains(ts[i].name@) implies exists|d: int|
        0 <= d < ts[i].dependencies@.len() && dep_confined(ts, s, i, d) by {
        reveal(in_cycle);
        let k = choose|k: int| 0 <= k < c.len() && ts[c[k]].name@ == ts[i].name@;
        assert(c[k] == i);
        let knext: int = if k + 1 == c.len() {
            0
        } else {
            k + 1
        };
        let d = choose|d: int|
            0 <= d < ts[c[k]].dependencies@.len() && ts[c[k]].dependencies@[d]@ == ts[c[knext]].name@;
        assert(in_cycle(ts, c, ts[c[knext]].name@));
        assert(s.contains(ts[i].dependencies@[d]@));
        assert(dep_confined(ts, s, i, d));
    }
    lemma_trapped_family_unsatisfiable(ts, s);
}

/// Appending a descriptor whose dependencies are all borne within the
/// frozen prefix keeps the sequence dependency-ordered.
proof fn lemma_ordered_push(sorted: Seq<Table>, t: Table, round_len: int)
    requires
        dependency_ordered(sorted),
        0 <= round_len <= sorted.len(),
        forall|d: int|
            0 <= d < t.dependencies@.len() ==> has_name(
                sorted.take(round_len),
                #[trigger] t.dependencies@[d]@,
            ),
    ensures
        dependency_ordered(sorted.push(t)),
{
    let s2 = sorted.push(t);
    assert forall|i: int, d: int|
        0 <= i < s2.len() && 0 <= d < s2[i].dependencies@.len() implies #[trigger] dep_borne_earlier(
        s2,
        i,
        d,
    ) by {
        if i < sorted.len() {
            assert(s2[i] == sorted[i]);
            assert(0 <= d < sorted[i].dependencies@.len());
            assert(dep_borne_earlier(sorted, i, d));
            let j = choose|j: int| 0 <= j < i && sorted[j].name@ == sorted[i].dependencies@[d]@;
            assert(s2[j] == sorted[j]);
            assert(0 <= j < i && s2[j].name@ == s2[i].dependencies@[d]@);
        } else {
            assert(s2[i] == t);
            assert(has_name(sorted.take(round_len), t.dependencies@[d]@));
            let j = choose|j: int|
                0 <= j < sorted.take(round_len).len() && sorted.take(round_len)[j].name@
                    == t.dependencies@[d]@;
            assert(sorted.take(round_len)[j] == sorted[j]);
            assert(s2[j] == sorted[j]);
            assert(0 <= j < i && s2[j].name@ == s2[i].dependencies@[d]@);
        }
    }
}

/// Does `n` occur among the names of the first `end` entries of `sorted`?
fn name_in_prefix(sorted: &Vec<Table>, end: usize, n: &String) -> (b: bool)
    requires
        end <= sorted@.len(),
    ensures
        b == has_name(sorted@.take(end as int), n@),
{
    let mut j: usize = 0;
    while j < end
        invariant
            j <= end,
            end <= sorted@.len(),
            forall|k: int| 0 <= k < j ==> sorted@[k].name@ != n@,
        decreases end - j,
    {
        if sorted[j].name == *n {
            proof {
                assert(sorted@.take(end as int)[j as int].name@ == n@);
            }
            return true;
        }
        j = j + 1;
    }
    proof {
        assert forall|k: int| 0 <= k < end implies sorted@.take(end as int)[k].name@ != n@ by {
            assert(sorted@.take(end as int)[k] == sorted@[k]);
        }
    }
    false
}

/// Are all of `t`'s dependencies borne among the first `end` entries of
/// `sorted`?
fn deps_resolved_in_prefix(t: &Table, sorted: &Vec<Table>, end: usize) -> (b: bool)
    requires
        end <= sorted@.len(),
    ensures
        b == (forall|d: int|
            0 <= d < t.dependencies@.len() ==> has_name(
                sorted@.take(end as int),
                #[trigger] t.dependencies@[d]@,
            )),
{
    let mut d: usize = 0;
    while d < t.dependencies.len()
        invariant
            d <= t.dependencies@.len(),
            end <= sorted@.len(),
            forall|k: int|
                0 <= k < d ==> has_name(sorted@.take(end as int), #[trigger] t.dependencies@[k]@),
        decreases t.dependencies@.len() - d,
    {
        if !name_in_prefix(sorted, end, &t.dependencies[d]) {
            return false;
        }
        d = d + 1;
    }
    true
}

/// Owns the table descriptors in creation order. The order is computed once
/// at construction and satisfies the dependency invariant for the life of
/// the value; nothing mutates it afterwards.
pub struct SchemaManager {
    tables: Vec<Table>,
}

impl View for SchemaManager {
    type V = Seq<Table>;

    closed spec fn view(&self) -> Seq<Table> {
        self.tables@
    }
}

impl SchemaManager {
    /// Arrange `tables` into dependency order. Succeeds exactly on the
    /// satisfiable descriptor sets, with a permutation of the input that
    /// honours every dependency; fails — deterministically, before any SQL
    /// exists — on a cycle or a dependency on an undeclared name.
    ///
    /// Ties are broken deterministically by the input order alone: each
    /// round places the satisfiable descriptors in reverse input order, so
    /// the emitted schema is reproducible across runs.
    pub fn new(tables: Vec<Table>) -> (r: Result<SchemaManager, SchemaError>)
        requires
            unique_names(tables@),
        ensures
            r is Ok <==> satisfiable(tables@),
            r matches Ok(m) ==> m@.to_multiset() == tables@.to_multiset() && dependency_ordered(
                m@,
            ),
    {
        let ghost input = tables@;
        let mut remaining = tables;
        let mut sorted: Vec<Table> = Vec::new();
        while remaining.len() > 0
            invariant
                input == tables@,
                unique_names(input),
                sorted@.to_multiset().add(remaining@.to_multiset()) == input.to_multiset(),
                dependency_ordered(sorted@),
            decreases remaining@.len(),
        {
            let round_len = sorted.len();
            let before = remaining.len();
            let mut idx = remaining.len();
            while idx > 0
                invariant
                    input == tables@,
                    idx <= remaining@.len(),
                    remaining@.len() <= before,
                    round_len <= sorted@.len(),
                    remaining@.len() == before ==> sorted@.len() == round_len,
                    unique_names(input),
                    sorted@.to_multiset().add(remaining@.to_multiset()) == input.to_multiset(),
                    dependency_ordered(sorted@),
                    remaining@.len() == before ==> forall|k: int|
                        idx <= k < remaining@.len() ==> blocked(
                            sorted@.take(round_len as int),
                            #[trigger] remaining@[k],
                        ),
                decreases idx,
            {
                idx = idx - 1;
                let resolved = deps_resolved_in_prefix(&remaining[idx], &sorted, round_len);
                if resolved {
                    let ghost old_sorted = sorted@;
                    let ghost old_remaining = remaining@;
                    let t = remaining.remove(idx);
                    sorted.push(t);
                    proof {
                        assert(old_remaining.contains(t));
                        assert(remaining@ == old_remaining.remove(idx as int));
                        assert(remaining@.to_multiset() =~= old_remaining.to_multiset().remove(t));
                        assert(sorted@.to_multiset() =~= old_sorted.to_multiset().insert(t));
                        assert(sorted@.to_multiset().add(remaining@.to_multiset())
                            =~= old_sorted.to_multiset().add(old_remaining.to_multiset()));
                        lemma_ordered_push(old_sorted, t, round_len as int);
                        assert(sorted@ == old_sorted.push(t));
                    }
                }
            }
            if remaining.len() == before {
                proof {
                    assert(sorted@.take(round_len as int) =~= sorted@);
                    assert(forall|k: int|
                        0 <= k < remaining@.len() ==> blocked(sorted@, #[trigger] remaining@[k]));
                    lemma_blocked_round_unsatisfiable(input, sorted@, remaining@);
                }
                return Err(SchemaError::UnsatisfiableDependencies);
            }
        }
        proof {
            assert(remaining@.to_multiset().len() == 0);
            assert(sorted@.to_multiset().add(remaining@.to_multiset()) =~= sorted@.to_multiset());
            assert(sorted@.to_multiset() == input.to_multiset());
            assert(satisfiable(input));
        }
        Ok(SchemaManager { tables: sorted })
    }

    /// The creation statements, one per descriptor, in dependency order:
    /// dependents strictly after what they depend on, translated for
    /// `scheme`.
    pub fn create_schema(&self, scheme: &DatabaseScheme) -> (r: Vec<String>)
        ensures
            r@.len() == self@.len(),
            forall|i: int|
                0 <= i < r@.len() ==> r@[i]@ == spec_rewrite(
                    *scheme,
                    #[trigger] self@[i].create_sql@,
                ),
    {
        let mut r: Vec<String> = Vec::new();
        let mut i: usize = 0;
        while i < self.tables.len()
            invariant
                i <= self@.len(),
                r@.len() == i,
                forall|k: int|
                    0 <= k < i ==> r@[k]@ == spec_rewrite(*scheme, #[trigger] self@[k].create_sql@),
            decreases self@.len() - i,
        {
            r.push(self.tables[i].create(scheme));
            i = i + 1;
        }
        r
    }

    /// The disposal statements in exactly the reverse of the creation
    /// order: dependents are dropped before what they depend on.
    pub fn dispose_schema(&self) -> (r: Vec<String>)
        ensures
            r@.len() == self@.len(),
            forall|i: int|
                0 <= i < r@.len() ==> r@[i]@ == #[trigger] self@[self@.len() - 1 - i].dispose_sql@,
    {
        let mut r: Vec<String> = Vec::new();
        let mut i: usize = self.tables.len();
        while i > 0
            invariant
                i <= self@.len(),
                r@.len() == self@.len() - i,
                forall|k: int|
                    0 <= k < r@.len() ==> r@[k]@ == #[trigger] self@[self@.len() - 1 - k].dispose_sql@,
            decreases i,
        {
            i = i - 1;
            r.push(self.tables[i].dispose());
        }
        r
    }
}

impl Default for SchemaManager {
    /// The default schema: the user table alone, which depends on nothing,
    /// so construction cannot fail.
    fn default() -> (r: Self)
        ensures
            r@.len() == 1,
            r@[0].name@ == "users"@,
            dependency_ordered(r@),
    {
        let t = user_table();
        let mut v: Vec<Table> = Vec::new();
        v.push(t);
        let ghost gv = v@;
        proof {
            assert(dependency_ordered(gv));
            assert(gv.to_multiset() == gv.to_multiset() && dependency_ordered(gv));
            assert(satisfiable(gv));
        }
        match SchemaManager::new(v) {
            Ok(m) => {
                proof {
                    assert(m@.to_multiset().len() == 1);
                    assert(gv.contains(gv[0]));
                    assert(m@.to_multiset().count(gv[0]) > 0);
                    lemma_to_multiset_index(m@, gv[0]);
                }
                m
            },
            Err(_) => {
                proof {
                    assert(false);
                }
                SchemaManager { tables: Vec::new() }
            },
        }
    }
}

/// Topological validity on the documented four-table family: however the
/// descriptors arrive, any dependency-respecting order puts `groups` first,
/// `users_tools_link` strictly last, and `users` and `tools` — in either
/// order — between them. With `SchemaManager::new`'s contract this pins the
/// creation order, and `dispose_schema` is its exact reverse.
pub proof fn lemma_four_table_placement(p: Seq<Table>, g: int, u: int, t: int, l: int)
    requires
        p.len() == 4,
        dependency_ordered(p),
        0 <= g < 4 && 0 <= u < 4 && 0 <= t < 4 && 0 <= l < 4,
        p[g].name@ == "groups"@,
        p[u].name@ == "users"@,
        p[t].name@ == "tools"@,
        p[l].name@ == "users_tools_link"@,
        p[u].dependencies@.len() == 1 && p[u].dependencies@[0]@ == "groups"@,
        p[t].dependencies@.len() == 1 && p[t].dependencies@[0]@ == "groups"@,
        p[l].dependencies@.len() == 2 && p[l].dependencies@[0]@ == "users"@
            && p[l].dependencies@[1]@ == "tools"@,
    ensures
        g == 0,
        l == 3,
        (u == 1 && t == 2) || (u == 2 && t == 1),
{
    reveal_strlit("groups");
    reveal_strlit("users");
    reveal_strlit("tools");
    reveal_strlit("users_tools_link");
    // The four names are pairwise distinct — by length, except for `users`
    // and `tools`, which differ in their first character — so the four
    // positions are distinct too.
    assert("groups"@.len() == 6 && "users"@.len() == 5 && "tools"@.len() == 5
        && "users_tools_link"@.len() == 16);
    assert("users"@[0] == 'u' && "tools"@[0] == 't');
    assert(p[g].name@ != p[u].name@ && p[g].name@ != p[t].name@ && p[g].name@ != p[l].name@);
    assert(p[u].name@ != p[t].name@ && p[u].name@ != p[l].name@ && p[t].name@ != p[l].name@);
    // users depends on groups, so groups stands earlier.
    assert(dep_borne_earlier(p, u, 0));
    let ju = choose|j: int| 0 <= j < u && p[j].name@ == p[u].dependencies@[0]@;
    assert(ju == g || ju == u || ju == t || ju == l);
    assert(g < u);
    // tools depends on groups as well.
    assert(dep_borne_earlier(p, t, 0));
    let jt = choose|j: int| 0 <= j < t && p[j].name@ == p[t].dependencies@[0]@;
    assert(jt == g || jt == u || jt == t || jt == l);
    assert(g < t);
    // users_tools_link depends on users and on tools.
    assert(dep_borne_earlier(p, l, 0));
    let jl0 = choose|j: int| 0 <= j < l && p[j].name@ == p[l].dependencies@[0]@;
    assert(jl0 == g || jl0 == u || jl0 == t || jl0 == l);
    assert(u < l);
    assert(dep_borne_earlier(p, l, 1));
    let jl1 = choose|j: int| 0 <= j < l && p[j].name@ == p[l].dependencies@[1]@;
    assert(jl1 == g || jl1 == u || jl1 == t || jl1 == l);
    assert(t < l);
}

} // verus!
