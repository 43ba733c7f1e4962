//! The student registry: the single shared source of truth.
//!
//! A registry is a keyed store of records, viewed as a map from username
//! to record value. Usernames are case-sensitive and never normalized.
//! Callers that need exclusion wrap the registry in a lock; every
//! operation here is a plain sequential read-modify-write.

use vstd::prelude::*;
use crate::student::{Student, StudentView};

verus! {

/// One stored record with its key.
pub struct StudentEntry {
    pub username: String,
    pub student: Student,
}

/// The map written by a sequence of entries, later entries winning.
pub open spec fn entries_map(s: Seq<StudentEntry>) -> Map<Seq<char>, StudentView>
    decreases s.len(),
{
    if s.len() == 0 {
        Map::empty()
    } else {
        entries_map(s.drop_last()).insert(s.last().username@, s.last().student@)
    }
}

/// Usernames are unique and every stored record keeps its level in sync.
pub open spec fn entries_wf(s: Seq<StudentEntry>) -> bool {
    (forall|i: int, j: int| 0 <= i < j < s.len()
        ==> #[trigger] s[i].username@ != #[trigger] s[j].username@)
    && (forall|i: int| 0 <= i < s.len() ==> (#[trigger] s[i].student).wf())
}

/// Every stored entry is visible in the map under its own key.
pub proof fn lemma_entries_map_index(s: Seq<StudentEntry>, i: int)
    requires
        entries_wf(s),
        0 <= i < s.len(),
    ensures
        entries_map(s).contains_key(s[i].username@),
        entries_map(s)[s[i].username@] == s[i].student@,
    decreases s.len(),
{
    if i < s.len() - 1 {
        assert(entries_wf(s.drop_last()));
        lemma_entries_map_index(s.drop_last(), i);
    }
}

/// The map's domain is exactly the stored usernames.
pub proof fn lemma_entries_map_domain(s: Seq<StudentEntry>, k: Seq<char>)
    ensures
        entries_map(s).contains_key(k)
            <==> exists|i: int| 0 <= i < s.len() && #[trigger] s[i].username@ == k,
    decreases s.len(),
{
    if s.len() > 0 {
        lemma_entries_map_domain(s.drop_last(), k);
        if entries_map(s).contains_key(k) {
            if s.last().username@ == k {
                assert(s[s.len() - 1].username@ == k);
            } else {
                let i = choose|i: int| 0 <= i < s.drop_last().len()
                    && #[trigger] s.drop_last()[i].username@ == k;
                assert(s[i].username@ == k);
            }
        }
        if exists|i: int| 0 <= i < s.len() && #[trigger] s[i].username@ == k {
            let i = choose|i: int| 0 <= i < s.len() && #[trigger] s[i].username@ == k;
            if i < s.len() - 1 {
                assert(s.drop_last()[i].username@ == k);
            }
        }
    }
}

/// Replacing the entry that holds a key updates the map at that key.
pub proof fn lemma_entries_map_update(s: Seq<StudentEntry>, i: int, e: StudentEntry)
    requires
        entries_wf(s),
        0 <= i < s.len(),
        s[i].username@ == e.username@,
    ensures
        entries_map(s.update(i, e)) == entries_map(s).insert(e.username@, e.student@),
    decreases s.len(),
{
    let su = s.update(i, e);
    if i == s.len() - 1 {
        assert(su.drop_last() =~= s.drop_last());
        assert(entries_map(su) =~= entries_map(s).insert(e.username@, e.student@));
    } else {
        assert(entries_wf(s.drop_last()));
        assert(su.drop_last() =~= s.drop_last().update(i, e));
        lemma_entries_map_update(s.drop_last(), i, e);
        assert(s.last().username@ != e.username@);
        assert(entries_map(su) =~= entries_map(s).insert(e.username@, e.student@));
    }
}

/// Appending an entry with a fresh key inserts it into the map.
pub proof fn lemma_entries_map_push(s: Seq<StudentEntry>, e: StudentEntry)
    ensures
        entries_map(s.push(e)) == entries_map(s).insert(e.username@, e.student@),
{
    assert(s.push(e).drop_last() =~= s);
}

/// The registry.
pub struct Registry {
    pub entries: Vec<StudentEntry>,
}

impl View for Registry {
    type V = Map<Seq<char>, StudentView>;

    open spec fn view(&self) -> Map<Seq<char>, StudentView> {
        entries_map(self.entries@)
    }
}

impl Registry {
    pub open spec fn wf(self) -> bool {
        entries_wf(self.entries@)
    }

    /// An empty registry.
    pub fn new() -> (r: Registry)
        ensures
            r@ == Map::<Seq<char>, StudentView>::empty(),
            r.wf(),
    {
        Registry { entries: Vec::new() }
    }

    /// Index of the entry holding `username`, if any.
    pub(crate) fn find_index(&self, username: &String) -> (r: Option<usize>)
        ensures
            r matches Some(i) ==> i < self.entries@.len()
                && self.entries@[i as int].username@ == username@,
            r is None ==> !self@.contains_key(username@),
    {
        let mut i: usize = 0;
        while i < self.entries.len()
            invariant
                i <= self.entries@.len(),
                forall|k: int| 0 <= k < i ==> #[trigger] self.entries@[k].username@ != username@,
            decreases self.entries@.len() - i,
        {
            if self.entries[i].username == *username {
                return Some(i);
            }
            i = i + 1;
        }
        proof {
            lemma_entries_map_domain(self.entries@, username@);
        }
        None
    }

    /// Whether a record is stored under `username`.
    pub fn contains(&self, username: &String) -> (r: bool)
        ensures
            r == self@.contains_key(username@),
    {
        match self.find_index(username) {
            Some(i) => {
                proof {
                    lemma_entries_map_domain(self.entries@, username@);
                }
                true
            },
            None => false,
        }
    }

    /// Replace or create the record under `username`; a scrape's final step.
    pub fn upsert(&mut self, username: String, student: Student)
        requires
            old(self).wf(),
            student.wf(),
        ensures
            final(self).wf(),
            final(self)@ == old(self)@.insert(username@, student@),
    {
        let e = StudentEntry { username, student };
        match self.find_index(&e.username) {
            Some(i) => {
                proof {
                    lemma_entries_map_update(self.entries@, i as int, e);
                    assert forall|a: int, b: int|
                        0 <= a < b < self.entries@.update(i as int, e).len()
                        implies #[trigger] self.entries@.update(i as int, e)[a].username@
                            != #[trigger] self.entries@.update(i as int, e)[b].username@
                    by {
                        assert(self.entries@[a].username@ != self.entries@[b].username@);
                    }
                }
                self.entries[i] = e;
            },
            None => {
                proof {
                    lemma_entries_map_push(self.entries@, e);
                    lemma_entries_map_domain(self.entries@, e.username@);
                }
                self.entries.push(e);
            },
        }
    }

    /// Point lookup: a clone of the record, or `None` when the student has
    /// never been scraped.
    pub fn get_balance(&self, username: &String) -> (r: Option<Student>)
        requires
            self.wf(),
        ensures
            (r is Some) == self@.contains_key(username@),
            r matches Some(s) ==> s@ == self@[username@] && s.wf(),
    {
        match self.find_index(username) {
            Some(i) => {
                proof {
                    lemma_entries_map_index(self.entries@, i as int);
                }
                Some(self.entries[i].student.clone())
            },
            None => None,
        }
    }
}

/// `a` ranks no later than `b` on the leaderboard: more experience first,
/// then higher level, then more coins.
pub open spec fn ranks_ge(a: StudentView, b: StudentView) -> bool {
    a.exp > b.exp
    || (a.exp == b.exp && (a.level > b.level || (a.level == b.level && a.coins >= b.coins)))
}

/// The sequence is in leaderboard order.
pub open spec fn ranked(s: Seq<StudentView>) -> bool {
    forall|i: int, j: int| 0 <= i < j < s.len() ==> ranks_ge(#[trigger] s[i], #[trigger] s[j])
}

pub open spec fn views_of(s: Seq<Student>) -> Seq<StudentView> {
    s.map_values(|x: Student| x@)
}

pub open spec fn students_of(s: Seq<StudentEntry>) -> Seq<StudentView> {
    s.map_values(|e: StudentEntry| e.student@)
}

fn ranks_before(a: &Student, b: &Student) -> (r: bool)
    ensures
        r == ranks_ge(a@, b@),
{
    a.exp > b.exp || (a.exp == b.exp && (a.level > b.level || (a.level == b.level && a.coins >= b.coins)))
}

/// Insert a record at its leaderboard position.
fn insert_ranked(out: &mut Vec<Student>, s: Student)
    requires
        ranked(views_of(old(out)@)),
    ensures
        ranked(views_of(final(out)@)),
        views_of(final(out)@).to_multiset() == views_of(old(out)@).to_multiset().insert(s@),
{
    broadcast use vstd::seq_lib::to_multiset_insert;

    let ghost old_views = views_of(out@);
    let mut p: usize = 0;
    while p < out.len()
        invariant
            p <= out@.len(),
            out@ == old(out)@,
            forall|k: int| 0 <= k < p ==> ranks_ge(#[trigger] views_of(out@)[k], s@),
        ensures
            p <= out@.len(),
            out@ == old(out)@,
            forall|k: int| 0 <= k < p ==> ranks_ge(#[trigger] views_of(out@)[k], s@),
            p < out@.len() ==> ranks_ge(s@, views_of(out@)[p as int]),
        decreases out@.len() - p,
    {
        if !ranks_before(&out[p], &s) {
            break;
        }
        p = p + 1;
    }
    out.insert(p, s);
    proof {
        assert(views_of(out@) =~= old_views.insert(p as int, s@));
        assert forall|k: int| p < k < views_of(out@).len()
            implies ranks_ge(s@, #[trigger] views_of(out@)[k])
        by {
            assert(views_of(out@)[k] == old_views[k - 1]);
            assert(ranks_ge(old_views[p as int], old_views[k - 1]));
        }
        assert(ranked(views_of(out@)));
    }
}

impl Registry {
    /// All records, cloned, in leaderboard order: by experience, then
    /// level, then coins, all descending.
    pub fn leaderboard(&self) -> (r: Vec<Student>)
        ensures
            ranked(views_of(r@)),
            views_of(r@).to_multiset() == students_of(self.entries@).to_multiset(),
    {
        broadcast use vstd::seq_lib::group_to_multiset_ensures;

        let mut out: Vec<Student> = Vec::new();
        let mut i: usize = 0;
        proof {
            assert(views_of(out@) =~= students_of(self.entries@.subrange(0, 0)));
        }
        while i < self.entries.len()
            invariant
                i <= self.entries@.len(),
                ranked(views_of(out@)),
                views_of(out@).to_multiset()
                    == students_of(self.entries@.subrange(0, i as int)).to_multiset(),
            decreases self.entries@.len() - i,
        {
            let ghost pre = self.entries@.subrange(0, i as int);
            insert_ranked(&mut out, self.entries[i].student.clone());
            proof {
                let x = self.entries@[i as int].student@;
                assert(students_of(self.entries@.subrange(0, i + 1))
                    =~= students_of(pre).push(x));
                vstd::seq_lib::to_multiset_build(students_of(pre), x);
            }
            i = i + 1;
        }
        proof {
            assert(self.entries@.subrange(0, self.entries@.len() as int) =~= self.entries@);
        }
        out
    }
}

} // verus!
