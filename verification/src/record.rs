//! The process snapshot: one record per process, a deterministic sort by
//! identifier, and the substring filter that a submitted search applies.

use vstd::prelude::*;

use crate::text::is_substring;

verus! {

broadcast use vstd::seq_lib::group_to_multiset_ensures, vstd::multiset::group_multiset_axioms;

/// One row of the snapshot. The identifier is unique within one snapshot but
/// the operating system may reuse identifiers across time; `cpu_usage` is a
/// display string because its value is only meaningful relative to a prior
/// sample; `memory` is resident memory in bytes.
pub struct ProcessRecord {
    pub pid: u32,
    pub name: String,
    pub cpu_usage: String,
    pub memory: u64,
}

/// The snapshot order that every refresh and filter re-establishes:
/// identifiers ascending.
pub open spec fn sorted_by_pid(s: Seq<ProcessRecord>) -> bool {
    forall|i: int, j: int| 0 <= i < j < s.len() ==> s[i].pid <= s[j].pid
}

/// The snapshot invariant the OS provides: within one snapshot generation,
/// identifiers are pairwise distinct.
pub open spec fn distinct_pids(s: Seq<ProcessRecord>) -> bool {
    forall|i: int, j: int| 0 <= i < j < s.len() ==> s[i].pid != s[j].pid
}

/// Reordering a snapshot cannot introduce a duplicate identifier: a sequence
/// holding the same records as one with pairwise distinct identifiers has
/// pairwise distinct identifiers too.
pub proof fn lemma_permutation_keeps_distinct_pids(
    s1: Seq<ProcessRecord>,
    s2: Seq<ProcessRecord>,
)
    requires
        s1.to_multiset() == s2.to_multiset(),
        distinct_pids(s1),
    ensures
        distinct_pids(s2),
{
    assert(s1.no_duplicates());
    s1.lemma_multiset_has_no_duplicates();
    s2.lemma_multiset_has_no_duplicates_conv();
    assert forall|i: int, j: int| 0 <= i < j < s2.len() implies s2[i].pid != s2[j].pid by {
        if s2[i].pid == s2[j].pid {
            assert(s2.contains(s2[i]));
            assert(s2.contains(s2[j]));
            assert(s1.to_multiset().count(s2[i]) > 0);
            assert(s1.to_multiset().count(s2[j]) > 0);
            assert(s1.contains(s2[i]));
            assert(s1.contains(s2[j]));
            let k1 = choose|k: int| 0 <= k < s1.len() && s1[k] == s2[i];
            let k2 = choose|k: int| 0 <= k < s1.len() && s1[k] == s2[j];
            assert(s1[k1].pid == s1[k2].pid);
            assert(false);
        }
    }
}

/// Whether a record survives a search for `needle`: case-sensitive substring
/// containment against the record's name.
pub open spec fn record_matches(r: ProcessRecord, needle: Seq<char>) -> bool {
    is_substring(needle, r.name@)
}

/// The subsequence of `s` whose names contain `needle`, in the order of `s`.
pub open spec fn filter_matching(s: Seq<ProcessRecord>, needle: Seq<char>) -> Seq<ProcessRecord>
    decreases s.len(),
{
    if s.len() == 0 {
        Seq::empty()
    } else if record_matches(s.last(), needle) {
        filter_matching(s.drop_last(), needle).push(s.last())
    } else {
        filter_matching(s.drop_last(), needle)
    }
}

/// Keeps exactly the records whose name contains `needle`, in their original
/// order, consuming the input list.
pub fn filter_by_name(v: Vec<ProcessRecord>, needle: &Vec<char>) -> (r: Vec<ProcessRecord>)
    ensures
        r@ == filter_matching(v@, needle@),
{
    let mut rest = v;
    let ghost orig = rest@;
    let mut kept: Vec<ProcessRecord> = Vec::new();
    while rest.len() > 0
        invariant
            rest@.len() <= orig.len(),
            rest@ == orig.subrange(orig.len() - rest@.len(), orig.len() as int),
            kept@ == filter_matching(orig.take(orig.len() - rest@.len()), needle@),
        decreases rest@.len(),
    {
        let ghost p = orig.len() - rest@.len();
        let ghost pre = rest@;
        let record = rest.remove(0);
        proof {
            assert(record == orig[p]);
            assert(rest@ =~= orig.subrange(p + 1, orig.len() as int));
        }
        let name_chars = crate::text::chars_of(record.name.as_str());
        let keep = crate::text::contains_substring(&name_chars, needle);
        if keep {
            kept.push(record);
        }
        proof {
            let taken = orig.take(p + 1);
            assert(taken.last() == orig[p]);
            assert(taken.drop_last() =~= orig.take(p));
            if record_matches(orig[p], needle@) {
                assert(kept@ == filter_matching(orig.take(p), needle@).push(orig[p]));
            }
            assert(kept@ == filter_matching(orig.take(p + 1), needle@));
        }
    }
    proof {
        assert(orig.take(orig.len() as int) =~= orig);
    }
    kept
}

/// A submitted search keeps exactly the subsequence of records whose name
/// contains the needle, in their pre-filter relative order: the snapshot
/// filter is the standard sequence filter under `record_matches`.
pub proof fn lemma_filter_matching_is_seq_filter(s: Seq<ProcessRecord>, needle: Seq<char>)
    ensures
        filter_matching(s, needle) == s.filter(|r: ProcessRecord| record_matches(r, needle)),
    decreases s.len(),
{
    reveal(Seq::filter);
    if s.len() == 0 {
        assert(filter_matching(s, needle) =~= s.filter(
            |r: ProcessRecord| record_matches(r, needle),
        ));
    } else {
        lemma_filter_matching_is_seq_filter(s.drop_last(), needle);
        assert(s.filter(|r: ProcessRecord| record_matches(r, needle)) == if record_matches(
            s.last(),
            needle,
        ) {
            s.drop_last().filter(|r: ProcessRecord| record_matches(r, needle)).push(s.last())
        } else {
            s.drop_last().filter(|r: ProcessRecord| record_matches(r, needle))
        });
    }
}

/// Submitting an empty search is the identity filter: every name contains
/// the empty string, so every record survives.
pub proof fn lemma_empty_filter_identity(s: Seq<ProcessRecord>)
    ensures
        filter_matching(s, Seq::<char>::empty()) == s,
    decreases s.len(),
{
    if s.len() == 0 {
        assert(filter_matching(s, Seq::<char>::empty()) =~= s);
    } else {
        lemma_empty_filter_identity(s.drop_last());
        assert(record_matches(s.last(), Seq::<char>::empty())) by {
            assert(s.last().name@.subrange(0, 0 + Seq::<char>::empty().len() as int)
                =~= Seq::<char>::empty());
        }
        assert(filter_matching(s, Seq::<char>::empty()) =~= s);
    }
}

/// Sorts the snapshot by identifier, ascending: an insertion sort that moves
/// each element left past its larger neighbours.
pub fn sort_by_pid(v: &mut Vec<ProcessRecord>)
    ensures
        sorted_by_pid(final(v)@),
        final(v)@.to_multiset() == old(v)@.to_multiset(),
        final(v)@.len() == old(v)@.len(),
        distinct_pids(old(v)@) ==> distinct_pids(final(v)@),
{
    if v.len() == 0 {
        return;
    }
    let mut i: usize = 1;
    while i < v.len()
        invariant
            1 <= i <= v@.len(),
            v@.to_multiset() == old(v)@.to_multiset(),
            v@.len() == old(v)@.len(),
            sorted_by_pid(v@.take(i as int)),
        decreases v@.len() - i,
    {
        proof {
            assert forall|k: int, l: int|
                0 <= k < l <= i && l != i implies v@[k].pid <= v@[l].pid by {
                assert(v@.take(i as int)[k] == v@[k]);
                assert(v@.take(i as int)[l] == v@[l]);
            }
        }
        let mut j: usize = i;
        while j > 0 && v[j - 1].pid > v[j].pid
            invariant
                j <= i < v@.len(),
                v@.to_multiset() == old(v)@.to_multiset(),
                v@.len() == old(v)@.len(),
                forall|k: int, l: int|
                    0 <= k < l <= i && l != j ==> v@[k].pid <= v@[l].pid,
            decreases j,
        {
            let ghost pre = v@;
            let x = v.remove(j);
            v.insert(j - 1, x);
            proof {
                assert(v@ == pre.remove(j as int).insert(j - 1, x));
                assert(pre[j as int] == x);
                assert(pre.contains(x));
                assert(pre.remove(j as int).to_multiset() == pre.to_multiset().remove(x));
                assert(pre.remove(j as int).insert(j - 1, x).to_multiset() == pre.remove(
                    j as int,
                ).to_multiset().insert(x));
                assert(pre.to_multiset().remove(x).insert(x) =~= pre.to_multiset());
                assert forall|k: int, l: int|
                    0 <= k < l <= i && l != j - 1 implies v@[k].pid <= v@[l].pid by {
                    assert(v@ == pre.remove(j as int).insert(j - 1, x));
                }
            }
            j = j - 1;
        }
        proof {
            assert forall|k: int, l: int| 0 <= k < l <= i implies v@[k].pid <= v@[l].pid by {
                if l == j {
                    if j > 0 && k < j - 1 {
                        assert(v@[k].pid <= v@[j - 1].pid);
                    }
                }
            }
            assert(sorted_by_pid(v@.take(i + 1)));
        }
        i = i + 1;
    }
    proof {
        assert(v@.take(v@.len() as int) =~= v@);
        if distinct_pids(old(v)@) {
            lemma_permutation_keeps_distinct_pids(old(v)@, v@);
        }
    }
}

} // verus!
