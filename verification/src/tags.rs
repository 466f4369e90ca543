//! Tag counters: a list of (name, count) pairs in which a name is counted once
//! per occurrence in the requests that named it.

use vstd::prelude::*;
use crate::model::tag_named;
use crate::seqs::{any, first_index, lemma_first_index, lemma_first_index_at, lemma_first_index_push, views};

verus! {

/// The counter table after one more occurrence of `name`: its counter grows by
/// one, or a new counter of 1 is appended.
pub open spec fn bump(tags: Seq<(Seq<char>, i32)>, name: Seq<char>) -> Seq<(Seq<char>, i32)> {
    let i = first_index(tags, tag_named(name));
    if i < tags.len() {
        tags.update(i, (name, (tags[i].1 + 1) as i32))
    } else {
        tags.push((name, 1i32))
    }
}

/// One more occurrence of `name` does not overflow its counter.
pub open spec fn bump_fits(tags: Seq<(Seq<char>, i32)>, name: Seq<char>) -> bool {
    let i = first_index(tags, tag_named(name));
    i < tags.len() ==> tags[i].1 < i32::MAX
}

/// The counter table after the occurrences `names`, taken in order.
pub open spec fn bump_all(tags: Seq<(Seq<char>, i32)>, names: Seq<Seq<char>>) -> Seq<(Seq<char>, i32)>
    decreases names.len(),
{
    if names.len() == 0 {
        tags
    } else {
        bump(bump_all(tags, names.drop_last()), names.last())
    }
}

/// No counter overflows while the occurrences `names` are counted.
pub open spec fn bump_all_fits(tags: Seq<(Seq<char>, i32)>, names: Seq<Seq<char>>) -> bool
    decreases names.len(),
{
    names.len() == 0 || (bump_all_fits(tags, names.drop_last()) && bump_fits(
        bump_all(tags, names.drop_last()),
        names.last(),
    ))
}

/// The count recorded for `name`: that of its first counter, or 0 without one.
pub open spec fn count_of(tags: Seq<(Seq<char>, i32)>, name: Seq<char>) -> int {
    let i = first_index(tags, tag_named(name));
    if i < tags.len() {
        tags[i].1 as int
    } else {
        0
    }
}

/// How many times `name` occurs in `names`.
pub open spec fn occurrences(names: Seq<Seq<char>>, name: Seq<char>) -> int
    decreases names.len(),
{
    if names.len() == 0 {
        0
    } else {
        occurrences(names.drop_last(), name) + if names.last() == name {
            1int
        } else {
            0int
        }
    }
}

/// A counter table is well formed where no name has two counters and every
/// counter has counted at least once.
pub open spec fn well_formed(tags: Seq<(Seq<char>, i32)>) -> bool {
    &&& forall|i: int| 0 <= i < tags.len() ==> (#[trigger] tags[i]).1 >= 1
    &&& forall|i: int, j: int|
        0 <= i < j < tags.len() ==> (#[trigger] tags[i]).0 != (#[trigger] tags[j]).0
}

/// Counting one occurrence keeps a counter table well formed.
pub proof fn lemma_bump_keeps_well_formed(tags: Seq<(Seq<char>, i32)>, name: Seq<char>)
    requires
        well_formed(tags),
        bump_fits(tags, name),
    ensures
        well_formed(bump(tags, name)),
{
    let p = tag_named(name);
    lemma_first_index(tags, p);
    let i = first_index(tags, p);
    let after = bump(tags, name);
    if i < tags.len() {
        assert(tags[i].0 == name);
        assert forall|k: int| 0 <= k < after.len() implies (#[trigger] after[k]).1 >= 1 by {
            if k != i {
                assert(after[k] == tags[k]);
            }
        }
        assert forall|k: int, j: int| 0 <= k < j < after.len() implies (#[trigger] after[k]).0 != (
        #[trigger] after[j]).0 by {
            assert(after[k].0 == tags[k].0);
            assert(after[j].0 == tags[j].0);
        }
    } else {
        assert forall|k: int| 0 <= k < after.len() implies (#[trigger] after[k]).1 >= 1 by {
            if k < tags.len() {
                assert(after[k] == tags[k]);
            }
        }
        assert forall|k: int, j: int| 0 <= k < j < after.len() implies (#[trigger] after[k]).0 != (
        #[trigger] after[j]).0 by {
            assert(after[k] == tags[k]);
            if j < tags.len() {
                assert(after[j] == tags[j]);
            } else {
                assert(!p(tags[k]));
            }
        }
    }
}

/// Counting a list of occurrences keeps a counter table well formed.
pub proof fn lemma_bump_all_keeps_well_formed(tags: Seq<(Seq<char>, i32)>, names: Seq<Seq<char>>)
    requires
        well_formed(tags),
        bump_all_fits(tags, names),
    ensures
        well_formed(bump_all(tags, names)),
    decreases names.len(),
{
    if names.len() > 0 {
        lemma_bump_all_keeps_well_formed(tags, names.drop_last());
        lemma_bump_keeps_well_formed(bump_all(tags, names.drop_last()), names.last());
    }
}

/// Counting one occurrence adds one to the count of that name and leaves every
/// other count as it was.
pub proof fn lemma_bump_counts(tags: Seq<(Seq<char>, i32)>, name: Seq<char>, other: Seq<char>)
    requires
        bump_fits(tags, name),
    ensures
        count_of(bump(tags, name), other) == count_of(tags, other) + if other == name {
            1int
        } else {
            0int
        },
{
    let p = tag_named(other);
    let i = first_index(tags, tag_named(name));
    let k = first_index(tags, p);
    lemma_first_index(tags, tag_named(name));
    lemma_first_index(tags, p);
    let after = bump(tags, name);
    if i < tags.len() {
        assert(tags[i].0 == name);
        if other == name {
            assert(k == i);
            assert forall|j: int| 0 <= j < i implies !p(#[trigger] after[j]) by {
                assert(after[j] == tags[j]);
            }
            lemma_first_index_at(after, p, i);
        } else {
            assert forall|j: int| 0 <= j < k implies !p(#[trigger] after[j]) by {
                if j != i {
                    assert(after[j] == tags[j]);
                }
            }
            if k < tags.len() {
                assert(k != i);
                assert(after[k] == tags[k]);
            }
            lemma_first_index_at(after, p, k);
        }
    } else {
        lemma_first_index_push(tags, p, (name, 1i32));
        if other == name {
            assert(k == i);
        }
    }
}

/// Counting a list of occurrences adds to each name's count the number of
/// times the list names it: repeated names count once per occurrence.
pub proof fn lemma_bump_all_counts(tags: Seq<(Seq<char>, i32)>, names: Seq<Seq<char>>, name: Seq<char>)
    requires
        bump_all_fits(tags, names),
    ensures
        count_of(bump_all(tags, names), name) == count_of(tags, name) + occurrences(names, name),
    decreases names.len(),
{
    if names.len() > 0 {
        lemma_bump_all_counts(tags, names.drop_last(), name);
        lemma_bump_counts(bump_all(tags, names.drop_last()), names.last(), name);
    }
}

/// If a list of occurrences fits, so does each of its prefixes.
pub proof fn lemma_prefix_fits(tags: Seq<(Seq<char>, i32)>, names: Seq<Seq<char>>, n: int)
    requires
        0 <= n <= names.len(),
        bump_all_fits(tags, names),
    ensures
        bump_all_fits(tags, names.take(n)),
    decreases names.len(),
{
    if n == names.len() {
        assert(names.take(n) =~= names);
    } else {
        lemma_prefix_fits(tags, names.drop_last(), n);
        assert(names.drop_last().take(n) =~= names.take(n));
    }
}

/// Position of the first counter named `name`, or `tags.len()`.
pub fn tag_position(tags: &Vec<(String, i32)>, name: &String) -> (i: usize)
    ensures
        i as int == first_index(views(tags@), tag_named(name@)),
{
    let mut i: usize = 0;
    while i < tags.len()
        invariant
            i <= tags.len(),
            forall|j: int| 0 <= j < i ==> !tag_named(name@)(#[trigger] views(tags@)[j]),
        decreases tags.len() - i,
    {
        if tags[i].0 == *name {
            proof {
                lemma_first_index_at(views(tags@), tag_named(name@), i as int);
            }
            return i;
        }
        i += 1;
    }
    proof {
        lemma_first_index_at(views(tags@), tag_named(name@), i as int);
    }
    i
}

/// Whether one more occurrence of `name` fits.
pub fn tag_fits(tags: &Vec<(String, i32)>, name: &String) -> (r: bool)
    ensures
        r == bump_fits(views(tags@), name@),
{
    let i = tag_position(tags, name);
    i >= tags.len() || tags[i].1 < i32::MAX
}

/// Counts one occurrence of `name`.
pub fn bump_tag(tags: &mut Vec<(String, i32)>, name: &String)
    requires
        bump_fits(views(old(tags)@), name@),
    ensures
        views(final(tags)@) == bump(views(old(tags)@), name@),
{
    let i = tag_position(tags, name);
    if i < tags.len() {
        let (n, c) = tags.remove(i);
        assert(n@ == name@) by {
            lemma_first_index(views(old(tags)@), tag_named(name@));
        }
        tags.insert(i, (n, c + 1));
        assert(views(tags@) =~= bump(views(old(tags)@), name@));
    } else {
        tags.push((name.clone(), 1));
        assert(views(tags@) =~= bump(views(old(tags)@), name@));
    }
}

/// Counts the occurrences `names`, in order.
pub fn bump_tags(tags: &mut Vec<(String, i32)>, names: &Vec<String>)
    requires
        bump_all_fits(views(old(tags)@), views(names@)),
    ensures
        views(final(tags)@) == bump_all(views(old(tags)@), views(names@)),
{
    let mut i: usize = 0;
    while i < names.len()
        invariant
            i <= names.len(),
            bump_all_fits(views(old(tags)@), views(names@)),
            views(tags@) == bump_all(views(old(tags)@), views(names@).take(i as int)),
        decreases names.len() - i,
    {
        proof {
            let all = views(names@);
            lemma_prefix_fits(views(old(tags)@), all, i + 1);
            assert(all.take(i + 1).drop_last() =~= all.take(i as int));
            assert(all.take(i + 1).last() == names[i as int]@);
        }
        bump_tag(tags, &names[i]);
        i += 1;
    }
    proof {
        assert(views(names@).take(i as int) =~= views(names@));
    }
}

/// A copy of a counter table with the same view.
pub fn copy_tags(tags: &Vec<(String, i32)>) -> (r: Vec<(String, i32)>)
    ensures
        views(r@) == views(tags@),
{
    let mut r: Vec<(String, i32)> = Vec::new();
    let mut i: usize = 0;
    while i < tags.len()
        invariant
            i <= tags.len(),
            views(r@) == views(tags@).take(i as int),
        decreases tags.len() - i,
    {
        let ghost before = r@;
        r.push((tags[i].0.clone(), tags[i].1));
        assert(r@.last()@ == tags@[i as int]@);
        assert(views(before) == views(tags@).take(i as int));
        assert(views(r@) =~= views(before).push(tags@[i as int]@));
        assert(views(r@) =~= views(tags@).take(i + 1));
        i += 1;
    }
    assert(views(tags@).take(i as int) =~= views(tags@));
    r
}

/// Whether the occurrences `names` can all be counted without overflow.
pub fn tags_fit(tags: &Vec<(String, i32)>, names: &Vec<String>) -> (r: bool)
    ensures
        r == bump_all_fits(views(tags@), views(names@)),
{
    let mut work = copy_tags(tags);
    let mut i: usize = 0;
    while i < names.len()
        invariant
            i <= names.len(),
            bump_all_fits(views(tags@), views(names@).take(i as int)),
            views(work@) == bump_all(views(tags@), views(names@).take(i as int)),
        decreases names.len() - i,
    {
        proof {
            let all = views(names@);
            assert(all.take(i + 1).drop_last() =~= all.take(i as int));
            assert(all.take(i + 1).last() == names[i as int]@);
        }
        if !tag_fits(&work, &names[i]) {
            proof {
                if bump_all_fits(views(tags@), views(names@)) {
                    lemma_prefix_fits(views(tags@), views(names@), i + 1);
                }
            }
            return false;
        }
        bump_tag(&mut work, &names[i]);
        i += 1;
    }
    proof {
        assert(views(names@).take(i as int) =~= views(names@));
    }
    true
}

} // verus!
