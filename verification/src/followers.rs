//! Who follows whom.

use crate::objects::{EntityId, PersonId};
use vstd::prelude::*;

verus! {

/// What is followed.
#[derive(Clone, Copy, Debug, PartialEq, Eq, Structural)]
pub enum Followee {
    Person(PersonId),
    Community(EntityId),
}

/// One follow; at most one for each pair of follower and followee.
#[derive(Clone, Copy, Debug, PartialEq, Eq, Structural)]
pub struct FollowRelationship {
    pub follower: PersonId,
    pub followee: Followee,
    /// Whether the followee has yet to accept.
    pub pending: bool,
}

impl FollowRelationship {
    /// Whether two relationships are between the same follower and followee.
    pub open spec fn same_pair(self, other: FollowRelationship) -> bool {
        self.follower == other.follower && self.followee == other.followee
    }

    pub fn is_same_pair(&self, other: &FollowRelationship) -> (same: bool)
        ensures
            same == self.same_pair(*other),
    {
        self.follower == other.follower && self.followee == other.followee
    }
}

/// Whether the pair of `form` has a relationship.
pub open spec fn follows(rows: Seq<FollowRelationship>, form: FollowRelationship) -> bool {
    exists|i: int| 0 <= i < rows.len() && (#[trigger] rows[i]).same_pair(form)
}

/// No pair has two relationships.
pub open spec fn pairs_unique(rows: Seq<FollowRelationship>) -> bool {
    forall|i: int, j: int|
        0 <= i < j < rows.len() ==> !(#[trigger] rows[i]).same_pair(#[trigger] rows[j])
}

/// The table after a follow: the pair's relationship is as the form says; a pair that had
/// none gets one at the end.
pub open spec fn follow_spec(rows: Seq<FollowRelationship>, form: FollowRelationship) -> Seq<
    FollowRelationship,
> {
    if follows(rows, form) {
        Seq::new(
            rows.len(),
            |i: int|
                if rows[i].same_pair(form) {
                    form
                } else {
                    rows[i]
                },
        )
    } else {
        rows.push(form)
    }
}

/// The table after an unfollow: without the pair's relationships, the others in order.
pub open spec fn unfollow_spec(rows: Seq<FollowRelationship>, form: FollowRelationship) -> Seq<
    FollowRelationship,
>
    decreases rows.len(),
{
    if rows.len() == 0 {
        rows
    } else if rows.last().same_pair(form) {
        unfollow_spec(rows.drop_last(), form)
    } else {
        unfollow_spec(rows.drop_last(), form).push(rows.last())
    }
}

/// Whether the pair of `form` has a relationship.
pub fn is_following(rows: &Vec<FollowRelationship>, form: &FollowRelationship) -> (found: bool)
    ensures
        found == follows(rows@, *form),
{
    let mut i: usize = 0;
    while i < rows.len()
        invariant
            i <= rows.len(),
            forall|j: int| 0 <= j < i ==> !(#[trigger] rows@[j]).same_pair(*form),
        decreases rows.len() - i,
    {
        if rows[i].is_same_pair(form) {
            return true;
        }
        i += 1;
    }
    false
}

/// Records that the follower follows the followee, or brings the record up to date.
pub fn follow(rows: &mut Vec<FollowRelationship>, form: FollowRelationship)
    ensures
        final(rows)@ == follow_spec(old(rows)@, form),
{
    if is_following(rows, &form) {
        let ghost before = rows@;
        let mut i: usize = 0;
        while i < rows.len()
            invariant
                i <= rows.len(),
                rows.len() == before.len(),
                forall|j: int| 0 <= j < i ==> #[trigger] rows@[j] == follow_spec(before, form)[j],
                forall|j: int| i <= j < rows.len() ==> #[trigger] rows@[j] == before[j],
                follows(before, form),
            decreases rows.len() - i,
        {
            if rows[i].is_same_pair(&form) {
                rows[i] = form;
            }
            i += 1;
        }
        assert(rows@ =~= follow_spec(before, form));
    } else {
        rows.push(form);
    }
}

/// Removes the relationship between the follower and the followee. Where there is none,
/// nothing changes and nothing fails.
pub fn unfollow(rows: &mut Vec<FollowRelationship>, form: FollowRelationship)
    ensures
        final(rows)@ == unfollow_spec(old(rows)@, form),
        !follows(old(rows)@, form) ==> final(rows)@ == old(rows)@,
{
    let ghost before = rows@;
    let mut kept: Vec<FollowRelationship> = Vec::new();
    let mut i: usize = 0;
    assert(before.take(0) =~= Seq::<FollowRelationship>::empty());
    while i < rows.len()
        invariant
            i <= rows.len(),
            rows@ == before,
            kept@ == unfollow_spec(before.take(i as int), form),
        decreases rows.len() - i,
    {
        proof {
            assert(before.take(i + 1).drop_last() =~= before.take(i as int));
        }
        if !rows[i].is_same_pair(&form) {
            kept.push(rows[i]);
        }
        i += 1;
    }
    proof {
        assert(before.take(before.len() as int) =~= before);
        lemma_unfollow_absent(before, form);
    }
    *rows = kept;
}

/// An unfollow of a pair that has no relationship leaves the table as it was.
pub proof fn lemma_unfollow_absent(rows: Seq<FollowRelationship>, form: FollowRelationship)
    ensures
        !follows(rows, form) ==> unfollow_spec(rows, form) == rows,
    decreases rows.len(),
{
    if rows.len() > 0 && !follows(rows, form) {
        let front = rows.drop_last();
        assert(!follows(front, form)) by {
            if follows(front, form) {
                let i = choose|i: int| 0 <= i < front.len() && (#[trigger] front[i]).same_pair(form);
                assert(rows[i].same_pair(form));
            }
        }
        lemma_unfollow_absent(front, form);
        assert(!rows[rows.len() - 1].same_pair(form));
        assert(front.push(rows.last()) =~= rows);
    }
}

/// After an unfollow the pair has no relationship, and every other relationship is where
/// it was relative to the rest; a second unfollow changes nothing.
pub proof fn lemma_unfollow_removes(rows: Seq<FollowRelationship>, form: FollowRelationship)
    ensures
        !follows(unfollow_spec(rows, form), form),
        unfollow_spec(unfollow_spec(rows, form), form) == unfollow_spec(rows, form),
        pairs_unique(rows) ==> pairs_unique(unfollow_spec(rows, form)),
        forall|i: int|
            0 <= i < unfollow_spec(rows, form).len() ==> rows.contains(
                #[trigger] unfollow_spec(rows, form)[i],
            ),
    decreases rows.len(),
{
    let after = unfollow_spec(rows, form);
    if rows.len() > 0 {
        let front = rows.drop_last();
        let front_after = unfollow_spec(front, form);
        lemma_unfollow_removes(front, form);
        assert forall|i: int| 0 <= i < after.len() implies rows.contains(#[trigger] after[i]) by {
            if i < front_after.len() {
                assert(front.contains(front_after[i]));
                let k = choose|k: int| 0 <= k < front.len() && front[k] == front_after[i];
                assert(rows[k] == front_after[i]);
            } else {
                assert(rows[rows.len() - 1] == after[i]);
            }
        }
        if follows(after, form) {
            let i = choose|i: int| 0 <= i < after.len() && (#[trigger] after[i]).same_pair(form);
            if i < front_after.len() {
                assert(front_after[i].same_pair(form));
            }
        }
        if pairs_unique(rows) {
            assert(pairs_unique(front)) by {
                assert forall|i: int, j: int| 0 <= i < j < front.len() implies !(
                #[trigger] front[i]).same_pair(#[trigger] front[j]) by {
                    assert(!rows[i].same_pair(rows[j]));
                }
            }
            assert forall|i: int, j: int| 0 <= i < j < after.len() implies !(
            #[trigger] after[i]).same_pair(#[trigger] after[j]) by {
                if j < front_after.len() {
                    assert(!front_after[i].same_pair(front_after[j]));
                } else {
                    assert(front.contains(front_after[i]));
                    let k = choose|k: int| 0 <= k < front.len() && front[k] == front_after[i];
                    assert(!rows[k].same_pair(rows[rows.len() - 1]));
                }
            }
        }
    }
    lemma_unfollow_absent(after, form);
}

/// A follow keeps the pairs distinct and leaves the pair with a relationship; a second
/// follow with the same form changes nothing.
pub proof fn lemma_follow_idempotent(rows: Seq<FollowRelationship>, form: FollowRelationship)
    ensures
        follows(follow_spec(rows, form), form),
        follow_spec(follow_spec(rows, form), form) == follow_spec(rows, form),
        pairs_unique(rows) ==> pairs_unique(follow_spec(rows, form)),
{
    let after = follow_spec(rows, form);
    if follows(rows, form) {
        let i = choose|i: int| 0 <= i < rows.len() && (#[trigger] rows[i]).same_pair(form);
        assert(after[i].same_pair(form));
        assert(follow_spec(after, form) =~= after);
        if pairs_unique(rows) {
            assert forall|i: int, j: int| 0 <= i < j < after.len() implies !(
            #[trigger] after[i]).same_pair(#[trigger] after[j]) by {
                assert(!rows[i].same_pair(rows[j]));
            }
        }
    } else {
        assert(after[rows.len() as int].same_pair(form));
        assert(follow_spec(after, form) =~= after);
        if pairs_unique(rows) {
            assert forall|i: int, j: int| 0 <= i < j < after.len() implies !(
            #[trigger] after[i]).same_pair(#[trigger] after[j]) by {
                if j == rows.len() {
                    assert(!rows[i].same_pair(form));
                } else {
                    assert(!rows[i].same_pair(rows[j]));
                }
            }
        }
    }
}

} // verus!
