//! The order of a listing: newest first by creation date.

use crate::models::account::Account;
use crate::models::announcement::Announcement;
use crate::models::executive_member::ExecutiveMember;
use crate::models::forum_post::Post;
use crate::models::general_member::GeneralMember;
use vstd::prelude::*;

verus! {

/// A record that carries its creation date.
pub trait Dated {
    /// Milliseconds since the Unix epoch.
    spec fn created_at(&self) -> i64;

    fn date_created(&self) -> (millis: i64)
        ensures
            millis == self.created_at(),
    ;
}

impl Dated for Post {
    open spec fn created_at(&self) -> i64 {
        self.date_created
    }

    fn date_created(&self) -> (millis: i64) {
        self.date_created
    }
}

impl Dated for Account {
    open spec fn created_at(&self) -> i64 {
        self.date_created
    }

    fn date_created(&self) -> (millis: i64) {
        self.date_created
    }
}

impl Dated for GeneralMember {
    open spec fn created_at(&self) -> i64 {
        self.date_created
    }

    fn date_created(&self) -> (millis: i64) {
        self.date_created
    }
}

impl Dated for ExecutiveMember {
    open spec fn created_at(&self) -> i64 {
        self.date_created
    }

    fn date_created(&self) -> (millis: i64) {
        self.date_created
    }
}

impl Dated for Announcement {
    open spec fn created_at(&self) -> i64 {
        self.date_created
    }

    fn date_created(&self) -> (millis: i64) {
        self.date_created
    }
}

/// A list with `item` put in behind every record that is at least as new,
/// up to the first that is older.
pub open spec fn placed<T: Dated>(list: Seq<T>, item: T) -> Seq<T>
    decreases list.len(),
{
    if list.len() == 0 {
        seq![item]
    } else if list[0].created_at() >= item.created_at() {
        seq![list[0]] + placed(list.drop_first(), item)
    } else {
        seq![item] + list
    }
}

/// The records of a list, newest first; records of the same date stay in
/// the order they had.
pub open spec fn newest_first<T: Dated>(items: Seq<T>) -> Seq<T>
    decreases items.len(),
{
    if items.len() == 0 {
        items
    } else {
        placed(newest_first(items.drop_last()), items.last())
    }
}

/// No record of the list stands before a newer one.
pub open spec fn is_newest_first<T: Dated>(list: Seq<T>) -> bool {
    forall|i: int, j: int|
        0 <= i < j < list.len() ==> (#[trigger] list[i]).created_at() >= (
        #[trigger] list[j]).created_at()
}

/// Putting a record in at the first place where an older one stands is what
/// `placed` does.
proof fn lemma_placed_at<T: Dated>(list: Seq<T>, item: T, at: int)
    requires
        0 <= at <= list.len(),
        forall|i: int| 0 <= i < at ==> (#[trigger] list[i]).created_at() >= item.created_at(),
        at < list.len() ==> list[at].created_at() < item.created_at(),
    ensures
        placed(list, item) == list.insert(at, item),
    decreases list.len(),
{
    if list.len() == 0 {
        assert(list.insert(0, item) =~= seq![item]);
    } else if at == 0 {
        assert(list.insert(0, item) =~= seq![item] + list);
    } else {
        let rest = list.drop_first();
        assert(list[0].created_at() >= item.created_at());
        assert forall|i: int| 0 <= i < at - 1 implies (#[trigger] rest[i]).created_at()
            >= item.created_at() by {
            assert(rest[i] == list[i + 1]);
        }
        lemma_placed_at(rest, item, at - 1);
        assert(seq![list[0]] + rest.insert(at - 1, item) =~= list.insert(at, item));
    }
}

/// Putting a record into a list keeps its records and adds the one.
proof fn lemma_placed_holds_the_same<T: Dated>(list: Seq<T>, item: T)
    ensures
        placed(list, item).to_multiset() == list.to_multiset().insert(item),
        placed(list, item).len() == list.len() + 1,
    decreases list.len(),
{
    broadcast use vstd::seq_lib::group_to_multiset_ensures;

    if list.len() == 0 {
        assert(seq![item] =~= list.push(item));
    } else if list[0].created_at() >= item.created_at() {
        let rest = list.drop_first();
        lemma_placed_holds_the_same(rest, item);
        let tail = placed(rest, item);
        assert(seq![list[0]] + tail =~= tail.insert(0, list[0]));
        assert(list =~= rest.insert(0, list[0]));
        assert((seq![list[0]] + tail).to_multiset() =~= list.to_multiset().insert(item));
    } else {
        assert(seq![item] + list =~= list.insert(0, item));
    }
}

/// Putting a record into a list that is newest first leaves it newest
/// first.
proof fn lemma_placed_keeps_order<T: Dated>(list: Seq<T>, item: T)
    requires
        is_newest_first(list),
    ensures
        is_newest_first(placed(list, item)),
    decreases list.len(),
{
    if list.len() == 0 {
    } else if list[0].created_at() >= item.created_at() {
        let rest = list.drop_first();
        assert forall|i: int, j: int| 0 <= i < j < rest.len() implies (#[trigger] rest[i])
            .created_at() >= (#[trigger] rest[j]).created_at() by {
            assert(rest[i] == list[i + 1] && rest[j] == list[j + 1]);
        }
        lemma_placed_keeps_order(rest, item);
        lemma_placed_holds_the_same(rest, item);
        let tail = placed(rest, item);
        let whole = seq![list[0]] + tail;
        assert forall|j: int| 0 <= j < tail.len() implies list[0].created_at() >= (
        #[trigger] tail[j]).created_at() by {
            broadcast use vstd::seq_lib::group_to_multiset_ensures;

            assert(tail.to_multiset().contains(tail[j]));
            if tail[j] != item {
                assert(rest.to_multiset().contains(tail[j]));
                let k = choose|k: int| 0 <= k < rest.len() && rest[k] == tail[j];
                assert(rest[k] == list[k + 1]);
            }
        }
        assert forall|i: int, j: int| 0 <= i < j < whole.len() implies (#[trigger] whole[i])
            .created_at() >= (#[trigger] whole[j]).created_at() by {
            if i > 0 {
                assert(whole[i] == tail[i - 1] && whole[j] == tail[j - 1]);
            } else {
                assert(whole[j] == tail[j - 1]);
            }
        }
    } else {
        let whole = seq![item] + list;
        assert forall|i: int, j: int| 0 <= i < j < whole.len() implies (#[trigger] whole[i])
            .created_at() >= (#[trigger] whole[j]).created_at() by {
            if i > 0 {
                assert(whole[i] == list[i - 1] && whole[j] == list[j - 1]);
            } else {
                assert(whole[j] == list[j - 1]);
                if j - 1 > 0 {
                    assert(list[0].created_at() >= list[j - 1].created_at());
                }
            }
        }
    }
}

/// The listing order holds the very records it was given, and no record of
/// it stands before a newer one.
pub proof fn lemma_newest_first_sorts<T: Dated>(items: Seq<T>)
    ensures
        newest_first(items).to_multiset() == items.to_multiset(),
        newest_first(items).len() == items.len(),
        is_newest_first(newest_first(items)),
    decreases items.len(),
{
    broadcast use vstd::seq_lib::group_to_multiset_ensures;

    if items.len() > 0 {
        let before = items.drop_last();
        lemma_newest_first_sorts(before);
        lemma_placed_holds_the_same(newest_first(before), items.last());
        lemma_placed_keeps_order(newest_first(before), items.last());
        assert(before.push(items.last()) =~= items);
    }
}

/// Puts the records newest first; records of the same date stay in the
/// order they had.
pub fn sort_newest_first<T: Dated>(items: Vec<T>) -> (sorted: Vec<T>)
    ensures
        sorted@ == newest_first(items@),
{
    let ghost given = items@;
    let mut rest = items;
    let mut sorted: Vec<T> = Vec::new();
    let ghost mut done: int = 0;
    assert(given.take(0) =~= Seq::empty());
    assert(given.skip(0) =~= given);
    while rest.len() > 0
        invariant
            0 <= done <= given.len(),
            rest@ == given.skip(done),
            sorted@ == newest_first(given.take(done)),
        decreases rest.len(),
    {
        let item = rest.remove(0);
        assert(item == given[done]);
        let mut at: usize = 0;
        while at < sorted.len() && sorted[at].date_created() >= item.date_created()
            invariant
                at <= sorted.len(),
                forall|i: int|
                    0 <= i < at ==> (#[trigger] sorted@[i]).created_at() >= item.created_at(),
            decreases sorted.len() - at,
        {
            at += 1;
        }
        proof {
            lemma_placed_at(sorted@, item, at as int);
            assert(given.take(done + 1).drop_last() =~= given.take(done));
            assert(given.skip(done).remove(0) =~= given.skip(done + 1));
            done = done + 1;
        }
        sorted.insert(at, item);
    }
    assert(given.take(given.len() as int) =~= given);
    sorted
}

} // verus!
