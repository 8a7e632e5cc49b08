//! The comment engine: the list of comments that a forum post carries is
//! only ever added to at its end, read newest first by pages, and cut by
//! identity.

use crate::bindings::dates::{bson_datetime_text, datetime_text};
use crate::models::comment::{Comment, CommentRequest, CommentRequestView, CommentView};
use crate::models::forum_post::{comment_views, Post, PostView};
use crate::models::id::{object_id_text, EntityId};
use crate::text::{contains, contains_text, occurs_at, same_text};
use crate::utilities::pagination_args::{records_before, skip_of};
use vstd::prelude::*;

verus! {

/// The requests of a list, each by its view, in order.
pub open spec fn request_views(requests: Seq<CommentRequest>) -> Seq<CommentRequestView> {
    requests.map_values(|request: CommentRequest| request@)
}

/// The post after a comment was added: the list grows at its end and
/// nothing else changes.
pub open spec fn appended(post: PostView, comment: CommentView) -> PostView {
    PostView { comments: post.comments.push(comment), ..post }
}

/// Adds a comment at the end of the post's list.
pub fn append_comment(post: &mut Post, comment: Comment)
    ensures
        final(post)@ == appended(old(post)@, comment@),
{
    post.comments.push(comment);
    assert(comment_views(post.comments@) =~= comment_views(old(post).comments@).push(comment@));
}

/// A comment as it is shown: identity and date written out.
pub open spec fn shown(comment: CommentView) -> CommentRequestView {
    CommentRequestView {
        id: object_id_text(comment.id.value),
        author: comment.author,
        email: comment.email,
        date_created: bson_datetime_text(comment.date_created),
        body: comment.body,
    }
}

/// Writes a comment out as it is shown.
pub fn show_comment(comment: &Comment) -> (request: CommentRequest)
    ensures
        request@ == shown(comment@),
{
    CommentRequest {
        id: comment._id.to_hex(),
        author: comment.author.clone(),
        email: comment.email.clone(),
        date_created: datetime_text(comment.date_created),
        body: comment.body.clone(),
    }
}

/// One page of a list read from its end: after passing over the `skip`
/// newest items, the next `limit` of them, newest first.
pub open spec fn newest_first_page<T>(items: Seq<T>, skip: int, limit: int) -> Seq<T> {
    let from = if skip < items.len() {
        skip
    } else {
        items.len() as int
    };
    let to = if skip + limit < items.len() {
        skip + limit
    } else {
        items.len() as int
    };
    Seq::new((to - from) as nat, |k: int| items[items.len() - 1 - from - k])
}

/// Which text of a comment a search looks at: the address for the field
/// `email`, the author for any other.
pub open spec fn searched_text(request: CommentRequestView, field: Seq<char>) -> Seq<char> {
    if field == "email"@ {
        request.email
    } else {
        request.author
    }
}

/// The comments that a search keeps: those whose searched text holds
/// `search` as it is written.
pub open spec fn search_keeps(search: Seq<char>, field: Seq<char>) -> spec_fn(
    CommentRequestView,
) -> bool {
    |request: CommentRequestView| contains_text(searched_text(request, field), search)
}

/// What a listing shows: the page is cut first, newest first, and the search
/// is applied to the page.
pub open spec fn listed(
    comments: Seq<CommentView>,
    skip: int,
    limit: int,
    search: Seq<char>,
    field: Seq<char>,
) -> Seq<CommentRequestView> {
    newest_first_page(comments, skip, limit).map_values(|comment: CommentView| shown(comment))
        .filter(search_keeps(search, field))
}

/// Lists one page of a post's comments, newest first, after passing over
/// `skip` of them, and keeps those of the page that the search finds.
pub fn list_comments_from(post: &Post, skip: u64, limit: u32, search: &str, field: &str) -> (page:
    Vec<CommentRequest>)
    ensures
        request_views(page@) == listed(
            post@.comments,
            skip as int,
            limit as int,
            search@,
            field@,
        ),
{
    let total: usize = post.comments.len();
    let from: usize = if skip < total as u64 {
        skip as usize
    } else {
        total
    };
    let room: usize = total - from;
    let count: usize = if (limit as u64) < room as u64 {
        limit as usize
    } else {
        room
    };
    let by_email = same_text(field, "email");
    let ghost window = newest_first_page(post@.comments, skip as int, limit as int);
    let ghost all = window.map_values(|comment: CommentView| shown(comment));
    let ghost keeps = search_keeps(search@, field@);
    assert(window.len() == count);
    let mut page: Vec<CommentRequest> = Vec::new();
    let mut k: usize = 0;
    assert(all.take(0) =~= Seq::empty());
    assert(request_views(page@) =~= Seq::empty());
    while k < count
        invariant
            k <= count,
            from + count <= total,
            total == post.comments.len(),
            window == newest_first_page(post@.comments, skip as int, limit as int),
            window.len() == count,
            forall|j: int| 0 <= j < count ==> window[j] == post.comments@[total - 1 - from - j]@,
            all == window.map_values(|comment: CommentView| shown(comment)),
            keeps == search_keeps(search@, field@),
            by_email == (field@ == "email"@),
            request_views(page@) == all.take(k as int).filter(keeps),
        decreases count - k,
    {
        let request = show_comment(&post.comments[total - 1 - from - k]);
        assert(request@ == all[k as int]);
        let kept = if by_email {
            contains(request.email.as_str(), search)
        } else {
            contains(request.author.as_str(), search)
        };
        assert(kept == keeps(request@));
        proof {
            assert(all.take(k + 1) =~= all.take(k as int).push(all[k as int]));
            all.take(k as int).lemma_filter_push(all[k as int], keeps);
        }
        if kept {
            let ghost before = page@;
            page.push(request);
            assert(request_views(page@) =~= request_views(before).push(request@));
        }
        k += 1;
    }
    assert(all.take(count as int) =~= all);
    page
}

/// Lists page `page`, counted from 1, of a post's comments.
pub fn list_comments(post: &Post, page: u32, limit: u32, search: &str, field: &str) -> (listing:
    Vec<CommentRequest>)
    requires
        page >= 1,
    ensures
        request_views(listing@) == listed(
            post@.comments,
            records_before(page as int, limit as int),
            limit as int,
            search@,
            field@,
        ),
{
    list_comments_from(post, skip_of(page, limit), limit, search, field)
}

/// Finds the first comment of a post with identity `id`.
pub fn find_comment(post: &Post, id: EntityId) -> (found: Option<usize>)
    ensures
        match found {
            Some(at) => {
                &&& at < post.comments.len()
                &&& post@.comments[at as int].id == id
                &&& forall|j: int| 0 <= j < at ==> post@.comments[j].id != id
            },
            None => forall|j: int| 0 <= j < post@.comments.len() ==> post@.comments[j].id != id,
        },
{
    let mut at: usize = 0;
    while at < post.comments.len()
        invariant
            at <= post.comments.len(),
            forall|j: int| 0 <= j < at ==> post@.comments[j].id != id,
        decreases post.comments.len() - at,
    {
        if post.comments[at]._id == id {
            return Some(at);
        }
        at += 1;
    }
    None
}

/// The list without its first comment of identity `id`; the list itself
/// where none has it.
pub open spec fn without(comments: Seq<CommentView>, id: EntityId) -> Seq<CommentView>
    decreases comments.len(),
{
    if comments.len() == 0 {
        comments
    } else if comments[0].id == id {
        comments.drop_first()
    } else {
        seq![comments[0]] + without(comments.drop_first(), id)
    }
}

/// Cutting at the first match is the same as dropping it by its index.
pub proof fn lemma_without_removes_first(comments: Seq<CommentView>, id: EntityId, at: int)
    requires
        0 <= at < comments.len(),
        comments[at].id == id,
        forall|j: int| 0 <= j < at ==> comments[j].id != id,
    ensures
        without(comments, id) == comments.remove(at),
    decreases comments.len(),
{
    if at == 0 {
        assert(comments.remove(0) =~= comments.drop_first());
    } else {
        let rest = comments.drop_first();
        assert forall|j: int| 0 <= j < at - 1 implies rest[j].id != id by {
            assert(rest[j] == comments[j + 1]);
        }
        lemma_without_removes_first(rest, id, at - 1);
        assert(seq![comments[0]] + rest.remove(at - 1) =~= comments.remove(at));
    }
}

/// A list in which no comment has identity `id` is left as it is.
pub proof fn lemma_without_absent(comments: Seq<CommentView>, id: EntityId)
    requires
        forall|j: int| 0 <= j < comments.len() ==> comments[j].id != id,
    ensures
        without(comments, id) == comments,
    decreases comments.len(),
{
    if comments.len() > 0 {
        let rest = comments.drop_first();
        assert forall|j: int| 0 <= j < rest.len() implies rest[j].id != id by {
            assert(rest[j] == comments[j + 1]);
        }
        lemma_without_absent(rest, id);
        assert(seq![comments[0]] + rest =~= comments);
    }
}

/// Whether any comment of the list has identity `id`.
pub open spec fn holds_comment(comments: Seq<CommentView>, id: EntityId) -> bool {
    exists|i: int| 0 <= i < comments.len() && comments[i].id == id
}

/// Cuts the first comment with identity `id` out of the post's list and
/// says whether there was one. Nothing else changes.
pub fn remove_comment(post: &mut Post, id: EntityId) -> (removed: bool)
    ensures
        removed == holds_comment(old(post)@.comments, id),
        final(post)@ == (PostView { comments: without(old(post)@.comments, id), ..old(post)@ }),
{
    match find_comment(post, id) {
        Some(at) => {
            let ghost before = post@.comments;
            post.comments.remove(at);
            proof {
                lemma_without_removes_first(before, id, at as int);
                assert(comment_views(post.comments@) =~= before.remove(at as int));
            }
            true
        },
        None => {
            proof {
                lemma_without_absent(post@.comments, id);
            }
            false
        },
    }
}

/// The post after the comments of `added` were added one by one, in order.
pub open spec fn appended_all(post: PostView, added: Seq<CommentView>) -> PostView
    decreases added.len(),
{
    if added.len() == 0 {
        post
    } else {
        appended(appended_all(post, added.drop_last()), added.last())
    }
}

/// Adding comments is append-only: after any number of additions the list
/// is the old list followed by the added comments in the order they came,
/// and the rest of the post is as it was.
pub proof fn lemma_appends_only_add(post: PostView, added: Seq<CommentView>)
    ensures
        appended_all(post, added) == (PostView { comments: post.comments + added, ..post }),
    decreases added.len(),
{
    if added.len() == 0 {
        assert(post.comments + added =~= post.comments);
    } else {
        lemma_appends_only_add(post, added.drop_last());
        assert((post.comments + added.drop_last()).push(added.last()) =~= post.comments + added);
    }
}

/// A filter that keeps every item of a list leaves the list as it is.
proof fn lemma_filter_keeps_all<T>(items: Seq<T>, keeps: spec_fn(T) -> bool)
    requires
        forall|i: int| 0 <= i < items.len() ==> keeps(#[trigger] items[i]),
    ensures
        items.filter(keeps) == items,
    decreases items.len(),
{
    reveal(Seq::filter);
    if items.len() > 0 {
        lemma_filter_keeps_all(items.drop_last(), keeps);
        assert(items.drop_last().push(items.last()) =~= items);
    }
}

/// How many comments a page shows when nothing is searched for: what is
/// left after the pages before it, up to the limit.
pub open spec fn page_len(total: int, skip: int, limit: int) -> int {
    let left = if skip < total {
        total - skip
    } else {
        0
    };
    if limit < left {
        limit
    } else {
        left
    }
}

/// After N additions to a post without comments, a listing without a search
/// shows exactly the added comments, newest first, within the bounds of the
/// page: position `k` of the page holds the comment added `skip + k` places
/// before the last, and the page is as long as the limit and the number of
/// comments left allow. With `skip` 0 and a limit of at least N, that is all
/// N comments.
pub proof fn lemma_listing_after_appends(
    post: PostView,
    added: Seq<CommentView>,
    skip: int,
    limit: int,
    field: Seq<char>,
)
    requires
        post.comments.len() == 0,
        0 <= skip,
        0 <= limit,
    ensures
        ({
            let page = listed(
                appended_all(post, added).comments,
                skip,
                limit,
                Seq::<char>::empty(),
                field,
            );
            &&& page.len() == page_len(added.len() as int, skip, limit)
            &&& forall|k: int|
                0 <= k < page.len() ==> #[trigger] page[k] == shown(
                    added[added.len() - 1 - skip - k],
                )
        }),
{
    lemma_appends_only_add(post, added);
    assert(post.comments + added =~= added);
    let window = newest_first_page(added, skip, limit);
    let all = window.map_values(|comment: CommentView| shown(comment));
    let keeps = search_keeps(Seq::<char>::empty(), field);
    assert forall|i: int| 0 <= i < all.len() implies keeps(#[trigger] all[i]) by {
        let text = searched_text(all[i], field);
        assert(text.subrange(0, 0) =~= Seq::<char>::empty());
        assert(occurs_at(text, Seq::<char>::empty(), 0));
    }
    lemma_filter_keeps_all(all, keeps);
}

} // verus!
