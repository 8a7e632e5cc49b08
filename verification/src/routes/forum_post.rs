//! The handlers of the forum: posts and the comments under them.

use crate::bindings::dates::{bson_datetime_text, datetime_text, rfc3339_millis};
use crate::models::comment::{
    Comment, CommentRequest, CommentRequestRequest, CommentRequestRequestView, CommentView,
};
use crate::models::conversion::parse_date;
use crate::models::forum_post::{
    comment_views, Post, PostRequest, PostRequestRequest, PostRequestRequestView,
    PostRequestView, PostView,
};
use crate::models::id::{object_id_text, object_id_value, EntityId};
use crate::routes::guard::Denial;
use crate::routes::reply::{Body, Reply, Status};
use crate::routes::shared::{counted, delete_found, deleted, Inserted};
use crate::rules::{joined_messages, joined_text};
use crate::services::comments::{
    append_comment, appended, find_comment, holds_comment, list_comments, listed,
    remove_comment, request_views, without,
};
use crate::services::db::{
    by_id, page_of, search_filter, Collection, Lookup, Page, Selection, StoreFailure,
};
use crate::services::db;
use crate::services::listing::{newest_first, sort_newest_first};
use crate::text::same_text;
use crate::utilities::claims::{AdminClaims, UserClaims};
use crate::utilities::pagination_args::{records_before, PaginationArgs};
use vstd::prelude::*;

verus! {

/// Answers how many forum posts there are.
pub fn return_amount_of_posts(count: Result<u64, StoreFailure>) -> (reply: Reply<u64>)
    ensures
        match count {
            Ok(amount) => reply.carries(amount),
            Err(_) => reply.says(Status::InternalServerError, "Error counting records."@),
        },
{
    counted(count)
}

/// A copy of a list of comments.
pub fn copy_comments(comments: &Vec<Comment>) -> (copy: Vec<Comment>)
    ensures
        comment_views(copy@) == comment_views(comments@),
{
    let mut copy: Vec<Comment> = Vec::new();
    let mut i: usize = 0;
    while i < comments.len()
        invariant
            i <= comments.len(),
            comment_views(copy@) =~= comment_views(comments@).take(i as int),
        decreases comments.len() - i,
    {
        let ghost before = copy@;
        let comment = comments[i].clone();
        copy.push(comment);
        assert(comment_views(copy@) =~= comment_views(before).push(comment@));
        assert(comment_views(comments@).take(i + 1) =~= comment_views(comments@).take(
            i as int,
        ).push(comments@[i as int]@));
        i += 1;
    }
    assert(comment_views(comments@).take(comments@.len() as int) =~= comment_views(comments@));
    copy
}

/// A post as it is shown whole: identity and date written out, the
/// comments as they are.
pub open spec fn shown_whole(post: PostView) -> PostRequestView {
    PostRequestView {
        id: object_id_text(post.id.value),
        author: post.author,
        email: post.email,
        date_created: bson_datetime_text(post.date_created),
        title: post.title,
        body: post.body,
        comments: post.comments,
    }
}

/// A post as a listing shows it: as whole, but without its comments.
pub open spec fn shown_bare(post: PostView) -> PostRequestView {
    PostRequestView { comments: Seq::empty(), ..shown_whole(post) }
}

/// Writes a post out as it is shown, with its comments or without.
pub fn show_post(post: &Post, with_comments: bool) -> (request: PostRequest)
    ensures
        request@ == if with_comments {
            shown_whole(post@)
        } else {
            shown_bare(post@)
        },
{
    let comments = if with_comments {
        copy_comments(&post.comments)
    } else {
        let none: Vec<Comment> = Vec::new();
        assert(comment_views(none@) =~= Seq::empty());
        none
    };
    PostRequest {
        id: post._id.to_hex(),
        author: post.author.clone(),
        email: post.email.clone(),
        date_created: datetime_text(post.date_created),
        title: post.title.clone(),
        body: post.body.clone(),
        comments,
    }
}

/// Answers a request for one post, given what the store found: the post
/// whole, not found, or a server error in the store's words.
pub fn get_post_by_id(found: &Lookup<Post>) -> (reply: Reply<PostRequest>)
    ensures
        match found {
            Ok(Some(post)) => reply.status == Status::Success && (reply.body matches Body::Json {
                value,
            } && value@ == shown_whole(post@)),
            Ok(None) => reply.says(Status::NotFound, "Forum post not found."@),
            Err(failure) => reply.says(Status::InternalServerError, failure.message@),
        },
{
    match found {
        Ok(Some(post)) => Reply::json(show_post(post, true)),
        Ok(None) => Reply::text(Status::NotFound, "Forum post not found."),
        Err(failure) => Reply::message(Status::InternalServerError, failure.message.clone()),
    }
}

/// The requests of a list, each by its view, in order.
pub open spec fn post_request_views(list: Seq<PostRequest>) -> Seq<PostRequestView> {
    list.map_values(|request: PostRequest| request@)
}

/// What to ask the store for a page of the forum posts; page 0 is a bad
/// request.
pub fn posts_page(request: &PaginationArgs) -> (plan: Result<Page, Reply<Vec<PostRequest>>>)
    ensures
        match plan {
            Ok(made) => request.page >= 1 && made@ == page_of(
                Collection::ForumPosts,
                search_filter(request.search@, request.field@),
                request.page as int,
                request.limit as int,
            ),
            Err(reply) => request.page == 0 && reply.says(Status::BadRequest, "Invalid page."@),
        },
{
    match db::get_forum_posts(
        request.page,
        request.limit,
        request.search.as_str(),
        request.field.as_str(),
    ) {
        Some(plan) => Ok(plan),
        None => Err(Reply::text(Status::BadRequest, "Invalid page.")),
    }
}

/// Answers a request for a page of the forum posts, given what the store
/// fetched: the posts of the page, newest first, without their comments.
pub fn return_posts(fetched: Result<Vec<Post>, StoreFailure>) -> (reply: Reply<Vec<PostRequest>>)
    ensures
        match fetched {
            Ok(posts) => reply.status == Status::Success && (reply.body matches Body::Json {
                value,
            } && post_request_views(value@) == newest_first(posts@).map_values(
                |post: Post| shown_bare(post@),
            )),
            Err(failure) => reply.says(Status::InternalServerError, failure.message@),
        },
{
    match fetched {
        Ok(posts) => {
            let sorted = sort_newest_first(posts);
            let ghost wanted = sorted@.map_values(|post: Post| shown_bare(post@));
            let mut listing: Vec<PostRequest> = Vec::new();
            let mut i: usize = 0;
            while i < sorted.len()
                invariant
                    i <= sorted.len(),
                    wanted == sorted@.map_values(|post: Post| shown_bare(post@)),
                    post_request_views(listing@) =~= wanted.take(i as int),
                decreases sorted.len() - i,
            {
                let entry = show_post(&sorted[i], false);
                let ghost before = listing@;
                assert(entry@ == wanted[i as int]);
                listing.push(entry);
                assert(post_request_views(listing@) =~= post_request_views(before).push(entry@));
                assert(wanted.take(i + 1) =~= wanted.take(i as int).push(wanted[i as int]));
                i += 1;
            }
            assert(wanted.take(wanted.len() as int) =~= wanted);
            Reply::json(listing)
        },
        Err(failure) => Reply::message(Status::InternalServerError, failure.message),
    }
}

/// The post that a member's request becomes: every field as it was sent,
/// under a fresh identity, without comments.
pub open spec fn post_made(request: PostRequestRequestView, post: PostView) -> bool {
    &&& post.id.is_valid()
    &&& post.author == request.author
    &&& post.email == request.email
    &&& rfc3339_millis(request.date_created) == Some(post.date_created)
    &&& post.title == request.title
    &&& post.body == request.body
    &&& post.comments.len() == 0
}

/// Turns a request to post into the post to store, or into the answer that
/// refuses it: a request that breaks a rule is a bad request with every
/// broken rule's sentence, a creation date that is no date a bad request
/// with the parser's words.
pub fn create_post(request: PostRequestRequest, mailbox: &str) -> (prepared: Result<
    Post,
    Reply<Inserted>,
>)
    ensures
        !request@.is_valid(mailbox@) ==> (prepared matches Err(reply) && reply.says(
            Status::BadRequest,
            joined_text(request@.violations(mailbox@)),
        )),
        request@.is_valid(mailbox@) ==> match rfc3339_millis(request@.date_created) {
            Some(_) => prepared matches Ok(post) && post_made(request@, post@),
            None => prepared matches Err(reply) && reply.status == Status::BadRequest,
        },
{
    match request.validate(mailbox) {
        Ok(()) => {},
        Err(found) => {
            return Err(Reply::message(Status::BadRequest, joined_messages(&found)));
        },
    }
    let date_created = match parse_date(request.date_created.as_str()) {
        Ok(millis) => millis,
        Err(error) => {
            return Err(Reply::message(Status::BadRequest, error.message));
        },
    };
    let id = EntityId::fresh();
    let whole = PostRequest {
        id: id.to_hex(),
        author: request.author,
        email: request.email,
        date_created: request.date_created,
        title: request.title,
        body: request.body,
        comments: Vec::new(),
    };
    Ok(Post::from_parts(whole, id, date_created))
}

/// Answers a request to post once the store was asked to write: the
/// written identity on success, a server error otherwise.
pub fn post_created(written: Result<EntityId, StoreFailure>) -> (reply: Reply<Inserted>)
    ensures
        match written {
            Ok(id) => reply.carries(Inserted { inserted_id: id }),
            Err(failure) => reply.says(Status::InternalServerError, failure.message@),
        },
{
    match written {
        Ok(id) => Reply::json(Inserted { inserted_id: id }),
        Err(failure) => Reply::message(Status::InternalServerError, failure.message),
    }
}

/// The comment that a member's request becomes: every field as it was
/// sent, under a fresh identity.
pub open spec fn comment_made(request: CommentRequestRequestView, comment: CommentView) -> bool {
    &&& comment.id.is_valid()
    &&& comment.author == request.author
    &&& comment.email == request.email
    &&& rfc3339_millis(request.date_created) == Some(comment.date_created)
    &&& comment.body == request.body
}

/// Adds a member's comment to the post that the store found, and hands
/// back the post as it must be written, or the answer that refuses: a
/// request that breaks a rule is a bad request with every broken rule's
/// sentence, a post that is not there is not found, a failing store a
/// server error, and a creation date that is no date a bad request. The
/// comment goes to the end of the list and nothing else of the post
/// changes.
pub fn post_comment(request: CommentRequestRequest, mailbox: &str, found: Lookup<Post>) -> (added:
    Result<Post, Reply<Post>>)
    ensures
        !request@.is_valid(mailbox@) ==> (added matches Err(reply) && reply.says(
            Status::BadRequest,
            joined_text(request@.violations(mailbox@)),
        )),
        request@.is_valid(mailbox@) ==> match found {
            Ok(Some(post)) => match rfc3339_millis(request@.date_created) {
                Some(_) => added matches Ok(grown) && grown@.comments.len() > 0 && grown@
                    == appended(post@, grown@.comments.last()) && comment_made(
                    request@,
                    grown@.comments.last(),
                ),
                None => added matches Err(reply) && reply.status == Status::BadRequest,
            },
            Ok(None) => added matches Err(reply) && reply.says(
                Status::NotFound,
                "Forum post not found."@,
            ),
            Err(failure) => added matches Err(reply) && reply.says(
                Status::InternalServerError,
                failure.message@,
            ),
        },
{
    match request.validate(mailbox) {
        Ok(()) => {},
        Err(broken) => {
            return Err(Reply::message(Status::BadRequest, joined_messages(&broken)));
        },
    }
    let mut post = match found {
        Ok(Some(post)) => post,
        Ok(None) => {
            return Err(Reply::text(Status::NotFound, "Forum post not found."));
        },
        Err(failure) => {
            return Err(Reply::message(Status::InternalServerError, failure.message));
        },
    };
    let date_created = match parse_date(request.date_created.as_str()) {
        Ok(millis) => millis,
        Err(error) => {
            return Err(Reply::message(Status::BadRequest, error.message));
        },
    };
    let id = EntityId::fresh();
    let whole = CommentRequest {
        id: id.to_hex(),
        author: request.author,
        email: request.email,
        date_created: request.date_created,
        body: request.body,
    };
    let comment = Comment::from_parts(whole, id, date_created);
    append_comment(&mut post, comment);
    Ok(post)
}

/// Answers a request to comment once the store was asked to write the
/// post's list: the post as it now is, or a server error.
pub fn comment_posted(post: Post, written: Result<(), StoreFailure>) -> (reply: Reply<Post>)
    ensures
        match written {
            Ok(_) => reply.carries(post),
            Err(_) => reply.says(Status::InternalServerError, "Error updating forum post."@),
        },
{
    match written {
        Ok(_) => Reply::json(post),
        Err(_) => Reply::text(Status::InternalServerError, "Error updating forum post."),
    }
}

/// Answers a request for a page of a post's comments, given what the
/// store found: the page is cut from the newest comment backwards, and of
/// the page those are shown that the search finds. Page 0 is a bad
/// request, a post that is not there is not found.
pub fn get_comments_by_post_id(found: &Lookup<Post>, request: &PaginationArgs) -> (reply: Reply<
    Vec<CommentRequest>,
>)
    ensures
        match found {
            Ok(Some(post)) => if request.page >= 1 {
                reply.status == Status::Success && (reply.body matches Body::Json { value }
                    && request_views(value@) == listed(
                    post@.comments,
                    records_before(request.page as int, request.limit as int),
                    request.limit as int,
                    request.search@,
                    request.field@,
                ))
            } else {
                reply.says(Status::BadRequest, "Invalid page."@)
            },
            Ok(None) => reply.says(Status::NotFound, "Forum post not found."@),
            Err(failure) => reply.says(Status::InternalServerError, failure.message@),
        },
{
    match found {
        Ok(Some(post)) => {
            if request.page == 0 {
                return Reply::text(Status::BadRequest, "Invalid page.");
            }
            Reply::json(
                list_comments(
                    post,
                    request.page,
                    request.limit,
                    request.search.as_str(),
                    request.field.as_str(),
                ),
            )
        },
        Ok(None) => Reply::text(Status::NotFound, "Forum post not found."),
        Err(failure) => Reply::message(Status::InternalServerError, failure.message.clone()),
    }
}

/// Decides on a member's request to delete a post, given what the check
/// of the member's token came to and what the store found: the post to
/// delete, or the answer that refuses. Only the author may delete: for
/// anyone else the answer is unauthorized and nothing is deleted.
pub fn delete_post_as_user(pass: &Result<UserClaims, Denial>, id: &str, found: &Lookup<Post>) -> (
    decided: Result<Selection, Reply<()>>)
    ensures
        match pass {
            Err(denial) => decided matches Err(reply) && reply.says(
                denial.status(),
                denial.words(),
            ),
            Ok(claims) => match found {
                Ok(Some(post)) => if post@.author != claims@.username {
                    decided matches Err(reply) && reply.says(
                        Status::Unauthorized,
                        "You are not authorized to delete this post."@,
                    )
                } else {
                    match by_id(Collection::ForumPosts, id@) {
                        Some(selection) => decided matches Ok(made) && made@ == selection,
                        None => decided matches Err(reply) && reply.says(
                            Status::InternalServerError,
                            "Error parsing ID."@,
                        ),
                    }
                },
                Ok(None) => decided matches Err(reply) && reply.says(
                    Status::NotFound,
                    "Forum post not found."@,
                ),
                Err(failure) => decided matches Err(reply) && reply.says(
                    Status::InternalServerError,
                    failure.message@,
                ),
            },
        },
{
    let claims = match pass {
        Ok(claims) => claims,
        Err(denial) => {
            return Err(denial.reply());
        },
    };
    match found {
        Ok(Some(post)) => {
            if !same_text(post.author.as_str(), claims.username.as_str()) {
                return Err(
                    Reply::text(
                        Status::Unauthorized,
                        "You are not authorized to delete this post.",
                    ),
                );
            }
            match db::delete_forum_post(id) {
                Ok(selection) => Ok(selection),
                Err(_) => Err(Reply::text(Status::InternalServerError, "Error parsing ID.")),
            }
        },
        Ok(None) => Err(Reply::text(Status::NotFound, "Forum post not found.")),
        Err(failure) => Err(Reply::message(Status::InternalServerError, failure.message.clone())),
    }
}

/// Decides on an administrator's request to delete a post.
pub fn delete_post_as_admin(pass: Result<AdminClaims, Denial>, id: &str, found: &Lookup<Post>) -> (decided:
    Result<Selection, Reply<()>>)
    ensures
        match pass {
            Err(denial) => decided matches Err(reply) && reply.says(
                denial.status(),
                denial.words(),
            ),
            Ok(_) => match by_id(Collection::ForumPosts, id@) {
                None => decided matches Err(reply) && reply.says(
                    Status::InternalServerError,
                    "Error parsing ID."@,
                ),
                Some(selection) => match found {
                    Ok(Some(_)) => decided matches Ok(made) && made@ == selection,
                    Ok(None) => decided matches Err(reply) && reply.says(
                        Status::NotFound,
                        "Forum post not found."@,
                    ),
                    Err(failure) => decided matches Err(reply) && reply.says(
                        Status::InternalServerError,
                        failure.message@,
                    ),
                },
            },
        },
{
    delete_found(pass, Collection::ForumPosts, id, found, "Forum post not found.")
}

/// Answers a request to delete a post once the store was asked to.
pub fn post_deleted(outcome: &Result<(), StoreFailure>) -> (reply: Reply<()>)
    ensures
        match outcome {
            Ok(_) => reply.says(Status::Success, "Post deleted successfully."@),
            Err(_) => reply.says(Status::InternalServerError, "Failed to delete post."@),
        },
{
    deleted(outcome, "Post deleted successfully.", "Failed to delete post.")
}

/// Who asks for a comment to be deleted.
#[derive(Debug)]
pub enum Deleter {
    /// A member, by the user name that the member's token claims.
    Member { username: String },
    /// The administrator.
    Administrator,
}

/// Whether the one who asks may delete a comment: its author may, and the
/// administrator.
pub open spec fn may_delete(deleter: Deleter, comment: CommentView) -> bool {
    match deleter {
        Deleter::Member { username } => comment.author == username@,
        Deleter::Administrator => true,
    }
}

/// The first comment of a list with identity `id`.
pub open spec fn first_with(comments: Seq<CommentView>, id: EntityId) -> CommentView {
    comments[choose|i: int|
        0 <= i < comments.len() && comments[i].id == id && forall|j: int|
            0 <= j < i ==> comments[j].id != id]
}

/// Cuts a comment out of the post that the store found, for the one who
/// asks, and hands back the post as it must be written, or the answer that
/// refuses: an identity that is none is a server error; a post or a
/// comment that is not there is not found, in the words given; a member
/// who is not the comment's author is unauthorized, and then nothing
/// changes.
pub fn cut_comment(found: Lookup<Post>, comment_id: &str, deleter: &Deleter, missing: &str) -> (
    decided: Result<Post, Reply<()>>)
    ensures
        match found {
            Ok(Some(post)) => match object_id_value(comment_id@) {
                None => decided matches Err(reply) && reply.says(
                    Status::InternalServerError,
                    "Error parsing ID."@,
                ),
                Some(value) => if !holds_comment(post@.comments, EntityId { value }) {
                    decided matches Err(reply) && reply.says(Status::NotFound, missing@)
                } else if !may_delete(*deleter, first_with(post@.comments, EntityId { value })) {
                    decided matches Err(reply) && reply.says(
                        Status::Unauthorized,
                        "You are not authorized to delete this comment."@,
                    )
                } else {
                    decided matches Ok(cut) && cut@ == (PostView {
                        comments: without(post@.comments, EntityId { value }),
                        ..post@
                    })
                },
            },
            Ok(None) => decided matches Err(reply) && reply.says(Status::NotFound, missing@),
            Err(failure) => decided matches Err(reply) && reply.says(
                Status::InternalServerError,
                failure.message@,
            ),
        },
{
    let mut post = match found {
        Ok(Some(post)) => post,
        Ok(None) => {
            return Err(Reply::text(Status::NotFound, missing));
        },
        Err(failure) => {
            return Err(Reply::message(Status::InternalServerError, failure.message));
        },
    };
    let id = match EntityId::parse_str(comment_id) {
        Some(id) => id,
        None => {
            return Err(Reply::text(Status::InternalServerError, "Error parsing ID."));
        },
    };
    let at = match find_comment(&post, id) {
        Some(at) => at,
        None => {
            return Err(Reply::text(Status::NotFound, missing));
        },
    };
    proof {
        let first = choose|i: int|
            0 <= i < post@.comments.len() && post@.comments[i].id == id && forall|j: int|
                0 <= j < i ==> post@.comments[j].id != id;
        assert(first == at);
    }
    let allowed = match deleter {
        Deleter::Member { username } => same_text(
            post.comments[at].author.as_str(),
            username.as_str(),
        ),
        Deleter::Administrator => true,
    };
    if !allowed {
        return Err(
            Reply::text(Status::Unauthorized, "You are not authorized to delete this comment."),
        );
    }
    remove_comment(&mut post, id);
    Ok(post)
}

/// Decides on a member's request to delete a comment, given what the
/// check of the member's token came to and what the store found under the
/// post's identity. Only the comment's author may delete it.
pub fn delete_comment(pass: Result<UserClaims, Denial>, found: Lookup<Post>, comment_id: &str) -> (
    decided: Result<Post, Reply<()>>)
    ensures
        pass matches Err(denial) ==> (decided matches Err(reply) && reply.says(
            denial.status(),
            denial.words(),
        )),
        pass matches Ok(claims) ==> match found {
            Ok(Some(post)) => match object_id_value(comment_id@) {
                None => decided matches Err(reply) && reply.says(
                    Status::InternalServerError,
                    "Error parsing ID."@,
                ),
                Some(value) => if !holds_comment(post@.comments, EntityId { value }) {
                    decided matches Err(reply) && reply.says(
                        Status::NotFound,
                        "Comment not found."@,
                    )
                } else if first_with(post@.comments, EntityId { value }).author
                    != claims@.username {
                    decided matches Err(reply) && reply.says(
                        Status::Unauthorized,
                        "You are not authorized to delete this comment."@,
                    )
                } else {
                    decided matches Ok(cut) && cut@ == (PostView {
                        comments: without(post@.comments, EntityId { value }),
                        ..post@
                    })
                },
            },
            Ok(None) => decided matches Err(reply) && reply.says(
                Status::NotFound,
                "Comment not found."@,
            ),
            Err(failure) => decided matches Err(reply) && reply.says(
                Status::InternalServerError,
                failure.message@,
            ),
        },
{
    match pass {
        Ok(claims) => {
            let deleter = Deleter::Member { username: claims.username };
            cut_comment(found, comment_id, &deleter, "Comment not found.")
        },
        Err(denial) => Err(denial.reply()),
    }
}

/// Decides on an administrator's request to delete a comment, given what
/// the check of the administrator's token came to and what the store found
/// under the post's identity.
pub fn delete_comment_as_admin(pass: Result<AdminClaims, Denial>, found: Lookup<Post>, comment_id: &str) -> (
    decided: Result<Post, Reply<()>>)
    ensures
        pass matches Err(denial) ==> (decided matches Err(reply) && reply.says(
            denial.status(),
            denial.words(),
        )),
        pass is Ok ==> match found {
            Ok(Some(post)) => match object_id_value(comment_id@) {
                None => decided matches Err(reply) && reply.says(
                    Status::InternalServerError,
                    "Error parsing ID."@,
                ),
                Some(value) => if !holds_comment(post@.comments, EntityId { value }) {
                    decided matches Err(reply) && reply.says(
                        Status::NotFound,
                        "Comment post not found."@,
                    )
                } else {
                    decided matches Ok(cut) && cut@ == (PostView {
                        comments: without(post@.comments, EntityId { value }),
                        ..post@
                    })
                },
            },
            Ok(None) => decided matches Err(reply) && reply.says(
                Status::NotFound,
                "Comment post not found."@,
            ),
            Err(failure) => decided matches Err(reply) && reply.says(
                Status::InternalServerError,
                failure.message@,
            ),
        },
{
    match pass {
        Ok(_) => cut_comment(found, comment_id, &Deleter::Administrator, "Comment post not found."),
        Err(denial) => Err(denial.reply()),
    }
}

/// Answers a request to delete a comment once the store was asked to
/// write the post's list.
pub fn comment_deleted(outcome: &Result<(), StoreFailure>) -> (reply: Reply<()>)
    ensures
        match outcome {
            Ok(_) => reply.says(Status::Success, "Comment deleted successfully."@),
            Err(_) => reply.says(Status::InternalServerError, "Failed to delete comment."@),
        },
{
    deleted(outcome, "Comment deleted successfully.", "Failed to delete comment.")
}

} // verus!
