//! The handlers of announcements: counting, listing, posting, deleting.

use crate::bindings::dates::{bson_datetime_text, datetime_text, rfc3339_millis};
use crate::models::announcement::{
    Announcement, AnnouncementRequest, AnnouncementRequestRequest,
    AnnouncementRequestRequestView, AnnouncementRequestView, AnnouncementView,
};
use crate::models::conversion::parse_date;
use crate::models::id::{object_id_text, EntityId};
use crate::routes::guard::Denial;
use crate::routes::reply::{Body, Reply, Status};
use crate::routes::shared::{counted, delete_found, deleted, Inserted};
use crate::rules::{joined_messages, joined_text, system_address, system_email, team_name};
use crate::services::db::{
    by_id, page_of, search_filter, Collection, Lookup, Page, Selection, StoreFailure,
};
use crate::services::db;
use crate::services::listing::{newest_first, sort_newest_first};
use crate::utilities::claims::AdminClaims;
use crate::utilities::pagination_args::PaginationArgs;
use vstd::prelude::*;

verus! {

/// Answers how many announcements there are.
pub fn return_amount_of_announcements(count: Result<u64, StoreFailure>) -> (reply: Reply<u64>)
    ensures
        match count {
            Ok(amount) => reply.carries(amount),
            Err(_) => reply.says(Status::InternalServerError, "Error counting records."@),
        },
{
    counted(count)
}

/// An announcement as it is shown: identity and date written out.
pub open spec fn shown(announcement: AnnouncementView) -> AnnouncementRequestView {
    AnnouncementRequestView {
        id: object_id_text(announcement.id.value),
        author: announcement.author,
        email: announcement.email,
        date_created: bson_datetime_text(announcement.date_created),
        title: announcement.title,
        body: announcement.body,
    }
}

/// Writes an announcement out as it is shown.
pub fn show_announcement(announcement: &Announcement) -> (request: AnnouncementRequest)
    ensures
        request@ == shown(announcement@),
{
    AnnouncementRequest {
        id: announcement._id.to_hex(),
        author: announcement.author.clone(),
        email: announcement.email.clone(),
        date_created: datetime_text(announcement.date_created),
        title: announcement.title.clone(),
        body: announcement.body.clone(),
    }
}

/// The requests of a list, each by its view, in order.
pub open spec fn request_views(list: Seq<AnnouncementRequest>) -> Seq<AnnouncementRequestView> {
    list.map_values(|request: AnnouncementRequest| request@)
}

/// What to ask the store for a page of the announcements; page 0 is a bad
/// request.
pub fn announcements_page(request: &PaginationArgs) -> (plan: Result<
    Page,
    Reply<Vec<AnnouncementRequest>>,
>)
    ensures
        match plan {
            Ok(made) => request.page >= 1 && made@ == page_of(
                Collection::Announcements,
                search_filter(request.search@, request.field@),
                request.page as int,
                request.limit as int,
            ),
            Err(reply) => request.page == 0 && reply.says(Status::BadRequest, "Invalid page."@),
        },
{
    match db::get_announcements(
        request.page,
        request.limit,
        request.search.as_str(),
        request.field.as_str(),
    ) {
        Some(plan) => Ok(plan),
        None => Err(Reply::text(Status::BadRequest, "Invalid page.")),
    }
}

/// Answers a request for a page of the announcements, given what the store
/// fetched: the announcements of the page, newest first.
pub fn return_announcements(fetched: Result<Vec<Announcement>, StoreFailure>) -> (reply: Reply<
    Vec<AnnouncementRequest>,
>)
    ensures
        match fetched {
            Ok(announcements) => reply.status == Status::Success && (reply.body matches Body::Json {
                value,
            } && request_views(value@) == newest_first(announcements@).map_values(
                |announcement: Announcement| shown(announcement@),
            )),
            Err(_) => reply.says(Status::InternalServerError, "Error getting announcements."@),
        },
{
    match fetched {
        Ok(announcements) => {
            let sorted = sort_newest_first(announcements);
            let ghost wanted = sorted@.map_values(
                |announcement: Announcement| shown(announcement@),
            );
            let mut listing: Vec<AnnouncementRequest> = Vec::new();
            let mut i: usize = 0;
            while i < sorted.len()
                invariant
                    i <= sorted.len(),
                    wanted == sorted@.map_values(
                        |announcement: Announcement| shown(announcement@),
                    ),
                    request_views(listing@) =~= wanted.take(i as int),
                decreases sorted.len() - i,
            {
                let entry = show_announcement(&sorted[i]);
                let ghost before = listing@;
                assert(entry@ == wanted[i as int]);
                listing.push(entry);
                assert(request_views(listing@) =~= request_views(before).push(entry@));
                assert(wanted.take(i + 1) =~= wanted.take(i as int).push(wanted[i as int]));
                i += 1;
            }
            assert(wanted.take(wanted.len() as int) =~= wanted);
            Reply::json(listing)
        },
        Err(_) => Reply::text(Status::InternalServerError, "Error getting announcements."),
    }
}

/// The announcement that the team posts from a request: signed by the team
/// from the club's own mailbox, whoever the request names.
pub open spec fn posted(
    request: AnnouncementRequestRequestView,
    mailbox: Seq<char>,
    announcement: AnnouncementView,
) -> bool {
    &&& announcement.id.is_valid()
    &&& announcement.author == team_name()
    &&& announcement.email == system_address(mailbox)
    &&& rfc3339_millis(request.date_created) == Some(announcement.date_created)
    &&& announcement.title == request.title
    &&& announcement.body == request.body
}

/// Turns a request to post an announcement into the announcement to
/// store, or into the answer that refuses it, given what the check of the
/// administrator's token came to. A creation date that is no date is a bad
/// request with the parser's words.
pub fn create_announcement(
    pass: Result<AdminClaims, Denial>,
    request: AnnouncementRequestRequest,
    mailbox: &str,
) -> (prepared: Result<Announcement, Reply<Inserted>>)
    ensures
        match pass {
            Err(denial) => prepared matches Err(reply) && reply.says(
                denial.status(),
                denial.words(),
            ),
            Ok(_) => match rfc3339_millis(request@.date_created) {
                Some(_) => prepared matches Ok(announcement) && posted(
                    request@,
                    mailbox@,
                    announcement@,
                ),
                None => prepared matches Err(reply) && reply.status == Status::BadRequest,
            },
        },
{
    match pass {
        Err(denial) => {
            return Err(denial.reply());
        },
        Ok(_) => {},
    }
    let date_created = match parse_date(request.date_created.as_str()) {
        Ok(millis) => millis,
        Err(error) => {
            return Err(Reply::message(Status::BadRequest, error.message));
        },
    };
    let id = EntityId::fresh();
    let signed = AnnouncementRequest {
        id: id.to_hex(),
        author: "The Team".to_string(),
        email: system_email(mailbox),
        date_created: request.date_created,
        title: request.title,
        body: request.body,
    };
    Ok(Announcement::from_parts(signed, id, date_created))
}

/// Turns an announcement that is sent whole into the announcement to
/// store, or into the answer that refuses it: one that is not signed by
/// the team from the club's own mailbox is a bad request with every broken
/// rule's sentence, a creation date that is no date a bad request with the
/// parser's words. The identity it was sent with is left aside for a fresh
/// one.
pub fn create_announcement_post(request: AnnouncementRequest, mailbox: &str) -> (prepared: Result<
    Announcement,
    Reply<Inserted>,
>)
    ensures
        !request@.is_valid(mailbox@) ==> (prepared matches Err(reply) && reply.says(
            Status::BadRequest,
            joined_text(request@.violations(mailbox@)),
        )),
        request@.is_valid(mailbox@) ==> match rfc3339_millis(request@.date_created) {
            Some(millis) => prepared matches Ok(announcement) && announcement._id.is_valid()
                && announcement@ == Announcement::assembled(request@, announcement._id, millis),
            None => prepared matches Err(reply) && reply.status == Status::BadRequest,
        },
{
    match request.validate(mailbox) {
        Ok(()) => {},
        Err(found) => {
            return Err(Reply::message(Status::BadRequest, joined_messages(&found)));
        },
    }
    match parse_date(request.date_created.as_str()) {
        Ok(millis) => Ok(Announcement::from_parts(request, EntityId::fresh(), millis)),
        Err(error) => Err(Reply::message(Status::BadRequest, error.message)),
    }
}

/// Answers a request to post once the store was asked to write: the
/// written identity on success, a server error otherwise.
pub fn announcement_created(written: Result<EntityId, StoreFailure>) -> (reply: Reply<Inserted>)
    ensures
        match written {
            Ok(id) => reply.carries(Inserted { inserted_id: id }),
            Err(failure) => reply.says(Status::InternalServerError, failure.message@),
        },
{
    match written {
        Ok(id) => Reply::json(Inserted { inserted_id: id }),
        Err(failure) => Reply::message(Status::InternalServerError, failure.message),
    }
}

/// Decides on an administrator's request to delete an announcement.
pub fn delete_announcement(pass: Result<AdminClaims, Denial>, id: &str, found: &Lookup<Announcement>) -> (
    decided: Result<Selection, Reply<()>>)
    ensures
        match pass {
            Err(denial) => decided matches Err(reply) && reply.says(
                denial.status(),
                denial.words(),
            ),
            Ok(_) => match by_id(Collection::Announcements, id@) {
                None => decided matches Err(reply) && reply.says(
                    Status::InternalServerError,
                    "Error parsing ID."@,
                ),
                Some(selection) => match found {
                    Ok(Some(_)) => decided matches Ok(made) && made@ == selection,
                    Ok(None) => decided matches Err(reply) && reply.says(
                        Status::NotFound,
                        "Announcement not found."@,
                    ),
                    Err(failure) => decided matches Err(reply) && reply.says(
                        Status::InternalServerError,
                        failure.message@,
                    ),
                },
            },
        },
{
    delete_found(pass, Collection::Announcements, id, found, "Announcement not found.")
}

/// Answers an administrator's request to delete an announcement once the
/// store was asked to.
pub fn announcement_deleted(outcome: &Result<(), StoreFailure>) -> (reply: Reply<()>)
    ensures
        match outcome {
            Ok(_) => reply.says(Status::Success, "Announcement deleted successfully."@),
            Err(_) => reply.says(Status::InternalServerError, "Failed to delete post."@),
        },
{
    deleted(outcome, "Announcement deleted successfully.", "Failed to delete post.")
}

} // verus!
