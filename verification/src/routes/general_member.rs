//! The handlers of the general applications: probing, listing, applying.

use crate::bindings::dates::{bson_datetime_text, datetime_text, rfc3339_millis};
use crate::models::admin::Admin;
use crate::models::conversion::parse_date;
use crate::models::general_member::{
    GeneralMember, GeneralMemberRequest, GeneralMemberRequestView, GeneralMemberView,
};
use crate::models::id::EntityId;
use crate::routes::guard::listing_gate;
use crate::routes::reply::{Body, Reply, Status};
use crate::routes::shared::Inserted;
use crate::rules::{joined_messages, joined_text};
use crate::services::db::{
    member_filter, is_present, page_of, Collection, Lookup, Page, StoreError, StoreFailure,
};
use crate::services::db;
use crate::services::listing::{newest_first, sort_newest_first};
use crate::utilities::pagination_args::AdminPaginationArgs;
use vstd::prelude::*;

verus! {

/// Answers whether a full name or an address has applied already, given
/// what the store found under it as a full name and as an address: the
/// text itself where it has, not found where it has not.
pub fn get_general_member_by_full_name_or_email(
    full_name_or_email: &str,
    by_full_name: &Lookup<GeneralMember>,
    by_email: &Lookup<GeneralMember>,
) -> (reply: Reply<()>)
    ensures
        if (by_full_name matches Ok(Some(_))) || (by_email matches Ok(Some(_))) {
            reply.says_json(Status::Success, full_name_or_email@)
        } else {
            reply.says(Status::NotFound, "Member not found."@)
        },
{
    if is_present(by_full_name) || is_present(by_email) {
        Reply::json_text(Status::Success, full_name_or_email)
    } else {
        Reply::text(Status::NotFound, "Member not found.")
    }
}

/// An application as a listing shows it: without its identity, the date
/// written out.
pub open spec fn shown(member: GeneralMemberView) -> GeneralMemberRequestView {
    GeneralMemberRequestView {
        full_name: member.full_name,
        email: member.email,
        extra: member.extra,
        grade: member.grade,
        skills: member.skills,
        date_created: bson_datetime_text(member.date_created),
    }
}

/// Writes an application out as a listing shows it.
pub fn show_member(member: &GeneralMember) -> (request: GeneralMemberRequest)
    ensures
        request@ == shown(member@),
{
    GeneralMemberRequest {
        full_name: member.full_name.clone(),
        email: member.email.clone(),
        extra: member.extra.clone(),
        grade: member.grade,
        skills: member.skills,
        date_created: datetime_text(member.date_created),
    }
}

/// What to ask the store for a page of the applications, given whether
/// the request passed the check of the administrator's secret: a request
/// that did not pass is unauthorized, page 0 is a bad request, and any
/// other gets its page.
pub fn general_members_page(passed: bool, request: &AdminPaginationArgs) -> (plan: Result<
    Page,
    Reply<Vec<GeneralMemberRequest>>,
>)
    ensures
        match plan {
            Ok(made) => passed && request.page >= 1 && made@ == page_of(
                Collection::GeneralMembers,
                member_filter(request.search@, request.field@),
                request.page as int,
                request.limit as int,
            ),
            Err(reply) => if !passed {
                reply.says(Status::Unauthorized, "Unauthorized."@)
            } else {
                request.page == 0 && reply.says(Status::BadRequest, "Invalid page."@)
            },
        },
{
    if !passed {
        return Err(Reply::text(Status::Unauthorized, "Unauthorized."));
    }
    match db::get_all_general_members(
        request.page,
        request.limit,
        request.search.as_str(),
        request.field.as_str(),
    ) {
        Some(plan) => Ok(plan),
        None => Err(Reply::text(Status::BadRequest, "Invalid page.")),
    }
}

/// Decides whether a request for a page of the applications may pass, and
/// what to ask the store: the secret that the request carries is checked,
/// and `general_members_page` does the rest. A request that does not carry the
/// administrator's secret is unauthorized, page 0 is a bad request.
pub fn get_all_general_members(request: &AdminPaginationArgs, admin: &Admin) -> (plan: Result<
    Page,
    Reply<Vec<GeneralMemberRequest>>,
>)
    ensures
        request.token@ != admin@.token ==> (plan matches Err(reply) && reply.says(
            Status::Unauthorized,
            "Unauthorized."@,
        )),
        plan matches Ok(made) ==> request.token@ == admin@.token && request.page >= 1 && made@
            == page_of(
            Collection::GeneralMembers,
            member_filter(request.search@, request.field@),
            request.page as int,
            request.limit as int,
        ),
        plan matches Err(reply) ==> reply.says(Status::Unauthorized, "Unauthorized."@) || (
        request.page == 0 && reply.says(Status::BadRequest, "Invalid page."@)),
{
    general_members_page(listing_gate(request.token.as_str(), admin), request)
}

/// The requests of a list, each by its view, in order.
pub open spec fn request_views(list: Seq<GeneralMemberRequest>) -> Seq<GeneralMemberRequestView> {
    list.map_values(|request: GeneralMemberRequest| request@)
}

/// Answers a request for a page of the applications, given what the store
/// fetched: the applications of the page, newest first.
pub fn general_members_listed(fetched: Result<Vec<GeneralMember>, StoreFailure>) -> (reply: Reply<
    Vec<GeneralMemberRequest>,
>)
    ensures
        match fetched {
            Ok(members) => reply.status == Status::Success && (reply.body matches Body::Json {
                value,
            } && request_views(value@) == newest_first(members@).map_values(
                |member: GeneralMember| shown(member@),
            )),
            Err(_) => reply.says(Status::InternalServerError, "Error getting general members."@),
        },
{
    match fetched {
        Ok(members) => {
            let ghost wanted = newest_first(members@).map_values(|member: GeneralMember| shown(member@));
            let sorted = sort_newest_first(members);
            let mut listing: Vec<GeneralMemberRequest> = Vec::new();
            let mut i: usize = 0;
            while i < sorted.len()
                invariant
                    i <= sorted.len(),
                    wanted == sorted@.map_values(|member: GeneralMember| shown(member@)),
                    request_views(listing@) =~= wanted.take(i as int),
                decreases sorted.len() - i,
            {
                let entry = show_member(&sorted[i]);
                let ghost before = listing@;
                assert(entry@ == wanted[i as int]);
                listing.push(entry);
                assert(request_views(listing@) =~= request_views(before).push(entry@));
                assert(wanted.take(i + 1) =~= wanted.take(i as int).push(wanted[i as int]));
                i += 1;
            }
            assert(wanted.take(wanted.len() as int) =~= wanted);
            Reply::json(listing)
        },
        Err(_) => Reply::text(Status::InternalServerError, "Error getting general members."),
    }
}

/// Turns an application into the record to store, or into the answer that
/// refuses it: an application that breaks a rule is a bad request with
/// every broken rule's sentence, a creation date that is no date a bad
/// request with the parser's words. The record gets a fresh identity.
pub fn create_general_member(request: GeneralMemberRequest) -> (prepared: Result<
    GeneralMember,
    Reply<Inserted>,
>)
    ensures
        !request@.is_valid() ==> (prepared matches Err(reply) && reply.says(
            Status::BadRequest,
            joined_text(request@.violations()),
        )),
        request@.is_valid() ==> match rfc3339_millis(request@.date_created) {
            Some(millis) => prepared matches Ok(member) && member._id.is_valid() && member@
                == GeneralMember::assembled(request@, member._id, millis),
            None => prepared matches Err(reply) && reply.status == Status::BadRequest,
        },
{
    match request.validate() {
        Ok(()) => {},
        Err(found) => {
            return Err(Reply::message(Status::BadRequest, joined_messages(&found)));
        },
    }
    match parse_date(request.date_created.as_str()) {
        Ok(millis) => Ok(GeneralMember::from_parts(request, EntityId::fresh(), millis)),
        Err(error) => Err(Reply::message(Status::BadRequest, error.message)),
    }
}

/// Answers an application once the store was asked to write it: the
/// written identity on success, a conflict where the same full name or
/// address had applied already, a server error otherwise.
pub fn general_member_created(written: Result<EntityId, StoreError>) -> (reply: Reply<Inserted>)
    ensures
        match written {
            Ok(id) => reply.carries(Inserted { inserted_id: id }),
            Err(StoreError::AlreadyExists { message }) => reply.says(Status::Conflict, message@),
            Err(_) => reply.says(Status::InternalServerError, "Error creating general member."@),
        },
{
    match written {
        Ok(id) => Reply::json(Inserted { inserted_id: id }),
        Err(StoreError::AlreadyExists { message }) => Reply::message(Status::Conflict, message),
        Err(_) => Reply::text(Status::InternalServerError, "Error creating general member."),
    }
}

} // verus!
