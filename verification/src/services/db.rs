//! The store's rules: which collection holds what, what a listing asks the
//! store for, when a record may be inserted, and how the store's answers
//! are read. The store itself is not here; these are the decisions made
//! around each call to it.

use crate::models::account::{Account, AccountView};
use crate::models::admin::{Admin, AdminView};
use crate::models::comment::Comment;
use crate::models::executive_member::{ExecutiveMember, ExecutiveMemberView};
use crate::models::general_member::{GeneralMember, GeneralMemberView};
use crate::models::id::{object_id_value, EntityId};
use crate::numbers::{decimal_i32, parse_i32};
use crate::services::credentials::{
    fresh_secrets, is_admin_password, rotate, rotated, FreshSecrets,
};
use crate::text::same_text;
use crate::utilities::pagination_args::{records_before, skip_of};
use vstd::prelude::*;

verus! {

/// The collections of the store.
#[derive(Clone, Copy, Debug, PartialEq, Eq, Structural)]
pub enum Collection {
    GeneralMembers,
    ExecutiveMembers,
    Announcements,
    ForumPosts,
    Accounts,
    Admin,
}

impl Collection {
    /// The name under which the store keeps the collection.
    pub open spec fn label(self) -> Seq<char> {
        match self {
            Collection::GeneralMembers => "GeneralMemberForms"@,
            Collection::ExecutiveMembers => "ExecutiveMemberForms"@,
            Collection::Announcements => "Announcements"@,
            Collection::ForumPosts => "ForumPosts"@,
            Collection::Accounts => "Accounts"@,
            Collection::Admin => "Admin"@,
        }
    }

    /// The name under which the store keeps the collection.
    pub fn name(self) -> (name: String)
        ensures
            name@ == self.label(),
    {
        match self {
            Collection::GeneralMembers => "GeneralMemberForms".to_string(),
            Collection::ExecutiveMembers => "ExecutiveMemberForms".to_string(),
            Collection::Announcements => "Announcements".to_string(),
            Collection::ForumPosts => "ForumPosts".to_string(),
            Collection::Accounts => "Accounts".to_string(),
            Collection::Admin => "Admin".to_string(),
        }
    }
}

/// The name of the database.
pub fn database_name() -> (name: String)
    ensures
        name@ == "cybertechdb"@,
{
    "cybertechdb".to_string()
}

/// Where the store is reached: the configured address, or the local one
/// where none is configured.
pub fn connection_uri(configured: Option<String>) -> (uri: String)
    ensures
        uri@ == match configured {
            Some(address) => address@,
            None => "mongodb://localhost:27017/?directConnection=true"@,
        },
{
    match configured {
        Some(address) => address,
        None => "mongodb://localhost:27017/?directConnection=true".to_string(),
    }
}

/// Why the store did not answer: the words of the failure.
#[derive(Debug)]
pub struct StoreFailure {
    pub message: String,
}

/// What the store answers when asked for one record.
pub type Lookup<T> = Result<Option<T>, StoreFailure>;

/// Why a record was not written or a call not made.
#[derive(Debug)]
pub enum StoreError {
    /// A record with one of the same unique fields is there already.
    AlreadyExists { message: String },
    /// The text is not the identity of any record.
    MalformedId,
    /// The administrator's record is missing.
    MissingAdmin,
    /// The store failed.
    Failed { failure: StoreFailure },
}

/// Which records of a collection a call is about.
#[derive(Debug)]
pub enum Filter {
    /// Every record.
    All,
    /// The records whose `field` holds `pattern`, whatever the case of the
    /// letters.
    Like { field: String, pattern: String },
    /// The records of one grade.
    Grade { grade: i32 },
    /// The records of one executive team.
    ExecType { exec_type: String },
    /// The accounts that are verified, or those that are not.
    Verified { verified: bool },
    /// The records whose `field` is exactly `value`.
    Equals { field: String, value: String },
    /// The records of which one of two fields is exactly the value given
    /// for it.
    EitherEquals { first_field: String, first_value: String, second_field: String, second_value:
        String },
    /// The record with one identity.
    Id { id: EntityId },
}

pub enum FilterView {
    All,
    Like { field: Seq<char>, pattern: Seq<char> },
    Grade { grade: i32 },
    ExecType { exec_type: Seq<char> },
    Verified { verified: bool },
    Equals { field: Seq<char>, value: Seq<char> },
    EitherEquals {
        first_field: Seq<char>,
        first_value: Seq<char>,
        second_field: Seq<char>,
        second_value: Seq<char>,
    },
    Id { id: EntityId },
}

impl View for Filter {
    type V = FilterView;

    open spec fn view(&self) -> FilterView {
        match self {
            Filter::All => FilterView::All,
            Filter::Like { field, pattern } => FilterView::Like {
                field: field@,
                pattern: pattern@,
            },
            Filter::Grade { grade } => FilterView::Grade { grade: *grade },
            Filter::ExecType { exec_type } => FilterView::ExecType { exec_type: exec_type@ },
            Filter::Verified { verified } => FilterView::Verified { verified: *verified },
            Filter::Equals { field, value } => FilterView::Equals { field: field@, value: value@ },
            Filter::EitherEquals { first_field, first_value, second_field, second_value } =>
                FilterView::EitherEquals {
                first_field: first_field@,
                first_value: first_value@,
                second_field: second_field@,
                second_value: second_value@,
            },
            Filter::Id { id } => FilterView::Id { id: *id },
        }
    }
}

/// One page of a listing: which records, how many to pass over, how many
/// to take.
#[derive(Debug)]
pub struct Page {
    pub collection: Collection,
    pub filter: Filter,
    pub skip: u64,
    pub limit: i64,
}

pub struct PageView {
    pub collection: Collection,
    pub filter: FilterView,
    pub skip: int,
    pub limit: int,
}

impl View for Page {
    type V = PageView;

    open spec fn view(&self) -> PageView {
        PageView {
            collection: self.collection,
            filter: self.filter@,
            skip: self.skip as int,
            limit: self.limit as int,
        }
    }
}

/// The records of one collection that a call is about.
#[derive(Debug)]
pub struct Selection {
    pub collection: Collection,
    pub filter: Filter,
}

pub struct SelectionView {
    pub collection: Collection,
    pub filter: FilterView,
}

impl View for Selection {
    type V = SelectionView;

    open spec fn view(&self) -> SelectionView {
        SelectionView { collection: self.collection, filter: self.filter@ }
    }
}

/// The filter of a generic search: every record where nothing is searched
/// for, else the records whose `field` holds `search`.
pub open spec fn search_filter(search: Seq<char>, field: Seq<char>) -> FilterView {
    if search.len() == 0 {
        FilterView::All
    } else {
        FilterView::Like { field, pattern: search }
    }
}

/// The grade that a search for a grade means: the number written, or 9
/// where none is.
pub open spec fn searched_grade(search: Seq<char>) -> i32 {
    match decimal_i32(search) {
        Some(grade) => grade,
        None => 9,
    }
}

/// The filter of a search among applications: as the generic one, but a
/// search in the field `grade` is for a number.
pub open spec fn member_filter(search: Seq<char>, field: Seq<char>) -> FilterView {
    if search.len() == 0 {
        FilterView::All
    } else if field == "grade"@ {
        FilterView::Grade { grade: searched_grade(search) }
    } else {
        FilterView::Like { field, pattern: search }
    }
}

/// Whether a field names one of the executive teams.
pub open spec fn names_team(field: Seq<char>) -> bool {
    field == "marketing"@ || field == "events"@ || field == "development"@
}

/// The filter of a search among executive applications: a field that names
/// a team asks for that team whatever is searched for; else as among all
/// applications.
pub open spec fn executive_filter(search: Seq<char>, field: Seq<char>) -> FilterView {
    if names_team(field) {
        FilterView::ExecType { exec_type: field }
    } else {
        member_filter(search, field)
    }
}

/// The filter of a search among accounts: the fields `verified` and
/// `unverified` ask for the accounts in that state whatever is searched
/// for; else the generic search.
pub open spec fn account_filter(search: Seq<char>, field: Seq<char>) -> FilterView {
    if field == "verified"@ || field == "unverified"@ {
        FilterView::Verified { verified: field == "verified"@ }
    } else {
        search_filter(search, field)
    }
}

fn generic_filter(search: &str, field: &str) -> (filter: Filter)
    ensures
        filter@ == search_filter(search@, field@),
{
    if same_text(search, "") {
        proof {
            reveal_strlit("");
        }
        Filter::All
    } else {
        proof {
            reveal_strlit("");
            assert(search@.len() == 0 ==> search@ =~= ""@);
        }
        Filter::Like { field: field.to_string(), pattern: search.to_string() }
    }
}

fn application_filter(search: &str, field: &str) -> (filter: Filter)
    ensures
        filter@ == member_filter(search@, field@),
{
    proof {
        reveal_strlit("");
        assert(search@.len() == 0 ==> search@ =~= ""@);
    }
    if same_text(search, "") {
        Filter::All
    } else if same_text(field, "grade") {
        let grade = match parse_i32(search) {
            Some(grade) => grade,
            None => 9,
        };
        Filter::Grade { grade }
    } else {
        Filter::Like { field: field.to_string(), pattern: search.to_string() }
    }
}

/// The page of a listing, where `page` counts from 1.
pub open spec fn page_of(
    collection: Collection,
    filter: FilterView,
    page: int,
    limit: int,
) -> PageView {
    PageView { collection, filter, skip: records_before(page, limit), limit }
}

fn make_page(collection: Collection, filter: Filter, page: u32, limit: u32) -> (made: Option<Page>)
    ensures
        match made {
            Some(plan) => page >= 1 && plan@ == page_of(
                collection,
                filter@,
                page as int,
                limit as int,
            ),
            None => page == 0,
        },
{
    if page == 0 {
        return None;
    }
    Some(Page { collection, filter, skip: skip_of(page, limit), limit: limit as i64 })
}

/// What to ask the store for a page of the general applications. `None`
/// for page 0, which no listing has.
pub fn get_all_general_members(page: u32, limit: u32, search: &str, field: &str) -> (plan: Option<
    Page,
>)
    ensures
        match plan {
            Some(made) => page >= 1 && made@ == page_of(
                Collection::GeneralMembers,
                member_filter(search@, field@),
                page as int,
                limit as int,
            ),
            None => page == 0,
        },
{
    make_page(Collection::GeneralMembers, application_filter(search, field), page, limit)
}

/// What to ask the store for a page of the executive applications. `None`
/// for page 0, which no listing has.
pub fn get_all_executive_members(page: u32, limit: u32, search: &str, field: &str) -> (plan:
    Option<Page>)
    ensures
        match plan {
            Some(made) => page >= 1 && made@ == page_of(
                Collection::ExecutiveMembers,
                executive_filter(search@, field@),
                page as int,
                limit as int,
            ),
            None => page == 0,
        },
{
    let team = same_text(field, "marketing") || same_text(field, "events") || same_text(
        field,
        "development",
    );
    let filter = if team {
        Filter::ExecType { exec_type: field.to_string() }
    } else {
        application_filter(search, field)
    };
    make_page(Collection::ExecutiveMembers, filter, page, limit)
}

/// What to ask the store for a page of the announcements. `None` for page
/// 0, which no listing has.
pub fn get_announcements(page: u32, limit: u32, search: &str, field: &str) -> (plan: Option<Page>)
    ensures
        match plan {
            Some(made) => page >= 1 && made@ == page_of(
                Collection::Announcements,
                search_filter(search@, field@),
                page as int,
                limit as int,
            ),
            None => page == 0,
        },
{
    make_page(Collection::Announcements, generic_filter(search, field), page, limit)
}

/// What to ask the store for a page of the forum posts. `None` for page 0,
/// which no listing has.
pub fn get_forum_posts(page: u32, limit: u32, search: &str, field: &str) -> (plan: Option<Page>)
    ensures
        match plan {
            Some(made) => page >= 1 && made@ == page_of(
                Collection::ForumPosts,
                search_filter(search@, field@),
                page as int,
                limit as int,
            ),
            None => page == 0,
        },
{
    make_page(Collection::ForumPosts, generic_filter(search, field), page, limit)
}

/// What to ask the store for a page of the accounts. `None` for page 0,
/// which no listing has.
pub fn get_all_accounts(page: u32, limit: u32, search: &str, field: &str) -> (plan: Option<Page>)
    ensures
        match plan {
            Some(made) => page >= 1 && made@ == page_of(
                Collection::Accounts,
                account_filter(search@, field@),
                page as int,
                limit as int,
            ),
            None => page == 0,
        },
{
    let verified = same_text(field, "verified");
    let filter = if verified || same_text(field, "unverified") {
        Filter::Verified { verified }
    } else {
        generic_filter(search, field)
    };
    make_page(Collection::Accounts, filter, page, limit)
}

/// Every record of `collection`.
pub open spec fn everything(collection: Collection) -> SelectionView {
    SelectionView { collection, filter: FilterView::All }
}

/// What to count to know how many announcements there are: all of them.
pub fn get_amount_of_announcements() -> (selection: Selection)
    ensures
        selection@ == everything(Collection::Announcements),
{
    Selection { collection: Collection::Announcements, filter: Filter::All }
}

/// What to count to know how many forum posts there are: all of them.
pub fn get_amount_of_forum_posts() -> (selection: Selection)
    ensures
        selection@ == everything(Collection::ForumPosts),
{
    Selection { collection: Collection::ForumPosts, filter: Filter::All }
}

/// The records of `collection` whose `field` is exactly `value`.
pub open spec fn equals(collection: Collection, field: Seq<char>, value: Seq<char>)
    -> SelectionView {
    SelectionView { collection, filter: FilterView::Equals { field, value } }
}

/// The records of `collection` of which one of two fields is exactly the
/// value given for it.
pub open spec fn either_equals(
    collection: Collection,
    first_field: Seq<char>,
    first_value: Seq<char>,
    second_field: Seq<char>,
    second_value: Seq<char>,
) -> SelectionView {
    SelectionView {
        collection,
        filter: FilterView::EitherEquals { first_field, first_value, second_field, second_value },
    }
}

fn select_equals(collection: Collection, field: &str, value: &str) -> (selection: Selection)
    ensures
        selection@ == equals(collection, field@, value@),
{
    Selection {
        collection,
        filter: Filter::Equals { field: field.to_string(), value: value.to_string() },
    }
}

fn select_either(
    collection: Collection,
    first_field: &str,
    first_value: &str,
    second_field: &str,
    second_value: &str,
) -> (selection: Selection)
    ensures
        selection@ == either_equals(
            collection,
            first_field@,
            first_value@,
            second_field@,
            second_value@,
        ),
{
    Selection {
        collection,
        filter: Filter::EitherEquals {
            first_field: first_field.to_string(),
            first_value: first_value.to_string(),
            second_field: second_field.to_string(),
            second_value: second_value.to_string(),
        },
    }
}

/// Whether the store's answer shows a record. A failure of the store reads
/// as no record.
pub fn is_present<T>(found: &Lookup<T>) -> (present: bool)
    ensures
        present == (found matches Ok(Some(_))),
{
    match found {
        Ok(Some(_)) => true,
        _ => false,
    }
}

/// The general applications under one full name.
pub fn gen_mem_does_exist_full_name(full_name: &str) -> (selection: Selection)
    ensures
        selection@ == equals(Collection::GeneralMembers, "full_name"@, full_name@),
{
    select_equals(Collection::GeneralMembers, "full_name", full_name)
}

/// The general applications under one address.
pub fn gen_mem_does_exist_email(email: &str) -> (selection: Selection)
    ensures
        selection@ == equals(Collection::GeneralMembers, "email"@, email@),
{
    select_equals(Collection::GeneralMembers, "email", email)
}

/// The general applications that stand in the way of a new one: those of
/// the same full name or the same address.
pub fn gen_mem_does_exist(member: &GeneralMember) -> (selection: Selection)
    ensures
        selection@ == either_equals(
            Collection::GeneralMembers,
            "full_name"@,
            member@.full_name,
            "email"@,
            member@.email,
        ),
{
    select_either(
        Collection::GeneralMembers,
        "full_name",
        member.full_name.as_str(),
        "email",
        member.email.as_str(),
    )
}

/// The executive applications under one full name.
pub fn exec_mem_does_exist_full_name(full_name: &str) -> (selection: Selection)
    ensures
        selection@ == equals(Collection::ExecutiveMembers, "full_name"@, full_name@),
{
    select_equals(Collection::ExecutiveMembers, "full_name", full_name)
}

/// The executive applications under one address.
pub fn exec_mem_does_exist_email(email: &str) -> (selection: Selection)
    ensures
        selection@ == equals(Collection::ExecutiveMembers, "email"@, email@),
{
    select_equals(Collection::ExecutiveMembers, "email", email)
}

/// The executive applications that stand in the way of a new one: those of
/// the same full name or the same address.
pub fn exec_mem_does_exist(member: &ExecutiveMember) -> (selection: Selection)
    ensures
        selection@ == either_equals(
            Collection::ExecutiveMembers,
            "full_name"@,
            member@.full_name,
            "email"@,
            member@.email,
        ),
{
    select_either(
        Collection::ExecutiveMembers,
        "full_name",
        member.full_name.as_str(),
        "email",
        member.email.as_str(),
    )
}

/// The accounts under one user name.
pub fn account_does_exist_full_name(username: &str) -> (selection: Selection)
    ensures
        selection@ == equals(Collection::Accounts, "username"@, username@),
{
    select_equals(Collection::Accounts, "username", username)
}

/// The accounts under one address.
pub fn account_does_exist_email(email: &str) -> (selection: Selection)
    ensures
        selection@ == equals(Collection::Accounts, "email"@, email@),
{
    select_equals(Collection::Accounts, "email", email)
}

/// The accounts that stand in the way of a new one: those of the same user
/// name or the same address.
pub fn account_does_exist(account: &Account) -> (selection: Selection)
    ensures
        selection@ == either_equals(
            Collection::Accounts,
            "username"@,
            account@.username,
            "email"@,
            account@.email,
        ),
{
    select_either(
        Collection::Accounts,
        "username",
        account.username.as_str(),
        "email",
        account.email.as_str(),
    )
}

/// The account under one address, asked for to read it whole.
pub fn get_account_by_email(email: &str) -> (selection: Selection)
    ensures
        selection@ == equals(Collection::Accounts, "email"@, email@),
{
    select_equals(Collection::Accounts, "email", email)
}

/// The stored password hash of the account that the store found, if it
/// found one.
pub fn get_account_password_by_email(found: Lookup<Account>) -> (password: Lookup<String>)
    ensures
        match found {
            Ok(Some(account)) => password matches Ok(Some(hash)) && hash@ == account@.password,
            Ok(None) => password matches Ok(None),
            Err(failure) => password matches Err(same) && same == failure,
        },
{
    match found {
        Ok(Some(account)) => Ok(Some(account.password)),
        Ok(None) => Ok(None),
        Err(failure) => Err(failure),
    }
}

/// The record of `collection` that an identity written as `id` names.
pub open spec fn by_id(collection: Collection, id: Seq<char>) -> Option<SelectionView> {
    match object_id_value(id) {
        Some(value) => Some(
            SelectionView { collection, filter: FilterView::Id { id: EntityId { value } } },
        ),
        None => None,
    }
}

fn select_by_id(collection: Collection, id: &str) -> (selection: Result<Selection, StoreError>)
    ensures
        match by_id(collection, id@) {
            Some(view) => selection matches Ok(made) && made@ == view,
            None => selection matches Err(StoreError::MalformedId),
        },
{
    match EntityId::parse_str(id) {
        Some(id) => Ok(Selection { collection, filter: Filter::Id { id } }),
        None => Err(StoreError::MalformedId),
    }
}

/// The announcement to read. Fails exactly where `id` is no identity.
pub fn get_announcement_by_id(id: &str) -> (selection: Result<Selection, StoreError>)
    ensures
        match by_id(Collection::Announcements, id@) {
            Some(view) => selection matches Ok(made) && made@ == view,
            None => selection matches Err(StoreError::MalformedId),
        },
{
    select_by_id(Collection::Announcements, id)
}

/// The announcement to delete. Fails exactly where `id` is no identity.
pub fn delete_announcement(id: &str) -> (selection: Result<Selection, StoreError>)
    ensures
        match by_id(Collection::Announcements, id@) {
            Some(view) => selection matches Ok(made) && made@ == view,
            None => selection matches Err(StoreError::MalformedId),
        },
{
    select_by_id(Collection::Announcements, id)
}

/// The forum post to read. Fails exactly where `id` is no identity.
pub fn get_forum_post_by_id(id: &str) -> (selection: Result<Selection, StoreError>)
    ensures
        match by_id(Collection::ForumPosts, id@) {
            Some(view) => selection matches Ok(made) && made@ == view,
            None => selection matches Err(StoreError::MalformedId),
        },
{
    select_by_id(Collection::ForumPosts, id)
}

/// The forum post to delete. Fails exactly where `id` is no identity.
pub fn delete_forum_post(id: &str) -> (selection: Result<Selection, StoreError>)
    ensures
        match by_id(Collection::ForumPosts, id@) {
            Some(view) => selection matches Ok(made) && made@ == view,
            None => selection matches Err(StoreError::MalformedId),
        },
{
    select_by_id(Collection::ForumPosts, id)
}

/// A change to some fields of a record; the others stay as they are.
#[derive(Debug)]
pub enum Change {
    /// The account becomes verified.
    Verify,
    /// The post's whole list of comments is written anew.
    Comments { comments: Vec<Comment> },
    /// The administrator's token, password and reset instant are replaced
    /// together.
    Secrets { token: String, password: String, last_reset: i64 },
}

/// A change and the record it is made to.
#[derive(Debug)]
pub struct Update {
    pub selection: Selection,
    pub change: Change,
}

/// Marks an account as verified. Fails exactly where `id` is no identity.
pub fn verify_account(id: &str) -> (update: Result<Update, StoreError>)
    ensures
        match by_id(Collection::Accounts, id@) {
            Some(view) => update matches Ok(made) && made.selection@ == view && made.change
                is Verify,
            None => update matches Err(StoreError::MalformedId),
        },
{
    match select_by_id(Collection::Accounts, id) {
        Ok(selection) => Ok(Update { selection, change: Change::Verify }),
        Err(error) => Err(error),
    }
}

/// Writes a post's list of comments anew: the whole list, not the one
/// comment that changed. Fails exactly where `id` is no identity.
pub fn update_forum_post(id: &str, comments: Vec<Comment>) -> (update: Result<Update, StoreError>)
    ensures
        match by_id(Collection::ForumPosts, id@) {
            Some(view) => update matches Ok(made) && made.selection@ == view && made.change
                == (Change::Comments { comments }),
            None => update matches Err(StoreError::MalformedId),
        },
{
    match select_by_id(Collection::ForumPosts, id) {
        Ok(selection) => Ok(Update { selection, change: Change::Comments { comments } }),
        Err(error) => Err(error),
    }
}

/// The administrator's record as the store must hold it: exactly one.
/// A missing record and a failure of the store are both errors.
pub fn get_admin(found: Lookup<Admin>) -> (admin: Result<Admin, StoreError>)
    ensures
        match found {
            Ok(Some(record)) => admin matches Ok(same) && same == record,
            Ok(None) => admin matches Err(StoreError::MissingAdmin),
            Err(failure) => admin matches Err(StoreError::Failed { failure: same }) && same
                == failure,
        },
{
    match found {
        Ok(Some(record)) => Ok(record),
        Ok(None) => Err(StoreError::MissingAdmin),
        Err(failure) => Err(StoreError::Failed { failure }),
    }
}

/// The update writes the three secrets of the record, as the record holds
/// them, to the one record of the administrator's collection.
pub open spec fn writes_secrets(update: Update, admin: AdminView) -> bool {
    &&& update.selection@ == everything(Collection::Admin)
    &&& update.change matches Change::Secrets { token, password, last_reset }
    &&& token@ == admin.token
    &&& password@ == admin.password
    &&& last_reset == admin.last_reset
}

/// What to write to the store so that it holds the administrator's secrets
/// as the record holds them: token, password and reset instant together.
pub fn secrets_update(admin: &Admin) -> (update: Update)
    ensures
        writes_secrets(update, admin@),
{
    Update {
        selection: Selection { collection: Collection::Admin, filter: Filter::All },
        change: Change::Secrets {
            token: admin.token.clone(),
            password: admin.password.clone(),
            last_reset: admin.last_reset,
        },
    }
}

/// Replaces the administrator's secrets by `fresh` ones at `now_ms`, and
/// says what to write to the store: all three fields together.
pub fn update_admin_with(admin: &mut Admin, fresh: FreshSecrets, now_ms: i64) -> (update: Update)
    ensures
        final(admin)@ == rotated(old(admin)@, fresh.token@, fresh.password@, now_ms),
        update.selection@ == everything(Collection::Admin),
        update.change matches Change::Secrets { token, password, last_reset } && token@
            == fresh.token@ && password@ == fresh.password@ && last_reset == now_ms,
{
    rotate(admin, fresh.token, fresh.password, now_ms);
    secrets_update(admin)
}

/// Draws fresh secrets, the password at most `tries` times, and replaces
/// the administrator's by them at `now_ms`: the record keeps its identity
/// and gets a token of 36 characters, a password such as a rotation gives,
/// and `now_ms` as its reset instant, and what comes back says to write
/// just these three to the one record of the administrator's collection.
/// `None`, and the record as it was, where no draw was strong enough.
pub fn update_admin(admin: &mut Admin, now_ms: i64, tries: u32) -> (update: Option<Update>)
    ensures
        update is None ==> *final(admin) == *old(admin),
        update matches Some(made) ==> {
            &&& final(admin)@.id == old(admin)@.id
            &&& final(admin)@.last_reset == now_ms
            &&& final(admin)@.token.len() == 36
            &&& is_admin_password(final(admin)@.password)
            &&& made.selection@ == everything(Collection::Admin)
            &&& made.change matches Change::Secrets { token, password, last_reset } && token@
                == final(admin)@.token && password@ == final(admin)@.password && last_reset
                == now_ms
        },
        tries == 0 ==> update is None,
{
    match fresh_secrets(tries) {
        Some(fresh) => Some(update_admin_with(admin, fresh, now_ms)),
        None => None,
    }
}

/// Two accounts may not both be stored: they share the user name or the
/// address.
pub open spec fn accounts_clash(a: AccountView, b: AccountView) -> bool {
    a.username == b.username || a.email == b.email
}

/// Two general applications may not both be stored: they share the full
/// name or the address.
pub open spec fn general_members_clash(a: GeneralMemberView, b: GeneralMemberView) -> bool {
    a.full_name == b.full_name || a.email == b.email
}

/// Two executive applications may not both be stored: they share the full
/// name or the address.
pub open spec fn executive_members_clash(a: ExecutiveMemberView, b: ExecutiveMemberView) -> bool {
    a.full_name == b.full_name || a.email == b.email
}

/// Admits an account to the store unless the store found one that stands
/// in its way. What comes back is the account to insert.
pub fn create_account(duplicate: &Lookup<Account>, account: Account) -> (admitted: Result<
    Account,
    StoreError,
>)
    ensures
        admitted is Ok <==> admits(*duplicate),
        match duplicate {
            Ok(Some(_)) => admitted matches Err(StoreError::AlreadyExists { message })
                && message@ == "Account already exists."@,
            _ => admitted matches Ok(same) && same == account,
        },
{
    if is_present(duplicate) {
        Err(StoreError::AlreadyExists { message: "Account already exists.".to_string() })
    } else {
        Ok(account)
    }
}

/// Admits a general application to the store unless the store found one
/// that stands in its way. What comes back is the application to insert.
pub fn create_general_member(duplicate: &Lookup<GeneralMember>, member: GeneralMember) -> (admitted:
    Result<GeneralMember, StoreError>)
    ensures
        admitted is Ok <==> admits(*duplicate),
        match duplicate {
            Ok(Some(_)) => admitted matches Err(StoreError::AlreadyExists { message })
                && message@ == "Member already exists."@,
            _ => admitted matches Ok(same) && same == member,
        },
{
    if is_present(duplicate) {
        Err(StoreError::AlreadyExists { message: "Member already exists.".to_string() })
    } else {
        Ok(member)
    }
}

/// Admits an executive application to the store unless the store found one
/// that stands in its way. What comes back is the application to insert.
pub fn create_executive_member(
    duplicate: &Lookup<ExecutiveMember>,
    member: ExecutiveMember,
) -> (admitted: Result<ExecutiveMember, StoreError>)
    ensures
        admitted is Ok <==> admits(*duplicate),
        match duplicate {
            Ok(Some(_)) => admitted matches Err(StoreError::AlreadyExists { message })
                && message@ == "Member already exists."@,
            _ => admitted matches Ok(same) && same == member,
        },
{
    if is_present(duplicate) {
        Err(StoreError::AlreadyExists { message: "Member already exists.".to_string() })
    } else {
        Ok(member)
    }
}

/// Whether a record is admitted given the store's answer to the question
/// of what stands in its way: it is, unless the store found something.
pub open spec fn admits<T>(duplicate: Lookup<T>) -> bool {
    !(duplicate matches Ok(Some(_)))
}

/// The store answered the question of what stands in the way of
/// `candidate` among the records `stored`, and answered it truly: a record
/// it shows is stored and clashes, and where it shows none, none clashes.
pub open spec fn answers_truly<T: View>(
    stored: Seq<T::V>,
    candidate: T::V,
    found: Lookup<T>,
    clash: spec_fn(T::V, T::V) -> bool,
) -> bool {
    match found {
        Ok(Some(hit)) => exists|i: int|
            0 <= i < stored.len() && stored[i] == hit@ && clash(stored[i], candidate),
        Ok(None) => forall|i: int|
            0 <= i < stored.len() ==> !clash(#[trigger] stored[i], candidate),
        Err(_) => false,
    }
}

/// The records in the store once the decision on `candidate` is carried
/// out: one more where it was admitted, the same where it was not.
pub open spec fn stored_after<T: View>(stored: Seq<T::V>, candidate: T::V, found: Lookup<T>)
    -> Seq<T::V> {
    if admits(found) {
        stored.push(candidate)
    } else {
        stored
    }
}

/// A record that clashes with a stored one is refused, and the store holds
/// what it held: no second record is made.
pub proof fn lemma_clash_is_refused<T: View>(
    stored: Seq<T::V>,
    candidate: T::V,
    found: Lookup<T>,
    clash: spec_fn(T::V, T::V) -> bool,
)
    requires
        answers_truly(stored, candidate, found, clash),
        exists|i: int| 0 <= i < stored.len() && clash(#[trigger] stored[i], candidate),
    ensures
        !admits(found),
        stored_after(stored, candidate, found) == stored,
{
}

/// After a record was admitted, a second attempt with a record that
/// clashes with it is refused and leaves the store as the first attempt
/// left it.
pub proof fn lemma_second_insert_is_refused<T: View>(
    stored: Seq<T::V>,
    first: T::V,
    first_found: Lookup<T>,
    second: T::V,
    second_found: Lookup<T>,
    clash: spec_fn(T::V, T::V) -> bool,
)
    requires
        admits(first_found),
        clash(first, second),
        answers_truly(stored_after(stored, first, first_found), second, second_found, clash),
    ensures
        !admits(second_found),
        stored_after(stored_after(stored, first, first_found), second, second_found)
            == stored_after(stored, first, first_found),
{
    let held = stored_after(stored, first, first_found);
    assert(held[held.len() - 1] == first);
    lemma_clash_is_refused(held, second, second_found, clash);
}

/// An account whose user name and address are both stored already is
/// refused, and the store holds what it held.
pub proof fn lemma_present_account_is_refused(
    stored: Seq<AccountView>,
    candidate: AccountView,
    found: Lookup<Account>,
)
    requires
        answers_truly(
            stored,
            candidate,
            found,
            |a: AccountView, b: AccountView| accounts_clash(a, b),
        ),
        exists|i: int|
            0 <= i < stored.len() && (#[trigger] stored[i]).username == candidate.username
                && stored[i].email == candidate.email,
    ensures
        !admits(found),
        stored_after(stored, candidate, found) == stored,
{
    let clash = |a: AccountView, b: AccountView| accounts_clash(a, b);
    let i = choose|i: int|
        0 <= i < stored.len() && (#[trigger] stored[i]).username == candidate.username
            && stored[i].email == candidate.email;
    assert(clash(stored[i], candidate));
    lemma_clash_is_refused(stored, candidate, found, clash);
}

/// A general application under a full name and an address that are both
/// stored already is refused, and the store holds what it held.
pub proof fn lemma_present_general_member_is_refused(
    stored: Seq<GeneralMemberView>,
    candidate: GeneralMemberView,
    found: Lookup<GeneralMember>,
)
    requires
        answers_truly(
            stored,
            candidate,
            found,
            |a: GeneralMemberView, b: GeneralMemberView| general_members_clash(a, b),
        ),
        exists|i: int|
            0 <= i < stored.len() && (#[trigger] stored[i]).full_name == candidate.full_name
                && stored[i].email == candidate.email,
    ensures
        !admits(found),
        stored_after(stored, candidate, found) == stored,
{
    let clash = |a: GeneralMemberView, b: GeneralMemberView| general_members_clash(a, b);
    let i = choose|i: int|
        0 <= i < stored.len() && (#[trigger] stored[i]).full_name == candidate.full_name
            && stored[i].email == candidate.email;
    assert(clash(stored[i], candidate));
    lemma_clash_is_refused(stored, candidate, found, clash);
}

/// An executive application under a full name and an address that are both
/// stored already is refused, and the store holds what it held.
pub proof fn lemma_present_executive_member_is_refused(
    stored: Seq<ExecutiveMemberView>,
    candidate: ExecutiveMemberView,
    found: Lookup<ExecutiveMember>,
)
    requires
        answers_truly(
            stored,
            candidate,
            found,
            |a: ExecutiveMemberView, b: ExecutiveMemberView| executive_members_clash(a, b),
        ),
        exists|i: int|
            0 <= i < stored.len() && (#[trigger] stored[i]).full_name == candidate.full_name
                && stored[i].email == candidate.email,
    ensures
        !admits(found),
        stored_after(stored, candidate, found) == stored,
{
    let clash = |a: ExecutiveMemberView, b: ExecutiveMemberView| executive_members_clash(a, b);
    let i = choose|i: int|
        0 <= i < stored.len() && (#[trigger] stored[i]).full_name == candidate.full_name
            && stored[i].email == candidate.email;
    assert(clash(stored[i], candidate));
    lemma_clash_is_refused(stored, candidate, found, clash);
}

} // verus!
