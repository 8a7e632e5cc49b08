//! The handlers of accounts: signing up, verifying, signing in, listing.

use crate::bindings::dates::{bson_datetime_text, datetime_text, rfc3339_millis};
use crate::bindings::hashing::bcrypt_verdict;
use crate::bindings::tokens::{sign_user_claims, user_token_text};
use crate::models::account::{Account, AccountRequest, AccountRequestView, AccountView};
use crate::models::admin::Admin;
use crate::models::conversion::parse_date;
use crate::models::id::{object_id_text, EntityId};
use crate::routes::guard::listing_gate;
use crate::routes::reply::{Body, Reply, Status};
use crate::routes::shared::Inserted;
use crate::rules::{joined_messages, joined_text, system_address, system_email};
use crate::services::credentials::{
    check_secret, hash_secret, is_hash_text, user_claims, user_claims_at,
};
use crate::services::db::{
    account_filter, is_present, page_of, Collection, Lookup, Page, StoreError, StoreFailure,
};
use crate::services::db;
use crate::services::listing::{newest_first, sort_newest_first};
use crate::text::{contains_text, occurs_at};
use crate::utilities::claims::Token;
use crate::utilities::pagination_args::AdminPaginationArgs;
use vstd::prelude::*;

verus! {

/// What a member sends to sign in.
#[derive(Debug)]
pub struct AccountGiven {
    pub email: String,
    pub password: String,
}

/// Whether the store knows a text as a user name or as an address, given
/// what it found under it as each.
pub fn check_account_exists(by_username: &Lookup<Account>, by_email: &Lookup<Account>) -> (exists:
    bool)
    ensures
        exists == ((by_username matches Ok(Some(_))) || (by_email matches Ok(Some(_)))),
{
    is_present(by_username) || is_present(by_email)
}

/// Answers whether a user name or an address is taken, given what the
/// store found under it as a user name and as an address: the text itself
/// where it is taken, not found where it is free.
pub fn get_account_by_username_or_email(
    username_or_email: &str,
    by_username: &Lookup<Account>,
    by_email: &Lookup<Account>,
) -> (reply: Reply<()>)
    ensures
        if (by_username matches Ok(Some(_))) || (by_email matches Ok(Some(_))) {
            reply.says_json(Status::Success, username_or_email@)
        } else {
            reply.says(Status::NotFound, "Account not found."@)
        },
{
    if check_account_exists(by_username, by_email) {
        Reply::json_text(Status::Success, username_or_email)
    } else {
        Reply::text(Status::NotFound, "Account not found.")
    }
}

/// Answers a request to verify an account, given how many records the
/// store changed: verified where it changed one, not found where it found
/// none, a server error where the identity was malformed or the store
/// failed.
pub fn verify_account(matched: &Result<u64, StoreError>) -> (reply: Reply<()>)
    ensures
        match matched {
            Ok(count) => if *count > 0 {
                reply.says_json(Status::Success, "Account verified."@)
            } else {
                reply.says(Status::NotFound, "Account not found."@)
            },
            Err(_) => reply.says(Status::InternalServerError, "Error verifying account."@),
        },
{
    match matched {
        Ok(count) => if *count > 0 {
            Reply::json_text(Status::Success, "Account verified.")
        } else {
            Reply::text(Status::NotFound, "Account not found.")
        },
        Err(_) => Reply::text(Status::InternalServerError, "Error verifying account."),
    }
}

/// What stands for a password wherever an account is shown.
pub open spec fn password_mask() -> Seq<char> {
    "********"@
}

/// An account as a listing shows it: the password masked, the date written
/// out.
pub open spec fn masked(account: AccountView) -> AccountRequestView {
    AccountRequestView {
        username: account.username,
        email: account.email,
        password: password_mask(),
        verified: account.verified,
        date_created: bson_datetime_text(account.date_created),
    }
}

/// Writes an account out as a listing shows it.
pub fn mask_account(account: &Account) -> (shown: AccountRequest)
    ensures
        shown@ == masked(account@),
{
    AccountRequest {
        username: account.username.clone(),
        email: account.email.clone(),
        password: "********".to_string(),
        verified: account.verified,
        date_created: datetime_text(account.date_created),
    }
}

/// What to ask the store for a page of the accounts, given whether the
/// request passed the check of the administrator's secret: a request that
/// did not pass is unauthorized, page 0 is a bad request, and any other
/// gets its page.
pub fn accounts_page(passed: bool, request: &AdminPaginationArgs) -> (plan: Result<
    Page,
    Reply<Vec<AccountRequest>>,
>)
    ensures
        match plan {
            Ok(made) => passed && request.page >= 1 && made@ == page_of(
                Collection::Accounts,
                account_filter(request.search@, request.field@),
                request.page as int,
                request.limit as int,
            ),
            Err(reply) => if !passed {
                reply.says(Status::Unauthorized, "Unauthorized."@)
            } else {
                request.page == 0 && reply.says(Status::BadRequest, "Invalid page."@)
            },
        },
{
    if !passed {
        return Err(Reply::text(Status::Unauthorized, "Unauthorized."));
    }
    match db::get_all_accounts(
        request.page,
        request.limit,
        request.search.as_str(),
        request.field.as_str(),
    ) {
        Some(plan) => Ok(plan),
        None => Err(Reply::text(Status::BadRequest, "Invalid page.")),
    }
}

/// Decides whether a request for a page of the accounts may pass, and what
/// to ask the store: the secret that the request carries is checked, and
/// `accounts_page` does the rest. A request that does not carry the
/// administrator's secret is unauthorized, page 0 is a bad request.
pub fn get_all_accounts(request: &AdminPaginationArgs, admin: &Admin) -> (plan: Result<
    Page,
    Reply<Vec<AccountRequest>>,
>)
    ensures
        request.token@ != admin@.token ==> (plan matches Err(reply) && reply.says(
            Status::Unauthorized,
            "Unauthorized."@,
        )),
        plan matches Ok(made) ==> request.token@ == admin@.token && request.page >= 1 && made@
            == page_of(
            Collection::Accounts,
            account_filter(request.search@, request.field@),
            request.page as int,
            request.limit as int,
        ),
        plan matches Err(reply) ==> reply.says(Status::Unauthorized, "Unauthorized."@) || (
        request.page == 0 && reply.says(Status::BadRequest, "Invalid page."@)),
{
    accounts_page(listing_gate(request.token.as_str(), admin), request)
}

/// The accounts of a list as a listing shows them, in order.
pub open spec fn account_request_views(list: Seq<AccountRequest>) -> Seq<AccountRequestView> {
    list.map_values(|request: AccountRequest| request@)
}

/// Answers a request for a page of the accounts, given what the store
/// fetched: the accounts of the page, newest first, each with its password
/// masked.
pub fn accounts_listed(fetched: Result<Vec<Account>, StoreFailure>) -> (reply: Reply<
    Vec<AccountRequest>,
>)
    ensures
        match fetched {
            Ok(accounts) => reply.status == Status::Success && (reply.body matches Body::Json {
                value,
            } && account_request_views(value@) == newest_first(accounts@).map_values(
                |account: Account| masked(account@),
            )),
            Err(_) => reply.says(Status::InternalServerError, "Error getting accounts."@),
        },
{
    match fetched {
        Ok(accounts) => {
            let ghost wanted = newest_first(accounts@).map_values(|account: Account| masked(account@));
            let sorted = sort_newest_first(accounts);
            let mut shown: Vec<AccountRequest> = Vec::new();
            let mut i: usize = 0;
            while i < sorted.len()
                invariant
                    i <= sorted.len(),
                    wanted == sorted@.map_values(|account: Account| masked(account@)),
                    account_request_views(shown@) =~= wanted.take(i as int),
                decreases sorted.len() - i,
            {
                let entry = mask_account(&sorted[i]);
                let ghost before = shown@;
                assert(entry@ == wanted[i as int]);
                shown.push(entry);
                assert(account_request_views(shown@) =~= account_request_views(before).push(
                    entry@,
                ));
                assert(wanted.take(i + 1) =~= wanted.take(i as int).push(wanted[i as int]));
                i += 1;
            }
            assert(wanted.take(wanted.len() as int) =~= wanted);
            Reply::json(shown)
        },
        Err(_) => Reply::text(Status::InternalServerError, "Error getting accounts."),
    }
}

/// The answer carries the member's token signed for `account` at `now_ms`
/// under `secret`.
pub open spec fn carries_user_token(
    reply: Reply<Token>,
    account: AccountView,
    secret: Seq<char>,
    now_ms: int,
) -> bool {
    &&& user_claims_at(account, now_ms) is Some
    &&& reply.status == Status::Success
    &&& reply.body matches Body::Json { value }
    &&& value.token@ == user_token_text(
        account.username,
        account.email,
        account.verified,
        user_claims_at(account, now_ms)->0.exp,
        secret,
    )
}

/// What the stored hash of an account says of a password: whether it
/// matches, or `None` where the stored text is no hash.
pub open spec fn password_verdict(password: Seq<char>, account: AccountView) -> Option<bool> {
    bcrypt_verdict(password, account.password)
}

/// The answer to a sign-in with a password that the stored hash matches:
/// the token that names the member and lasts 24 hours, or a server error
/// where the clock is out of range.
pub open spec fn answers_user_token(
    reply: Reply<Token>,
    account: AccountView,
    secret: Seq<char>,
    now_ms: int,
) -> bool {
    match user_claims_at(account, now_ms) {
        Some(_) => carries_user_token(reply, account, secret, now_ms),
        None => reply.says(Status::InternalServerError, "Clock out of range."@),
    }
}

/// Answers a sign-in whose password the stored hash matches: makes the
/// claims from the account, signs them, and hands the token out.
pub fn user_token_reply(account: &Account, secret: &str, now_ms: i64) -> (reply: Reply<Token>)
    ensures
        answers_user_token(reply, account@, secret@, now_ms as int),
{
    match user_claims(account, now_ms) {
        Some(claims) => match sign_user_claims(&claims, secret) {
            Ok(token) => Reply::json(Token { token }),
            Err(_) => Reply::text(Status::InternalServerError, "Error signing token."),
        },
        None => Reply::text(Status::InternalServerError, "Clock out of range."),
    }
}

/// Signs a member in by address, given what the store found under the
/// address that was sent. Where it found no account the answer is not
/// found; a password that the stored hash does not match is answered with
/// an empty text; one that it matches is answered with a token that lasts
/// 24 hours. A stored password that is no hash and a failing store are
/// server errors, in words that tell nothing of what is stored.
pub fn account_sign_in(request: &AccountGiven, found: &Lookup<Account>, secret: &str, now_ms: i64)
    -> (reply: Reply<Token>)
    ensures
        match found {
            Ok(Some(account)) => match password_verdict(request.password@, account@) {
                Some(true) => answers_user_token(reply, account@, secret@, now_ms as int),
                Some(false) => reply.says_json(Status::Success, ""@),
                None => reply.says(Status::InternalServerError, "Failed to check password."@),
            },
            Ok(None) => reply.says_json(Status::NotFound, "Account does not exist."@),
            Err(_) => reply.says(Status::InternalServerError, "Failed to retrieve password."@),
        },
{
    match found {
        Ok(Some(account)) => match check_secret(
            request.password.as_str(),
            account.password.as_str(),
        ) {
            Ok(true) => user_token_reply(account, secret, now_ms),
            Ok(false) => Reply::json_text(Status::Success, ""),
            Err(_) => Reply::text(Status::InternalServerError, "Failed to check password."),
        },
        Ok(None) => Reply::json_text(Status::NotFound, "Account does not exist."),
        Err(_) => Reply::text(Status::InternalServerError, "Failed to retrieve password."),
    }
}

/// The account that a valid sign-up request becomes: every field as it
/// was sent but the password, in whose place stands a hash text that
/// matches it.
pub open spec fn signed_up(request: AccountRequestView, account: AccountView) -> bool {
    &&& account.id.is_valid()
    &&& account.username == request.username
    &&& account.email == request.email
    &&& account.verified == request.verified
    &&& rfc3339_millis(request.date_created) == Some(account.date_created)
    &&& is_hash_text(account.password)
    &&& bcrypt_verdict(request.password, account.password) == Some(true)
}

/// The password that a member signed up with is the one that signs the
/// member in: the hash stored at sign-up matches it.
pub proof fn lemma_sign_up_password_signs_in(request: AccountRequestView, account: AccountView)
    requires
        signed_up(request, account),
    ensures
        password_verdict(request.password, account) == Some(true),
{
}

/// Turns a sign-up request into the account to store, or into the answer
/// that refuses it. A request that breaks a rule is a bad request with
/// every broken rule's sentence; a creation date that is no date is a bad
/// request with the parser's words. Else the password is hashed and the
/// account made under a fresh identity; where the hasher fails the answer
/// is a server error.
pub fn create_account(request: AccountRequest, mailbox: &str) -> (prepared: Result<
    Account,
    Reply<Inserted>,
>)
    ensures
        !request@.is_valid(mailbox@) ==> (prepared matches Err(reply) && reply.says(
            Status::BadRequest,
            joined_text(request@.violations(mailbox@)),
        )),
        request@.is_valid(mailbox@) && rfc3339_millis(request@.date_created) is None
            ==> (prepared matches Err(reply) && reply.status == Status::BadRequest),
        request@.is_valid(mailbox@) && rfc3339_millis(request@.date_created) is Some
            ==> match prepared {
            Ok(account) => signed_up(request@, account@),
            Err(reply) => reply.status == Status::InternalServerError,
        },
{
    match request.validate(mailbox) {
        Ok(()) => {},
        Err(found) => {
            return Err(Reply::message(Status::BadRequest, joined_messages(&found)));
        },
    }
    let date_created = match parse_date(request.date_created.as_str()) {
        Ok(millis) => millis,
        Err(error) => {
            return Err(Reply::message(Status::BadRequest, error.message));
        },
    };
    let hash = match hash_secret(request.password.as_str()) {
        Ok(hash) => hash,
        Err(error) => {
            return Err(Reply::message(Status::InternalServerError, error.message));
        },
    };
    let hashed = AccountRequest {
        username: request.username,
        email: request.email,
        password: hash,
        verified: request.verified,
        date_created: request.date_created,
    };
    Ok(Account::from_parts(hashed, EntityId::fresh(), date_created))
}

/// Answers a sign-up once the store was asked to write the account: the
/// written identity on success, a conflict where an account of the same
/// name or address was there, a server error otherwise.
pub fn account_created(written: Result<EntityId, StoreError>) -> (reply: Reply<Inserted>)
    ensures
        match written {
            Ok(id) => reply.carries(Inserted { inserted_id: id }),
            Err(StoreError::AlreadyExists { message }) => reply.says(Status::Conflict, message@),
            Err(_) => reply.says(Status::InternalServerError, "Error creating account."@),
        },
{
    match written {
        Ok(id) => Reply::json(Inserted { inserted_id: id }),
        Err(StoreError::AlreadyExists { message }) => Reply::message(Status::Conflict, message),
        Err(_) => Reply::text(Status::InternalServerError, "Error creating account."),
    }
}

/// A letter to send.
#[derive(Debug)]
pub struct Mail {
    pub from_name: String,
    pub from_address: String,
    pub to: String,
    pub subject: String,
    pub html_body: String,
    pub text_body: String,
}

/// The link that verifies the account of identity `id` on the server at
/// `server_url`.
pub open spec fn verify_link(server_url: Seq<char>, id: EntityId) -> Seq<char> {
    "http://"@ + server_url + "/account/verify/"@ + object_id_text(id.value)
}

/// Writes the letter that asks a new member to verify the account: it is
/// sent from the club's own mailbox and holds the link, which ends with
/// the account's identity.
pub fn verification_mail(server_url: &str, mailbox: &str, to: &str, id: EntityId) -> (mail: Mail)
    ensures
        mail.from_name@ == "HB CyberTech"@,
        mail.from_address@ == system_address(mailbox@),
        mail.to@ == to@,
        mail.subject@ == "Please verify your account!"@,
        mail.html_body@ == "<h1>Verify your account!</h1><a href=\""@ + verify_link(
            server_url@,
            id,
        ) + "\">"@ + verify_link(server_url@, id) + "</a>"@,
        mail.text_body@ == "Verify your account at the following link: "@ + verify_link(
            server_url@,
            id,
        ),
        contains_text(mail.text_body@, object_id_text(id.value)),
{
    let mut link = "http://".to_string();
    link.append(server_url);
    link.append("/account/verify/");
    let ghost stem = link@;
    let hex = id.to_hex();
    link.append(hex.as_str());
    let mut html_body = "<h1>Verify your account!</h1><a href=\"".to_string();
    html_body.append(link.as_str());
    html_body.append("\">");
    html_body.append(link.as_str());
    html_body.append("</a>");
    let mut text_body = "Verify your account at the following link: ".to_string();
    let ghost lead = text_body@;
    text_body.append(link.as_str());
    proof {
        let at: int = (lead.len() + stem.len()) as int;
        assert(text_body@.subrange(at, at + hex@.len()) =~= hex@);
        assert(occurs_at(text_body@, hex@, at));
    }
    Mail {
        from_name: "HB CyberTech".to_string(),
        from_address: system_email(mailbox),
        to: to.to_string(),
        subject: "Please verify your account!".to_string(),
        html_body,
        text_body,
    }
}

} // verus!
