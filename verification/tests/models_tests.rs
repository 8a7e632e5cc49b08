use cybertech_server::models::account::{Account, AccountRequest};
use cybertech_server::models::admin::{Admin, AdminRequest};
use cybertech_server::models::announcement::{
    Announcement, AnnouncementRequest, AnnouncementRequestRequest,
};
use cybertech_server::models::comment::{
    Comment, CommentDocument, CommentRequest, CommentRequestRequest,
};
use cybertech_server::models::conversion::parse_date;
use cybertech_server::models::executive_member::{ExecutiveMember, ExecutiveMemberRequest};
use cybertech_server::models::forum_post::{Post, PostRequest, PostRequestRequest};
use cybertech_server::models::general_member::{GeneralMember, GeneralMemberRequest};
use cybertech_server::models::id::EntityId;
use cybertech_server::models::resource::{Resource, ResourceRequest};
use cybertech_server::rules::Violation;

const NEW_YEAR_2024: i64 = 1_704_067_200_000;

fn account_request() -> AccountRequest {
    AccountRequest {
        username: "hunter_2".to_string(),
        email: "1234567@pdsb.net".to_string(),
        password: "hunter2".to_string(),
        verified: false,
        date_created: "2024-01-01T00:00:00Z".to_string(),
    }
}

fn comment_at(id: u128, author: &str) -> Comment {
    Comment {
        _id: EntityId { value: id },
        author: author.to_string(),
        email: "1234567@pdsb.net".to_string(),
        date_created: NEW_YEAR_2024,
        body: "a body of twenty characters".to_string(),
    }
}

#[test]
fn parse_date_reads_the_epoch() {
    assert_eq!(parse_date("1970-01-01T00:00:00Z").unwrap(), 0);
}

#[test]
fn parse_date_reads_utc_instant() {
    assert_eq!(parse_date("2024-01-01T00:00:00Z").unwrap(), NEW_YEAR_2024);
}

#[test]
fn parse_date_moves_offsets_to_utc() {
    assert_eq!(parse_date("2024-01-01T02:00:00+02:00").unwrap(), NEW_YEAR_2024);
    assert_eq!(parse_date("2023-12-31T19:00:00-05:00").unwrap(), NEW_YEAR_2024);
}

#[test]
fn parse_date_keeps_milliseconds_and_drops_the_rest() {
    assert_eq!(parse_date("2024-01-01T00:00:00.123Z").unwrap(), NEW_YEAR_2024 + 123);
    assert_eq!(parse_date("2024-01-01T00:00:00.123999Z").unwrap(), NEW_YEAR_2024 + 123);
}

#[test]
fn parse_date_reads_instants_before_the_epoch() {
    assert_eq!(parse_date("1969-12-31T23:59:59Z").unwrap(), -1000);
}

#[test]
fn parse_date_refuses_what_is_no_date() {
    for text in ["", "yesterday", "2024-01-01", "2024-01-01 00:00:00", "2024-13-01T00:00:00Z",
        "2024-01-01T00:00:00", "1704067200000"]
    {
        let error = parse_date(text).unwrap_err();
        assert!(error.message.starts_with("Error parsing date: "), "{:?}", error.message);
        assert!(error.message.len() > "Error parsing date: ".len());
    }
}

#[test]
fn parse_date_error_carries_the_parsers_words() {
    assert_eq!(
        parse_date("yesterday").unwrap_err().message,
        "Error parsing date: premature end of input"
    );
    assert_eq!(parse_date("").unwrap_err().message, "Error parsing date: premature end of input");
    assert_eq!(
        parse_date("2024-13-01T00:00:00Z").unwrap_err().message,
        "Error parsing date: input is out of range"
    );
}

#[test]
fn entity_id_fresh_is_valid_and_new_each_time() {
    let first = EntityId::fresh();
    let second = EntityId::fresh();
    assert!(first.value < (1u128 << 96));
    assert!(second.value < (1u128 << 96));
    assert_ne!(first, second);
}

#[test]
fn entity_id_is_written_as_24_hex_digits() {
    assert_eq!(EntityId { value: 0 }.to_hex(), "000000000000000000000000");
    assert_eq!(EntityId { value: 0x65a1b2c3d4e5f60718293a4b }.to_hex(), "65a1b2c3d4e5f60718293a4b");
    assert_eq!(EntityId { value: (1u128 << 96) - 1 }.to_hex(), "ffffffffffffffffffffffff");
}

#[test]
fn entity_id_is_read_from_24_hex_digits() {
    assert_eq!(
        EntityId::parse_str("65a1b2c3d4e5f60718293a4b"),
        Some(EntityId { value: 0x65a1b2c3d4e5f60718293a4b })
    );
    assert_eq!(
        EntityId::parse_str("65A1B2C3D4E5F60718293A4B"),
        Some(EntityId { value: 0x65a1b2c3d4e5f60718293a4b })
    );
    assert_eq!(EntityId::parse_str(""), None);
    assert_eq!(EntityId::parse_str("65a1b2c3d4e5f60718293a4"), None);
    assert_eq!(EntityId::parse_str("65a1b2c3d4e5f60718293a4b0"), None);
    assert_eq!(EntityId::parse_str("65a1b2c3d4e5f60718293a4g"), None);
    assert_eq!(EntityId::parse_str("ObjectId(\"65a1b2c3d4e5f60718293a4b\")"), None);
}

#[test]
fn entity_id_round_trips_through_its_text() {
    let id = EntityId::fresh();
    assert_eq!(EntityId::parse_str(&id.to_hex()), Some(id));
}

#[test]
fn account_request_valid_passes() {
    assert!(account_request().validate("club").is_ok());
}

#[test]
fn account_request_lists_every_violation_in_field_order() {
    let request = AccountRequest {
        username: "x".to_string(),
        email: "someone@example.com".to_string(),
        password: "p".repeat(73),
        verified: false,
        date_created: "2024-01-01T00:00:00Z".to_string(),
    };
    assert_eq!(
        request.validate("club"),
        Err(vec![Violation::Username, Violation::Email, Violation::Password])
    );
}

#[test]
fn account_request_reports_only_what_is_broken() {
    let mut request = account_request();
    request.email = "12345@pdsb.net".to_string();
    assert_eq!(request.validate("club"), Err(vec![Violation::Email]));
    let mut request = account_request();
    request.username = "no spaces".to_string();
    assert_eq!(request.validate("club"), Err(vec![Violation::Username]));
}

#[test]
fn account_request_takes_the_system_mailbox() {
    let mut request = account_request();
    request.username = "The Team".to_string();
    request.email = "club@gmail.com".to_string();
    assert!(request.validate("club").is_ok());
    assert_eq!(request.validate("other"), Err(vec![Violation::Email]));
}

#[test]
fn account_validation_does_not_look_at_the_date() {
    let mut request = account_request();
    request.date_created = "not a date".to_string();
    assert!(request.validate("club").is_ok());
}

#[test]
fn account_from_parts_takes_every_field_over() {
    let account = Account::from_parts(account_request(), EntityId { value: 7 }, 42);
    assert_eq!(account._id, EntityId { value: 7 });
    assert_eq!(account.username, "hunter_2");
    assert_eq!(account.email, "1234567@pdsb.net");
    assert_eq!(account.password, "hunter2");
    assert!(!account.verified);
    assert_eq!(account.date_created, 42);
}

#[test]
fn account_convert_parses_the_date_and_keeps_the_identity() {
    let account = Account::convert(account_request(), EntityId { value: 9 }).unwrap();
    assert_eq!(account._id, EntityId { value: 9 });
    assert_eq!(account.date_created, NEW_YEAR_2024);
    assert_eq!(account.username, "hunter_2");
}

#[test]
fn account_convert_fails_on_a_malformed_date() {
    let mut request = account_request();
    request.date_created = "01/01/2024".to_string();
    let error = Account::convert(request, EntityId { value: 9 }).unwrap_err();
    assert!(error.message.starts_with("Error parsing date: "));
}

#[test]
fn account_try_from_assigns_a_fresh_identity_each_time() {
    let first = Account::try_from(account_request()).unwrap();
    let second = Account::try_from(account_request()).unwrap();
    assert_ne!(first._id, second._id);
    assert!(first._id.value < (1u128 << 96));
    assert_eq!(first.date_created, NEW_YEAR_2024);
    assert_eq!(first.username, second.username);
    assert!(Account::try_from(AccountRequest {
        date_created: "soon".to_string(),
        ..account_request()
    })
    .is_err());
}

#[test]
fn admin_try_from_draws_identity_and_token_afresh() {
    let request = || AdminRequest {
        token: "caller-supplied".to_string(),
        password: "unlock".to_string(),
        last_reset: "2024-01-01T00:00:00Z".to_string(),
    };
    let first = Admin::try_from(request()).unwrap();
    let second = Admin::try_from(request()).unwrap();
    assert_ne!(first.token, "caller-supplied");
    assert_eq!(first.token.len(), 36);
    assert_ne!(first.token, second.token);
    assert_ne!(first._id, second._id);
    assert_eq!(first.password, "unlock");
    assert_eq!(first.last_reset, NEW_YEAR_2024);
}

#[test]
fn admin_convert_uses_what_it_is_given() {
    let request = AdminRequest {
        token: "ignored".to_string(),
        password: "unlock".to_string(),
        last_reset: "2024-01-01T00:00:00.500Z".to_string(),
    };
    let admin = Admin::convert(request, EntityId { value: 3 }, "secret-of-the-day".to_string())
        .unwrap();
    assert_eq!(admin._id, EntityId { value: 3 });
    assert_eq!(admin.token, "secret-of-the-day");
    assert_eq!(admin.password, "unlock");
    assert_eq!(admin.last_reset, NEW_YEAR_2024 + 500);
    let bad = AdminRequest {
        token: String::new(),
        password: String::new(),
        last_reset: "never".to_string(),
    };
    assert!(Admin::convert(bad, EntityId { value: 3 }, String::new()).is_err());
}

fn announcement_request() -> AnnouncementRequest {
    AnnouncementRequest {
        id: "65a1b2c3d4e5f60718293a4b".to_string(),
        author: "The Team".to_string(),
        email: "club@gmail.com".to_string(),
        date_created: "2024-01-01T00:00:00Z".to_string(),
        title: "Meeting".to_string(),
        body: "Room 204 at lunch".to_string(),
    }
}

#[test]
fn announcement_request_needs_the_team_and_its_mailbox() {
    assert!(announcement_request().validate("club").is_ok());
    let mut request = announcement_request();
    request.author = "hunter_2".to_string();
    assert_eq!(request.validate("club"), Err(vec![Violation::Username]));
    let mut request = announcement_request();
    request.email = "1234567@pdsb.net".to_string();
    assert_eq!(request.validate("club"), Err(vec![Violation::Email]));
    let mut request = announcement_request();
    request.author = String::new();
    request.email = String::new();
    assert_eq!(request.validate("club"), Err(vec![Violation::Username, Violation::Email]));
}

#[test]
fn announcement_request_with_token_follows_the_same_rules() {
    let request = AnnouncementRequestRequest {
        author: "The Team".to_string(),
        email: "club@gmail.com".to_string(),
        date_created: "2024-01-01T00:00:00Z".to_string(),
        title: "t".to_string(),
        body: "b".to_string(),
        token: "jwt".to_string(),
    };
    assert!(request.validate("club").is_ok());
    assert_eq!(request.validate("elsewhere"), Err(vec![Violation::Email]));
}

#[test]
fn announcement_try_from_leaves_the_sent_identity_aside() {
    let announcement = Announcement::try_from(announcement_request()).unwrap();
    assert_ne!(announcement._id, EntityId { value: 0x65a1b2c3d4e5f60718293a4b });
    assert_eq!(announcement.author, "The Team");
    assert_eq!(announcement.email, "club@gmail.com");
    assert_eq!(announcement.date_created, NEW_YEAR_2024);
    assert_eq!(announcement.title, "Meeting");
    assert_eq!(announcement.body, "Room 204 at lunch");
    let kept = Announcement::convert(announcement_request(), EntityId { value: 5 }).unwrap();
    assert_eq!(kept._id, EntityId { value: 5 });
    let mut bad = announcement_request();
    bad.date_created = "x".to_string();
    assert!(Announcement::try_from(bad).is_err());
}

fn comment_request() -> CommentRequestRequest {
    CommentRequestRequest {
        author: "hunter_2".to_string(),
        email: "1234567@pdsb.net".to_string(),
        date_created: "2024-01-01T00:00:00Z".to_string(),
        body: "exactly twenty chars".to_string(),
    }
}

#[test]
fn comment_request_rules() {
    assert!(comment_request().validate("club").is_ok());
    let mut request = comment_request();
    request.body = "nineteen characters".to_string();
    assert_eq!(request.validate("club"), Err(vec![Violation::Body]));
    let mut request = comment_request();
    request.author = "?".to_string();
    request.email = "nobody".to_string();
    request.body = "short".to_string();
    assert_eq!(
        request.validate("club"),
        Err(vec![Violation::Username, Violation::Email, Violation::Body])
    );
}

#[test]
fn comment_request_with_identity_follows_the_same_rules() {
    let request = CommentRequest {
        id: "anything".to_string(),
        author: "The Team".to_string(),
        email: "club@gmail.com".to_string(),
        date_created: "2024-01-01T00:00:00Z".to_string(),
        body: "b".repeat(601),
    };
    assert_eq!(request.validate("club"), Err(vec![Violation::Body]));
}

#[test]
fn comment_try_from_and_clone() {
    let request = CommentRequest {
        id: "ffffffffffffffffffffffff".to_string(),
        author: "hunter_2".to_string(),
        email: "1234567@pdsb.net".to_string(),
        date_created: "2024-01-01T00:00:00Z".to_string(),
        body: "exactly twenty chars".to_string(),
    };
    let copy = request.clone();
    assert_eq!(copy.id, request.id);
    assert_eq!(copy.body, request.body);
    let comment = Comment::try_from(request).unwrap();
    assert_ne!(comment._id.to_hex(), "ffffffffffffffffffffffff");
    assert_eq!(comment.author, "hunter_2");
    assert_eq!(comment.date_created, NEW_YEAR_2024);
    let twin = comment.clone();
    assert_eq!(twin._id, comment._id);
    assert_eq!(twin.author, comment.author);
    assert_eq!(twin.email, comment.email);
    assert_eq!(twin.date_created, comment.date_created);
    assert_eq!(twin.body, comment.body);
    let converted = Comment::convert(copy, EntityId { value: 11 }).unwrap();
    assert_eq!(converted._id, EntityId { value: 11 });
}

#[test]
fn comment_from_document_fills_what_is_missing() {
    let empty = CommentDocument { id: None, author: None, email: None, date_created: None, body: None };
    let comment = Comment::from_document(empty, EntityId { value: 77 }, 1234);
    assert_eq!(comment._id, EntityId { value: 77 });
    assert_eq!(comment.author, "");
    assert_eq!(comment.email, "");
    assert_eq!(comment.date_created, 1234);
    assert_eq!(comment.body, "");
}

#[test]
fn comment_from_document_keeps_what_is_there() {
    let full = CommentDocument {
        id: Some(EntityId { value: 1 }),
        author: Some("hunter_2".to_string()),
        email: Some("1234567@pdsb.net".to_string()),
        date_created: Some(NEW_YEAR_2024),
        body: Some("hello".to_string()),
    };
    let comment = Comment::from_document(full, EntityId { value: 77 }, 1234);
    assert_eq!(comment._id, EntityId { value: 1 });
    assert_eq!(comment.author, "hunter_2");
    assert_eq!(comment.email, "1234567@pdsb.net");
    assert_eq!(comment.date_created, NEW_YEAR_2024);
    assert_eq!(comment.body, "hello");
}

fn post_request() -> PostRequestRequest {
    PostRequestRequest {
        author: "hunter_2".to_string(),
        email: "1234567@pdsb.net".to_string(),
        date_created: "2024-01-01T00:00:00Z".to_string(),
        title: "Hello".to_string(),
        body: "a body of twenty characters".to_string(),
    }
}

#[test]
fn post_request_rules() {
    assert!(post_request().validate("club").is_ok());
    let mut request = post_request();
    request.title = "Four".to_string();
    assert_eq!(request.validate("club"), Err(vec![Violation::Title]));
    let mut request = post_request();
    request.title = "t".repeat(21);
    request.body = "b".repeat(19);
    assert_eq!(request.validate("club"), Err(vec![Violation::Title, Violation::Body]));
    let mut request = post_request();
    request.author = "a".to_string();
    request.email = "e".to_string();
    request.title = String::new();
    request.body = String::new();
    assert_eq!(
        request.validate("club"),
        Err(vec![Violation::Username, Violation::Email, Violation::Title, Violation::Body])
    );
}

#[test]
fn post_try_from_starts_without_comments_whatever_was_sent() {
    let request = PostRequest {
        id: "000000000000000000000001".to_string(),
        author: "hunter_2".to_string(),
        email: "1234567@pdsb.net".to_string(),
        date_created: "2024-01-01T00:00:00Z".to_string(),
        title: "Hello".to_string(),
        body: "a body of twenty characters".to_string(),
        comments: vec![comment_at(1, "alice"), comment_at(2, "bob")],
    };
    assert!(request.validate("club").is_ok());
    let post = Post::try_from(request).unwrap();
    assert!(post.comments.is_empty());
    assert_ne!(post._id, EntityId { value: 1 });
    assert_eq!(post.title, "Hello");
    assert_eq!(post.date_created, NEW_YEAR_2024);
}

#[test]
fn post_convert_keeps_identity_and_fails_on_bad_date() {
    let request = |date: &str| PostRequest {
        id: String::new(),
        author: "hunter_2".to_string(),
        email: "1234567@pdsb.net".to_string(),
        date_created: date.to_string(),
        title: "Hello".to_string(),
        body: "a body of twenty characters".to_string(),
        comments: vec![comment_at(1, "alice")],
    };
    let post = Post::convert(request("2024-01-01T00:00:00Z"), EntityId { value: 8 }).unwrap();
    assert_eq!(post._id, EntityId { value: 8 });
    assert!(post.comments.is_empty());
    assert!(Post::convert(request("2024"), EntityId { value: 8 }).is_err());
}

fn general_request() -> GeneralMemberRequest {
    GeneralMemberRequest {
        full_name: "Mary O'Neil".to_string(),
        email: "1234567@pdsb.net".to_string(),
        grade: 10,
        skills: 55,
        extra: String::new(),
        date_created: "2024-01-01T00:00:00Z".to_string(),
    }
}

#[test]
fn general_member_request_rules() {
    assert!(general_request().validate().is_ok());
    let request = GeneralMemberRequest {
        full_name: "M".to_string(),
        email: "club@gmail.com".to_string(),
        grade: 13,
        skills: 101,
        extra: "x".repeat(351),
        date_created: "2024-01-01T00:00:00Z".to_string(),
    };
    assert_eq!(
        request.validate(),
        Err(vec![
            Violation::FullName,
            Violation::Email,
            Violation::Grade,
            Violation::Skills,
            Violation::MemberExtra,
        ])
    );
    let mut request = general_request();
    request.grade = 8;
    assert_eq!(request.validate(), Err(vec![Violation::Grade]));
}

#[test]
fn general_member_conversion() {
    let member = GeneralMember::try_from(general_request()).unwrap();
    assert_eq!(member.full_name, "Mary O'Neil");
    assert_eq!(member.email, "1234567@pdsb.net");
    assert_eq!(member.grade, 10);
    assert_eq!(member.skills, 55);
    assert_eq!(member.extra, "");
    assert_eq!(member.date_created, NEW_YEAR_2024);
    let kept = GeneralMember::convert(general_request(), EntityId { value: 4 }).unwrap();
    assert_eq!(kept._id, EntityId { value: 4 });
    let mut bad = general_request();
    bad.date_created = "today".to_string();
    assert!(GeneralMember::try_from(bad).is_err());
}

fn executive_request() -> ExecutiveMemberRequest {
    ExecutiveMemberRequest {
        full_name: "José Álvarez".to_string(),
        email: "123456@pdsb.net".to_string(),
        grade: 12,
        exec_type: "events".to_string(),
        why: "I like events".to_string(),
        experience: "Ran two fairs".to_string(),
        portfolio: String::new(),
        extra: String::new(),
        date_created: "2024-01-01T00:00:00Z".to_string(),
    }
}

#[test]
fn executive_member_request_rules() {
    assert!(executive_request().validate().is_ok());
    let request = ExecutiveMemberRequest {
        full_name: "J0sé".to_string(),
        email: "123456@pdsb.com".to_string(),
        grade: 7,
        exec_type: "sales".to_string(),
        why: String::new(),
        experience: "e".repeat(601),
        portfolio: "see my site".to_string(),
        extra: "x".repeat(201),
        date_created: "2024-01-01T00:00:00Z".to_string(),
    };
    assert_eq!(
        request.validate(),
        Err(vec![
            Violation::FullName,
            Violation::Email,
            Violation::Grade,
            Violation::ExecType,
            Violation::Why,
            Violation::Experience,
            Violation::Portfolio,
            Violation::ExecutiveExtra,
        ])
    );
    let mut request = executive_request();
    request.portfolio = "https://example.com/me".to_string();
    request.extra = "x".repeat(200);
    assert!(request.validate().is_ok());
}

#[test]
fn executive_member_conversion() {
    let member = ExecutiveMember::try_from(executive_request()).unwrap();
    assert_eq!(member.full_name, "José Álvarez");
    assert_eq!(member.exec_type, "events");
    assert_eq!(member.why, "I like events");
    assert_eq!(member.experience, "Ran two fairs");
    assert_eq!(member.grade, 12);
    assert_eq!(member.date_created, NEW_YEAR_2024);
    let kept = ExecutiveMember::convert(executive_request(), EntityId { value: 6 }).unwrap();
    assert_eq!(kept._id, EntityId { value: 6 });
    let mut bad = executive_request();
    bad.date_created = String::new();
    assert!(ExecutiveMember::convert(bad, EntityId { value: 6 }).is_err());
}

#[test]
fn resource_conversion_never_fails() {
    let request = || ResourceRequest {
        title: "Guide".to_string(),
        link: "https://example.com".to_string(),
        tags: vec!["rust".to_string(), "proofs".to_string()],
        description: "How to".to_string(),
    };
    let resource = Resource::try_from(request()).unwrap();
    assert_eq!(resource.title, "Guide");
    assert_eq!(resource.tags, vec!["rust".to_string(), "proofs".to_string()]);
    let other = Resource::try_from(request()).unwrap();
    assert_ne!(resource._id, other._id);
    let kept = Resource::convert(request(), EntityId { value: 2 });
    assert_eq!(kept._id, EntityId { value: 2 });
    let back = kept.to_request();
    assert_eq!(back.title, "Guide");
    assert_eq!(back.link, "https://example.com");
    assert_eq!(back.description, "How to");
    assert_eq!(back.tags.len(), 2);
}

#[test]
fn comment_to_bson_round_trips() {
    let comment = comment_at(5, "alice");
    let document = comment.to_bson();
    assert_eq!(document.id, Some(EntityId { value: 5 }));
    assert_eq!(document.author.as_deref(), Some("alice"));
    assert_eq!(document.email.as_deref(), Some("1234567@pdsb.net"));
    assert_eq!(document.date_created, Some(NEW_YEAR_2024));
    assert_eq!(document.body.as_deref(), Some("a body of twenty characters"));
    let back = Comment::from_document(document, EntityId { value: 99 }, 0);
    assert_eq!(back._id, comment._id);
    assert_eq!(back.author, comment.author);
    assert_eq!(back.email, comment.email);
    assert_eq!(back.date_created, comment.date_created);
    assert_eq!(back.body, comment.body);
}
