//! The rule table of the request fields: what each kind of field may hold,
//! as a predicate over its characters, and the check that decides it.

use crate::text::{chars_of, ends_with, same_text, starts_with};
use vstd::prelude::*;
use vstd::utf8::encode_utf8;

verus! {

/// A class of characters that a field is built from.
#[derive(Clone, Copy, Debug)]
pub enum CharSet {
    /// `0` to `9`.
    Digits,
    /// ASCII letters, digits and the marks `. _ % + -`.
    Handle,
    /// Letters of names: ASCII and extended Latin letters, space, apostrophe.
    NameLetters,
    /// Anything but a line feed.
    Line,
    /// Anything but a space, a tab, a line feed or a carriage return.
    Unspaced,
}

pub open spec fn is_digit(c: char) -> bool {
    '0' <= c <= '9'
}

pub open spec fn is_ascii_letter(c: char) -> bool {
    ('a' <= c <= 'z') || ('A' <= c <= 'Z')
}

pub open spec fn is_handle_char(c: char) -> bool {
    is_ascii_letter(c) || is_digit(c) || c == '.' || c == '_' || c == '%' || c == '+' || c == '-'
}

/// The extended Latin letters that a name may hold besides the ASCII ones.
pub open spec fn is_latin_extended_letter(c: char) -> bool {
    ||| '\u{00C0}' <= c <= '\u{00D6}'
    ||| '\u{00D8}' <= c <= '\u{00F6}'
    ||| '\u{00F8}' <= c <= '\u{012F}'
    ||| '\u{0134}' <= c <= '\u{0151}'
    ||| '\u{0154}' <= c <= '\u{017E}'
    ||| '\u{0180}' <= c <= '\u{0193}'
    ||| '\u{0197}' <= c <= '\u{019A}'
    ||| '\u{019D}' <= c <= '\u{01A1}'
    ||| '\u{01A4}' <= c <= '\u{01A5}'
    ||| '\u{01AB}' <= c <= '\u{01B0}'
    ||| '\u{01B2}' <= c <= '\u{01B6}'
    ||| '\u{01CD}' <= c <= '\u{01F0}'
    ||| '\u{01F4}' <= c <= '\u{01F5}'
    ||| '\u{01F8}' <= c <= '\u{021B}'
    ||| '\u{021E}' <= c <= '\u{021F}'
    ||| '\u{0224}' <= c <= '\u{0233}'
    ||| c == '\u{0243}'
    ||| '\u{0246}' <= c <= '\u{024F}'
    ||| '\u{1E00}' <= c <= '\u{1E9E}'
    ||| '\u{1EA0}' <= c <= '\u{1EFF}'
}

pub open spec fn is_name_char(c: char) -> bool {
    is_ascii_letter(c) || is_latin_extended_letter(c) || c == ' ' || c == '\''
}

pub open spec fn is_blank(c: char) -> bool {
    c == ' ' || c == '\t' || c == '\n' || c == '\r'
}

impl CharSet {
    /// Membership of `c` in the class.
    pub open spec fn holds(self, c: char) -> bool {
        match self {
            CharSet::Digits => is_digit(c),
            CharSet::Handle => is_handle_char(c),
            CharSet::NameLetters => is_name_char(c),
            CharSet::Line => c != '\n',
            CharSet::Unspaced => !is_blank(c),
        }
    }

    /// Decides membership of `c` in the class.
    pub fn has(self, c: char) -> (member: bool)
        ensures
            member == self.holds(c),
    {
        let letter = ('a' <= c && c <= 'z') || ('A' <= c && c <= 'Z');
        let digit = '0' <= c && c <= '9';
        match self {
            CharSet::Digits => digit,
            CharSet::Handle => letter || digit || c == '.' || c == '_' || c == '%' || c == '+'
                || c == '-',
            CharSet::NameLetters => letter || extended_letter(c) || c == ' ' || c == '\'',
            CharSet::Line => c != '\n',
            CharSet::Unspaced => !(c == ' ' || c == '\t' || c == '\n' || c == '\r'),
        }
    }
}

fn extended_letter(c: char) -> (member: bool)
    ensures
        member == is_latin_extended_letter(c),
{
    ('\u{00C0}' <= c && c <= '\u{00D6}') || ('\u{00D8}' <= c && c <= '\u{00F6}') || ('\u{00F8}'
        <= c && c <= '\u{012F}') || ('\u{0134}' <= c && c <= '\u{0151}') || ('\u{0154}' <= c && c
        <= '\u{017E}') || ('\u{0180}' <= c && c <= '\u{0193}') || ('\u{0197}' <= c && c
        <= '\u{019A}') || ('\u{019D}' <= c && c <= '\u{01A1}') || ('\u{01A4}' <= c && c
        <= '\u{01A5}') || ('\u{01AB}' <= c && c <= '\u{01B0}') || ('\u{01B2}' <= c && c
        <= '\u{01B6}') || ('\u{01CD}' <= c && c <= '\u{01F0}') || ('\u{01F4}' <= c && c
        <= '\u{01F5}') || ('\u{01F8}' <= c && c <= '\u{021B}') || ('\u{021E}' <= c && c
        <= '\u{021F}') || ('\u{0224}' <= c && c <= '\u{0233}') || c == '\u{0243}' || ('\u{0246}'
        <= c && c <= '\u{024F}') || ('\u{1E00}' <= c && c <= '\u{1E9E}') || ('\u{1EA0}' <= c && c
        <= '\u{1EFF}')
}

/// Every character of `s` belongs to `set`.
pub open spec fn all_in(s: Seq<char>, set: CharSet) -> bool {
    forall|i: int| 0 <= i < s.len() ==> set.holds(#[trigger] s[i])
}

/// `s` is `min` to `max` characters long, all of them from `set`.
pub open spec fn is_run(s: Seq<char>, set: CharSet, min: int, max: int) -> bool {
    min <= s.len() <= max && all_in(s, set)
}

/// Decides whether the characters `from..to` of `chars` all belong to `set`.
pub fn check_all_in(chars: &Vec<char>, from: usize, to: usize, set: CharSet) -> (ok: bool)
    requires
        from <= to <= chars.len(),
    ensures
        ok == all_in(chars@.subrange(from as int, to as int), set),
{
    let ghost part = chars@.subrange(from as int, to as int);
    let mut i: usize = from;
    while i < to
        invariant
            from <= i <= to <= chars.len(),
            part == chars@.subrange(from as int, to as int),
            forall|k: int| 0 <= k < i - from ==> set.holds(#[trigger] part[k]),
        decreases to - i,
    {
        if !set.has(chars[i]) {
            assert(!set.holds(part[i - from]));
            return false;
        }
        i += 1;
    }
    true
}

/// Decides `is_run`.
pub fn check_run(chars: &Vec<char>, set: CharSet, min: usize, max: usize) -> (ok: bool)
    ensures
        ok == is_run(chars@, set, min as int, max as int),
{
    if chars.len() < min || chars.len() > max {
        return false;
    }
    assert(chars@.subrange(0, chars@.len() as int) =~= chars@);
    check_all_in(chars, 0, chars.len(), set)
}

/// The name that stands for the club itself as an author.
pub open spec fn team_name() -> Seq<char> {
    "The Team"@
}

/// The domain part that every school address ends with.
pub open spec fn school_domain() -> Seq<char> {
    "@pdsb.net"@
}

/// The domain part of the club's own mailbox.
pub open spec fn system_domain() -> Seq<char> {
    "@gmail.com"@
}

/// The address of the club's own mailbox named `mailbox`.
pub open spec fn system_address(mailbox: Seq<char>) -> Seq<char> {
    mailbox + system_domain()
}

/// A handle: 2 to 20 characters of `CharSet::Handle`.
pub open spec fn is_handle(s: Seq<char>) -> bool {
    is_run(s, CharSet::Handle, 2, 20)
}

/// A user name: a handle, or the team's name.
pub open spec fn is_username(s: Seq<char>) -> bool {
    is_handle(s) || s == team_name()
}

/// A school address: six or seven digits, then the school's domain.
pub open spec fn is_school_email(s: Seq<char>) -> bool {
    exists|local: Seq<char>| #[trigger]
        is_run(local, CharSet::Digits, 6, 7) && s == local + school_domain()
}

/// An address a member may use: a school address, or the club's own mailbox.
pub open spec fn is_member_email(s: Seq<char>, mailbox: Seq<char>) -> bool {
    is_school_email(s) || s == system_address(mailbox)
}

/// The team's name and nothing else: who signs an announcement.
pub open spec fn is_team(s: Seq<char>) -> bool {
    s == team_name()
}

/// The club's own mailbox and nothing else.
pub open spec fn is_system_email(s: Seq<char>, mailbox: Seq<char>) -> bool {
    s == system_address(mailbox)
}

/// A password: at most 72 bytes long in UTF-8, which is as far as the hash
/// reads, whatever the characters are.
pub open spec fn is_password(s: Seq<char>) -> bool {
    encode_utf8(s).len() <= 72
}

/// A full name: 2 to 40 characters of `CharSet::NameLetters`.
pub open spec fn is_full_name(s: Seq<char>) -> bool {
    is_run(s, CharSet::NameLetters, 2, 40)
}

pub open spec fn is_grade(grade: u8) -> bool {
    9 <= grade <= 12
}

pub open spec fn is_skills(skills: u8) -> bool {
    skills <= 100
}

/// One of the three executive teams.
pub open spec fn is_exec_type(s: Seq<char>) -> bool {
    s == "development"@ || s == "marketing"@ || s == "events"@
}

/// A single line of `min` to `max` characters.
pub open spec fn is_line(s: Seq<char>, min: int, max: int) -> bool {
    is_run(s, CharSet::Line, min, max)
}

/// A web address: `http://` or `https://`, then at least one character, and
/// no blank anywhere.
pub open spec fn is_url(s: Seq<char>) -> bool {
    &&& all_in(s, CharSet::Unspaced)
    &&& (exists|rest: Seq<char>| #[trigger]
        rest.len() > 0 && (s == "http://"@ + rest || s == "https://"@ + rest))
}

/// A portfolio link: left empty, or a web address.
pub open spec fn is_portfolio(s: Seq<char>) -> bool {
    s.len() == 0 || is_url(s)
}

/// The address of the club's own mailbox named `mailbox`.
pub fn system_email(mailbox: &str) -> (address: String)
    ensures
        address@ == system_address(mailbox@),
{
    let mut address = mailbox.to_string();
    address.append("@gmail.com");
    address
}

pub fn check_handle(s: &str) -> (ok: bool)
    ensures
        ok == is_handle(s@),
{
    let chars = chars_of(s);
    check_run(&chars, CharSet::Handle, 2, 20)
}

pub fn check_username(s: &str) -> (ok: bool)
    ensures
        ok == is_username(s@),
{
    check_handle(s) || same_text(s, "The Team")
}

pub fn check_school_email(s: &str) -> (ok: bool)
    ensures
        ok == is_school_email(s@),
{
    let chars = chars_of(s);
    let domain = chars_of("@pdsb.net");
    if !ends_with(&chars, &domain) {
        assert(!is_school_email(s@)) by {
            if is_school_email(s@) {
                let local = choose|local: Seq<char>| #[trigger]
                    is_run(local, CharSet::Digits, 6, 7) && s@ == local + school_domain();
                assert(s@.subrange(s@.len() - domain@.len(), s@.len() as int) =~= domain@);
            }
        }
        return false;
    }
    let split: usize = chars.len() - domain.len();
    let ghost local = chars@.subrange(0, split as int);
    assert(s@ =~= local + school_domain());
    let ok = split >= 6 && split <= 7 && check_all_in(&chars, 0, split, CharSet::Digits);
    assert(ok == is_run(local, CharSet::Digits, 6, 7));
    assert(is_school_email(s@) ==> is_run(local, CharSet::Digits, 6, 7)) by {
        if is_school_email(s@) {
            let other = choose|other: Seq<char>| #[trigger]
                is_run(other, CharSet::Digits, 6, 7) && s@ == other + school_domain();
            assert(other =~= (other + school_domain()).subrange(0, other.len() as int));
            assert(other =~= local);
        }
    }
    ok
}

pub fn check_member_email(s: &str, mailbox: &str) -> (ok: bool)
    ensures
        ok == is_member_email(s@, mailbox@),
{
    if check_school_email(s) {
        return true;
    }
    let own = system_email(mailbox);
    same_text(s, own.as_str())
}

pub fn check_team(s: &str) -> (ok: bool)
    ensures
        ok == is_team(s@),
{
    same_text(s, "The Team")
}

pub fn check_system_email(s: &str, mailbox: &str) -> (ok: bool)
    ensures
        ok == is_system_email(s@, mailbox@),
{
    let own = system_email(mailbox);
    same_text(s, own.as_str())
}

pub fn check_password(s: &str) -> (ok: bool)
    ensures
        ok == is_password(s@),
{
    let bytes = s.as_bytes_vec();
    bytes.len() <= 72
}

pub fn check_full_name(s: &str) -> (ok: bool)
    ensures
        ok == is_full_name(s@),
{
    let chars = chars_of(s);
    check_run(&chars, CharSet::NameLetters, 2, 40)
}

pub fn check_grade(grade: u8) -> (ok: bool)
    ensures
        ok == is_grade(grade),
{
    9 <= grade && grade <= 12
}

pub fn check_skills(skills: u8) -> (ok: bool)
    ensures
        ok == is_skills(skills),
{
    skills <= 100
}

pub fn check_exec_type(s: &str) -> (ok: bool)
    ensures
        ok == is_exec_type(s@),
{
    same_text(s, "development") || same_text(s, "marketing") || same_text(s, "events")
}

pub fn check_line(s: &str, min: usize, max: usize) -> (ok: bool)
    ensures
        ok == is_line(s@, min as int, max as int),
{
    let chars = chars_of(s);
    check_run(&chars, CharSet::Line, min, max)
}

pub fn check_url(s: &str) -> (ok: bool)
    ensures
        ok == is_url(s@),
{
    let chars = chars_of(s);
    let plain = chars_of("http://");
    let secure = chars_of("https://");
    assert(chars@.subrange(0, chars@.len() as int) =~= chars@);
    let unspaced = check_all_in(&chars, 0, chars.len(), CharSet::Unspaced);
    let with_plain = starts_with(&chars, &plain) && chars.len() > plain.len();
    let with_secure = starts_with(&chars, &secure) && chars.len() > secure.len();
    proof {
        let p = "http://"@;
        let q = "https://"@;
        if with_plain {
            let rest = s@.subrange(p.len() as int, s@.len() as int);
            assert(s@ =~= p + rest);
            assert(rest.len() > 0 && (s@ == p + rest || s@ == q + rest));
        }
        if with_secure {
            let rest = s@.subrange(q.len() as int, s@.len() as int);
            assert(s@ =~= q + rest);
            assert(rest.len() > 0 && (s@ == p + rest || s@ == q + rest));
        }
        if !with_plain && !with_secure {
            assert forall|rest: Seq<char>|
                !(#[trigger] rest.len() > 0 && (s@ == p + rest || s@ == q + rest)) by {
                if rest.len() > 0 && s@ == p + rest {
                    assert(s@.subrange(0, p.len() as int) =~= p);
                }
                if rest.len() > 0 && s@ == q + rest {
                    assert(s@.subrange(0, q.len() as int) =~= q);
                }
            }
        }
    }
    unspaced && (with_plain || with_secure)
}

pub fn check_portfolio(s: &str) -> (ok: bool)
    ensures
        ok == is_portfolio(s@),
{
    let chars = chars_of(s);
    chars.len() == 0 || check_url(s)
}

/// A rule that a request broke, named after the field it guards.
#[derive(Clone, Copy, Debug, PartialEq, Eq, Structural)]
pub enum Violation {
    Username,
    Email,
    Password,
    FullName,
    Grade,
    Skills,
    ExecType,
    Why,
    Experience,
    Portfolio,
    MemberExtra,
    ExecutiveExtra,
    Title,
    Body,
}

impl Violation {
    /// The sentence shown to the client for this violation.
    pub open spec fn text(self) -> Seq<char> {
        match self {
            Violation::Username => "Invalid username."@,
            Violation::Email => "Email must be a valid PDSB email."@,
            Violation::Password => "Invalid password length."@,
            Violation::FullName => "Invalid name."@,
            Violation::Grade => "Grade should be 9, 10, 11, or 12."@,
            Violation::Skills => "Skills should be from 0 to 100."@,
            Violation::ExecType => "Invalid exec type. Must be development, marketing, or events."@,
            Violation::Why => "Why should be from 1 to 600 characters."@,
            Violation::Experience => "Experience should be from 1 to 600 characters."@,
            Violation::Portfolio => "Portfolio should be a link or left empty."@,
            Violation::MemberExtra => "Extra information should be from 0 to 350."@,
            Violation::ExecutiveExtra => "Extra information should be from 0 to 200."@,
            Violation::Title => "Invalid title length."@,
            Violation::Body => "Invalid body length."@,
        }
    }

    /// The sentence shown to the client for this violation.
    pub fn message(self) -> (message: String)
        ensures
            message@ == self.text(),
    {
        match self {
            Violation::Username => "Invalid username.".to_string(),
            Violation::Email => "Email must be a valid PDSB email.".to_string(),
            Violation::Password => "Invalid password length.".to_string(),
            Violation::FullName => "Invalid name.".to_string(),
            Violation::Grade => "Grade should be 9, 10, 11, or 12.".to_string(),
            Violation::Skills => "Skills should be from 0 to 100.".to_string(),
            Violation::ExecType => "Invalid exec type. Must be development, marketing, or events."
                .to_string(),
            Violation::Why => "Why should be from 1 to 600 characters.".to_string(),
            Violation::Experience => "Experience should be from 1 to 600 characters.".to_string(),
            Violation::Portfolio => "Portfolio should be a link or left empty.".to_string(),
            Violation::MemberExtra => "Extra information should be from 0 to 350.".to_string(),
            Violation::ExecutiveExtra => "Extra information should be from 0 to 200.".to_string(),
            Violation::Title => "Invalid title length.".to_string(),
            Violation::Body => "Invalid body length.".to_string(),
        }
    }
}

/// No violation where the rule held, the one named where it did not.
pub open spec fn unless(held: bool, violation: Violation) -> Seq<Violation> {
    if held {
        Seq::empty()
    } else {
        seq![violation]
    }
}

/// Adds `violation` to `found` unless the rule held.
pub fn note(found: &mut Vec<Violation>, held: bool, violation: Violation)
    ensures
        final(found)@ == old(found)@ + unless(held, violation),
{
    if !held {
        found.push(violation);
        assert(found@ =~= old(found)@ + unless(held, violation));
    } else {
        assert(found@ =~= old(found)@ + unless(held, violation));
    }
}

/// `Ok` for an empty list of violations, the list itself otherwise.
pub fn verdict(found: Vec<Violation>) -> (checked: Result<(), Vec<Violation>>)
    ensures
        checked is Ok <==> found@.len() == 0,
        checked matches Err(list) ==> list@ == found@,
{
    if found.len() == 0 {
        Ok(())
    } else {
        Err(found)
    }
}

/// The sentences of `violations`, one per line, in order.
pub open spec fn joined_text(violations: Seq<Violation>) -> Seq<char>
    decreases violations.len(),
{
    if violations.len() == 0 {
        Seq::empty()
    } else if violations.len() == 1 {
        violations[0].text()
    } else {
        joined_text(violations.drop_last()) + seq!['\n'] + violations.last().text()
    }
}

/// The sentences of `violations`, one per line, in order.
pub fn joined_messages(violations: &Vec<Violation>) -> (joined: String)
    ensures
        joined@ == joined_text(violations@),
{
    let mut joined = String::new();
    let mut i: usize = 0;
    while i < violations.len()
        invariant
            i <= violations.len(),
            joined@ == joined_text(violations@.take(i as int)),
        decreases violations.len() - i,
    {
        let ghost before = violations@.take(i as int);
        let ghost after = violations@.take(i + 1);
        assert(after.drop_last() =~= before);
        assert(after.last() == violations@[i as int]);
        if i > 0 {
            joined.append("\n");
            proof {
                reveal_strlit("\n");
                assert("\n"@ =~= seq!['\n']);
            }
        } else {
            assert(before.len() == 0);
        }
        let sentence = violations[i].message();
        joined.append(sentence.as_str());
        i += 1;
    }
    assert(violations@.take(violations@.len() as int) =~= violations@);
    joined
}

} // verus!
