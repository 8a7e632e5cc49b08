use cybertech_server::rules::{
    check_exec_type, check_full_name, check_grade, check_handle, check_line,
    check_member_email, check_password, check_portfolio, check_school_email, check_skills,
    check_system_email, check_team, check_url, check_username, joined_messages, system_email,
    CharSet, Violation,
};
use regex::Regex;

fn repeat(c: char, n: usize) -> String {
    std::iter::repeat(c).take(n).collect()
}

#[test]
fn handle_length_bounds() {
    assert!(!check_handle(""));
    assert!(!check_handle("a"));
    assert!(check_handle("ab"));
    assert!(check_handle(&repeat('x', 20)));
    assert!(!check_handle(&repeat('x', 21)));
}

#[test]
fn handle_takes_every_allowed_mark() {
    assert!(check_handle("a.b_c%d+e-f"));
    assert!(check_handle("AZaz09"));
}

#[test]
fn handle_refuses_other_characters() {
    assert!(!check_handle("a b"));
    assert!(!check_handle("a@b"));
    assert!(!check_handle("ab\n"));
    assert!(!check_handle("é!"));
    assert!(!check_handle("The Team"));
}

#[test]
fn username_is_a_handle_or_the_team() {
    assert!(check_username("The Team"));
    assert!(check_username("hunter_2"));
    assert!(!check_username("the team"));
    assert!(!check_username("The Team "));
    assert!(!check_username("x"));
}

#[test]
fn team_is_only_the_team() {
    assert!(check_team("The Team"));
    assert!(!check_team("hunter_2"));
    assert!(!check_team(""));
}

#[test]
fn school_email_takes_six_or_seven_digits() {
    assert!(check_school_email("123456@pdsb.net"));
    assert!(check_school_email("1234567@pdsb.net"));
    assert!(!check_school_email("12345@pdsb.net"));
    assert!(!check_school_email("12345678@pdsb.net"));
    assert!(!check_school_email("@pdsb.net"));
}

#[test]
fn school_email_needs_digits_and_the_domain() {
    assert!(!check_school_email("12345a7@pdsb.net"));
    assert!(!check_school_email("1234567@pdsb.org"));
    assert!(!check_school_email("1234567@PDSB.NET"));
    assert!(!check_school_email("1234567@pdsb.net "));
    assert!(!check_school_email("1234567@pdsb.net\n"));
    assert!(!check_school_email(" 1234567@pdsb.net"));
    assert!(!check_school_email(""));
    assert!(!check_school_email("pdsb.net"));
}

#[test]
fn school_domain_dot_is_a_dot() {
    assert!(!check_school_email("1234567@pdsbXnet"));
}

#[test]
fn system_email_is_the_mailbox_at_gmail() {
    assert_eq!(system_email("hbcybertech"), "hbcybertech@gmail.com");
    assert_eq!(system_email(""), "@gmail.com");
    assert!(check_system_email("hbcybertech@gmail.com", "hbcybertech"));
    assert!(!check_system_email("other@gmail.com", "hbcybertech"));
    assert!(!check_system_email("1234567@pdsb.net", "hbcybertech"));
}

#[test]
fn member_email_is_school_or_system() {
    assert!(check_member_email("1234567@pdsb.net", "club"));
    assert!(check_member_email("club@gmail.com", "club"));
    assert!(!check_member_email("someone@gmail.com", "club"));
    assert!(!check_member_email("club@gmail.com", "other"));
}

#[test]
fn password_is_bounded_by_length_only() {
    assert!(check_password(""));
    assert!(check_password("hunter2"));
    assert!(check_password(&repeat('a', 72)));
    assert!(!check_password(&repeat('a', 73)));
    assert!(check_password(&repeat('é', 36)));
    assert!(!check_password(&repeat('é', 37)));
    assert!(check_password("aaaaaaaa"));
}

#[test]
fn full_name_length_bounds() {
    assert!(!check_full_name("A"));
    assert!(check_full_name("Al"));
    assert!(check_full_name(&repeat('a', 40)));
    assert!(!check_full_name(&repeat('a', 41)));
}

#[test]
fn full_name_takes_letters_spaces_apostrophes() {
    assert!(check_full_name("Mary O'Neil"));
    assert!(check_full_name("José Álvarez"));
    assert!(check_full_name("Zoë Škoda"));
    assert!(check_full_name("Nguyễn Thị"));
    assert!(!check_full_name("Mary-Jane"));
    assert!(!check_full_name("R2 D2"));
    assert!(!check_full_name("Mary\tJane"));
    assert!(!check_full_name("李小龍"));
}

#[test]
fn full_name_range_edges() {
    for edge in [
        ('\u{00C0}', true),
        ('\u{00BF}', false),
        ('\u{00D6}', true),
        ('\u{00D7}', false),
        ('\u{00D8}', true),
        ('\u{00F6}', true),
        ('\u{00F7}', false),
        ('\u{00F8}', true),
        ('\u{012F}', true),
        ('\u{0130}', false),
        ('\u{0133}', false),
        ('\u{0134}', true),
        ('\u{0151}', true),
        ('\u{0152}', false),
        ('\u{0154}', true),
        ('\u{017E}', true),
        ('\u{017F}', false),
        ('\u{0180}', true),
        ('\u{0193}', true),
        ('\u{0194}', false),
        ('\u{0197}', true),
        ('\u{019A}', true),
        ('\u{019B}', false),
        ('\u{019D}', true),
        ('\u{01A1}', true),
        ('\u{01A2}', false),
        ('\u{01A4}', true),
        ('\u{01A5}', true),
        ('\u{01A6}', false),
        ('\u{01AB}', true),
        ('\u{01B0}', true),
        ('\u{01B1}', false),
        ('\u{01B2}', true),
        ('\u{01B6}', true),
        ('\u{01B7}', false),
        ('\u{01CD}', true),
        ('\u{01F0}', true),
        ('\u{01F1}', false),
        ('\u{01F4}', true),
        ('\u{01F5}', true),
        ('\u{01F6}', false),
        ('\u{01F8}', true),
        ('\u{021B}', true),
        ('\u{021C}', false),
        ('\u{021E}', true),
        ('\u{021F}', true),
        ('\u{0220}', false),
        ('\u{0224}', true),
        ('\u{0233}', true),
        ('\u{0234}', false),
        ('\u{0243}', true),
        ('\u{0244}', false),
        ('\u{0246}', true),
        ('\u{024F}', true),
        ('\u{0250}', false),
        ('\u{1E00}', true),
        ('\u{1E9E}', true),
        ('\u{1E9F}', false),
        ('\u{1EA0}', true),
        ('\u{1EFF}', true),
        ('\u{1F00}', false),
        ('@', false),
        ('[', false),
        ('`', false),
        ('{', false),
    ] {
        assert_eq!(CharSet::NameLetters.has(edge.0), edge.1, "U+{:04X}", edge.0 as u32);
    }
}

#[test]
fn char_sets_decide_membership() {
    assert!(CharSet::Digits.has('0'));
    assert!(CharSet::Digits.has('9'));
    assert!(!CharSet::Digits.has('/'));
    assert!(!CharSet::Digits.has(':'));
    assert!(!CharSet::Digits.has('٣'));
    assert!(CharSet::Handle.has('%'));
    assert!(!CharSet::Handle.has('#'));
    assert!(CharSet::Line.has('\r'));
    assert!(!CharSet::Line.has('\n'));
    assert!(CharSet::Unspaced.has('x'));
    assert!(!CharSet::Unspaced.has(' '));
    assert!(!CharSet::Unspaced.has('\t'));
    assert!(!CharSet::Unspaced.has('\r'));
    assert!(!CharSet::Unspaced.has('\n'));
}

#[test]
fn grade_is_nine_to_twelve() {
    assert!(!check_grade(8));
    assert!(check_grade(9));
    assert!(check_grade(10));
    assert!(check_grade(12));
    assert!(!check_grade(13));
    assert!(!check_grade(0));
}

#[test]
fn skills_is_zero_to_hundred() {
    assert!(check_skills(0));
    assert!(check_skills(100));
    assert!(!check_skills(101));
    assert!(!check_skills(255));
}

#[test]
fn exec_type_is_one_of_three() {
    assert!(check_exec_type("development"));
    assert!(check_exec_type("marketing"));
    assert!(check_exec_type("events"));
    assert!(!check_exec_type("Development"));
    assert!(!check_exec_type("finance"));
    assert!(!check_exec_type(""));
    assert!(!check_exec_type("events "));
}

#[test]
fn line_counts_characters_not_bytes() {
    assert!(check_line(&repeat('é', 20), 20, 600));
    assert!(!check_line(&repeat('é', 19), 20, 600));
    assert!(check_line(&repeat('é', 600), 20, 600));
    assert!(!check_line(&repeat('é', 601), 20, 600));
}

#[test]
fn line_bounds_of_each_field() {
    assert!(!check_line("four", 5, 20));
    assert!(check_line("fiver", 5, 20));
    assert!(check_line(&repeat('t', 20), 5, 20));
    assert!(!check_line(&repeat('t', 21), 5, 20));
    assert!(check_line("", 0, 200));
    assert!(check_line(&repeat('x', 200), 0, 200));
    assert!(!check_line(&repeat('x', 201), 0, 200));
    assert!(check_line(&repeat('x', 350), 0, 350));
    assert!(!check_line(&repeat('x', 351), 0, 350));
    assert!(!check_line("", 1, 600));
    assert!(check_line("y", 1, 600));
}

#[test]
fn line_refuses_a_line_feed() {
    let mut body = repeat('b', 30);
    assert!(check_line(&body, 20, 600));
    body.push('\n');
    assert!(!check_line(&body, 20, 600));
    assert!(check_line("carriage\rreturn is no line feed", 20, 600));
}

#[test]
fn url_needs_a_scheme_and_something_after_it() {
    assert!(check_url("http://a"));
    assert!(check_url("https://example.com/portfolio?x=1"));
    assert!(!check_url("http://"));
    assert!(!check_url("https://"));
    assert!(!check_url("ftp://example.com"));
    assert!(!check_url("example.com"));
    assert!(!check_url("https://exa mple.com"));
    assert!(!check_url("https://example.com\n"));
    assert!(!check_url("HTTPS://example.com"));
    assert!(!check_url(""));
}

#[test]
fn portfolio_may_be_left_empty() {
    assert!(check_portfolio(""));
    assert!(check_portfolio("https://example.com"));
    assert!(!check_portfolio("my portfolio"));
    assert!(!check_portfolio(" "));
}

#[test]
fn violation_messages_are_exact() {
    assert_eq!(Violation::Username.message(), "Invalid username.");
    assert_eq!(Violation::Email.message(), "Email must be a valid PDSB email.");
    assert_eq!(Violation::Password.message(), "Invalid password length.");
    assert_eq!(Violation::FullName.message(), "Invalid name.");
    assert_eq!(Violation::Grade.message(), "Grade should be 9, 10, 11, or 12.");
    assert_eq!(Violation::Skills.message(), "Skills should be from 0 to 100.");
    assert_eq!(
        Violation::ExecType.message(),
        "Invalid exec type. Must be development, marketing, or events."
    );
    assert_eq!(Violation::Why.message(), "Why should be from 1 to 600 characters.");
    assert_eq!(
        Violation::Experience.message(),
        "Experience should be from 1 to 600 characters."
    );
    assert_eq!(Violation::Portfolio.message(), "Portfolio should be a link or left empty.");
    assert_eq!(Violation::MemberExtra.message(), "Extra information should be from 0 to 350.");
    assert_eq!(
        Violation::ExecutiveExtra.message(),
        "Extra information should be from 0 to 200."
    );
    assert_eq!(Violation::Title.message(), "Invalid title length.");
    assert_eq!(Violation::Body.message(), "Invalid body length.");
}

#[test]
fn joined_messages_puts_one_sentence_per_line() {
    assert_eq!(joined_messages(&vec![]), "");
    assert_eq!(joined_messages(&vec![Violation::Title]), "Invalid title length.");
    assert_eq!(
        joined_messages(&vec![Violation::Username, Violation::Email, Violation::Body]),
        "Invalid username.\nEmail must be a valid PDSB email.\nInvalid body length."
    );
}

fn samples() -> Vec<String> {
    let mut all: Vec<String> = vec![
        "", "a", "ab", "The Team", "hunter_2", "a b", "x.y", "rené", "Mary O'Neil", "José",
        "1234567@pdsb.net", "123456@pdsb.net", "12345@pdsb.net", "development", "events",
        "marketing", "Zoë Škoda", "with\nnewline", "tab\there", "ÀÖØöøįĴőŔž", "ǍǰǴǵǸțȞȟȤȳɃɆɏ",
        "ḀẞƀƓƗƚƝơƤƥƫưƲƶẠỿ", "×", "÷", "a-b", "a+b", "%%", "under_score", "UPPER", "İ", "ĳ",
        "A1", "__", "..", "a/b", "semi;colon",
    ]
    .into_iter()
    .map(|s| s.to_string())
    .collect();
    for n in [1usize, 2, 4, 5, 19, 20, 21, 40, 41, 199, 200, 201, 350, 351, 599, 600, 601] {
        all.push(repeat('q', n));
        all.push(repeat('ü', n));
        all.push(repeat(' ', n));
    }
    all
}

#[test]
fn handle_agrees_with_its_pattern() {
    let pattern = Regex::new(r"^[a-zA-Z0-9._%+-]{2,20}$").unwrap();
    for sample in samples() {
        assert_eq!(check_handle(&sample), pattern.is_match(&sample), "{:?}", sample);
    }
}

#[test]
fn full_name_agrees_with_its_pattern() {
    let pattern = Regex::new(
        "^[A-Za-z\u{C0}-\u{D6}\u{D8}-\u{F6}\u{F8}-\u{12F}\u{134}-\u{151}\u{154}-\u{17E}\u{1CD}-\u{1F0}\u{1F4}-\u{1F5}\u{1F8}-\u{21B}\u{21E}-\u{21F}\u{224}-\u{233}\u{243}\u{246}-\u{24F}\u{1E00}-\u{1E9E}\u{180}-\u{193}\u{197}-\u{19A}\u{19D}-\u{1A1}\u{1A4}-\u{1A5}\u{1AB}-\u{1B0}\u{1B2}-\u{1B6}\u{1EA0}-\u{1EFF} ']{2,40}$",
    )
    .unwrap();
    for sample in samples() {
        assert_eq!(check_full_name(&sample), pattern.is_match(&sample), "{:?}", sample);
    }
}

#[test]
fn exec_type_agrees_with_its_pattern() {
    let pattern = Regex::new(r"^(development|marketing|events)$").unwrap();
    for sample in samples() {
        assert_eq!(check_exec_type(&sample), pattern.is_match(&sample), "{:?}", sample);
    }
}

#[test]
fn lines_agree_with_their_patterns() {
    let bounds: [(usize, usize, &str); 6] = [
        (20, 600, r"^.{20,600}$"),
        (5, 20, r"^.{5,20}$"),
        (0, 200, r"^.{0,200}$"),
        (1, 600, r"^.{1,600}$"),
        (0, 350, r"^.{0,350}$"),
        (2, 40, r"^.{2,40}$"),
    ];
    for (min, max, text) in bounds {
        let pattern = Regex::new(text).unwrap();
        for sample in samples() {
            assert_eq!(check_line(&sample, min, max), pattern.is_match(&sample), "{:?}", sample);
        }
    }
}

#[test]
fn school_email_agrees_with_its_pattern_on_samples() {
    let pattern = Regex::new(r"^[0-9]{6,7}@pdsb\.net$").unwrap();
    for sample in samples() {
        assert_eq!(check_school_email(&sample), pattern.is_match(&sample), "{:?}", sample);
    }
    for sample in ["1234567@pdsb.net", "0000000@pdsb.net", "1234567@pdsbxnet", "١٢٣٤٥٦@pdsb.net"] {
        assert_eq!(check_school_email(sample), pattern.is_match(sample), "{:?}", sample);
    }
}
