use rustbreak::protocol::{
    answer_command, choice_announcement, classify_client_line, find_available_session, join_announcement,
    leave_announcement, registration_name, ClientCommand,
};
use rustbreak::text::{eq_ignore_ascii_case, is_whitespace_char, starts_with, suffix_from, trim, usize_text};

fn describe(c: ClientCommand) -> (&'static str, String) {
    match c {
        ClientCommand::Answer(a) => ("answer", a),
        ClientCommand::InvalidAnswer(a) => ("invalid", a),
        ClientCommand::Chat(a) => ("chat", a),
    }
}

#[test]
fn answers_are_recognised() {
    assert_eq!(describe(classify_client_line("/answer a")), ("answer", "a".to_string()));
    assert_eq!(describe(classify_client_line("  /answer   C  \r\n")), ("answer", "C".to_string()));
    assert_eq!(describe(classify_client_line("/answer d\n")), ("answer", "d".to_string()));
}

#[test]
fn invalid_answers_get_a_reply() {
    assert_eq!(
        describe(classify_client_line("/answer e")),
        ("invalid", "Alternativa 'e' inválida! Por favor responda com A, B, C ou D.".to_string())
    );
    assert_eq!(
        describe(classify_client_line("/answer ab")),
        ("invalid", "Alternativa 'ab' inválida! Por favor responda com A, B, C ou D.".to_string())
    );
    assert_eq!(
        describe(classify_client_line("/answer    ")),
        ("chat", "/answer".to_string())
    );
    assert_eq!(
        describe(classify_client_line("/answer  \u{00a0}")),
        ("chat", "/answer".to_string())
    );
}

#[test]
fn other_lines_are_chat() {
    assert_eq!(describe(classify_client_line("  hello there \n")), ("chat", "hello there".to_string()));
    assert_eq!(describe(classify_client_line("/answerb")), ("chat", "/answerb".to_string()));
    assert_eq!(describe(classify_client_line("/ANSWER a")), ("chat", "/ANSWER a".to_string()));
    assert_eq!(describe(classify_client_line("")), ("chat", "".to_string()));
}

#[test]
fn registration_names_are_trimmed() {
    assert_eq!(registration_name("  ana \n"), Some("ana".to_string()));
    assert_eq!(registration_name(" \t\r\n"), None);
    assert_eq!(registration_name(""), None);
    assert_eq!(registration_name("joão silva\n"), Some("joão silva".to_string()));
}

#[test]
fn first_session_with_room_is_chosen() {
    assert_eq!(find_available_session(&vec![3, 2, 1]), Some(1));
    assert_eq!(find_available_session(&vec![0]), Some(0));
    assert_eq!(find_available_session(&vec![3, 3]), None);
    assert_eq!(find_available_session(&vec![]), None);
    assert_eq!(find_available_session(&vec![3, 4, 2]), Some(2));
}

#[test]
fn announcements() {
    assert_eq!(join_announcement("ana"), "ana entrou no chat!");
    assert_eq!(leave_announcement("bia"), "bia deixou o chat!");
    assert_eq!(choice_announcement("caio", "b"), "caio escolheu a resposta b");
}

#[test]
fn whitespace_of_every_kind_is_trimmed() {
    assert_eq!(
        describe(classify_client_line(" \u{3000}/answer \u{2029}b\t\u{85}")),
        ("answer", "b".to_string())
    );
    assert_eq!(registration_name("\u{feff}ana"), Some("\u{feff}ana".to_string()));
    assert_eq!(registration_name("\u{200b}"), Some("\u{200b}".to_string()));
}

#[test]
fn prefix_and_suffix_helpers() {
    assert!(starts_with("/answer a", "/answer "));
    assert!(!starts_with("/ans", "/answer "));
    assert!(starts_with("ção", "çã"));
    assert!(starts_with("abc", ""));
    assert_eq!(suffix_from("çãoxyz", 3), "xyz");
    assert_eq!(suffix_from("abc", 3), "");
}

#[test]
fn answer_command_decides_on_the_lowered_text() {
    assert_eq!(describe(answer_command("B".to_string(), "b")), ("answer", "B".to_string()));
    assert_eq!(describe(answer_command("d".to_string(), "d")), ("answer", "d".to_string()));
    assert_eq!(
        describe(answer_command("B".to_string(), "B")),
        ("invalid", "Alternativa 'B' inválida! Por favor responda com A, B, C ou D.".to_string())
    );
    assert_eq!(
        describe(answer_command("e".to_string(), "e")),
        ("invalid", "Alternativa 'e' inválida! Por favor responda com A, B, C ou D.".to_string())
    );
}

#[test]
fn trimming_and_case_folding_match_std() {
    for s in ["", "  a  ", "\u{3000}x y\u{2029}\t", "\u{feff} b", "\u{85}\u{a0}", "plain", " ç "] {
        assert_eq!(trim(s), s.trim());
    }
    for c in ['\t', '\n', ' ', '\u{85}', '\u{a0}', '\u{1680}', '\u{2000}', '\u{200a}', '\u{202f}', '\u{205f}', '\u{3000}', 'a', '\u{200b}', '\u{feff}'] {
        assert_eq!(is_whitespace_char(c), c.is_whitespace());
    }
    for (a, b) in [("AbC", "aBc"), ("Ä", "ä"), ("ab", "abc"), ("", ""), ("[", "{"), ("@", "`"), ("Z", "z")] {
        assert_eq!(eq_ignore_ascii_case(a, b), a.eq_ignore_ascii_case(b));
    }
    for n in [0usize, 7, 10, 99, 1207, usize::MAX] {
        assert_eq!(usize_text(n), n.to_string());
    }
}
