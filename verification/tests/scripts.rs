use apux::names::{add_name, comes_before};
use apux::script::{count_lines, foreign_env, read_first_line, referenced_env};
use apux::text::{
    begins_with, characters, has_char, holds, is_listed, join, number_text, same, slice_text, split,
};
use std::collections::BTreeSet;

fn strings(list: &[&str]) -> Vec<String> {
    list.iter().map(|s| s.to_string()).collect()
}

#[test]
fn finds_braced_and_unbraced_environment_references() {
    assert_eq!(
        referenced_env("$TOKEN ${DATABASE_URL} $$ $1").into_iter().collect::<BTreeSet<String>>(),
        BTreeSet::from(["DATABASE_URL".into(), "TOKEN".into()])
    );
}

#[test]
fn lists_references_once_and_in_order() {
    assert_eq!(
        referenced_env("$b $a ${b} $B $_x ${a}$a\n$b9."),
        strings(&["B", "_x", "a", "b", "b9"])
    );
    assert_eq!(referenced_env(""), strings(&[]));
}

#[test]
fn follows_braces_and_ends_of_names() {
    assert_eq!(referenced_env("${1} ${} ${A-b} ${A"), strings(&["1"]));
    assert_eq!(referenced_env("$"), strings(&[]));
    assert_eq!(referenced_env("${"), strings(&[]));
    assert_eq!(referenced_env("$$A"), strings(&["A"]));
    assert_eq!(referenced_env("${$A}"), strings(&["A"]));
    assert_eq!(referenced_env("$äA $Aä ${Aä}"), strings(&["A"]));
    assert_eq!(referenced_env("$9A $A-$B"), strings(&["A", "B"]));
}

#[test]
fn parts_of_a_script_refer_to_what_the_whole_does() {
    let first = "echo $HOME ${X";
    let second = "Y} $Z";
    let mut both = referenced_env(first);
    both.extend(referenced_env(second));
    assert_eq!(referenced_env(&format!("{first}\n{second}")), both);
}

#[test]
fn leaves_out_known_variables() {
    assert_eq!(
        foreign_env("$PATH $TOKEN ${0} $HOME $A", &vec!["PATH", "HOME", "0"]),
        strings(&["A", "TOKEN"])
    );
    assert_eq!(foreign_env("$PATH", &vec!["PATH"]), strings(&[]));
}

#[test]
fn agrees_with_the_lines_of_a_string() {
    for text in ["", "a", "a\n", "a\nb", "\n", "\n\n", "a\r\nb", "a\r", "\r\n", "a\r\r\nb\n", "é\n→"] {
        assert_eq!(read_first_line(text), text.lines().next().unwrap_or_default());
        assert_eq!(count_lines(text), text.lines().count());
    }
}

#[test]
fn searches_text() {
    assert!(holds("a./b", "./") && !holds("a. /b", "./") && holds("", "") && holds("ab", "") && !holds("", "a"));
    assert!(holds("aab", "ab") && holds("ab", "ab") && !holds("ba", "ab"));
    assert!(begins_with("./x", "./") && !begins_with(".", "./") && begins_with("", "") && !begins_with("x./", "./"));
    assert!(has_char("a/b", '/') && !has_char("", '/'));
    assert!(same("é", "é") && !same("a", "b") && !same("a", "ab") && same("", ""));
    assert!(is_listed(&strings(&["a", "b"]), "b") && !is_listed(&strings(&["a"]), "b"));
    assert_eq!(characters("aé→"), vec!['a', 'é', '→']);
    assert_eq!(slice_text(&vec!['a', 'é', '→'], 1, 3), "é→");
}

#[test]
fn splits_and_joins_text() {
    for text in ["", ":", "a", "a:b", ":a", "a:", "::", "é:→:x"] {
        assert_eq!(split(text, ':'), text.split(':').map(str::to_string).collect::<Vec<_>>());
        assert_eq!(join(&split(text, ':'), ":"), text);
    }
    assert_eq!(join(&strings(&[]), ", "), "");
    assert_eq!(join(&strings(&["a"]), ", "), "a");
    assert_eq!(join(&strings(&["a", "b", "c"]), ", "), "a, b, c");
}

#[test]
fn writes_numbers() {
    for n in [0, 7, 9, 10, 42, 99, 100, 255, 1000000, usize::MAX] {
        assert_eq!(number_text(n), n.to_string());
    }
}

#[test]
fn orders_names_as_strings_are_ordered() {
    let list = ["", "a", "ab", "b", "B", "A_", "AB", "é", "→", "\u{10000}", "\u{ffff}", "_", "0"];
    for a in list {
        for b in list {
            assert_eq!(comes_before(a, b), a < b);
        }
    }
    let mut names: Vec<String> = Vec::new();
    for name in list.iter().chain(list.iter()) {
        add_name(&mut names, name.to_string());
    }
    assert_eq!(names, list.iter().map(|s| s.to_string()).collect::<BTreeSet<_>>().into_iter().collect::<Vec<_>>());
}
