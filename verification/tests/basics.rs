//! Text, numbers, paths, JSON and lists.

use opsctl::hex::{hex_decode, hex_encode};
use opsctl::json::{json_get, json_text_at, parse_json, print_json, Json};
use opsctl::list::{less, unique_sorted};
use opsctl::number::{count_text, padded_text, parse_unsigned, signed_text, wide_signed_text};
use opsctl::pairs::{get_value, set_value};
use opsctl::paths::{
    extension, file_name, has_parent_component, is_absolute, parent, path_is_within, path_join,
    same_path,
};
use opsctl::text::{
    contains, join, shell_arg_hint, split, split_lines, split_once, strip_prefix, to_lower, trim,
};
use opsctl::words::{get_first_line, only_plain_chars, split_words};

#[test]
fn hexadecimal_reads_back() {
    let bytes: Vec<u8> = (0..=255).collect();
    let text = hex_encode(&bytes);
    assert_eq!(&text[..8], "00010203");
    assert_eq!(&text[508..], "feff");
    assert_eq!(hex_decode(&text, 256), Some(bytes));
    assert_eq!(hex_decode("FF0a", 2), Some(vec![255, 10]));
    assert_eq!(hex_decode("ff0", 2), None);
    assert_eq!(hex_decode("fg", 1), None);
}

#[test]
fn numbers_read_back() {
    for n in [0usize, 7, 10, 12345, usize::MAX] {
        assert_eq!(count_text(n), n.to_string());
        assert_eq!(parse_unsigned(&count_text(n), u64::MAX), Some(n as u64));
    }
    assert_eq!(signed_text(i64::MIN), i64::MIN.to_string());
    assert_eq!(signed_text(-1), "-1");
    assert_eq!(wide_signed_text(i128::MIN), i128::MIN.to_string());
    assert_eq!(wide_signed_text(i128::MAX), i128::MAX.to_string());
    assert_eq!(padded_text(7, 4), "0007");
    assert_eq!(parse_unsigned("256", 255), None);
    assert_eq!(parse_unsigned("", 255), None);
    assert_eq!(parse_unsigned("+5", 255), Some(5));
    assert_eq!(parse_unsigned("-5", 255), None);
}

#[test]
fn texts_are_cut_and_joined() {
    assert_eq!(split("a,b,,c", ','), vec!["a", "b", "", "c"]);
    assert_eq!(split_lines("a\r\nb\n\nc"), vec!["a", "b", "", "c"]);
    assert_eq!(split_once("k=v=w", '='), Some(("k".to_string(), "v=w".to_string())));
    assert_eq!(split_once("kv", '='), None);
    assert_eq!(strip_prefix("export X", "export ").as_deref(), Some("X"));
    assert_eq!(trim(" \t x y \u{3000}"), "x y");
    assert_eq!(to_lower("AbC-Ä"), "abc-Ä");
    assert!(contains("übermut", "ermu"));
    assert!(!contains("abc", "abd"));
    assert_eq!(join(&vec!["a".to_string(), "b".to_string()], ", "), "a, b");
    assert_eq!(split_words("  a  b\tc "), vec!["a", "b", "c"]);
    assert_eq!(get_first_line("one\ntwo"), "one");
    assert!(only_plain_chars("a-b_9") && !only_plain_chars("A"));
}

#[test]
fn shell_arguments_are_quoted() {
    assert_eq!(shell_arg_hint("plain-1.txt"), "plain-1.txt");
    let quoted = shell_arg_hint("it's here");
    assert!(quoted.starts_with('\'') && quoted.ends_with('\''));
    assert!(quoted.contains("it") && quoted.len() > 9);
}

#[test]
fn paths_are_compared_by_components() {
    assert!(is_absolute("/a") && !is_absolute("a"));
    assert!(same_path("/a//b/", "/a/b"));
    assert!(!same_path("/a/b", "a/b"));
    assert!(path_is_within("/a/b/c", "/a/b"));
    assert!(!path_is_within("/a/bc", "/a/b"));
    assert!(has_parent_component("/a/../b") && !has_parent_component("/a/..b"));
    assert_eq!(file_name("/a/b.txt").as_deref(), Some("b.txt"));
    assert_eq!(file_name("/").as_deref(), None);
    assert_eq!(extension("/a/b.tar.gz").as_deref(), Some("gz"));
    assert_eq!(extension("/a/.env").as_deref(), None);
    assert_eq!(parent("/a/b").as_deref(), Some("/a"));
    assert_eq!(parent("/").as_deref(), None);
    assert_eq!(path_join("/a", "b"), "/a/b");
    assert_eq!(path_join("/a/", "b"), "/a/b");
    assert_eq!(path_join("/a", "/b"), "/b");
}

#[test]
fn paths_agree_with_the_standard_library() {
    let samples = [
        "/", "", "a", "/a", "/a/", "/a/b", "/a//b", "a/b/", "/a/./b", "./a", "../a", "/a/..",
        "/a/b.c", "/a/.b", "//a", "a/.", ".",
    ];
    for sample in samples {
        let path = std::path::Path::new(sample);
        assert_eq!(is_absolute(sample), path.is_absolute(), "{sample}");
        assert_eq!(
            file_name(sample),
            path.file_name().map(|name| name.to_string_lossy().into_owned()),
            "{sample}"
        );
        assert_eq!(
            extension(sample),
            path.extension().map(|name| name.to_string_lossy().into_owned()),
            "{sample}"
        );
        assert_eq!(
            parent(sample),
            path.parent().map(|name| name.to_string_lossy().into_owned()),
            "{sample}"
        );
        for other in samples {
            let second = std::path::Path::new(other);
            assert_eq!(same_path(sample, other), path == second, "{sample} {other}");
            assert_eq!(path_is_within(sample, other), path.starts_with(second), "{sample} {other}");
            assert_eq!(
                path_join(sample, other),
                path.join(second).to_string_lossy(),
                "{sample} {other}"
            );
        }
    }
}

#[test]
fn json_is_read_and_printed() {
    let value = parse_json(r#"{"b": [1, -2.5, true, null], "a": "x\n\"y\""}"#).unwrap();
    assert_eq!(print_json(&value), r#"{"a":"x\n\"y\"","b":[1,-2.5,true,null]}"#);
    assert_eq!(json_text_at(&value, "a"), Some("x\n\"y\""));
    assert!(matches!(json_get(&value, "b"), Some(Json::List(items)) if items.len() == 4));
    assert!(json_get(&value, "c").is_none());
    assert_eq!(
        parse_json("{").map(|_| ()),
        Err("EOF while parsing an object at line 1 column 1".to_string())
    );
}

#[test]
fn lists_are_sorted_by_bytes() {
    let words: Vec<String> =
        ["b", "a", "B", "ä", "a", "z"].iter().map(|word| word.to_string()).collect();
    let mut expected = words.clone();
    expected.sort();
    expected.dedup();
    assert_eq!(unique_sorted(words), expected);
    assert!(less("a", "ab") && !less("ab", "a") && !less("a", "a"));
}

#[test]
fn values_read_back() {
    let mut pairs = Vec::new();
    set_value(&mut pairs, "b".to_string(), "1".to_string());
    set_value(&mut pairs, "a".to_string(), "2".to_string());
    set_value(&mut pairs, "b".to_string(), "3".to_string());
    assert_eq!(pairs.len(), 2);
    assert_eq!(pairs[0].0, "a");
    assert_eq!(get_value(&pairs, "b"), Some("3"));
    assert_eq!(get_value(&pairs, "c"), None);
}
