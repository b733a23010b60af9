use e_voice::strings;

const SAMPLES: [&str; 12] = [
    "",
    " ",
    "\n",
    "a",
    " a b ",
    "\u{3000}x\u{2028}",
    "a\nb",
    "a\r\nb\r\n",
    "\r\n\r",
    "a\n\nb\n",
    "naïve \u{1F600}\n",
    "//a//",
];

#[test]
fn white_space_is_that_of_rust() {
    for c in '\u{0}'..=char::MAX {
        assert_eq!(strings::is_whitespace(c), c.is_whitespace(), "{c:?}");
    }
}

#[test]
fn texts_are_cut_as_rust_cuts_them() {
    for s in SAMPLES {
        assert_eq!(strings::trim(s), s.trim());
        assert_eq!(strings::is_blank(s), s.trim().is_empty());
        assert_eq!(strings::lines(s), s.lines().collect::<Vec<_>>(), "{s:?}");
        for c in ['\n', '/', ' '] {
            assert_eq!(strings::trim_end_matches(s, c), s.trim_end_matches(c));
            assert_eq!(strings::ends_with(s, c), s.ends_with(c));
        }
    }
}

#[test]
fn texts_are_searched_as_rust_searches_them() {
    for s in SAMPLES {
        for p in SAMPLES {
            assert_eq!(strings::contains(s, p), s.contains(p), "{s:?} {p:?}");
            assert_eq!(strings::starts_with(s, p), s.starts_with(p));
            assert_eq!(strings::same(s, p), s == p);
        }
    }
    assert!(strings::eq_ignore_ascii_case("CleaN", "cLEAn"));
    assert!(!strings::eq_ignore_ascii_case("É", "é"));
    assert!(!strings::eq_ignore_ascii_case("a", "ab"));
}

#[test]
fn texts_are_joined_as_rust_joins_them() {
    let parts = vec!["a".to_owned(), String::new(), "b".to_owned()];
    assert_eq!(strings::join(&parts, ", "), parts.join(", "));
    assert_eq!(strings::join(&Vec::new(), ", "), "");
    assert_eq!(strings::unlines(&parts), "a\n\nb\n");
}

#[test]
fn numbers_are_written_as_rust_writes_them() {
    for n in [0, 9, 10, 99, 100, 39539, u64::MAX] {
        assert_eq!(strings::decimal(n), n.to_string());
    }
    for i in [0, 7, -7, 10, -10, i64::MAX, i64::MIN] {
        assert_eq!(strings::signed_decimal(i), i.to_string());
    }
}

#[test]
fn paths_are_joined_as_rust_joins_them() {
    for dir in ["", "/", "/a", "/a/", "a"] {
        for name in ["b", "b/c"] {
            let joined = std::path::Path::new(dir).join(name);
            assert_eq!(
                strings::path_join(dir, name),
                joined.to_str().unwrap(),
                "{dir:?} {name:?}"
            );
        }
    }
}
