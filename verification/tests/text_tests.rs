use sheepstor::text::{join_path, replace_text, split_text};

#[test]
fn join_relative_part_adds_one_separator() {
    assert_eq!(join_path("/srv/sources", "site"), "/srv/sources/site");
}

#[test]
fn join_keeps_existing_trailing_separator() {
    assert_eq!(join_path("/srv/sources/", "site"), "/srv/sources/site");
}

#[test]
fn join_onto_empty_base_gives_part() {
    assert_eq!(join_path("", "site"), "site");
}

#[test]
fn join_absolute_part_replaces_base() {
    assert_eq!(join_path("/srv/sources", "/etc/site"), "/etc/site");
}

#[test]
fn join_empty_part_ends_in_separator() {
    assert_eq!(join_path("/srv", ""), "/srv/");
}

#[test]
fn join_agrees_with_std_path_join() {
    let cases = [("a", "b"), ("a/", "b"), ("", "b"), ("a", "/b"), ("a/b", "c/d"), ("/", "x")];
    for (base, part) in cases {
        let expected = std::path::Path::new(base).join(part).display().to_string();
        assert_eq!(join_path(base, part), expected);
    }
}

#[test]
fn split_two_ids() {
    assert_eq!(split_text("blog,docs", ','), vec!["blog".to_string(), "docs".to_string()]);
}

#[test]
fn split_empty_text_gives_one_empty_piece() {
    assert_eq!(split_text("", ','), vec![String::new()]);
}

#[test]
fn split_keeps_empty_pieces() {
    assert_eq!(
        split_text("a,,b,", ','),
        vec!["a".to_string(), String::new(), "b".to_string(), String::new()]
    );
}

#[test]
fn split_agrees_with_std_split() {
    for s in ["x", "a,b,c", ",", ",,", "é,ü", "no separator"] {
        let expected: Vec<String> = s.split(',').map(String::from).collect();
        assert_eq!(split_text(s, ','), expected);
    }
}

#[test]
fn split_then_join_gives_back_the_text() {
    for s in ["", "a", "a,b", ",a,", ",,,"] {
        assert_eq!(split_text(s, ',').join(","), s);
    }
}

#[test]
fn replace_every_occurrence() {
    assert_eq!(replace_text("{YEAR}/a/{YEAR}", "{YEAR}", "2025"), "2025/a/2025");
}

#[test]
fn replace_without_occurrence_keeps_text() {
    assert_eq!(replace_text("content/posts", "{YEAR}", "2025"), "content/posts");
}

#[test]
fn replace_takes_occurrences_left_to_right() {
    assert_eq!(replace_text("aaa", "aa", "b"), "ba");
    assert_eq!(replace_text("aaa", "aa", "b"), "aaa".replace("aa", "b"));
}

#[test]
fn replace_agrees_with_std_replace() {
    for s in ["{YEAR", "{{YEAR}}", "x{YEAR}y{YEAR}", "ü{YEAR}é", ""] {
        assert_eq!(replace_text(s, "{YEAR}", "1999"), s.replace("{YEAR}", "1999"));
    }
}
