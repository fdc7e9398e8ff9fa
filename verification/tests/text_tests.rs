use backend::text::{chars_of, chars_start_with, concat_strs, join_with, split_on, starts_with, trim_chars};

fn strings(v: &[&str]) -> Vec<String> {
    v.iter().map(|s| s.to_string()).collect()
}

#[test]
fn starts_with_matches_std() {
    assert!(starts_with("/api/login/x", "/api/login"));
    assert!(starts_with("abc", ""));
    assert!(!starts_with("/api", "/api/login"));
    assert!(!starts_with("/api/logout", "/api/login"));
    let s = chars_of("Bearer x");
    let p = chars_of("Bearer");
    assert!(chars_start_with(&s, &p));
}

#[test]
fn split_on_semicolon() {
    assert_eq!(split_on("a;b;c", ';'), strings(&["a", "b", "c"]));
    assert_eq!(split_on("", ';'), strings(&[""]));
    assert_eq!(split_on(";", ';'), strings(&["", ""]));
    assert_eq!(split_on("a;;b;", ';'), strings(&["a", "", "b", ""]));
    for s in ["x;y", "", ";;", "tag one;tag two"] {
        let ours = split_on(s, ';');
        let std: Vec<String> = s.split(';').map(|p| p.to_string()).collect();
        assert_eq!(ours, std);
    }
}

#[test]
fn join_with_semicolon() {
    assert_eq!(join_with(&strings(&["a", "b", "c"]), ';'), "a;b;c");
    assert_eq!(join_with(&strings(&[]), ';'), "");
    assert_eq!(join_with(&strings(&["only"]), ';'), "only");
    assert_eq!(join_with(&strings(&["", ""]), ';'), ";");
}

#[test]
fn split_of_join_gives_pieces_back() {
    let tags = strings(&["home", "office", "lab"]);
    assert_eq!(split_on(&join_with(&tags, ';'), ';'), tags);
    // No pieces: the join is empty and splits into one empty piece.
    assert_eq!(split_on(&join_with(&strings(&[]), ';'), ';'), strings(&[""]));
}

#[test]
fn trim_matches_std() {
    for s in ["  tok  ", "\ttok\t", "tok", "   ", "", " a b ", "\u{3000}x\u{a0}"] {
        let cs = chars_of(s);
        assert_eq!(trim_chars(&cs, 0), s.trim());
    }
    let cs = chars_of("Bearer  abc ");
    assert_eq!(trim_chars(&cs, 6), "abc");
}

#[test]
fn concat_joins() {
    assert_eq!(concat_strs("User ", "bob"), "User bob");
}
