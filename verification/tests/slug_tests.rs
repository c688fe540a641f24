//! Tests for the slug syntax checker and its error messages.

use tor1::slug::{check_syntax, BadSlug, Slug, SlugRef, TryIntoSlug, SLUG_SEPARATOR_CHARS};

#[test]
fn bad() {
    let mut cases: Vec<char> = SLUG_SEPARATOR_CHARS.chars().collect();
    for c in ['\\', ' ', '\n', '\0'] {
        cases.push(c);
    }
    for c in cases {
        let s = format!("x{c}y");
        let e_ref = SlugRef::new(&s).unwrap_err();
        assert_eq!(e_ref, BadSlug::BadCharacter(c));
        let e_own = Slug::new(s).unwrap_err();
        assert_eq!(e_ref, e_own);
    }
}

#[test]
fn good() {
    let mut all: Vec<char> = Vec::new();
    for b in b'a'..=b'z' {
        all.push(char::from(b));
    }
    for b in b'0'..=b'9' {
        all.push(char::from(b));
    }
    all.push('_');

    let chk = |s: String| {
        let sref = SlugRef::new(&s).unwrap();
        let slug = Slug::new(s.clone()).unwrap();
        assert_eq!(sref.as_str(), s);
        assert_eq!(slug.as_str(), s);
    };

    chk(all.iter().collect());

    for c in all {
        chk(format!("{c}"));
    }

    // Hyphens are allowed, but not as the first character
    chk("a-".into());
    chk("a-b".into());
}

#[test]
fn badchar_msg() {
    let chk = |s: &str, m: &str| {
        assert_eq!(SlugRef::new(s).unwrap_err().message(), m);
    };

    chk(".", "character '.' (U+002E) is not allowed");
    chk("\0", "character '\\0' (U+0000) is not allowed");
    chk(
        "\u{12345}",
        "character '\u{12345}' (U+12345) is not allowed",
    );
    chk(
        "-",
        "character '-' (U+002D) is not allowed as the first character",
    );
    chk("A", "character 'A' (U+0041) is not allowed");
}

#[test]
fn windows_forbidden() {
    for s in ["con", "prn", "lpt0"] {
        let r = SlugRef::new(s);
        assert_eq!(r.unwrap().as_str(), s);
    }
}

#[test]
fn empty_slug() {
    assert_eq!(
        SlugRef::new("").unwrap_err().message(),
        "empty identifier (empty slug) not allowed"
    );
}

#[test]
fn check_syntax_direct() {
    assert!(check_syntax("a-b_9").is_ok());
    assert_eq!(check_syntax(""), Err(BadSlug::EmptySlugNotAllowed));
    assert_eq!(check_syntax("-a"), Err(BadSlug::BadFirstCharacter('-')));
    assert_eq!(check_syntax("aXb"), Err(BadSlug::BadCharacter('X')));
    // the first invalid character is the one reported
    assert_eq!(check_syntax("a.B"), Err(BadSlug::BadCharacter('.')));
}

#[test]
fn try_into_slug_impls() {
    let s: Slug = "abc".try_into_slug().unwrap();
    assert_eq!(s.as_str(), "abc");
    let owned = String::from("x_y-1");
    let s2: Slug = owned.try_into_slug().unwrap();
    assert_eq!(s2.into_string(), "x_y-1");
    assert_eq!("A".try_into_slug().unwrap_err(), BadSlug::BadCharacter('A'));
}

#[test]
fn slugref_to_slug() {
    let sref = SlugRef::new("abc-def").unwrap();
    let slug = sref.to_slug();
    assert_eq!(slug.as_str(), "abc-def");
}
