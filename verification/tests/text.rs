use meowify::library::LocalFavoriteKind;
use meowify::text::{compare_text, hex_encode, push_decimal, push_signed_decimal, text_eq, TextOrder};

#[test]
fn compare_text_follows_str_order() {
    for (a, b) in [
        ("", ""),
        ("a", "b"),
        ("admin-1", "client-bob"),
        ("aaa-client", "admin-1"),
        ("zzz", "zz"),
        ("Zed", "abc"),
        ("é", "z"),
        ("same", "same"),
    ] {
        let expected = match a.cmp(b) {
            std::cmp::Ordering::Less => TextOrder::Less,
            std::cmp::Ordering::Equal => TextOrder::Equal,
            std::cmp::Ordering::Greater => TextOrder::Greater,
        };
        assert_eq!(compare_text(a, b), expected, "{a:?} vs {b:?}");
        assert_eq!(text_eq(a, b), a == b);
    }
}

#[test]
fn hex_encode_writes_two_lowercase_digits_per_byte() {
    assert_eq!(hex_encode(&[]), "");
    assert_eq!(hex_encode(&[0x00, 0x0f, 0xa0, 0xff]), "000fa0ff");
}

#[test]
fn decimal_rendering_matches_format() {
    for n in [0u64, 7, 10, 1234, u64::MAX] {
        let mut s = String::from("n=");
        push_decimal(&mut s, n);
        assert_eq!(s, format!("n={n}"));
    }
    for v in [0i32, 5, -5, i32::MAX, i32::MIN] {
        let mut s = String::new();
        push_signed_decimal(&mut s, v);
        assert_eq!(s, format!("{v:+}"));
    }
}

#[test]
fn favorite_kinds_are_stored_by_name() {
    assert_eq!(LocalFavoriteKind::Track.as_str(), "track");
    assert_eq!(LocalFavoriteKind::Playlist.as_str(), "playlist");
}
