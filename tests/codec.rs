use sassafras::codec::{decode_c_text, SassPath};

#[test]
fn c_bytes_decode_up_to_first_zero() {
    let p = SassPath::from_c_bytes(b"dir/a.scss\0tail\0").unwrap();
    assert_eq!(p.as_bytes_with_nul(), b"dir/a.scss\0");
    assert_eq!(p.len(), 10);
    assert!(!p.is_empty());
}

#[test]
fn c_bytes_without_zero_are_refused() {
    assert!(SassPath::from_c_bytes(b"no terminator").is_none());
    assert!(SassPath::from_c_bytes(b"").is_none());
}

#[test]
fn c_bytes_with_only_zero_give_empty_path() {
    let p = SassPath::from_c_bytes(b"\0").unwrap();
    assert!(p.is_empty());
    assert_eq!(p.as_bytes_with_nul(), b"\0");
}

#[test]
fn from_bytes_refuses_interior_zero() {
    assert!(SassPath::from_bytes(b"a\0b").is_none());
    let p = SassPath::from_bytes(b"a/b").unwrap();
    assert_eq!(p.as_bytes_with_nul(), b"a/b\0");
}

#[test]
fn empty_path_is_a_lone_terminator() {
    let p = SassPath::empty();
    assert_eq!(p.len(), 0);
    assert_eq!(p.as_bytes_with_nul(), b"\0");
}

#[test]
fn same_as_compares_bytes() {
    let a = SassPath::from_bytes(b"x/y").unwrap();
    let b = SassPath::from_c_bytes(b"x/y\0").unwrap();
    let c = SassPath::from_bytes(b"x/z").unwrap();
    let d = SassPath::from_bytes(b"x/").unwrap();
    assert!(a.same_as(&b));
    assert!(!a.same_as(&c));
    assert!(!a.same_as(&d));
    assert_eq!(a.byte_at(2), b'y');
}

#[test]
fn duplicate_and_append_keep_bytes() {
    let a = SassPath::from_bytes(b"out").unwrap();
    let mut b = a.duplicate();
    b.append(b".css");
    assert_eq!(a.as_bytes_with_nul(), b"out\0");
    assert_eq!(b.as_bytes_with_nul(), b"out.css\0");
}

#[test]
fn to_text_decodes_valid_utf8() {
    let p = SassPath::from_bytes("caf\u{e9}.scss".as_bytes()).unwrap();
    assert_eq!(p.to_text(), Some("caf\u{e9}.scss".to_string()));
}

#[test]
fn to_text_refuses_invalid_utf8() {
    let p = SassPath::from_bytes(&[0x66, 0xff, 0x6f]).unwrap();
    assert_eq!(p.to_text(), None);
}

#[test]
fn decode_c_text_reads_text_before_zero() {
    assert_eq!(decode_c_text("h\u{e9}llo\0junk".as_bytes()), Some("h\u{e9}llo".to_string()));
    assert_eq!(decode_c_text(b"\0"), Some(String::new()));
    assert_eq!(decode_c_text(b"missing"), None);
    assert_eq!(decode_c_text(&[0xc3, 0x28, 0x00]), None);
}
