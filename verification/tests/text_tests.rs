use png2jp2::text::{
    digit_str, push_alt_hex, push_dec, push_hex, push_hex_or_zero, push_int, str_ends_with,
    str_equals,
};

#[test]
fn decimal_matches_display() {
    for n in [0u64, 7, 10, 99, 100, 4096, u32::MAX as u64, u64::MAX] {
        let mut s = String::from(">");
        push_dec(&mut s, n);
        assert_eq!(s, format!(">{}", n));
    }
}

#[test]
fn signed_matches_display() {
    for v in [0i64, -1, 5, -42, i64::MIN, i64::MAX, i32::MIN as i64] {
        let mut s = String::new();
        push_int(&mut s, v);
        assert_eq!(s, format!("{}", v));
    }
}

#[test]
fn hex_matches_format() {
    for n in [0u64, 1, 15, 16, 255, 0xff51, 0xdead_beef, u64::MAX] {
        let mut a = String::new();
        push_hex(&mut a, n);
        assert_eq!(a, format!("{:x}", n));
        let mut b = String::new();
        push_alt_hex(&mut b, n);
        assert_eq!(b, format!("{:#x}", n));
        let mut c = String::new();
        push_hex_or_zero(&mut c, n);
        assert_eq!(c, if n == 0 { "0".to_string() } else { format!("{:#x}", n) });
    }
}

#[test]
fn digits() {
    let all: String = (0..16u64).map(digit_str).collect();
    assert_eq!(all, "0123456789abcdef");
}

#[test]
fn comparisons() {
    assert!(str_equals("abc", "abc"));
    assert!(!str_equals("abc", "abd"));
    assert!(!str_equals("abc", "ab"));
    assert!(str_equals("", ""));
    assert!(str_ends_with("photo.j2k", ".j2k"));
    assert!(!str_ends_with("photo.jp2", ".j2k"));
    assert!(!str_ends_with("j2k", ".j2k"));
    assert!(str_ends_with("é.j2k", ".j2k"));
    assert!(str_ends_with("anything", ""));
}
