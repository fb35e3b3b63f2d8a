use sozu::cookies::{
    is_cookie_value_char, is_space, parse_request_cookies, single_request_cookie, CookieError,
    RequestCookie,
};

#[test]
fn header_cookies_request_cookies() {
    let none_cookies = parse_request_cookies(b"FOOBAR").unwrap();
    let some_cookies =
        parse_request_cookies(b"FOO=BAR;BAR=FOO; SOZUBALANCEID=0;   SOZU=SOZU").unwrap();

    assert_eq!(none_cookies.len(), 0);
    assert_eq!(some_cookies.len(), 4);

    assert_eq!(some_cookies[0].name, b"FOO");
    assert_eq!(some_cookies[0].value, b"BAR");
    assert_eq!(some_cookies[0].semicolon.is_some(), true);
    assert_eq!(some_cookies[0].spaces.len(), 0);

    assert_eq!(some_cookies[1].name, b"BAR");
    assert_eq!(some_cookies[1].value, b"FOO");
    assert_eq!(some_cookies[1].semicolon.is_some(), true);
    assert_eq!(some_cookies[1].spaces.len(), 1);

    assert_eq!(some_cookies[2].name, b"SOZUBALANCEID");
    assert_eq!(some_cookies[2].value, b"0");
    assert_eq!(some_cookies[2].semicolon.is_some(), true);
    assert_eq!(some_cookies[2].spaces.len(), 3);

    assert_eq!(some_cookies[3].name, b"SOZU");
    assert_eq!(some_cookies[3].value, b"SOZU");
    assert_eq!(some_cookies[3].semicolon.is_some(), false);
    assert_eq!(some_cookies[3].spaces.len(), 0);
}

fn bytes_of(c: &RequestCookie) -> Vec<u8> {
    let mut v = Vec::new();
    v.extend_from_slice(c.name);
    v.push(b'=');
    v.extend_from_slice(c.value);
    if let Some(s) = c.semicolon {
        v.extend_from_slice(s);
    }
    v.extend_from_slice(c.spaces);
    v
}

#[test]
fn value_chars() {
    assert!(!is_cookie_value_char(b' '));
    assert!(!is_cookie_value_char(b','));
    assert!(!is_cookie_value_char(b';'));
    assert!(is_cookie_value_char(b'\t'));
    assert!(is_cookie_value_char(b'='));
    assert!(is_cookie_value_char(b'a'));
    assert!(is_space(b' '));
    assert!(is_space(b'\t'));
    assert!(!is_space(b'a'));
}

#[test]
fn single_cookie_parts_and_rest() {
    let (rest, c) = single_request_cookie(b"a=b;  c=d").unwrap();
    assert_eq!(c.name, b"a");
    assert_eq!(c.value, b"b");
    assert_eq!(c.semicolon, Some(&b";"[..]));
    assert_eq!(c.spaces, b"  ");
    assert_eq!(rest, b"c=d");
    assert_eq!(c.get_full_length(), 6);
}

#[test]
fn single_cookie_errors() {
    assert_eq!(single_request_cookie(b"").unwrap_err(), CookieError::EmptyName);
    assert_eq!(single_request_cookie(b"=x").unwrap_err(), CookieError::EmptyName);
    assert_eq!(single_request_cookie(b"abc").unwrap_err(), CookieError::MissingEquals);
}

#[test]
fn empty_value_and_equals_in_value() {
    let (rest, c) = single_request_cookie(b"a=;b").unwrap();
    assert_eq!(c.value, b"");
    assert_eq!(rest, b"b");
    let (rest, c) = single_request_cookie(b"a=b=c").unwrap();
    assert_eq!(c.name, b"a");
    assert_eq!(c.value, b"b=c");
    assert_eq!(rest, b"");
}

#[test]
fn tab_belongs_to_the_value() {
    let (rest, c) = single_request_cookie(b"a=b\t c").unwrap();
    assert_eq!(c.value, b"b\t");
    assert_eq!(c.semicolon, None);
    assert_eq!(c.spaces, b" ");
    assert_eq!(rest, b"c");
}

#[test]
fn comma_starts_the_next_name() {
    let cookies = parse_request_cookies(b"A=B,C=D").unwrap();
    assert_eq!(cookies.len(), 2);
    assert_eq!(cookies[0].value, b"B");
    assert_eq!(cookies[1].name, b",C");
    assert_eq!(cookies[1].value, b"D");
}

#[test]
fn parsing_stops_where_no_cookie_starts() {
    let cookies = parse_request_cookies(b"a=1; b=2; junk").unwrap();
    assert_eq!(cookies.len(), 2);
    let cookies = parse_request_cookies(b"").unwrap();
    assert_eq!(cookies.len(), 0);
}

#[test]
fn cookies_cover_a_prefix_and_lengths_add_up() {
    let input: &[u8] = b"FOO=BAR;BAR=FOO; SOZUBALANCEID=0;   SOZU=SOZU ; trailing";
    let cookies = parse_request_cookies(input).unwrap();
    let mut all = Vec::new();
    let mut total = 0;
    for c in &cookies {
        let b = bytes_of(c);
        assert_eq!(b.len(), c.get_full_length());
        total += c.get_full_length();
        all.extend_from_slice(&b);
    }
    assert_eq!(total, all.len());
    assert_eq!(&input[..total], &all[..]);
    assert!(single_request_cookie(&input[total..]).is_err());
}

#[test]
fn rereading_the_bytes_gives_the_same_cookies() {
    let input: &[u8] = b"a=1,b=2 c=3;d=\t4;\t e=5 x";
    let cookies = parse_request_cookies(input).unwrap();
    let mut all = Vec::new();
    for c in &cookies {
        all.extend_from_slice(&bytes_of(c));
    }
    let again = parse_request_cookies(&all).unwrap();
    assert_eq!(again.len(), cookies.len());
    for (x, y) in again.iter().zip(cookies.iter()) {
        assert_eq!(x.name, y.name);
        assert_eq!(x.value, y.value);
        assert_eq!(x.semicolon, y.semicolon);
        assert_eq!(x.spaces, y.spaces);
    }
}

#[test]
fn full_length_counts_semicolon_as_one() {
    let c = RequestCookie { name: b"ab", value: b"cd", semicolon: None, spaces: b"" };
    assert_eq!(c.get_full_length(), 5);
    let c = RequestCookie { name: b"ab", value: b"cd", semicolon: Some(b";"), spaces: b"  " };
    assert_eq!(c.get_full_length(), 8);
}
