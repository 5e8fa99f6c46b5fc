use rotor::buffer_util::find_substr;

#[test]
fn middle() {
    assert_eq!(find_substr("hello\r\n\r\nworld".as_bytes(), "\r\n\r\n".as_bytes()), Some(5));
}

#[test]
fn end() {
    assert_eq!(find_substr("hello world\r\n\r\n".as_bytes(), "\r\n\r\n".as_bytes()), Some(11));
}

#[test]
fn partial() {
    assert_eq!(find_substr("hello\r\nworld\r\n\r\n".as_bytes(), "\r\n\r\n".as_bytes()), Some(12));
}

#[test]
fn absent_needle() {
    assert_eq!(find_substr(b"hello world", b"\r\n"), None);
}

#[test]
fn needle_longer_than_haystack() {
    assert_eq!(find_substr(b"ab", b"abc"), None);
}

#[test]
fn first_of_several() {
    assert_eq!(find_substr(b"xbarbarx", b"bar"), Some(1));
}
