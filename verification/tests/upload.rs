use auth_proxy::upload::{append_chunk, Overflow, MAX_SIZE};

#[test]
fn limit_is_a_quarter_mebibyte() {
    assert_eq!(MAX_SIZE, 262144);
}

#[test]
fn pieces_are_joined_in_order() {
    let mut body = Vec::new();
    assert_eq!(append_chunk(&mut body, b"ab"), Ok(()));
    assert_eq!(append_chunk(&mut body, b""), Ok(()));
    assert_eq!(append_chunk(&mut body, b"cde"), Ok(()));
    assert_eq!(body, b"abcde");
}

#[test]
fn exactly_the_limit_is_taken() {
    let mut body = vec![1u8; MAX_SIZE - 3];
    assert_eq!(append_chunk(&mut body, &[2, 2, 2]), Ok(()));
    assert_eq!(body.len(), MAX_SIZE);
    assert_eq!(body[MAX_SIZE - 1], 2);
}

#[test]
fn one_byte_over_the_limit_is_refused() {
    let mut body = vec![1u8; MAX_SIZE - 3];
    assert_eq!(append_chunk(&mut body, &[2, 2, 2, 2]), Err(Overflow));
    assert_eq!(body, vec![1u8; MAX_SIZE - 3]);
    let mut full = vec![0u8; MAX_SIZE];
    assert_eq!(append_chunk(&mut full, &[0]), Err(Overflow));
    assert_eq!(append_chunk(&mut full, &[]), Ok(()));
}

#[test]
fn a_piece_over_the_limit_is_refused() {
    let mut body = Vec::new();
    let piece = vec![0u8; MAX_SIZE + 1];
    assert_eq!(append_chunk(&mut body, &piece), Err(Overflow));
    assert!(body.is_empty());
}
