use mcp_gateway::text::{decode_body, join_chunks};

#[test]
fn chunks_are_joined_in_order() {
    assert_eq!(join_chunks(vec![]), Vec::<u8>::new());
    assert_eq!(join_chunks(vec![vec![1, 2], vec![], vec![3]]), vec![1, 2, 3]);
}

#[test]
fn body_is_decoded_over_chunk_borders() {
    let text = "{\"text\":\"gr\u{fc}\u{df}e \u{1f600}\"}";
    for cut in 0..=text.len() {
        let bytes = text.as_bytes();
        let chunks = vec![bytes[..cut].to_vec(), bytes[cut..].to_vec()];
        assert_eq!(decode_body(chunks).unwrap(), text);
    }
    assert_eq!(decode_body(vec![]).unwrap(), "");
}

#[test]
fn body_that_is_not_utf8_is_refused() {
    assert!(decode_body(vec![vec![b'a', 0xff]]).is_err());
    assert!(decode_body(vec![vec![0xc3]]).is_err());
}

#[test]
fn refusal_tells_of_the_whole_body() {
    let refusal = decode_body(vec![vec![b'a', 0xc3], vec![0xa9, b'b', 0xff, b'c']]).unwrap_err();
    assert_eq!(refusal.utf8_error().valid_up_to(), 4);
    assert_eq!(refusal.utf8_error().error_len(), Some(1));
    assert_eq!(refusal.into_bytes(), vec![b'a', 0xc3, 0xa9, b'b', 0xff, b'c']);
}
