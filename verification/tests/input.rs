use libssh_rs::{get_input, get_input_request};

#[test]
fn request_without_default() {
    let request = get_input_request("Password: ", None, false, true).unwrap();
    assert_eq!(request.prompt.as_bytes(), b"Password: ");
    assert_eq!(request.buffer, vec![0u8; 128]);
    assert_eq!(request.echo, 0);
    assert_eq!(request.verify, 1);
}

#[test]
fn request_with_default() {
    let request = get_input_request("User: ", Some("alice"), true, false).unwrap();
    assert_eq!(request.buffer.len(), 128);
    assert_eq!(&request.buffer[..5], b"alice");
    assert!(request.buffer[5..].iter().all(|b| *b == 0));
    assert_eq!(request.echo, 1);
    assert_eq!(request.verify, 0);
}

#[test]
fn long_default_is_cut_in_front_of_the_terminator() {
    let long = "x".repeat(200);
    let request = get_input_request("?", Some(&long), true, false).unwrap();
    assert_eq!(request.buffer.len(), 128);
    assert!(request.buffer[..127].iter().all(|b| *b == b'x'));
    assert_eq!(request.buffer[127], 0);
    let exact = "y".repeat(127);
    let request = get_input_request("?", Some(&exact), true, false).unwrap();
    assert_eq!(&request.buffer[..127], exact.as_bytes());
    assert_eq!(request.buffer[127], 0);
}

#[test]
fn prompt_with_zero_byte_has_no_request_and_no_answer() {
    assert_eq!(get_input_request("a\0b", None, true, false), None);
    assert_eq!(get_input("a\0b", 0, b"answer\0"), None);
}

#[test]
fn answer_ends_at_the_first_zero_byte() {
    let mut buffer = vec![0u8; 128];
    buffer[..6].copy_from_slice(b"secret");
    buffer[10] = b'z';
    assert_eq!(get_input("Password: ", 0, &buffer), Some("secret".to_string()));
    assert_eq!(get_input("Password: ", 0, &[0u8; 128]), Some(String::new()));
    assert_eq!(get_input("Password: ", 0, b"no terminator"), Some("no terminator".to_string()));
}

#[test]
fn failed_prompt_has_no_answer() {
    assert_eq!(get_input("Password: ", -1, b"secret\0"), None);
    assert_eq!(get_input("Password: ", 1, b"secret\0"), None);
}

#[test]
fn malformed_answer_is_decoded_with_replacement() {
    assert_eq!(get_input("?", 0, &[b'a', 0xff, 0, b'b']), Some("a\u{fffd}".to_string()));
}
