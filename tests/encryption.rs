use paper_age::encryption::encrypt_plaintext;

#[test]
fn test_armored_output() {
    let input = b"some secrets";
    let passphrase = "snakeoil".to_owned();
    let result = encrypt_plaintext(input, passphrase);

    assert!(result.is_ok());

    let (plaintext_size, armored) = result.unwrap();
    assert_eq!(plaintext_size, 12);

    let first_line: String = armored.lines().take(1).collect();
    assert_eq!(first_line, "-----BEGIN AGE ENCRYPTED FILE-----");

    let last_line: &str = armored.lines().last().unwrap();
    assert_eq!(last_line, "-----END AGE ENCRYPTED FILE-----")
}
