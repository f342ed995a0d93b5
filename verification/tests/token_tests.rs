use gateway::utils::token::default_token;
use gateway::utils::token::deobfuscate;
use gateway::utils::token::encode_token;
use gateway::utils::token::obfuscate;
use gateway::utils::token::simple_hash;
use gateway::utils::token::verify_token;
use gateway::utils::token::TOKEN_MASK;

#[test]
fn test_token_randomness_and_verify() {
    let id = "alice";
    let sec = "gmv";
    let noc = "Gmv123...";

    let token1 = encode_token(id, sec, noc, 1_700_000_000_000_000_001, 4242);
    let token2 = encode_token(id, sec, noc, 1_700_000_000_000_000_002, 4242);

    println!("token1: {}", token1);
    println!("token2: {}", token2);

    assert_ne!(token1, token2);

    assert!(verify_token(&token1, noc));
    assert!(verify_token(&token2, noc));

    assert!(!verify_token(&token1, "wrong_key"));

    let mut chars: Vec<char> = token1.chars().collect();
    if let Some(last) = chars.last_mut() {
        *last = if *last == 'a' { 'b' } else { 'a' };
    }
    let tampered = chars.into_iter().collect::<String>();
    assert!(!verify_token(&tampered, noc));
}

#[test]
fn default_token_verifies_under_built_in_key() {
    let token = default_token("bob", "s3c", 7, 1);
    assert!(verify_token(&token, "Gmv123..."));
    assert!(!verify_token(&token, "other"));
}

#[test]
fn verify_rejects_garbage() {
    assert!(!verify_token("", "k"));
    assert!(!verify_token("not base64 !!!", "k"));
    assert!(!verify_token("YWJj", "k"), "decodes but has no signature");
}

#[test]
fn obfuscation_round_trips_and_changes_bytes() {
    let data = vec![1u8, 2, 3, 4];
    let obf = obfuscate(data.clone(), TOKEN_MASK);
    assert_ne!(obf, data, "the mask really changes the bytes");
    assert_eq!(obf, vec![4 ^ TOKEN_MASK, 3 ^ TOKEN_MASK, 2 ^ TOKEN_MASK, 1 ^ TOKEN_MASK]);
    assert_eq!(deobfuscate(obf, TOKEN_MASK), data);
}

#[test]
fn simple_hash_exact_values() {
    // DJB2 of the empty string is its seed; each byte folds in as h*33+b.
    assert_eq!(simple_hash(""), 5381);
    assert_eq!(simple_hash("a"), 5381u64 * 33 + 97);
    assert_eq!(simple_hash("ab"), (5381u64 * 33 + 97) * 33 + 98);
}

#[test]
fn token_is_not_the_raw_input() {
    let token = encode_token("x", "y", "k", 1, 1);
    assert!(!token.contains('.'), "base64 output, not the raw dotted form");
    assert!(token.len() > 4);
}
