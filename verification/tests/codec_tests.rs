use trackivity::claims::ClaimValue;
use trackivity::codec::{check_expiry, issue, open, verify, IssueError, VerifyError};

fn payload(exp: u64) -> Vec<(String, ClaimValue)> {
    vec![
        ("sub".to_string(), ClaimValue::Text("someone".to_string())),
        ("exp".to_string(), ClaimValue::Number(Some(exp))),
        ("flag".to_string(), ClaimValue::Flag(true)),
        ("nothing".to_string(), ClaimValue::Null),
    ]
}

fn member<'a>(es: &'a [(String, ClaimValue)], key: &str) -> Option<&'a ClaimValue> {
    es.iter().find(|(k, _)| k == key).map(|(_, v)| v)
}

#[test]
fn issued_token_has_three_parts_and_is_not_the_payload() {
    let token = issue(&payload(1000), "s3cret").unwrap();
    assert_eq!(token.split('.').count(), 3);
    assert_ne!(token, "someone");
}

#[test]
fn issued_token_opens_to_the_same_members() {
    let token = issue(&payload(1000), "s3cret").unwrap();
    let held = open(&token, "s3cret").unwrap();
    assert_eq!(held.len(), 4);
    assert_eq!(member(&held, "sub"), Some(&ClaimValue::Text("someone".to_string())));
    assert_eq!(member(&held, "exp"), Some(&ClaimValue::Number(Some(1000))));
    assert_eq!(member(&held, "flag"), Some(&ClaimValue::Flag(true)));
    assert_eq!(member(&held, "nothing"), Some(&ClaimValue::Null));
}

#[test]
fn token_is_valid_until_exactly_its_expiry() {
    let token = issue(&payload(1000), "s3cret").unwrap();
    assert!(verify(&token, "s3cret", 0).is_ok());
    assert!(verify(&token, "s3cret", 999).is_ok());
    assert_eq!(verify(&token, "s3cret", 1000), Err(VerifyError::Expired));
    assert_eq!(verify(&token, "s3cret", 1001), Err(VerifyError::Expired));
}

#[test]
fn wrong_secret_is_malformed() {
    let token = issue(&payload(1000), "s3cret").unwrap();
    assert_eq!(verify(&token, "other", 0), Err(VerifyError::Malformed));
    assert!(open(&token, "other").is_err());
}

#[test]
fn garbage_is_malformed() {
    assert_eq!(verify("not a token", "s3cret", 0), Err(VerifyError::Malformed));
    assert_eq!(verify("", "s3cret", 0), Err(VerifyError::Malformed));
    assert_eq!(verify("a.b.c", "s3cret", 0), Err(VerifyError::Malformed));
}

#[test]
fn tampered_token_is_malformed() {
    let token = issue(&payload(1000), "s3cret").unwrap();
    let mut tampered = token.clone();
    let last = tampered.pop().unwrap();
    tampered.push(if last == 'A' { 'B' } else { 'A' });
    assert_eq!(verify(&tampered, "s3cret", 0), Err(VerifyError::Malformed));
}

#[test]
fn unserializable_payload_is_refused() {
    let bad = vec![("x".to_string(), ClaimValue::Other)];
    assert_eq!(issue(&bad, "s3cret"), Err(IssueError::Unserializable));
    let bad = vec![("x".to_string(), ClaimValue::Number(None))];
    assert_eq!(issue(&bad, "s3cret"), Err(IssueError::Unserializable));
}

#[test]
fn payload_without_expiry_is_malformed() {
    let p = vec![("sub".to_string(), ClaimValue::Text("x".to_string()))];
    assert_eq!(check_expiry(p, 0), Err(VerifyError::Malformed));
    let p = vec![("exp".to_string(), ClaimValue::Text("soon".to_string()))];
    assert_eq!(check_expiry(p, 0), Err(VerifyError::Malformed));
}

#[test]
fn check_expiry_boundary() {
    assert!(check_expiry(payload(5), 4).is_ok());
    assert_eq!(check_expiry(payload(5), 5), Err(VerifyError::Expired));
}

#[test]
fn issuing_succeeds_on_every_payload_that_serializes() {
    let long_secret = "k".repeat(5000);
    let odd = vec![
        ("sub".to_string(), ClaimValue::Text("a".to_string())),
        ("sub".to_string(), ClaimValue::Text("b \" \\ \u{0}\u{1F600}".to_string())),
        ("".to_string(), ClaimValue::Number(Some(u64::MAX))),
        ("exp".to_string(), ClaimValue::Text("soon".to_string())),
        ("aud".to_string(), ClaimValue::Null),
    ];
    for secret in ["", "s", long_secret.as_str(), "\u{0}"] {
        assert!(issue(&Vec::new(), secret).is_ok());
        assert!(issue(&payload(0), secret).is_ok());
        assert!(issue(&odd, secret).is_ok());
        assert_eq!(issue(&payload(0), secret).unwrap().split('.').count(), 3);
    }
    let unfit = vec![("n".to_string(), ClaimValue::Number(None))];
    assert_eq!(issue(&unfit, "s"), Err(IssueError::Unserializable));
    let unfit = vec![("o".to_string(), ClaimValue::Other)];
    assert_eq!(issue(&unfit, "s"), Err(IssueError::Unserializable));
}
