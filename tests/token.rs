use amqpiothub::token::{parse_device_token, SasToken, SasTokenCreateException};

const SECRET: &str = "AAAAAAAAAAAAAAAAAAAAAA==";
const NOW: i64 = 1700000000;

#[test]
fn device_token_scenario() {
    let token = match SasToken::new_at(SECRET, 1, "h", "d", NOW) {
        Ok(t) => t,
        Err(_) => panic!("a valid secret must sign"),
    };
    assert!(token.sas.contains("se=1700086400"));
    assert!(token.sas.contains("skn=d"));
    assert_eq!(token.sig, "sig=jINoikP2UhRwjYyVb6NsRbsCPHbBeFXO7q0YF9AxysY%3D");
    assert_eq!(
        token.sas,
        "SharedAccessSignature sr=h.azure-devices.net%2Fdevices%2Fd&sig=jINoikP2UhRwjYyVb6NsRbsCPHbBeFXO7q0YF9AxysY%3D&se=1700086400&skn=d"
    );
}

#[test]
fn device_token_is_deterministic() {
    let a = SasToken::new_at(SECRET, 1, "h", "d", NOW).ok().unwrap();
    let b = SasToken::new_at(SECRET, 1, "h", "d", NOW).ok().unwrap();
    assert_eq!(a.sig, b.sig);
    assert_eq!(a.sas, b.sas);
}

#[test]
fn later_time_changes_only_expiry_and_signature() {
    let a = SasToken::new_at(SECRET, 1, "h", "d", NOW).ok().unwrap();
    let b = SasToken::new_at(SECRET, 1, "h", "d", NOW + 100).ok().unwrap();
    assert_ne!(a.sig, b.sig);
    assert_eq!(b.sig, "sig=%2BJXKcCXVE3UfhCYDBuT7%2Bj2z4kYG%2F7qijMu1Oz81Mhg%3D");
    let rebuilt = SasToken::format_password_token("h", &b.sig, 1700086500, "d");
    assert_eq!(b.sas, rebuilt);
}

#[test]
fn device_token_parses_back() {
    let token = SasToken::new_at(SECRET, 1, "h", "d", NOW).ok().unwrap();
    let parts = parse_device_token(&token.sas).unwrap();
    assert_eq!(parts.hub_name, "h");
    assert_eq!(parts.device_id, "d");
    assert_eq!(parts.expiry, 1700086400);
}

#[test]
fn parse_rejects_other_text() {
    assert!(parse_device_token("").is_none());
    assert!(parse_device_token("SharedAccessSignature sr=h").is_none());
    assert!(parse_device_token(
        "SharedAccessSignature sr=h.azure-devices.net%2Fdevices%2Fd&sig=x&se=12&skn=e"
    )
    .is_none());
    assert!(parse_device_token(
        "SharedAccessSignature sr=h.azure-devices.net%2Fdevices%2Fd&sig=x&se=&skn=d"
    )
    .is_none());
    let negative = parse_device_token(
        "SharedAccessSignature sr=hub.azure-devices.net%2Fdevices%2Fdev-1&sig=x&se=-5&skn=dev-1",
    )
    .unwrap();
    assert_eq!(negative.hub_name, "hub");
    assert_eq!(negative.device_id, "dev-1");
    assert_eq!(negative.expiry, -5);
}

#[test]
fn invalid_secret_is_rejected() {
    let r = SasToken::new_at("not base64!", 1, "h", "d", NOW);
    assert!(matches!(r, Err(SasTokenCreateException::InvalidPrimaryTokenEncoding)));
    let s = SasToken::service_token_at("%%%", 1, "h", "iothubowner", NOW);
    assert!(matches!(s, Err(SasTokenCreateException::InvalidPrimaryTokenEncoding)));
}

#[test]
fn expiry_out_of_range_fails() {
    let r = SasToken::new_at(SECRET, i64::MAX, "h", "d", NOW);
    assert!(matches!(r, Err(SasTokenCreateException::Failed)));
}

#[test]
fn service_token_scenario() {
    let token = SasToken::service_token_at(SECRET, 1, "h", "iothubowner", NOW).ok().unwrap();
    assert_eq!(
        token.sas,
        "SharedAccessSignature sr=h.azure-devices.net&sig=phokGGQCt7kG9YSujejdQ3MDcZV25%2F5S9XnwE4f9k%2Fs%3D&se=1700086400&skn=iothubowner"
    );
}

#[test]
fn tokens_from_the_clock() {
    let token = SasToken::new(SECRET, 1, "h", "d").ok().unwrap();
    let parts = parse_device_token(&token.sas).unwrap();
    assert_eq!(parts.device_id, "d");
    assert!(parts.expiry > NOW);
    let service = SasToken::service_token(SECRET, 1, "h", "p").ok().unwrap();
    assert!(service.sas.starts_with("SharedAccessSignature sr=h.azure-devices.net&sig="));
    assert!(service.sas.ends_with("&skn=p"));
    let future = SasToken::create_future_date(1).unwrap();
    assert!(future > NOW + 86400);
}

#[test]
fn key_checks() {
    assert!(SasToken::is_key_decode_good(SECRET));
    assert!(SasToken::is_key_length_good(SECRET));
    assert!(SasToken::is_key_length_good(""));
    assert!(!SasToken::is_key_decode_good("ab!c"));
    assert!(!SasToken::is_key_length_good("ab!c"));
}

#[test]
fn token_pieces() {
    assert_eq!(SasToken::hostname_from_iothub_name(String::from("hub")), "hub.azure-devices.net");
    assert_eq!(SasToken::create_hub_url("hub", "dev"), "hub.azure-devices.net%2Fdevices%2Fdev");
    assert_eq!(SasToken::create_to_sign(String::from("res"), 42), "res\n42");
    assert_eq!(
        SasToken::format_password_token_service(&String::from("sig=a"), 7, "pol", "res"),
        "SharedAccessSignature sr=res&sig=a&se=7&skn=pol"
    );
    assert_eq!(SasToken::future_date_from(NOW, 1), Some(1700086400));
    assert_eq!(SasToken::future_date_from(NOW, -1), Some(1699913600));
    assert_eq!(SasToken::future_date_from(i64::MAX, 1), None);
    assert_eq!(SasTokenCreateException::InvalidPrimaryTokenLength.to_string(), "InvalidPrimaryTokenLength");
}

#[test]
fn token_text() {
    let token = SasToken { sig: String::from("sig=a"), sas: String::from("S") };
    assert_eq!(token.to_string(), "Sig: sig=a\nSas: S");
}

#[test]
fn clock_tokens_succeed_within_bounds() {
    assert!(SasToken::new(SECRET, 100_000_000_000_000, "h", "d").is_ok());
    assert!(SasToken::new(SECRET, -100_000_000_000_000, "h", "d").is_ok());
    assert!(SasToken::service_token(SECRET, 0, "h", "p").is_ok());
    assert!(SasToken::create_future_date(-100_000_000_000_000).is_some());
    assert!(matches!(SasToken::new("@@", 1, "h", "d"), Err(SasTokenCreateException::InvalidPrimaryTokenEncoding)));
}
