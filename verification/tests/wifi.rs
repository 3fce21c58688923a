use racegate::hal::wifi::WifiConfig;
use racegate::hal::wifi::WifiConfigError;

#[test]
fn test_parse_default_shape() {
    let cfg = WifiConfig::try_from_str("true:racegate:racegate").unwrap();
    assert!(cfg.ap);
    assert_eq!(cfg.ssid, "racegate");
    assert_eq!(cfg.password, "racegate");
}

#[test]
fn test_parse_client_config() {
    let cfg = WifiConfig::try_from_str("false:home-net:s3cret").unwrap();
    assert!(!cfg.ap);
    assert_eq!(cfg.ssid, "home-net");
    assert_eq!(cfg.password, "s3cret");
}

#[test]
fn test_parse_rejects_bad_flag() {
    assert!(matches!(
        WifiConfig::try_from_str("yes:net:pw"),
        Err(WifiConfigError::ParseError)
    ));
    assert!(matches!(
        WifiConfig::try_from_str("TRUE:net:pw"),
        Err(WifiConfigError::ParseError)
    ));
}

#[test]
fn test_parse_rejects_missing_pieces() {
    assert!(WifiConfig::try_from_str("").is_err());
    assert!(WifiConfig::try_from_str("true").is_err());
    assert!(WifiConfig::try_from_str("true:net").is_err());
    // A trailing separator leaves no password piece.
    assert!(WifiConfig::try_from_str("true:net:").is_err());
}

#[test]
fn test_parse_allows_empty_password_piece() {
    let cfg = WifiConfig::try_from_str("true:net::").unwrap();
    assert_eq!(cfg.ssid, "net");
    assert_eq!(cfg.password, "");
}

#[test]
fn test_parse_ignores_extra_pieces() {
    let cfg = WifiConfig::try_from_str("true:net:pw:extra").unwrap();
    assert_eq!(cfg.ssid, "net");
    assert_eq!(cfg.password, "pw");
}

#[test]
fn test_from_env_var() {
    assert!(matches!(
        WifiConfig::from_env_var(None),
        Err(WifiConfigError::EnvVarNotAvailable)
    ));
    let cfg = WifiConfig::from_env_var(Some("false:a:b")).unwrap();
    assert!(!cfg.ap);
    assert_eq!(cfg.ssid, "a");
    assert_eq!(cfg.password, "b");
    assert!(matches!(
        WifiConfig::from_env_var(Some("nope")),
        Err(WifiConfigError::ParseError)
    ));
}

#[test]
fn test_default_config() {
    let cfg = WifiConfig::default();
    assert!(cfg.ap);
    assert_eq!(cfg.ssid, "racegate");
    assert_eq!(cfg.password, "racegate");
}

#[test]
fn test_parse_keeps_unicode_pieces() {
    let cfg = WifiConfig::try_from_str("false:caféNet:møøse").unwrap();
    assert!(!cfg.ap);
    assert_eq!(cfg.ssid, "caféNet");
    assert_eq!(cfg.password, "møøse");
}
