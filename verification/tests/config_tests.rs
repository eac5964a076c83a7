use router_toggle::config::{Config, ConfigLoadError};

#[test]
fn first_run_creates_template() {
    let r = Config::load(None);
    match r {
        Err(ConfigLoadError::FirstRun { template }) => {
            assert!(template.contains("http://localhost:9515"));
            assert!(template.contains("http://192.168.0.1/"));
            assert!(template.contains("CHANGE-ME"));
            match Config::load(Some(&template)) {
                Ok(cfg) => {
                    assert_eq!(cfg.selenium_url, "http://localhost:9515");
                    assert_eq!(cfg.router_url, "http://192.168.0.1/");
                    assert_eq!(cfg.password, "CHANGE-ME");
                }
                _ => panic!("the template document must itself be loadable"),
            }
        }
        _ => panic!("a missing resource must be the first-run condition"),
    }
}

#[test]
fn malformed_is_parse_failure_not_first_run() {
    let r = Config::load(Some("this is not a settings document"));
    assert!(matches!(r, Err(ConfigLoadError::Malformed)));
}

#[test]
fn defaults_fill_missing_endpoints() {
    match Config::load(Some("(password: \"secret\")")) {
        Ok(cfg) => {
            assert_eq!(cfg.selenium_url, "http://localhost:9515");
            assert_eq!(cfg.router_url, "http://192.168.0.1/");
            assert_eq!(cfg.password, "secret");
        }
        _ => panic!("a document with only the credential must load"),
    }
}

#[test]
fn all_fields_in_any_order() {
    let doc = "(\n  router_url: \"http://10.0.0.1/\",\n  password: \"p4ss\",\n  selenium_url: \"http://localhost:4444\",\n)";
    match Config::load(Some(doc)) {
        Ok(cfg) => {
            assert_eq!(cfg.selenium_url, "http://localhost:4444");
            assert_eq!(cfg.router_url, "http://10.0.0.1/");
            assert_eq!(cfg.password, "p4ss");
        }
        _ => panic!("a full document must load"),
    }
}

#[test]
fn password_is_required() {
    let r = Config::load(Some("(selenium_url: \"http://localhost:9515\")"));
    assert!(matches!(r, Err(ConfigLoadError::Malformed)));
}

#[test]
fn empty_password_is_rejected() {
    let r = Config::load(Some("(password: \"\")"));
    assert!(matches!(r, Err(ConfigLoadError::Malformed)));
}

#[test]
fn duplicate_key_is_rejected() {
    let r = Config::load(Some("(password: \"a\", password: \"b\")"));
    assert!(matches!(r, Err(ConfigLoadError::Malformed)));
}

#[test]
fn unknown_key_is_rejected() {
    let r = Config::load(Some("(password: \"a\", proxy_url: \"http://x/\")"));
    assert!(matches!(r, Err(ConfigLoadError::Malformed)));
}

#[test]
fn trailing_text_is_rejected() {
    let r = Config::load(Some("(password: \"a\") trailing"));
    assert!(matches!(r, Err(ConfigLoadError::Malformed)));
}

#[test]
fn unterminated_string_is_rejected() {
    let r = Config::load(Some("(password: \"a"));
    assert!(matches!(r, Err(ConfigLoadError::Malformed)));
}
