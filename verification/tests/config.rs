use custom_ddns::config::{AppConfig, AuthError, RecordRule, Whitelist};

fn rule(name: &str, record_type: &str, ttl_max: u32) -> RecordRule {
    RecordRule {
        rrset_name: name.to_owned(),
        rrset_type: record_type.to_owned(),
        rrset_ttl_max: ttl_max,
    }
}

fn example_org() -> AppConfig {
    let mut config = AppConfig::new("0.0.0.0:3000".to_owned(), 300);
    config.insert(
        "example.org".to_owned(),
        Whitelist {
            personal_access_token: "pat-example".to_owned(),
            records: vec![rule("test", "A", 600)],
            authorizations: vec!["secret1".to_owned()],
        },
    );
    config
}

#[test]
fn request_within_the_rule_gets_the_credential() {
    let config = example_org();
    assert_eq!(
        config.get_pat_if_authorized("example.org", "test", "A", 300, "secret1"),
        Ok("pat-example".to_owned())
    );
}

#[test]
fn ttl_over_the_limit_is_not_whitelisted() {
    let config = example_org();
    assert_eq!(
        config.get_pat_if_authorized("example.org", "test", "A", 900, "secret1"),
        Err(AuthError::RecordNotWhitelisted {
            fqdn: "example.org".to_owned(),
            rrset_name: "test".to_owned(),
            rrset_type: "A".to_owned(),
            rrset_ttl: 900,
        })
    );
}

#[test]
fn wrong_secret_is_forbidden() {
    let config = example_org();
    assert_eq!(
        config.get_pat_if_authorized("example.org", "test", "A", 300, "wrong"),
        Err(AuthError::Forbidden {
            fqdn: "example.org".to_owned(),
            rrset_name: "test".to_owned(),
            rrset_type: "A".to_owned(),
        })
    );
}

#[test]
fn unknown_domain_is_not_whitelisted_whatever_else_is_asked() {
    let config = example_org();
    for (name, record_type, ttl, secret) in [
        ("test", "A", 300, "secret1"),
        ("test", "A", 900, "secret1"),
        ("other", "TXT", 0, "wrong"),
        ("", "", u32::MAX, ""),
    ] {
        assert_eq!(
            config.get_pat_if_authorized("example.com", name, record_type, ttl, secret),
            Err(AuthError::NotWhitelisted { fqdn: "example.com".to_owned() })
        );
    }
    let empty = AppConfig::new("127.0.0.1:80".to_owned(), 300);
    assert_eq!(
        empty.get_pat_if_authorized("example.org", "test", "A", 300, "secret1"),
        Err(AuthError::NotWhitelisted { fqdn: "example.org".to_owned() })
    );
}

#[test]
fn record_is_judged_before_the_secret() {
    let config = example_org();
    let denied = config.get_pat_if_authorized("example.org", "test", "A", 601, "wrong");
    assert!(matches!(denied, Err(AuthError::RecordNotWhitelisted { .. })));
    let denied = config.get_pat_if_authorized("example.org", "test", "AAAA", 300, "secret1");
    assert!(matches!(denied, Err(AuthError::RecordNotWhitelisted { .. })));
    let denied = config.get_pat_if_authorized("example.org", "Test", "A", 300, "secret1");
    assert!(matches!(denied, Err(AuthError::RecordNotWhitelisted { .. })));
}

#[test]
fn ttl_limit_is_inclusive() {
    let config = example_org();
    assert!(config.get_pat_if_authorized("example.org", "test", "A", 600, "secret1").is_ok());
    assert!(config.get_pat_if_authorized("example.org", "test", "A", 0, "secret1").is_ok());
}

#[test]
fn any_rule_that_covers_the_ttl_permits() {
    let mut config = AppConfig::new("0.0.0.0:3000".to_owned(), 300);
    config.insert(
        "example.org".to_owned(),
        Whitelist {
            personal_access_token: "pat".to_owned(),
            records: vec![rule("test", "A", 300), rule("www", "A", 60), rule("test", "A", 900)],
            authorizations: vec!["one".to_owned(), "two".to_owned()],
        },
    );
    assert_eq!(
        config.get_pat_if_authorized("example.org", "test", "A", 900, "two"),
        Ok("pat".to_owned())
    );
    assert!(matches!(
        config.get_pat_if_authorized("example.org", "www", "A", 61, "two"),
        Err(AuthError::RecordNotWhitelisted { .. })
    ));
}

#[test]
fn find_rule_gives_the_first_rule_that_permits() {
    let entry = Whitelist {
        personal_access_token: "pat".to_owned(),
        records: vec![rule("www", "A", 60), rule("test", "A", 300), rule("test", "A", 900)],
        authorizations: vec![],
    };
    assert_eq!(entry.find_rule("test", "A", 100), Some(1));
    assert_eq!(entry.find_rule("test", "A", 301), Some(2));
    assert_eq!(entry.find_rule("test", "A", 901), None);
    assert_eq!(entry.find_rule("www", "A", 60), Some(0));
    assert_eq!(entry.find_rule("www", "TXT", 60), None);
    assert!(!entry.admits("secret"));
}

#[test]
fn entry_without_secrets_forbids_everyone() {
    let mut config = AppConfig::new("0.0.0.0:3000".to_owned(), 300);
    config.insert(
        "example.org".to_owned(),
        Whitelist {
            personal_access_token: "pat".to_owned(),
            records: vec![rule("test", "A", 600)],
            authorizations: vec![],
        },
    );
    assert!(matches!(
        config.get_pat_if_authorized("example.org", "test", "A", 300, ""),
        Err(AuthError::Forbidden { .. })
    ));
}

#[test]
fn inserting_a_domain_again_replaces_its_entry() {
    let mut config = example_org();
    config.insert(
        "example.org".to_owned(),
        Whitelist {
            personal_access_token: "pat-new".to_owned(),
            records: vec![rule("www", "AAAA", 3600)],
            authorizations: vec!["secret2".to_owned()],
        },
    );
    assert_eq!(
        config.get_pat_if_authorized("example.org", "www", "AAAA", 3600, "secret2"),
        Ok("pat-new".to_owned())
    );
    assert!(matches!(
        config.get_pat_if_authorized("example.org", "test", "A", 300, "secret1"),
        Err(AuthError::RecordNotWhitelisted { .. })
    ));
    assert_eq!(config.listen(), "0.0.0.0:3000");
    assert_eq!(config.default_rrset_ttl(), 300);
}

#[test]
fn denials_are_worded_for_the_caller() {
    assert_eq!(
        AuthError::NotWhitelisted { fqdn: "example.com".to_owned() }.message(),
        "config: fqdn example.com is not whitelisted"
    );
    assert_eq!(
        AuthError::RecordNotWhitelisted {
            fqdn: "example.org".to_owned(),
            rrset_name: "test".to_owned(),
            rrset_type: "A".to_owned(),
            rrset_ttl: 900,
        }
        .message(),
        "config: record test.example.org type A with ttl 900 is not whitelisted"
    );
    assert_eq!(
        AuthError::Forbidden {
            fqdn: "example.org".to_owned(),
            rrset_name: "test".to_owned(),
            rrset_type: "A".to_owned(),
        }
        .message(),
        "config: access forbidden to update record test.example.org type A"
    );
}
