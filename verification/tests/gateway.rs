use custom_ddns::config::{AppConfig, AuthError, RecordRule, Whitelist};
use custom_ddns::engine::{BuildError, CallError, Method, Reply};
use custom_ddns::gateway::{dispatch, handle_update, screen, Failure, Grant, Outcome, Presented, Step};

fn config_with(token: &str) -> AppConfig {
    let mut config = AppConfig::new("0.0.0.0:3000".to_owned(), 300);
    config.insert(
        "example.org".to_owned(),
        Whitelist {
            personal_access_token: token.to_owned(),
            records: vec![RecordRule {
                rrset_name: "test".to_owned(),
                rrset_type: "A".to_owned(),
                rrset_ttl_max: 600,
            }],
            authorizations: vec!["secret1".to_owned()],
        },
    );
    config
}

fn secret(text: &str) -> Presented {
    Presented::Text(text.to_owned())
}

fn sent(step: Step) -> custom_ddns::gateway::Pending {
    match step {
        Step::Send(pending) => pending,
        Step::Respond(outcome) => panic!("ended with {:?}", outcome),
    }
}

fn answered(step: Step) -> Outcome {
    match step {
        Step::Respond(outcome) => outcome,
        Step::Send(pending) => panic!("dispatched {:?}", pending.call().request()),
    }
}

#[test]
fn no_authorization_header_is_unauthenticated() {
    let config = config_with("pat");
    let outcome =
        answered(handle_update(&config, "example.org", "test", "A", "127.0.0.1", Some(300), Presented::Absent));
    assert_eq!(outcome, Outcome::Unauthenticated);
    assert_eq!(outcome.status(), 403);
    assert_eq!(outcome.message(), "No authorization header provided");

    let empty = AppConfig::new("0.0.0.0:3000".to_owned(), 300);
    let outcome =
        answered(handle_update(&empty, "nowhere.test", "x", "TXT", "v", None, Presented::Absent));
    assert_eq!(outcome, Outcome::Unauthenticated);
}

#[test]
fn upstream_404_is_an_internal_error() {
    let config = config_with("pat");
    let pending =
        sent(handle_update(&config, "example.org", "test", "A", "127.0.0.1", Some(300), secret("secret1")));
    let outcome = pending.settle(Reply::Status(404));
    assert_eq!(outcome, Outcome::InternalError(Failure::Call(CallError::Upstream(404))));
    assert_eq!(outcome.status(), 500);
    assert_eq!(outcome.message(), "Server returned 404 !");
}

#[test]
fn authorized_update_is_put_to_the_production_service() {
    let config = config_with("pat");
    let pending =
        sent(handle_update(&config, "example.org", "test", "A", "127.0.0.1", Some(450), secret("secret1")));
    let request = pending.call().request();
    assert_eq!(request.method, Method::Put);
    assert_eq!(request.url, "https://api.gandi.net/v5/resource/domains/example.org/records/test/A");
    assert_eq!(request.authorization, "Bearer pat");
    assert_eq!(request.content_type.as_deref(), Some("application/json"));
    assert_eq!(request.body.as_deref(), Some("{\"values\":[\"127.0.0.1\"],\"ttl\":450}"));

    let outcome = pending.settle(Reply::Status(201));
    assert_eq!(
        outcome,
        Outcome::Updated {
            fqdn: "example.org".to_owned(),
            rrset_name: "test".to_owned(),
            rrset_type: "A".to_owned(),
            rrset_value: "127.0.0.1".to_owned(),
        }
    );
    assert_eq!(outcome.status(), 200);
    assert_eq!(outcome.message(), "Record test.example.org type A updated with ip 127.0.0.1 !");
}

#[test]
fn omitted_ttl_is_the_configured_one() {
    let config = config_with("pat");
    let pending = sent(handle_update(&config, "example.org", "test", "A", "::1", None, secret("secret1")));
    assert_eq!(pending.call().request().body.as_deref(), Some("{\"values\":[\"::1\"],\"ttl\":300}"));

    let mut narrow = AppConfig::new("0.0.0.0:3000".to_owned(), 3600);
    narrow.insert(
        "example.org".to_owned(),
        Whitelist {
            personal_access_token: "pat".to_owned(),
            records: vec![RecordRule {
                rrset_name: "test".to_owned(),
                rrset_type: "A".to_owned(),
                rrset_ttl_max: 600,
            }],
            authorizations: vec!["secret1".to_owned()],
        },
    );
    let outcome = answered(handle_update(&narrow, "example.org", "test", "A", "::1", None, secret("secret1")));
    assert_eq!(
        outcome,
        Outcome::Forbidden(AuthError::RecordNotWhitelisted {
            fqdn: "example.org".to_owned(),
            rrset_name: "test".to_owned(),
            rrset_type: "A".to_owned(),
            rrset_ttl: 3600,
        })
    );
}

#[test]
fn each_denial_is_forbidden_with_its_reason() {
    let config = config_with("pat");
    let outcome =
        answered(handle_update(&config, "example.com", "test", "A", "127.0.0.1", Some(300), secret("secret1")));
    assert_eq!(outcome, Outcome::Forbidden(AuthError::NotWhitelisted { fqdn: "example.com".to_owned() }));
    assert_eq!(outcome.status(), 403);
    assert_eq!(outcome.message(), "config: fqdn example.com is not whitelisted");

    let outcome =
        answered(handle_update(&config, "example.org", "test", "A", "127.0.0.1", Some(900), secret("secret1")));
    assert_eq!(outcome.status(), 403);
    assert_eq!(
        outcome.message(),
        "config: record test.example.org type A with ttl 900 is not whitelisted"
    );

    let outcome =
        answered(handle_update(&config, "example.org", "test", "A", "127.0.0.1", Some(300), secret("wrong")));
    assert_eq!(
        outcome,
        Outcome::Forbidden(AuthError::Forbidden {
            fqdn: "example.org".to_owned(),
            rrset_name: "test".to_owned(),
            rrset_type: "A".to_owned(),
        })
    );
    assert_eq!(outcome.status(), 403);
    assert_eq!(outcome.message(), "config: access forbidden to update record test.example.org type A");
}

#[test]
fn unreadable_header_is_a_bad_request() {
    let config = config_with("pat");
    let presented = Presented::Unreadable("failed to convert header to a str".to_owned());
    let outcome = answered(handle_update(&config, "example.org", "test", "A", "127.0.0.1", Some(300), presented));
    assert_eq!(outcome, Outcome::BadRequest("failed to convert header to a str".to_owned()));
    assert_eq!(outcome.status(), 400);
    assert_eq!(outcome.message(), "failed to convert header to a str");
}

#[test]
fn credential_that_no_header_carries_is_an_internal_error() {
    let config = config_with("pat\nwith a line break");
    let outcome =
        answered(handle_update(&config, "example.org", "test", "A", "127.0.0.1", Some(300), secret("secret1")));
    assert_eq!(outcome, Outcome::InternalError(Failure::Build(BuildError::InvalidCredential)));
    assert_eq!(outcome.status(), 500);
    assert_eq!(outcome.message(), "Personal Access Token header is invalid !");
}

#[test]
fn transport_failure_is_an_internal_error() {
    let config = config_with("pat");
    let pending =
        sent(handle_update(&config, "example.org", "test", "A", "127.0.0.1", Some(300), secret("secret1")));
    let outcome = pending.settle(Reply::Unreachable);
    assert_eq!(outcome, Outcome::InternalError(Failure::Call(CallError::Network)));
    assert_eq!(outcome.status(), 500);
    assert_eq!(outcome.message(), "Network issue !");
}

#[test]
fn redirect_to_an_upsert_is_an_internal_error() {
    let config = config_with("pat");
    let pending =
        sent(handle_update(&config, "example.org", "test", "A", "127.0.0.1", Some(300), secret("secret1")));
    assert_eq!(
        pending.settle(Reply::Status(302)),
        Outcome::InternalError(Failure::Call(CallError::Upstream(302)))
    );
}

#[test]
fn screen_grants_the_credential_and_the_effective_ttl() {
    let config = config_with("pat");
    assert_eq!(
        screen(&config, "example.org", "test", "A", None, secret("secret1")),
        Ok(Grant { credential: "pat".to_owned(), rrset_ttl: 300 })
    );
    assert_eq!(
        screen(&config, "example.org", "test", "A", Some(600), secret("secret1")),
        Ok(Grant { credential: "pat".to_owned(), rrset_ttl: 600 })
    );
    assert_eq!(
        screen(&config, "example.org", "test", "A", Some(600), Presented::Absent),
        Err(Outcome::Unauthenticated)
    );
}

#[test]
fn dispatch_ends_where_the_body_was_not_encoded() {
    let grant = Grant { credential: "pat".to_owned(), rrset_ttl: 300 };
    let outcome = answered(dispatch(&grant, "example.org", "test", "A", "127.0.0.1", Err(CallError::Encode)));
    assert_eq!(outcome, Outcome::InternalError(Failure::Call(CallError::Encode)));
    assert_eq!(outcome.message(), "Payload can't be encoded !");

    let unusable = Grant { credential: "p\u{7f}t".to_owned(), rrset_ttl: 300 };
    let outcome = answered(dispatch(&unusable, "example.org", "test", "A", "127.0.0.1", Err(CallError::Encode)));
    assert_eq!(outcome, Outcome::InternalError(Failure::Build(BuildError::InvalidCredential)));

    let pending = sent(dispatch(&grant, "example.org", "test", "A", "127.0.0.1", Ok("{}".to_owned())));
    assert_eq!(pending.call().request().body.as_deref(), Some("{}"));
    assert_eq!(pending.call().request().method, Method::Put);
}
