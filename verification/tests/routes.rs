use rustaceans::auth::Credentials;
use rustaceans::handlers::{hello, not_auth};
use rustaceans::models::{NewRustacean, Rustacean};
use rustaceans::routes::{begin, Endpoint, Step, LIST_LIMIT};
use rustaceans::storage::Query;

const GOOD: &str = "Basic Zm9vOmJhcg==";
const WRONG_PASSWORD: &str = "Basic Zm9vOndyb25n";

fn configured() -> Credentials {
    Credentials { username: "foo".to_string(), password: "bar".to_string() }
}

fn start(endpoint: Endpoint, authorization: Option<&str>) -> Step {
    begin(endpoint, authorization, Some(&configured()))
}

fn payload() -> NewRustacean {
    NewRustacean { name: "Ferris".to_string(), email: "ferris@rust-lang.org".to_string() }
}

fn record(id: i32, created_at: &str) -> Rustacean {
    Rustacean {
        id,
        name: "Corro".to_string(),
        email: "corro@rust-lang.org".to_string(),
        created_at: created_at.to_string(),
    }
}

fn guarded() -> Vec<Endpoint> {
    vec![
        Endpoint::GetRustaceans,
        Endpoint::ViewRustacean { id: 1 },
        Endpoint::CreateRustacean { new_rustacean: payload() },
        Endpoint::UpdateRustacean { id: 1, rustacean: record(1, "") },
        Endpoint::DeleteRustaceans { id: 1 },
    ]
}

#[test]
fn list_limit_is_one_hundred() {
    assert_eq!(LIST_LIMIT, 100);
}

#[test]
fn only_the_greeting_is_unguarded() {
    assert!(!Endpoint::Hello.is_guarded());
    for endpoint in guarded() {
        assert!(endpoint.is_guarded());
    }
}

#[test]
fn greeting_has_no_query() {
    assert_eq!(Endpoint::Hello.query(), None);
}

#[test]
fn listing_asks_for_one_hundred_records() {
    assert_eq!(Endpoint::GetRustaceans.query(), Some(Query::FindMultiple { limit: 100 }));
}

#[test]
fn lookup_asks_for_the_id_of_the_path() {
    assert_eq!(Endpoint::ViewRustacean { id: 42 }.query(), Some(Query::Find { id: 42 }));
    assert_eq!(Endpoint::ViewRustacean { id: -1 }.query(), Some(Query::Find { id: -1 }));
}

#[test]
fn creation_hands_the_payload_on() {
    assert_eq!(
        Endpoint::CreateRustacean { new_rustacean: payload() }.query(),
        Some(Query::Create { new_rustacean: payload() })
    );
}

#[test]
fn update_takes_the_id_from_the_path_and_ignores_the_bodys() {
    let expected = Some(Query::Save {
        id: 5,
        name: "Corro".to_string(),
        email: "corro@rust-lang.org".to_string(),
    });
    assert_eq!(
        Endpoint::UpdateRustacean { id: 5, rustacean: record(5, "2024-05-01 12:00:00") }.query(),
        expected
    );
    assert_eq!(
        Endpoint::UpdateRustacean { id: 5, rustacean: record(999, "1970-01-01 00:00:00") }
            .query(),
        expected
    );
}

#[test]
fn removal_asks_for_the_id_of_the_path() {
    assert_eq!(Endpoint::DeleteRustaceans { id: 7 }.query(), Some(Query::Delete { id: 7 }));
}

#[test]
fn greeting_is_answered_without_credentials() {
    assert_eq!(start(Endpoint::Hello, None), Step::Respond(hello()));
    assert_eq!(start(Endpoint::Hello, Some(WRONG_PASSWORD)), Step::Respond(hello()));
    assert_eq!(start(Endpoint::Hello, Some(GOOD)), Step::Respond(hello()));
}

#[test]
fn every_guarded_endpoint_proceeds_with_the_configured_pair() {
    assert_eq!(
        start(Endpoint::GetRustaceans, Some(GOOD)),
        Step::Run(Query::FindMultiple { limit: 100 })
    );
    assert_eq!(
        start(Endpoint::ViewRustacean { id: 3 }, Some(GOOD)),
        Step::Run(Query::Find { id: 3 })
    );
    assert_eq!(
        start(Endpoint::CreateRustacean { new_rustacean: payload() }, Some(GOOD)),
        Step::Run(Query::Create { new_rustacean: payload() })
    );
    assert_eq!(
        start(
            Endpoint::UpdateRustacean { id: 3, rustacean: record(8, "x") },
            Some(GOOD)),
        Step::Run(Query::Save {
            id: 3,
            name: "Corro".to_string(),
            email: "corro@rust-lang.org".to_string()
        })
    );
    assert_eq!(
        start(Endpoint::DeleteRustaceans { id: 3 }, Some(GOOD)),
        Step::Run(Query::Delete { id: 3 })
    );
}

#[test]
fn every_guarded_endpoint_refuses_a_wrong_password() {
    for endpoint in guarded() {
        assert_eq!(start(endpoint, Some(WRONG_PASSWORD)), Step::Respond(not_auth()));
    }
}

#[test]
fn every_guarded_endpoint_refuses_a_wrong_scheme() {
    for endpoint in guarded() {
        assert_eq!(
            start(endpoint, Some("Bearer Zm9vOmJhcg==")),
            Step::Respond(not_auth())
        );
    }
}

#[test]
fn every_guarded_endpoint_refuses_a_malformed_header() {
    for header in ["", "Basic", "Basic ", "Basic ???", "Basic Zm9vYmFy", "Zm9vOmJhcg=="] {
        for endpoint in guarded() {
            assert_eq!(start(endpoint, Some(header)), Step::Respond(not_auth()));
        }
    }
}

#[test]
fn every_guarded_endpoint_refuses_an_absent_header() {
    for endpoint in guarded() {
        assert_eq!(start(endpoint, None), Step::Respond(not_auth()));
    }
}

#[test]
fn refusal_is_exactly_the_fixed_401() {
    match start(Endpoint::GetRustaceans, None) {
        Step::Respond(response) => {
            assert_eq!(response.status.code(), 401);
            assert_eq!(response.body, rustaceans::response::Body::Text("Not auth!".to_string()));
        }
        Step::Run(query) => panic!("ran {:?} without credentials", query),
    }
}

#[test]
fn every_guarded_endpoint_refuses_everyone_without_a_configured_pair() {
    for header in [Some(GOOD), Some(WRONG_PASSWORD), Some("Basic Og=="), None] {
        for endpoint in guarded() {
            assert_eq!(begin(endpoint, header, None), Step::Respond(not_auth()));
        }
    }
}

#[test]
fn greeting_is_answered_without_a_configured_pair() {
    assert_eq!(begin(Endpoint::Hello, None, None), Step::Respond(hello()));
    assert_eq!(begin(Endpoint::Hello, Some(GOOD), None), Step::Respond(hello()));
}
