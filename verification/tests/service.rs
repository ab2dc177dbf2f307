use url_shortener::handlers::add_entry_response;
use url_shortener::handlers::handle_creation;
use url_shortener::handlers::handle_redirect;
use url_shortener::handlers::make_full_url;
use url_shortener::handlers::resolve_lookup;
use url_shortener::handlers::validate_request;
use url_shortener::handlers::CreationRequest;
use url_shortener::handlers::RedirectOutcome;
use url_shortener::id::generate_random_id;
use url_shortener::store::StoreError;

fn is_id_char(c: char) -> bool {
    c.is_ascii_lowercase() || c.is_ascii_digit()
}

#[test]
fn short_id_has_length_ten_and_lowercase_alphanumeric_alphabet() {
    for _ in 0..50 {
        let id = generate_random_id();
        assert_eq!(id.chars().count(), 10);
        assert!(id.chars().all(is_id_char));
    }
}

#[test]
fn identical_destinations_get_distinct_short_ids() {
    let first = handle_creation(CreationRequest {
        destination_url: Some(String::from("https://example.com")),
    })
    .expect("creation with a destination must succeed");
    let second = handle_creation(CreationRequest {
        destination_url: Some(String::from("https://example.com")),
    })
    .expect("creation with a destination must succeed");
    assert_eq!(first.1, "https://example.com");
    assert_eq!(second.1, "https://example.com");
    assert_ne!(first.0, second.0);
}

#[test]
fn missing_destination_is_rejected_before_any_write() {
    let mut fake_store: Vec<(String, String)> = Vec::new();
    let mut writes: u32 = 0;

    let outcome = handle_creation(CreationRequest { destination_url: None });
    if let Ok(entry) = outcome {
        writes += 1;
        fake_store.push(entry);
    } else {
        assert!(outcome.is_err());
    }
    assert_eq!(writes, 0);
    assert!(fake_store.is_empty());
}

#[test]
fn validate_request_passes_the_destination_through() {
    let ok = validate_request(CreationRequest {
        destination_url: Some(String::from("https://example.com/a?b=c")),
    });
    assert_eq!(ok.unwrap(), "https://example.com/a?b=c");

    let err = validate_request(CreationRequest { destination_url: None });
    assert!(err.is_err());
}

#[test]
fn full_url_is_host_slash_id() {
    let url = make_full_url("http://localhost:8080", "abc123xyz0");
    assert_eq!(url, "http://localhost:8080/abc123xyz0");
}

#[test]
fn successful_write_answers_with_echoed_fields() {
    let entry = (String::from("q7w8e9r0t1"), String::from("https://example.com"));
    let resp = add_entry_response("http://short.test", Ok(entry))
        .expect("a successful write must give a success response");
    assert_eq!(resp.short_id, "q7w8e9r0t1");
    assert_eq!(resp.full_url, "http://short.test/q7w8e9r0t1");
    assert_eq!(resp.destination_url, "https://example.com");
}

#[test]
fn failed_write_answers_500_with_a_generic_message() {
    let resp = add_entry_response("http://short.test", Err(StoreError));
    let err = match resp {
        Ok(_) => panic!("a failed write must not give a success response"),
        Err(e) => e,
    };
    assert_eq!(err.status, 500);
    assert_eq!(err.message, "Failed to create shortened URL");
}

#[test]
fn found_lookup_redirects_with_stored_location() {
    let outcome = handle_redirect(Ok(Some(String::from("https://example.com"))));
    assert_eq!(outcome.status(), 307);
    match outcome {
        RedirectOutcome::Temporary { location } => {
            assert_eq!(location, "https://example.com");
        }
        RedirectOutcome::NotFound => panic!("a stored destination must redirect"),
    }
}

#[test]
fn absent_key_answers_404() {
    let outcome = handle_redirect(Ok(None));
    assert_eq!(outcome.status(), 404);
    assert!(matches!(outcome, RedirectOutcome::NotFound));
}

#[test]
fn store_failure_on_read_also_answers_404() {
    let outcome = handle_redirect(Err(StoreError));
    assert_eq!(outcome.status(), 404);
    assert!(matches!(outcome, RedirectOutcome::NotFound));
}

#[test]
fn resolve_lookup_reports_absence_through_the_error_channel() {
    let found = resolve_lookup(Ok(Some(String::from("https://example.com"))));
    assert_eq!(found.unwrap(), "https://example.com");

    assert!(resolve_lookup(Ok(None)).is_err());
    assert!(resolve_lookup(Err(StoreError)).is_err());
}

#[test]
fn create_then_redirect_scenario() {
    let host = "http://localhost:8080";
    let mut fake_store: Vec<(String, String)> = Vec::new();

    // POST / with {"destination_url": "https://example.com"}
    let entry = handle_creation(CreationRequest {
        destination_url: Some(String::from("https://example.com")),
    })
    .expect("creation with a destination must succeed");
    fake_store.push((entry.0.clone(), entry.1.clone()));
    let resp = add_entry_response(host, Ok(entry))
        .expect("a successful write must give a success response");
    assert_eq!(resp.short_id.chars().count(), 10);
    assert!(resp.short_id.chars().all(is_id_char));
    assert_eq!(resp.full_url, format!("{}/{}", host, resp.short_id));
    assert_eq!(resp.destination_url, "https://example.com");

    // GET /<short_id>
    let looked_up = fake_store
        .iter()
        .find(|(k, _)| *k == resp.short_id)
        .map(|(_, v)| v.clone());
    let outcome = handle_redirect(Ok(looked_up));
    assert_eq!(outcome.status(), 307);
    match outcome {
        RedirectOutcome::Temporary { location } => {
            assert_eq!(location, "https://example.com");
        }
        RedirectOutcome::NotFound => panic!("the created id must redirect"),
    }

    // GET /doesnotexist1
    let missing = fake_store
        .iter()
        .find(|(k, _)| *k == "doesnotexist1")
        .map(|(_, v)| v.clone());
    let outcome = handle_redirect(Ok(missing));
    assert_eq!(outcome.status(), 404);
}
