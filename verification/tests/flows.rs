use haste::error::{ErrorKind, FlowError};
use haste::get::{plan_get, report_fetch, saved_message, FetchReport, GetPlan};
use haste::post::{plan_post, posted_url, PostPlan, PostResult};
use haste::request::{plan_request, Method, Request};
use haste::resolver::{resolve, Resolved};
use haste::wire::{create_url, document_url, fetch_url, is_not_found, DEFAULT_SERVER, NOT_FOUND_BODY};

fn args(words: &[&str]) -> Vec<String> {
    words.iter().map(|w| w.to_string()).collect()
}

#[test]
fn get_with_a_raw_url_fetches_that_url() {
    assert_eq!(
        plan_get(&args(&["get", "https://hasteb.in/raw/abc123"])),
        Ok(GetPlan { url: "https://hasteb.in/raw/abc123".to_string(), output: None })
    );
}

#[test]
fn raw_url_is_resolved_and_fetched_as_written() {
    let found = resolve("https://hasteb.in/raw/abc123", None).unwrap();
    assert_eq!(
        found,
        Resolved {
            server: "https://hasteb.in".to_string(),
            key: "abc123".to_string(),
            embedded: true,
        }
    );
    assert_eq!(fetch_url(&found.server, &found.key), "https://hasteb.in/raw/abc123");
}

#[test]
fn get_with_a_document_url_fetches_its_raw_form() {
    assert_eq!(
        plan_get(&args(&["get", "https://hasteb.in/abc123"])),
        Ok(GetPlan { url: "https://hasteb.in/raw/abc123".to_string(), output: None })
    );
}

#[test]
fn get_with_a_bare_key_needs_a_server() {
    let failed = plan_get(&args(&["get", "abc123"]));
    assert_eq!(failed, Err(FlowError::MissingServer));
    assert_eq!(FlowError::MissingServer.message(), "Expected `server` argument.");
}

#[test]
fn get_without_a_key_is_refused() {
    assert_eq!(plan_get(&args(&["get"])), Err(FlowError::MissingKey));
    assert_eq!(plan_get(&args(&[])), Err(FlowError::MissingKey));
    assert_eq!(FlowError::MissingKey.message(), "Expected at least 1 argument. (key)");
}

#[test]
fn get_with_a_malformed_key_is_refused() {
    assert_eq!(plan_get(&args(&["get", "a b", "https://hasteb.in"])), Err(FlowError::MalformedKey));
    assert_eq!(plan_get(&args(&["get", ""])), Err(FlowError::MalformedKey));
}

#[test]
fn get_with_a_bare_key_and_a_server() {
    assert_eq!(
        plan_get(&args(&["get", "abc123", "https://paste.example.org"])),
        Ok(GetPlan { url: "https://paste.example.org/raw/abc123".to_string(), output: None })
    );
}

#[test]
fn output_path_follows_the_server_argument() {
    assert_eq!(
        plan_get(&args(&["get", "abc123", "https://paste.example.org", "out.txt"])),
        Ok(GetPlan {
            url: "https://paste.example.org/raw/abc123".to_string(),
            output: Some("out.txt".to_string()),
        })
    );
}

#[test]
fn output_path_follows_a_url_directly() {
    assert_eq!(
        plan_get(&args(&["get", "https://hasteb.in/abc123", "out.txt"])),
        Ok(GetPlan {
            url: "https://hasteb.in/raw/abc123".to_string(),
            output: Some("out.txt".to_string()),
        })
    );
    assert_eq!(
        plan_get(&args(&["get", "https://hasteb.in/raw/abc123", "out.txt", "more"])),
        Ok(GetPlan {
            url: "https://hasteb.in/raw/abc123".to_string(),
            output: Some("out.txt".to_string()),
        })
    );
}

#[test]
fn fetch_request_has_no_body() {
    let plan = plan_get(&args(&["get", "https://hasteb.in/raw/abc123"])).unwrap();
    assert_eq!(
        plan_request(&plan.url, ""),
        Request {
            method: Method::Get,
            url: "https://hasteb.in/raw/abc123".to_string(),
            body: String::new(),
        }
    );
}

#[test]
fn request_with_a_body_is_posted() {
    assert_eq!(
        plan_request("https://hasteb.in/documents", "hello world"),
        Request {
            method: Method::Post,
            url: "https://hasteb.in/documents".to_string(),
            body: "hello world".to_string(),
        }
    );
    assert_eq!(plan_request("u", " ").method, Method::Post);
}

#[test]
fn not_found_answer_is_reported_and_nothing_is_saved() {
    let body = "{\"message\":\"Document not found.\"}";
    assert_eq!(NOT_FOUND_BODY, body);
    let expected =
        FetchReport { found: false, printed: "Document not found.".to_string(), save_to: None };
    assert_eq!(report_fetch(body, None), expected);
    assert_eq!(report_fetch(body, Some("out.txt")), expected);
}

#[test]
fn not_found_answer_is_compared_exactly() {
    assert!(is_not_found("{\"message\":\"Document not found.\"}"));
    assert!(!is_not_found("{\"message\":\"Document not found.\"}\n"));
    assert!(!is_not_found("{\"message\": \"Document not found.\"}"));
    assert!(!is_not_found(""));
    let near = "{\"message\":\"Document not found.\"} ";
    assert_eq!(
        report_fetch(near, Some("out.txt")),
        FetchReport { found: true, printed: near.to_string(), save_to: Some("out.txt".to_string()) }
    );
}

#[test]
fn document_is_printed_as_it_is() {
    assert_eq!(
        report_fetch("fn main() {}\n", None),
        FetchReport { found: true, printed: "fn main() {}\n".to_string(), save_to: None }
    );
    assert_eq!(
        report_fetch("", Some("empty.txt")),
        FetchReport { found: true, printed: String::new(), save_to: Some("empty.txt".to_string()) }
    );
}

#[test]
fn saving_is_confirmed_with_the_path() {
    assert_eq!(saved_message("out.txt"), "Successfully outputted content into out.txt");
}

#[test]
fn post_defaults_to_the_default_server() {
    let plan = plan_post(&args(&["post", "notes.txt"])).unwrap();
    assert_eq!(
        plan,
        PostPlan {
            input_path: "notes.txt".to_string(),
            server: "https://hasteb.in".to_string(),
            raw: false,
        }
    );
    let request = plan_request(&create_url(&plan.server), "hello world");
    assert_eq!(request.method, Method::Post);
    assert_eq!(request.url, "https://hasteb.in/documents");
    assert_eq!(request.body, "hello world");
    let result = PostResult { key: "xyz789".to_string() };
    assert_eq!(posted_url(&plan, &result), "https://hasteb.in/xyz789");
}

#[test]
fn post_with_a_raw_flag_shows_the_raw_url() {
    let plan = plan_post(&args(&["post", "notes.txt", "https://hasteb.in", "raw"])).unwrap();
    assert_eq!(
        plan,
        PostPlan {
            input_path: "notes.txt".to_string(),
            server: "https://hasteb.in".to_string(),
            raw: true,
        }
    );
    let result = PostResult { key: "xyz789".to_string() };
    assert_eq!(posted_url(&plan, &result), "https://hasteb.in/raw/xyz789");
}

#[test]
fn raw_flag_counts_whatever_its_text() {
    assert!(plan_post(&args(&["post", "a", "https://x.y", "false"])).unwrap().raw);
    assert!(plan_post(&args(&["post", "a", "https://x.y", ""])).unwrap().raw);
    assert!(!plan_post(&args(&["post", "a", "https://x.y"])).unwrap().raw);
}

#[test]
fn post_takes_the_server_as_written() {
    let plan = plan_post(&args(&["post", "a.txt", "http://localhost:7777"])).unwrap();
    assert_eq!(plan.server, "http://localhost:7777");
    assert_eq!(create_url(&plan.server), "http://localhost:7777/documents");
}

#[test]
fn post_without_an_input_is_refused() {
    assert_eq!(plan_post(&args(&["post"])), Err(FlowError::MissingInput));
    assert_eq!(plan_post(&args(&[])), Err(FlowError::MissingInput));
    assert_eq!(FlowError::MissingInput.message(), "Expected at least 1 argument. (input)");
}

#[test]
fn posting_an_empty_file_sends_a_fetch() {
    assert_eq!(plan_request(&create_url(DEFAULT_SERVER), "").method, Method::Get);
}

#[test]
fn addresses_are_built_from_server_and_key() {
    assert_eq!(DEFAULT_SERVER, "https://hasteb.in");
    assert_eq!(fetch_url("https://hasteb.in", "abc123"), "https://hasteb.in/raw/abc123");
    assert_eq!(create_url("https://hasteb.in"), "https://hasteb.in/documents");
    assert_eq!(document_url("https://hasteb.in", false, "k"), "https://hasteb.in/k");
    assert_eq!(document_url("https://hasteb.in", true, "k"), "https://hasteb.in/raw/k");
    assert_eq!(fetch_url("", ""), "/raw/");
}

#[test]
fn posted_document_is_fetched_from_its_raw_url() {
    let plan = plan_post(&args(&["post", "notes.txt", "https://paste.example.org"])).unwrap();
    let shown = posted_url(&plan, &PostResult { key: "K1".to_string() });
    let fetch = plan_get(&args(&["get", &shown])).unwrap();
    assert_eq!(fetch.url, "https://paste.example.org/raw/K1");
    let raw = plan_post(&args(&["post", "notes.txt", "https://paste.example.org", "raw"])).unwrap();
    let shown_raw = posted_url(&raw, &PostResult { key: "K1".to_string() });
    assert_eq!(plan_get(&args(&["get", &shown_raw])).unwrap().url, fetch.url);
}

#[test]
fn every_failure_has_its_kind_and_message() {
    let all = [
        (FlowError::MissingKey, ErrorKind::Usage, "Expected at least 1 argument. (key)"),
        (FlowError::MissingInput, ErrorKind::Usage, "Expected at least 1 argument. (input)"),
        (FlowError::MalformedKey, ErrorKind::Usage, "Expected a key or a document URL."),
        (FlowError::MissingServer, ErrorKind::Resolution, "Expected `server` argument."),
        (FlowError::FetchFailed, ErrorKind::Transport, "Couldn't get document."),
        (FlowError::CreateFailed, ErrorKind::Transport, "Couldn't post document."),
        (FlowError::ReadFailed, ErrorKind::LocalIo, "Couldn't read file."),
        (FlowError::WriteFailed, ErrorKind::LocalIo, "Couldn't create file."),
        (FlowError::DecodeFailed, ErrorKind::Decode, "Couldn't read the server's answer."),
    ];
    for (error, kind, message) in all {
        assert_eq!(error.kind(), kind);
        assert_eq!(error.message(), message);
    }
}
