use std::cell::RefCell;

use icndb::client::finish;
use icndb::request::request_url;
use icndb::response::decode;
use icndb::text::unescape_quotes;
use icndb::{ApiClient, Error, ErrorKind, Joke, Scheme, Target};

const QUOTED: &str =
    "{\"value\":{\"id\":1,\"joke\":\"Chuck Norris said &quot;hi&quot;\",\"categories\":[]}}";

fn envelope(id: u64, joke: &str, categories: &[&str]) -> String {
    let cats: Vec<String> = categories.iter().map(|c| format!("\"{}\"", c)).collect();
    format!(
        "{{\"value\":{{\"id\":{},\"joke\":\"{}\",\"categories\":[{}]}}}}",
        id,
        joke,
        cats.join(",")
    )
}

#[test]
fn it_works() {
    let client = ApiClient::new();
    let result = client.next(|_url: &str| Ok(envelope(7, "A joke.", &["nerdy"])));
    assert!(result.is_ok(), "{:?}", result);
}

#[test]
fn decodes_envelope_and_unescapes_quotes() {
    let joke = decode(QUOTED).unwrap();
    assert_eq!(joke.id, 1);
    assert_eq!(joke.content, "Chuck Norris said \"hi\"");
    assert!(joke.categories.is_empty());
}

#[test]
fn malformed_text_is_an_api_error() {
    let err = decode("not json").unwrap_err();
    assert_eq!(err.kind(), ErrorKind::Api);
    assert!(err.cause().is_none());
}

#[test]
fn wrong_shape_is_an_api_error() {
    assert_eq!(decode("{\"type\":\"success\"}").unwrap_err().kind(), ErrorKind::Api);
    assert_eq!(decode("[1,2,3]").unwrap_err().kind(), ErrorKind::Api);
    let no_id = "{\"value\":{\"joke\":\"x\",\"categories\":[]}}";
    assert_eq!(decode(no_id).unwrap_err().kind(), ErrorKind::Api);
    let negative = "{\"value\":{\"id\":-1,\"joke\":\"x\",\"categories\":[]}}";
    assert_eq!(decode(negative).unwrap_err().kind(), ErrorKind::Api);
    let bad_cat = "{\"value\":{\"id\":1,\"joke\":\"x\",\"categories\":[\"a\",2]}}";
    assert_eq!(decode(bad_cat).unwrap_err().kind(), ErrorKind::Api);
}

#[test]
fn extra_members_are_ignored() {
    let text = "{\"type\":\"success\",\"value\":{\"id\":23,\"joke\":\"x\",\"categories\":[\"nerdy\",\"explicit\"],\"extra\":true}}";
    let joke = decode(text).unwrap();
    assert_eq!(joke.id, 23);
    assert_eq!(joke.content, "x");
    assert_eq!(joke.categories, vec!["nerdy".to_string(), "explicit".to_string()]);
}

#[test]
fn largest_id_decodes() {
    let joke = decode(&envelope(u64::MAX, "big", &[])).unwrap();
    assert_eq!(joke.id, u64::MAX);
}

#[test]
fn transport_failure_is_a_network_error() {
    let client = ApiClient::new();
    let result = client.get_by_id(5, |_url: &str| {
        Err(Error::network("connection refused".to_string()))
    });
    let err = result.unwrap_err();
    assert_eq!(err.kind(), ErrorKind::Network);
    assert_eq!(err.cause().map(|c| c.as_str()), Some("connection refused"));
    assert_eq!(err.description(), "unable to contact ICNDB");
}

#[test]
fn unreadable_body_is_an_io_error() {
    let err = finish(Err(Error::io("stream did not contain valid UTF-8".to_string()))).unwrap_err();
    assert_eq!(err.kind(), ErrorKind::IO);
    assert_eq!(err.description(), "unable to decode response");
    assert_eq!(err.message(), "unable to decode response: stream did not contain valid UTF-8");
}

#[test]
fn api_error_description() {
    let err = Error::api();
    assert_eq!(err.description(), "ICNDB returned an error");
    assert_eq!(err.message(), "ICNDB returned an error");
}

#[test]
fn names_go_into_the_url_and_come_back_unchanged() {
    let client = ApiClient::new();
    let seen = RefCell::new(String::new());
    let result = client.next_with_names("Maximus", "Hardcorion", |url: &str| {
        *seen.borrow_mut() = url.to_string();
        Ok(envelope(3, "Maximus Hardcorion can divide by zero.", &[]))
    });
    assert!(seen.borrow().contains("firstName=Maximus&lastName=Hardcorion"));
    assert_eq!(
        *seen.borrow(),
        "http://api.icndb.com/jokes/random?firstName=Maximus&lastName=Hardcorion"
    );
    let joke = result.unwrap();
    assert!(joke.content.contains("Maximus Hardcorion"));
    assert_eq!(joke.content, "Maximus Hardcorion can divide by zero.");
}

#[test]
fn urls_of_each_request() {
    assert_eq!(request_url(Scheme::Plain, Target::Random, None), "http://api.icndb.com/jokes/random");
    assert_eq!(request_url(Scheme::Encrypted, Target::ById(23), None), "https://api.icndb.com/jokes/23");
    assert_eq!(request_url(Scheme::Plain, Target::ById(0), None), "http://api.icndb.com/jokes/0");
    assert_eq!(
        request_url(Scheme::Plain, Target::ById(u64::MAX), None),
        "http://api.icndb.com/jokes/18446744073709551615"
    );
    assert_eq!(
        request_url(Scheme::Encrypted, Target::ById(105), Some(("A", "B"))),
        "https://api.icndb.com/jokes/105?firstName=A&lastName=B"
    );
    let client = ApiClient::with_scheme(Scheme::Encrypted);
    assert_eq!(client.scheme(), Scheme::Encrypted);
    assert_eq!(client.url(Target::Random, None), "https://api.icndb.com/jokes/random");
}

#[test]
fn get_by_id_with_names_sends_both() {
    let client = ApiClient::new();
    let seen = RefCell::new(String::new());
    let joke = client
        .get_by_id_with_names(42, "John", "Doe", |url: &str| {
            *seen.borrow_mut() = url.to_string();
            Ok(envelope(42, "John Doe &quot;counts&quot;", &["nerdy"]))
        })
        .unwrap();
    assert_eq!(*seen.borrow(), "http://api.icndb.com/jokes/42?firstName=John&lastName=Doe");
    assert_eq!(joke.content, "John Doe \"counts\"");
    assert_eq!(joke.categories, vec!["nerdy".to_string()]);
}

#[test]
fn returned_id_need_not_match_request() {
    let client = ApiClient::new();
    let joke = client.get_by_id(9, |_url: &str| Ok(envelope(10, "x", &[]))).unwrap();
    assert_eq!(joke.id, 10);
}

#[test]
fn same_body_gives_equal_jokes() {
    let client = ApiClient::new();
    let body = envelope(15, "Chuck &quot;once&quot; counted", &["nerdy"]);
    let first: Joke = client.get_by_id(15, |_url: &str| Ok(body.clone())).unwrap();
    let second: Joke = client.get_by_id(15, |_url: &str| Ok(body.clone())).unwrap();
    assert_eq!(first.id, second.id);
    assert_eq!(first.content, second.content);
    assert_eq!(first.categories, second.categories);
}

#[test]
fn unescaping_twice_changes_nothing() {
    let once = unescape_quotes("a &quot;b&quot; &amp;quot; &&quot;quot;");
    assert_eq!(once, "a \"b\" &amp;quot; &\"quot;");
    assert_eq!(unescape_quotes(&once), once);
    assert_eq!(unescape_quotes(""), "");
    assert_eq!(unescape_quotes("&quot"), "&quot");
}
