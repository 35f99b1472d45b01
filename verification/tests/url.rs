use media_catalog::domain::url::{is_valid, Url};
use media_catalog::exception::UrlParseFailed;

fn chars(text: &str) -> Vec<char> {
    text.chars().collect()
}

#[test]
fn absolute_url_is_accepted_and_kept_as_given() {
    let url = Url::try_from("https://example.com").unwrap();
    assert_eq!(url.as_str(), "https://example.com");
    assert_eq!(url.to_string(), "https://example.com");
}

#[test]
fn owned_string_is_accepted_as_well() {
    let url = Url::try_from("http://example.com/a/b?c=d#e".to_string()).unwrap();
    assert_eq!(url.as_str(), "http://example.com/a/b?c=d#e");
    let parsed = Url::parse("ftp://files.example.org".to_string()).unwrap();
    assert_eq!(parsed.as_str(), "ftp://files.example.org");
}

#[test]
fn scheme_may_hold_digits_and_signs_after_its_first_letter() {
    assert!(Url::try_from("a1+-.://host").is_ok());
    assert!(Url::try_from("x://h").is_ok());
    assert!(Url::try_from("HTTPS://EXAMPLE.COM").is_ok());
    assert!(Url::try_from("https://user@[::1]:8080/p%20q").is_ok());
}

#[test]
fn text_that_is_no_url_is_refused_with_the_text() {
    let failure = Url::try_from("not a url").unwrap_err();
    assert_eq!(failure, UrlParseFailed::new("not a url".to_string()));
    assert_eq!(failure.url(), "not a url");
}

#[test]
fn empty_text_is_refused() {
    let failure = Url::try_from("").unwrap_err();
    assert_eq!(failure, UrlParseFailed::new(String::new()));
    assert_eq!(failure.url(), "");
}

#[test]
fn url_without_scheme_or_authority_is_refused() {
    assert!(Url::try_from("example.com").is_err());
    assert!(Url::try_from("://example.com").is_err());
    assert!(Url::try_from("1http://example.com").is_err());
    assert!(Url::try_from("http:/example.com").is_err());
    assert!(Url::try_from("http:example.com").is_err());
    assert!(Url::try_from("http://").is_err());
    assert!(Url::try_from("http:///path").is_err());
    assert!(Url::try_from("http://?query").is_err());
    assert!(Url::try_from("http://#fragment").is_err());
    assert!(Url::try_from("ht_tp://example.com").is_err());
    assert!(Url::try_from("/relative/path").is_err());
}

#[test]
fn url_with_a_character_outside_the_grammar_is_refused() {
    assert!(Url::try_from("https://exa mple.com").is_err());
    assert!(Url::try_from("https://example.com/\"").is_err());
    assert!(Url::try_from("https://example.com/<a>").is_err());
    assert!(Url::try_from("https://example.com/\n").is_err());
    assert!(Url::try_from("https://ex\u{e4}mple.com").is_err());
    assert!(Url::try_from(" https://example.com").is_err());
}

#[test]
fn validity_is_decided_on_characters() {
    assert!(is_valid(&chars("https://example.com")));
    assert!(is_valid(&chars("a://b")));
    assert!(!is_valid(&chars("a://")));
    assert!(!is_valid(&chars("a:/")));
    assert!(!is_valid(&chars("")));
    assert!(!is_valid(&chars("not a url")));
}

#[test]
fn failure_says_which_text_was_refused() {
    let failure = UrlParseFailed::new("not a url".to_string());
    assert_eq!(failure.to_string(), "\"not a url\" is invalid url");
    let quoted = UrlParseFailed::new("a\"b\\c".to_string());
    assert_eq!(quoted.to_string(), "\"a\\\"b\\\\c\" is invalid url");
}

#[test]
fn urls_compare_as_their_text() {
    let a = Url::try_from("https://a.example").unwrap();
    let b = Url::try_from("https://b.example").unwrap();
    let again = Url::try_from("https://a.example".to_string()).unwrap();
    assert_eq!(a, again);
    assert_ne!(a, b);
    assert!(a < b);
    assert_eq!(a.clone(), a);
}
