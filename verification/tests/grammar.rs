use haste::resolver::{resolve, ResolveError};
use regex::Regex;

const SHAPE: &str = r"^(?:(https?://[^\s/]+\.[^\s/]+)/(?:raw/)?)?(\S+)$";

const SAMPLES: [&str; 40] = [
    "",
    " ",
    "abc123",
    "abc 123",
    " abc123",
    "abc123\n",
    "a",
    "/",
    "raw/abc",
    "host.tld/abc",
    "https://hasteb.in/raw/abc123",
    "https://hasteb.in/abc123",
    "http://hasteb.in/raw/abc123",
    "http://hasteb.in/abc123",
    "https://hasteb.in/",
    "https://hasteb.in",
    "https://hasteb.in/raw/",
    "https://hasteb.in/raw",
    "https://hasteb.in/raw/raw/abc",
    "https://hasteb.in/a/b/c",
    "https://hasteb.in//abc",
    "https://localhost/abc",
    "https://.in/abc",
    "https://hasteb./abc",
    "https://./abc",
    "https://../abc",
    "https://.../abc",
    "https://a.b.c.d/raw/e.f",
    "https:///abc",
    "https://",
    "http://",
    "https:/hasteb.in/abc",
    "HTTPS://hasteb.in/abc",
    "httpss://hasteb.in/abc",
    "ftp://hasteb.in/abc",
    "xhttps://hasteb.in/abc",
    "https://hasteb.in/abc def",
    "https://hast eb.in/abc",
    "https://h\u{f6}st.tld/raw/cl\u{e9}",
    "https://host.tld/raw/\u{a0}",
];

#[test]
fn resolver_accepts_the_shape_of_the_pattern() {
    let shape = Regex::new(SHAPE).unwrap();
    for sample in SAMPLES {
        let resolved = resolve(sample, Some("https://given.example"));
        match shape.captures(sample) {
            None => assert_eq!(resolved, Err(ResolveError::Malformed), "{:?}", sample),
            Some(found) => {
                let resolved = resolved.unwrap();
                assert_eq!(resolved.key, found.get(2).unwrap().as_str(), "{:?}", sample);
                match found.get(1) {
                    Some(origin) => {
                        assert!(resolved.embedded, "{:?}", sample);
                        assert_eq!(resolved.server, origin.as_str(), "{:?}", sample);
                    }
                    None => {
                        assert!(!resolved.embedded, "{:?}", sample);
                        assert_eq!(resolved.server, "https://given.example", "{:?}", sample);
                    }
                }
            }
        }
    }
}

#[test]
fn bare_key_without_server_fails_where_the_pattern_finds_no_origin() {
    let shape = Regex::new(SHAPE).unwrap();
    for sample in SAMPLES {
        let resolved = resolve(sample, None);
        match shape.captures(sample) {
            None => assert_eq!(resolved, Err(ResolveError::Malformed), "{:?}", sample),
            Some(found) => match found.get(1) {
                Some(_) => assert!(resolved.is_ok(), "{:?}", sample),
                None => assert_eq!(resolved, Err(ResolveError::MissingServer), "{:?}", sample),
            },
        }
    }
}
