use zeroidle::release::{find_asset_url, json_str_value};

// The same scan written with `str` slicing, to compare the library against.
fn sliced_json_str_value<'a>(json: &'a str, key: &str) -> Option<&'a str> {
    let needle = format!("\"{}\"", key);
    let mut pos = 0;
    loop {
        let idx = pos + json[pos..].find(&needle)?;
        let after_key = &json[idx + needle.len()..];
        if let Some(after_colon) = after_key.trim_start().strip_prefix(':') {
            let after_ws = after_colon.trim_start();
            let inner = after_ws.strip_prefix('"')?;
            let end = inner.find('"')?;
            return Some(&inner[..end]);
        }
        pos = idx + 1;
    }
}

fn sliced_find_asset_url(json: &str, target: &str) -> Option<String> {
    let assets_start = json.find("\"assets\"")?;
    let arr_start = json[assets_start..].find('[')? + assets_start;
    let arr_end = json[arr_start..].find(']')? + arr_start;
    let assets_json = &json[arr_start..=arr_end];
    let mut pos = 0;
    while let Some(obj_start) = assets_json[pos..].find('{') {
        let obj_start = pos + obj_start;
        let obj_end = match assets_json[obj_start..].find('}') {
            Some(e) => obj_start + e,
            None => break,
        };
        let obj = &assets_json[obj_start..=obj_end];
        if let Some(name) = sliced_json_str_value(obj, "name") {
            if name == target {
                return sliced_json_str_value(obj, "browser_download_url").map(String::from);
            }
        }
        pos = obj_end + 1;
    }
    None
}

const RELEASE: &str = r#"{"id":42,"tag_name":"v1.2.3","name":"Release 1.2.3","assets":[{"id":1,"name":"notes.txt","browser_download_url":"https://example.org/notes.txt"},{"id":2,"name":"IDM-Activator.zip","size":1000,"browser_download_url":"https://example.org/IDM-Activator.zip"}],"draft":false}"#;

#[test]
fn tag_name_is_read() {
    assert_eq!(json_str_value(RELEASE, "tag_name").as_deref(), Some("v1.2.3"));
}

#[test]
fn value_with_whitespace_around_colon() {
    assert_eq!(json_str_value("{ \"a\" \t:\n  \"x y\" }", "a").as_deref(), Some("x y"));
    assert_eq!(json_str_value("{\"a\"\u{a0}:\u{2003}\"z\"}", "a").as_deref(), Some("z"));
}

#[test]
fn non_string_or_missing_values() {
    assert_eq!(json_str_value("{\"a\": 5}", "a"), None);
    assert_eq!(json_str_value("{\"a\" 5}", "a"), None);
    assert_eq!(json_str_value("{\"b\": \"x\"}", "a"), None);
    assert_eq!(json_str_value("{\"a\": \"unterminated}", "a"), None);
    assert_eq!(json_str_value("", "a"), None);
}

#[test]
fn first_key_followed_by_a_colon_wins() {
    assert_eq!(json_str_value("{\"a\": 1, \"a\": \"two\"}", "a"), None);
    assert_eq!(json_str_value("{\"a\": \"one\", \"a\": \"two\"}", "a").as_deref(), Some("one"));
}

#[test]
fn key_text_inside_a_value_is_passed_over() {
    assert_eq!(json_str_value(r#"{"a":"name","name":"x"}"#, "name").as_deref(), Some("x"));
    assert_eq!(json_str_value(r#"{"a":"name" , "b" : "name"}"#, "name"), None);
    assert_eq!(
        json_str_value(r#"{"name":"IDM-Activator.zip","tag_name":"v9"}"#, "tag_name").as_deref(),
        Some("v9")
    );
}

#[test]
fn written_pair_is_read_back() {
    for (k, v) in [("k", "v"), ("tag_name", "v1.0"), ("", ""), ("é k", "ü v")] {
        let json = format!("{{\"{}\"  :  \"{}\"}}", k, v);
        assert_eq!(json_str_value(&json, k).as_deref(), Some(v));
    }
}

#[test]
fn asset_url_is_found() {
    assert_eq!(
        find_asset_url(RELEASE, "IDM-Activator.zip").as_deref(),
        Some("https://example.org/IDM-Activator.zip")
    );
    assert_eq!(
        find_asset_url(RELEASE, "notes.txt").as_deref(),
        Some("https://example.org/notes.txt")
    );
    assert_eq!(find_asset_url(RELEASE, "other.zip"), None);
    assert_eq!(find_asset_url("{\"tag_name\":\"v1\"}", "IDM-Activator.zip"), None);
    assert_eq!(find_asset_url("{\"assets\":[]}", "IDM-Activator.zip"), None);
}

#[test]
fn matches_the_sliced_scan() {
    let keys = ["a", "tag_name", "name", "browser_download_url", "assets", "é"];
    let cases = [
        RELEASE,
        "{\"a\":\"1\"}",
        "{\"a\" : \"\"}",
        "\"a\":\"x\"\"a\"",
        "{\"é\":\"ü\", \"a\":\"b\"}",
        "{\"assets\": [ {\"name\": \"a\", \"browser_download_url\": \"u\"} , {\"name\":\"b\"} ]}",
        "{\"assets\": [ {\"name\": \"b\" }, {\"browser_download_url\": \"v\", \"name\": \"b\"} ]}",
        "{\"assets\": [ {\"name\": \"b\", \"x\": {\"y\": 1}, \"browser_download_url\": \"w\"} ]}",
        "{\"assets\": { \"name\": \"a\" } [ ] }",
        "{\"assets\": [ {\"name\": \"a\" ]",
        "{\"x\":\"name\",\"name\":\"a\",\"assets\":[{\"u\":\"name\",\"name\":\"b\",\"browser_download_url\":\"r\"}]}",
        "\"a\"\"a\": \"z\"",
        "[\"assets\"]",
        "\"assets\"[{\"name\":\"a\",\"browser_download_url\":\"q\"}]",
    ];
    for c in cases {
        for k in keys {
            assert_eq!(json_str_value(c, k).as_deref(), sliced_json_str_value(c, k), "{} / {}", c, k);
        }
        for t in ["a", "b", "IDM-Activator.zip", "notes.txt"] {
            assert_eq!(find_asset_url(c, t), sliced_find_asset_url(c, t), "{} / {}", c, t);
        }
    }
}

#[test]
fn values_never_hold_quotes_and_stand_in_the_text() {
    for (json, key) in [(RELEASE, "tag_name"), ("{\"a\":\"x\\\"y\"}", "a"), ("{\"k\" : \" sp \"}", "k")] {
        if let Some(v) = json_str_value(json, key) {
            assert!(!v.contains('"'));
            assert!(json.contains(v.as_str()));
        }
    }
    // an escaped quote ends the value early: the scan does not unescape
    assert_eq!(json_str_value("{\"a\":\"x\\\"y\"}", "a").as_deref(), Some("x\\"));
}
