use signalwire::address::{address_or_error, fits, with_query, MAX_QUERY_BYTES};
use signalwire::client::SignalWireClient;
use signalwire::errors::SignalWireError;
use signalwire::http::{HttpMethod, HttpRequest, RequestBody};
use signalwire::json::{number_object_around, purchase_body};
use signalwire::types::SmsMessage;

fn client() -> SignalWireClient {
    SignalWireClient::new("example", "project-1", "key-1")
}

fn pair(name: &str, value: &str) -> (String, String) {
    (name.to_string(), value.to_string())
}

fn request(method: HttpMethod, url: &str, body: RequestBody) -> HttpRequest {
    HttpRequest {
        method,
        url: url.to_string(),
        username: "project-1".to_string(),
        password: "key-1".to_string(),
        body,
    }
}

#[test]
fn a_new_client_holds_its_credentials() {
    let client = SignalWireClient::new("space", "project", "key");
    assert_eq!(client.space_name, "space");
    assert_eq!(client.project_id, "project");
    assert_eq!(client.api_key, "key");
}

#[test]
fn addresses_follow_their_templates() {
    let client = client();
    assert_eq!(client.jwt_address(), "https://example.signalwire.com/api/relay/rest/jwt");
    assert_eq!(
        client.available_numbers_address("US"),
        "https://example.signalwire.com/api/laml/2010-04-01/Accounts/project-1/AvailablePhoneNumbers/US/Local"
    );
    assert_eq!(
        client.phone_numbers_address(),
        "https://example.signalwire.com/api/relay/rest/phone_numbers"
    );
    assert_eq!(
        client.messages_address(),
        "https://example.signalwire.com/api/laml/2010-04-01/Accounts/project-1/Messages"
    );
    assert_eq!(
        client.message_address("SM123"),
        "https://example.signalwire.com/api/laml/2010-04-01/Accounts/project-1/Messages/SM123"
    );
    assert_eq!(
        client.accounts_address(),
        "https://example.signalwire.com/api/laml/2010-04-01/Accounts"
    );
    assert_eq!(
        client.account_address("AC9"),
        "https://example.signalwire.com/api/laml/2010-04-01/Accounts/AC9"
    );
    assert_eq!(
        client.incoming_numbers_address("AC9"),
        "https://example.signalwire.com/api/laml/2010-04-01/Accounts/AC9/IncomingPhoneNumbers"
    );
}

#[test]
fn every_request_carries_the_credentials() {
    let request = SignalWireClient::new("s", "the-project", "the-key").request(
        HttpMethod::Delete,
        "https://s.signalwire.com/x".to_string(),
        RequestBody::Absent,
    );
    assert_eq!(request.method, HttpMethod::Delete);
    assert_eq!(request.url, "https://s.signalwire.com/x");
    assert_eq!(request.username, "the-project");
    assert_eq!(request.password, "the-key");
    assert_eq!(request.body, RequestBody::Absent);
}

#[test]
fn token_exchange_posts_an_empty_body() {
    assert_eq!(
        client().get_jwt_request(),
        request(
            HttpMethod::Post,
            "https://example.signalwire.com/api/relay/rest/jwt",
            RequestBody::Empty
        )
    );
}

#[test]
fn search_for_numbers_carries_the_query() {
    let params = vec![pair("AreaCode", "206"), pair("Contains", "555****")];
    assert_eq!(
        client().get_phone_numbers_available_request("US", &params),
        Ok(request(
            HttpMethod::Get,
            "https://example.signalwire.com/api/laml/2010-04-01/Accounts/project-1/AvailablePhoneNumbers/US/Local?AreaCode=206&Contains=555****",
            RequestBody::Absent
        ))
    );
}

#[test]
fn owned_numbers_listing_carries_the_query() {
    let params = vec![pair("filter_name", "Jenny"), pair("filter_number", "+1 555")];
    assert_eq!(
        client().get_phone_numbers_owned_request(&params),
        Ok(request(
            HttpMethod::Get,
            "https://example.signalwire.com/api/relay/rest/phone_numbers?filter_name=Jenny&filter_number=%2B1+555",
            RequestBody::Absent
        ))
    );
}

#[test]
fn a_query_without_pairs_is_empty() {
    assert_eq!(
        client().get_phone_numbers_owned_request(&[]),
        Ok(request(
            HttpMethod::Get,
            "https://example.signalwire.com/api/relay/rest/phone_numbers?",
            RequestBody::Absent
        ))
    );
}

#[test]
fn subprojects_listing_carries_the_query() {
    let params = vec![pair("FriendlyName", "Office & Lab"), pair("Status", "active")];
    assert_eq!(
        client().list_subprojects_request(&params),
        Ok(request(
            HttpMethod::Get,
            "https://example.signalwire.com/api/laml/2010-04-01/Accounts?FriendlyName=Office+%26+Lab&Status=active",
            RequestBody::Absent
        ))
    );
}

#[test]
fn pairs_appear_in_the_query_in_their_order() {
    let params = vec![pair("Type", "carrier"), pair("Type", "caller-name"), pair("Type", "carrier")];
    assert_eq!(
        with_query("https://example.signalwire.com/lookup", &params),
        Ok("https://example.signalwire.com/lookup?Type=carrier&Type=caller-name&Type=carrier"
            .to_string())
    );
}

#[test]
fn pairs_are_added_to_a_query_that_is_there() {
    assert_eq!(
        with_query("https://example.net?dont=clobberme", &[pair("lang", "rust")]),
        Ok("https://example.net/?dont=clobberme&lang=rust".to_string())
    );
}

#[test]
fn a_base_that_is_no_address_is_unexpected() {
    assert_eq!(
        with_query("not an address", &[pair("a", "b")]),
        Err(SignalWireError::Unexpected("relative URL without a base".to_string()))
    );
    assert_eq!(
        with_query("", &[]),
        Err(SignalWireError::Unexpected("relative URL without a base".to_string()))
    );
}

#[test]
fn a_space_that_is_no_host_is_unexpected() {
    let client = SignalWireClient::new("bad host", "project-1", "key-1");
    let refused = SignalWireError::Unexpected("invalid international domain name".to_string());
    assert_eq!(
        client.get_phone_numbers_owned_request(&[pair("filter_name", "Jenny")]),
        Err(refused.clone())
    );
    assert_eq!(client.list_subprojects_request(&[]), Err(refused.clone()));
    assert_eq!(client.get_phone_numbers_available_request("US", &[]), Err(refused.clone()));
    assert_eq!(client.get_subproject_phone_numbers_request("AC9", &[]), Err(refused));
}

#[test]
fn a_refusal_carries_the_words_of_the_parser() {
    for (base, words) in [
        ("https://", "empty host"),
        ("https://example.net:port/", "invalid port number"),
        ("https://[::g]/", "invalid IPv6 address"),
        ("/only/a/path", "relative URL without a base"),
    ] {
        assert_eq!(
            with_query(base, &[pair("a", "b")]),
            Err(SignalWireError::Unexpected(words.to_string())),
            "{base}"
        );
    }
}

#[test]
fn input_up_to_the_limit_fits() {
    assert!(fits("", &[]));
    assert!(fits("https://example.signalwire.com/", &[pair("a", "b")]));
    let base = "x".repeat(MAX_QUERY_BYTES);
    assert!(fits(&base, &[]));
    let base = "x".repeat(MAX_QUERY_BYTES - 4);
    assert!(fits(&base, &[pair("a", "b")]));
    let base = "x".repeat(MAX_QUERY_BYTES - 6);
    assert!(fits(&base, &[pair("a", ""), pair("", "b")]));
}

#[test]
fn input_beyond_the_limit_does_not_fit() {
    let base = "x".repeat(MAX_QUERY_BYTES + 1);
    assert!(!fits(&base, &[]));
    let base = "x".repeat(MAX_QUERY_BYTES - 3);
    assert!(!fits(&base, &[pair("a", "b")]));
    let base = "x".repeat(MAX_QUERY_BYTES);
    assert!(!fits(&base, &[pair("", "")]));
    let value = "v".repeat(MAX_QUERY_BYTES);
    assert!(!fits("https://example.signalwire.com/", &[pair("a", "b"), pair("c", &value)]));
}

#[test]
fn lengths_are_counted_in_bytes() {
    // U+00E9 takes two bytes, U+1F4DE four.
    let base = "\u{e9}".repeat(MAX_QUERY_BYTES / 2);
    assert!(fits(&base, &[]));
    let base = "\u{e9}".repeat(MAX_QUERY_BYTES / 2 + 1);
    assert!(!fits(&base, &[]));
    let value = "\u{1f4de}".repeat(MAX_QUERY_BYTES / 4);
    assert!(!fits("", &[pair("", &value)]));
    let value = "\u{1f4de}".repeat(MAX_QUERY_BYTES / 4 - 1);
    assert!(fits("", &[pair("", &value)]));
}

#[test]
fn a_query_that_is_too_long_is_unexpected() {
    let value = "v".repeat(MAX_QUERY_BYTES);
    let too_long =
        SignalWireError::Unexpected("address and query parameters are too long".to_string());
    assert_eq!(
        with_query("https://example.signalwire.com/", &[pair("a", &value)]),
        Err(too_long.clone())
    );
    assert_eq!(client().get_phone_numbers_owned_request(&[pair("a", &value)]), Err(too_long.clone()));
    assert_eq!(client().list_subprojects_request(&[pair("a", &value)]), Err(too_long.clone()));
    assert_eq!(
        client().get_phone_numbers_available_request("US", &[pair("a", &value)]),
        Err(too_long.clone())
    );
    assert_eq!(
        client().get_subproject_phone_numbers_request("AC9", &[pair("a", &value)]),
        Err(too_long)
    );
}

#[test]
fn the_end_of_writing_an_address_keeps_what_came() {
    assert_eq!(
        address_or_error(Ok("https://example.net/?a=b".to_string())),
        Ok("https://example.net/?a=b".to_string())
    );
    assert_eq!(
        address_or_error(Err("empty host".to_string())),
        Err(SignalWireError::Unexpected("empty host".to_string()))
    );
}

#[test]
fn purchase_sends_the_number_as_json() {
    assert_eq!(
        client().buy_phone_number_request("+15558675309"),
        request(
            HttpMethod::Post,
            "https://example.signalwire.com/api/relay/rest/phone_numbers",
            RequestBody::Json("{\"number\":\"+15558675309\"}".to_string())
        )
    );
}

#[test]
fn purchase_body_has_exactly_the_field_number() {
    for number in ["+15558675309", "", "a \"quoted\" \\ number", "line\nbreak\ttab", "\u{e9}\u{1f4de}"] {
        let body = purchase_body(number);
        let value: serde_json::Value = serde_json::from_str(&body).unwrap();
        let object = value.as_object().unwrap();
        assert_eq!(object.len(), 1, "{body}");
        assert_eq!(object.get("number").and_then(|v| v.as_str()), Some(number), "{body}");
    }
}

#[test]
fn purchase_body_is_written_without_spaces() {
    assert_eq!(purchase_body("+1 555"), "{\"number\":\"+1 555\"}");
    assert_eq!(purchase_body("a\"b"), "{\"number\":\"a\\\"b\"}");
    assert_eq!(purchase_body(""), "{\"number\":\"\"}");
}

#[test]
fn quote_and_backslash_are_escaped() {
    assert_eq!(purchase_body("\""), "{\"number\":\"\\\"\"}");
    assert_eq!(purchase_body("\\"), "{\"number\":\"\\\\\"}");
    assert_eq!(purchase_body("/"), "{\"number\":\"/\"}");
}

#[test]
fn control_characters_are_escaped() {
    assert_eq!(purchase_body("\u{8}"), "{\"number\":\"\\b\"}");
    assert_eq!(purchase_body("\t"), "{\"number\":\"\\t\"}");
    assert_eq!(purchase_body("\n"), "{\"number\":\"\\n\"}");
    assert_eq!(purchase_body("\u{c}"), "{\"number\":\"\\f\"}");
    assert_eq!(purchase_body("\r"), "{\"number\":\"\\r\"}");
    assert_eq!(purchase_body("\u{0}"), "{\"number\":\"\\u0000\"}");
    assert_eq!(purchase_body("\u{b}"), "{\"number\":\"\\u000b\"}");
    assert_eq!(purchase_body("\u{1f}"), "{\"number\":\"\\u001f\"}");
    assert_eq!(purchase_body("\u{1a}"), "{\"number\":\"\\u001a\"}");
}

#[test]
fn other_characters_are_written_as_they_are() {
    assert_eq!(purchase_body(" "), "{\"number\":\" \"}");
    assert_eq!(purchase_body("\u{7f}"), "{\"number\":\"\u{7f}\"}");
    assert_eq!(purchase_body("\u{80}"), "{\"number\":\"\u{80}\"}");
    assert_eq!(purchase_body("\u{e9}\u{1f4de}"), "{\"number\":\"\u{e9}\u{1f4de}\"}");
    assert_eq!(purchase_body("\u{2028}"), "{\"number\":\"\u{2028}\"}");
}

fn written(c: char) -> String {
    match c {
        '"' => "\\\"".to_string(),
        '\\' => "\\\\".to_string(),
        '\u{8}' => "\\b".to_string(),
        '\t' => "\\t".to_string(),
        '\n' => "\\n".to_string(),
        '\u{c}' => "\\f".to_string(),
        '\r' => "\\r".to_string(),
        c if (c as u32) < 0x20 => format!("\\u{:04x}", c as u32),
        c => c.to_string(),
    }
}

#[test]
fn every_character_is_written_by_the_same_rule() {
    let mut text = String::new();
    let mut expected = String::from("{\"number\":\"");
    for code in (0..0x300u32).chain([0x7ff, 0x800, 0xd7ff, 0xe000, 0xffff, 0x10000, 0x10ffff]) {
        let c = char::from_u32(code).unwrap();
        assert_eq!(purchase_body(&c.to_string()), format!("{{\"number\":\"{}\"}}", written(c)));
        text.push(c);
        expected.push_str(&written(c));
    }
    expected.push_str("\"}");
    assert_eq!(purchase_body(&text), expected);
}

#[test]
fn the_object_is_put_around_the_string_as_it_is() {
    assert_eq!(number_object_around("\"x\""), "{\"number\":\"x\"}");
    assert_eq!(number_object_around(""), "{\"number\":}");
}

#[test]
fn sending_a_message_posts_the_form() {
    let message = SmsMessage {
        body: "hi there".to_string(),
        from: "+15551234567".to_string(),
        to: "+15559876543".to_string(),
    };
    assert_eq!(
        client().send_sms_request(&message),
        request(
            HttpMethod::Post,
            "https://example.signalwire.com/api/laml/2010-04-01/Accounts/project-1/Messages",
            RequestBody::Form(vec![
                pair("From", "+15551234567"),
                pair("To", "+15559876543"),
                pair("Body", "hi there"),
            ])
        )
    );
}

#[test]
fn asking_for_a_message_gets_its_address() {
    assert_eq!(
        client().get_message_status_request("SM123"),
        request(
            HttpMethod::Get,
            "https://example.signalwire.com/api/laml/2010-04-01/Accounts/project-1/Messages/SM123",
            RequestBody::Absent
        )
    );
}

#[test]
fn asking_for_a_subproject_gets_its_address() {
    assert_eq!(
        client().get_subproject_request("AC9"),
        request(
            HttpMethod::Get,
            "https://example.signalwire.com/api/laml/2010-04-01/Accounts/AC9",
            RequestBody::Absent
        )
    );
}

#[test]
fn creating_a_subproject_posts_its_name() {
    assert_eq!(
        client().create_subproject_request("Office"),
        request(
            HttpMethod::Post,
            "https://example.signalwire.com/api/laml/2010-04-01/Accounts",
            RequestBody::Form(vec![pair("FriendlyName", "Office")])
        )
    );
}

#[test]
fn updating_a_subproject_posts_its_name() {
    assert_eq!(
        client().update_subproject_request("AC9", "Office - Updated", None),
        request(
            HttpMethod::Post,
            "https://example.signalwire.com/api/laml/2010-04-01/Accounts/AC9",
            RequestBody::Form(vec![pair("FriendlyName", "Office - Updated")])
        )
    );
}

#[test]
fn updating_a_subproject_posts_its_status_where_given() {
    assert_eq!(
        client().update_subproject_request("AC9", "Office", Some("suspended")),
        request(
            HttpMethod::Post,
            "https://example.signalwire.com/api/laml/2010-04-01/Accounts/AC9",
            RequestBody::Form(vec![pair("FriendlyName", "Office"), pair("Status", "suspended")])
        )
    );
}

#[test]
fn deleting_a_subproject_sends_delete() {
    assert_eq!(
        client().delete_subproject_request("AC9"),
        request(
            HttpMethod::Delete,
            "https://example.signalwire.com/api/laml/2010-04-01/Accounts/AC9",
            RequestBody::Absent
        )
    );
}

#[test]
fn numbers_of_a_subproject_are_listed_with_one_request() {
    let params = vec![pair("filter_name", "Jenny")];
    assert_eq!(
        client().get_subproject_phone_numbers_request("AC9", &params),
        Ok(request(
            HttpMethod::Get,
            "https://example.signalwire.com/api/laml/2010-04-01/Accounts/AC9/IncomingPhoneNumbers?filter_name=Jenny",
            RequestBody::Absent
        ))
    );
    assert_eq!(
        client().get_subproject_phone_numbers_request("AC9", &[]),
        Ok(request(
            HttpMethod::Get,
            "https://example.signalwire.com/api/laml/2010-04-01/Accounts/AC9/IncomingPhoneNumbers?",
            RequestBody::Absent
        ))
    );
}

#[test]
fn identifiers_are_put_into_the_address_as_they_are() {
    assert_eq!(
        client().get_subproject_request("a b/../c?d#e").url,
        "https://example.signalwire.com/api/laml/2010-04-01/Accounts/a b/../c?d#e"
    );
    assert_eq!(
        SignalWireClient::new("", "", "").get_message_status_request("").url,
        "https://.signalwire.com/api/laml/2010-04-01/Accounts//Messages/"
    );
}
