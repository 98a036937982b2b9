use hello_api::digits::u32_to_string;
use hello_api::json_out::{error_body, message_body};
use hello_api::person::{person_from_fields, BodyError, Person};
use hello_api::routes::{create_person, greet, post_data, post_request, reply_to_fields};

#[test]
fn greet_returns_constant_greeting() {
    let r = greet();
    assert_eq!(r.status, 200);
    assert_eq!(r.body, "Hello from the server!");
}

#[test]
fn greet_is_the_same_on_every_call() {
    let a = greet();
    let b = greet();
    assert_eq!(a.status, b.status);
    assert_eq!(a.body, b.body);
}

#[test]
fn create_person_formats_exact_message() {
    let p = Person { name: String::from("Ada"), age: 30 };
    let r = create_person(&p);
    assert_eq!(r.status, 200);
    assert_eq!(r.body, "{\"message\":\"Hello Ada, you are 30 years old.\"}");
}

#[test]
fn post_data_accepts_valid_record() {
    let r = post_data(b"{\"name\": \"Ada\", \"age\": 30}");
    assert_eq!(r.status, 200);
    assert_eq!(r.body, "{\"message\":\"Hello Ada, you are 30 years old.\"}");
}

#[test]
fn post_data_missing_age_is_rejected() {
    let r = post_data(b"{\"name\": \"Ada\"}");
    assert_eq!(r.status, 400);
    assert_eq!(r.body, "{\"error\":\"missing or invalid age\"}");
}

#[test]
fn post_data_missing_name_is_rejected() {
    let r = post_data(b"{\"age\": 30}");
    assert_eq!(r.status, 400);
    assert_eq!(r.body, "{\"error\":\"missing or invalid name\"}");
}

#[test]
fn post_data_negative_age_is_rejected() {
    let r = post_data(b"{\"name\": \"Ada\", \"age\": -5}");
    assert_eq!(r.status, 400);
    assert_eq!(r.body, "{\"error\":\"missing or invalid age\"}");
}

#[test]
fn post_data_textual_age_is_rejected() {
    let r = post_data(b"{\"name\": \"Ada\", \"age\": \"thirty\"}");
    assert_eq!(r.status, 400);
}

#[test]
fn post_data_fractional_age_is_rejected() {
    let r = post_data(b"{\"name\": \"Ada\", \"age\": 30.5}");
    assert_eq!(r.status, 400);
}

#[test]
fn post_data_plain_text_is_rejected() {
    let r = post_data(b"hello there");
    assert_eq!(r.status, 400);
    assert_eq!(r.body, "{\"error\":\"invalid JSON body\"}");
}

#[test]
fn post_data_empty_body_is_rejected() {
    let r = post_data(b"");
    assert_eq!(r.status, 400);
    assert_eq!(r.body, "{\"error\":\"invalid JSON body\"}");
}

#[test]
fn post_data_non_object_json_is_rejected() {
    let r = post_data(b"[1, 2]");
    assert_eq!(r.status, 400);
}

#[test]
fn post_data_accepts_empty_name() {
    let r = post_data(b"{\"name\": \"\", \"age\": 0}");
    assert_eq!(r.status, 200);
    assert_eq!(r.body, "{\"message\":\"Hello , you are 0 years old.\"}");
}

#[test]
fn post_data_accepts_largest_age() {
    let r = post_data(b"{\"name\": \"Max\", \"age\": 4294967295}");
    assert_eq!(r.status, 200);
    assert_eq!(r.body, "{\"message\":\"Hello Max, you are 4294967295 years old.\"}");
}

#[test]
fn post_data_age_beyond_32_bits_is_rejected() {
    let r = post_data(b"{\"name\": \"Max\", \"age\": 4294967296}");
    assert_eq!(r.status, 400);
    assert_eq!(r.body, "{\"error\":\"age out of range\"}");
}

#[test]
fn post_data_escapes_quotes_and_backslashes_in_name() {
    let r = post_data(b"{\"name\": \"A\\\"B\\\\C\", \"age\": 1}");
    assert_eq!(r.status, 200);
    assert_eq!(r.body, "{\"message\":\"Hello A\\\"B\\\\C, you are 1 years old.\"}");
}

#[test]
fn post_data_passes_accented_name_through() {
    let body = String::from("{\"name\": \"H\u{e9}lo\u{ef}se\", \"age\": 2}");
    let r = post_data(body.as_bytes());
    assert_eq!(r.status, 200);
    assert_eq!(r.body, "{\"message\":\"Hello H\u{e9}lo\u{ef}se, you are 2 years old.\"}");
}

#[test]
fn post_request_rejects_non_json_content_type() {
    let r = post_request(false, b"{\"name\": \"Ada\", \"age\": 30}");
    assert_eq!(r.status, 400);
    assert_eq!(r.body, "{\"error\":\"content type is not JSON\"}");
}

#[test]
fn post_request_accepts_json_content_type() {
    let r = post_request(true, b"{\"name\": \"Ada\", \"age\": 30}");
    assert_eq!(r.status, 200);
    assert_eq!(r.body, "{\"message\":\"Hello Ada, you are 30 years old.\"}");
}

#[test]
fn reply_to_fields_exact_outcomes() {
    let ok = reply_to_fields(Some("Zoe"), Some(9));
    assert_eq!(ok.status, 200);
    assert_eq!(ok.body, "{\"message\":\"Hello Zoe, you are 9 years old.\"}");
    let no_name = reply_to_fields(None, Some(9));
    assert_eq!(no_name.status, 400);
    assert_eq!(no_name.body, "{\"error\":\"missing or invalid name\"}");
    let no_age = reply_to_fields(Some("Zoe"), None);
    assert_eq!(no_age.status, 400);
    assert_eq!(no_age.body, "{\"error\":\"missing or invalid age\"}");
    let too_old = reply_to_fields(Some("Zoe"), Some(4294967296));
    assert_eq!(too_old.status, 400);
    assert_eq!(too_old.body, "{\"error\":\"age out of range\"}");
}

#[test]
fn person_from_fields_exact_outcomes() {
    let ok = person_from_fields(Some("Ada"), Some(30));
    match ok {
        Ok(p) => {
            assert_eq!(p.name, "Ada");
            assert_eq!(p.age, 30);
        }
        Err(_) => panic!("a valid pair was rejected"),
    }
    assert!(matches!(person_from_fields(None, Some(1)), Err(BodyError::BadName)));
    assert!(matches!(person_from_fields(None, None), Err(BodyError::BadName)));
    assert!(matches!(person_from_fields(Some("Ada"), None), Err(BodyError::BadAge)));
    assert!(matches!(
        person_from_fields(Some("Ada"), Some(4294967296)),
        Err(BodyError::AgeTooLarge)
    ));
}

#[test]
fn u32_to_string_renders_decimal() {
    assert_eq!(u32_to_string(0), "0");
    assert_eq!(u32_to_string(7), "7");
    assert_eq!(u32_to_string(30), "30");
    assert_eq!(u32_to_string(100), "100");
    assert_eq!(u32_to_string(4294967295), "4294967295");
}

#[test]
fn message_body_quotes_the_message() {
    assert_eq!(message_body("x"), "{\"message\":\"x\"}");
    assert_eq!(message_body(""), "{\"message\":\"\"}");
    assert_eq!(message_body("a\"b"), "{\"message\":\"a\\\"b\"}");
}

#[test]
fn error_body_is_fixed_per_error() {
    assert_eq!(
        error_body(&BodyError::BadContentType),
        "{\"error\":\"content type is not JSON\"}"
    );
    assert_eq!(error_body(&BodyError::NotJson), "{\"error\":\"invalid JSON body\"}");
    assert_eq!(error_body(&BodyError::BadName), "{\"error\":\"missing or invalid name\"}");
    assert_eq!(error_body(&BodyError::BadAge), "{\"error\":\"missing or invalid age\"}");
    assert_eq!(error_body(&BodyError::AgeTooLarge), "{\"error\":\"age out of range\"}");
}
