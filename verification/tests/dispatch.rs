use load_test::dispatch::{body_text, classify, dispatch, status_code, Token};
use load_test::observe::{severity_of, Severity};

#[test]
fn dispatch_recognized_200() {
    assert_eq!(dispatch("200"), (200, "OK"));
}

#[test]
fn dispatch_recognized_400() {
    assert_eq!(dispatch("400"), (400, "Bad Request"));
}

#[test]
fn dispatch_recognized_500() {
    assert_eq!(dispatch("500"), (500, "Internal Server Error"));
}

#[test]
fn dispatch_numeric_fallback() {
    assert_eq!(dispatch("404"), (404, "Not Found"));
}

#[test]
fn dispatch_empty_fallback() {
    assert_eq!(dispatch(""), (404, "Not Found"));
}

#[test]
fn dispatch_text_fallback() {
    assert_eq!(dispatch("abc"), (404, "Not Found"));
}

#[test]
fn dispatch_near_miss_fallback() {
    assert_eq!(dispatch("2000"), (404, "Not Found"));
    assert_eq!(dispatch("20"), (404, "Not Found"));
    assert_eq!(dispatch(" 200"), (404, "Not Found"));
    assert_eq!(dispatch("200 "), (404, "Not Found"));
}

#[test]
fn dispatch_idempotent() {
    let inputs = ["200", "400", "500", "404", "", "abc"];
    for s in inputs {
        let first = dispatch(s);
        let second = dispatch(s);
        assert_eq!(first, second);
    }
}

#[test]
fn classify_recognized_tokens() {
    assert_eq!(classify("200"), Token::Okay);
    assert_eq!(classify("400"), Token::BadRequest);
    assert_eq!(classify("500"), Token::ServerError);
    assert_eq!(classify("302"), Token::Unknown);
    assert_eq!(classify(""), Token::Unknown);
}

#[test]
fn status_code_of_each_token() {
    assert_eq!(status_code(Token::Okay), 200);
    assert_eq!(status_code(Token::BadRequest), 400);
    assert_eq!(status_code(Token::ServerError), 500);
    assert_eq!(status_code(Token::Unknown), 404);
}

#[test]
fn body_text_of_each_token() {
    assert_eq!(body_text(Token::Okay), "OK");
    assert_eq!(body_text(Token::BadRequest), "Bad Request");
    assert_eq!(body_text(Token::ServerError), "Internal Server Error");
    assert_eq!(body_text(Token::Unknown), "Not Found");
}

#[test]
fn severity_info_only_for_success() {
    assert_eq!(severity_of(classify("200")), Severity::Info);
    assert_eq!(severity_of(classify("400")), Severity::Warning);
    assert_eq!(severity_of(classify("500")), Severity::Warning);
    assert_eq!(severity_of(classify("404")), Severity::Warning);
    assert_eq!(severity_of(classify("")), Severity::Warning);
}
