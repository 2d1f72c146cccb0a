use nyx_agent::modules::cognition::{
    http_failure, reply_text, ApiFailure, CognitionError, Reply,
};

fn candidates(texts: &[&[&str]]) -> Option<Vec<Vec<String>>> {
    Some(texts.iter().map(|parts| parts.iter().map(|t| t.to_string()).collect()).collect())
}

#[test]
fn reply_text_is_first_part_of_first_candidate() {
    let reply = Reply { candidates: candidates(&[&["plan A", "more"], &["plan B"]]), error: None };
    assert_eq!(reply_text(&reply), Ok("plan A".to_string()));
}

#[test]
fn reported_error_comes_first() {
    let reply = Reply {
        candidates: candidates(&[&["plan A"]]),
        error: Some(ApiFailure { message: "quota exceeded".to_string(), code: Some(429) }),
    };
    assert_eq!(
        reply_text(&reply),
        Err(CognitionError::ApiError("Gemini API error: quota exceeded (code: Some(429))".to_string()))
    );
    let no_code = Reply {
        candidates: None,
        error: Some(ApiFailure { message: "bad".to_string(), code: None }),
    };
    assert_eq!(
        reply_text(&no_code),
        Err(CognitionError::ApiError("Gemini API error: bad (code: None)".to_string()))
    );
    let negative = Reply {
        candidates: None,
        error: Some(ApiFailure { message: String::new(), code: Some(-7) }),
    };
    assert_eq!(
        reply_text(&negative),
        Err(CognitionError::ApiError("Gemini API error:  (code: Some(-7))".to_string()))
    );
}

#[test]
fn reply_without_text_is_a_parse_error() {
    let expected =
        Err(CognitionError::ParseError("No text content found in API response".to_string()));
    assert_eq!(reply_text(&Reply { candidates: None, error: None }), expected);
    assert_eq!(reply_text(&Reply { candidates: candidates(&[]), error: None }), expected);
    assert_eq!(reply_text(&Reply { candidates: candidates(&[&[]]), error: None }), expected);
    assert_eq!(
        reply_text(&Reply { candidates: candidates(&[&[], &["late"]]), error: None }),
        expected
    );
}

#[test]
fn http_failure_message() {
    assert_eq!(
        http_failure("404 Not Found", "no such model"),
        CognitionError::ApiError("HTTP 404 Not Found: no such model".to_string())
    );
}

#[test]
fn cognition_error_messages() {
    assert_eq!(
        CognitionError::ApiError("HTTP 500: down".to_string()).message(),
        "API returned an error: HTTP 500: down"
    );
    assert_eq!(
        CognitionError::ParseError("No text content found in API response".to_string()).message(),
        "Failed to parse API response: No text content found in API response"
    );
}
