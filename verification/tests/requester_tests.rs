use quizgen::errors::GenError;
use quizgen::json::Json;
use quizgen::requester::{
    build_prompt, check_quiz_payload, extract_quiz_content, interpret_reply, is_success_status,
    parse_quiz, prepare_request,
};

const VALID_QUIZ: &str = "{\"subject\":\"Math\",\"difficulty\":\"easy\",\"questions\":[{\"text\":\"1+1?\",\"choices\":[{\"text\":\"2\",\"is_correct\":true},{\"text\":\"3\",\"is_correct\":false},{\"text\":\"4\",\"is_correct\":false}]}]}";

fn reply_with_content(content: &str) -> String {
    let mut body = String::from("{\"choices\":[{\"message\":{\"content\":");
    let encoded = serde_json::to_string(content).unwrap();
    body.push_str(&encoded);
    body.push_str("}}]}");
    body
}

#[test]
fn object_lookup_finds_first_member_by_exact_key() {
    let doc = Json::Obj(vec![
        ("alpha".to_string(), Json::Bool(false)),
        ("beta".to_string(), Json::Text("first".to_string())),
        ("beta".to_string(), Json::Text("second".to_string())),
    ]);
    assert!(matches!(doc.get("alpha"), Some(Json::Bool(false))));
    match doc.get("beta") {
        Some(Json::Text(s)) => assert_eq!(s, "first"),
        _ => panic!("expected the first 'beta' member"),
    }
    assert!(doc.get("Beta").is_none());
    assert!(doc.get("gamma").is_none());
    assert!(Json::Null.get("alpha").is_none());
}

#[test]
fn missing_credential_is_config_error() {
    let r = prepare_request("Biology", "easy", None);
    assert!(matches!(r, Err(GenError::Config)));
    let msg = r.err().unwrap().message();
    assert_eq!(msg, "GROQ_API_KEY not found in env");
}

#[test]
fn credential_is_trimmed_into_auth_header() {
    let r = prepare_request("Biology", "easy", Some("  secret-key \n".to_string()));
    let req = r.ok().unwrap();
    assert_eq!(req.auth_header, "Bearer secret-key");
    assert_eq!(req.url, "https://api.groq.com/openai/v1/chat/completions");
    assert_eq!(req.model, "llama-3.3-70b-versatile");
    assert_eq!(req.response_format_type, "json_object");
    assert_eq!(req.messages.len(), 2);
    assert_eq!(req.messages[0].role, "system");
    assert_eq!(
        req.messages[0].content,
        "You are a quiz generator that outputs only valid JSON."
    );
    assert_eq!(req.messages[1].role, "user");
    assert_eq!(req.messages[1].content, build_prompt("Biology", "easy"));
}

#[test]
fn prompt_has_exact_wording() {
    let p = build_prompt("Rust", "hard");
    let expected = format!(
        "Generate a {} quiz about '{}' with exactly 10 questions. \
        Each question must have 3 choices, one correct and two wrong. \
        Return STRICT JSON in the following format: \
        {{ \"subject\": \"{}\", \"difficulty\": \"{}\", \"questions\": [ {{ \"text\": \"Question text\", \"choices\": [ {{ \"text\": \"Answer 1\", \"is_correct\": true }}, {{ \"text\": \"Answer 2\", \"is_correct\": false }}, {{ \"text\": \"Answer 3\", \"is_correct\": false }} ] }} ] }}",
        "hard", "Rust", "Rust", "hard"
    );
    assert_eq!(p, expected);
}

#[test]
fn extracts_content_from_conventional_path() {
    let body = reply_with_content(VALID_QUIZ);
    let r = extract_quiz_content(&body);
    assert_eq!(r.ok().unwrap(), VALID_QUIZ);
}

#[test]
fn missing_content_path_is_shape_error() {
    let body = "{\"choices\":[{\"message\":{}}]}";
    let r = extract_quiz_content(body);
    assert!(matches!(r, Err(GenError::ResponseShape { .. })));
}

#[test]
fn empty_choices_array_is_shape_error() {
    let body = "{\"choices\":[]}";
    let r = extract_quiz_content(body);
    assert!(matches!(r, Err(GenError::ResponseShape { .. })));
}

#[test]
fn non_string_content_is_shape_error() {
    let body = "{\"choices\":[{\"message\":{\"content\":7}}]}";
    let r = extract_quiz_content(body);
    assert!(matches!(r, Err(GenError::ResponseShape { .. })));
}

#[test]
fn unparseable_body_is_shape_error() {
    let r = extract_quiz_content("not json at all");
    assert!(matches!(r, Err(GenError::ResponseShape { .. })));
}

#[test]
fn valid_quiz_text_parses_with_fields() {
    let q = parse_quiz(VALID_QUIZ).ok().unwrap();
    assert_eq!(q.subject, "Math");
    assert_eq!(q.difficulty, "easy");
    assert_eq!(q.questions.len(), 1);
    assert_eq!(q.questions[0].text, "1+1?");
    assert_eq!(q.questions[0].choices.len(), 3);
    assert_eq!(q.questions[0].choices[0].text, "2");
    assert!(q.questions[0].choices[0].is_correct);
    assert!(!q.questions[0].choices[1].is_correct);
    assert!(q.questions[0].choices.iter().any(|c| c.is_correct));
}

#[test]
fn answer_key_check_accepts_marked_quiz_and_rejects_unmarked() {
    let good = parse_quiz(VALID_QUIZ).ok().unwrap();
    assert!(good.has_answer_key());
    let no_correct = parse_quiz(
        "{\"subject\":\"Math\",\"difficulty\":\"easy\",\"questions\":[{\"text\":\"q\",\"choices\":[{\"text\":\"a\",\"is_correct\":false}]}]}",
    )
    .ok()
    .unwrap();
    assert!(!no_correct.has_answer_key());
    let empty_choices = parse_quiz(
        "{\"subject\":\"Math\",\"difficulty\":\"easy\",\"questions\":[{\"text\":\"q\",\"choices\":[]}]}",
    )
    .ok()
    .unwrap();
    assert!(!empty_choices.has_answer_key());
}

#[test]
fn valid_json_missing_quiz_fields_is_schema_error() {
    let r = parse_quiz("{\"subject\":\"Math\"}");
    assert!(matches!(r, Err(GenError::Schema { .. })));
}

#[test]
fn wrong_field_type_is_schema_error() {
    let r = parse_quiz("{\"subject\":\"Math\",\"difficulty\":\"easy\",\"questions\":3}");
    assert!(matches!(r, Err(GenError::Schema { .. })));
}

#[test]
fn question_without_choices_is_schema_error() {
    let r = parse_quiz(
        "{\"subject\":\"Math\",\"difficulty\":\"easy\",\"questions\":[{\"text\":\"q\"}]}",
    );
    assert!(matches!(r, Err(GenError::Schema { .. })));
}

#[test]
fn choice_without_flag_is_schema_error() {
    let r = parse_quiz(
        "{\"subject\":\"Math\",\"difficulty\":\"easy\",\"questions\":[{\"text\":\"q\",\"choices\":[{\"text\":\"a\"}]}]}",
    );
    assert!(matches!(r, Err(GenError::Schema { .. })));
}

#[test]
fn non_json_payload_is_schema_error() {
    let r = parse_quiz("quiz time!");
    assert!(matches!(r, Err(GenError::Schema { .. })));
}

#[test]
fn payload_check_returns_exact_text() {
    let r = check_quiz_payload(VALID_QUIZ.to_string());
    assert_eq!(r.ok().unwrap(), VALID_QUIZ);
}

#[test]
fn status_codes_classify_as_documented() {
    assert!(!is_success_status(199));
    assert!(is_success_status(200));
    assert!(is_success_status(299));
    assert!(!is_success_status(300));
    assert!(!is_success_status(500));
}

#[test]
fn failing_status_surfaces_status_and_body() {
    let r = interpret_reply(500, Some("boom".to_string()));
    match r {
        Err(GenError::Remote { status, body }) => {
            assert_eq!(status, 500);
            assert_eq!(body, "boom");
        }
        _ => panic!("expected a remote error"),
    }
}

#[test]
fn failing_status_without_body_uses_placeholder() {
    let r = interpret_reply(404, None);
    match r {
        Err(GenError::Remote { status, body }) => {
            assert_eq!(status, 404);
            assert_eq!(body, "Unknown error");
        }
        _ => panic!("expected a remote error"),
    }
}

#[test]
fn remote_error_message_includes_status_and_body() {
    let e = GenError::Remote { status: 403, body: "denied".to_string() };
    assert_eq!(e.message(), "Remote API error (403): denied");
}

#[test]
fn schema_error_message_includes_diagnostic() {
    let e = GenError::Schema { diagnostic: "missing field 'questions'".to_string() };
    assert_eq!(e.message(), "Invalid quiz JSON format: missing field 'questions'");
}

#[test]
fn shape_error_message_includes_detail() {
    let e = GenError::ResponseShape { detail: "failed to extract quiz JSON from response".to_string() };
    assert_eq!(
        e.message(),
        "Unexpected API response: failed to extract quiz JSON from response"
    );
}

#[test]
fn successful_reply_yields_exact_quiz_text() {
    let body = reply_with_content(VALID_QUIZ);
    let r = interpret_reply(200, Some(body));
    assert_eq!(r.ok().unwrap(), VALID_QUIZ);
}

#[test]
fn successful_status_with_bad_schema_is_schema_error() {
    let body = reply_with_content("{\"subject\":\"Math\"}");
    let r = interpret_reply(200, Some(body));
    assert!(matches!(r, Err(GenError::Schema { .. })));
}

#[test]
fn successful_status_without_body_is_shape_error() {
    let r = interpret_reply(204, None);
    assert!(matches!(r, Err(GenError::ResponseShape { .. })));
}
