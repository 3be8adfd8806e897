//! Quiz generation: building the chat-completion request for a subject and
//! difficulty, and interpreting the service's reply, including schema
//! validation of the returned quiz text.

use vstd::prelude::*;
use vstd::string::StringExecFns;
use crate::errors::GenError;
use crate::json::{Json, JsonModel, json_model, obj_lookup, arr_model, lemma_arr_model_index};
use crate::jsonio::{parse_json, json_error_text, json_of};
use crate::quiz::{
    Choice, Question, Quiz, choice_wf, question_wf, quiz_wf, choice_models, question_models,
    quiz_models,
};
use crate::strops::{trim, trim_of};

verus! {

/// The instruction sent to the model for a given subject and difficulty.
pub open spec fn prompt_text(subject: Seq<char>, difficulty: Seq<char>) -> Seq<char> {
    "Generate a "@ + difficulty + " quiz about '"@ + subject
        + "' with exactly 10 questions. Each question must have 3 choices, one correct and two wrong. Return STRICT JSON in the following format: { \"subject\": \""@
        + subject + "\", \"difficulty\": \""@ + difficulty
        + "\", \"questions\": [ { \"text\": \"Question text\", \"choices\": [ { \"text\": \"Answer 1\", \"is_correct\": true }, { \"text\": \"Answer 2\", \"is_correct\": false }, { \"text\": \"Answer 3\", \"is_correct\": false } ] } ] }"@
}

/// Builds the generation instruction for a subject and difficulty.
pub fn build_prompt(subject: &str, difficulty: &str) -> (r: String)
    ensures
        r@ == prompt_text(subject@, difficulty@),
{
    let mut s = String::new();
    s.append("Generate a ");
    s.append(difficulty);
    s.append(" quiz about '");
    s.append(subject);
    s.append(
        "' with exactly 10 questions. Each question must have 3 choices, one correct and two wrong. Return STRICT JSON in the following format: { \"subject\": \"",
    );
    s.append(subject);
    s.append("\", \"difficulty\": \"");
    s.append(difficulty);
    s.append(
        "\", \"questions\": [ { \"text\": \"Question text\", \"choices\": [ { \"text\": \"Answer 1\", \"is_correct\": true }, { \"text\": \"Answer 2\", \"is_correct\": false }, { \"text\": \"Answer 3\", \"is_correct\": false } ] } ] }",
    );
    assert(s@ =~= prompt_text(subject@, difficulty@));
    s
}

/// One message of the chat exchange.
pub struct ChatMessage {
    pub role: String,
    pub content: String,
}

/// Everything the host needs to perform the outbound call: where to send
/// it, how to authorize it, and the exact body fields.
pub struct ChatRequest {
    pub url: String,
    pub auth_header: String,
    pub model: String,
    pub messages: Vec<ChatMessage>,
    pub response_format_type: String,
}

/// Builds the outbound request for a subject and difficulty, given whatever
/// credential is configured. Fails exactly when no credential is configured,
/// so no request is ever prepared — and none can be sent — without one.
pub fn prepare_request(subject: &str, difficulty: &str, credential: Option<String>) -> (r: Result<
    ChatRequest,
    GenError,
>)
    ensures
        r is Err <==> credential is None,
        r is Err ==> r->Err_0 is Config,
        r matches Ok(req) ==> {
            &&& req.url@ == "https://api.groq.com/openai/v1/chat/completions"@
            &&& req.auth_header@ == "Bearer "@ + trim_of(credential->0@)
            &&& req.model@ == "llama-3.3-70b-versatile"@
            &&& req.response_format_type@ == "json_object"@
            &&& req.messages@.len() == 2
            &&& req.messages@[0].role@ == "system"@
            &&& req.messages@[0].content@
                == "You are a quiz generator that outputs only valid JSON."@
            &&& req.messages@[1].role@ == "user"@
            &&& req.messages@[1].content@ == prompt_text(subject@, difficulty@)
        },
{
    let key_raw = match credential {
        Some(k) => k,
        None => {
            return Err(GenError::Config);
        },
    };
    let key = trim(key_raw.as_str());
    let mut auth = String::new();
    auth.append("Bearer ");
    auth.append(key);
    assert(auth@ =~= "Bearer "@ + trim_of(key_raw@));

    let mut url = String::new();
    url.append("https://api.groq.com/openai/v1/chat/completions");
    let mut model = String::new();
    model.append("llama-3.3-70b-versatile");
    let mut format_type = String::new();
    format_type.append("json_object");

    let mut system_role = String::new();
    system_role.append("system");
    let mut system_content = String::new();
    system_content.append("You are a quiz generator that outputs only valid JSON.");
    let mut user_role = String::new();
    user_role.append("user");
    let user_content = build_prompt(subject, difficulty);

    let mut messages: Vec<ChatMessage> = Vec::new();
    messages.push(ChatMessage { role: system_role, content: system_content });
    messages.push(ChatMessage { role: user_role, content: user_content });

    Ok(
        ChatRequest {
            url,
            auth_header: auth,
            model,
            messages,
            response_format_type: format_type,
        },
    )
}

/// The quiz text conforms to the quiz schema: it is JSON whose document is
/// a conformant quiz.
pub open spec fn conformant(content: Seq<char>) -> bool {
    match json_of(content) {
        Some(m) => quiz_wf(m),
        None => false,
    }
}

/// Reads one string-valued member of a JSON object, reporting the given
/// schema diagnostic when it is absent or not a string.
fn field_string(v: &Json, key: &str, diag: &str) -> (r: Result<String, GenError>)
    ensures
        r is Ok <==> (obj_lookup(json_model(*v), key@) matches Some(f) && f is Text),
        r matches Ok(s) ==> (obj_lookup(json_model(*v), key@) matches Some(JsonModel::Text(t))
            && s@ == t),
        r matches Err(e) ==> (e matches GenError::Schema { diagnostic } && diagnostic@ == diag@),
{
    let field = match v.get(key) {
        Some(f) => f,
        None => {
            return Err(GenError::Schema { diagnostic: diag.to_owned() });
        },
    };
    match field {
        Json::Text(s) => Ok(s.clone()),
        _ => Err(GenError::Schema { diagnostic: diag.to_owned() }),
    }
}

/// Validates one element of the choices array: accepted exactly when it
/// conforms to the choice schema, and then carried over field by field.
fn parse_choice(v: &Json) -> (r: Result<Choice, GenError>)
    ensures
        r is Ok <==> choice_wf(json_model(*v)),
        r matches Ok(c) ==> choice_models(c, json_model(*v)),
        r is Err ==> r->Err_0 is Schema,
{
    let text = match field_string(v, "text", "missing or non-string field 'text' in a choice") {
        Ok(t) => t,
        Err(e) => {
            return Err(e);
        },
    };
    let flag = match v.get("is_correct") {
        Some(f) => f,
        None => {
            return Err(
                GenError::Schema {
                    diagnostic: "missing or non-boolean field 'is_correct' in a choice".to_owned(),
                },
            );
        },
    };
    match flag {
        Json::Bool(b) => Ok(Choice { text, is_correct: *b }),
        _ => Err(
            GenError::Schema {
                diagnostic: "missing or non-boolean field 'is_correct' in a choice".to_owned(),
            },
        ),
    }
}

/// Validates one element of the questions array: accepted exactly when it
/// conforms to the question schema, and then carried over choice by choice.
fn parse_question(v: &Json) -> (r: Result<Question, GenError>)
    ensures
        r is Ok <==> question_wf(json_model(*v)),
        r matches Ok(q) ==> question_models(q, json_model(*v)),
        r is Err ==> r->Err_0 is Schema,
{
    let text = match field_string(v, "text", "missing or non-string field 'text' in a question") {
        Ok(t) => t,
        Err(e) => {
            return Err(e);
        },
    };
    let choices_val = match v.get("choices") {
        Some(f) => f,
        None => {
            return Err(
                GenError::Schema { diagnostic: "missing field 'choices' in a question".to_owned() },
            );
        },
    };
    let arr = match choices_val {
        Json::Arr(a) => a,
        _ => {
            return Err(
                GenError::Schema {
                    diagnostic: "field 'choices' of a question is not an array".to_owned(),
                },
            );
        },
    };
    proof {
        lemma_arr_model_index(arr@);
    }
    let ghost cs = arr_model(arr@);
    let mut choices: Vec<Choice> = Vec::new();
    let mut i: usize = 0;
    while i < arr.len()
        invariant
            0 <= i <= arr@.len(),
            cs == arr_model(arr@),
            obj_lookup(json_model(*v), "choices"@) == Some(JsonModel::Arr(cs)),
            cs.len() == arr@.len(),
            forall|k: int| 0 <= k < arr@.len() ==> #[trigger] cs[k] == json_model(arr@[k]),
            choices@.len() == i,
            forall|k: int| 0 <= k < i ==> choice_wf(#[trigger] cs[k]),
            forall|k: int| 0 <= k < i ==> choice_models(#[trigger] choices@[k], cs[k]),
        decreases arr@.len() - i,
    {
        let c = match parse_choice(&arr[i]) {
            Ok(c) => c,
            Err(e) => {
                proof {
                    assert(!choice_wf(cs[i as int]));
                }
                return Err(e);
            },
        };
        choices.push(c);
        i = i + 1;
    }
    Ok(Question { text, choices })
}

/// Validates quiz text against the quiz schema: accepted exactly when the
/// text is JSON whose document conforms (see `quiz_wf`), and then the
/// returned quiz carries the document's fields. Any failure is reported as
/// a schema error carrying a diagnostic.
pub fn parse_quiz(content: &str) -> (r: Result<Quiz, GenError>)
    ensures
        r is Ok <==> conformant(content@),
        r matches Ok(q) ==> (json_of(content@) matches Some(m) && quiz_models(q, m)),
        r is Err ==> r->Err_0 is Schema,
{
    let root = match parse_json(content) {
        Ok(v) => v,
        Err(e) => {
            return Err(GenError::Schema { diagnostic: json_error_text(&e) });
        },
    };
    let subject = match field_string(&root, "subject", "missing or non-string field 'subject'") {
        Ok(s) => s,
        Err(e) => {
            return Err(e);
        },
    };
    let difficulty = match field_string(
        &root,
        "difficulty",
        "missing or non-string field 'difficulty'",
    ) {
        Ok(s) => s,
        Err(e) => {
            return Err(e);
        },
    };
    let questions_val = match root.get("questions") {
        Some(f) => f,
        None => {
            return Err(GenError::Schema { diagnostic: "missing field 'questions'".to_owned() });
        },
    };
    let arr = match questions_val {
        Json::Arr(a) => a,
        _ => {
            return Err(
                GenError::Schema { diagnostic: "field 'questions' is not an array".to_owned() },
            );
        },
    };
    proof {
        lemma_arr_model_index(arr@);
    }
    let ghost qs = arr_model(arr@);
    let mut questions: Vec<Question> = Vec::new();
    let mut i: usize = 0;
    while i < arr.len()
        invariant
            0 <= i <= arr@.len(),
            qs == arr_model(arr@),
            json_of(content@) == Some(json_model(root)),
            obj_lookup(json_model(root), "questions"@) == Some(JsonModel::Arr(qs)),
            qs.len() == arr@.len(),
            forall|k: int| 0 <= k < arr@.len() ==> #[trigger] qs[k] == json_model(arr@[k]),
            questions@.len() == i,
            forall|k: int| 0 <= k < i ==> question_wf(#[trigger] qs[k]),
            forall|k: int| 0 <= k < i ==> question_models(#[trigger] questions@[k], qs[k]),
        decreases arr@.len() - i,
    {
        let q = match parse_question(&arr[i]) {
            Ok(q) => q,
            Err(e) => {
                proof {
                    assert(!question_wf(qs[i as int]));
                }
                return Err(e);
            },
        };
        questions.push(q);
        i = i + 1;
    }
    Ok(Quiz { subject, difficulty, questions })
}

/// The quiz text at the conventional path of a parsed reply: the `content`
/// of the `message` of the first element of `choices`, when all of that is
/// there and the content is a string.
pub open spec fn content_of(m: JsonModel) -> Option<Seq<char>> {
    match obj_lookup(m, "choices"@) {
        Some(JsonModel::Arr(cs)) => if cs.len() > 0 {
            match obj_lookup(cs[0], "message"@) {
                Some(msg) => match obj_lookup(msg, "content"@) {
                    Some(JsonModel::Text(t)) => Some(t),
                    _ => None,
                },
                _ => None,
            }
        } else {
            None
        },
        _ => None,
    }
}

/// The quiz text a reply body carries: what stands at the conventional path
/// once the body is parsed, or nothing when the body is not JSON.
pub open spec fn extracted_content(body: Seq<char>) -> Option<Seq<char>> {
    match json_of(body) {
        Some(m) => content_of(m),
        None => None,
    }
}

/// Walks a parsed reply to the content string at the conventional path.
fn content_path<'a>(root: &'a Json) -> (r: Option<&'a String>)
    ensures
        match r {
            Some(s) => content_of(json_model(*root)) == Some(s@),
            None => content_of(json_model(*root)) is None,
        },
{
    let choices_val = match root.get("choices") {
        Some(c) => c,
        None => {
            return None;
        },
    };
    let arr = match choices_val {
        Json::Arr(a) => a,
        _ => {
            return None;
        },
    };
    if arr.len() == 0 {
        return None;
    }
    proof {
        lemma_arr_model_index(arr@);
    }
    let msg = match (&arr[0]).get("message") {
        Some(v) => v,
        None => {
            return None;
        },
    };
    let content_val = match msg.get("content") {
        Some(v) => v,
        None => {
            return None;
        },
    };
    match content_val {
        Json::Text(s) => Some(s),
        _ => None,
    }
}

/// Parses a successful reply body and pulls out the quiz text at
/// `choices[0].message.content`: exactly that text, and exactly when the
/// body carries one. Any failure — a body that is not JSON, or no string at
/// that path — is reported as a response-shape error.
pub fn extract_quiz_content(body: &str) -> (r: Result<String, GenError>)
    ensures
        r is Ok <==> extracted_content(body@) is Some,
        r matches Ok(s) ==> extracted_content(body@) == Some(s@),
        r is Err ==> r->Err_0 is ResponseShape,
{
    let root = match parse_json(body) {
        Ok(v) => v,
        Err(e) => {
            let mut detail = String::new();
            detail.append("failed to parse API response: ");
            let etext = json_error_text(&e);
            detail.append(etext.as_str());
            return Err(GenError::ResponseShape { detail });
        },
    };
    match content_path(&root) {
        Some(s) => Ok(s.clone()),
        None => Err(
            GenError::ResponseShape {
                detail: "failed to extract quiz JSON from response".to_owned(),
            },
        ),
    }
}

/// Checks a quiz payload against the schema — success exactly when the text
/// conforms — and hands the very same text back on success: validation
/// never re-encodes what the service returned.
pub fn check_quiz_payload(content: String) -> (r: Result<String, GenError>)
    ensures
        r is Ok <==> conformant(content@),
        r matches Ok(t) ==> t == content,
        r is Err ==> r->Err_0 is Schema,
{
    match parse_quiz(content.as_str()) {
        Ok(_) => Ok(content),
        Err(e) => Err(e),
    }
}

/// Whether an HTTP status code reports success.
pub fn is_success_status(status: u16) -> (r: bool)
    ensures
        r == (200 <= status < 300),
{
    200 <= status && status < 300
}

/// The body text a remote failure surfaces: what was read, or a placeholder
/// when the body could not be read.
pub open spec fn remote_body_text(body: Option<String>) -> Seq<char> {
    match body {
        Some(b) => b@,
        None => "Unknown error"@,
    }
}

/// Interprets the remote reply: a non-success status becomes a remote error
/// carrying the status and body text; a success body yields the exact quiz
/// text at the conventional path — and a success exactly when that text is
/// there and conforms to the quiz schema. A missing content string is a
/// response-shape error; a non-conformant one is a schema error.
pub fn interpret_reply(status: u16, body: Option<String>) -> (r: Result<String, GenError>)
    ensures
        !(200 <= status < 300) ==> (r matches Err(e) && (e matches GenError::Remote {
            status: st,
            body: b,
        } && st == status && b@ == remote_body_text(body))),
        200 <= status < 300 ==> {
            &&& body is None ==> r is Err && r->Err_0 is ResponseShape
            &&& body matches Some(text) ==> {
                &&& r is Ok <==> (extracted_content(text@) matches Some(c) && conformant(c))
                &&& (r matches Ok(out) ==> extracted_content(text@) == Some(out@))
                &&& (r is Err && extracted_content(text@) is None) ==> r->Err_0 is ResponseShape
                &&& (r is Err && extracted_content(text@) is Some) ==> r->Err_0 is Schema
            }
        },
{
    if !is_success_status(status) {
        let b = match body {
            Some(t) => t,
            None => {
                let mut s = String::new();
                s.append("Unknown error");
                assert(s@ =~= "Unknown error"@);
                s
            },
        };
        return Err(GenError::Remote { status, body: b });
    }
    let text = match body {
        Some(t) => t,
        None => {
            return Err(
                GenError::ResponseShape {
                    detail: "failed to read API response body".to_owned(),
                },
            );
        },
    };
    let content = match extract_quiz_content(text.as_str()) {
        Ok(c) => c,
        Err(e) => {
            return Err(e);
        },
    };
    check_quiz_payload(content)
}

} // verus!
