use quizgen::digits::{i64_to_string, u64_to_string};
use quizgen::requester::interpret_reply;
use quizgen::store::{choose_target_directory, file_name_for, plan_save, plan_save_at};

fn names(list: &[&str]) -> Vec<String> {
    list.iter().map(|s| s.to_string()).collect()
}

#[test]
fn biology_is_filed_under_existing_bio() {
    let existing = names(&["history", "bio"]);
    let dir = choose_target_directory(&existing, "Biology");
    assert_eq!(dir, "bio");
}

#[test]
fn matching_is_case_insensitive_both_ways() {
    let existing = names(&["BIO"]);
    assert_eq!(choose_target_directory(&existing, "biology"), "BIO");
    let existing = names(&["Biological Sciences"]);
    assert_eq!(choose_target_directory(&existing, "bIo"), "Biological Sciences");
}

#[test]
fn no_match_names_a_new_directory_after_the_subject() {
    let existing = names(&["history", "math"]);
    assert_eq!(choose_target_directory(&existing, "Chemistry"), "Chemistry");
    let empty: Vec<String> = Vec::new();
    assert_eq!(choose_target_directory(&empty, "Chemistry"), "Chemistry");
}

#[test]
fn first_matching_directory_wins() {
    let existing = names(&["b", "bio"]);
    assert_eq!(choose_target_directory(&existing, "Biology"), "b");
}

#[test]
fn file_names_carry_subject_and_timestamp() {
    assert_eq!(file_name_for("Math", 1700000000), "Math_1700000000.json");
    assert_eq!(file_name_for("Math", 0), "Math_0.json");
    assert_eq!(file_name_for("Math", -5), "Math_-5.json");
}

#[test]
fn decimal_rendering_matches_expected_values() {
    assert_eq!(u64_to_string(0), "0");
    assert_eq!(u64_to_string(1234567890), "1234567890");
    assert_eq!(u64_to_string(u64::MAX), "18446744073709551615");
    assert_eq!(i64_to_string(i64::MIN), "-9223372036854775808");
    assert_eq!(i64_to_string(42), "42");
}

#[test]
fn distinct_seconds_give_distinct_files_same_second_collides() {
    let a = file_name_for("Math", 1700000000);
    let b = file_name_for("Math", 1700000001);
    let c = file_name_for("Math", 1700000000);
    assert_ne!(a, b);
    assert_eq!(a, c);
}

#[test]
fn plan_carries_payload_verbatim() {
    let existing = names(&["bio"]);
    let payload = "{\"subject\":\"Biology\"}  \n odd spacing kept".to_string();
    let plan = plan_save_at("Biology", payload.clone(), &existing, 1700000000);
    assert_eq!(plan.contents, payload);
    assert_eq!(plan.directory, "bio");
    assert_eq!(plan.file_name, "Biology_1700000000.json");
}

#[test]
fn clock_based_plan_keeps_heuristic_and_payload() {
    let existing = names(&["math"]);
    let plan = plan_save("Algebra", "payload".to_string(), &existing);
    assert_eq!(plan.directory, "Algebra");
    assert_eq!(plan.contents, "payload");
    assert!(plan.file_name.starts_with("Algebra_"));
    assert!(plan.file_name.ends_with(".json"));
}

#[test]
fn generated_text_is_persisted_unchanged() {
    let quiz = "{\"subject\":\"Math\",\"difficulty\":\"easy\",\"questions\":[{\"text\":\"1+1?\",\"choices\":[{\"text\":\"2\",\"is_correct\":true},{\"text\":\"3\",\"is_correct\":false},{\"text\":\"4\",\"is_correct\":false}]}]}";
    let body = {
        let mut b = String::from("{\"choices\":[{\"message\":{\"content\":");
        b.push_str(&serde_json::to_string(quiz).unwrap());
        b.push_str("}}]}");
        b
    };
    let generated = interpret_reply(200, Some(body)).ok().unwrap();
    assert_eq!(generated, quiz);
    let plan = plan_save_at("Math", generated.clone(), &names(&["math"]), 1);
    assert_eq!(plan.contents, quiz);
}
