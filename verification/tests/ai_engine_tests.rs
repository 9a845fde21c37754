use chicandoit::ai_engine::{choose_accountability_message, choose_insights, AIEngine};
use chicandoit::insights::fallback_insights;
use chicandoit::models::{Priority, Task, TaskStatus};
use chicandoit::remote::{answer_from, clock_string, read_answer, RemoteReply, ReplyBody};
use chicandoit::time::Timestamp;

fn task(id: &str, status: TaskStatus, priority: Priority, due: Option<i64>) -> Task {
    Task {
        id: id.to_string(),
        title: format!("task {}", id),
        description: None,
        priority,
        status,
        category: "work".to_string(),
        estimated_time: 30,
        actual_time: None,
        due_date: due.map(|s| Timestamp::new(s, 0)),
        created_at: Timestamp::new(100, 0),
        updated_at: Timestamp::new(100, 0),
        completed_at: None,
    }
}

fn sample() -> Vec<Task> {
    vec![
        task("a", TaskStatus::Completed, Priority::High, Some(10)),
        task("b", TaskStatus::Pending, Priority::Critical, Some(10)),
        task("c", TaskStatus::InProgress, Priority::High, None),
        task("d", TaskStatus::Pending, Priority::Low, Some(5_000_000)),
    ]
}

fn now() -> Timestamp {
    Timestamp::new(86_400 * 3 + 13 * 3_600 + 7 * 60 + 2, 0)
}

fn answered(status: u16, body: &str) -> RemoteReply {
    RemoteReply::Answered { status, body: body.to_string() }
}

fn completion(content: &str) -> String {
    let mut message = serde_json::Map::new();
    message.insert("role".to_string(), serde_json::Value::String("assistant".to_string()));
    message.insert("content".to_string(), serde_json::Value::String(content.to_string()));
    let mut choice = serde_json::Map::new();
    choice.insert("message".to_string(), serde_json::Value::Object(message));
    let mut root = serde_json::Map::new();
    root.insert(
        "choices".to_string(),
        serde_json::Value::Array(vec![serde_json::Value::Object(choice)]),
    );
    serde_json::Value::Object(root).to_string()
}

#[test]
fn without_credential_nothing_is_asked_and_the_rules_apply() {
    let engine = AIEngine::new(None);
    assert!(!engine.has_credential());
    assert!(engine.plan_insights(&sample(), now()).is_none());
    assert!(engine.plan_accountability_message(&sample(), now()).is_none());
    let expected = fallback_insights(&sample(), now());
    assert_eq!(engine.generate_insights(&sample(), now(), &RemoteReply::NotAsked), expected);
    let reply = answered(200, &completion("remote line"));
    assert_eq!(engine.generate_insights(&sample(), now(), &reply), expected);
    assert_eq!(
        engine.generate_accountability_message(&sample(), now(), &reply),
        "Progress update: 1/4 tasks done. Keep up the momentum! \u{1F680}"
    );
}

#[test]
fn insights_request_carries_the_four_counts() {
    let engine = AIEngine::new(Some("SECRET-REDACTED".to_string()));
    assert!(engine.has_credential());
    let request = engine.plan_insights(&sample(), now()).unwrap();
    assert_eq!(request.api_key, "SECRET-REDACTED");
    assert_eq!(request.model, "gpt-3.5-turbo");
    assert_eq!(request.max_tokens, 300);
    assert_eq!(request.temperature_tenths, 7);
    assert_eq!(
        request.system_message,
        "You are an AI productivity coach that provides brief, actionable insights. Each insight should be under 100 characters and actionable."
    );
    assert_eq!(
        request.user_message,
        "Analyze this productivity data and provide 3 brief, actionable insights (each under 100 characters):\n            \n            Tasks Status:\n            - Total tasks: 4\n            - Completed: 1\n            - High priority pending: 2\n            - Overdue: 1\n            \n            Focus on task completion strategies, time management, and motivation. Keep responses concise and encouraging."
    );
}

#[test]
fn accountability_request_carries_counts_and_time_of_day() {
    let engine = AIEngine::new(Some("SECRET-REDACTED".to_string()));
    let request = engine.plan_accountability_message(&sample(), now()).unwrap();
    assert_eq!(request.max_tokens, 100);
    assert_eq!(request.temperature_tenths, 8);
    assert_eq!(
        request.system_message,
        "You are a supportive productivity coach. Create brief, encouraging check-in messages under 150 characters."
    );
    assert_eq!(
        request.user_message,
        "Generate a brief, encouraging accountability check-in message (under 150 characters) based on:\n            - 1 completed tasks\n            - 3 pending tasks\n            - Current time: 13:07\n            \n            Keep it motivating, specific, and actionable."
    );
}

#[test]
fn clock_is_written_with_two_digits_each() {
    assert_eq!(clock_string(Timestamp::new(0, 0)), "00:00");
    assert_eq!(clock_string(Timestamp::new(9 * 3_600 + 5 * 60, 0)), "09:05");
    assert_eq!(clock_string(Timestamp::new(86_399, 0)), "23:59");
    assert_eq!(clock_string(Timestamp::new(-60, 0)), "23:59");
}

#[test]
fn remote_answer_is_split_into_insights() {
    let engine = AIEngine::new(Some("SECRET-REDACTED".to_string()));
    let reply = answered(200, &completion("\n First tip \n\nSecond tip\nThird tip\nFourth tip"));
    assert_eq!(
        engine.generate_insights(&sample(), now(), &reply),
        vec!["First tip".to_string(), "Second tip".to_string(), "Third tip".to_string()]
    );
    let reply = answered(299, &completion("One"));
    assert_eq!(engine.generate_insights(&sample(), now(), &reply), vec!["One".to_string()]);
}

#[test]
fn remote_answer_is_the_trimmed_accountability_message() {
    let engine = AIEngine::new(Some("SECRET-REDACTED".to_string()));
    let reply = answered(200, &completion("  Keep going, 3 to go!\n"));
    assert_eq!(
        engine.generate_accountability_message(&sample(), now(), &reply),
        "Keep going, 3 to go!"
    );
}

#[test]
fn remote_failure_degrades_to_the_rules() {
    let engine = AIEngine::new(Some("SECRET-REDACTED".to_string()));
    let expected = fallback_insights(&sample(), now());
    assert!(!expected.is_empty());
    let failures = vec![
        RemoteReply::Failed,
        RemoteReply::NotAsked,
        answered(500, &completion("ignored")),
        answered(401, "{\"error\":\"bad key\"}"),
        answered(199, &completion("ignored")),
        answered(300, &completion("ignored")),
        answered(200, "not json at all"),
        answered(200, ""),
        answered(200, "{\"choices\": [}"),
    ];
    for reply in failures.iter() {
        assert_eq!(engine.generate_insights(&sample(), now(), reply), expected);
        assert_eq!(
            engine.generate_accountability_message(&sample(), now(), reply),
            "Progress update: 1/4 tasks done. Keep up the momentum! \u{1F680}"
        );
    }
}

#[test]
fn a_document_without_the_text_leads_to_the_rules() {
    let engine = AIEngine::new(Some("SECRET-REDACTED".to_string()));
    let expected = fallback_insights(&sample(), now());
    for body in ["{}", "{\"choices\":[]}", "[1,2]", "{\"choices\":[{\"message\":{\"content\":7}}]}", "null"] {
        let reply = answered(200, body);
        assert_eq!(engine.generate_insights(&sample(), now(), &reply), expected);
        assert_eq!(engine.generate_accountability_message(&sample(), now(), &reply), "");
    }
}

#[test]
fn a_blank_answer_leads_to_the_rules() {
    let engine = AIEngine::new(Some("SECRET-REDACTED".to_string()));
    let expected = fallback_insights(&sample(), now());
    for content in ["", "   ", "\n\n", " \t\n \r\n"] {
        let reply = answered(200, &completion(content));
        let insights = engine.generate_insights(&sample(), now(), &reply);
        assert_eq!(insights, expected);
        assert!((1..=3).contains(&insights.len()));
    }
    assert_eq!(choose_insights(true, Some(" \n ".to_string()), &sample(), now()), expected);
}

#[test]
fn the_path_into_the_document_is_choices_zero_message_content() {
    let engine = AIEngine::new(Some("SECRET-REDACTED".to_string()));
    let expected = fallback_insights(&sample(), now());
    let elsewhere = [
        "{\"choice\":[{\"message\":{\"content\":\"x\"}}]}",
        "{\"choices\":[{\"text\":{\"content\":\"x\"}}]}",
        "{\"choices\":[{\"message\":{\"text\":\"x\"}}]}",
        "{\"choices\":{\"message\":{\"content\":\"x\"}}}",
    ];
    for body in elsewhere {
        assert_eq!(engine.generate_insights(&sample(), now(), &answered(200, body)), expected);
    }
    let second_only = "{\"choices\":[{\"message\":{}},{\"message\":{\"content\":\"x\"}}]}";
    assert_eq!(engine.generate_insights(&sample(), now(), &answered(200, second_only)), expected);
    let first = "{\"choices\":[{\"message\":{\"content\":\"x\"}}]}";
    assert_eq!(engine.generate_insights(&sample(), now(), &answered(200, first)), vec!["x".to_string()]);
}

#[test]
fn reading_a_reply_takes_the_content_out_of_the_document() {
    assert_eq!(read_answer(&answered(200, &completion("hi\nthere"))), Some("hi\nthere".to_string()));
    assert_eq!(read_answer(&answered(200, &completion(""))), Some(String::new()));
    assert_eq!(read_answer(&answered(200, "{}")), Some(String::new()));
    assert_eq!(read_answer(&answered(200, "{")), None);
    assert_eq!(read_answer(&answered(404, &completion("hi"))), None);
    assert_eq!(read_answer(&RemoteReply::Failed), None);
    assert_eq!(read_answer(&RemoteReply::NotAsked), None);
    let body = "{\"choices\":[{\"message\":{\"content\":\"caf\\u00e9 \\\"x\\\"\"}},{\"message\":{\"content\":\"second\"}}]}";
    assert_eq!(read_answer(&answered(200, body)), Some("caf\u{00e9} \"x\"".to_string()));
}

#[test]
fn answer_depends_on_status_and_parsed_body() {
    assert_eq!(answer_from(200, ReplyBody::Text("x".to_string())), Some("x".to_string()));
    assert_eq!(answer_from(204, ReplyBody::NoText), Some(String::new()));
    assert_eq!(answer_from(200, ReplyBody::Malformed), None);
    assert_eq!(answer_from(500, ReplyBody::Text("x".to_string())), None);
    assert_eq!(answer_from(0, ReplyBody::NoText), None);
}

#[test]
fn choosing_takes_the_remote_path_only_with_credential_and_answer() {
    let tasks = sample();
    let fallback = fallback_insights(&tasks, now());
    assert_eq!(choose_insights(true, Some("a\nb".to_string()), &tasks, now()), vec!["a".to_string(), "b".to_string()]);
    assert_eq!(choose_insights(false, Some("a\nb".to_string()), &tasks, now()), fallback);
    assert_eq!(choose_insights(true, None, &tasks, now()), fallback);
    assert_eq!(choose_accountability_message(true, Some(" hi ".to_string()), &tasks, now()), "hi");
    assert_eq!(
        choose_accountability_message(false, Some(" hi ".to_string()), &tasks, now()),
        "Progress update: 1/4 tasks done. Keep up the momentum! \u{1F680}"
    );
}

#[test]
fn insights_are_never_more_than_three() {
    let engine = AIEngine::new(Some("SECRET-REDACTED".to_string()));
    let reply = answered(200, &completion("1\n2\n3\n4\n5\n6"));
    assert_eq!(engine.generate_insights(&[], now(), &reply).len(), 3);
    assert_eq!(engine.generate_insights(&[], now(), &RemoteReply::Failed).len(), 1);
    assert_eq!(engine.generate_insights(&[], now(), &answered(200, "{}")).len(), 1);
}

#[test]
fn patterns_pass_through_the_engine() {
    let engine = AIEngine::new(None);
    assert_eq!(
        engine.analyze_productivity_patterns(&sample()),
        vec![
            "Most frequent category: work (4 tasks)".to_string(),
            "75% of tasks are high priority".to_string(),
        ]
    );
}
