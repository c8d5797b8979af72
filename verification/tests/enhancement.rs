use promptforge::enhance::{api_error_message, api_error_text, status_ok};
use promptforge::enhance::{
    clarifying_system_prompt, combined_input, enhance_request, enhanced_text, load_api_key,
    questions_request, questions_text, should_show_settings, Answer, EnhanceError,
    QUESTIONS_SYSTEM_PROMPT, MAX_TOKENS, MODEL,
};
use promptforge::projects::Project;

fn s(t: &str) -> String {
    t.to_string()
}

fn project(links: Vec<String>) -> Project {
    Project {
        id: s("proj_1"),
        name: s("Dash"),
        description: s("A dashboard app."),
        links,
        created_at: s("1s"),
        updated_at: s("1s"),
    }
}

#[test]
fn environment_key_takes_precedence() {
    assert_eq!(load_api_key(Some(s(" gsk_env ")), Some(s("gsk_saved"))).unwrap(), "gsk_env");
}

#[test]
fn blank_environment_key_falls_back_to_saved() {
    assert_eq!(load_api_key(Some(s("   ")), Some(s(" gsk_saved\n"))).unwrap(), "gsk_saved");
    assert_eq!(load_api_key(None, Some(s("gsk_saved"))).unwrap(), "gsk_saved");
}

#[test]
fn missing_key_is_an_error() {
    let e = load_api_key(None, Some(s(" "))).unwrap_err();
    assert!(matches!(e, EnhanceError::MissingApiKey));
    assert_eq!(
        e.message(),
        "API key not found. Set GROQ_API_KEY in .env, or paste a key in Settings."
    );
}

#[test]
fn settings_open_only_without_a_key() {
    assert!(should_show_settings(&None, &None));
    assert!(should_show_settings(&Some(s(" ")), &Some(s("\t"))));
    assert!(!should_show_settings(&Some(s("k")), &None));
    assert!(!should_show_settings(&None, &Some(s("k"))));
    for (env, saved) in [(None, None), (Some(s(" ")), Some(s("x"))), (Some(s("y")), None)] {
        assert_eq!(should_show_settings(&env, &saved), load_api_key(env, saved).is_err());
    }
}

#[test]
fn questions_prompt_without_a_project_is_the_base() {
    assert_eq!(clarifying_system_prompt(QUESTIONS_SYSTEM_PROMPT, &None), QUESTIONS_SYSTEM_PROMPT);
}

#[test]
fn questions_prompt_with_a_project() {
    let got = clarifying_system_prompt("BASE", &Some(project(vec![])));
    let want = format!(
        "{}\n\nIMPORTANT PROJECT CONTEXT — The user is currently working on a project called \"{}\". Here is detailed information about it:\n\n{}{}\n\nUse this context to make your clarifying questions highly specific and relevant to this project.",
        "BASE", "Dash", "A dashboard app.", ""
    );
    assert_eq!(got, want);
}

#[test]
fn questions_prompt_lists_links() {
    let got = clarifying_system_prompt("B", &Some(project(vec![s("a.com"), s("b.com")])));
    assert!(got.contains("A dashboard app.\n\nRelevant project links:\n- a.com\n- b.com\n\nUse this"));
}

#[test]
fn combined_input_with_answers_and_project() {
    let answers = vec![
        Answer { question: s("Which page?"), answer: s("Home") },
        Answer { question: s("Style?"), answer: s("Keep") },
    ];
    let got = combined_input("fix it", &answers, &Some(project(vec![])));
    assert_eq!(
        got,
        "Original Prompt: fix it\n\nUser Clarifications:\nQ: Which page?\nA: Home\n\nQ: Style?\nA: Keep\n\nProject Context (Dash):\nA dashboard app."
    );
}

#[test]
fn combined_input_without_answers_or_project() {
    assert_eq!(combined_input("p", &vec![], &None), "Original Prompt: p\n\nUser Clarifications:\n");
}

#[test]
fn requests_carry_system_then_user() {
    let r = enhance_request("META", "rough");
    assert_eq!(r.model, MODEL);
    assert_eq!(r.max_tokens, MAX_TOKENS);
    assert_eq!(r.messages.len(), 2);
    assert_eq!((r.messages[0].role.as_str(), r.messages[0].content.as_str()), ("system", "META"));
    assert_eq!((r.messages[1].role.as_str(), r.messages[1].content.as_str()), ("user", "rough"));
    assert!(r.response_format.is_none());
    let q = questions_request("SYS", "p");
    assert_eq!(q.response_format.as_deref(), Some("json_object"));
    assert_eq!(q.messages[1].content, "p");
}

#[test]
fn enhanced_text_is_the_first_choice_trimmed() {
    assert_eq!(enhanced_text(vec![Some(s("  better \n")), Some(s("x"))]).unwrap(), "better");
    assert!(matches!(enhanced_text(vec![]), Err(EnhanceError::NoTextContent)));
    assert!(matches!(enhanced_text(vec![None, Some(s("x"))]), Err(EnhanceError::NoTextContent)));
    assert!(matches!(enhanced_text(vec![Some(s("  "))]), Err(EnhanceError::NoTextContent)));
    assert_eq!(EnhanceError::NoTextContent.message(), "API response had no text content");
}

#[test]
fn questions_text_is_the_first_choice_as_is() {
    assert_eq!(questions_text(vec![Some(s(" {} "))]).unwrap(), " {} ");
    assert!(questions_text(vec![None]).is_err());
    assert!(questions_text(vec![]).is_err());
}

#[test]
fn http_status_rules() {
    assert!(status_ok(200));
    assert!(status_ok(299));
    assert!(!status_ok(199));
    assert!(!status_ok(300));
    assert!(!status_ok(404));
    assert_eq!(api_error_message(404, "nope"), "API returned 404 Not Found: nope");
    assert_eq!(api_error_message(429, ""), "API returned 429 Too Many Requests: ");
    assert_eq!(api_error_text("500 X", "b"), "API returned 500 X: b");
}
