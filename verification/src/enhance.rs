//! What is sent to the language model and what is taken from its reply: the
//! choice of API key, the prompts with their project context, the request
//! bodies, and the text extracted from a completion.

use vstd::prelude::*;
use crate::text::{blank, decimal, is_blank, trim, trimmed};
use crate::projects::Project;

verus! {

/// The environment variable that holds the API key.
pub const ENV_VAR: &'static str = "GROQ_API_KEY";
/// The chat-completions endpoint.
pub const API_URL: &'static str = "https://api.groq.com/openai/v1/chat/completions";
/// The model asked for completions.
pub const MODEL: &'static str = "llama-3.3-70b-versatile";
/// The completion length limit.
pub const MAX_TOKENS: u32 = 1024;
/// How long a request may take (seconds).
pub const REQUEST_TIMEOUT_SECS: u64 = 30;

/// One clarifying question with its three suggested answers.
#[derive(Debug)]
pub struct Question {
    pub id: String,
    pub question: String,
    pub options: Vec<String>,
}

/// The user's answer to a clarifying question.
#[derive(Debug)]
pub struct Answer {
    pub question: String,
    pub answer: String,
}

/// One chat message.
#[derive(Debug)]
pub struct Message {
    pub role: String,
    pub content: String,
}

/// A chat-completion request body. `response_format`, when present, is the
/// `type` of the response format asked for.
#[derive(Debug)]
pub struct ChatRequest {
    pub model: String,
    pub max_tokens: u32,
    pub messages: Vec<Message>,
    pub response_format: Option<String>,
}

/// Why an enhancement could not be made.
#[derive(Debug)]
pub enum EnhanceError {
    /// Neither the environment nor the saved settings hold a non-blank key.
    MissingApiKey,
    /// The completion carried no (non-blank) text.
    NoTextContent,
}

// ---------------------------------------------------------------------------
// The API key
// ---------------------------------------------------------------------------

/// `o` holds a text that is not blank.
pub open spec fn has_text(o: Option<String>) -> bool {
    o matches Some(s) && !is_blank(s@)
}

/// The key used: the environment's when it is not blank, else the saved one
/// when it is not blank, trimmed; none otherwise.
pub open spec fn chosen_key(env: Option<String>, saved: Option<String>) -> Option<Seq<char>> {
    if has_text(env) {
        Some(trimmed(env->0@))
    } else if has_text(saved) {
        Some(trimmed(saved->0@))
    } else {
        None
    }
}

fn nonblank_trimmed(o: &Option<String>) -> (r: Option<String>)
    ensures
        has_text(*o) ==> (r matches Some(t) && t@ == trimmed(o->0@)),
        !has_text(*o) ==> r is None,
{
    match o {
        Some(s) => {
            let t = trim(s.as_str());
            if t.as_str().unicode_len() == 0 {
                None
            } else {
                Some(t)
            }
        },
        None => None,
    }
}

/// The API key: the value of `GROQ_API_KEY` when set and not blank (it takes
/// precedence), else the key saved in the settings when not blank; trimmed.
/// `env` is the variable's value, `saved` the saved key.
pub fn load_api_key(env: Option<String>, saved: Option<String>) -> (r: Result<String, EnhanceError>)
    ensures
        match chosen_key(env, saved) {
            Some(k) => r matches Ok(s) && s@ == k,
            None => r matches Err(EnhanceError::MissingApiKey),
        },
{
    match nonblank_trimmed(&env) {
        Some(k) => Ok(k),
        None => match nonblank_trimmed(&saved) {
            Some(k) => Ok(k),
            None => Err(EnhanceError::MissingApiKey),
        },
    }
}

/// Whether the Settings window is to be shown at start-up: when neither the
/// environment nor the saved settings hold a non-blank API key.
pub fn should_show_settings(env: &Option<String>, saved: &Option<String>) -> (b: bool)
    ensures
        b == (!has_text(*env) && !has_text(*saved)),
{
    let has_env_key = match env {
        Some(v) => !blank(v.as_str()),
        None => false,
    };
    let has_saved_key = match saved {
        Some(k) => !blank(k.as_str()),
        None => false,
    };
    !(has_env_key || has_saved_key)
}

/// A non-blank key in the environment wins over a saved one.
pub proof fn law_env_key_takes_precedence(env: Option<String>, saved: Option<String>)
    requires
        has_text(env),
    ensures
        chosen_key(env, saved) == Some(trimmed(env->0@)),
{
}

/// The Settings window opens at start-up exactly when no API key can be found.
pub proof fn law_settings_shown_iff_no_key(env: Option<String>, saved: Option<String>)
    ensures
        (!has_text(env) && !has_text(saved)) <==> chosen_key(env, saved) is None,
{
}

impl EnhanceError {
    /// The message shown to the user.
    pub fn message(&self) -> (r: String)
        ensures
            self is MissingApiKey ==> r@
                == "API key not found. Set GROQ_API_KEY in .env, or paste a key in Settings."@,
            self is NoTextContent ==> r@ == "API response had no text content"@,
    {
        match self {
            EnhanceError::MissingApiKey => String::from_str(
                "API key not found. Set GROQ_API_KEY in .env, or paste a key in Settings.",
            ),
            EnhanceError::NoTextContent => String::from_str("API response had no text content"),
        }
    }
}

// ---------------------------------------------------------------------------
// Joining text
// ---------------------------------------------------------------------------

/// `parts` joined by `sep`.
pub open spec fn join(parts: Seq<Seq<char>>, sep: Seq<char>) -> Seq<char>
    decreases parts.len(),
{
    if parts.len() == 0 {
        Seq::empty()
    } else if parts.len() == 1 {
        parts[0]
    } else {
        join(parts.drop_last(), sep) + sep + parts.last()
    }
}

proof fn lemma_join_step(parts: Seq<Seq<char>>, sep: Seq<char>, i: int)
    requires
        0 <= i < parts.len(),
    ensures
        join(parts.take(i + 1), sep) == if i == 0 {
            parts[0]
        } else {
            join(parts.take(i), sep) + sep + parts[i]
        },
{
    assert(parts.take(i + 1).drop_last() =~= parts.take(i));
    if i == 0 {
        assert(parts.take(1).len() == 1);
    }
}

// ---------------------------------------------------------------------------
// Prompts
// ---------------------------------------------------------------------------

/// The system prompt that asks for clarifying questions.
pub const QUESTIONS_SYSTEM_PROMPT: &'static str =
    "You are an expert prompt engineer. The user has provided a rough prompt. Your task is to generate exactly 5 clarifying questions that will help improve and add detail to the user's prompt. \nEach question must have exactly 3 predefined options for the user to choose from.\nYou MUST respond with valid JSON in the following format containing exactly one key 'questions':\n{\n  \"questions\": [\n    {\n      \"id\": \"q1\",\n      \"question\": \"The question text?\",\n      \"options\": [\"Option 1\", \"Option 2\", \"Option 3\"]\n    }\n  ]\n}";

/// The links of a project as bullet lines.
pub open spec fn link_lines(links: Seq<String>) -> Seq<Seq<char>> {
    links.map_values(|l: String| "- "@ + l@)
}

/// The links paragraph: nothing when there are no links.
pub open spec fn links_text(links: Seq<String>) -> Seq<char> {
    if links.len() == 0 {
        Seq::empty()
    } else {
        "\n\nRelevant project links:\n"@ + join(link_lines(links), "\n"@)
    }
}

/// The system prompt for clarifying questions, with the active project's
/// context appended when there is one.
pub open spec fn questions_prompt(base: Seq<char>, project: Option<Project>) -> Seq<char> {
    match project {
        None => base,
        Some(p) => base
            + "\n\nIMPORTANT PROJECT CONTEXT — The user is currently working on a project called \""@
            + p.name@ + "\". Here is detailed information about it:\n\n"@ + p.description@
            + links_text(p.links@)
            + "\n\nUse this context to make your clarifying questions highly specific and relevant to this project."@,
    }
}

fn links_paragraph(links: &Vec<String>) -> (r: String)
    ensures
        r@ == links_text(links@),
{
    if links.len() == 0 {
        return String::new();
    }
    let mut r = String::from_str("\n\nRelevant project links:\n");
    let ghost head = r@;
    let ghost parts = link_lines(links@);
    let mut i: usize = 0;
    while i < links.len()
        invariant
            i <= links.len(),
            parts == link_lines(links@),
            r@ == head + join(parts.take(i as int), "\n"@),
        decreases links.len() - i,
    {
        proof {
            lemma_join_step(parts, "\n"@, i as int);
        }
        if i > 0 {
            r.append("\n");
        }
        r.append("- ");
        r.append(links[i].as_str());
        assert(parts[i as int] == "- "@ + links@[i as int]@);
        if i == 0 {
            assert(join(parts.take(0), "\n"@) =~= Seq::<char>::empty());
        }
        assert(r@ =~= head + join(parts.take(i + 1), "\n"@));
        i = i + 1;
    }
    assert(parts.take(links.len() as int) =~= parts);
    r
}

/// The system prompt for clarifying questions: `base` followed, when a project
/// is active, by its name, description and links.
pub fn clarifying_system_prompt(base: &str, project: &Option<Project>) -> (r: String)
    ensures
        r@ == questions_prompt(base@, *project),
{
    match project {
        None => String::from_str(base),
        Some(p) => {
            let mut r = String::from_str(base);
            r.append(
                "\n\nIMPORTANT PROJECT CONTEXT — The user is currently working on a project called \"",
            );
            r.append(p.name.as_str());
            r.append("\". Here is detailed information about it:\n\n");
            r.append(p.description.as_str());
            let links = links_paragraph(&p.links);
            r.append(links.as_str());
            r.append(
                "\n\nUse this context to make your clarifying questions highly specific and relevant to this project.",
            );
            r
        },
    }
}

/// One answered question, as given to the model.
pub open spec fn answer_line(a: Answer) -> Seq<char> {
    "Q: "@ + a.question@ + "\nA: "@ + a.answer@
}

/// The project paragraph added to the enhancement input.
pub open spec fn project_context(project: Option<Project>) -> Seq<char> {
    match project {
        None => Seq::empty(),
        Some(p) => "\n\nProject Context ("@ + p.name@ + "):\n"@ + p.description@,
    }
}

/// The text sent for enhancement once the clarifying questions are answered.
pub open spec fn combined(prompt: Seq<char>, answers: Seq<Answer>, project: Option<Project>) -> Seq<
    char,
> {
    "Original Prompt: "@ + prompt + "\n\nUser Clarifications:\n"@ + join(
        answers.map_values(|a: Answer| answer_line(a)),
        "\n\n"@,
    ) + project_context(project)
}

/// The text sent for enhancement: the original prompt, each question with its
/// answer, and the active project's name and description when there is one.
pub fn combined_input(prompt: &str, answers: &Vec<Answer>, project: &Option<Project>) -> (r: String)
    ensures
        r@ == combined(prompt@, answers@, *project),
{
    let mut r = String::from_str("Original Prompt: ");
    r.append(prompt);
    r.append("\n\nUser Clarifications:\n");
    let ghost head = r@;
    let ghost parts = answers@.map_values(|a: Answer| answer_line(a));
    let mut i: usize = 0;
    while i < answers.len()
        invariant
            i <= answers.len(),
            parts == answers@.map_values(|a: Answer| answer_line(a)),
            r@ == head + join(parts.take(i as int), "\n\n"@),
        decreases answers.len() - i,
    {
        proof {
            lemma_join_step(parts, "\n\n"@, i as int);
        }
        if i > 0 {
            r.append("\n\n");
        }
        r.append("Q: ");
        r.append(answers[i].question.as_str());
        r.append("\nA: ");
        r.append(answers[i].answer.as_str());
        assert(parts[i as int] == answer_line(answers@[i as int]));
        if i == 0 {
            assert(join(parts.take(0), "\n\n"@) =~= Seq::<char>::empty());
        }
        assert(r@ =~= head + join(parts.take(i + 1), "\n\n"@));
        i = i + 1;
    }
    assert(parts.take(answers.len() as int) =~= parts);
    match project {
        Some(p) => {
            r.append("\n\nProject Context (");
            r.append(p.name.as_str());
            r.append("):\n");
            r.append(p.description.as_str());
        },
        None => {},
    }
    assert(r@ =~= combined(prompt@, answers@, *project));
    r
}

/// Joining one more part after a non-empty list puts the separator between.
pub proof fn law_join_push(parts: Seq<Seq<char>>, sep: Seq<char>, x: Seq<char>)
    requires
        parts.len() > 0,
    ensures
        join(parts.push(x), sep) == join(parts, sep) + sep + x,
{
    assert(parts.push(x).drop_last() =~= parts);
}

/// With no clarifications, the enhancement input is the prompt under its
/// header, then the project paragraph.
pub proof fn law_input_without_answers(prompt: Seq<char>, project: Option<Project>)
    ensures
        combined(prompt, Seq::empty(), project) == "Original Prompt: "@ + prompt
            + "\n\nUser Clarifications:\n"@ + project_context(project),
{
    assert(Seq::<Answer>::empty().map_values(|a: Answer| answer_line(a)) =~= Seq::<Seq<char>>::empty());
    assert(join(Seq::<Seq<char>>::empty(), "\n\n"@) =~= Seq::<char>::empty());
}

/// With one clarification, the input holds its question and answer, each on its
/// own line.
pub proof fn law_input_with_one_answer(prompt: Seq<char>, a: Answer)
    ensures
        combined(prompt, seq![a], None) == "Original Prompt: "@ + prompt
            + "\n\nUser Clarifications:\n"@ + "Q: "@ + a.question@ + "\nA: "@ + a.answer@,
{
    assert(seq![a].map_values(|a: Answer| answer_line(a)) =~= seq![answer_line(a)]);
    assert(project_context(None) =~= Seq::<char>::empty());
}

/// Each further clarification is appended after a blank line.
pub proof fn law_input_appends_answers(prompt: Seq<char>, answers: Seq<Answer>, a: Answer)
    requires
        answers.len() > 0,
    ensures
        combined(prompt, answers.push(a), None) == combined(prompt, answers, None) + "\n\n"@
            + "Q: "@ + a.question@ + "\nA: "@ + a.answer@,
{
    let parts = answers.map_values(|a: Answer| answer_line(a));
    assert(answers.push(a).map_values(|a: Answer| answer_line(a)) =~= parts.push(answer_line(a)));
    law_join_push(parts, "\n\n"@, answer_line(a));
    assert(project_context(None) =~= Seq::<char>::empty());
    assert(combined(prompt, answers.push(a), None) =~= combined(prompt, answers, None) + "\n\n"@
        + "Q: "@ + a.question@ + "\nA: "@ + a.answer@);
}

/// The active project's name and description close the input.
pub proof fn law_input_ends_with_project(prompt: Seq<char>, answers: Seq<Answer>, p: Project)
    ensures
        combined(prompt, answers, Some(p)) == combined(prompt, answers, None)
            + "\n\nProject Context ("@ + p.name@ + "):\n"@ + p.description@,
{
    assert(project_context(None) =~= Seq::<char>::empty());
    assert(combined(prompt, answers, Some(p)) =~= combined(prompt, answers, None)
        + "\n\nProject Context ("@ + p.name@ + "):\n"@ + p.description@);
}

/// The links paragraph: nothing without links; otherwise a heading and one
/// `- link` line per link, each further link on a new line.
pub proof fn law_links_paragraph(links: Seq<String>, l: String)
    ensures
        links_text(Seq::empty()) == Seq::<char>::empty(),
        links_text(seq![l]) == "\n\nRelevant project links:\n"@ + "- "@ + l@,
        links.len() > 0 ==> links_text(links.push(l)) == links_text(links) + "\n"@ + "- "@ + l@,
{
    assert(link_lines(seq![l]) =~= seq!["- "@ + l@]);
    if links.len() > 0 {
        assert(link_lines(links.push(l)) =~= link_lines(links).push("- "@ + l@));
        law_join_push(link_lines(links), "\n"@, "- "@ + l@);
        assert(links_text(links.push(l)) =~= links_text(links) + "\n"@ + "- "@ + l@);
    }
}

/// Without an active project the questions prompt is the base prompt as it is.
pub proof fn law_questions_prompt_without_project(base: Seq<char>)
    ensures
        questions_prompt(base, None) == base,
{
}

// ---------------------------------------------------------------------------
// Requests and replies
// ---------------------------------------------------------------------------

/// A request: the system prompt, then the user's text.
pub open spec fn request_for(
    r: ChatRequest,
    system: Seq<char>,
    user: Seq<char>,
    json: bool,
) -> bool {
    &&& r.model@ == MODEL@
    &&& r.max_tokens == MAX_TOKENS
    &&& r.messages@.len() == 2
    &&& r.messages@[0].role@ == "system"@
    &&& r.messages@[0].content@ == system
    &&& r.messages@[1].role@ == "user"@
    &&& r.messages@[1].content@ == user
    &&& if json {
        r.response_format matches Some(f) && f@ == "json_object"@
    } else {
        r.response_format is None
    }
}

fn build_request(system: &str, user: &str, json: bool) -> (r: ChatRequest)
    ensures
        request_for(r, system@, user@, json),
{
    let mut messages = Vec::new();
    messages.push(Message { role: String::from_str("system"), content: String::from_str(system) });
    messages.push(Message { role: String::from_str("user"), content: String::from_str(user) });
    ChatRequest {
        model: String::from_str(MODEL),
        max_tokens: MAX_TOKENS,
        messages,
        response_format: if json {
            Some(String::from_str("json_object"))
        } else {
            None
        },
    }
}

/// The request that enhances `input` under the meta-prompt `system`.
pub fn enhance_request(system: &str, input: &str) -> (r: ChatRequest)
    ensures
        request_for(r, system@, input@, false),
{
    build_request(system, input, false)
}

/// The request for clarifying questions about `prompt`, asking for a JSON object.
pub fn questions_request(system: &str, prompt: &str) -> (r: ChatRequest)
    ensures
        request_for(r, system@, prompt@, true),
{
    build_request(system, prompt, true)
}

/// The enhanced prompt in a completion whose choices carry `contents`: the first
/// choice's text, trimmed; an error when there is none or it is blank.
pub open spec fn enhanced_of(contents: Seq<Option<String>>) -> Option<Seq<char>> {
    if contents.len() > 0 && has_text(contents[0]) {
        Some(trimmed(contents[0]->0@))
    } else {
        None
    }
}

/// The enhanced prompt carried by a completion whose choices hold `contents`
/// (in order): the first choice's text, trimmed, when it is not blank.
pub fn enhanced_text(contents: Vec<Option<String>>) -> (r: Result<String, EnhanceError>)
    ensures
        match enhanced_of(contents@) {
            Some(t) => r matches Ok(s) && s@ == t,
            None => r matches Err(EnhanceError::NoTextContent),
        },
{
    if contents.len() == 0 {
        return Err(EnhanceError::NoTextContent);
    }
    match nonblank_trimmed(&contents[0]) {
        Some(t) => Ok(t),
        None => Err(EnhanceError::NoTextContent),
    }
}

/// The questions document carried by a completion whose choices hold
/// `contents`: the first choice's text as it is, an error when there is none.
pub fn questions_text(contents: Vec<Option<String>>) -> (r: Result<String, EnhanceError>)
    ensures
        contents@.len() > 0 && contents@[0] is Some ==> (r matches Ok(s) && s@
            == contents@[0]->0@),
        !(contents@.len() > 0 && contents@[0] is Some) ==> r matches Err(
            EnhanceError::NoTextContent,
        ),
{
    if contents.len() == 0 {
        return Err(EnhanceError::NoTextContent);
    }
    match &contents[0] {
        Some(s) => Ok(s.clone()),
        None => Err(EnhanceError::NoTextContent),
    }
}

/// Only the first choice of a completion counts: later choices never change
/// the enhanced text, and a missing or blank first choice is an error whatever
/// follows.
pub proof fn law_enhanced_text_from_first_choice(c: Option<String>, rest: Seq<Option<String>>)
    ensures
        enhanced_of(seq![c] + rest) == enhanced_of(seq![c]),
        enhanced_of(Seq::empty()) is None,
        has_text(c) ==> enhanced_of(seq![c] + rest) == Some(trimmed(c->0@)),
        !has_text(c) ==> enhanced_of(seq![c] + rest) is None,
{
    assert((seq![c] + rest)[0] == c);
}

/// The key found is never blank: it is the first non-blank of the two sources,
/// trimmed, and the saved key is used only when the environment has none.
pub proof fn law_key_choice(env: Option<String>, saved: Option<String>)
    ensures
        !has_text(env) && has_text(saved) ==> chosen_key(env, saved) == Some(trimmed(saved->0@)),
        !has_text(env) && !has_text(saved) ==> chosen_key(env, saved) is None,
        chosen_key(env, saved) matches Some(k) ==> k.len() > 0,
{
}

// ---------------------------------------------------------------------------
// HTTP status
// ---------------------------------------------------------------------------

/// The reason phrase that `StatusCode`'s `Display` writes after the number:
/// `canonical_reason()`, or `<unknown status code>` when there is none.
pub uninterp spec fn status_reason(code: u16) -> Seq<char>;

/// What `StatusCode`'s `Display` writes for the status `code`: the number, a
/// space, and the reason phrase.
pub open spec fn status_line(code: u16) -> Seq<char> {
    decimal(code as nat) + seq![' '] + status_reason(code)
}

/// Whether the HTTP status `code` is a success (`StatusCode::is_success`: the
/// codes 200 to 299). `StatusCode::from_u16` accepts the codes 100 to 999.
#[verifier::external_body]
fn http_success(code: u16) -> (b: bool)
    requires
        100 <= code <= 999,
    ensures
        b == (200 <= code <= 299),
{
    match reqwest::StatusCode::from_u16(code) {
        Ok(status) => status.is_success(),
        Err(_) => false,
    }
}

/// The text `StatusCode`'s `Display` writes for `code`: per its source
/// (`write!(f, "{} {}", code, reason)`) the decimal number, a space and the
/// reason phrase. The reason phrases themselves are named by `status_reason`,
/// not stated.
#[verifier::external_body]
fn http_status_line(code: u16) -> (r: String)
    requires
        100 <= code <= 999,
    ensures
        r@ == decimal(code as nat) + seq![' '] + status_reason(code),
{
    match reqwest::StatusCode::from_u16(code) {
        Ok(status) => format!("{}", status),
        Err(_) => String::new(),
    }
}

/// Whether a reply with HTTP status `code` carries a completion (2xx).
pub fn status_ok(code: u16) -> (b: bool)
    requires
        100 <= code <= 999,
    ensures
        b == (200 <= code <= 299),
{
    http_success(code)
}

/// The error for a refused request, from the status text and the reply body.
pub fn api_error_text(status: &str, body: &str) -> (r: String)
    ensures
        r@ == "API returned "@ + status@ + ": "@ + body@,
{
    let mut r = String::from_str("API returned ");
    r.append(status);
    r.append(": ");
    r.append(body);
    r
}

/// The error for a request refused with status `code` and reply `body`.
pub fn api_error_message(code: u16, body: &str) -> (r: String)
    requires
        100 <= code <= 999,
    ensures
        r@ == "API returned "@ + status_line(code) + ": "@ + body@,
{
    let status = http_status_line(code);
    api_error_text(status.as_str(), body)
}

} // verus!
