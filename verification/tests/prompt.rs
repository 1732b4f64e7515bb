use codex_cli::request::{
    role_marker, serialize_prompt, LanguageModelRequest, LanguageModelRequestMessage, Role,
};

fn message(role: Role, content: &str) -> LanguageModelRequestMessage {
    LanguageModelRequestMessage { role, content: content.to_string() }
}

#[test]
fn an_empty_request_has_an_empty_prompt() {
    let request = LanguageModelRequest { messages: Vec::new() };
    assert_eq!(serialize_prompt(&request), "");
}

#[test]
fn one_message_is_one_line() {
    let request = LanguageModelRequest { messages: vec![message(Role::User, "hello")] };
    assert_eq!(serialize_prompt(&request), "user: hello\n");
}

#[test]
fn messages_keep_their_order() {
    let request = LanguageModelRequest {
        messages: vec![
            message(Role::System, "be brief"),
            message(Role::User, "hi"),
            message(Role::Assistant, "hello"),
            message(Role::Tool, "42"),
            message(Role::User, "bye"),
        ],
    };
    assert_eq!(
        serialize_prompt(&request),
        "system: be brief\nuser: hi\nassistant: hello\ntool: 42\nuser: bye\n"
    );
}

#[test]
fn the_text_of_a_message_is_written_as_it_is() {
    let request = LanguageModelRequest {
        messages: vec![message(Role::User, "two\nlines "), message(Role::Assistant, "")],
    };
    assert_eq!(serialize_prompt(&request), "user: two\nlines \nassistant: \n");
}

#[test]
fn the_prompt_of_a_joined_request_is_the_joined_prompts() {
    let first = vec![message(Role::System, "a"), message(Role::User, "b")];
    let second = vec![message(Role::Assistant, "c")];
    let mut both = first.clone();
    both.extend(second.clone());
    let joined = format!(
        "{}{}",
        serialize_prompt(&LanguageModelRequest { messages: first }),
        serialize_prompt(&LanguageModelRequest { messages: second })
    );
    assert_eq!(serialize_prompt(&LanguageModelRequest { messages: both }), joined);
}

#[test]
fn each_role_has_its_marker() {
    assert_eq!(role_marker(Role::System), "system:");
    assert_eq!(role_marker(Role::User), "user:");
    assert_eq!(role_marker(Role::Assistant), "assistant:");
    assert_eq!(role_marker(Role::Tool), "tool:");
}
