use descord::client::Client;
use descord::command::{ArgError, Command};
use descord::models::{Author, CreateMessageData, MessageData, ParamType, Value};

fn message(content: &str) -> MessageData {
    MessageData {
        tts: false,
        timestamp: None,
        pinned: false,
        mention_everyone: false,
        flags: 0,
        edited_timestamp: None,
        content: content.to_string(),
        channel_id: "c1".to_string(),
        author: Author { id: "u1".to_string(), username: "alice".to_string() },
        guild_id: None,
        message_id: "m1".to_string(),
    }
}

fn command(name: &str, custom_prefix: bool, args: Vec<ParamType>) -> Command {
    Command { name: name.to_string(), custom_prefix, args }
}

#[test]
fn ping_without_arguments() {
    let mut client = Client::new("tok", 0, "!");
    client.register_commands(vec![command("ping", false, vec![])]);
    assert_eq!(client.commands[0].name, "!ping");
    let ping = &client.commands[0];
    let args = ping.call(&message("!ping")).expect("invocation succeeds");
    assert!(args.is_empty());
    assert_eq!(
        ping.call(&message("!ping extra")).unwrap_err(),
        ArgError::CountMismatch { expected: 0, found: 1 }
    );
}

#[test]
fn empty_content_is_a_count_mismatch() {
    let ping = command("!ping", true, vec![]);
    assert_eq!(
        ping.call(&message("   ")).unwrap_err(),
        ArgError::CountMismatch { expected: 0, found: 0 }
    );
}

#[test]
fn arguments_are_coerced_in_order() {
    let cmd = command("!set", true, vec![ParamType::String, ParamType::Int, ParamType::Bool]);
    let args = cmd.call(&message("  !set  name  -42\ttrue ")).expect("arguments parse");
    assert_eq!(args.len(), 3);
    assert!(matches!(&args[0], Value::String(s) if s == "name"));
    assert!(matches!(args[1], Value::Int(-42)));
    assert!(matches!(args[2], Value::Bool(true)));
}

#[test]
fn bad_arguments_name_their_position() {
    let cmd = command("!set", true, vec![ParamType::String, ParamType::Int, ParamType::Bool]);
    assert_eq!(
        cmd.call(&message("!set a b true")).unwrap_err(),
        ArgError::BadArgument { index: 1 }
    );
    assert_eq!(
        cmd.call(&message("!set a 1 yes")).unwrap_err(),
        ArgError::BadArgument { index: 2 }
    );
    assert_eq!(
        cmd.call(&message("!set a x True")).unwrap_err(),
        ArgError::BadArgument { index: 1 }
    );
}

#[test]
fn wrong_name_is_refused() {
    let cmd = command("!ping", true, vec![]);
    assert_eq!(cmd.call(&message("!pong")).unwrap_err(), ArgError::NameMismatch);
}

#[test]
fn same_text_twice_gives_two_equal_invocations() {
    let cmd = command("!hello", true, vec![ParamType::String]);
    let first = cmd.call(&message("!hello bob")).unwrap();
    let second = cmd.call(&message("!hello bob")).unwrap();
    assert_eq!(first.len(), 1);
    assert_eq!(second.len(), 1);
    assert!(matches!(&first[0], Value::String(s) if s == "bob"));
    assert!(matches!(&second[0], Value::String(s) if s == "bob"));
}

#[test]
fn registration_resolves_prefixes_and_replaces() {
    let mut client = Client::new("tok", 7, "?");
    assert_eq!(client.token(), "tok");
    assert_eq!(client.intents, 7);
    client.register_commands(vec![
        command("echo", false, vec![]),
        command(">raw", true, vec![ParamType::Int]),
        command("echo", false, vec![ParamType::String]),
    ]);
    assert_eq!(client.commands.len(), 2);
    assert_eq!(client.commands[0].name, "?echo");
    assert_eq!(client.commands[0].args, vec![ParamType::String]);
    assert_eq!(client.commands[1].name, ">raw");
    assert_eq!(client.find_command("?echo hi"), Some(0));
    assert_eq!(client.find_command(">raw 3"), Some(1));
    assert_eq!(client.find_command("echo"), None);
    assert_eq!(client.find_command(""), None);
}

#[test]
fn message_body_from_text() {
    let data = CreateMessageData::from("hello".to_string());
    assert_eq!(data.content, "hello");
    assert!(!data.tts);
}

#[test]
fn registration_adds_only_the_full_names() {
    let mut client = Client::new("tok", 0, "!");
    client.register_commands(vec![
        command("ping", false, vec![ParamType::Int]),
        command("?help", true, vec![]),
    ]);
    let names: Vec<&str> = client.commands.iter().map(|c| c.name.as_str()).collect();
    assert_eq!(names, vec!["!ping", "?help"]);
    assert_eq!(client.commands[0].args, vec![ParamType::Int]);
    assert!(client.commands[1].custom_prefix);
    assert_eq!(client.full_name_of(&command("x", false, vec![])), "!x");
    assert_eq!(client.full_name_of(&command("x", true, vec![])), "x");
}

#[test]
fn arguments_from_words() {
    let cmd = command("!add", true, vec![ParamType::Int, ParamType::Int]);
    let words = vec!["!add".to_string(), "2".to_string(), "3".to_string()];
    let args = cmd.call_words(&words).unwrap();
    assert!(matches!(args[..], [Value::Int(2), Value::Int(3)]));
    assert_eq!(cmd.call_words(&vec![]).unwrap_err(), ArgError::CountMismatch { expected: 2, found: 0 });
}
