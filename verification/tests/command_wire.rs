use auto_update::command::Command;

#[test]
fn it_works() {
    let result = 2 + 2;
    assert_eq!(result, 4);
}

#[test]
fn update_is_written_as_a_json_string() {
    assert_eq!(Command::Update.encode(), "\"Update\"");
}

#[test]
fn dummy_is_written_as_a_json_string() {
    assert_eq!(Command::Dummy.encode(), "\"Dummy\"");
}

#[test]
fn every_command_survives_the_wire() {
    for command in [Command::Update, Command::Dummy] {
        let text = command.encode();
        assert_eq!(Command::decode(text.as_bytes()), Some(command));
    }
}

#[test]
fn names_are_found() {
    assert_eq!(Command::Update.as_str(), "Update");
    assert_eq!(Command::Dummy.as_str(), "Dummy");
    assert_eq!(Command::from_name("Update"), Some(Command::Update));
    assert_eq!(Command::from_name("Dummy"), Some(Command::Dummy));
    assert_eq!(Command::from_name("update"), None);
    assert_eq!(Command::from_name(""), None);
}

#[test]
fn white_space_around_the_string_is_allowed() {
    assert_eq!(Command::decode(b"  \"Dummy\"\n"), Some(Command::Dummy));
}

#[test]
fn escapes_inside_the_string_are_resolved() {
    assert_eq!(Command::decode(b"\"\\u0055pdate\""), Some(Command::Update));
}

#[test]
fn frames_without_a_command_hold_none() {
    assert_eq!(Command::decode(b""), None);
    assert_eq!(Command::decode(b"Update"), None);
    assert_eq!(Command::decode(b"\"Restart\""), None);
    assert_eq!(Command::decode(b"\"Update\" \"Dummy\""), None);
    assert_eq!(Command::decode(b"42"), None);
    assert_eq!(Command::decode(b"\"Update"), None);
    assert_eq!(Command::decode(&[0x22, 0xff, 0x22]), None);
}
