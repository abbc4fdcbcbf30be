//! Tests of the legacy per-user records: the flat binary format round trip
//! and the macro commands with their validation rules.

use std::collections::HashMap;

use cthulhu_bot::command_parser::parse_command;
use cthulhu_bot::commands::text_mode::{run_text_command, TextOutcome};
use cthulhu_bot::user_data::{parse_all, parse_user_info, serialize_all, CommandDef, UserInfo};

/// Save data to a file image and load it back.
/// That should be the same data.
#[test]
fn user_info_test1() {
    let user_id = 12345;
    let hp = 10;
    let san = 11;
    let mp = 12;

    let mut info = UserInfo::new(user_id);
    info.hp = hp;
    info.san = san;
    info.mp = mp;
    info.commands.push(CommandDef { name: "SpotHidden".to_string(), value: "/r 50".to_string() });

    let image = serialize_all(&vec![info]);
    let loaded = parse_all(&image).unwrap();

    let mut data: HashMap<u64, UserInfo> = HashMap::new();
    for record in loaded {
        data.insert(record.name, record);
    }
    assert_eq!(data.get(&user_id).unwrap().name, user_id);
    assert_eq!(data.get(&user_id).unwrap().hp, hp);
    assert_eq!(data.get(&user_id).unwrap().san, san);
    assert_eq!(data.get(&user_id).unwrap().mp, mp);
    assert_eq!(
        data.get(&user_id).unwrap().get_macro("SpotHidden").unwrap(),
        "/r 50"
    );
}

#[test]
fn record_bytes_are_exact() {
    let mut info = UserInfo::new(0x0102030405060708);
    info.hp = 9;
    info.san = 8;
    info.mp = 7;
    info.commands.push(CommandDef { name: "spot".to_string(), value: "/r 50".to_string() });
    let bytes = info.to_vec();
    let mut expected: Vec<u8> = vec![1, 2, 3, 4, 5, 6, 7, 8, 9, 8, 7, 1];
    expected.extend_from_slice(b"spot");
    expected.push(3);
    expected.extend_from_slice(b"/r 50");
    expected.push(3);
    assert_eq!(bytes, expected);
}

#[test]
fn record_round_trip_single() {
    let mut info = UserInfo::new(77);
    info.hp = 1;
    info.commands.push(CommandDef { name: "a".to_string(), value: "b".to_string() });
    info.commands.push(CommandDef { name: "c".to_string(), value: "".to_string() });
    let bytes = info.to_vec();
    let (back, end) = parse_user_info(&bytes, 0).unwrap();
    assert_eq!(end, bytes.len());
    assert_eq!(back.name, 77);
    assert_eq!(back.hp, 1);
    assert_eq!(back.commands.len(), 2);
    assert_eq!(back.get_macro("a").unwrap(), "b");
    assert_eq!(back.get_macro("c").unwrap(), "");
}

#[test]
fn truncated_record_is_rejected() {
    let mut info = UserInfo::new(5);
    info.commands.push(CommandDef { name: "x".to_string(), value: "y".to_string() });
    let mut bytes = info.to_vec();
    bytes.pop();
    assert!(parse_user_info(&bytes, 0).is_none());
}

fn dispatch(line: &str, table: &mut HashMap<u64, UserInfo>) -> Result<TextOutcome, String> {
    let info = parse_command(line).unwrap();
    run_text_command(&info, "Alice", 42, table, false)
}

#[test]
fn define_and_use_round_trip() {
    let mut table: HashMap<u64, UserInfo> = HashMap::new();
    let defined = dispatch("/define spot /r 50", &mut table).unwrap();
    match defined {
        TextOutcome::Message(m) => assert_eq!(m, "You defined `spot`."),
        _ => panic!("expected a message"),
    }
    assert_eq!(table.get(&42).unwrap().get_macro("spot").unwrap(), "/r 50");

    // Using the macro expands it one level and rolls 1d100 against 50.
    match dispatch("/use spot", &mut table).unwrap() {
        TextOutcome::Message(m) => assert!(m.starts_with("Result: ")),
        _ => panic!("expected a rolled message"),
    }
}

#[test]
fn define_rejects_separator_byte() {
    let mut table: HashMap<u64, UserInfo> = HashMap::new();
    let line = format!("/define sp{}t value", '\u{3}');
    let info = parse_command(&line).unwrap();
    let result = run_text_command(&info, "Alice", 42, &mut table, false);
    assert_eq!(result, Err("The command contains `\\x03`, an invalid character.".to_string()));
    assert!(table.is_empty());
}

#[test]
fn define_rejects_long_fields() {
    let mut table: HashMap<u64, UserInfo> = HashMap::new();
    let result = dispatch("/define abcdefghijklmnopqrstu v", &mut table);
    assert_eq!(result, Err("The command is too long.".to_string()));
    let result = dispatch("/define n abcdefghijklmnopqrstu", &mut table);
    assert_eq!(result, Err("The command is too long.".to_string()));
    assert!(table.is_empty());
}

#[test]
fn define_rejects_sixth_macro() {
    let mut table: HashMap<u64, UserInfo> = HashMap::new();
    for (name, value) in [("a", "1"), ("b", "2"), ("c", "3"), ("d", "4"), ("e", "5")] {
        let line = format!("/define {} {}", name, value);
        let info = parse_command(&line).unwrap();
        assert!(run_text_command(&info, "Alice", 42, &mut table, false).is_ok());
    }
    assert_eq!(table.get(&42).unwrap().commands.len(), 5);
    let result = dispatch("/define f 6", &mut table);
    assert_eq!(
        result,
        Err("You can define the command up to five. You may use `/undef` to delete one.".to_string())
    );
    assert_eq!(table.get(&42).unwrap().commands.len(), 5);

    // Redefining one of the five replaces it: it adds no entry, so the cap
    // does not refuse it.
    match dispatch("/define c 9", &mut table).unwrap() {
        TextOutcome::Message(m) => assert_eq!(m, "You defined `c`."),
        _ => panic!("expected a message"),
    }
    assert_eq!(table.get(&42).unwrap().commands.len(), 5);
    assert_eq!(table.get(&42).unwrap().get_macro("c").unwrap(), "9");
}

#[test]
fn define_needs_two_arguments() {
    let mut table: HashMap<u64, UserInfo> = HashMap::new();
    assert_eq!(
        dispatch("/define onlyname", &mut table),
        Err("`/define` calls for two arguments.".to_string())
    );
}

#[test]
fn undefine_removes_macro() {
    let mut table: HashMap<u64, UserInfo> = HashMap::new();
    dispatch("/define spot /r 50", &mut table).unwrap();
    match dispatch("/undef spot", &mut table).unwrap() {
        TextOutcome::Message(m) => assert_eq!(m, "The command was deleted successfully."),
        _ => panic!("expected a message"),
    }
    assert!(table.get(&42).unwrap().get_macro("spot").is_none());
    assert_eq!(
        dispatch("/undefine x", &mut table).map(|_| ()),
        Ok(())
    );
    let mut empty: HashMap<u64, UserInfo> = HashMap::new();
    assert_eq!(
        dispatch("/undefine x", &mut empty),
        Err("You haven't declared the command.".to_string())
    );
}

#[test]
fn use_lists_macros_or_reports_none() {
    let mut table: HashMap<u64, UserInfo> = HashMap::new();
    match dispatch("/use", &mut table).unwrap() {
        TextOutcome::Message(m) => assert_eq!(m, "There are no commands."),
        _ => panic!("expected a message"),
    }
    dispatch("/define spot /r 50", &mut table).unwrap();
    match dispatch("/use", &mut table).unwrap() {
        TextOutcome::Embed(reply) => {
            assert_eq!(reply.title, "Alice's commands");
            assert_eq!(reply.fields.len(), 1);
            assert_eq!(reply.fields[0].name, "spot");
            assert_eq!(reply.fields[0].value, "/r 50");
        },
        _ => panic!("expected an embed"),
    }
    assert_eq!(
        dispatch("/use missing", &mut table),
        Err("It is an unknown command.".to_string())
    );
}

#[test]
fn macros_cannot_invoke_macros() {
    let mut table: HashMap<u64, UserInfo> = HashMap::new();
    dispatch("/define a /use b", &mut table).unwrap();
    dispatch("/define b /r 50", &mut table).unwrap();
    // Expanding `a` dispatches `/use b` recursively; the use command is not
    // recursion-safe, so the expansion falls through silently.
    match dispatch("/use a", &mut table).unwrap() {
        TextOutcome::NoMatch => {},
        _ => panic!("expected the nested macro to be refused"),
    }
}

#[test]
fn legacy_rolls_reply_with_result() {
    let mut table: HashMap<u64, UserInfo> = HashMap::new();
    match dispatch("/cr 2d4+1", &mut table).unwrap() {
        TextOutcome::Message(m) => assert!(m.starts_with("Result: :game_die: **")),
        _ => panic!("expected a message"),
    }
    match dispatch("/r 50", &mut table).unwrap() {
        TextOutcome::Message(m) => assert!(m.starts_with("Result: ")),
        _ => panic!("expected a message"),
    }
    assert_eq!(
        dispatch("/r notanumber", &mut table),
        Err("You should give a number.".to_string())
    );
    assert_eq!(
        dispatch("/cr", &mut table),
        Err("You should provide at least one.".to_string())
    );
}
