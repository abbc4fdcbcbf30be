//! Tests of the slash-command layer: the dispatcher, the registry filter,
//! the store-backed commands and the opposed rolls.

use cthulhu_bot::commands::choice::ChooseCommand;
use cthulhu_bot::commands::opposed::Op6Command;
use cthulhu_bot::commands::roll::RollCommand;
use cthulhu_bot::commands::skill::{Sk7Command, SkBRPCommand, SkDGCommand, SkillCommand};
use cthulhu_bot::config::BotConfigError;
use cthulhu_bot::logging::{LogKind, Logger};
use cthulhu_bot::commands::create_sheet::CSCommand;
use cthulhu_bot::commands::opposed::{op6_chance, op6_player1_wins, Op7Command, RollOutcome};
use cthulhu_bot::commands::set::SetCommand;
use cthulhu_bot::commands::skill::Sk6Command;
use cthulhu_bot::commands::status::StatusCommand;
use cthulhu_bot::commands::{
    BotCommandManager, CommandKind, CommandOption, CommandStatus, DispatchOutcome, Invocation,
    OptionValue, ReplyColor,
};
use cthulhu_bot::database::{BotDatabase, DummyDatabase, MemoryDatabase, Status};

fn invocation(name: &str, options: Vec<CommandOption>) -> Invocation {
    Invocation {
        name: name.to_string(),
        options,
        nickname: "Alice".to_string(),
        user_id: 42,
    }
}

fn str_option(name: &str, value: &str) -> CommandOption {
    CommandOption { name: name.to_string(), value: OptionValue::Str(value.to_string()) }
}

fn int_option(name: &str, value: i32) -> CommandOption {
    CommandOption { name: name.to_string(), value: OptionValue::Int(value) }
}

#[test]
fn status_round_trip() {
    let mut store = MemoryDatabase::new();
    store.set_value(7, Status { hp: 10, san: 20, mp: 5 }).unwrap();
    let record = store.get_value(7);
    assert_eq!(record, Status { hp: 10, san: 20, mp: 5 });
    assert_eq!(store.get_value(8), Status { hp: 0, san: 0, mp: 0 });
    assert_eq!(store.try_get_value(8), None);
    assert!(store.is_available());
    assert!(!DummyDatabase.is_available());
}

#[test]
fn status_field_access() {
    let mut record = Status { hp: 1, san: 2, mp: 3 };
    assert_eq!(record.get_value("SAN"), Ok(2));
    assert_eq!(record.get_value("XX"), Err(()));
    assert_eq!(record.update_value("HP", 9), Ok(1));
    assert_eq!(record.hp, 9);
    assert_eq!(record.update_value("??", 9), Err(()));
}

#[test]
fn dispatcher_duplicate_name_executes_nothing() {
    let mut manager = BotCommandManager {
        commands: vec![CommandKind::Choose, CommandKind::Choose],
        counters: vec![0, 0],
    };
    let mut store = MemoryDatabase::new();
    let inv = invocation("choose", vec![str_option("choices", "A,B")]);
    let outcome = manager.run_command(&inv, &mut store).unwrap();
    assert!(matches!(outcome, DispatchOutcome::DuplicateName));
    assert_eq!(manager.counters, vec![0, 0]);
}

#[test]
fn dispatcher_unknown_name() {
    let mut manager = BotCommandManager::new();
    let mut store = MemoryDatabase::new();
    let inv = invocation("nonsense", vec![]);
    let outcome = manager.run_command(&inv, &mut store).unwrap();
    assert!(matches!(outcome, DispatchOutcome::UnknownCommand));
}

#[test]
fn dispatcher_counts_and_replies() {
    let mut manager = BotCommandManager::new();
    let mut store = MemoryDatabase::new();
    let inv = invocation("sk6", vec![int_option("chance", 50)]);
    match manager.run_command(&inv, &mut store).unwrap() {
        DispatchOutcome::Reply(reply) => {
            assert_eq!(reply.title, "Alice uses a skill");
            assert_eq!(reply.fields.len(), 1);
        },
        _ => panic!("expected a reply"),
    }
    let report = manager.reset_counters();
    let sk6 = report.iter().find(|(name, _)| name == "sk6").unwrap();
    assert_eq!(sk6.1, 1);
}

#[test]
fn dispatcher_turns_refusal_into_error_embed() {
    let mut manager = BotCommandManager::new();
    let mut store = MemoryDatabase::new();
    let inv = invocation("set", vec![str_option("param", "HP"), int_option("value", 40000)]);
    match manager.run_command(&inv, &mut store).unwrap() {
        DispatchOutcome::ErrorReply(reply) => {
            assert_eq!(reply.title, "ERROR");
            assert_eq!(reply.fields.len(), 1);
            assert_eq!(reply.fields[0].name, "Message");
            assert!(reply.fields[0].value.starts_with("You must provide a value"));
            assert_eq!(reply.color, Some(ReplyColor::Red));
        },
        _ => panic!("expected the uniform error embed"),
    }
}

#[test]
fn register_all_withholds_store_commands() {
    let manager = BotCommandManager::new();
    let with_store = manager.register_all(true);
    let without_store = manager.register_all(false);
    assert_eq!(with_store.len(), 12);
    assert_eq!(without_store.len(), 10);
    assert!(without_store.iter().all(|d| !d.use_db));
    assert!(with_store.iter().any(|d| d.name == "set"));
    assert!(without_store.iter().all(|d| d.name != "set" && d.name != "status"));
}

#[test]
fn opposed_six_chance_formula() {
    assert_eq!(op6_chance(15, 10), 75);
    assert!(op6_player1_wins(15, 10, 75));
    assert!(!op6_player1_wins(15, 10, 76));
    assert_eq!(op6_chance(0, 20), 0);
    assert_eq!(op6_chance(20, 0), 100);
}

#[test]
fn opposed_outcomes_compare_by_rank_then_status() {
    assert!(RollOutcome::ExtremeSuccess(10) > RollOutcome::HardSuccess(90));
    assert!(RollOutcome::HardSuccess(10) > RollOutcome::Success(90));
    assert!(RollOutcome::Success(10) > RollOutcome::Failure(90));
    assert!(RollOutcome::Success(10) < RollOutcome::Success(20));
    assert_eq!(RollOutcome::Failure(5), RollOutcome::Failure(5));
    assert_eq!(RollOutcome::ExtremeSuccess(7).to_string(), "Extreme Success");
}

#[test]
fn opposed_seven_replies_with_two_fields() {
    let inv = invocation(
        "op7",
        vec![int_option("status1", 50), int_option("status2", 50), int_option("bonus1", 1)],
    );
    match (Op7Command).execute(&inv).unwrap() {
        CommandStatus::Replied(reply) => {
            assert_eq!(reply.title, "A competition");
            assert_eq!(reply.fields.len(), 2);
            assert!(reply.fields[0].name.starts_with(":first_place: player"));
            assert!(reply.fields[1].name.starts_with(":second_place: player"));
        },
        _ => panic!("expected a reply"),
    }
}

#[test]
fn opposed_seven_dice_share_tens_digit() {
    // With a bonus of three, player1 rolls four percentile values that share
    // one fixed tens digit (100 counts as tens digit zero) with independent
    // ones digits.
    for _ in 0..20 {
        let inv = invocation(
            "op7",
            vec![int_option("status1", 50), int_option("status2", 50), int_option("bonus1", 3)],
        );
        match (Op7Command).execute(&inv).unwrap() {
            CommandStatus::Replied(reply) => {
                let line = reply
                    .fields
                    .iter()
                    .map(|f| f.value.as_str())
                    .find(|v| v.contains("min(["))
                    .expect("player1 rolls with a bonus");
                let open = line.find('[').unwrap();
                let close = line.find(']').unwrap();
                let values: Vec<i32> = line[open + 1..close]
                    .split(", ")
                    .map(|v| v.parse().unwrap())
                    .collect();
                assert_eq!(values.len(), 4);
                assert!(values.iter().all(|v| (1..=100).contains(v)));
                let tens = (values[0] % 100) / 10;
                assert!(values.iter().all(|v| (v % 100) / 10 == tens));
            },
            _ => panic!("expected a reply"),
        }
    }
}

#[test]
fn roll_refusal_carries_evaluator_message() {
    let inv = invocation("roll", vec![str_option("dice", "xyz")]);
    match (RollCommand).execute(&inv).unwrap() {
        CommandStatus::Refused(message) => assert_eq!(message, "invalid term: 'xyz'"),
        _ => panic!("expected a refusal"),
    }
    let inv = invocation("roll", vec![str_option("dice", "2d6+1")]);
    assert!(matches!((RollCommand).execute(&inv).unwrap(), CommandStatus::Replied(_)));
}

#[test]
fn choose_picks_one_of_the_choices() {
    let inv = invocation("choose", vec![str_option("choices", "A,B,C")]);
    match (ChooseCommand).execute(&inv).unwrap() {
        CommandStatus::Replied(reply) => {
            assert_eq!(reply.title, "Alice's choice");
            let name = &reply.fields[0].name;
            assert!(name == "**A**" || name == "**B**" || name == "**C**");
            assert_eq!(reply.fields[0].value, "From A,B,C");
        },
        _ => panic!("expected a reply"),
    }
}

#[test]
fn set_writes_whole_record_back() {
    let mut store = MemoryDatabase::new();
    store.set_value(42, Status { hp: 3, san: 4, mp: 5 }).unwrap();
    let inv = invocation("set", vec![str_option("param", "SAN"), int_option("value", 11)]);
    match (SetCommand).execute(&inv, &mut store).unwrap() {
        CommandStatus::Replied(reply) => {
            assert_eq!(reply.title, "Alice's status");
            assert_eq!(reply.fields[0].name, "SAN");
            assert_eq!(reply.fields[0].value, ":shield: **4** → **11**");
        },
        _ => panic!("expected a reply"),
    }
    assert_eq!(store.get_value(42), Status { hp: 3, san: 11, mp: 5 });
}

#[test]
fn set_rejects_unknown_parameter() {
    let mut store = MemoryDatabase::new();
    let inv = invocation("set", vec![str_option("param", "LUCK"), int_option("value", 1)]);
    match (SetCommand).execute(&inv, &mut store).unwrap() {
        CommandStatus::Refused(message) => {
            assert!(message.starts_with("The parameter named \"LUCK\" doesn't exist."));
        },
        _ => panic!("expected a refusal"),
    }
    assert_eq!(SetCommand::get_icon("HP"), ":heart:");
    assert_eq!(SetCommand::get_icon("SAN"), ":shield:");
    assert_eq!(SetCommand::get_icon("MP"), ":comet:");
    assert_eq!(SetCommand::get_icon("??"), "");
}

#[test]
fn status_command_shows_three_fields() {
    let mut store = MemoryDatabase::new();
    store.set_value(42, Status { hp: 10, san: 20, mp: 5 }).unwrap();
    let inv = invocation("status", vec![]);
    match (StatusCommand).execute(&inv, &store).unwrap() {
        CommandStatus::Replied(reply) => {
            assert_eq!(reply.title, "Alice's status");
            assert_eq!(reply.fields.len(), 3);
            assert_eq!(reply.fields[0].value, ":heart: **10**");
            assert_eq!(reply.fields[1].value, ":shield: **20**");
            assert_eq!(reply.fields[2].value, ":comet: **5**");
            assert!(reply.fields.iter().all(|f| f.inline));
        },
        _ => panic!("expected a reply"),
    }
}

#[test]
fn character_sheet_rolls_eight_attributes() {
    let inv = invocation("cs", vec![]);
    match (CSCommand).execute(&inv).unwrap() {
        CommandStatus::Replied(reply) => {
            assert_eq!(reply.title, "Alice's character");
            assert_eq!(reply.fields.len(), 8);
            assert!(reply.fields[0].name.starts_with(":dagger: STR "));
            assert!(reply.fields[7].name.starts_with(":books: EDU "));
            // Each total sits in its attribute's range: 3d6 in 3..=18 for
            // the first five, 2d6+6 in 8..=18 for SIZ and INT, 3d6+3 in
            // 6..=21 for EDU.
            for (k, field) in reply.fields.iter().enumerate() {
                let total: i64 = field.name.rsplit(' ').next().unwrap().parse().unwrap();
                let (low, high) = if k <= 4 {
                    (3, 18)
                } else if k <= 6 {
                    (8, 18)
                } else {
                    (6, 21)
                };
                assert!((low..=high).contains(&total), "{}: {}", field.name, total);
            }
        },
        _ => panic!("expected a reply"),
    }
}

#[test]
fn skill_commands_share_their_schema() {
    let descriptor = (Sk6Command).create();
    assert_eq!(descriptor.name, "sk6");
    assert!(!descriptor.use_db);
    assert_eq!(descriptor.options.len(), 2);
    assert_eq!(descriptor.options[0].name, "chance");
    assert!(descriptor.options[0].required);
    assert_eq!(descriptor.options[1].name, "comment");
    assert!(!descriptor.options[1].required);
}

#[test]
fn command_names_follow_the_convention() {
    // Each name is the handler's type name with the conventional suffix
    // stripped, lowercased.
    assert_eq!((ChooseCommand).name(), "choose");
    assert_eq!((CSCommand).name(), "cs");
    assert_eq!((RollCommand).name(), "roll");
    assert_eq!((Op6Command).name(), "op6");
    assert_eq!((Op7Command).name(), "op7");
    assert_eq!((Sk6Command).name(), "sk6");
    assert_eq!((Sk7Command).name(), "sk7");
    assert_eq!((SkDGCommand).name(), "skdg");
    assert_eq!((SkBRPCommand).name(), "skbrp");
    assert_eq!((SkillCommand).name(), "skill");
    assert_eq!((SetCommand).name(), "set");
    assert_eq!((StatusCommand).name(), "status");
    assert!((SetCommand).use_db());
    assert!((StatusCommand).use_db());
    assert!(!(RollCommand).use_db());
}

#[test]
fn log_lines_are_column_formatted() {
    assert_eq!(LogKind::WARN.to_string(), "WARN");
    let line = Logger::format_line("2020-01-01T00:00:00+00:00", LogKind::LOG, "ready");
    assert_eq!(line, format!("{:35} {:7} {}\n", "2020-01-01T00:00:00+00:00", "[LOG]", "ready"));
}

#[test]
fn config_error_keeps_its_message() {
    let error = BotConfigError::new("No configuration file is provided.");
    assert_eq!(error.to_string(), "No configuration file is provided.");
}
