//! Tests of the pure engine: classification thresholds, dice evaluation,
//! rendering, text utilities and the command-line splitter.

use cthulhu_bot::classify::{classify, Ruleset, Tier};
use cthulhu_bot::command_parser::parse_command;
use cthulhu_bot::dice::{evaluate, AsString, RollResult, RollTerm};
use cthulhu_bot::text::{i64_to_string, parse_i32, plus_i64_to_string, str_eq, u64_to_string};

#[test]
fn classify_coc6_boundaries() {
    assert_eq!(classify(Ruleset::Coc6, 1, 50), Tier::Critical);
    assert_eq!(classify(Ruleset::Coc6, 96, 50), Tier::Fumble);
    assert_eq!(classify(Ruleset::Coc6, 50, 50), Tier::Success);
    assert_eq!(classify(Ruleset::Coc6, 51, 50), Tier::Failure);
    assert_eq!(classify(Ruleset::Coc6, 5, 50), Tier::Critical);
    assert_eq!(classify(Ruleset::Coc6, 100, 50), Tier::Fumble);
}

#[test]
fn classify_coc7_extreme_hard() {
    // 60 / 5 = 12, inclusive boundary; 13 falls to hard since 60 / 2 = 30.
    assert_eq!(classify(Ruleset::Coc7, 12, 60), Tier::Extreme);
    assert_eq!(classify(Ruleset::Coc7, 13, 60), Tier::Hard);
    assert_eq!(classify(Ruleset::Coc7, 30, 60), Tier::Hard);
    assert_eq!(classify(Ruleset::Coc7, 31, 60), Tier::Success);
    assert_eq!(classify(Ruleset::Coc7, 1, 60), Tier::Critical);
    assert_eq!(classify(Ruleset::Coc7, 100, 60), Tier::Fumble);
    // roll > 95 fumbles only when the target is under 50.
    assert_eq!(classify(Ruleset::Coc7, 96, 40), Tier::Fumble);
    assert_eq!(classify(Ruleset::Coc7, 96, 60), Tier::Failure);
}

#[test]
fn classify_dg_matching_digits() {
    assert_eq!(classify(Ruleset::DeltaGreen, 33, 50), Tier::Critical);
    assert_eq!(classify(Ruleset::DeltaGreen, 34, 50), Tier::Success);
    assert_eq!(classify(Ruleset::DeltaGreen, 77, 50), Tier::Failure);
    assert_eq!(classify(Ruleset::DeltaGreen, 100, 50), Tier::Fumble);
}

#[test]
fn classify_brp_thresholds() {
    // target 40: critical threshold (40-1)/20+1 = 2, special (40-1)/5+1 = 8.
    assert_eq!(classify(Ruleset::Brp, 1, 40), Tier::Critical);
    assert_eq!(classify(Ruleset::Brp, 2, 40), Tier::Critical);
    assert_eq!(classify(Ruleset::Brp, 3, 40), Tier::Special);
    assert_eq!(classify(Ruleset::Brp, 8, 40), Tier::Special);
    assert_eq!(classify(Ruleset::Brp, 9, 40), Tier::Success);
    assert_eq!(classify(Ruleset::Brp, 40, 40), Tier::Success);
    assert_eq!(classify(Ruleset::Brp, 41, 40), Tier::Failure);
    // fumble from min(96 + (40-1)/20, 100) = 97 upward.
    assert_eq!(classify(Ruleset::Brp, 96, 40), Tier::Failure);
    assert_eq!(classify(Ruleset::Brp, 97, 40), Tier::Fumble);
}

#[test]
fn evaluate_total_in_bounds() {
    for _ in 0..50 {
        let r = evaluate("3d6+1").unwrap();
        assert!(r.total >= 4 && r.total <= 19);
        assert_eq!(r.terms.len(), 2);
    }
}

#[test]
fn evaluate_rejects_garbage() {
    assert!(evaluate("roll four chickens").is_err());
    assert!(evaluate("").is_err());
}

#[test]
fn roll_breakdown_rendering() {
    let result = RollResult {
        terms: vec![
            RollTerm::Dice { multiplier: 3, sides: 6, rolls: vec![4, 2, 6] },
            RollTerm::Modifier(1),
        ],
        total: 13,
    };
    assert_eq!(result.as_string(), "3d6[4, 2, 6]+1");
}

#[test]
fn number_rendering() {
    assert_eq!(u64_to_string(0), "0");
    assert_eq!(u64_to_string(105), "105");
    assert_eq!(i64_to_string(-37), "-37");
    assert_eq!(plus_i64_to_string(5), "+5");
    assert_eq!(plus_i64_to_string(-2), "-2");
    assert_eq!(plus_i64_to_string(0), "+0");
}

#[test]
fn string_equality() {
    assert!(str_eq("HP", "HP"));
    assert!(!str_eq("HP", "MP"));
    assert!(str_eq("", ""));
    assert!(str_eq("技能", "技能"));
    assert!(!str_eq("技能", "技"));
}

#[test]
fn parse_i32_cases() {
    assert_eq!(parse_i32("42"), Some(42));
    assert_eq!(parse_i32("-7"), Some(-7));
    assert_eq!(parse_i32("+0"), Some(0));
    assert_eq!(parse_i32(""), None);
    assert_eq!(parse_i32("abc"), None);
    assert_eq!(parse_i32("12a"), None);
    assert_eq!(parse_i32("2147483647"), Some(2147483647));
    assert_eq!(parse_i32("2147483648"), None);
    assert_eq!(parse_i32("-2147483648"), Some(-2147483648));
    assert_eq!(parse_i32("-2147483649"), None);
}

#[test]
fn parse_command_splits_comment() {
    let info = parse_command("/roll 3d6+1 # fireball").unwrap();
    assert_eq!(info.command, "roll");
    assert_eq!(info.args, Some("3d6+1 "));
    assert_eq!(info.comment, Some("fireball"));
}

#[test]
fn parse_command_rejects_plain_text() {
    assert!(parse_command("hello").is_none());
    assert!(parse_command("").is_none());
    assert!(parse_command("/").is_none());
    assert!(parse_command("/ roll").is_none());
}

#[test]
fn parse_command_bare_and_hash() {
    let info = parse_command("/status").unwrap();
    assert_eq!(info.command, "status");
    assert!(info.args.is_none());
    assert!(info.comment.is_none());

    let info = parse_command("/cr 2d6 #push").unwrap();
    assert_eq!(info.command, "cr");
    assert_eq!(info.args, Some("2d6 "));
    assert_eq!(info.comment, Some("push"));

    let info = parse_command("/r#x").unwrap();
    assert_eq!(info.command, "r");
    assert!(info.args.is_none());
    assert_eq!(info.comment, Some("x"));
}
