//! The legacy text command that rolls one percentile die against a limit and
//! classifies it under the Call of Cthulhu 6th edition thresholds.

use vstd::prelude::*;
use vstd::string::StringExecFns;

use crate::classify::classify;
use crate::classify::spec_classify_coc6;
use crate::classify::Ruleset;
use crate::classify::Tier;
use crate::command_parser::CommandInfo;
use crate::rng::rand_range_i32;
use crate::text::i64_to_string;
use crate::text::int_digits;
use crate::text::spec_parse_i32;
use crate::text::str_eq;

verus! {

pub struct Roll6Command;

/// The reply line for one legacy percentile roll against a limit.
pub open spec fn spec_roll6_message(roll: int, limit: int) -> Seq<char> {
    match spec_classify_coc6(roll, limit) {
        Tier::Critical => {
            if roll == 1 {
                "Result: :star::crown::star: **Critical!!!** ("@ + int_digits(roll) + " <= "@
                    + int_digits(limit) + ")"@
            } else {
                "Result: :crown: **Critical!** ("@ + int_digits(roll) + " <= "@ + int_digits(
                    limit,
                ) + ")"@
            }
        },
        Tier::Fumble => {
            if roll == 100 {
                "Result: :fire::skull::fire: **Fumble!!!** ("@ + int_digits(roll) + " > "@
                    + int_digits(limit) + ")"@
            } else {
                "Result: :skull: **Fumble!** ("@ + int_digits(roll) + " > "@ + int_digits(limit)
                    + ")"@
            }
        },
        Tier::Success => "Result: :o: **Success** ("@ + int_digits(roll) + " <= "@ + int_digits(
            limit,
        ) + ")"@,
        Tier::Failure => "Result: :x: **Failed** ("@ + int_digits(roll) + " > "@ + int_digits(
            limit,
        ) + ")"@,
        _ => Seq::empty(),
    }
}

/// What the legacy percentile command replies: missing or non-numeric
/// arguments give the exact user-facing errors; otherwise some roll was made
/// and the reply shows its 6th edition classification.
pub open spec fn roll6_post(args: Option<Seq<char>>, r: Result<String, String>) -> bool {
    if args is None {
        r matches Err(m) && m@ == "You should provide at least one."@
    } else if spec_parse_i32(args.unwrap()) is None {
        r matches Err(m) && m@ == "You should give a number."@
    } else {
        r matches Ok(msg) && exists|roll: int|
            1 <= roll <= 100 && msg@ == spec_roll6_message(
                roll,
                spec_parse_i32(args.unwrap()).unwrap() as int,
            )
    }
}

impl Roll6Command {
    pub fn is_able_to_recurse(&self) -> (r: bool)
        ensures
            r,
    {
        true
    }

    /// Whether this handler serves the parsed command.
    pub fn is_valid(&self, info: &CommandInfo) -> (r: bool)
        ensures
            r == (info.command@ == "roll"@ || info.command@ == "roll6"@ || info.command@ == "r"@
                || info.command@ == "r6"@),
    {
        str_eq(info.command, "roll") || str_eq(info.command, "roll6") || str_eq(info.command, "r")
            || str_eq(info.command, "r6")
    }

    /// Rolls one percentile die against the numeric argument.
    pub fn execute(&self, info: &CommandInfo) -> (r: Result<String, String>)
        ensures
            roll6_post(crate::commands::custom_roll::opt_args(*info), r),
    {
        let args: &str = match info.args {
            Some(a) => a,
            None => {
                return Err("You should provide at least one.".to_owned());
            },
        };
        let limit: i32 = match crate::text::parse_i32(args) {
            Some(v) => v,
            None => {
                return Err("You should give a number.".to_owned());
            },
        };
        let roll = rand_range_i32(1, 100);
        let tier = classify(Ruleset::Coc6, roll, limit);
        let prefix: &'static str = match tier {
            Tier::Critical => {
                if roll == 1 {
                    "Result: :star::crown::star: **Critical!!!** ("
                } else {
                    "Result: :crown: **Critical!** ("
                }
            },
            Tier::Fumble => {
                if roll == 100 {
                    "Result: :fire::skull::fire: **Fumble!!!** ("
                } else {
                    "Result: :skull: **Fumble!** ("
                }
            },
            Tier::Success => "Result: :o: **Success** (",
            _ => "Result: :x: **Failed** (",
        };
        let op: &'static str = match tier {
            Tier::Critical | Tier::Success => " <= ",
            _ => " > ",
        };
        let mut msg = prefix.to_owned();
        let roll_text = i64_to_string(roll as i64);
        msg.append(roll_text.as_str());
        msg.append(op);
        let limit_text = i64_to_string(limit as i64);
        msg.append(limit_text.as_str());
        msg.append(")");
        proof {
            assert(msg@ =~= spec_roll6_message(roll as int, limit as int));
        }
        Ok(msg)
    }
}

} // verus!
