//! The legacy text command that evaluates a user-supplied roll expression.

use vstd::prelude::*;
use vstd::string::StringExecFns;

use crate::command_parser::CommandInfo;
use crate::dice::dice_shape;
use crate::dice::evaluate;
use crate::dice::roll_result_wf;
use crate::dice::spec_roll_string;
use crate::dice::term_matches;
use crate::dice::AsString;
use crate::dice::RollResult;
use crate::text::i64_to_string;
use crate::text::int_digits;
use crate::text::str_eq;

verus! {

pub struct CustomRollCommand;

/// The argument text of a parsed command, as a sequence; empty when absent.
pub open spec fn args_view(info: CommandInfo) -> Seq<char> {
    match info.args {
        Some(a) => a@,
        None => Seq::empty(),
    }
}

/// The optional argument text of a parsed command.
pub open spec fn opt_args(info: CommandInfo) -> Option<Seq<char>> {
    match info.args {
        Some(a) => Some(a@),
        None => None,
    }
}

/// What the legacy roll command replies: the total and the breakdown of a
/// well-formed evaluation of the argument expression, or the exact
/// user-facing error.
pub open spec fn custom_roll_post(args: Option<Seq<char>>, r: Result<String, String>) -> bool {
    if args is None {
        r matches Err(m) && m@ == "You should provide at least one."@
    } else if dice_shape(args.unwrap()) is None {
        r matches Err(m) && m@ == "You should provide a correct expression."@
    } else {
        r matches Ok(msg) && exists|out: RollResult|
            {
                &&& #[trigger] roll_result_wf(out)
                &&& dice_shape(args.unwrap()) matches Some(shape) && out.terms@.len()
                    == shape.len() && forall|i: int|
                    0 <= i < out.terms@.len() ==> term_matches(#[trigger] out.terms@[i], shape[i])
                &&& msg@ == "Result: :game_die: **"@ + int_digits(out.total as int) + "** ("@
                    + spec_roll_string(out.terms@) + ")"@
            }
    }
}

impl CustomRollCommand {
    pub fn is_able_to_recurse(&self) -> (r: bool)
        ensures
            r,
    {
        true
    }

    /// Whether this handler serves the parsed command.
    pub fn is_valid(&self, info: &CommandInfo) -> (r: bool)
        ensures
            r == (info.command@ == "custom_roll"@ || info.command@ == "cr"@),
    {
        str_eq(info.command, "custom_roll") || str_eq(info.command, "cr")
    }

    /// Evaluates the argument expression and renders the total with the
    /// breakdown.
    pub fn execute(&self, info: &CommandInfo) -> (r: Result<String, String>)
        requires
            args_view(*info).len() <= 1000000,
        ensures
            custom_roll_post(opt_args(*info), r),
    {
        let expr: &str = match info.args {
            Some(a) => a,
            None => {
                return Err("You should provide at least one.".to_owned());
            },
        };
        match evaluate(expr) {
            Ok(result) => {
                let mut msg = "Result: :game_die: **".to_owned();
                let total_text = i64_to_string(result.total);
                msg.append(total_text.as_str());
                msg.append("** (");
                let breakdown = result.as_string();
                msg.append(breakdown.as_str());
                msg.append(")");
                proof {
                    assert(msg@ =~= "Result: :game_die: **"@ + int_digits(result.total as int)
                        + "** ("@ + spec_roll_string(result.terms@) + ")"@);
                }
                Ok(msg)
            },
            Err(_) => Err("You should provide a correct expression.".to_owned()),
        }
    }
}

} // verus!
