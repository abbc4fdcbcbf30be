//! The dice-rolling command: evaluates a user-supplied roll expression and
//! replies with the total and the per-term breakdown.

use vstd::prelude::*;
use vstd::pervasive::unreached;
use vstd::string::StringExecFns;

use crate::commands::find_option;
use crate::commands::str_option_or;
use crate::commands::CommandDescriptor;
use crate::commands::CommandOption;
use crate::commands::CommandStatus;
use crate::commands::InteractionUtil;
use crate::commands::Invocation;
use crate::commands::OptionKind;
use crate::commands::OptionSpec;
use crate::commands::OptionValue;
use crate::commands::Reply;
use crate::commands::ReplyField;
use crate::database::StoreError;
use crate::dice::dice_error_of;
use crate::dice::dice_shape;
use crate::dice::evaluate;
use crate::dice::roll_result_wf;
use crate::dice::spec_roll_string;
use crate::dice::term_matches;
use crate::dice::AsString;
use crate::dice::RollResult;
use crate::text::i64_to_string;
use crate::text::int_digits;

verus! {

/// A command to roll dices.
pub struct RollCommand;

/// The invocation shape the roll command relies on: the required `dice`
/// string is present and short enough to evaluate, and `comment`, when
/// present, is a string.
pub open spec fn roll_input_ok(opts: Seq<CommandOption>) -> bool {
    &&& match find_option(opts, "dice"@) {
        Some(OptionValue::Str(s)) => s@.len() <= 1000000,
        _ => false,
    }
    &&& !(find_option(opts, "comment"@) matches Some(OptionValue::Int(_)))
}

/// The expression the invocation asks to roll.
pub open spec fn roll_dice_text(opts: Seq<CommandOption>) -> Seq<char> {
    str_option_or(opts, "dice"@, Seq::empty())
}

/// The suffix the optional comment adds to the title.
pub open spec fn roll_title_suffix(opts: Seq<CommandOption>) -> Seq<char> {
    match find_option(opts, "comment"@) {
        Some(OptionValue::Str(s)) => " for "@ + s@,
        _ => Seq::empty(),
    }
}

/// The reply a successful roll produces: the total beside a die icon, and
/// the breakdown of the evaluated terms.
pub open spec fn roll_reply_matches(
    reply: Reply,
    nickname: Seq<char>,
    suffix: Seq<char>,
    out: RollResult,
) -> bool {
    &&& reply.title@ == nickname + " rolls dice(s)"@ + suffix
    &&& reply.fields@.len() == 1
    &&& reply.fields@[0].name@ == ":game_die: "@ + int_digits(out.total as int)
    &&& reply.fields@[0].value@ == spec_roll_string(out.terms@)
    &&& reply.fields@[0].inline == false
    &&& reply.color is None
}

/// What executing the roll command guarantees: a reply showing a well-formed
/// evaluation of the supplied expression when the evaluator accepts it, and
/// the evaluator's error text as a user-facing error when it does not.
pub open spec fn roll_execute_ensures(inv: Invocation, r: Result<
    CommandStatus,
    StoreError,
>) -> bool {
    &&& r is Ok
    &&& (dice_shape(roll_dice_text(inv.options@)) is Some <==> r matches Ok(
        CommandStatus::Replied(_),
    ))
    &&& (dice_shape(roll_dice_text(inv.options@)) is None <==> r matches Ok(
        CommandStatus::Refused(_),
    ))
    &&& match r {
        Ok(CommandStatus::Replied(reply)) => exists|out: RollResult|
            {
                &&& #[trigger] roll_result_wf(out)
                &&& out.terms@.len() == dice_shape(roll_dice_text(inv.options@)).unwrap().len()
                &&& forall|i: int|
                    0 <= i < out.terms@.len() ==> term_matches(
                        #[trigger] out.terms@[i],
                        dice_shape(roll_dice_text(inv.options@)).unwrap()[i],
                    )
                &&& roll_reply_matches(
                    reply,
                    inv.nickname@,
                    roll_title_suffix(inv.options@),
                    out,
                )
            },
        Ok(CommandStatus::Refused(m)) => m@ == dice_error_of(roll_dice_text(inv.options@)),
        _ => true,
    }
}

impl RollCommand {
    pub fn create(&self) -> (r: CommandDescriptor)
        ensures
            r.name@ == "roll"@,
            !r.use_db,
            r.description_ja is None,
            r.options@.len() == 2,
            r.options@[0].name@ == "dice"@,
            r.options@[0].kind == OptionKind::OptString,
            r.options@[0].required,
            r.options@[1].name@ == "comment"@,
            r.options@[1].kind == OptionKind::OptString,
            !r.options@[1].required,
    {
        let mut opts: Vec<OptionSpec> = Vec::new();
        opts.push(
            OptionSpec {
                name: "dice".to_owned(),
                description:
                    "An expression to be evaluated (ex. `3d4 + 1`) | 振りたいダイス (例: `3d4 + 1`)".to_owned(),
                kind: OptionKind::OptString,
                required: true,
                choices: Vec::new(),
                name_ja: None,
                description_ja: None,
            },
        );
        opts.push(
            OptionSpec {
                name: "comment".to_owned(),
                description: "A comment | ダイスの説明".to_owned(),
                kind: OptionKind::OptString,
                required: false,
                choices: Vec::new(),
                name_ja: None,
                description_ja: None,
            },
        );
        CommandDescriptor {
            name: "roll".to_owned(),
            description: "Rolls designated dices. | 指定されたダイスを振ります.".to_owned(),
            description_ja: None,
            options: opts,
            use_db: false,
        }
    }

    pub fn name(&self) -> (r: &'static str)
        ensures
            r@ == "roll"@,
    {
        "roll"
    }

    pub fn use_db(&self) -> (r: bool)
        ensures
            !r,
    {
        false
    }

    /// Evaluates the supplied expression and replies with the total and the
    /// breakdown; a rejected expression becomes a user-facing error.
    pub fn execute(&self, interaction: &Invocation) -> (r: Result<CommandStatus, StoreError>)
        requires
            roll_input_ok(interaction.options@),
        ensures
            roll_execute_ensures(*interaction, r),
    {
        let dice: &str = match interaction.get_string_option("dice".to_owned()) {
            Some(s) => s,
            None => unreached(),
        };

        let comment_suffix: String = match interaction.get_string_option("comment".to_owned()) {
            Some(c) => {
                let mut s = " for ".to_owned();
                s.append(c);
                s
            },
            None => String::new(),
        };
        proof {
            assert(comment_suffix@ =~= roll_title_suffix(interaction.options@));
        }

        match evaluate(dice) {
            Ok(result) => {
                let mut title = interaction.get_nickname();
                title.append(" rolls dice(s)");
                title.append(comment_suffix.as_str());

                let mut name = ":game_die: ".to_owned();
                let total_text = i64_to_string(result.total);
                name.append(total_text.as_str());

                let value = result.as_string();

                let mut fields: Vec<ReplyField> = Vec::new();
                fields.push(ReplyField { name, value, inline: false });
                let reply = Reply { title, fields, color: None };
                proof {
                    assert(reply.title@ =~= interaction.nickname@ + " rolls dice(s)"@
                        + roll_title_suffix(interaction.options@));
                    assert(reply.fields@[0].name@ =~= ":game_die: "@ + int_digits(
                        result.total as int,
                    ));
                    assert(roll_reply_matches(
                        reply,
                        interaction.nickname@,
                        roll_title_suffix(interaction.options@),
                        result,
                    ));
                }
                Ok(CommandStatus::Replied(reply))
            },
            Err(err) => Ok(CommandStatus::Refused(err)),
        }
    }
}

} // verus!
