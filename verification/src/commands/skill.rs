//! Skill-roll commands: one percentile roll classified against a supplied
//! chance, one command per supported ruleset.

use vstd::prelude::*;
use vstd::pervasive::unreached;
use vstd::string::StringExecFns;

use crate::classify::classify;
use crate::classify::spec_classify;
use crate::classify::Ruleset;
use crate::classify::Tier;
use crate::commands::find_option;
use crate::commands::int_option_value;
use crate::commands::str_option_or;
use crate::commands::CommandDescriptor;
use crate::commands::CommandOption;
use crate::commands::CommandStatus;
use crate::commands::InteractionUtil;
use crate::commands::Invocation;
use crate::commands::OptionKind;
use crate::commands::OptionSpec;
use crate::commands::OptionValue;
use crate::commands::Reply;
use crate::commands::ReplyField;
use crate::database::StoreError;
use crate::rng::rand_range_i32;
use crate::text::int_digits;
use crate::text::i64_to_string;

verus! {

/// A command that does a skill roll. It follows Call of Cthulhu 6th Edition.
pub struct SkillCommand;

/// A command that does a skill roll. It follows Call of Cthulhu 6th Edition.
pub struct Sk6Command;

/// A command that does a skill roll. It follows Call of Cthulhu 7th Edition.
pub struct Sk7Command;

/// A command that does a skill roll. It follows Delta Green.
pub struct SkDGCommand;

/// A command that does a skill roll. It follows the BRP 2023 rule book.
pub struct SkBRPCommand;

/// The invocation shape a skill command relies on: the required `chance`
/// integer is present, and `comment`, when present, is a string.
pub open spec fn skill_input_ok(opts: Seq<CommandOption>) -> bool {
    &&& find_option(opts, "chance"@) matches Some(OptionValue::Int(_))
    &&& !(find_option(opts, "comment"@) matches Some(OptionValue::Int(_)))
}

/// The result label a ruleset shows for a roll against a chance.
pub open spec fn spec_skill_label(ruleset: Ruleset, roll: int, chance: int) -> Seq<char> {
    match spec_classify(ruleset, roll, chance) {
        Tier::Critical => {
            if ruleset == Ruleset::Brp || roll == 1 {
                ":star::crown::star: **Critical!!!**"@
            } else {
                ":crown: **Critical!**"@
            }
        },
        Tier::Extreme => ":crown: **Extreme Success!**"@,
        Tier::Hard => ":o: **Hard Success!**"@,
        Tier::Special => ":crown: **Special!**"@,
        Tier::Fumble => {
            if ruleset != Ruleset::Coc7 && ruleset != Ruleset::Brp && roll == 100 {
                ":fire::skull::fire: **Fumble!!!**"@
            } else {
                ":skull: **Fumble!**"@
            }
        },
        Tier::Success => ":o: **Success**"@,
        Tier::Failure => ":x: **Failed**"@,
    }
}

/// The comparison a ruleset shows beside the label, such as `37 <= 60`.
pub open spec fn spec_skill_value(ruleset: Ruleset, roll: int, chance: int) -> Seq<char> {
    match ruleset {
        Ruleset::Coc6 | Ruleset::DeltaGreen => {
            if roll <= chance {
                int_digits(roll) + " <= "@ + int_digits(chance)
            } else {
                int_digits(roll) + " > "@ + int_digits(chance)
            }
        },
        Ruleset::Coc7 => match spec_classify_coc7_tier(roll, chance) {
            Tier::Critical => int_digits(roll) + " <= "@ + int_digits(chance),
            Tier::Extreme => int_digits(roll) + " <= "@ + int_digits(chance) + " / 5"@,
            Tier::Hard => int_digits(roll) + " <= "@ + int_digits(chance) + " / 2"@,
            Tier::Fumble => int_digits(roll) + " >= "@ + int_digits(chance),
            Tier::Success => int_digits(roll) + " <= "@ + int_digits(chance),
            _ => int_digits(roll) + " > "@ + int_digits(chance),
        },
        Ruleset::Brp => match spec_classify(Ruleset::Brp, roll, chance) {
            Tier::Critical | Tier::Special | Tier::Success => int_digits(roll) + " <= "@
                + int_digits(chance),
            _ => int_digits(roll) + " > "@ + int_digits(chance),
        },
    }
}

pub open spec fn spec_classify_coc7_tier(roll: int, chance: int) -> Tier {
    spec_classify(Ruleset::Coc7, roll, chance)
}

/// The reply a skill roll produces: `{nickname} uses {comment}` as the
/// title, and one field holding the result label and the comparison.
pub open spec fn skill_reply_matches(
    ruleset: Ruleset,
    reply: Reply,
    nickname: Seq<char>,
    comment: Seq<char>,
    chance: int,
    roll: int,
) -> bool {
    &&& reply.title@ == nickname + " uses "@ + comment
    &&& reply.fields@.len() == 1
    &&& reply.fields@[0].name@ == spec_skill_label(ruleset, roll, chance)
    &&& reply.fields@[0].value@ == spec_skill_value(ruleset, roll, chance)
    &&& reply.fields@[0].inline == false
    &&& reply.color is None
}

/// What every skill command's execution guarantees: some percentile roll was
/// made and the reply shows its classification and comparison exactly.
pub open spec fn skill_execute_ensures(
    ruleset: Ruleset,
    inv: Invocation,
    r: Result<CommandStatus, StoreError>,
) -> bool {
    r matches Ok(CommandStatus::Replied(reply)) && exists|roll: int|
        1 <= roll <= 100 && skill_reply_matches(
            ruleset,
            reply,
            inv.nickname@,
            str_option_or(inv.options@, "comment"@, "a skill"@),
            int_option_value(inv.options@, "chance"@),
            roll,
        )
}

/// Renders `{roll}{op}{chance}`.
fn cmp_text(roll: i32, op: &str, chance: i32) -> (r: String)
    ensures
        r@ == int_digits(roll as int) + op@ + int_digits(chance as int),
{
    let mut out = i64_to_string(roll as i64);
    out.append(op);
    let c = i64_to_string(chance as i64);
    out.append(c.as_str());
    proof {
        assert(out@ =~= int_digits(roll as int) + op@ + int_digits(chance as int));
    }
    out
}

/// Picks the result label for a classified roll.
fn skill_label(ruleset: Ruleset, roll: i32, chance: i32) -> (r: &'static str)
    requires
        1 <= roll <= 100,
    ensures
        r@ == spec_skill_label(ruleset, roll as int, chance as int),
{
    let tier = classify(ruleset, roll, chance);
    match tier {
        Tier::Critical => {
            if matches!(ruleset, Ruleset::Brp) || roll == 1 {
                ":star::crown::star: **Critical!!!**"
            } else {
                ":crown: **Critical!**"
            }
        },
        Tier::Extreme => ":crown: **Extreme Success!**",
        Tier::Hard => ":o: **Hard Success!**",
        Tier::Special => ":crown: **Special!**",
        Tier::Fumble => {
            if !matches!(ruleset, Ruleset::Coc7) && !matches!(ruleset, Ruleset::Brp) && roll
                == 100 {
                ":fire::skull::fire: **Fumble!!!**"
            } else {
                ":skull: **Fumble!**"
            }
        },
        Tier::Success => ":o: **Success**",
        Tier::Failure => ":x: **Failed**",
    }
}

/// Renders the comparison shown beside the label.
fn skill_value(ruleset: Ruleset, roll: i32, chance: i32) -> (r: String)
    requires
        1 <= roll <= 100,
    ensures
        r@ == spec_skill_value(ruleset, roll as int, chance as int),
{
    match ruleset {
        Ruleset::Coc6 | Ruleset::DeltaGreen => {
            if roll <= chance {
                cmp_text(roll, " <= ", chance)
            } else {
                cmp_text(roll, " > ", chance)
            }
        },
        Ruleset::Coc7 => {
            let tier = classify(ruleset, roll, chance);
            match tier {
                Tier::Critical => cmp_text(roll, " <= ", chance),
                Tier::Extreme => {
                    let mut t = cmp_text(roll, " <= ", chance);
                    t.append(" / 5");
                    proof {
                        assert(t@ =~= spec_skill_value(ruleset, roll as int, chance as int));
                    }
                    t
                },
                Tier::Hard => {
                    let mut t = cmp_text(roll, " <= ", chance);
                    t.append(" / 2");
                    proof {
                        assert(t@ =~= spec_skill_value(ruleset, roll as int, chance as int));
                    }
                    t
                },
                Tier::Fumble => cmp_text(roll, " >= ", chance),
                Tier::Success => cmp_text(roll, " <= ", chance),
                _ => cmp_text(roll, " > ", chance),
            }
        },
        Ruleset::Brp => {
            let tier = classify(ruleset, roll, chance);
            match tier {
                Tier::Critical | Tier::Special | Tier::Success => cmp_text(roll, " <= ", chance),
                _ => cmp_text(roll, " > ", chance),
            }
        },
    }
}

/// Rolls 1d100 and classifies it against the supplied chance under the given
/// ruleset, producing the reply shown to the invoker.
fn skill_execute(ruleset: Ruleset, interaction: &Invocation) -> (r: Result<
    CommandStatus,
    StoreError,
>)
    requires
        skill_input_ok(interaction.options@),
    ensures
        skill_execute_ensures(ruleset, *interaction, r),
{
    let chance = match interaction.get_int_option("chance".to_owned()) {
        Some(c) => c,
        None => unreached(),
    };
    let comment: &str = match interaction.get_string_option("comment".to_owned()) {
        Some(s) => s,
        None => "a skill",
    };

    let roll = rand_range_i32(1, 100);
    let label = skill_label(ruleset, roll, chance);
    let value = skill_value(ruleset, roll, chance);

    let mut title = interaction.get_nickname();
    title.append(" uses ");
    title.append(comment);

    let mut fields: Vec<ReplyField> = Vec::new();
    fields.push(ReplyField { name: label.to_owned(), value, inline: false });
    let reply = Reply { title, fields, color: None };
    proof {
        assert(reply.title@ =~= interaction.nickname@ + " uses "@ + str_option_or(
            interaction.options@,
            "comment"@,
            "a skill"@,
        ));
        assert(skill_reply_matches(
            ruleset,
            reply,
            interaction.nickname@,
            str_option_or(interaction.options@, "comment"@, "a skill"@),
            int_option_value(interaction.options@, "chance"@),
            roll as int,
        ));
    }
    Ok(CommandStatus::Replied(reply))
}

/// The shared option schema of the skill commands.
fn skill_options() -> (r: Vec<OptionSpec>)
    ensures
        r@.len() == 2,
        r@[0].name@ == "chance"@,
        r@[0].kind == OptionKind::OptInteger,
        r@[0].required,
        r@[1].name@ == "comment"@,
        r@[1].kind == OptionKind::OptString,
        !r@[1].required,
{
    let mut opts: Vec<OptionSpec> = Vec::new();
    opts.push(
        OptionSpec {
            name: "chance".to_owned(),
            description: "A skill chance | 技能値".to_owned(),
            kind: OptionKind::OptInteger,
            required: true,
            choices: Vec::new(),
            name_ja: None,
            description_ja: None,
        },
    );
    opts.push(
        OptionSpec {
            name: "comment".to_owned(),
            description: "A comment | ダイスの説明".to_owned(),
            kind: OptionKind::OptString,
            required: false,
            choices: Vec::new(),
            name_ja: None,
            description_ja: None,
        },
    );
    opts
}

/// What every skill command's descriptor guarantees.
pub open spec fn skill_descriptor_matches(d: CommandDescriptor, name: Seq<char>) -> bool {
    &&& d.name@ == name
    &&& !d.use_db
    &&& d.description_ja is None
    &&& d.options@.len() == 2
    &&& d.options@[0].name@ == "chance"@
    &&& d.options@[0].kind == OptionKind::OptInteger
    &&& d.options@[0].required
    &&& d.options@[1].name@ == "comment"@
    &&& d.options@[1].kind == OptionKind::OptString
    &&& !d.options@[1].required
}

impl SkillCommand {
    /// Does a skill roll following the rule of Call of Cthulhu 6th Edition.
    pub fn execute_6th(interaction: &Invocation) -> (r: Result<CommandStatus, StoreError>)
        requires
            skill_input_ok(interaction.options@),
        ensures
            skill_execute_ensures(Ruleset::Coc6, *interaction, r),
    {
        skill_execute(Ruleset::Coc6, interaction)
    }

    /// Does a skill roll following the rule of Call of Cthulhu 7th Edition.
    pub fn execute_7th(interaction: &Invocation) -> (r: Result<CommandStatus, StoreError>)
        requires
            skill_input_ok(interaction.options@),
        ensures
            skill_execute_ensures(Ruleset::Coc7, *interaction, r),
    {
        skill_execute(Ruleset::Coc7, interaction)
    }

    /// Does a skill roll following the rule of Delta Green.
    pub fn execute_dg(interaction: &Invocation) -> (r: Result<CommandStatus, StoreError>)
        requires
            skill_input_ok(interaction.options@),
        ensures
            skill_execute_ensures(Ruleset::DeltaGreen, *interaction, r),
    {
        skill_execute(Ruleset::DeltaGreen, interaction)
    }

    /// Does a skill roll following the BRP 2023 rule book.
    pub fn execute_brp(interaction: &Invocation) -> (r: Result<CommandStatus, StoreError>)
        requires
            skill_input_ok(interaction.options@),
        ensures
            skill_execute_ensures(Ruleset::Brp, *interaction, r),
    {
        skill_execute(Ruleset::Brp, interaction)
    }

    pub fn create(&self) -> (r: CommandDescriptor)
        ensures
            skill_descriptor_matches(r, "skill"@),
    {
        CommandDescriptor {
            name: "skill".to_owned(),
            description:
                "Does a skill roll. `/sk6` (The CoC 6th Edition) is the same. | `/sk6`と同様に, 第6版のルールに基づいて技能ロールを行います.".to_owned(),
            description_ja: None,
            options: skill_options(),
            use_db: false,
        }
    }

    pub fn name(&self) -> (r: &'static str)
        ensures
            r@ == "skill"@,
    {
        "skill"
    }

    pub fn use_db(&self) -> (r: bool)
        ensures
            !r,
    {
        false
    }

    pub fn execute(&self, interaction: &Invocation) -> (r: Result<CommandStatus, StoreError>)
        requires
            skill_input_ok(interaction.options@),
        ensures
            skill_execute_ensures(Ruleset::Coc6, *interaction, r),
    {
        Self::execute_6th(interaction)
    }
}

impl Sk6Command {
    pub fn create(&self) -> (r: CommandDescriptor)
        ensures
            skill_descriptor_matches(r, "sk6"@),
    {
        CommandDescriptor {
            name: "sk6".to_owned(),
            description:
                "Does a skill roll following the Call of Cthulhu 6th Edition. | 第6版のルールに基づいて技能ロールを行います.".to_owned(),
            description_ja: None,
            options: skill_options(),
            use_db: false,
        }
    }

    pub fn name(&self) -> (r: &'static str)
        ensures
            r@ == "sk6"@,
    {
        "sk6"
    }

    pub fn use_db(&self) -> (r: bool)
        ensures
            !r,
    {
        false
    }

    pub fn execute(&self, interaction: &Invocation) -> (r: Result<CommandStatus, StoreError>)
        requires
            skill_input_ok(interaction.options@),
        ensures
            skill_execute_ensures(Ruleset::Coc6, *interaction, r),
    {
        SkillCommand::execute_6th(interaction)
    }
}

impl Sk7Command {
    pub fn create(&self) -> (r: CommandDescriptor)
        ensures
            skill_descriptor_matches(r, "sk7"@),
    {
        CommandDescriptor {
            name: "sk7".to_owned(),
            description:
                "Does a skill roll following the Call of Cthulhu 7th Edition. | 第7版のルールに基づいて技能ロールを行います.".to_owned(),
            description_ja: None,
            options: skill_options(),
            use_db: false,
        }
    }

    pub fn name(&self) -> (r: &'static str)
        ensures
            r@ == "sk7"@,
    {
        "sk7"
    }

    pub fn use_db(&self) -> (r: bool)
        ensures
            !r,
    {
        false
    }

    pub fn execute(&self, interaction: &Invocation) -> (r: Result<CommandStatus, StoreError>)
        requires
            skill_input_ok(interaction.options@),
        ensures
            skill_execute_ensures(Ruleset::Coc7, *interaction, r),
    {
        SkillCommand::execute_7th(interaction)
    }
}

impl SkDGCommand {
    pub fn create(&self) -> (r: CommandDescriptor)
        ensures
            skill_descriptor_matches(r, "skdg"@),
    {
        CommandDescriptor {
            name: "skdg".to_owned(),
            description:
                "Does a skill roll following the Delta Green. | Delta Greenのルールに基づいて技能ロールを行います.".to_owned(),
            description_ja: None,
            options: skill_options(),
            use_db: false,
        }
    }

    pub fn name(&self) -> (r: &'static str)
        ensures
            r@ == "skdg"@,
    {
        "skdg"
    }

    pub fn use_db(&self) -> (r: bool)
        ensures
            !r,
    {
        false
    }

    pub fn execute(&self, interaction: &Invocation) -> (r: Result<CommandStatus, StoreError>)
        requires
            skill_input_ok(interaction.options@),
        ensures
            skill_execute_ensures(Ruleset::DeltaGreen, *interaction, r),
    {
        SkillCommand::execute_dg(interaction)
    }
}

impl SkBRPCommand {
    pub fn create(&self) -> (r: CommandDescriptor)
        ensures
            skill_descriptor_matches(r, "skbrp"@),
    {
        CommandDescriptor {
            name: "skbrp".to_owned(),
            description:
                "Does a skill roll following the BRP 2023. | BRP 2023のルールに基づいて技能ロールを行います.".to_owned(),
            description_ja: None,
            options: skill_options(),
            use_db: false,
        }
    }

    pub fn name(&self) -> (r: &'static str)
        ensures
            r@ == "skbrp"@,
    {
        "skbrp"
    }

    pub fn use_db(&self) -> (r: bool)
        ensures
            !r,
    {
        false
    }

    pub fn execute(&self, interaction: &Invocation) -> (r: Result<CommandStatus, StoreError>)
        requires
            skill_input_ok(interaction.options@),
        ensures
            skill_execute_ensures(Ruleset::Brp, *interaction, r),
    {
        SkillCommand::execute_brp(interaction)
    }
}

} // verus!
