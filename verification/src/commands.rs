//! The command layer: structured replies, invocation values, command
//! descriptors, and the registry/dispatcher that routes an invocation to
//! exactly one handler.

use vstd::prelude::*;

pub mod choice;
pub mod create_sheet;
pub mod custom_roll;
pub mod define;
pub mod opposed;
pub mod roll;
pub mod roll6;
pub mod set;
pub mod skill;
pub mod status;
pub mod text_mode;
pub mod undefine;
pub mod use_command;

verus! {

/// Represents a handled result of the command: `Replied` carries the reply
/// the handler produced, `Refused` a user-facing error message. Internal
/// errors use the dispatcher's own error channel, never this one.
pub enum CommandStatus {
    Replied(Reply),
    Refused(String),
}

/// One field of a structured reply.
#[derive(Debug, PartialEq)]
pub struct ReplyField {
    pub name: String,
    pub value: String,
    pub inline: bool,
}

/// The accent colour of a structured reply.
#[derive(Clone, Copy, PartialEq, Eq, Structural, Debug)]
pub enum ReplyColor {
    Red,
    Purple,
}

/// A structured reply, handed to the platform boundary to be rendered.
#[derive(Debug, PartialEq)]
pub struct Reply {
    pub title: String,
    pub fields: Vec<ReplyField>,
    pub color: Option<ReplyColor>,
}

/// The value of one resolved invocation option.
pub enum OptionValue {
    Str(String),
    Int(i32),
}

/// One resolved option of an invocation.
pub struct CommandOption {
    pub name: String,
    pub value: OptionValue,
}

/// A platform-native structured invocation, reduced to plain values: the
/// command name, the resolved options, the invoker's display name and the
/// invoker's identifier.
pub struct Invocation {
    pub name: String,
    pub options: Vec<CommandOption>,
    pub nickname: String,
    pub user_id: u64,
}

/// The first option with the given name, if any.
pub open spec fn find_option(opts: Seq<CommandOption>, name: Seq<char>) -> Option<OptionValue>
    decreases opts.len(),
{
    if opts.len() == 0 {
        None
    } else if opts[0].name@ == name {
        Some(opts[0].value)
    } else {
        find_option(opts.drop_first(), name)
    }
}

/// An extension for an invocation to read its resolved options.
pub trait InteractionUtil {
    /// The display name of the user who invoked the command.
    fn get_nickname(&self) -> String;

    /// The value of a string option.
    fn get_string_option<'a>(&'a self, name: String) -> Option<&'a str>;

    /// The value of an integer option.
    fn get_int_option(&self, name: String) -> Option<i32>;
}

impl InteractionUtil for Invocation {
    fn get_nickname(&self) -> (r: String)
        ensures
            r@ == self.nickname@,
    {
        self.nickname.clone()
    }

    fn get_string_option<'a>(&'a self, name: String) -> (r: Option<&'a str>)
        ensures
            match find_option(self.options@, name@) {
                Some(OptionValue::Str(s)) => r matches Some(out) && out@ == s@,
                Some(OptionValue::Int(_)) => r is None,
                None => r is None,
            },
    {
        proof {
            assert(self.options@.skip(0) =~= self.options@);
        }
        let n = self.options.len();
        let mut i: usize = 0;
        while i < n
            invariant
                n == self.options@.len(),
                i <= n,
                find_option(self.options@, name@) == find_option(
                    self.options@.skip(i as int),
                    name@,
                ),
            decreases n - i,
        {
            proof {
                assert(self.options@.skip(i as int)[0] == self.options@[i as int]);
                assert(self.options@.skip(i as int).drop_first() =~= self.options@.skip(i + 1));
            }
            if crate::text::str_eq(self.options[i].name.as_str(), name.as_str()) {
                return match &self.options[i].value {
                    OptionValue::Str(s) => Some(s.as_str()),
                    OptionValue::Int(_) => None,
                };
            }
            i += 1;
        }
        proof {
            assert(self.options@.skip(n as int) =~= Seq::<CommandOption>::empty());
        }
        None
    }

    fn get_int_option(&self, name: String) -> (r: Option<i32>)
        ensures
            match find_option(self.options@, name@) {
                Some(OptionValue::Int(v)) => r == Some(v),
                Some(OptionValue::Str(_)) => r is None,
                None => r is None,
            },
    {
        proof {
            assert(self.options@.skip(0) =~= self.options@);
        }
        let n = self.options.len();
        let mut i: usize = 0;
        while i < n
            invariant
                n == self.options@.len(),
                i <= n,
                find_option(self.options@, name@) == find_option(
                    self.options@.skip(i as int),
                    name@,
                ),
            decreases n - i,
        {
            proof {
                assert(self.options@.skip(i as int)[0] == self.options@[i as int]);
                assert(self.options@.skip(i as int).drop_first() =~= self.options@.skip(i + 1));
            }
            if crate::text::str_eq(self.options[i].name.as_str(), name.as_str()) {
                return match &self.options[i].value {
                    OptionValue::Int(v) => Some(*v),
                    OptionValue::Str(_) => None,
                };
            }
            i += 1;
        }
        proof {
            assert(self.options@.skip(n as int) =~= Seq::<CommandOption>::empty());
        }
        None
    }
}

/// The kind of value a declared option takes.
#[derive(Clone, Copy, PartialEq, Eq, Structural, Debug)]
pub enum OptionKind {
    OptString,
    OptInteger,
}

/// The static declaration of one option of a command.
pub struct OptionSpec {
    pub name: String,
    pub description: String,
    pub kind: OptionKind,
    pub required: bool,
    pub choices: Vec<String>,
    pub name_ja: Option<String>,
    pub description_ja: Option<String>,
}

/// The static metadata of one command: its name, descriptions, ordered
/// option schema, and whether executing it needs the status store.
pub struct CommandDescriptor {
    pub name: String,
    pub description: String,
    pub description_ja: Option<String>,
    pub options: Vec<OptionSpec>,
    pub use_db: bool,
}

/// The value of the named integer option, or 0 when it is absent (callers
/// require presence where the platform guarantees it).
pub open spec fn int_option_value(opts: Seq<CommandOption>, name: Seq<char>) -> int {
    match find_option(opts, name) {
        Some(OptionValue::Int(v)) => v as int,
        _ => 0,
    }
}

/// The text of the named string option, or the default when it is absent.
pub open spec fn str_option_or(opts: Seq<CommandOption>, name: Seq<char>, default: Seq<char>) -> Seq<
    char,
> {
    match find_option(opts, name) {
        Some(OptionValue::Str(s)) => s@,
        _ => default,
    }
}

/// The outcome of one dispatched invocation: a reply to send, the uniform
/// error embed to send, or an integrity condition to log with no reply.
pub enum DispatchOutcome {
    Reply(Reply),
    ErrorReply(Reply),
    UnknownCommand,
    DuplicateName,
}

/// The closed set of commands the bot serves.
#[derive(Clone, Copy, PartialEq, Eq, Structural, Debug)]
pub enum CommandKind {
    Choose,
    CreateSheet,
    Roll,
    Op6,
    Op7,
    Sk6,
    Sk7,
    SkDg,
    SkBrp,
    Skill,
    SetCmd,
    StatusCmd,
}

/// The platform-visible name of each command, derived from its handler's
/// name by convention.
pub open spec fn spec_kind_name(kind: CommandKind) -> Seq<char> {
    match kind {
        CommandKind::Choose => "choose"@,
        CommandKind::CreateSheet => "cs"@,
        CommandKind::Roll => "roll"@,
        CommandKind::Op6 => "op6"@,
        CommandKind::Op7 => "op7"@,
        CommandKind::Sk6 => "sk6"@,
        CommandKind::Sk7 => "sk7"@,
        CommandKind::SkDg => "skdg"@,
        CommandKind::SkBrp => "skbrp"@,
        CommandKind::Skill => "skill"@,
        CommandKind::SetCmd => "set"@,
        CommandKind::StatusCmd => "status"@,
    }
}

/// Whether the command depends on the status store.
pub open spec fn kind_uses_db(kind: CommandKind) -> bool {
    kind == CommandKind::SetCmd || kind == CommandKind::StatusCmd
}

fn kind_name_exec(kind: CommandKind) -> (r: &'static str)
    ensures
        r@ == spec_kind_name(kind),
{
    match kind {
        CommandKind::Choose => "choose",
        CommandKind::CreateSheet => "cs",
        CommandKind::Roll => "roll",
        CommandKind::Op6 => "op6",
        CommandKind::Op7 => "op7",
        CommandKind::Sk6 => "sk6",
        CommandKind::Sk7 => "sk7",
        CommandKind::SkDg => "skdg",
        CommandKind::SkBrp => "skbrp",
        CommandKind::Skill => "skill",
        CommandKind::SetCmd => "set",
        CommandKind::StatusCmd => "status",
    }
}

/// What the platform boundary must have validated before an invocation
/// reaches the given command, per its declared option schema.
pub open spec fn entry_input_ok(kind: CommandKind, inv: Invocation) -> bool {
    match kind {
        CommandKind::Choose => crate::commands::choice::choose_input_ok(inv.options@),
        CommandKind::CreateSheet => true,
        CommandKind::Roll => crate::commands::roll::roll_input_ok(inv.options@),
        CommandKind::Op6 => crate::commands::opposed::op6_input_ok(inv.options@),
        CommandKind::Op7 => crate::commands::opposed::op7_input_ok(inv.options@),
        CommandKind::Sk6 | CommandKind::Sk7 | CommandKind::SkDg | CommandKind::SkBrp
            | CommandKind::Skill => crate::commands::skill::skill_input_ok(inv.options@),
        CommandKind::SetCmd => crate::commands::set::set_input_ok(inv.options@),
        CommandKind::StatusCmd => true,
    }
}

/// What the matched handler's execution guarantees, over the store's records
/// before and after.
pub open spec fn handler_post(
    kind: CommandKind,
    inv: Invocation,
    before: Map<u64, crate::database::Status>,
    after: Map<u64, crate::database::Status>,
    hr: Result<CommandStatus, crate::database::StoreError>,
) -> bool {
    match kind {
        CommandKind::Choose => crate::commands::choice::choose_execute_ensures(inv, hr) && after
            == before,
        CommandKind::CreateSheet => crate::commands::create_sheet::cs_execute_ensures(inv, hr)
            && after == before,
        CommandKind::Roll => crate::commands::roll::roll_execute_ensures(inv, hr) && after
            == before,
        CommandKind::Op6 => crate::commands::opposed::op6_execute_ensures(inv, hr) && after
            == before,
        CommandKind::Op7 => crate::commands::opposed::op7_execute_ensures(inv, hr) && after
            == before,
        CommandKind::Sk6 | CommandKind::Skill => crate::commands::skill::skill_execute_ensures(
            crate::classify::Ruleset::Coc6,
            inv,
            hr,
        ) && after == before,
        CommandKind::Sk7 => crate::commands::skill::skill_execute_ensures(
            crate::classify::Ruleset::Coc7,
            inv,
            hr,
        ) && after == before,
        CommandKind::SkDg => crate::commands::skill::skill_execute_ensures(
            crate::classify::Ruleset::DeltaGreen,
            inv,
            hr,
        ) && after == before,
        CommandKind::SkBrp => crate::commands::skill::skill_execute_ensures(
            crate::classify::Ruleset::Brp,
            inv,
            hr,
        ) && after == before,
        CommandKind::SetCmd => crate::commands::set::set_execute_ensures(inv, before, after, hr),
        CommandKind::StatusCmd => (hr matches Ok(CommandStatus::Replied(reply))
            && crate::commands::status::status_reply_matches(
            reply,
            inv.nickname@,
            if before.contains_key(inv.user_id) {
                before[inv.user_id]
            } else {
                crate::database::zero_status()
            },
        )) && after == before,
    }
}

/// How many registered commands carry the given name.
pub open spec fn count_matches(kinds: Seq<CommandKind>, name: Seq<char>) -> int
    decreases kinds.len(),
{
    if kinds.len() == 0 {
        0int
    } else {
        count_matches(kinds.drop_last(), name) + if spec_kind_name(kinds.last()) == name {
            1int
        } else {
            0int
        }
    }
}

/// A usage counter after one more use, saturating at its maximum.
pub open spec fn bump_counter(c: u64) -> u64 {
    if c == u64::MAX {
        c
    } else {
        (c + 1) as u64
    }
}

/// The uniform error embed: the title `ERROR` and a single `Message` field
/// holding the user-facing text, in red.
pub open spec fn error_reply_matches(reply: Reply, message: Seq<char>) -> bool {
    &&& reply.title@ == "ERROR"@
    &&& reply.fields@.len() == 1
    &&& reply.fields@[0].name@ == "Message"@
    &&& reply.fields@[0].value@ == message
    &&& reply.fields@[0].inline == false
    &&& reply.color == Some(ReplyColor::Red)
}

/// The commands kept when registering against a store that may be absent:
/// store-dependent commands are withheld unless the store is available.
pub open spec fn spec_registered_kinds(kinds: Seq<CommandKind>, db_available: bool) -> Seq<
    CommandKind,
>
    decreases kinds.len(),
{
    if kinds.len() == 0 {
        Seq::empty()
    } else {
        let rest = spec_registered_kinds(kinds.drop_last(), db_available);
        if db_available || !kind_uses_db(kinds.last()) {
            rest.push(kinds.last())
        } else {
            rest
        }
    }
}

/// The registry the bot starts with, in registration order.
pub open spec fn standard_registry() -> Seq<CommandKind> {
    seq![
        CommandKind::Choose,
        CommandKind::CreateSheet,
        CommandKind::Roll,
        CommandKind::Op6,
        CommandKind::Op7,
        CommandKind::Sk6,
        CommandKind::Sk7,
        CommandKind::SkDg,
        CommandKind::SkBrp,
        CommandKind::Skill,
        CommandKind::SetCmd,
        CommandKind::StatusCmd,
    ]
}

/// Builds the descriptor of one command.
fn kind_create(kind: CommandKind) -> (r: CommandDescriptor)
    ensures
        r.name@ == spec_kind_name(kind),
        r.use_db == kind_uses_db(kind),
{
    match kind {
        CommandKind::Choose => (crate::commands::choice::ChooseCommand).create(),
        CommandKind::CreateSheet => (crate::commands::create_sheet::CSCommand).create(),
        CommandKind::Roll => (crate::commands::roll::RollCommand).create(),
        CommandKind::Op6 => (crate::commands::opposed::Op6Command).create(),
        CommandKind::Op7 => (crate::commands::opposed::Op7Command).create(),
        CommandKind::Sk6 => (crate::commands::skill::Sk6Command).create(),
        CommandKind::Sk7 => (crate::commands::skill::Sk7Command).create(),
        CommandKind::SkDg => (crate::commands::skill::SkDGCommand).create(),
        CommandKind::SkBrp => (crate::commands::skill::SkBRPCommand).create(),
        CommandKind::Skill => (crate::commands::skill::SkillCommand).create(),
        CommandKind::SetCmd => (crate::commands::set::SetCommand).create(),
        CommandKind::StatusCmd => (crate::commands::status::StatusCommand).create(),
    }
}

/// Controls all of commands: the registry, and one usage counter per
/// registered command, reset by the periodic report.
pub struct BotCommandManager {
    pub commands: Vec<CommandKind>,
    pub counters: Vec<u64>,
}

impl BotCommandManager {
    /// The registry the bot starts with, all counters at zero.
    pub fn new() -> (r: Self)
        ensures
            r.commands@ == standard_registry(),
            r.counters@.len() == r.commands@.len(),
            forall|i: int| 0 <= i < r.counters@.len() ==> r.counters@[i] == 0u64,
    {
        let mut commands: Vec<CommandKind> = Vec::new();
        commands.push(CommandKind::Choose);
        commands.push(CommandKind::CreateSheet);
        commands.push(CommandKind::Roll);
        commands.push(CommandKind::Op6);
        commands.push(CommandKind::Op7);
        commands.push(CommandKind::Sk6);
        commands.push(CommandKind::Sk7);
        commands.push(CommandKind::SkDg);
        commands.push(CommandKind::SkBrp);
        commands.push(CommandKind::Skill);
        commands.push(CommandKind::SetCmd);
        commands.push(CommandKind::StatusCmd);
        let mut counters: Vec<u64> = Vec::new();
        let mut i: usize = 0;
        while i < 12
            invariant
                i <= 12,
                counters@.len() == i,
                forall|j: int| 0 <= j < i ==> counters@[j] == 0u64,
            decreases 12 - i,
        {
            counters.push(0);
            i += 1;
        }
        proof {
            assert(commands@ =~= standard_registry());
        }
        BotCommandManager { commands, counters }
    }

    /// The descriptors to publish to the platform: every registered command
    /// whose store dependency the present store can satisfy, in order.
    pub fn register_all(&self, db_available: bool) -> (r: Vec<CommandDescriptor>)
        ensures
            ({
                let kept = spec_registered_kinds(self.commands@, db_available);
                &&& r@.len() == kept.len()
                &&& forall|i: int|
                    0 <= i < kept.len() ==> (#[trigger] r@[i]).name@ == spec_kind_name(kept[i])
                        && r@[i].use_db == kind_uses_db(kept[i])
            }),
    {
        let mut out: Vec<CommandDescriptor> = Vec::new();
        let n = self.commands.len();
        let mut i: usize = 0;
        while i < n
            invariant
                n == self.commands@.len(),
                i <= n,
                ({
                    let kept = spec_registered_kinds(self.commands@.take(i as int), db_available);
                    &&& out@.len() == kept.len()
                    &&& forall|j: int|
                        0 <= j < kept.len() ==> (#[trigger] out@[j]).name@ == spec_kind_name(
                            kept[j],
                        ) && out@[j].use_db == kind_uses_db(kept[j])
                }),
            decreases n - i,
        {
            let kind = self.commands[i];
            proof {
                assert(self.commands@.take(i + 1 as int).drop_last() =~= self.commands@.take(
                    i as int,
                ));
                assert(self.commands@.take(i + 1 as int).last() == self.commands@[i as int]);
            }
            if db_available || !matches!(kind, CommandKind::SetCmd | CommandKind::StatusCmd) {
                out.push(kind_create(kind));
            }
            i += 1;
        }
        proof {
            assert(self.commands@.take(n as int) =~= self.commands@);
        }
        out
    }

    /// Reports an error to the user: the uniform error embed.
    ///
    /// This method cannot be used to report an internal server error.
    pub fn reply_error(error: String) -> (r: Reply)
        ensures
            error_reply_matches(r, error@),
    {
        let mut fields: Vec<ReplyField> = Vec::new();
        fields.push(ReplyField { name: "Message".to_owned(), value: error, inline: false });
        Reply { title: "ERROR".to_owned(), fields, color: Some(ReplyColor::Red) }
    }

    /// Executes a command: matches the invocation's name against the
    /// registry, refuses to execute anything when the name is ambiguous or
    /// unknown, and otherwise runs the single matching handler, counts the
    /// use, and turns a user-facing refusal into the uniform error embed.
    pub fn run_command<D: crate::database::BotDatabase>(
        &mut self,
        interaction: &Invocation,
        data: &mut D,
    ) -> (r: Result<DispatchOutcome, crate::database::StoreError>)
        requires
            old(self).counters@.len() == old(self).commands@.len(),
            forall|i: int|
                0 <= i < old(self).commands@.len() && spec_kind_name(
                    #[trigger] old(self).commands@[i],
                ) == interaction.name@ ==> entry_input_ok(old(self).commands@[i], *interaction) && (
                kind_uses_db(old(self).commands@[i]) ==> old(data).available()),
        ensures
            final(self).commands@ == old(self).commands@,
            final(self).counters@.len() == old(self).counters@.len(),
            final(data).available() == old(data).available(),
            ({
                let c = count_matches(old(self).commands@, interaction.name@);
                &&& (c == 0 ==> ((r matches Ok(DispatchOutcome::UnknownCommand))
                    && final(self).counters@ == old(self).counters@ && *final(data) == *old(data)))
                &&& (c >= 2 ==> ((r matches Ok(DispatchOutcome::DuplicateName))
                    && final(self).counters@ == old(self).counters@ && *final(data) == *old(data)))
                &&& (c == 1 ==> exists|idx: int, hr: Result<CommandStatus, crate::database::StoreError>|
                    {
                        &&& 0 <= idx < old(self).commands@.len()
                        &&& spec_kind_name(old(self).commands@[idx]) == interaction.name@
                        &&& #[trigger] handler_post(
                            old(self).commands@[idx],
                            *interaction,
                            old(data).snapshot(),
                            final(data).snapshot(),
                            hr,
                        )
                        &&& (!kind_uses_db(old(self).commands@[idx]) ==> *final(data) == *old(data))
                        &&& match hr {
                            Ok(CommandStatus::Replied(rp)) => (r matches Ok(
                                DispatchOutcome::Reply(rp2),
                            ) && rp2 == rp) && final(self).counters@ == old(self).counters@.update(
                                idx,
                                bump_counter(old(self).counters@[idx]),
                            ),
                            Ok(CommandStatus::Refused(m)) => (r matches Ok(
                                DispatchOutcome::ErrorReply(e),
                            ) && error_reply_matches(e, m@)) && final(self).counters@ == old(
                                self,
                            ).counters@.update(idx, bump_counter(old(self).counters@[idx])),
                            Err(e) => (r matches Err(e2) && e2 == e) && final(self).counters@
                                == old(self).counters@,
                        }
                    })
            }),
    {
        let ghost kinds = self.commands@;
        let n = self.commands.len();
        let mut match_count: usize = 0;
        let mut matched_idx: usize = 0;
        let mut i: usize = 0;
        while i < n
            invariant
                kinds == self.commands@,
                n == self.commands@.len(),
                i <= n,
                match_count <= i,
                count_matches(kinds.take(i as int), interaction.name@) == match_count,
                match_count >= 1 ==> 0 <= matched_idx < i && spec_kind_name(
                    kinds[matched_idx as int],
                ) == interaction.name@,
            decreases n - i,
        {
            proof {
                assert(kinds.take(i + 1 as int).drop_last() =~= kinds.take(i as int));
                assert(kinds.take(i + 1 as int).last() == kinds[i as int]);
            }
            if crate::text::str_eq(kind_name_exec(self.commands[i]), interaction.name.as_str()) {
                if match_count == 0 {
                    matched_idx = i;
                }
                match_count += 1;
            }
            i += 1;
        }
        proof {
            assert(kinds.take(n as int) =~= kinds);
        }

        if match_count == 0 {
            return Ok(DispatchOutcome::UnknownCommand);
        }
        if match_count >= 2 {
            return Ok(DispatchOutcome::DuplicateName);
        }

        let kind = self.commands[matched_idx];
        let hr: Result<CommandStatus, crate::database::StoreError> = match kind {
            CommandKind::Choose => (crate::commands::choice::ChooseCommand).execute(interaction),
            CommandKind::CreateSheet => (crate::commands::create_sheet::CSCommand).execute(
                interaction,
            ),
            CommandKind::Roll => (crate::commands::roll::RollCommand).execute(interaction),
            CommandKind::Op6 => (crate::commands::opposed::Op6Command).execute(interaction),
            CommandKind::Op7 => (crate::commands::opposed::Op7Command).execute(interaction),
            CommandKind::Sk6 => (crate::commands::skill::Sk6Command).execute(interaction),
            CommandKind::Sk7 => (crate::commands::skill::Sk7Command).execute(interaction),
            CommandKind::SkDg => (crate::commands::skill::SkDGCommand).execute(interaction),
            CommandKind::SkBrp => (crate::commands::skill::SkBRPCommand).execute(interaction),
            CommandKind::Skill => (crate::commands::skill::SkillCommand).execute(interaction),
            CommandKind::SetCmd => (crate::commands::set::SetCommand).execute(interaction, data),
            CommandKind::StatusCmd => (crate::commands::status::StatusCommand).execute(
                interaction,
                data,
            ),
        };

        let ghost ghr = hr;
        let r_value: Result<DispatchOutcome, crate::database::StoreError> = match hr {
            Ok(status) => {
                let current = self.counters[matched_idx];
                let bumped = if current == u64::MAX {
                    current
                } else {
                    current + 1
                };
                self.counters.set(matched_idx, bumped);
                match status {
                    CommandStatus::Replied(reply) => Ok(DispatchOutcome::Reply(reply)),
                    CommandStatus::Refused(message) => {
                        let embed = Self::reply_error(message);
                        Ok(DispatchOutcome::ErrorReply(embed))
                    },
                }
            },
            Err(e) => Err(e),
        };
        proof {
            let idx = matched_idx as int;
            assert(count_matches(old(self).commands@, interaction.name@) == 1);
            assert(handler_post(
                old(self).commands@[idx],
                *interaction,
                old(data).snapshot(),
                data.snapshot(),
                ghr,
            ));
            assert(match ghr {
                Ok(CommandStatus::Replied(rp)) => (r_value matches Ok(DispatchOutcome::Reply(rp2))
                    && rp2 == rp) && self.counters@ == old(self).counters@.update(
                    idx,
                    bump_counter(old(self).counters@[idx]),
                ),
                Ok(CommandStatus::Refused(m)) => (r_value matches Ok(DispatchOutcome::ErrorReply(e))
                    && error_reply_matches(e, m@)) && self.counters@ == old(
                    self,
                ).counters@.update(idx, bump_counter(old(self).counters@[idx])),
                Err(e) => (r_value matches Err(e2) && e2 == e) && self.counters@ == old(
                    self,
                ).counters@,
            });
        }
        r_value
    }

    /// Snapshots the usage counters for the periodic report and resets them,
    /// name beside count, in registry order.
    pub fn reset_counters(&mut self) -> (r: Vec<(String, u64)>)
        ensures
            final(self).commands@ == old(self).commands@,
            final(self).counters@.len() == old(self).counters@.len(),
            forall|i: int|
                0 <= i < final(self).counters@.len() ==> final(self).counters@[i] == 0u64,
            r@.len() == min_len(old(self).commands@.len() as int, old(self).counters@.len() as int),
            forall|i: int|
                0 <= i < r@.len() ==> (#[trigger] r@[i]).0@ == spec_kind_name(
                    old(self).commands@[i],
                ) && r@[i].1 == old(self).counters@[i],
    {
        let mut out: Vec<(String, u64)> = Vec::new();
        let n = if self.commands.len() <= self.counters.len() {
            self.commands.len()
        } else {
            self.counters.len()
        };
        let mut i: usize = 0;
        while i < n
            invariant
                n <= self.commands@.len(),
                n <= self.counters@.len(),
                self.commands@ == old(self).commands@,
                self.counters@ == old(self).counters@,
                i <= n,
                out@.len() == i,
                forall|j: int|
                    0 <= j < i ==> (#[trigger] out@[j]).0@ == spec_kind_name(
                        old(self).commands@[j],
                    ) && out@[j].1 == old(self).counters@[j],
            decreases n - i,
        {
            let name = kind_name_exec(self.commands[i]).to_owned();
            out.push((name, self.counters[i]));
            i += 1;
        }
        let m = self.counters.len();
        let mut k: usize = 0;
        while k < m
            invariant
                m == self.counters@.len(),
                self.commands@ == old(self).commands@,
                self.counters@.len() == old(self).counters@.len(),
                k <= m,
                forall|j: int| 0 <= j < k ==> self.counters@[j] == 0u64,
            decreases m - k,
        {
            self.counters.set(k, 0);
            k += 1;
        }
        out
    }
}

pub open spec fn min_len(a: int, b: int) -> int {
    if a <= b {
        a
    } else {
        b
    }
}

} // verus!
