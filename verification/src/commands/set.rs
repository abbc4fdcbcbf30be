//! The parameter-assignment command: validates the target field name and the
//! value range, then read-modify-writes the whole status record.

use vstd::prelude::*;
use vstd::pervasive::unreached;
use vstd::string::StringExecFns;

use crate::commands::find_option;
use crate::commands::int_option_value;
use crate::commands::str_option_or;
use crate::commands::CommandDescriptor;
use crate::commands::CommandOption;
use crate::commands::CommandStatus;
use crate::commands::InteractionUtil;
use crate::commands::Invocation;
use crate::commands::OptionKind;
use crate::commands::OptionSpec;
use crate::commands::OptionValue;
use crate::commands::Reply;
use crate::commands::ReplyField;
use crate::database::spec_get_value;
use crate::database::spec_update_value;
use crate::database::zero_status;
use crate::database::BotDatabase;
use crate::database::Status;
use crate::database::StoreError;
use crate::text::i64_to_string;
use crate::text::int_digits;

verus! {

/// A command that changes the parameters.
pub struct SetCommand;

/// The invocation shape the command relies on: the required `param` string
/// and `value` integer are present.
pub open spec fn set_input_ok(opts: Seq<CommandOption>) -> bool {
    &&& find_option(opts, "param"@) matches Some(OptionValue::Str(_))
    &&& find_option(opts, "value"@) matches Some(OptionValue::Int(_))
}

/// The icon shown beside each parameter.
pub open spec fn spec_icon(parameter: Seq<char>) -> Seq<char> {
    if parameter == "HP"@ {
        ":heart:"@
    } else if parameter == "SAN"@ {
        ":shield:"@
    } else if parameter == "MP"@ {
        ":comet:"@
    } else {
        ""@
    }
}

/// The message rejecting an out-of-range value.
pub open spec fn set_range_message() -> Seq<char> {
    "You must provide a value between 0 and 32767. | 値は 0以上 32767以下 にしてください."@
}

/// The message rejecting an unknown parameter name.
pub open spec fn set_unknown_message(parameter: Seq<char>) -> Seq<char> {
    "The parameter named \""@ + parameter + "\" doesn't exist. | \""@ + parameter
        + "\"という名前のパラメータはありません."@
}

/// The reply a successful assignment produces: the parameter's icon with the
/// value before and after.
pub open spec fn set_reply_matches(
    reply: Reply,
    nickname: Seq<char>,
    parameter: Seq<char>,
    before: int,
    value: int,
) -> bool {
    &&& reply.title@ == nickname + "'s status"@
    &&& reply.fields@.len() == 1
    &&& reply.fields@[0].name@ == parameter
    &&& reply.fields@[0].value@ == spec_icon(parameter) + " **"@ + int_digits(before) + "** → **"@
        + int_digits(value) + "**"@
    &&& reply.fields@[0].inline == false
    &&& reply.color is None
}

/// What executing the command guarantees, over the store's records before
/// and after: an out-of-range value or an unknown parameter changes nothing
/// and yields the exact user-facing message; otherwise the whole record is
/// written back with the named field assigned, and the reply shows the
/// transition. A store failure leaves the records unchanged and surfaces on
/// the dispatcher's error channel.
pub open spec fn set_execute_ensures(
    inv: Invocation,
    before: Map<u64, Status>,
    after: Map<u64, Status>,
    r: Result<CommandStatus, StoreError>,
) -> bool {
    let parameter = str_option_or(inv.options@, "param"@, Seq::empty());
    let value = int_option_value(inv.options@, "value"@);
    let old_record = if before.contains_key(inv.user_id) {
        before[inv.user_id]
    } else {
        zero_status()
    };
    if value > 32767 || value < 0 {
        &&& after == before
        &&& r matches Ok(CommandStatus::Refused(m)) && m@ == set_range_message()
    } else if !(spec_get_value(old_record, parameter) is Ok) {
        &&& after == before
        &&& r matches Ok(CommandStatus::Refused(m)) && m@ == set_unknown_message(parameter)
    } else {
        match r {
            Ok(CommandStatus::Replied(reply)) => {
                &&& after == before.insert(
                    inv.user_id,
                    spec_update_value(old_record, parameter, value as i16),
                )
                &&& set_reply_matches(
                    reply,
                    inv.nickname@,
                    parameter,
                    spec_get_value(old_record, parameter).unwrap() as int,
                    value,
                )
            },
            Err(_) => after == before,
            _ => false,
        }
    }
}

impl SetCommand {
    pub fn create(&self) -> (r: CommandDescriptor)
        ensures
            r.name@ == "set"@,
            r.use_db,
            r.description_ja is Some,
            r.options@.len() == 2,
            r.options@[0].name@ == "param"@,
            r.options@[0].kind == OptionKind::OptString,
            r.options@[0].required,
            r.options@[0].choices@.len() == 3,
            r.options@[0].choices@[0]@ == "HP"@,
            r.options@[0].choices@[1]@ == "SAN"@,
            r.options@[0].choices@[2]@ == "MP"@,
            r.options@[1].name@ == "value"@,
            r.options@[1].kind == OptionKind::OptInteger,
            r.options@[1].required,
    {
        let mut choices: Vec<String> = Vec::new();
        choices.push("HP".to_owned());
        choices.push("SAN".to_owned());
        choices.push("MP".to_owned());
        let mut opts: Vec<OptionSpec> = Vec::new();
        opts.push(
            OptionSpec {
                name: "param".to_owned(),
                description: "A parameter name".to_owned(),
                kind: OptionKind::OptString,
                required: true,
                choices,
                name_ja: Some("パラメータ".to_owned()),
                description_ja: Some("代入先".to_owned()),
            },
        );
        opts.push(
            OptionSpec {
                name: "value".to_owned(),
                description: "A value".to_owned(),
                kind: OptionKind::OptInteger,
                required: true,
                choices: Vec::new(),
                name_ja: Some("値".to_owned()),
                description_ja: Some("代入する値".to_owned()),
            },
        );
        CommandDescriptor {
            name: "set".to_owned(),
            description: "Assigns a value to your parameter.".to_owned(),
            description_ja: Some("パラメータに値を代入します.".to_owned()),
            options: opts,
            use_db: true,
        }
    }

    pub fn name(&self) -> (r: &'static str)
        ensures
            r@ == "set"@,
    {
        "set"
    }

    pub fn use_db(&self) -> (r: bool)
        ensures
            r,
    {
        true
    }

    /// Gets an icon of the parameter.
    pub fn get_icon(parameter: &str) -> (r: &'static str)
        ensures
            r@ == spec_icon(parameter@),
    {
        if crate::text::str_eq(parameter, "HP") {
            ":heart:"
        } else if crate::text::str_eq(parameter, "SAN") {
            ":shield:"
        } else if crate::text::str_eq(parameter, "MP") {
            ":comet:"
        } else {
            ""
        }
    }

    /// Validates the parameter name and value, then writes the whole record
    /// back with the named field assigned.
    pub fn execute<D: BotDatabase>(&self, interaction: &Invocation, data: &mut D) -> (r: Result<
        CommandStatus,
        StoreError,
    >)
        requires
            set_input_ok(interaction.options@),
            old(data).available(),
        ensures
            final(data).available(),
            set_execute_ensures(
                *interaction,
                old(data).snapshot(),
                final(data).snapshot(),
                r,
            ),
    {
        let parameter: &str = match interaction.get_string_option("param".to_owned()) {
            Some(s) => s,
            None => unreached(),
        };
        let value = match interaction.get_int_option("value".to_owned()) {
            Some(v) => v,
            None => unreached(),
        };

        if value > 32767 || value < 0 {
            return Ok(
                CommandStatus::Refused(
                    "You must provide a value between 0 and 32767. | 値は 0以上 32767以下 にしてください.".to_owned(),
                ),
            );
        }
        let value16 = value as i16;
        let author = interaction.get_nickname();
        let user_id = interaction.user_id;
        let mut status = data.get_value(user_id);

        let is_field = crate::text::str_eq(parameter, "HP") || crate::text::str_eq(
            parameter,
            "SAN",
        ) || crate::text::str_eq(parameter, "MP");
        if is_field {
            let before = match status.update_value(parameter, value16) {
                Ok(b) => b,
                Err(()) => unreached(),
            };
            let set_result = data.set_value(user_id, status);
            if let Err(e) = set_result {
                return Err(e);
            }

            let icon = Self::get_icon(parameter);
            let mut text = icon.to_owned();
            text.append(" **");
            let before_text = i64_to_string(before as i64);
            text.append(before_text.as_str());
            text.append("** → **");
            let value_text = i64_to_string(value16 as i64);
            text.append(value_text.as_str());
            text.append("**");

            let mut title = author;
            title.append("'s status");

            let mut fields: Vec<ReplyField> = Vec::new();
            fields.push(ReplyField { name: parameter.to_owned(), value: text, inline: false });
            let reply = Reply { title, fields, color: None };
            proof {
                assert(reply.title@ =~= interaction.nickname@ + "'s status"@);
                assert(reply.fields@[0].value@ =~= spec_icon(parameter@) + " **"@ + int_digits(
                    before as int,
                ) + "** → **"@ + int_digits(value as int) + "**"@);
            }
            Ok(CommandStatus::Replied(reply))
        } else {
            let mut m = "The parameter named \"".to_owned();
            m.append(parameter);
            m.append("\" doesn't exist. | \"");
            m.append(parameter);
            m.append("\"という名前のパラメータはありません.");
            proof {
                assert(m@ =~= set_unknown_message(parameter@));
            }
            Ok(CommandStatus::Refused(m))
        }
    }
}

} // verus!
