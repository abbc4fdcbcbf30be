//! The status command: a read-only display of the invoker's three fields.

use vstd::prelude::*;
use vstd::string::StringExecFns;

use crate::commands::CommandDescriptor;
use crate::commands::CommandStatus;
use crate::commands::InteractionUtil;
use crate::commands::Invocation;
use crate::commands::Reply;
use crate::commands::ReplyField;
use crate::database::zero_status;
use crate::database::BotDatabase;
use crate::database::Status;
use crate::database::StoreError;
use crate::text::i64_to_string;
use crate::text::int_digits;

verus! {

/// A command that displays the status.
pub struct StatusCommand;

/// The reply the status command produces: one inline field per status value,
/// each with its icon.
pub open spec fn status_reply_matches(reply: Reply, nickname: Seq<char>, record: Status) -> bool {
    &&& reply.title@ == nickname + "'s status"@
    &&& reply.fields@.len() == 3
    &&& reply.fields@[0].name@ == "HP"@
    &&& reply.fields@[0].value@ == ":heart: **"@ + int_digits(record.hp as int) + "**"@
    &&& reply.fields@[0].inline == true
    &&& reply.fields@[1].name@ == "SAN"@
    &&& reply.fields@[1].value@ == ":shield: **"@ + int_digits(record.san as int) + "**"@
    &&& reply.fields@[1].inline == true
    &&& reply.fields@[2].name@ == "MP"@
    &&& reply.fields@[2].value@ == ":comet: **"@ + int_digits(record.mp as int) + "**"@
    &&& reply.fields@[2].inline == true
    &&& reply.color is None
}

impl StatusCommand {
    pub fn create(&self) -> (r: CommandDescriptor)
        ensures
            r.name@ == "status"@,
            r.use_db,
            r.description_ja is None,
            r.options@.len() == 0,
    {
        CommandDescriptor {
            name: "status".to_owned(),
            description: "Displays your status. | ステータスを表示します.".to_owned(),
            description_ja: None,
            options: Vec::new(),
            use_db: true,
        }
    }

    pub fn name(&self) -> (r: &'static str)
        ensures
            r@ == "status"@,
    {
        "status"
    }

    pub fn use_db(&self) -> (r: bool)
        ensures
            r,
    {
        true
    }

    /// Reads the invoker's record (all-zero when absent) and replies with
    /// its three fields.
    pub fn execute<D: BotDatabase>(&self, interaction: &Invocation, data: &D) -> (r: Result<
        CommandStatus,
        StoreError,
    >)
        requires
            data.available(),
        ensures
            r matches Ok(CommandStatus::Replied(reply)) && status_reply_matches(
                reply,
                interaction.nickname@,
                if data.snapshot().contains_key(interaction.user_id) {
                    data.snapshot()[interaction.user_id]
                } else {
                    zero_status()
                },
            ),
    {
        let user_id = interaction.user_id;
        let status = data.get_value(user_id);

        let mut title = interaction.get_nickname();
        title.append("'s status");

        let mut hp_text = ":heart: **".to_owned();
        let hp_digits = i64_to_string(status.hp as i64);
        hp_text.append(hp_digits.as_str());
        hp_text.append("**");

        let mut san_text = ":shield: **".to_owned();
        let san_digits = i64_to_string(status.san as i64);
        san_text.append(san_digits.as_str());
        san_text.append("**");

        let mut mp_text = ":comet: **".to_owned();
        let mp_digits = i64_to_string(status.mp as i64);
        mp_text.append(mp_digits.as_str());
        mp_text.append("**");

        let mut fields: Vec<ReplyField> = Vec::new();
        fields.push(ReplyField { name: "HP".to_owned(), value: hp_text, inline: true });
        fields.push(ReplyField { name: "SAN".to_owned(), value: san_text, inline: true });
        fields.push(ReplyField { name: "MP".to_owned(), value: mp_text, inline: true });
        let reply = Reply { title, fields, color: None };
        proof {
            assert(reply.title@ =~= interaction.nickname@ + "'s status"@);
            assert(reply.fields@[0].value@ =~= ":heart: **"@ + int_digits(status.hp as int)
                + "**"@);
            assert(reply.fields@[1].value@ =~= ":shield: **"@ + int_digits(status.san as int)
                + "**"@);
            assert(reply.fields@[2].value@ =~= ":comet: **"@ + int_digits(status.mp as int)
                + "**"@);
        }
        Ok(CommandStatus::Replied(reply))
    }
}

} // verus!
