//! The legacy text command that lists a user's macros or picks one to expand
//! into its stored command line.

use std::collections::HashMap;
use vstd::prelude::*;
use vstd::string::StringExecFns;

use crate::command_parser::CommandInfo;
use crate::commands::Reply;
use crate::commands::ReplyColor;
use crate::commands::ReplyField;
use crate::text::str_eq;
use crate::user_data::macro_views;
use crate::user_data::spec_lookup;
use crate::user_data::UserInfo;

verus! {

broadcast use vstd::std_specs::hash::group_hash_axioms;

pub struct UseCommand;

/// What using a macro yields before any expansion runs: the listing reply,
/// the no-macros notice, or the stored command line to expand.
pub enum UseOutcome {
    List(Reply),
    NoCommands(String),
    Expand(String),
}

/// The embed listing a user's macros: one inline field per macro, in purple.
pub open spec fn macro_list_reply(reply: Reply, author: Seq<char>, vs: Seq<(Seq<char>, Seq<char>)>) -> bool {
    &&& reply.title@ == author + "'s commands"@
    &&& reply.fields@.len() == vs.len()
    &&& forall|i: int|
        0 <= i < vs.len() ==> (#[trigger] reply.fields@[i]).name@ == vs[i].0
            && reply.fields@[i].value@ == vs[i].1 && reply.fields@[i].inline == true
    &&& reply.color == Some(ReplyColor::Purple)
}

/// What the use command yields: with an argument, the named macro's stored
/// line or the exact unknown-command error; without one, the listing or the
/// no-macros notice.
pub open spec fn use_post(
    args: Option<Seq<char>>,
    author: Seq<char>,
    user_id: u64,
    table: Map<u64, UserInfo>,
    r: Result<UseOutcome, String>,
) -> bool {
    match args {
        Some(a) => {
            if !table.contains_key(user_id) {
                r matches Err(m) && m@ == "It is an unknown command."@
            } else {
                match spec_lookup(macro_views(table[user_id].commands@), a) {
                    None => r matches Err(m) && m@ == "It is an unknown command."@,
                    Some(v) => r matches Ok(UseOutcome::Expand(line)) && line@ == v,
                }
            }
        },
        None => {
            if !table.contains_key(user_id) || table[user_id].commands@.len() == 0 {
                r matches Ok(UseOutcome::NoCommands(m)) && m@ == "There are no commands."@
            } else {
                r matches Ok(UseOutcome::List(reply)) && macro_list_reply(
                    reply,
                    author,
                    macro_views(table[user_id].commands@),
                )
            }
        },
    }
}

impl UseCommand {
    /// Builds the embed listing the stored macros.
    fn send_commands_list(&self, author: &str, commands: &Vec<crate::user_data::CommandDef>) -> (r:
        Reply)
        ensures
            macro_list_reply(r, author@, macro_views(commands@)),
    {
        let mut title = author.to_owned();
        title.append("'s commands");
        let mut fields: Vec<ReplyField> = Vec::new();
        let n = commands.len();
        let mut i: usize = 0;
        while i < n
            invariant
                n == commands@.len(),
                i <= n,
                fields@.len() == i,
                forall|j: int|
                    0 <= j < i ==> (#[trigger] fields@[j]).name@ == macro_views(commands@)[j].0
                        && fields@[j].value@ == macro_views(commands@)[j].1 && fields@[j].inline
                        == true,
            decreases n - i,
        {
            fields.push(
                ReplyField {
                    name: commands[i].name.clone(),
                    value: commands[i].value.clone(),
                    inline: true,
                },
            );
            i += 1;
        }
        let reply = Reply { title, fields, color: Some(ReplyColor::Purple) };
        proof {
            assert(reply.title@ =~= author@ + "'s commands"@);
        }
        reply
    }

    pub fn is_able_to_recurse(&self) -> (r: bool)
        ensures
            !r,
    {
        false
    }

    /// Whether this handler serves the parsed command.
    pub fn is_valid(&self, info: &CommandInfo) -> (r: bool)
        ensures
            r == (info.command@ == "use"@ || info.command@ == "u"@),
    {
        str_eq(info.command, "use") || str_eq(info.command, "u")
    }

    /// Looks up the named macro, or lists the stored ones.
    pub fn execute(&self, info: &CommandInfo, author: &str, user_id: u64, data: &HashMap<
        u64,
        UserInfo,
    >) -> (r: Result<UseOutcome, String>)
        ensures
            use_post(
                crate::commands::custom_roll::opt_args(*info),
                author@,
                user_id,
                data@,
                r,
            ),
    {
        match info.args {
            Some(args) => {
                match data.get(&user_id) {
                    Some(user_info) => {
                        match user_info.get_macro(args) {
                            Some(command) => Ok(UseOutcome::Expand(command.clone())),
                            None => Err("It is an unknown command.".to_owned()),
                        }
                    },
                    None => Err("It is an unknown command.".to_owned()),
                }
            },
            None => {
                match data.get(&user_id) {
                    Some(user_info) => {
                        if user_info.commands.len() == 0 {
                            Ok(UseOutcome::NoCommands("There are no commands.".to_owned()))
                        } else {
                            Ok(UseOutcome::List(self.send_commands_list(author, &user_info.commands)))
                        }
                    },
                    None => Ok(UseOutcome::NoCommands("There are no commands.".to_owned())),
                }
            },
        }
    }
}

} // verus!
