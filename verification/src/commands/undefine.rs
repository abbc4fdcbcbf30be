//! The legacy text command that removes a user macro by name.

use std::collections::HashMap;
use vstd::prelude::*;

use crate::command_parser::CommandInfo;
use crate::text::str_eq;
use crate::user_data::macro_views;
use crate::user_data::spec_remove;
use crate::user_data::UserInfo;

verus! {

broadcast use vstd::std_specs::hash::group_hash_axioms;

pub struct UndefineCommand;

/// What removing a macro does to the user table: a missing argument or an
/// unknown user is rejected with its exact message and the table untouched;
/// otherwise the first macro with the given name is removed from the user's
/// record (removing nothing when none carries the name).
pub open spec fn undefine_post(
    args: Option<Seq<char>>,
    user_id: u64,
    before: Map<u64, UserInfo>,
    after: Map<u64, UserInfo>,
    r: Result<String, String>,
) -> bool {
    if args is None {
        &&& after == before
        &&& r matches Err(m) && m@ == "`/undefine` calls for one arguments."@
    } else if !before.contains_key(user_id) {
        &&& after == before
        &&& r matches Err(m) && m@ == "You haven't declared the command."@
    } else {
        &&& r matches Ok(m) && m@ == "The command was deleted successfully."@
        &&& exists|rec2: UserInfo|
            {
                &&& after == before.insert(user_id, rec2)
                &&& rec2.name == before[user_id].name
                &&& rec2.hp == before[user_id].hp
                &&& rec2.san == before[user_id].san
                &&& rec2.mp == before[user_id].mp
                &&& #[trigger] macro_views(rec2.commands@) == spec_remove(
                    macro_views(before[user_id].commands@),
                    args.unwrap(),
                )
            }
    }
}

impl UndefineCommand {
    pub fn is_able_to_recurse(&self) -> (r: bool)
        ensures
            !r,
    {
        false
    }

    /// Whether this handler serves the parsed command.
    pub fn is_valid(&self, info: &CommandInfo) -> (r: bool)
        ensures
            r == (info.command@ == "undefine"@ || info.command@ == "undef"@),
    {
        str_eq(info.command, "undefine") || str_eq(info.command, "undef")
    }

    /// Removes the named macro from the invoking user's record.
    pub fn execute(&self, info: &CommandInfo, user_id: u64, data: &mut HashMap<u64, UserInfo>) -> (r:
        Result<String, String>)
        ensures
            undefine_post(
                crate::commands::custom_roll::opt_args(*info),
                user_id,
                old(data)@,
                final(data)@,
                r,
            ),
    {
        let args: &str = match info.args {
            Some(a) => a,
            None => {
                return Err("`/undefine` calls for one arguments.".to_owned());
            },
        };
        let mut record: UserInfo = match data.remove(&user_id) {
            Some(existing) => existing,
            None => {
                proof {
                    assert(data@ =~= old(data)@);
                }
                return Err("You haven't declared the command.".to_owned());
            },
        };
        record.remove_macro(args);
        let ghost rec2 = record;
        data.insert(user_id, record);
        proof {
            assert(data@ =~= old(data)@.insert(user_id, rec2));
            assert(macro_views(rec2.commands@) == spec_remove(
                macro_views(old(data)@[user_id].commands@),
                crate::commands::custom_roll::args_view(*info),
            ));
        }
        Ok("The command was deleted successfully.".to_owned())
    }
}

} // verus!
