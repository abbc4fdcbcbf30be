//! The legacy text-mode dispatcher: routes a parsed `/command` line to the
//! one handler that serves it, and expands a user macro by one level. A
//! macro's stored line is dispatched with the recursion flag set, which
//! disables every handler that is not marked recursion-safe — so a macro can
//! roll dice but can never invoke another macro.

use std::collections::HashMap;
use vstd::prelude::*;
use vstd::string::StringExecFns;
use vstd::string::StrSliceExecFns;

use crate::command_parser::parse_command;
use crate::command_parser::spec_parse_command;
use crate::command_parser::CommandInfo;
use crate::commands::custom_roll::custom_roll_post;
use crate::commands::custom_roll::CustomRollCommand;
use crate::commands::define::define_post;
use crate::commands::define::DefineCommand;
use crate::commands::roll6::roll6_post;
use crate::commands::roll6::Roll6Command;
use crate::commands::undefine::undefine_post;
use crate::commands::undefine::UndefineCommand;
use crate::commands::use_command::UseCommand;
use crate::commands::use_command::UseOutcome;
use crate::commands::Reply;
use crate::user_data::macro_views;
use crate::user_data::spec_lookup;
use crate::user_data::UserInfo;

verus! {

/// The outcome of one dispatched text command: a plain message to send, an
/// embed to send, or nothing recognized (logged, no reply).
#[derive(Debug, PartialEq)]
pub enum TextOutcome {
    Message(String),
    Embed(Reply),
    NoMatch,
}

pub open spec fn is_custom_roll_cmd(c: Seq<char>) -> bool {
    c == "custom_roll"@ || c == "cr"@
}

pub open spec fn is_roll6_cmd(c: Seq<char>) -> bool {
    c == "roll"@ || c == "roll6"@ || c == "r"@ || c == "r6"@
}

pub open spec fn is_define_cmd(c: Seq<char>) -> bool {
    c == "define"@ || c == "def"@
}

pub open spec fn is_undefine_cmd(c: Seq<char>) -> bool {
    c == "undefine"@ || c == "undef"@
}

pub open spec fn is_use_cmd(c: Seq<char>) -> bool {
    c == "use"@ || c == "u"@
}

/// A handler's plain result carried into the dispatcher's outcome.
pub open spec fn text_result(hr: Result<String, String>, r: Result<TextOutcome, String>) -> bool {
    match hr {
        Ok(m) => r matches Ok(TextOutcome::Message(m2)) && m2 == m,
        Err(e) => r matches Err(e2) && e2 == e,
    }
}

/// What expanding a stored macro line yields: an unparsable (or oversized)
/// line is refused with the exact message; a parsed line is dispatched with
/// the recursion flag set, so only the dice handlers may act and every other
/// command falls through silently.
pub open spec fn expanded_post(line: Seq<char>, r: Result<TextOutcome, String>) -> bool {
    if line.len() > 1000000 {
        r matches Err(m) && m@ == "Cannot execute the command."@
    } else {
        match spec_parse_command(line) {
            None => r matches Err(m) && m@ == "Cannot execute the command."@,
            Some(p) => {
                if is_custom_roll_cmd(p.0) {
                    exists|hr: Result<String, String>|
                        #[trigger] custom_roll_post(p.1, hr) && text_result(hr, r)
                } else if is_roll6_cmd(p.0) {
                    exists|hr: Result<String, String>|
                        #[trigger] roll6_post(p.1, hr) && text_result(hr, r)
                } else {
                    r matches Ok(TextOutcome::NoMatch)
                }
            },
        }
    }
}

/// What one dispatched text command guarantees, over the user table before
/// and after: exactly the serving handler's contract, with handlers that are
/// not recursion-safe disabled under the recursion flag.
pub open spec fn text_dispatch_post(
    cmd: Seq<char>,
    args: Option<Seq<char>>,
    author: Seq<char>,
    user_id: u64,
    before: Map<u64, UserInfo>,
    after: Map<u64, UserInfo>,
    recursive: bool,
    r: Result<TextOutcome, String>,
) -> bool {
    if is_custom_roll_cmd(cmd) {
        after == before && exists|hr: Result<String, String>|
            #[trigger] custom_roll_post(args, hr) && text_result(hr, r)
    } else if is_roll6_cmd(cmd) {
        after == before && exists|hr: Result<String, String>|
            #[trigger] roll6_post(args, hr) && text_result(hr, r)
    } else if recursive {
        after == before && r matches Ok(TextOutcome::NoMatch)
    } else if is_define_cmd(cmd) {
        exists|hr: Result<String, String>|
            #[trigger] define_post(args, user_id, before, after, hr) && text_result(hr, r)
    } else if is_undefine_cmd(cmd) {
        exists|hr: Result<String, String>|
            #[trigger] undefine_post(args, user_id, before, after, hr) && text_result(hr, r)
    } else if is_use_cmd(cmd) {
        &&& after == before
        &&& match args {
            Some(a) => {
                if !before.contains_key(user_id) {
                    r matches Err(m) && m@ == "It is an unknown command."@
                } else {
                    match spec_lookup(macro_views(before[user_id].commands@), a) {
                        None => r matches Err(m) && m@ == "It is an unknown command."@,
                        Some(line) => expanded_post(line, r),
                    }
                }
            },
            None => {
                if !before.contains_key(user_id) || before[user_id].commands@.len() == 0 {
                    r matches Ok(TextOutcome::Message(m)) && m@ == "There are no commands."@
                } else {
                    r matches Ok(TextOutcome::Embed(reply))
                        && crate::commands::use_command::macro_list_reply(
                        reply,
                        author,
                        macro_views(before[user_id].commands@),
                    )
                }
            },
        }
    } else {
        after == before && r matches Ok(TextOutcome::NoMatch)
    }
}

/// Dispatches one parsed text command to the handler that serves it. The
/// recursion flag marks a macro-expanded invocation: it disables the macro
/// commands themselves, so expansion is exactly one level deep.
pub fn run_text_command(
    info: &CommandInfo,
    author: &str,
    user_id: u64,
    data: &mut HashMap<u64, UserInfo>,
    recursive: bool,
) -> (r: Result<TextOutcome, String>)
    requires
        crate::commands::custom_roll::args_view(*info).len() <= 1000000,
    ensures
        text_dispatch_post(
            info.command@,
            crate::commands::custom_roll::opt_args(*info),
            author@,
            user_id,
            old(data)@,
            final(data)@,
            recursive,
            r,
        ),
    decreases (if recursive {
        0int
    } else {
        1int
    }),
{
    let custom = CustomRollCommand;
    if custom.is_valid(info) {
        let hr = custom.execute(info);
        return match hr {
            Ok(m) => Ok(TextOutcome::Message(m)),
            Err(e) => Err(e),
        };
    }
    let roll6 = Roll6Command;
    if roll6.is_valid(info) {
        let hr = roll6.execute(info);
        return match hr {
            Ok(m) => Ok(TextOutcome::Message(m)),
            Err(e) => Err(e),
        };
    }
    if recursive {
        return Ok(TextOutcome::NoMatch);
    }
    let define = DefineCommand;
    if define.is_valid(info) {
        let hr = define.execute(info, user_id, data);
        return match hr {
            Ok(m) => Ok(TextOutcome::Message(m)),
            Err(e) => Err(e),
        };
    }
    let undefine = UndefineCommand;
    if undefine.is_valid(info) {
        let hr = undefine.execute(info, user_id, data);
        return match hr {
            Ok(m) => Ok(TextOutcome::Message(m)),
            Err(e) => Err(e),
        };
    }
    let use_cmd = UseCommand;
    if use_cmd.is_valid(info) {
        let looked = use_cmd.execute(info, author, user_id, &*data);
        return match looked {
            Err(e) => Err(e),
            Ok(UseOutcome::NoCommands(m)) => Ok(TextOutcome::Message(m)),
            Ok(UseOutcome::List(reply)) => Ok(TextOutcome::Embed(reply)),
            Ok(UseOutcome::Expand(line)) => {
                if line.as_str().unicode_len() > 1000000 {
                    return Err("Cannot execute the command.".to_owned());
                }
                match parse_command(line.as_str()) {
                    None => Err("Cannot execute the command.".to_owned()),
                    Some(inner) => {
                        proof {
                            crate::command_parser::lemma_parse_command_lens(line@);
                        }
                        run_text_command(&inner, author, user_id, data, true)
                    },
                }
            },
        };
    }
    Ok(TextOutcome::NoMatch)
}

} // verus!
