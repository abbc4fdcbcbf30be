//! The legacy text command that defines a user macro, enforcing the flat
//! file format's invariants: neither field may hold the separator byte, a
//! field is at most twenty bytes, and a user keeps at most five macros —
//! redefining a kept name replaces it and is allowed even at the cap, since
//! it adds no entry.

use std::collections::HashMap;
use vstd::prelude::*;
use vstd::string::StringExecFns;
use vstd::string::StringSliceAdditionalSpecFns;
use vstd::string::StrSliceExecFns;
use vstd::utf8::encode_utf8;

use crate::command_parser::CommandInfo;
use crate::text::str_eq;
use crate::user_data::macro_views;
use crate::user_data::spec_lookup;
use crate::user_data::spec_upsert;
use crate::user_data::UserInfo;

verus! {

broadcast use vstd::std_specs::hash::group_hash_axioms, vstd::slice::group_slice_axioms;

pub struct DefineCommand;

/// The most macros one user may keep.
pub const MACRO_LIMIT: usize = 5;

/// The longest macro name or value, in bytes.
pub const MACRO_FIELD_LIMIT: usize = 20;

/// The first index at or after `i` holding a space, or the length.
pub open spec fn scan_to_space(s: Seq<char>, i: int) -> int
    recommends
        0 <= i <= s.len(),
    decreases s.len() - i,
{
    if i < 0 || i >= s.len() {
        s.len() as int
    } else if s[i] == ' ' {
        i
    } else {
        scan_to_space(s, i + 1)
    }
}

/// A string split at its first space into two pieces, or nothing when it
/// holds no space.
pub open spec fn spec_split_two(s: Seq<char>) -> Option<(Seq<char>, Seq<char>)> {
    let k = scan_to_space(s, 0);
    if k == s.len() {
        None
    } else {
        Some((s.subrange(0, k), s.skip(k + 1)))
    }
}

/// A byte sequence holding the reserved separator.
pub open spec fn holds_separator(b: Seq<u8>) -> bool {
    exists|i: int| 0 <= i < b.len() && b[i] == 3u8
}

/// What defining a macro does to the user table: each invalid input is
/// rejected with its exact message and the table untouched; a valid
/// definition writes the user's record back with the macro added or
/// replaced, creating the record when the user has none. The cap refuses
/// only a definition that would add a sixth entry: redefining a kept name
/// replaces it, at the cap as anywhere.
pub open spec fn define_post(
    args: Option<Seq<char>>,
    user_id: u64,
    before: Map<u64, UserInfo>,
    after: Map<u64, UserInfo>,
    r: Result<String, String>,
) -> bool {
    if args is None || spec_split_two(args.unwrap()) is None {
        &&& after == before
        &&& r matches Err(m) && m@ == "`/define` calls for two arguments."@
    } else {
        let (name, value) = spec_split_two(args.unwrap()).unwrap();
        if holds_separator(encode_utf8(name)) || holds_separator(encode_utf8(value)) {
            &&& after == before
            &&& r matches Err(m) && m@ == "The command contains `\\x03`, an invalid character."@
        } else if encode_utf8(name).len() > MACRO_FIELD_LIMIT || encode_utf8(value).len()
            > MACRO_FIELD_LIMIT {
            &&& after == before
            &&& r matches Err(m) && m@ == "The command is too long."@
        } else {
            let had = before.contains_key(user_id);
            let old_count = if had {
                before[user_id].commands@.len() as int
            } else {
                0int
            };
            let kept_views = if had {
                macro_views(before[user_id].commands@)
            } else {
                Seq::empty()
            };
            if old_count >= MACRO_LIMIT && spec_lookup(kept_views, name) is None {
                &&& after == before
                &&& r matches Err(m) && m@
                    == "You can define the command up to five. You may use `/undef` to delete one."@
            } else {
                &&& r matches Ok(m) && m@ == "You defined `"@ + name + "`."@
                &&& exists|rec2: UserInfo|
                    {
                        &&& after == before.insert(user_id, rec2)
                        &&& rec2.name == (if had {
                            before[user_id].name
                        } else {
                            user_id
                        })
                        &&& rec2.hp == (if had {
                            before[user_id].hp
                        } else {
                            0u8
                        })
                        &&& rec2.san == (if had {
                            before[user_id].san
                        } else {
                            0u8
                        })
                        &&& rec2.mp == (if had {
                            before[user_id].mp
                        } else {
                            0u8
                        })
                        &&& #[trigger] macro_views(rec2.commands@) == spec_upsert(
                            if had {
                                macro_views(before[user_id].commands@)
                            } else {
                                Seq::empty()
                            },
                            name,
                            value,
                        )
                    }
            }
        }
    }
}

/// Splits the argument text at its first space.
fn split_two<'a>(s: &'a str) -> (r: Option<(&'a str, &'a str)>)
    ensures
        match spec_split_two(s@) {
            Some(p) => r matches Some(q) && q.0@ == p.0 && q.1@ == p.1,
            None => r is None,
        },
{
    let ghost sv = s@;
    let n = s.unicode_len();
    let mut i: usize = 0;
    while i < n && s.get_char(i) != ' '
        invariant
            sv == s@,
            n == sv.len(),
            i <= n,
            scan_to_space(sv, 0) == scan_to_space(sv, i as int),
        decreases n - i,
    {
        i += 1;
    }
    proof {
        assert(scan_to_space(sv, i as int) == i);
    }
    if i == n {
        None
    } else {
        Some((s.substring_char(0, i), s.substring_char(i + 1, n)))
    }
}

impl DefineCommand {
    pub fn is_able_to_recurse(&self) -> (r: bool)
        ensures
            !r,
    {
        false
    }

    /// Whether this handler serves the parsed command.
    pub fn is_valid(&self, info: &CommandInfo) -> (r: bool)
        ensures
            r == (info.command@ == "define"@ || info.command@ == "def"@),
    {
        str_eq(info.command, "define") || str_eq(info.command, "def")
    }

    /// Validates and stores one macro definition for the invoking user.
    pub fn execute(&self, info: &CommandInfo, user_id: u64, data: &mut HashMap<u64, UserInfo>) -> (r:
        Result<String, String>)
        ensures
            define_post(
                crate::commands::custom_roll::opt_args(*info),
                user_id,
                old(data)@,
                final(data)@,
                r,
            ),
    {
        let args: &str = match info.args {
            Some(a) => a,
            None => {
                return Err("`/define` calls for two arguments.".to_owned());
            },
        };
        let (command_name, command) = match split_two(args) {
            Some(p) => p,
            None => {
                return Err("`/define` calls for two arguments.".to_owned());
            },
        };

        if crate::text::bytes_contain(command_name.as_bytes(), 3) || crate::text::bytes_contain(
            command.as_bytes(),
            3,
        ) {
            return Err("The command contains `\\x03`, an invalid character.".to_owned());
        }
        if command_name.as_bytes().len() > MACRO_FIELD_LIMIT || command.as_bytes().len()
            > MACRO_FIELD_LIMIT {
            return Err("The command is too long.".to_owned());
        }

        let mut record: UserInfo = match data.remove(&user_id) {
            Some(existing) => existing,
            None => UserInfo::new(user_id),
        };
        let ghost had = old(data)@.contains_key(user_id);
        let already_kept = match record.get_macro(command_name) {
            Some(_) => true,
            None => false,
        };
        if record.commands.len() >= MACRO_LIMIT && !already_kept {
            let ghost before_insert = data@;
            data.insert(user_id, record);
            proof {
                assert(data@ =~= old(data)@);
            }
            return Err(
                "You can define the command up to five. You may use `/undef` to delete one.".to_owned(),
            );
        }
        record.define_macro(command_name.to_owned(), command.to_owned());
        let ghost rec2 = record;
        data.insert(user_id, record);
        proof {
            assert(data@ =~= old(data)@.insert(user_id, rec2));
            assert(macro_views(rec2.commands@) == spec_upsert(
                if old(data)@.contains_key(user_id) {
                    macro_views(old(data)@[user_id].commands@)
                } else {
                    Seq::empty()
                },
                spec_split_two(crate::commands::custom_roll::args_view(*info)).unwrap().0,
                spec_split_two(crate::commands::custom_roll::args_view(*info)).unwrap().1,
            ));
        }
        let mut m = "You defined `".to_owned();
        m.append(command_name);
        m.append("`.");
        proof {
            let name = spec_split_two(args@).unwrap().0;
            assert(m@ =~= "You defined `"@ + name + "`."@);
        }
        Ok(m)
    }
}

} // verus!
