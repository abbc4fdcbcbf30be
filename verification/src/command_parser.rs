//! Parsing of legacy slash-prefixed text commands: a single structural split
//! into command name, raw argument span and trailing comment.

use vstd::prelude::*;
use vstd::string::StrSliceExecFns;

verus! {

/// Command arguments: the command token after the `/`, the raw argument span
/// (leading whitespace removed, otherwise untouched) and the comment after
/// the first `#` (leading whitespace and further `#` removed).
pub struct CommandInfo<'ctx> {
    pub command: &'ctx str,
    pub args: Option<&'ctx str>,
    pub comment: Option<&'ctx str>,
}

/// The whitespace characters the splitter recognizes.
pub open spec fn is_cmd_ws(c: char) -> bool {
    c == ' ' || c == '\t' || c == '\n' || c == '\r'
}

/// A character that ends the command token.
pub open spec fn is_cmd_delim(c: char) -> bool {
    is_cmd_ws(c) || c == '#'
}

/// The first index at or after `i` holding a delimiter, or the length.
pub open spec fn scan_to_delim(s: Seq<char>, i: int) -> int
    recommends
        0 <= i <= s.len(),
    decreases s.len() - i,
{
    if i < 0 || i >= s.len() {
        s.len() as int
    } else if is_cmd_delim(s[i]) {
        i
    } else {
        scan_to_delim(s, i + 1)
    }
}

/// The first index at or after `i` holding `#`, or the length.
pub open spec fn scan_to_hash(s: Seq<char>, i: int) -> int
    recommends
        0 <= i <= s.len(),
    decreases s.len() - i,
{
    if i < 0 || i >= s.len() {
        s.len() as int
    } else if s[i] == '#' {
        i
    } else {
        scan_to_hash(s, i + 1)
    }
}

/// The first index in `i..limit` holding a non-whitespace character, or
/// `limit`.
pub open spec fn scan_ws(s: Seq<char>, i: int, limit: int) -> int
    recommends
        0 <= i <= limit <= s.len(),
    decreases limit - i,
{
    if i < 0 || i >= limit {
        limit
    } else if is_cmd_ws(s[i]) {
        scan_ws(s, i + 1, limit)
    } else {
        i
    }
}

/// The first index at or after `i` holding neither whitespace nor `#`, or
/// the length.
pub open spec fn scan_ws_hash(s: Seq<char>, i: int) -> int
    recommends
        0 <= i <= s.len(),
    decreases s.len() - i,
{
    if i < 0 || i >= s.len() {
        s.len() as int
    } else if is_cmd_ws(s[i]) || s[i] == '#' {
        scan_ws_hash(s, i + 1)
    } else {
        i
    }
}

/// What the splitter makes of a line: `None` when the line is empty, does
/// not start with `/`, or has no command token; otherwise the command token,
/// the argument span and the comment span.
pub open spec fn spec_parse_command(s: Seq<char>) -> Option<
    (Seq<char>, Option<Seq<char>>, Option<Seq<char>>),
> {
    if s.len() == 0 || s[0] != '/' {
        None
    } else {
        let cmd_end = scan_to_delim(s, 1);
        if cmd_end == 1 {
            None
        } else {
            let hash = scan_to_hash(s, cmd_end);
            let args_start = scan_ws(s, cmd_end, hash);
            let args = if args_start < hash {
                Some(s.subrange(args_start, hash))
            } else {
                None
            };
            let comment_start = scan_ws_hash(s, hash);
            let comment = if comment_start < s.len() {
                Some(s.subrange(comment_start, s.len() as int))
            } else {
                None
            };
            Some((s.subrange(1, cmd_end), args, comment))
        }
    }
}

fn is_ws_exec(c: char) -> (r: bool)
    ensures
        r == is_cmd_ws(c),
{
    c == ' ' || c == '\t' || c == '\n' || c == '\r'
}

fn is_delim_exec(c: char) -> (r: bool)
    ensures
        r == is_cmd_delim(c),
{
    is_ws_exec(c) || c == '#'
}

/// Tries to parse a command line into its command, arguments and comment.
pub fn parse_command<'ctx>(content: &'ctx str) -> (r: Option<CommandInfo<'ctx>>)
    ensures
        r is Some <==> spec_parse_command(content@) is Some,
        r matches Some(info) ==> {
            let p = spec_parse_command(content@).unwrap();
            &&& info.command@ == p.0
            &&& match (info.args, p.1) {
                (Some(a), Some(pa)) => a@ == pa,
                (None, None) => true,
                _ => false,
            }
            &&& match (info.comment, p.2) {
                (Some(c), Some(pc)) => c@ == pc,
                (None, None) => true,
                _ => false,
            }
        },
{
    let ghost s = content@;
    let n = content.unicode_len();
    if n == 0 {
        return None;
    }
    if content.get_char(0) != '/' {
        return None;
    }
    let mut cmd_end: usize = 1;
    while cmd_end < n && !is_delim_exec(content.get_char(cmd_end))
        invariant
            s == content@,
            n == s.len(),
            1 <= cmd_end <= n,
            scan_to_delim(s, 1) == scan_to_delim(s, cmd_end as int),
        decreases n - cmd_end,
    {
        cmd_end += 1;
    }
    proof {
        assert(scan_to_delim(s, cmd_end as int) == cmd_end);
    }
    if cmd_end == 1 {
        return None;
    }
    let command = content.substring_char(1, cmd_end);

    let mut hash: usize = cmd_end;
    while hash < n && content.get_char(hash) != '#'
        invariant
            s == content@,
            n == s.len(),
            cmd_end <= hash <= n,
            scan_to_hash(s, cmd_end as int) == scan_to_hash(s, hash as int),
        decreases n - hash,
    {
        hash += 1;
    }
    proof {
        assert(scan_to_hash(s, hash as int) == hash);
    }

    let mut args_start: usize = cmd_end;
    while args_start < hash && is_ws_exec(content.get_char(args_start))
        invariant
            s == content@,
            n == s.len(),
            hash <= n,
            cmd_end <= args_start <= hash,
            scan_ws(s, cmd_end as int, hash as int) == scan_ws(s, args_start as int, hash as int),
        decreases hash - args_start,
    {
        args_start += 1;
    }
    proof {
        assert(scan_ws(s, args_start as int, hash as int) == args_start);
    }
    let args = if args_start < hash {
        Some(content.substring_char(args_start, hash))
    } else {
        None
    };

    let mut comment_start: usize = hash;
    while comment_start < n && is_delim_exec(content.get_char(comment_start))
        invariant
            s == content@,
            n == s.len(),
            hash <= comment_start <= n,
            scan_ws_hash(s, hash as int) == scan_ws_hash(s, comment_start as int),
        decreases n - comment_start,
    {
        comment_start += 1;
    }
    proof {
        assert(scan_ws_hash(s, comment_start as int) == comment_start);
    }
    let comment = if comment_start < n {
        Some(content.substring_char(comment_start, n))
    } else {
        None
    };

    Some(CommandInfo { command, args, comment })
}

/// Scans stay within the sequence.
proof fn lemma_scan_bounds(s: Seq<char>, i: int)
    requires
        0 <= i <= s.len(),
    ensures
        i <= scan_to_delim(s, i) <= s.len(),
        i <= scan_to_hash(s, i) <= s.len(),
        i <= scan_ws_hash(s, i) <= s.len(),
    decreases s.len() - i,
{
    if i < s.len() {
        lemma_scan_bounds(s, i + 1);
    }
}

proof fn lemma_scan_ws_bounds(s: Seq<char>, i: int, limit: int)
    requires
        0 <= i <= limit <= s.len(),
    ensures
        i <= scan_ws(s, i, limit) <= limit,
    decreases limit - i,
{
    if i < limit {
        lemma_scan_ws_bounds(s, i + 1, limit);
    }
}

/// The pieces a parsed command line yields are never longer than the line.
pub proof fn lemma_parse_command_lens(s: Seq<char>)
    requires
        spec_parse_command(s) is Some,
    ensures
        ({
            let p = spec_parse_command(s).unwrap();
            &&& p.0.len() <= s.len()
            &&& (p.1 matches Some(a) ==> a.len() <= s.len())
            &&& (p.2 matches Some(c) ==> c.len() <= s.len())
        }),
{
    lemma_scan_bounds(s, 1);
    let cmd_end = scan_to_delim(s, 1);
    lemma_scan_bounds(s, cmd_end);
    let hash = scan_to_hash(s, cmd_end);
    lemma_scan_ws_bounds(s, cmd_end, hash);
    lemma_scan_bounds(s, hash);
}

} // verus!
