//! The choice command: splits a comma-separated list and picks one entry
//! uniformly at random.

use vstd::prelude::*;
use vstd::pervasive::unreached;
use vstd::string::StrSliceExecFns;
use vstd::string::StringExecFns;

use crate::commands::find_option;
use crate::commands::str_option_or;
use crate::commands::CommandDescriptor;
use crate::commands::CommandOption;
use crate::commands::CommandStatus;
use crate::commands::InteractionUtil;
use crate::commands::Invocation;
use crate::commands::OptionKind;
use crate::commands::OptionSpec;
use crate::commands::OptionValue;
use crate::commands::Reply;
use crate::commands::ReplyField;
use crate::database::StoreError;
use crate::rng::rand_below;

verus! {

/// A command that make a random choice.
pub struct ChooseCommand;

/// The first index at or after `i` holding a comma, or the length.
pub open spec fn scan_to_comma(s: Seq<char>, i: int) -> int
    recommends
        0 <= i <= s.len(),
    decreases s.len() - i,
{
    if i < 0 || i >= s.len() {
        s.len() as int
    } else if s[i] == ',' {
        i
    } else {
        scan_to_comma(s, i + 1)
    }
}

/// The comma-separated pieces of a string, in order. Splitting any string
/// yields at least one piece.
pub open spec fn spec_split_commas(s: Seq<char>) -> Seq<Seq<char>>
    decreases s.len(),
    via spec_split_commas_dec
{
    let k = scan_to_comma(s, 0);
    if k == s.len() {
        seq![s]
    } else {
        seq![s.subrange(0, k)] + spec_split_commas(s.skip(k + 1))
    }
}

/// The comma scan stays within the sequence.
proof fn lemma_scan_bounds(s: Seq<char>, i: int)
    requires
        0 <= i <= s.len(),
    ensures
        i <= scan_to_comma(s, i) <= s.len(),
    decreases s.len() - i,
{
    if i < s.len() && s[i] != ',' {
        lemma_scan_bounds(s, i + 1);
    }
}

#[via_fn]
proof fn spec_split_commas_dec(s: Seq<char>) {
    lemma_scan_bounds(s, 0);
}

/// The invocation shape the choice command relies on: the required `choices`
/// string is present.
pub open spec fn choose_input_ok(opts: Seq<CommandOption>) -> bool {
    find_option(opts, "choices"@) matches Some(OptionValue::Str(_))
}

/// What executing the choice command guarantees: the reply names one of the
/// comma-separated pieces and shows the full list it was picked from.
pub open spec fn choose_execute_ensures(inv: Invocation, r: Result<
    CommandStatus,
    StoreError,
>) -> bool {
    let cs = str_option_or(inv.options@, "choices"@, Seq::empty());
    r matches Ok(CommandStatus::Replied(reply)) && exists|idx: int|
        #![trigger spec_split_commas(cs)[idx]]
        {
            &&& 0 <= idx < spec_split_commas(cs).len()
            &&& reply.title@ == inv.nickname@ + "'s choice"@
            &&& reply.fields@.len() == 1
            &&& reply.fields@[0].name@ == "**"@ + spec_split_commas(cs)[idx] + "**"@
            &&& reply.fields@[0].value@ == "From "@ + cs
            &&& reply.fields@[0].inline == false
            &&& reply.color is None
        }
}

/// Splits a string at its commas; any string has at least one piece.
pub fn split_commas<'a>(s: &'a str) -> (r: Vec<&'a str>)
    ensures
        r@.len() == spec_split_commas(s@).len() >= 1,
        forall|i: int| 0 <= i < r@.len() ==> (#[trigger] r@[i])@ == spec_split_commas(s@)[i],
{
    let ghost sv = s@;
    let n = s.unicode_len();
    let mut pieces: Vec<&'a str> = Vec::new();
    proof {
        assert(sv.skip(0) =~= sv);
        assert(pieces@.map_values(|p: &str| p@) =~= Seq::<Seq<char>>::empty());
        assert(Seq::<Seq<char>>::empty() + spec_split_commas(sv) =~= spec_split_commas(sv));
    }
    let mut start: usize = 0;
    let mut i: usize = 0;
    while i < n
        invariant
            sv == s@,
            n == sv.len(),
            0 <= start <= i <= n,
            scan_to_comma(sv, start as int) == scan_to_comma(sv, i as int),
            spec_split_commas(sv) == pieces@.map_values(|p: &str| p@) + spec_split_commas(
                sv.skip(start as int),
            ),
        decreases n - i,
    {
        if s.get_char(i) == ',' {
            let piece = s.substring_char(start, i);
            proof {
                assert(scan_to_comma(sv, i as int) == i);
                assert(sv.skip(start as int).subrange(0, i - start) =~= sv.subrange(
                    start as int,
                    i as int,
                ));
                assert(sv.skip(start as int).skip(i - start + 1) =~= sv.skip(i + 1));
                assert(scan_to_comma(sv.skip(start as int), 0) == i - start) by {
                    lemma_scan_skip_index(sv, start as int, 0);
                }
            }
            pieces.push(piece);
            proof {
                assert(pieces@.map_values(|p: &str| p@) =~= pieces@.drop_last().map_values(
                    |p: &str| p@,
                ).push(sv.subrange(start as int, i as int)));
                assert(spec_split_commas(sv) == pieces@.map_values(|p: &str| p@)
                    + spec_split_commas(sv.skip(i + 1)));
            }
            start = i + 1;
        }
        i += 1;
    }
    proof {
        assert(scan_to_comma(sv, i as int) == n);
        lemma_scan_skip_index(sv, start as int, 0);
    }
    let piece = s.substring_char(start, n);
    proof {
        assert(sv.skip(start as int) =~= sv.subrange(start as int, n as int));
        assert(spec_split_commas(sv.skip(start as int)) == seq![sv.skip(start as int)]);
    }
    pieces.push(piece);
    proof {
        assert(pieces@.map_values(|p: &str| p@) =~= pieces@.drop_last().map_values(|p: &str| p@)
            + seq![sv.skip(start as int)]);
        assert(spec_split_commas(sv) =~= pieces@.map_values(|p: &str| p@));
    }
    pieces
}

/// Scanning a suffix finds the same comma as scanning the whole, shifted.
proof fn lemma_scan_skip_index(s: Seq<char>, start: int, j: int)
    requires
        0 <= start <= s.len(),
        0 <= j,
        start + j <= s.len(),
    ensures
        scan_to_comma(s.skip(start), j) == scan_to_comma(s, start + j) - start,
    decreases s.len() - start - j,
{
    if start + j >= s.len() {
    } else {
        assert(s.skip(start)[j] == s[start + j]);
        if s[start + j] == ',' {
        } else {
            lemma_scan_skip_index(s, start, j + 1);
        }
    }
}

impl ChooseCommand {
    pub fn create(&self) -> (r: CommandDescriptor)
        ensures
            r.name@ == "choose"@,
            !r.use_db,
            r.description_ja is Some,
            r.options@.len() == 1,
            r.options@[0].name@ == "choices"@,
            r.options@[0].kind == OptionKind::OptString,
            r.options@[0].required,
    {
        let mut opts: Vec<OptionSpec> = Vec::new();
        opts.push(
            OptionSpec {
                name: "choices".to_owned(),
                description: "Comma-separated choices (ex. A,B,C)".to_owned(),
                kind: OptionKind::OptString,
                required: true,
                choices: Vec::new(),
                name_ja: Some("選択肢".to_owned()),
                description_ja: Some("カンマ区切りで与えてください (例: A,B,C)".to_owned()),
            },
        );
        CommandDescriptor {
            name: "choose".to_owned(),
            description: "Makes a random choice.".to_owned(),
            description_ja: Some("与えられたものからランダムに選択をします.".to_owned()),
            options: opts,
            use_db: false,
        }
    }

    pub fn name(&self) -> (r: &'static str)
        ensures
            r@ == "choose"@,
    {
        "choose"
    }

    pub fn use_db(&self) -> (r: bool)
        ensures
            !r,
    {
        false
    }

    /// Picks one of the comma-separated choices uniformly at random and
    /// replies with the pick and the full set.
    pub fn execute(&self, interaction: &Invocation) -> (r: Result<CommandStatus, StoreError>)
        requires
            choose_input_ok(interaction.options@),
        ensures
            choose_execute_ensures(*interaction, r),
    {
        let choices_text: &str = match interaction.get_string_option("choices".to_owned()) {
            Some(s) => s,
            None => unreached(),
        };
        let choices = split_commas(choices_text);
        let selected = rand_below(choices.len());

        let mut title = interaction.get_nickname();
        title.append("'s choice");

        let mut name = "**".to_owned();
        name.append(choices[selected]);
        name.append("**");

        let mut value = "From ".to_owned();
        value.append(choices_text);

        let mut fields: Vec<ReplyField> = Vec::new();
        fields.push(ReplyField { name, value, inline: false });
        let reply = Reply { title, fields, color: None };
        proof {
            let cs = str_option_or(interaction.options@, "choices"@, Seq::empty());
            let pieces = spec_split_commas(cs);
            assert(reply.title@ =~= interaction.nickname@ + "'s choice"@);
            assert(reply.fields@[0].name@ =~= "**"@ + pieces[selected as int] + "**"@);
            assert(reply.fields@[0].value@ =~= "From "@ + cs);
        }
        Ok(CommandStatus::Replied(reply))
    }
}

} // verus!
