//! Opposed rolls: the CoC 6th edition single-chance contest and the CoC 7th
//! edition bonus/penalty-dice contest, with the outcome ordering and the
//! repeated tie-break.

use core::cmp::Ordering;
use vstd::prelude::*;
use vstd::string::StringExecFns;

use vstd::pervasive::unreached;

use crate::classify::div_trunc;
use crate::commands::find_option;
use crate::commands::int_option_value;
use crate::commands::str_option_or;
use crate::commands::CommandDescriptor;
use crate::commands::CommandOption;
use crate::commands::CommandStatus;
use crate::commands::InteractionUtil;
use crate::commands::Invocation;
use crate::commands::OptionKind;
use crate::commands::OptionSpec;
use crate::commands::OptionValue;
use crate::commands::Reply;
use crate::commands::ReplyField;
use crate::database::StoreError;
use crate::rng::rand_range_i32;
use crate::text::i64_to_string;
use crate::text::int_digits;

verus! {

/// A command to do an opposed roll following the Call of Cthulhu 6th Edition.
pub struct Op6Command;

/// A command to do an opposed roll following the Call of Cthulhu 7th Edition.
pub struct Op7Command;

/// The outcome of one participant's roll in a 7th edition opposed roll,
/// carrying the status it was rolled against for tie-breaking.
#[derive(PartialEq, Eq, Structural, Clone, Copy, Debug)]
pub enum RollOutcome {
    ExtremeSuccess(i32),
    HardSuccess(i32),
    Success(i32),
    Failure(i32),
}

/// Outcomes ordered worst to best.
pub open spec fn outcome_rank(o: RollOutcome) -> int {
    match o {
        RollOutcome::Failure(_) => 0,
        RollOutcome::Success(_) => 1,
        RollOutcome::HardSuccess(_) => 2,
        RollOutcome::ExtremeSuccess(_) => 3,
    }
}

/// The status value an outcome carries.
pub open spec fn outcome_status(o: RollOutcome) -> int {
    match o {
        RollOutcome::Failure(n) => n as int,
        RollOutcome::Success(n) => n as int,
        RollOutcome::HardSuccess(n) => n as int,
        RollOutcome::ExtremeSuccess(n) => n as int,
    }
}

/// Outcomes compare by rank first, then by the status they carry.
pub open spec fn spec_outcome_cmp(a: RollOutcome, b: RollOutcome) -> Ordering {
    if outcome_rank(a) < outcome_rank(b) {
        Ordering::Less
    } else if outcome_rank(a) > outcome_rank(b) {
        Ordering::Greater
    } else if outcome_status(a) < outcome_status(b) {
        Ordering::Less
    } else if outcome_status(a) > outcome_status(b) {
        Ordering::Greater
    } else {
        Ordering::Equal
    }
}

fn outcome_rank_exec(o: &RollOutcome) -> (r: u8)
    ensures
        r as int == outcome_rank(*o),
{
    match o {
        RollOutcome::Failure(_) => 0,
        RollOutcome::Success(_) => 1,
        RollOutcome::HardSuccess(_) => 2,
        RollOutcome::ExtremeSuccess(_) => 3,
    }
}

fn outcome_status_exec(o: &RollOutcome) -> (r: i32)
    ensures
        r as int == outcome_status(*o),
{
    match o {
        RollOutcome::Failure(n) => *n,
        RollOutcome::Success(n) => *n,
        RollOutcome::HardSuccess(n) => *n,
        RollOutcome::ExtremeSuccess(n) => *n,
    }
}

impl PartialOrd for RollOutcome {
    fn partial_cmp(&self, other: &Self) -> (r: Option<Ordering>)
        ensures
            r == Some(spec_outcome_cmp(*self, *other)),
    {
        let ra = outcome_rank_exec(self);
        let rb = outcome_rank_exec(other);
        if ra < rb {
            Some(Ordering::Less)
        } else if ra > rb {
            Some(Ordering::Greater)
        } else {
            let sa = outcome_status_exec(self);
            let sb = outcome_status_exec(other);
            if sa < sb {
                Some(Ordering::Less)
            } else if sa > sb {
                Some(Ordering::Greater)
            } else {
                Some(Ordering::Equal)
            }
        }
    }
}

impl vstd::std_specs::cmp::PartialOrdSpecImpl for RollOutcome {
    open spec fn obeys_partial_cmp_spec() -> bool {
        true
    }

    open spec fn partial_cmp_spec(&self, other: &Self) -> Option<Ordering> {
        Some(spec_outcome_cmp(*self, *other))
    }
}

/// The display name of an outcome.
pub open spec fn spec_outcome_name(o: RollOutcome) -> Seq<char> {
    match o {
        RollOutcome::ExtremeSuccess(_) => "Extreme Success"@,
        RollOutcome::HardSuccess(_) => "Hard Success"@,
        RollOutcome::Success(_) => "Success"@,
        RollOutcome::Failure(_) => "Failure"@,
    }
}

impl RollOutcome {
    /// The display name of the outcome.
    pub fn to_string(&self) -> (r: String)
        ensures
            r@ == spec_outcome_name(*self),
    {
        match self {
            RollOutcome::ExtremeSuccess(_) => "Extreme Success".to_owned(),
            RollOutcome::HardSuccess(_) => "Hard Success".to_owned(),
            RollOutcome::Success(_) => "Success".to_owned(),
            RollOutcome::Failure(_) => "Failure".to_owned(),
        }
    }
}

pub open spec fn clamp_int(x: int, lo: int, hi: int) -> int {
    if x < lo {
        lo
    } else if x > hi {
        hi
    } else {
        x
    }
}

/// The 6th edition opposed-roll chance: `clamp(50 + (status1 - status2) * 5,
/// 0, 100)`; a single percentile roll at or under it decides for
/// participant 1.
pub open spec fn spec_op6_chance(status1: int, status2: int) -> int {
    clamp_int(50 + (status1 - status2) * 5, 0, 100)
}

/// Computes the 6th edition opposed-roll chance.
pub fn op6_chance(status1: i32, status2: i32) -> (r: i32)
    requires
        0 <= status1 <= 20,
        0 <= status2 <= 20,
    ensures
        r == spec_op6_chance(status1 as int, status2 as int),
        0 <= r <= 100,
{
    let raw = 50 + (status1 - status2) * 5;
    if raw < 0 {
        0
    } else if raw > 100 {
        100
    } else {
        raw
    }
}

/// Decides a 6th edition opposed roll: a single percentile roll at or under
/// the chance decides in favour of participant 1.
pub fn op6_player1_wins(status1: i32, status2: i32, roll: i32) -> (r: bool)
    requires
        0 <= status1 <= 20,
        0 <= status2 <= 20,
    ensures
        r == (roll <= spec_op6_chance(status1 as int, status2 as int)),
{
    roll <= op6_chance(status1, status2)
}

/// The 7th edition ladder an opposed participant's selected roll falls on,
/// against that participant's own status.
pub open spec fn spec_classify_op7(sel: int, status: i32) -> RollOutcome {
    if sel <= div_trunc(status as int, 5) {
        RollOutcome::ExtremeSuccess(status)
    } else if sel <= div_trunc(status as int, 2) {
        RollOutcome::HardSuccess(status)
    } else if sel <= status {
        RollOutcome::Success(status)
    } else {
        RollOutcome::Failure(status)
    }
}

/// Classifies a selected percentile value against the participant's status
/// under the 7th edition opposed ladder.
pub fn classify_op7(selected: i32, status: i32) -> (r: RollOutcome)
    ensures
        r == spec_classify_op7(selected as int, status),
{
    let s = status as i64;
    let sel = selected as i64;
    if sel <= crate::classify::div_trunc_i64(s, 5) {
        RollOutcome::ExtremeSuccess(status)
    } else if sel <= crate::classify::div_trunc_i64(s, 2) {
        RollOutcome::HardSuccess(status)
    } else if sel <= s {
        RollOutcome::Success(status)
    } else {
        RollOutcome::Failure(status)
    }
}

/// The least element of a non-empty sequence of values.
pub open spec fn seq_min_i32(vs: Seq<i32>) -> int
    recommends
        vs.len() >= 1,
    decreases vs.len(),
{
    if vs.len() <= 1 {
        vs[0] as int
    } else {
        let m = seq_min_i32(vs.drop_last());
        if vs.last() < m {
            vs.last() as int
        } else {
            m
        }
    }
}

/// The greatest element of a non-empty sequence of values.
pub open spec fn seq_max_i32(vs: Seq<i32>) -> int
    recommends
        vs.len() >= 1,
    decreases vs.len(),
{
    if vs.len() <= 1 {
        vs[0] as int
    } else {
        let m = seq_max_i32(vs.drop_last());
        if vs.last() > m {
            vs.last() as int
        } else {
            m
        }
    }
}

/// The value a participant's bonus selects: the single roll for no bonus,
/// the least for a bonus, the greatest for a penalty.
pub open spec fn spec_op7_select(vs: Seq<i32>, bonus: int) -> int
    recommends
        vs.len() >= 1,
{
    if bonus == 0 {
        vs[0] as int
    } else if bonus > 0 {
        seq_min_i32(vs)
    } else {
        seq_max_i32(vs)
    }
}

/// The rolled values joined with `, `.
pub open spec fn ints_items(vs: Seq<i32>) -> Seq<char>
    decreases vs.len(),
{
    if vs.len() == 0 {
        Seq::empty()
    } else if vs.len() == 1 {
        int_digits(vs[0] as int)
    } else {
        ints_items(vs.drop_last()) + seq![',', ' '] + int_digits(vs.last() as int)
    }
}

/// How the selected value is displayed: the bare value for no bonus,
/// `min([..]) = v` for a bonus, `max([..]) = v` for a penalty.
pub open spec fn spec_op7_sel_text(vs: Seq<i32>, bonus: int) -> Seq<char>
    recommends
        vs.len() >= 1,
{
    if bonus == 0 {
        int_digits(vs[0] as int)
    } else if bonus > 0 {
        "min(["@ + ints_items(vs) + "]) = "@ + int_digits(seq_min_i32(vs))
    } else {
        "max(["@ + ints_items(vs) + "]) = "@ + int_digits(seq_max_i32(vs))
    }
}

/// The whole display line for one participant's roll, with the ladder icon
/// and the comparison shown.
pub open spec fn spec_op7_text(vs: Seq<i32>, bonus: int, status: i32) -> Seq<char>
    recommends
        vs.len() >= 1,
{
    let sel = spec_op7_select(vs, bonus);
    let st = spec_op7_sel_text(vs, bonus);
    if sel <= div_trunc(status as int, 5) {
        ":trophy: "@ + st + " <= "@ + int_digits(status as int) + " / 5"@
    } else if sel <= div_trunc(status as int, 2) {
        ":star: "@ + st + " <= "@ + int_digits(status as int) + " / 2"@
    } else if sel <= status {
        ":o: "@ + st + " <= "@ + int_digits(status as int)
    } else {
        ":x: "@ + st + " > "@ + int_digits(status as int)
    }
}

/// What one participant's 7th edition roll produced: some sequence of
/// percentile values sharing one fixed tens digit (a roll of 100 counts as
/// tens digit zero), one per die with its own ones digit, whose selected
/// value was classified and rendered as stated.
pub open spec fn op7_roll_witness(
    vs: Seq<i32>,
    bonus: int,
    status: i32,
    text: Seq<char>,
    outcome: RollOutcome,
) -> bool {
    &&& vs.len() == 1 + abs_bonus(bonus)
    &&& forall|i: int| 0 <= i < vs.len() ==> 1 <= #[trigger] vs[i] <= 100
    &&& forall|i: int| 0 <= i < vs.len() ==> (#[trigger] vs[i]) % 100 / 10 == vs[0] % 100 / 10
    &&& outcome == spec_classify_op7(spec_op7_select(vs, bonus), status)
    &&& text == spec_op7_text(vs, bonus, status)
}

pub open spec fn abs_bonus(b: int) -> int {
    if b >= 0 {
        b
    } else {
        -b
    }
}

/// Joins rolled values with `, `.
fn ints_join(vs: &Vec<i32>) -> (r: String)
    ensures
        r@ == ints_items(vs@),
{
    proof {
        reveal_strlit(", ");
    }
    let mut out = String::new();
    let n = vs.len();
    let mut i: usize = 0;
    while i < n
        invariant
            n == vs@.len(),
            i <= n,
            out@ == ints_items(vs@.take(i as int)),
            ", "@ == seq![',', ' '],
        decreases n - i,
    {
        if i > 0 {
            out.append(", ");
        }
        let v = i64_to_string(vs[i] as i64);
        out.append(v.as_str());
        proof {
            assert(vs@.take(i + 1 as int).drop_last() =~= vs@.take(i as int));
            assert(vs@.take(i + 1 as int).last() == vs@[i as int]);
            if i == 0 {
                assert(out@ =~= ints_items(vs@.take(1int)));
            } else {
                assert(out@ =~= ints_items(vs@.take(i + 1 as int)));
            }
        }
        i += 1;
    }
    proof {
        assert(vs@.take(n as int) =~= vs@);
    }
    out
}

/// Rolls one participant's dice for a 7th edition opposed roll: `1 + |bonus|`
/// percentile values sharing a single fixed tens digit with an independent
/// ones digit per die, selects per the bonus sign, classifies against the
/// participant's status and renders the display line.
pub fn op7_roll(status: i32, bonus: i32) -> (r: (String, RollOutcome))
    requires
        bonus > i32::MIN,
    ensures
        exists|vs: Seq<i32>| op7_roll_witness(vs, bonus as int, status, r.0@, r.1),
{
    let count: usize = 1 + (if bonus >= 0 {
        bonus as usize
    } else {
        (-(bonus as i64)) as usize
    });
    let tens = rand_range_i32(0, 9);
    let mut values: Vec<i32> = Vec::new();
    let mut k: usize = 0;
    while k < count
        invariant
            0 <= tens <= 9,
            k <= count,
            values@.len() == k,
            forall|i: int| 0 <= i < k ==> 1 <= #[trigger] values@[i] <= 100,
            forall|i: int| 0 <= i < k ==> (#[trigger] values@[i]) % 100 / 10 == tens,
        decreases count - k,
    {
        let ones = rand_range_i32(0, 9);
        let raw = tens * 10 + ones;
        let v: i32 = if raw == 0 {
            100
        } else {
            raw
        };
        proof {
            if raw == 0 {
                assert(tens == 0) by (nonlinear_arith)
                    requires
                        tens * 10 + ones == 0,
                        0 <= ones <= 9,
                        0 <= tens <= 9,
                ;
                assert(100int % 100 == 0);
                assert(0int / 10 == 0);
            } else {
                assert(1 <= raw <= 99) by (nonlinear_arith)
                    requires
                        raw == tens * 10 + ones,
                        raw != 0,
                        0 <= ones <= 9,
                        0 <= tens <= 9,
                ;
                assert(raw % 100 == raw);
                assert(raw / 10 == tens) by (nonlinear_arith)
                    requires
                        raw == tens * 10 + ones,
                        0 <= ones <= 9,
                        0 <= tens <= 9,
                ;
            }
        }
        values.push(v);
        k += 1;
    }

    let mut sel: i32 = values[0];
    if bonus > 0 {
        let mut i: usize = 1;
        while i < count
            invariant
                count == values@.len(),
                1 <= i <= count,
                sel as int == seq_min_i32(values@.take(i as int)),
            decreases count - i,
        {
            proof {
                assert(values@.take(i + 1 as int).drop_last() =~= values@.take(i as int));
                assert(values@.take(i + 1 as int).last() == values@[i as int]);
            }
            if values[i] < sel {
                sel = values[i];
            }
            i += 1;
        }
        proof {
            assert(values@.take(count as int) =~= values@);
        }
    } else if bonus < 0 {
        let mut i: usize = 1;
        while i < count
            invariant
                count == values@.len(),
                1 <= i <= count,
                sel as int == seq_max_i32(values@.take(i as int)),
            decreases count - i,
        {
            proof {
                assert(values@.take(i + 1 as int).drop_last() =~= values@.take(i as int));
                assert(values@.take(i + 1 as int).last() == values@[i as int]);
            }
            if values[i] > sel {
                sel = values[i];
            }
            i += 1;
        }
        proof {
            assert(values@.take(count as int) =~= values@);
        }
    } else {
        proof {
            assert(values@.take(1int)[0] == values@[0]);
        }
    }

    let sel_text: String = if bonus == 0 {
        i64_to_string(sel as i64)
    } else if bonus > 0 {
        proof {
            reveal_strlit("min([");
            reveal_strlit("]) = ");
        }
        let mut t = "min([".to_owned();
        let items = ints_join(&values);
        t.append(items.as_str());
        t.append("]) = ");
        let s = i64_to_string(sel as i64);
        t.append(s.as_str());
        t
    } else {
        proof {
            reveal_strlit("max([");
            reveal_strlit("]) = ");
        }
        let mut t = "max([".to_owned();
        let items = ints_join(&values);
        t.append(items.as_str());
        t.append("]) = ");
        let s = i64_to_string(sel as i64);
        t.append(s.as_str());
        t
    };
    proof {
        assert(sel_text@ =~= spec_op7_sel_text(values@, bonus as int));
    }

    let outcome = classify_op7(sel, status);
    let status_text = i64_to_string(status as i64);
    let text: String = match outcome {
        RollOutcome::ExtremeSuccess(_) => {
            proof {
                reveal_strlit(":trophy: ");
                reveal_strlit(" <= ");
                reveal_strlit(" / 5");
            }
            let mut t = ":trophy: ".to_owned();
            t.append(sel_text.as_str());
            t.append(" <= ");
            t.append(status_text.as_str());
            t.append(" / 5");
            t
        },
        RollOutcome::HardSuccess(_) => {
            proof {
                reveal_strlit(":star: ");
                reveal_strlit(" <= ");
                reveal_strlit(" / 2");
            }
            let mut t = ":star: ".to_owned();
            t.append(sel_text.as_str());
            t.append(" <= ");
            t.append(status_text.as_str());
            t.append(" / 2");
            t
        },
        RollOutcome::Success(_) => {
            proof {
                reveal_strlit(":o: ");
                reveal_strlit(" <= ");
            }
            let mut t = ":o: ".to_owned();
            t.append(sel_text.as_str());
            t.append(" <= ");
            t.append(status_text.as_str());
            t
        },
        RollOutcome::Failure(_) => {
            proof {
                reveal_strlit(":x: ");
                reveal_strlit(" > ");
            }
            let mut t = ":x: ".to_owned();
            t.append(sel_text.as_str());
            t.append(" > ");
            t.append(status_text.as_str());
            t
        },
    };
    proof {
        assert(text@ =~= spec_op7_text(values@, bonus as int, status));
    }
    let result = (text, outcome);
    proof {
        assert(op7_roll_witness(values@, bonus as int, status, result.0@, result.1));
    }
    result
}

/// The most tie-break attempts made before the contest is given up as a
/// permanent tie (and decided against participant 1).
pub const TIE_BREAK_CAP: usize = 1000000;

/// Breaks an exact tie by repeated percentile roll-offs, lower value wins:
/// every pair but the last is a tie, and the verdict is whether the last
/// pair fell strictly in participant 1's favour.
pub fn tie_break_rolls() -> (r: (Vec<(i32, i32)>, bool))
    ensures
        1 <= r.0@.len() <= TIE_BREAK_CAP,
        forall|i: int| 0 <= i < r.0@.len() - 1 ==> (#[trigger] r.0@[i]).0 == r.0@[i].1,
        forall|i: int|
            0 <= i < r.0@.len() ==> 1 <= (#[trigger] r.0@[i]).0 <= 100 && 1 <= r.0@[i].1 <= 100,
        r.1 == (r.0@.last().0 < r.0@.last().1),
        r.0@.len() < TIE_BREAK_CAP ==> r.0@.last().0 != r.0@.last().1,
{
    let mut pairs: Vec<(i32, i32)> = Vec::new();
    let mut tries: usize = 0;
    while tries < TIE_BREAK_CAP
        invariant
            tries <= TIE_BREAK_CAP,
            pairs@.len() == tries,
            forall|i: int| 0 <= i < tries ==> (#[trigger] pairs@[i]).0 == pairs@[i].1,
            forall|i: int|
                0 <= i < tries ==> 1 <= (#[trigger] pairs@[i]).0 <= 100 && 1 <= pairs@[i].1
                    <= 100,
        decreases TIE_BREAK_CAP - tries,
    {
        let a = rand_range_i32(1, 100);
        let b = rand_range_i32(1, 100);
        pairs.push((a, b));
        if a != b {
            let won = a < b;
            return (pairs, won);
        }
        tries += 1;
    }
    (pairs, false)
}


/// The invocation shape the 6th edition opposed command relies on.
pub open spec fn op6_input_ok(opts: Seq<CommandOption>) -> bool {
    &&& find_option(opts, "status1"@) matches Some(OptionValue::Int(_))
    &&& find_option(opts, "status2"@) matches Some(OptionValue::Int(_))
    &&& !(find_option(opts, "name1"@) matches Some(OptionValue::Int(_)))
    &&& !(find_option(opts, "name2"@) matches Some(OptionValue::Int(_)))
    &&& !(find_option(opts, "comment"@) matches Some(OptionValue::Int(_)))
}

/// The reply a 6th edition opposed roll produces: the winner's line first,
/// each line showing that participant's status and the comparison of the
/// single percentile roll with the chance.
pub open spec fn op6_reply_matches(
    reply: Reply,
    s1: int,
    s2: int,
    n1: Seq<char>,
    n2: Seq<char>,
    comment: Seq<char>,
    roll: int,
) -> bool {
    let chance = spec_op6_chance(s1, s2);
    let won = roll <= chance;
    let t1 = int_digits(s1) + " ("@ + int_digits(roll) + " <= "@ + int_digits(chance) + ")?"@;
    let t2 = int_digits(s2) + " ("@ + int_digits(roll) + " > "@ + int_digits(chance) + ")?"@;
    &&& reply.title@ == comment
    &&& reply.fields@.len() == 2
    &&& reply.fields@[0].name@ == ":first_place: "@ + (if won { n1 } else { n2 })
    &&& reply.fields@[0].value@ == (if won { t1 } else { t2 })
    &&& reply.fields@[0].inline == false
    &&& reply.fields@[1].name@ == ":second_place: "@ + (if won { n2 } else { n1 })
    &&& reply.fields@[1].value@ == (if won { t2 } else { t1 })
    &&& reply.fields@[1].inline == false
    &&& reply.color is None
}

/// What executing the 6th edition opposed command guarantees: statuses
/// outside 0..=20 are rejected with the exact message; otherwise one
/// percentile roll against the chance formula decides, winner named first.
pub open spec fn op6_execute_ensures(inv: Invocation, r: Result<CommandStatus, StoreError>) -> bool {
    let s1 = int_option_value(inv.options@, "status1"@);
    let s2 = int_option_value(inv.options@, "status2"@);
    if s1 < 0 || s1 > 20 || s2 < 0 || s2 > 20 {
        r matches Ok(CommandStatus::Refused(m)) && m@ == "A status must be 0-20."@
    } else {
        r matches Ok(CommandStatus::Replied(reply)) && exists|roll: int|
            1 <= roll <= 100 && op6_reply_matches(
                reply,
                s1,
                s2,
                str_option_or(inv.options@, "name1"@, "player1"@),
                str_option_or(inv.options@, "name2"@, "player2"@),
                str_option_or(inv.options@, "comment"@, "A competition"@),
                roll,
            )
    }
}

/// Renders one participant's 6th edition line: `{status} ({roll} {op} {chance})?`.
fn op6_line(status: i32, roll: i32, op: &str, chance: i32) -> (r: String)
    ensures
        r@ == int_digits(status as int) + " ("@ + int_digits(roll as int) + op@ + int_digits(
            chance as int,
        ) + ")?"@,
{
    proof {
        reveal_strlit(" (");
        reveal_strlit(")?");
    }
    let mut out = i64_to_string(status as i64);
    out.append(" (");
    let roll_text = i64_to_string(roll as i64);
    out.append(roll_text.as_str());
    out.append(op);
    let chance_text = i64_to_string(chance as i64);
    out.append(chance_text.as_str());
    out.append(")?");
    proof {
        assert(out@ =~= int_digits(status as int) + " ("@ + int_digits(roll as int) + op@
            + int_digits(chance as int) + ")?"@);
    }
    out
}

impl Op6Command {
    pub fn create(&self) -> (r: CommandDescriptor)
        ensures
            r.name@ == "op6"@,
            !r.use_db,
            r.description_ja is Some,
            r.options@.len() == 5,
            r.options@[0].name@ == "status1"@,
            r.options@[0].kind == OptionKind::OptInteger,
            r.options@[0].required,
            r.options@[1].name@ == "status2"@,
            r.options@[1].kind == OptionKind::OptInteger,
            r.options@[1].required,
            r.options@[2].name@ == "name1"@,
            r.options@[2].kind == OptionKind::OptString,
            !r.options@[2].required,
            r.options@[3].name@ == "name2"@,
            r.options@[3].kind == OptionKind::OptString,
            !r.options@[3].required,
            r.options@[4].name@ == "comment"@,
            r.options@[4].kind == OptionKind::OptString,
            !r.options@[4].required,
    {
        let mut opts: Vec<OptionSpec> = Vec::new();
        opts.push(
            OptionSpec {
                name: "status1".to_owned(),
                description: "A status of player1 (ex. STR for a strength opposed roll.)".to_owned(),
                kind: OptionKind::OptInteger,
                required: true,
                choices: Vec::new(),
                name_ja: Some("参加者1".to_owned()),
                description_ja: Some("参加者1のステータス (例: STR対抗ならSTR.)".to_owned()),
            },
        );
        opts.push(
            OptionSpec {
                name: "status2".to_owned(),
                description: "A status of player2 (ex. DEX for a dexterity opposed roll.)".to_owned(),
                kind: OptionKind::OptInteger,
                required: true,
                choices: Vec::new(),
                name_ja: Some("参加者2".to_owned()),
                description_ja: Some("参加者2のステータス (例: DEX対抗ならDEX.)".to_owned()),
            },
        );
        opts.push(
            OptionSpec {
                name: "name1".to_owned(),
                description: "A name of player1".to_owned(),
                kind: OptionKind::OptString,
                required: false,
                choices: Vec::new(),
                name_ja: Some("名前1".to_owned()),
                description_ja: Some("参加者1の名前".to_owned()),
            },
        );
        opts.push(
            OptionSpec {
                name: "name2".to_owned(),
                description: "A name of player2".to_owned(),
                kind: OptionKind::OptString,
                required: false,
                choices: Vec::new(),
                name_ja: Some("名前2".to_owned()),
                description_ja: Some("参加者2の名前".to_owned()),
            },
        );
        opts.push(
            OptionSpec {
                name: "comment".to_owned(),
                description: "A comment for the roll".to_owned(),
                kind: OptionKind::OptString,
                required: false,
                choices: Vec::new(),
                name_ja: Some("コメント".to_owned()),
                description_ja: Some("ダイスの説明".to_owned()),
            },
        );
        CommandDescriptor {
            name: "op6".to_owned(),
            description: "Does an opposed roll following the Call of Cthulhu 6th Edition.".to_owned(),
            description_ja: Some("第6版のルールに基づいて対抗ロールをします.".to_owned()),
            options: opts,
            use_db: false,
        }
    }

    pub fn name(&self) -> (r: &'static str)
        ensures
            r@ == "op6"@,
    {
        "op6"
    }

    pub fn use_db(&self) -> (r: bool)
        ensures
            !r,
    {
        false
    }

    /// Runs the 6th edition two-participant contest: one percentile roll
    /// against the clamped chance decides in favour of participant 1.
    pub fn execute(&self, interaction: &Invocation) -> (r: Result<CommandStatus, StoreError>)
        requires
            op6_input_ok(interaction.options@),
        ensures
            op6_execute_ensures(*interaction, r),
    {
        let status1 = match interaction.get_int_option("status1".to_owned()) {
            Some(v) => v,
            None => unreached(),
        };
        let status2 = match interaction.get_int_option("status2".to_owned()) {
            Some(v) => v,
            None => unreached(),
        };

        if status1 < 0 || status1 > 20 || status2 < 0 || status2 > 20 {
            return Ok(CommandStatus::Refused("A status must be 0-20.".to_owned()));
        }

        let name1: &str = match interaction.get_string_option("name1".to_owned()) {
            Some(s) => s,
            None => "player1",
        };
        let name2: &str = match interaction.get_string_option("name2".to_owned()) {
            Some(s) => s,
            None => "player2",
        };
        let comment: &str = match interaction.get_string_option("comment".to_owned()) {
            Some(s) => s,
            None => "A competition",
        };

        let chance = op6_chance(status1, status2);
        let roll = rand_range_i32(1, 100);
        let player1_won = op6_player1_wins(status1, status2, roll);

        let player1_text = op6_line(status1, roll, " <= ", chance);
        let player2_text = op6_line(status2, roll, " > ", chance);

        let mut first_name = ":first_place: ".to_owned();
        first_name.append(if player1_won { name1 } else { name2 });
        let mut second_name = ":second_place: ".to_owned();
        second_name.append(if player1_won { name2 } else { name1 });

        let mut fields: Vec<ReplyField> = Vec::new();
        fields.push(
            ReplyField {
                name: first_name,
                value: if player1_won { player1_text.clone() } else { player2_text.clone() },
                inline: false,
            },
        );
        fields.push(
            ReplyField {
                name: second_name,
                value: if player1_won { player2_text } else { player1_text },
                inline: false,
            },
        );
        let reply = Reply { title: comment.to_owned(), fields, color: None };
        proof {
            let n1 = str_option_or(interaction.options@, "name1"@, "player1"@);
            let n2 = str_option_or(interaction.options@, "name2"@, "player2"@);
            assert(reply.fields@[0].name@ =~= ":first_place: "@ + (if player1_won { n1 } else {
                n2
            }));
            assert(reply.fields@[1].name@ =~= ":second_place: "@ + (if player1_won { n2 } else {
                n1
            }));
            assert(op6_reply_matches(
                reply,
                status1 as int,
                status2 as int,
                n1,
                n2,
                str_option_or(interaction.options@, "comment"@, "A competition"@),
                roll as int,
            ));
        }
        let r_value: Result<CommandStatus, StoreError> = Ok(CommandStatus::Replied(reply));
        proof {
            assert(int_option_value(interaction.options@, "status1"@) == status1 as int);
            assert(int_option_value(interaction.options@, "status2"@) == status2 as int);
            assert(r_value matches Ok(CommandStatus::Replied(rep)) && op6_reply_matches(
                rep,
                int_option_value(interaction.options@, "status1"@),
                int_option_value(interaction.options@, "status2"@),
                str_option_or(interaction.options@, "name1"@, "player1"@),
                str_option_or(interaction.options@, "name2"@, "player2"@),
                str_option_or(interaction.options@, "comment"@, "A competition"@),
                roll as int,
            ));
        }
        r_value
    }
}

/// The invocation shape the 7th edition opposed command relies on; the bonus
/// magnitudes must be negatable.
pub open spec fn op7_input_ok(opts: Seq<CommandOption>) -> bool {
    &&& find_option(opts, "status1"@) matches Some(OptionValue::Int(_))
    &&& find_option(opts, "status2"@) matches Some(OptionValue::Int(_))
    &&& !(find_option(opts, "bonus1"@) matches Some(OptionValue::Str(_)))
    &&& !(find_option(opts, "bonus2"@) matches Some(OptionValue::Str(_)))
    &&& int_option_value(opts, "bonus1"@) > i32::MIN
    &&& int_option_value(opts, "bonus2"@) > i32::MIN
    &&& !(find_option(opts, "name1"@) matches Some(OptionValue::Int(_)))
    &&& !(find_option(opts, "name2"@) matches Some(OptionValue::Int(_)))
    &&& !(find_option(opts, "comment"@) matches Some(OptionValue::Int(_)))
}

/// A participant's line after tie-break roll-offs are appended.
pub open spec fn with_tie_text(t: Seq<char>, rolls: Seq<i32>) -> Seq<char>
    decreases rolls.len(),
{
    if rolls.len() == 0 {
        t
    } else {
        with_tie_text(t, rolls.drop_last()) + ", "@ + int_digits(rolls.last() as int)
    }
}

/// What a whole 7th edition contest produced: each participant's witnessed
/// roll, the tie-break pairs (empty unless the outcomes were exactly equal),
/// the verdict, and the reply naming the winner first.
pub open spec fn op7_contest_witness(
    reply: Reply,
    s1: i32,
    s2: i32,
    b1: int,
    b2: int,
    n1: Seq<char>,
    n2: Seq<char>,
    comment: Seq<char>,
    vs1: Seq<i32>,
    vs2: Seq<i32>,
    t1: Seq<char>,
    t2: Seq<char>,
    o1: RollOutcome,
    o2: RollOutcome,
    pairs: Seq<(i32, i32)>,
    won: bool,
) -> bool {
    let ft1 = with_tie_text(t1, pairs.map_values(|p: (i32, i32)| p.0));
    let ft2 = with_tie_text(t2, pairs.map_values(|p: (i32, i32)| p.1));
    &&& op7_roll_witness(vs1, b1, s1, t1, o1)
    &&& op7_roll_witness(vs2, b2, s2, t2, o2)
    &&& if o1 == o2 {
        &&& pairs.len() >= 1
        &&& forall|i: int| 0 <= i < pairs.len() - 1 ==> (#[trigger] pairs[i]).0 == pairs[i].1
        &&& won == (pairs.last().0 < pairs.last().1)
    } else {
        &&& pairs.len() == 0
        &&& won == (spec_outcome_cmp(o1, o2) == Ordering::Greater)
    }
    &&& reply.title@ == comment
    &&& reply.fields@.len() == 2
    &&& reply.fields@[0].name@ == ":first_place: "@ + (if won { n1 } else { n2 })
    &&& reply.fields@[0].value@ == (if won { ft1 } else { ft2 })
    &&& reply.fields@[0].inline == false
    &&& reply.fields@[1].name@ == ":second_place: "@ + (if won { n2 } else { n1 })
    &&& reply.fields@[1].value@ == (if won { ft2 } else { ft1 })
    &&& reply.fields@[1].inline == false
    &&& reply.color is None
}

/// What executing the 7th edition opposed command guarantees.
pub open spec fn op7_execute_ensures(inv: Invocation, r: Result<CommandStatus, StoreError>) -> bool {
    r matches Ok(CommandStatus::Replied(reply)) && exists|
        vs1: Seq<i32>,
        vs2: Seq<i32>,
        t1: Seq<char>,
        t2: Seq<char>,
        o1: RollOutcome,
        o2: RollOutcome,
        pairs: Seq<(i32, i32)>,
        won: bool,
    |
        #[trigger] op7_contest_witness(
            reply,
            int_option_value(inv.options@, "status1"@) as i32,
            int_option_value(inv.options@, "status2"@) as i32,
            int_option_value(inv.options@, "bonus1"@),
            int_option_value(inv.options@, "bonus2"@),
            str_option_or(inv.options@, "name1"@, "player1"@),
            str_option_or(inv.options@, "name2"@, "player2"@),
            str_option_or(inv.options@, "comment"@, "A competition"@),
            vs1,
            vs2,
            t1,
            t2,
            o1,
            o2,
            pairs,
            won,
        )
}

impl Op7Command {
    pub fn create(&self) -> (r: CommandDescriptor)
        ensures
            r.name@ == "op7"@,
            !r.use_db,
            r.description_ja is Some,
            r.options@.len() == 7,
            r.options@[0].name@ == "status1"@,
            r.options@[0].kind == OptionKind::OptInteger,
            r.options@[0].required,
            r.options@[1].name@ == "status2"@,
            r.options@[1].kind == OptionKind::OptInteger,
            r.options@[1].required,
            r.options@[2].name@ == "bonus1"@,
            r.options@[2].kind == OptionKind::OptInteger,
            !r.options@[2].required,
            r.options@[3].name@ == "bonus2"@,
            r.options@[3].kind == OptionKind::OptInteger,
            !r.options@[3].required,
            r.options@[4].name@ == "name1"@,
            r.options@[4].kind == OptionKind::OptString,
            !r.options@[4].required,
            r.options@[5].name@ == "name2"@,
            r.options@[5].kind == OptionKind::OptString,
            !r.options@[5].required,
            r.options@[6].name@ == "comment"@,
            r.options@[6].kind == OptionKind::OptString,
            !r.options@[6].required,
    {
        let mut opts: Vec<OptionSpec> = Vec::new();
        opts.push(
            OptionSpec {
                name: "status1".to_owned(),
                description: "A status of player1 (ex. STR for a strength opposed roll.)".to_owned(),
                kind: OptionKind::OptInteger,
                required: true,
                choices: Vec::new(),
                name_ja: Some("参加者1".to_owned()),
                description_ja: Some("参加者1のステータス (例: STR対抗ならSTR.)".to_owned()),
            },
        );
        opts.push(
            OptionSpec {
                name: "status2".to_owned(),
                description: "A status of player2 (ex. DEX for a dexterity opposed roll.)".to_owned(),
                kind: OptionKind::OptInteger,
                required: true,
                choices: Vec::new(),
                name_ja: Some("参加者2".to_owned()),
                description_ja: Some("参加者2のステータス (例: DEX対抗ならDEX.)".to_owned()),
            },
        );
        opts.push(
            OptionSpec {
                name: "bonus1".to_owned(),
                description: "A bonus or penalty dice for player1. (ex. +1 for bonus, -1 for penalty)".to_owned(),
                kind: OptionKind::OptInteger,
                required: false,
                choices: Vec::new(),
                name_ja: Some("ボーナス1".to_owned()),
                description_ja: Some(
                    "参加者1へのボーナスダイスまたはペナルティダイス (例: +1ならボーナス, -1ならペナルティ)".to_owned(),
                ),
            },
        );
        opts.push(
            OptionSpec {
                name: "bonus2".to_owned(),
                description: "A bonus or penalty dice for player2. (ex. +1 for bonus, -1 for penalty)".to_owned(),
                kind: OptionKind::OptInteger,
                required: false,
                choices: Vec::new(),
                name_ja: Some("ボーナス2".to_owned()),
                description_ja: Some(
                    "参加者2へのボーナスダイスまたはペナルティダイス (例: +1ならボーナス, -1ならペナルティ)".to_owned(),
                ),
            },
        );
        opts.push(
            OptionSpec {
                name: "name1".to_owned(),
                description: "A name of player1".to_owned(),
                kind: OptionKind::OptString,
                required: false,
                choices: Vec::new(),
                name_ja: Some("名前1".to_owned()),
                description_ja: Some("参加者1の名前".to_owned()),
            },
        );
        opts.push(
            OptionSpec {
                name: "name2".to_owned(),
                description: "A name of player2".to_owned(),
                kind: OptionKind::OptString,
                required: false,
                choices: Vec::new(),
                name_ja: Some("名前2".to_owned()),
                description_ja: Some("参加者2の名前".to_owned()),
            },
        );
        opts.push(
            OptionSpec {
                name: "comment".to_owned(),
                description: "A comment for the roll".to_owned(),
                kind: OptionKind::OptString,
                required: false,
                choices: Vec::new(),
                name_ja: Some("コメント".to_owned()),
                description_ja: Some("ダイスの説明".to_owned()),
            },
        );
        CommandDescriptor {
            name: "op7".to_owned(),
            description: "Does an opposed roll following the Call of Cthulhu 7th Edition.".to_owned(),
            description_ja: Some("第7版のルールに基づいて対抗ロールをします.".to_owned()),
            options: opts,
            use_db: false,
        }
    }

    pub fn name(&self) -> (r: &'static str)
        ensures
            r@ == "op7"@,
    {
        "op7"
    }

    pub fn use_db(&self) -> (r: bool)
        ensures
            !r,
    {
        false
    }

    /// Runs the 7th edition two-participant contest with bonus/penalty dice;
    /// the better outcome wins and an exact tie goes to repeated roll-offs.
    pub fn execute(&self, interaction: &Invocation) -> (r: Result<CommandStatus, StoreError>)
        requires
            op7_input_ok(interaction.options@),
        ensures
            op7_execute_ensures(*interaction, r),
    {
        let status1 = match interaction.get_int_option("status1".to_owned()) {
            Some(v) => v,
            None => unreached(),
        };
        let status2 = match interaction.get_int_option("status2".to_owned()) {
            Some(v) => v,
            None => unreached(),
        };
        let bonus1 = match interaction.get_int_option("bonus1".to_owned()) {
            Some(v) => v,
            None => 0,
        };
        let bonus2 = match interaction.get_int_option("bonus2".to_owned()) {
            Some(v) => v,
            None => 0,
        };
        let name1: &str = match interaction.get_string_option("name1".to_owned()) {
            Some(s) => s,
            None => "player1",
        };
        let name2: &str = match interaction.get_string_option("name2".to_owned()) {
            Some(s) => s,
            None => "player2",
        };
        let comment: &str = match interaction.get_string_option("comment".to_owned()) {
            Some(s) => s,
            None => "A competition",
        };

        let (mut text1, result1) = op7_roll(status1, bonus1);
        let (mut text2, result2) = op7_roll(status2, bonus2);
        let ghost vs1 = choose|vs: Seq<i32>|
            op7_roll_witness(vs, bonus1 as int, status1, text1@, result1);
        let ghost vs2 = choose|vs: Seq<i32>|
            op7_roll_witness(vs, bonus2 as int, status2, text2@, result2);
        let ghost base1 = text1@;
        let ghost base2 = text2@;

        let mut player1_won = result1 > result2;
        let mut tie_pairs: Vec<(i32, i32)> = Vec::new();
        if result1 == result2 {
            let (pairs, won) = tie_break_rolls();
            player1_won = won;
            let n = pairs.len();
            let mut k: usize = 0;
            proof {
                reveal_strlit(", ");
            }
            while k < n
                invariant
                    n == pairs@.len(),
                    k <= n,
                    ", "@ == seq![',', ' '],
                    text1@ == with_tie_text(base1, pairs@.take(k as int).map_values(|p: (i32, i32)| p.0)),
                    text2@ == with_tie_text(base2, pairs@.take(k as int).map_values(|p: (i32, i32)| p.1)),
                decreases n - k,
            {
                text1.append(", ");
                let a_text = i64_to_string(pairs[k].0 as i64);
                text1.append(a_text.as_str());
                text2.append(", ");
                let b_text = i64_to_string(pairs[k].1 as i64);
                text2.append(b_text.as_str());
                proof {
                    let firsts = pairs@.take(k + 1 as int).map_values(|p: (i32, i32)| p.0);
                    let seconds = pairs@.take(k + 1 as int).map_values(|p: (i32, i32)| p.1);
                    assert(firsts.drop_last() =~= pairs@.take(k as int).map_values(
                        |p: (i32, i32)| p.0,
                    ));
                    assert(seconds.drop_last() =~= pairs@.take(k as int).map_values(
                        |p: (i32, i32)| p.1,
                    ));
                    assert(firsts.last() == pairs@[k as int].0);
                    assert(seconds.last() == pairs@[k as int].1);
                }
                k += 1;
            }
            tie_pairs = pairs;
            proof {
                assert(tie_pairs@.take(n as int) =~= tie_pairs@);
                assert(tie_pairs@.take(n as int).map_values(|p: (i32, i32)| p.0)
                    =~= tie_pairs@.map_values(|p: (i32, i32)| p.0));
                assert(tie_pairs@.take(n as int).map_values(|p: (i32, i32)| p.1)
                    =~= tie_pairs@.map_values(|p: (i32, i32)| p.1));
            }
        } else {
            proof {
                assert(tie_pairs@.map_values(|p: (i32, i32)| p.0) =~= Seq::<i32>::empty());
                assert(tie_pairs@.map_values(|p: (i32, i32)| p.1) =~= Seq::<i32>::empty());
            }
        }

        let mut first_name = ":first_place: ".to_owned();
        first_name.append(if player1_won { name1 } else { name2 });
        let mut second_name = ":second_place: ".to_owned();
        second_name.append(if player1_won { name2 } else { name1 });

        let mut fields: Vec<ReplyField> = Vec::new();
        fields.push(
            ReplyField {
                name: first_name,
                value: if player1_won { text1.clone() } else { text2.clone() },
                inline: false,
            },
        );
        fields.push(
            ReplyField {
                name: second_name,
                value: if player1_won { text2 } else { text1 },
                inline: false,
            },
        );
        let reply = Reply { title: comment.to_owned(), fields, color: None };
        proof {
            let n1 = str_option_or(interaction.options@, "name1"@, "player1"@);
            let n2 = str_option_or(interaction.options@, "name2"@, "player2"@);
            assert(reply.fields@[0].name@ =~= ":first_place: "@ + (if player1_won { n1 } else {
                n2
            }));
            assert(reply.fields@[1].name@ =~= ":second_place: "@ + (if player1_won { n2 } else {
                n1
            }));
            assert(op7_contest_witness(
                reply,
                status1,
                status2,
                bonus1 as int,
                bonus2 as int,
                n1,
                n2,
                str_option_or(interaction.options@, "comment"@, "A competition"@),
                vs1,
                vs2,
                base1,
                base2,
                result1,
                result2,
                tie_pairs@,
                player1_won,
            ));
        }
        let r_value: Result<CommandStatus, StoreError> = Ok(CommandStatus::Replied(reply));
        proof {
            assert(int_option_value(interaction.options@, "status1"@) as i32 == status1);
            assert(int_option_value(interaction.options@, "status2"@) as i32 == status2);
            assert(int_option_value(interaction.options@, "bonus1"@) == bonus1 as int);
            assert(int_option_value(interaction.options@, "bonus2"@) == bonus2 as int);
            assert(r_value matches Ok(CommandStatus::Replied(rep)) && op7_contest_witness(
                rep,
                int_option_value(interaction.options@, "status1"@) as i32,
                int_option_value(interaction.options@, "status2"@) as i32,
                int_option_value(interaction.options@, "bonus1"@),
                int_option_value(interaction.options@, "bonus2"@),
                str_option_or(interaction.options@, "name1"@, "player1"@),
                str_option_or(interaction.options@, "name2"@, "player2"@),
                str_option_or(interaction.options@, "comment"@, "A competition"@),
                vs1,
                vs2,
                base1,
                base2,
                result1,
                result2,
                tie_pairs@,
                player1_won,
            ));
        }
        r_value
    }
}

} // verus!
