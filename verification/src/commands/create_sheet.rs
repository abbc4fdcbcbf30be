//! The character-sheet command: rolls a fixed ordered battery of eight named
//! attributes and replies with every result.

use vstd::prelude::*;
use vstd::string::StringExecFns;

use crate::commands::CommandDescriptor;
use crate::commands::CommandStatus;
use crate::commands::InteractionUtil;
use crate::commands::Invocation;
use crate::commands::Reply;
use crate::commands::ReplyField;
use crate::database::StoreError;
use crate::dice::dice_error_of;
use crate::dice::dice_shape;
use crate::dice::evaluate;
use crate::dice::roll_result_wf;
use crate::dice::spec_roll_string;
use crate::dice::term_matches;
use crate::dice::term_max;
use crate::dice::term_min;
use crate::dice::terms_max;
use crate::dice::terms_min;
use crate::dice::AsString;
use crate::dice::RollResult;
use crate::dice::RollTerm;
use crate::text::i64_to_string;
use crate::text::int_digits;

verus! {

/// A command that creates a character sheet.
pub struct CSCommand;

/// The number of attributes a character sheet holds.
pub const CS_ATTRIBUTES: usize = 8;

/// The display name of each attribute, in sheet order.
pub open spec fn cs_name(i: int) -> Seq<char> {
    if i == 0 {
        ":dagger: STR"@
    } else if i == 1 {
        ":umbrella: CON"@
    } else if i == 2 {
        ":heart: POW"@
    } else if i == 3 {
        ":dash: DEX"@
    } else if i == 4 {
        ":star: APP"@
    } else if i == 5 {
        ":elephant: SIZ"@
    } else if i == 6 {
        ":bulb: INT"@
    } else {
        ":books: EDU"@
    }
}

/// The roll expression of each attribute, in sheet order.
pub open spec fn cs_expr(i: int) -> Seq<char> {
    if i <= 4 {
        "3d6"@
    } else if i <= 6 {
        "2d6+6"@
    } else {
        "3d6+3"@
    }
}

/// The attribute name and roll expression at a sheet position.
fn cs_entry(i: usize) -> (r: (&'static str, &'static str))
    requires
        i < CS_ATTRIBUTES,
    ensures
        r.0@ == cs_name(i as int),
        r.1@ == cs_expr(i as int),
{
    if i == 0 {
        (":dagger: STR", "3d6")
    } else if i == 1 {
        (":umbrella: CON", "3d6")
    } else if i == 2 {
        (":heart: POW", "3d6")
    } else if i == 3 {
        (":dash: DEX", "3d6")
    } else if i == 4 {
        (":star: APP", "3d6")
    } else if i == 5 {
        (":elephant: SIZ", "2d6+6")
    } else if i == 6 {
        (":bulb: INT", "2d6+6")
    } else {
        (":books: EDU", "3d6+3")
    }
}

/// The term shape each attribute's expression denotes: `3d6` one dice term,
/// `2d6+6` and `3d6+3` a dice term followed by a flat modifier.
pub open spec fn cs_term_shape(i: int) -> Seq<(int, int)> {
    if i <= 4 {
        seq![(3int, 6int)]
    } else if i <= 6 {
        seq![(2int, 6int), (6int, 0int)]
    } else {
        seq![(3int, 6int), (3int, 0int)]
    }
}

/// The least total each attribute's expression allows (every die shows 1).
pub open spec fn cs_total_min(i: int) -> int {
    if i <= 4 {
        3
    } else if i <= 6 {
        8
    } else {
        6
    }
}

/// The greatest total each attribute's expression allows (every die shows 6).
pub open spec fn cs_total_max(i: int) -> int {
    if i <= 4 {
        18
    } else if i <= 6 {
        18
    } else {
        21
    }
}

/// The evaluator parses every attribute expression to exactly its battery
/// shape.
pub open spec fn cs_battery_ok() -> bool {
    forall|i: int|
        0 <= i < CS_ATTRIBUTES ==> #[trigger] dice_shape(cs_expr(i)) == Some(cs_term_shape(i))
}

/// One sheet field shows a well-formed evaluation of its attribute's
/// expression: the attribute name with the total, the breakdown, and the
/// total within the attribute's range.
pub open spec fn cs_field_matches(f: ReplyField, i: int) -> bool {
    exists|out: RollResult|
        {
            &&& #[trigger] roll_result_wf(out)
            &&& dice_shape(cs_expr(i)) matches Some(shape) && out.terms@.len() == shape.len()
                && forall|j: int|
                0 <= j < out.terms@.len() ==> term_matches(#[trigger] out.terms@[j], shape[j])
            &&& out.terms@.len() == cs_term_shape(i).len()
            &&& forall|j: int|
                0 <= j < out.terms@.len() ==> term_matches(
                    #[trigger] out.terms@[j],
                    cs_term_shape(i)[j],
                )
            &&& cs_total_min(i) <= out.total <= cs_total_max(i)
            &&& f.name@ == cs_name(i) + " "@ + int_digits(out.total as int)
            &&& f.value@ == spec_roll_string(out.terms@)
            &&& f.inline == true
        }
}

/// What executing the command guarantees: a reply with all eight attribute
/// fields in order, each total within its attribute's range, exactly when
/// the evaluator makes every attribute expression its battery shape; a
/// rejected expression surfaces as a user-facing error with the evaluator's
/// own text.
pub open spec fn cs_execute_ensures(inv: Invocation, r: Result<CommandStatus, StoreError>) -> bool {
    &&& r is Ok
    &&& (r matches Ok(CommandStatus::Replied(_)) <==> cs_battery_ok())
    &&& match r {
        Ok(CommandStatus::Replied(reply)) => {
            &&& reply.title@ == inv.nickname@ + "'s character"@
            &&& reply.fields@.len() == CS_ATTRIBUTES
            &&& forall|i: int|
                0 <= i < CS_ATTRIBUTES ==> cs_field_matches(#[trigger] reply.fields@[i], i)
            &&& reply.color is None
        },
        Ok(CommandStatus::Refused(m)) => exists|i: int|
            {
                &&& 0 <= i < CS_ATTRIBUTES
                &&& #[trigger] dice_shape(cs_expr(i)) != Some(cs_term_shape(i))
                &&& (dice_shape(cs_expr(i)) is None ==> m@ == dice_error_of(cs_expr(i)))
            },
        _ => false,
    }
}

/// Whether one evaluated term is a dice group with the given multiplier and
/// sides.
fn term_is_dice(t: &RollTerm, m: i32, s: u32) -> (r: bool)
    requires
        s != 0,
    ensures
        r == term_matches(*t, (m as int, s as int)),
{
    match t {
        RollTerm::Dice { multiplier, sides, .. } => *multiplier == m && *sides == s,
        _ => false,
    }
}

/// Whether one evaluated term is a flat modifier of the given value.
fn term_is_modifier(t: &RollTerm, m: i32) -> (r: bool)
    ensures
        r == term_matches(*t, (m as int, 0int)),
{
    match t {
        RollTerm::Modifier(v) => *v == m,
        _ => false,
    }
}

/// Whether the evaluated terms are exactly the attribute's battery shape.
fn terms_match_battery(terms: &Vec<RollTerm>, i: usize) -> (r: bool)
    requires
        i < CS_ATTRIBUTES,
    ensures
        r == (terms@.len() == cs_term_shape(i as int).len() && (forall|j: int|
            0 <= j < terms@.len() ==> term_matches(
                #[trigger] terms@[j],
                cs_term_shape(i as int)[j],
            ))),
{
    if i <= 4 {
        terms.len() == 1 && term_is_dice(&terms[0], 3, 6)
    } else if i <= 6 {
        terms.len() == 2 && term_is_dice(&terms[0], 2, 6) && term_is_modifier(&terms[1], 6)
    } else {
        terms.len() == 2 && term_is_dice(&terms[0], 3, 6) && term_is_modifier(&terms[1], 3)
    }
}

/// The total of a well-formed evaluation whose terms are an attribute's
/// battery shape lies within that attribute's range.
proof fn lemma_cs_total_range(out: RollResult, i: int)
    requires
        0 <= i < CS_ATTRIBUTES,
        out.terms@.len() == cs_term_shape(i).len(),
        forall|j: int|
            0 <= j < out.terms@.len() ==> term_matches(#[trigger] out.terms@[j], cs_term_shape(i)[j]),
        terms_min(out.terms@) <= out.total <= terms_max(out.terms@),
    ensures
        cs_total_min(i) <= out.total <= cs_total_max(i),
{
    let ts = out.terms@;
    let t0 = ts[0];
    assert(term_matches(t0, cs_term_shape(i)[0]));
    match t0 {
        RollTerm::Dice { multiplier, sides, .. } => {
            if i <= 6 && i > 4 {
                assert(multiplier == 2 && sides == 6);
                assert(multiplier * sides == 12) by (nonlinear_arith)
                    requires
                        multiplier == 2,
                        sides == 6,
                ;
            } else {
                assert(multiplier == 3 && sides == 6);
                assert(multiplier * sides == 18) by (nonlinear_arith)
                    requires
                        multiplier == 3,
                        sides == 6,
                ;
            }
        },
        RollTerm::Modifier(_) => {
            assert(false);
        },
    }
    if ts.len() == 1 {
        assert(ts.last() == t0);
        assert(ts.drop_last() =~= Seq::<RollTerm>::empty());
        assert(terms_min(Seq::<RollTerm>::empty()) == 0);
        assert(terms_max(Seq::<RollTerm>::empty()) == 0);
        assert(terms_min(ts) == term_min(t0));
        assert(terms_max(ts) == term_max(t0));
    } else {
        let t1 = ts[1];
        assert(term_matches(t1, cs_term_shape(i)[1]));
        assert(ts.last() == t1);
        let front = ts.drop_last();
        assert(front =~= seq![t0]);
        assert(front.last() == t0);
        assert(front.drop_last() =~= Seq::<RollTerm>::empty());
        assert(terms_min(Seq::<RollTerm>::empty()) == 0);
        assert(terms_max(Seq::<RollTerm>::empty()) == 0);
        assert(terms_min(front) == term_min(t0));
        assert(terms_max(front) == term_max(t0));
        assert(terms_min(ts) == terms_min(front) + term_min(t1));
        assert(terms_max(ts) == terms_max(front) + term_max(t1));
    }
}

impl CSCommand {
    pub fn create(&self) -> (r: CommandDescriptor)
        ensures
            r.name@ == "cs"@,
            !r.use_db,
            r.description_ja is Some,
            r.options@.len() == 0,
    {
        CommandDescriptor {
            name: "cs".to_owned(),
            description: "Creates a character sheet.".to_owned(),
            description_ja: Some("キャラクターシートを作成します.".to_owned()),
            options: Vec::new(),
            use_db: false,
        }
    }

    pub fn name(&self) -> (r: &'static str)
        ensures
            r@ == "cs"@,
    {
        "cs"
    }

    pub fn use_db(&self) -> (r: bool)
        ensures
            !r,
    {
        false
    }

    /// Rolls the eight attributes and replies with every result; each total
    /// is checked against its attribute's battery shape so the stated ranges
    /// hold of the reply.
    pub fn execute(&self, interaction: &Invocation) -> (r: Result<CommandStatus, StoreError>)
        ensures
            cs_execute_ensures(*interaction, r),
    {
        let mut fields: Vec<ReplyField> = Vec::new();
        let mut i: usize = 0;
        while i < CS_ATTRIBUTES
            invariant
                i <= CS_ATTRIBUTES,
                fields@.len() == i,
                forall|j: int| 0 <= j < i ==> cs_field_matches(#[trigger] fields@[j], j),
                forall|j: int|
                    0 <= j < i ==> #[trigger] dice_shape(cs_expr(j)) == Some(cs_term_shape(j)),
            decreases CS_ATTRIBUTES - i,
        {
            let (attr_name, expr) = cs_entry(i);
            proof {
                reveal_strlit("3d6");
                reveal_strlit("2d6+6");
                reveal_strlit("3d6+3");
            }
            match evaluate(expr) {
                Ok(result) => {
                    if !terms_match_battery(&result.terms, i) {
                        proof {
                            let shape = dice_shape(cs_expr(i as int)).unwrap();
                            if shape == cs_term_shape(i as int) {
                                assert(false);
                            }
                            assert(dice_shape(cs_expr(i as int)) != Some(cs_term_shape(i as int)));
                            assert(!cs_battery_ok());
                        }
                        return Ok(
                            CommandStatus::Refused(
                                "An attribute roll came back in an unexpected shape.".to_owned(),
                            ),
                        );
                    }
                    proof {
                        lemma_cs_total_range(result, i as int);
                        let shape = dice_shape(cs_expr(i as int)).unwrap();
                        assert forall|j: int| 0 <= j < shape.len() implies shape[j]
                            == cs_term_shape(i as int)[j] by {
                            let t = result.terms@[j];
                            assert(term_matches(t, shape[j]));
                            assert(term_matches(t, cs_term_shape(i as int)[j]));
                        }
                        assert(shape =~= cs_term_shape(i as int));
                    }
                    let mut name = attr_name.to_owned();
                    name.append(" ");
                    let total_text = i64_to_string(result.total);
                    name.append(total_text.as_str());
                    let value = result.as_string();
                    let field = ReplyField { name, value, inline: true };
                    proof {
                        assert(field.name@ =~= cs_name(i as int) + " "@ + int_digits(
                            result.total as int,
                        ));
                        assert(cs_field_matches(field, i as int));
                    }
                    fields.push(field);
                },
                Err(err) => {
                    proof {
                        assert(dice_shape(cs_expr(i as int)) is None);
                        assert(dice_shape(cs_expr(i as int)) != Some(cs_term_shape(i as int)));
                        assert(!cs_battery_ok());
                    }
                    return Ok(CommandStatus::Refused(err));
                },
            }
            i += 1;
        }

        let mut title = interaction.get_nickname();
        title.append("'s character");
        let reply = Reply { title, fields, color: None };
        proof {
            assert(reply.title@ =~= interaction.nickname@ + "'s character"@);
        }
        Ok(CommandStatus::Replied(reply))
    }
}

} // verus!
