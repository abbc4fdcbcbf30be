//! Per-user records of the legacy text mode: three one-byte status values
//! and up to five user-defined macro commands, persisted in a flat binary
//! format. A record is the user identifier as eight big-endian bytes, one
//! byte each of HP, SAN and MP, a macro count byte, and `name\x03value\x03`
//! for each macro — which is why the byte 0x03 may appear in neither field.

use vstd::prelude::*;
use vstd::arithmetic::div_mod::lemma_div_denominator;
use vstd::arithmetic::div_mod::lemma_fundamental_div_mod;
use vstd::string::StringSliceAdditionalSpecFns;
use vstd::string::StrSliceExecFns;
use vstd::utf8::encode_utf8;
use vstd::utf8::valid_utf8;

verus! {

/// One user-defined macro: a short name and the command line it expands to.
pub struct CommandDef {
    pub name: String,
    pub value: String,
}

/// One user's record: status values and the defined macros.
pub struct UserInfo {
    pub name: u64,
    pub hp: u8,
    pub san: u8,
    pub mp: u8,
    pub commands: Vec<CommandDef>,
}

/// The byte reserved as the field separator of the flat file format.
pub const FIELD_SEPARATOR: u8 = 3;

/// A macro's fields as the bytes the file holds.
pub open spec fn macro_fields(c: CommandDef) -> (Seq<u8>, Seq<u8>) {
    (encode_utf8(c.name@), encode_utf8(c.value@))
}

/// A macro that the file format can carry: neither field holds the separator
/// byte, and neither is longer than twenty bytes.
pub open spec fn macro_wf(c: CommandDef) -> bool {
    &&& forall|i: int|
        0 <= i < encode_utf8(c.name@).len() ==> #[trigger] encode_utf8(c.name@)[i] != 3u8
    &&& forall|i: int|
        0 <= i < encode_utf8(c.value@).len() ==> #[trigger] encode_utf8(c.value@)[i] != 3u8
    &&& encode_utf8(c.name@).len() <= 20
    &&& encode_utf8(c.value@).len() <= 20
}

/// A record the file format can carry: a count that fits its byte, and every
/// macro well formed.
pub open spec fn user_info_wf(info: UserInfo) -> bool {
    &&& info.commands@.len() <= 255
    &&& forall|i: int| 0 <= i < info.commands@.len() ==> macro_wf(#[trigger] info.commands@[i])
}

/// A 64-bit value as eight big-endian bytes.
pub open spec fn spec_u64_be(x: u64) -> Seq<u8> {
    seq![
        (x / 0x100000000000000) as u8,
        ((x / 0x1000000000000) % 256) as u8,
        ((x / 0x10000000000) % 256) as u8,
        ((x / 0x100000000) % 256) as u8,
        ((x / 0x1000000) % 256) as u8,
        ((x / 0x10000) % 256) as u8,
        ((x / 0x100) % 256) as u8,
        (x % 256) as u8,
    ]
}

/// The value eight big-endian bytes denote.
pub open spec fn spec_u64_of_be(b: Seq<u8>) -> int
    recommends
        b.len() == 8,
{
    b[0] * 0x100000000000000 + b[1] * 0x1000000000000 + b[2] * 0x10000000000 + b[3] * 0x100000000
        + b[4] * 0x1000000 + b[5] * 0x10000 + b[6] * 0x100 + b[7]
}

/// Reading back the eight big-endian bytes of a value yields the value.
pub proof fn lemma_u64_be_round(x: u64)
    ensures
        spec_u64_of_be(spec_u64_be(x)) == x,
{
    broadcast use lemma_fundamental_div_mod;

    lemma_div_denominator(x as int, 0x100, 0x100);
    lemma_div_denominator(x as int, 0x10000, 0x100);
    lemma_div_denominator(x as int, 0x1000000, 0x100);
    lemma_div_denominator(x as int, 0x100000000, 0x100);
    lemma_div_denominator(x as int, 0x10000000000, 0x100);
    lemma_div_denominator(x as int, 0x1000000000000, 0x100);
    assert(x / 0x100000000000000 < 256) by (nonlinear_arith);
}

/// One macro as the file holds it: each field followed by the separator.
pub open spec fn spec_entry_bytes(e: (Seq<u8>, Seq<u8>)) -> Seq<u8> {
    e.0 + seq![3u8] + e.1 + seq![3u8]
}

/// A run of macros as the file holds them, in order.
pub open spec fn spec_entries_bytes(es: Seq<(Seq<u8>, Seq<u8>)>) -> Seq<u8>
    decreases es.len(),
{
    if es.len() == 0 {
        Seq::empty()
    } else {
        spec_entry_bytes(es[0]) + spec_entries_bytes(es.drop_first())
    }
}

/// Appending one macro appends its bytes.
proof fn lemma_entries_bytes_push(es: Seq<(Seq<u8>, Seq<u8>)>, e: (Seq<u8>, Seq<u8>))
    ensures
        spec_entries_bytes(es.push(e)) == spec_entries_bytes(es) + spec_entry_bytes(e),
    decreases es.len(),
{
    if es.len() == 0 {
        reveal_with_fuel(spec_entries_bytes, 2);
        assert(es.push(e)[0] == e);
        assert(es.push(e).drop_first() =~= Seq::<(Seq<u8>, Seq<u8>)>::empty());
        assert(spec_entries_bytes(es.push(e).drop_first()) == Seq::<u8>::empty());
        assert(spec_entries_bytes(es.push(e)) == spec_entry_bytes(e) + Seq::<u8>::empty());
        assert(spec_entry_bytes(e) + Seq::<u8>::empty() =~= Seq::<u8>::empty() + spec_entry_bytes(
            e,
        ));
    } else {
        assert(es.push(e).drop_first() =~= es.drop_first().push(e));
        assert(es.push(e)[0] == es[0]);
        lemma_entries_bytes_push(es.drop_first(), e);
        assert(spec_entries_bytes(es.push(e)) == spec_entry_bytes(es[0]) + (spec_entries_bytes(
            es.drop_first(),
        ) + spec_entry_bytes(e)));
        assert(spec_entry_bytes(es[0]) + (spec_entries_bytes(es.drop_first()) + spec_entry_bytes(
            e,
        )) =~= (spec_entry_bytes(es[0]) + spec_entries_bytes(es.drop_first())) + spec_entry_bytes(
            e,
        ));
    }
}

/// The macros of a record, as byte fields.
pub open spec fn spec_macros(info: UserInfo) -> Seq<(Seq<u8>, Seq<u8>)> {
    info.commands@.map_values(|c: CommandDef| macro_fields(c))
}

/// A whole record as the file holds it.
pub open spec fn spec_user_info_bytes(info: UserInfo) -> Seq<u8> {
    spec_u64_be(info.name) + seq![info.hp, info.san, info.mp, info.commands@.len() as u8]
        + spec_entries_bytes(spec_macros(info))
}

impl UserInfo {
    /// A fresh record with all-zero status and no macros.
    pub fn new(name: u64) -> (r: Self)
        ensures
            r.name == name,
            r.hp == 0 && r.san == 0 && r.mp == 0,
            r.commands@.len() == 0,
    {
        UserInfo { name, hp: 0, san: 0, mp: 0, commands: Vec::new() }
    }

    /// Serializes the record into the flat file format.
    pub fn to_vec(&self) -> (r: Vec<u8>)
        ensures
            r@ == spec_user_info_bytes(*self),
    {
        let mut result: Vec<u8> = u64_be_bytes(self.name);
        result.push(self.hp);
        result.push(self.san);
        result.push(self.mp);
        result.push(#[verifier::truncate] (self.commands.len() as u8));
        let ghost header = result@;

        let n = self.commands.len();
        let mut i: usize = 0;
        while i < n
            invariant
                n == self.commands@.len(),
                i <= n,
                header == spec_u64_be(self.name) + seq![
                    self.hp,
                    self.san,
                    self.mp,
                    self.commands@.len() as u8,
                ],
                result@ == header + spec_entries_bytes(spec_macros(*self).take(i as int)),
            decreases n - i,
        {
            let mut nb = self.commands[i].name.as_str().as_bytes_vec();
            result.append(&mut nb);
            result.push(FIELD_SEPARATOR);
            let mut vb = self.commands[i].value.as_str().as_bytes_vec();
            result.append(&mut vb);
            result.push(FIELD_SEPARATOR);
            proof {
                assert(spec_macros(*self).take(i + 1 as int) =~= spec_macros(*self).take(
                    i as int,
                ).push(macro_fields(self.commands@[i as int])));
                lemma_entries_bytes_push(
                    spec_macros(*self).take(i as int),
                    macro_fields(self.commands@[i as int]),
                );
                assert(result@ =~= header + spec_entries_bytes(
                    spec_macros(*self).take(i + 1 as int),
                ));
            }
            i += 1;
        }
        proof {
            assert(spec_macros(*self).take(n as int) =~= spec_macros(*self));
        }
        result
    }
}


/// The first index at or after `i` holding the separator byte, or the length.
pub open spec fn find_sep(b: Seq<u8>, i: int) -> int
    recommends
        0 <= i <= b.len(),
    decreases b.len() - i,
{
    if i < 0 || i >= b.len() {
        b.len() as int
    } else if b[i] == 3u8 {
        i
    } else {
        find_sep(b, i + 1)
    }
}

/// If no separator stands in `i..j` and one stands at `j`, the scan from `i`
/// finds it at `j`.
proof fn lemma_find_sep_at(b: Seq<u8>, i: int, j: int)
    requires
        0 <= i <= j < b.len(),
        forall|k: int| i <= k < j ==> b[k] != 3u8,
        b[j] == 3u8,
    ensures
        find_sep(b, i) == j,
    decreases j - i,
{
    if i < j {
        lemma_find_sep_at(b, i + 1, j);
    }
}

/// What parsing `n` macro entries from position `i` yields: the fields of
/// each entry in order and the position after them, or nothing when the
/// input ends before the last separator.
pub open spec fn spec_parse_entries(b: Seq<u8>, i: int, n: int) -> Option<
    (Seq<(Seq<u8>, Seq<u8>)>, int),
>
    recommends
        0 <= i <= b.len(),
    decreases n,
{
    if n <= 0 {
        Some((Seq::empty(), i))
    } else {
        let k1 = find_sep(b, i);
        if k1 >= b.len() {
            None
        } else {
            let k2 = find_sep(b, k1 + 1);
            if k2 >= b.len() {
                None
            } else {
                match spec_parse_entries(b, k2 + 1, n - 1) {
                    Some((rest, end)) => Some(
                        (seq![(b.subrange(i, k1), b.subrange(k1 + 1, k2))] + rest, end),
                    ),
                    None => None,
                }
            }
        }
    }
}

/// Parsing entries never moves backwards nor past the end.
proof fn lemma_parse_entries_bounds(b: Seq<u8>, i: int, n: int)
    requires
        0 <= i <= b.len(),
        spec_parse_entries(b, i, n) is Some,
    ensures
        i <= spec_parse_entries(b, i, n).unwrap().1 <= b.len(),
    decreases n,
{
    if n <= 0 {
    } else {
        let k1 = find_sep(b, i);
        lemma_find_sep_bounds(b, i);
        lemma_find_sep_bounds(b, k1 + 1);
        let k2 = find_sep(b, k1 + 1);
        lemma_parse_entries_bounds(b, k2 + 1, n - 1);
    }
}

/// The separator scan stays within the sequence.
proof fn lemma_find_sep_bounds(b: Seq<u8>, i: int)
    requires
        0 <= i <= b.len(),
    ensures
        i <= find_sep(b, i) <= b.len(),
    decreases b.len() - i,
{
    if i < b.len() && b[i] != 3u8 {
        lemma_find_sep_bounds(b, i + 1);
    }
}

/// What parsing one whole record from position `i` yields: the user
/// identifier, the three status bytes, the macro fields, and the position
/// after the record.
pub open spec fn spec_parse_record(b: Seq<u8>, i: int) -> Option<
    ((int, u8, u8, u8, Seq<(Seq<u8>, Seq<u8>)>), int),
> {
    if i < 0 || i + 12 > b.len() {
        None
    } else {
        match spec_parse_entries(b, i + 12, b[i + 11] as int) {
            Some((es, end)) => Some(
                ((spec_u64_of_be(b.subrange(i, i + 8)), b[i + 8], b[i + 9], b[i + 10], es), end),
            ),
            None => None,
        }
    }
}

/// Every macro field of a parsed record is valid text.
pub open spec fn record_text_ok(rec: (int, u8, u8, u8, Seq<(Seq<u8>, Seq<u8>)>)) -> bool {
    forall|i: int|
        0 <= i < rec.4.len() ==> valid_utf8((#[trigger] rec.4[i]).0) && valid_utf8(rec.4[i].1)
}

/// Relies on String::from_utf8: it accepts exactly the valid UTF-8 byte
/// sequences, and the returned string holds those very bytes.
#[verifier::external_body]
fn bytes_to_string(v: Vec<u8>) -> (r: Option<String>)
    ensures
        r is Some <==> valid_utf8(v@),
        r matches Some(s) ==> encode_utf8(s@) == v@,
{
    match String::from_utf8(v) {
        Ok(s) => Some(s),
        Err(_) => None,
    }
}

/// The separator scan, executably.
fn find_sep_exec(bytes: &[u8], i: usize) -> (r: usize)
    requires
        i <= bytes@.len(),
    ensures
        r == find_sep(bytes@, i as int),
        i <= r <= bytes@.len(),
{
    let n = bytes.len();
    let mut j = i;
    while j < n && *vstd::slice::slice_index_get(bytes, j) != FIELD_SEPARATOR
        invariant
            i <= j <= n,
            n == bytes@.len(),
            find_sep(bytes@, i as int) == find_sep(bytes@, j as int),
        decreases n - j,
    {
        j += 1;
    }
    j
}

/// Parses one record of the flat file format starting at `start`: the record
/// and the position after it. Returns nothing when the record is truncated
/// or a macro field is not valid text.
pub fn parse_user_info(bytes: &[u8], start: usize) -> (r: Option<(UserInfo, usize)>)
    ensures
        spec_parse_record(bytes@, start as int) is None ==> r is None,
        r matches Some((info, end)) ==> ({
            let parsed = spec_parse_record(bytes@, start as int);
            &&& parsed is Some
            &&& end == parsed.unwrap().1
            &&& info.name == parsed.unwrap().0.0
            &&& info.hp == parsed.unwrap().0.1
            &&& info.san == parsed.unwrap().0.2
            &&& info.mp == parsed.unwrap().0.3
            &&& spec_macros(info) == parsed.unwrap().0.4
        }),
        (spec_parse_record(bytes@, start as int) matches Some((rec, _)) && record_text_ok(rec))
            ==> r is Some,
{
    let ghost b = bytes@;
    let n = bytes.len();
    if start > n || n - start < 12 {
        return None;
    }
    let name = read_u64_be(bytes, start);
    let hp = *vstd::slice::slice_index_get(bytes, start + 8);
    let san = *vstd::slice::slice_index_get(bytes, start + 9);
    let mp = *vstd::slice::slice_index_get(bytes, start + 10);
    let count = *vstd::slice::slice_index_get(bytes, start + 11);

    let ghost parsed_entries = spec_parse_entries(b, start + 12 as int, count as int);
    let mut commands: Vec<CommandDef> = Vec::new();
    let mut pos: usize = start + 12;
    let mut remaining: usize = count as usize;
    while remaining > 0
        invariant
            b == bytes@,
            n == b.len(),
            pos <= n,
            start + 12 <= n,
            count as int == b[start + 11],
            commands@.len() + remaining == count as usize,
            parsed_entries == spec_parse_entries(b, start + 12 as int, count as int),
            ({
                match spec_parse_entries(b, pos as int, remaining as int) {
                    Some((es, end)) => parsed_entries matches Some((all, end2)) && end2 == end
                        && all == spec_macros_of(commands@) + es,
                    None => parsed_entries is None,
                }
            }),
        decreases remaining,
    {
        let k1 = find_sep_exec(bytes, pos);
        if k1 >= n {
            proof {
                assert(spec_parse_entries(b, pos as int, remaining as int) is None);
                assert(spec_parse_record(b, start as int) is None);
            }
            return None;
        }
        let k2 = find_sep_exec(bytes, k1 + 1);
        if k2 >= n {
            proof {
                assert(spec_parse_entries(b, pos as int, remaining as int) is None);
                assert(spec_parse_record(b, start as int) is None);
            }
            return None;
        }
        let name_bytes = vstd::slice::slice_to_vec(vstd::slice::slice_subrange(bytes, pos, k1));
        let value_bytes = vstd::slice::slice_to_vec(
            vstd::slice::slice_subrange(bytes, k1 + 1, k2),
        );
        let ghost nb_view = b.subrange(pos as int, k1 as int);
        let ghost vb_view = b.subrange(k1 + 1, k2 as int);
        let macro_name = match bytes_to_string(name_bytes) {
            Some(s) => s,
            None => {
                proof {
                    if spec_parse_record(b, start as int) is Some {
                        let es = spec_parse_entries(b, pos as int, remaining as int).unwrap().0;
                        let all = parsed_entries.unwrap().0;
                        let rest0 = spec_parse_entries(b, k2 + 1, remaining as int - 1).unwrap().0;
                        assert(es == seq![(nb_view, vb_view)] + rest0);
                        assert(es[0] == (nb_view, vb_view));
                        assert(spec_parse_record(b, start as int).unwrap().0.4 == all);
                        assert(all[commands@.len() as int] == es[0]);
                        assert(!valid_utf8(all[commands@.len() as int].0));
                    }
                }
                return None;
            },
        };
        let macro_value = match bytes_to_string(value_bytes) {
            Some(s) => s,
            None => {
                proof {
                    if spec_parse_record(b, start as int) is Some {
                        let es = spec_parse_entries(b, pos as int, remaining as int).unwrap().0;
                        let all = parsed_entries.unwrap().0;
                        let rest0 = spec_parse_entries(b, k2 + 1, remaining as int - 1).unwrap().0;
                        assert(es == seq![(nb_view, vb_view)] + rest0);
                        assert(es[0] == (nb_view, vb_view));
                        assert(spec_parse_record(b, start as int).unwrap().0.4 == all);
                        assert(all[commands@.len() as int] == es[0]);
                        assert(!valid_utf8(all[commands@.len() as int].1));
                    }
                }
                return None;
            },
        };
        let def = CommandDef { name: macro_name, value: macro_value };
        proof {
            assert(macro_fields(def) == (b.subrange(pos as int, k1 as int), b.subrange(
                k1 + 1,
                k2 as int,
            )));
            assert(spec_macros_of(commands@.push(def)) =~= spec_macros_of(commands@).push(
                macro_fields(def),
            ));
            assert(spec_macros_of(commands@) + (seq![
                (b.subrange(pos as int, k1 as int), b.subrange(k1 + 1, k2 as int)),
            ] + spec_parse_entries(b, k2 + 1, remaining - 1).unwrap().0) =~= spec_macros_of(
                commands@,
            ).push(macro_fields(def)) + spec_parse_entries(b, k2 + 1, remaining - 1).unwrap().0);
        }
        commands.push(def);
        pos = k2 + 1;
        remaining -= 1;
    }
    proof {
        assert(spec_parse_entries(b, pos as int, 0int) == Some(
            (Seq::<(Seq<u8>, Seq<u8>)>::empty(), pos as int),
        ));
        assert(spec_macros_of(commands@) + Seq::<(Seq<u8>, Seq<u8>)>::empty() =~= spec_macros_of(
            commands@,
        ));
    }
    let info = UserInfo { name, hp, san, mp, commands };
    proof {
        assert(b.subrange(start as int, start + 8) =~= bytes@.subrange(start as int, start + 8));
        assert(spec_macros(info) == spec_macros_of(info.commands@));
    }
    Some((info, pos))
}


/// The byte fields of a run of macros.
pub open spec fn spec_macros_of(cs: Seq<CommandDef>) -> Seq<(Seq<u8>, Seq<u8>)> {
    cs.map_values(|c: CommandDef| macro_fields(c))
}

/// Reads eight big-endian bytes as a 64-bit value.
fn read_u64_be(bytes: &[u8], start: usize) -> (r: u64)
    requires
        start + 8 <= bytes@.len(),
    ensures
        r == spec_u64_of_be(bytes@.subrange(start as int, start + 8)),
{
    let n = bytes.len();
    let b0 = *vstd::slice::slice_index_get(bytes, start) as u64;
    let b1 = *vstd::slice::slice_index_get(bytes, start + 1) as u64;
    let b2 = *vstd::slice::slice_index_get(bytes, start + 2) as u64;
    let b3 = *vstd::slice::slice_index_get(bytes, start + 3) as u64;
    let b4 = *vstd::slice::slice_index_get(bytes, start + 4) as u64;
    let b5 = *vstd::slice::slice_index_get(bytes, start + 5) as u64;
    let b6 = *vstd::slice::slice_index_get(bytes, start + 6) as u64;
    let b7 = *vstd::slice::slice_index_get(bytes, start + 7) as u64;
    let r = b0 * 0x100000000000000 + b1 * 0x1000000000000 + b2 * 0x10000000000 + b3 * 0x100000000
        + b4 * 0x1000000 + b5 * 0x10000 + b6 * 0x100 + b7;
    proof {
        let sub = bytes@.subrange(start as int, start + 8);
        assert(sub[0] == bytes@[start as int]);
        assert(sub[1] == bytes@[start + 1]);
        assert(sub[2] == bytes@[start + 2]);
        assert(sub[3] == bytes@[start + 3]);
        assert(sub[4] == bytes@[start + 4]);
        assert(sub[5] == bytes@[start + 5]);
        assert(sub[6] == bytes@[start + 6]);
        assert(sub[7] == bytes@[start + 7]);
    }
    r
}

/// Parsing a well-formed record's serialized bytes, wherever they stand in
/// a file and whatever follows them, recovers exactly the record's values
/// and consumes exactly its bytes: the format round-trips.
#[verifier::rlimit(50)]
pub proof fn lemma_record_round_trip(b: Seq<u8>, i: int, info: UserInfo)
    requires
        user_info_wf(info),
        0 <= i,
        i + spec_user_info_bytes(info).len() <= b.len(),
        b.subrange(i, i + spec_user_info_bytes(info).len() as int) == spec_user_info_bytes(info),
    ensures
        ({
            let ser = spec_user_info_bytes(info);
            &&& spec_parse_record(b, i) matches Some((rec, end))
            &&& spec_parse_record(b, i).unwrap().1 == i + ser.len()
            &&& spec_parse_record(b, i).unwrap().0.0 == info.name
            &&& spec_parse_record(b, i).unwrap().0.1 == info.hp
            &&& spec_parse_record(b, i).unwrap().0.2 == info.san
            &&& spec_parse_record(b, i).unwrap().0.3 == info.mp
            &&& spec_parse_record(b, i).unwrap().0.4 == spec_macros(info)
        }),
{
    let ser = spec_user_info_bytes(info);
    assert forall|k: int| 0 <= k < ser.len() implies b[i + k] == ser[k] by {
        assert(ser[k] == b.subrange(i, i + ser.len() as int)[k]);
    }
    assert forall|k: int| 0 <= k < 8 implies b.subrange(i, i + 8)[k] == spec_u64_be(info.name)[k]
        by {
        assert(b[i + k] == ser[k]);
    }
    assert(b.subrange(i, i + 8) =~= spec_u64_be(info.name));
    lemma_u64_be_round(info.name);
    assert(b[i + 8] == ser[8] && b[i + 9] == ser[9] && b[i + 10] == ser[10]);
    assert(b[i + 11] == ser[11]);
    assert(ser[8] == info.hp && ser[9] == info.san && ser[10] == info.mp);
    assert(ser[11] == info.commands@.len() as u8);
    assert(info.commands@.len() as u8 as int == info.commands@.len() as int);
    assert(forall|k: int|
        0 <= k < spec_macros(info).len() ==> entry_fields_wf(#[trigger] spec_macros(info)[k]));
    let eb = spec_entries_bytes(spec_macros(info));
    assert forall|k: int| 0 <= k < eb.len() implies b.subrange(i + 12, i + 12 + eb.len() as int)[k]
        == eb[k] by {
        assert(b[i + 12 + k] == ser[12 + k]);
        assert(ser[12 + k] == eb[k]);
    }
    assert(b.subrange(i + 12, i + 12 + eb.len() as int) =~= eb);
    lemma_parse_entries_round(b, i + 12, spec_macros(info));
}


/// One parsed record's values against a library record.
pub open spec fn record_matches(
    rec: (int, u8, u8, u8, Seq<(Seq<u8>, Seq<u8>)>),
    info: UserInfo,
) -> bool {
    &&& rec.0 == info.name
    &&& rec.1 == info.hp
    &&& rec.2 == info.san
    &&& rec.3 == info.mp
    &&& rec.4 == spec_macros(info)
}

/// What parsing a whole file from position `i` yields: every record in file
/// order, or nothing when any record is malformed.
pub open spec fn spec_parse_records(b: Seq<u8>, i: int) -> Option<
    Seq<(int, u8, u8, u8, Seq<(Seq<u8>, Seq<u8>)>)>,
>
    recommends
        0 <= i <= b.len(),
    decreases b.len() - i,
{
    if i < 0 || i >= b.len() {
        Some(Seq::empty())
    } else {
        match spec_parse_record(b, i) {
            None => None,
            Some((rec, end)) => {
                if end <= i || end > b.len() {
                    None
                } else {
                    match spec_parse_records(b, end) {
                        Some(rest) => Some(seq![rec] + rest),
                        None => None,
                    }
                }
            },
        }
    }
}

/// Serializing records one after another lays the first record's bytes
/// first.
proof fn lemma_records_bytes_first(infos: Seq<UserInfo>)
    requires
        infos.len() >= 1,
    ensures
        spec_records_bytes(infos) == spec_user_info_bytes(infos[0]) + spec_records_bytes(
            infos.drop_first(),
        ),
    decreases infos.len(),
{
    if infos.len() == 1 {
        assert(infos.drop_last() =~= Seq::<UserInfo>::empty());
        assert(infos.drop_first() =~= Seq::<UserInfo>::empty());
        assert(spec_records_bytes(infos) =~= spec_user_info_bytes(infos[0]) + spec_records_bytes(
            infos.drop_first(),
        ));
    } else {
        lemma_records_bytes_first(infos.drop_last());
        assert(infos.drop_last()[0] == infos[0]);
        assert(infos.drop_last().drop_first() =~= infos.drop_first().drop_last());
        assert(infos.drop_first().last() == infos.last());
        assert(spec_records_bytes(infos) == (spec_user_info_bytes(infos[0]) + spec_records_bytes(
            infos.drop_first().drop_last(),
        )) + spec_user_info_bytes(infos.drop_first().last()));
        assert((spec_user_info_bytes(infos[0]) + spec_records_bytes(
            infos.drop_first().drop_last(),
        )) + spec_user_info_bytes(infos.drop_first().last()) =~= spec_user_info_bytes(infos[0])
            + spec_records_bytes(infos.drop_first()));
    }
}

/// A record's serialized bytes are never empty.
proof fn lemma_record_bytes_len(info: UserInfo)
    ensures
        spec_user_info_bytes(info).len() >= 12,
{
}

/// A suffix equal to a concatenation splits into its two parts.
proof fn lemma_subrange_concat(b: Seq<u8>, i: int, x: Seq<u8>, y: Seq<u8>)
    requires
        0 <= i <= b.len(),
        b.subrange(i, b.len() as int) == x + y,
    ensures
        i + x.len() + y.len() == b.len(),
        b.subrange(i, i + x.len() as int) == x,
        b.subrange(i + x.len() as int, b.len() as int) == y,
{
    let whole = b.subrange(i, b.len() as int);
    assert(whole.len() == x.len() + y.len());
    assert forall|k: int| 0 <= k < x.len() implies b.subrange(i, i + x.len() as int)[k] == x[k] by {
        assert(b.subrange(i, i + x.len() as int)[k] == b[i + k]);
        assert(b[i + k] == whole[k]);
    }
    assert(b.subrange(i, i + x.len() as int) =~= x);
    assert forall|k: int|
        0 <= k < y.len() implies b.subrange(i + x.len() as int, b.len() as int)[k] == y[k] by {
        assert(b.subrange(i + x.len() as int, b.len() as int)[k] == b[i + x.len() + k]);
        assert(b[i + x.len() + k] == whole[x.len() + k]);
        assert(whole[x.len() + k] == y[k]);
    }
    assert(b.subrange(i + x.len() as int, b.len() as int) =~= y);
}

/// The serialized file decomposes at the first record's boundary.
proof fn lemma_file_split(b: Seq<u8>, i: int, infos: Seq<UserInfo>)
    requires
        0 <= i <= b.len(),
        infos.len() >= 1,
        b.subrange(i, b.len() as int) == spec_records_bytes(infos),
    ensures
        ({
            let ser = spec_user_info_bytes(infos[0]);
            &&& i + ser.len() <= b.len()
            &&& b.subrange(i, i + ser.len() as int) == ser
            &&& b.subrange(i + ser.len() as int, b.len() as int) == spec_records_bytes(
                infos.drop_first(),
            )
        }),
{
    lemma_records_bytes_first(infos);
    lemma_subrange_concat(
        b,
        i,
        spec_user_info_bytes(infos[0]),
        spec_records_bytes(infos.drop_first()),
    );
}

/// Parsing a whole well-formed file recovers every record, in order: the
/// file format round-trips.
#[verifier::rlimit(100)]
pub proof fn lemma_file_round_trip(b: Seq<u8>, i: int, infos: Seq<UserInfo>)
    requires
        0 <= i <= b.len(),
        b.subrange(i, b.len() as int) == spec_records_bytes(infos),
        forall|k: int| 0 <= k < infos.len() ==> user_info_wf(#[trigger] infos[k]),
    ensures
        ({
            &&& spec_parse_records(b, i) matches Some(recs)
            &&& spec_parse_records(b, i).unwrap().len() == infos.len()
            &&& forall|k: int|
                0 <= k < infos.len() ==> record_matches(
                    #[trigger] spec_parse_records(b, i).unwrap()[k],
                    infos[k],
                )
        }),
    decreases infos.len(),
{
    if infos.len() == 0 {
        assert(spec_records_bytes(infos).len() == 0);
        assert(i == b.len());
    } else {
        lemma_file_split(b, i, infos);
        let first = infos[0];
        let ser = spec_user_info_bytes(first);
        lemma_record_bytes_len(first);
        lemma_record_round_trip(b, i, first);
        let end = i + ser.len() as int;
        lemma_file_round_trip(b, end, infos.drop_first());
        let rec = spec_parse_record(b, i).unwrap().0;
        let rest = spec_parse_records(b, end).unwrap();
        assert(spec_parse_records(b, i) == Some(seq![rec] + rest));
        assert forall|k: int| 0 <= k < infos.len() implies record_matches(
            #[trigger] (seq![rec] + rest)[k],
            infos[k],
        ) by {
            if k == 0 {
            } else {
                assert((seq![rec] + rest)[k] == rest[k - 1]);
                assert(infos.drop_first()[k - 1] == infos[k]);
            }
        }
    }
}

/// A macro entry's fields are separator-free.
pub open spec fn entry_fields_wf(e: (Seq<u8>, Seq<u8>)) -> bool {
    &&& forall|i: int| 0 <= i < e.0.len() ==> #[trigger] e.0[i] != 3u8
    &&& forall|i: int| 0 <= i < e.1.len() ==> #[trigger] e.1[i] != 3u8
}

/// Parsing serialized entries recovers exactly the entries.
proof fn lemma_parse_entries_round(b: Seq<u8>, i: int, es: Seq<(Seq<u8>, Seq<u8>)>)
    requires
        0 <= i <= b.len(),
        b.subrange(i, b.len() as int).len() >= spec_entries_bytes(es).len(),
        b.subrange(i, i + spec_entries_bytes(es).len()) == spec_entries_bytes(es),
        forall|k: int| 0 <= k < es.len() ==> entry_fields_wf(#[trigger] es[k]),
    ensures
        spec_parse_entries(b, i, es.len() as int) == Some(
            (es, i + spec_entries_bytes(es).len()),
        ),
    decreases es.len(),
{
    if es.len() == 0 {
        assert(spec_entries_bytes(es).len() == 0);
    } else {
        let e = es[0];
        let eb = spec_entry_bytes(e);
        let rest_es = es.drop_first();
        assert(spec_entries_bytes(es) == eb + spec_entries_bytes(rest_es));
        let w = spec_entries_bytes(es);
        assert forall|k: int| 0 <= k < w.len() implies b[i + k] == w[k] by {
            assert(w[k] == b.subrange(i, i + w.len())[k]);
        }
        let k1 = i + e.0.len();
        let k2 = k1 + 1 + e.1.len();
        assert(eb.len() == e.0.len() + e.1.len() + 2);
        assert forall|k: int| i <= k < k1 implies b[k] != 3u8 by {
            assert(b[k] == w[k - i]);
            assert(w[k - i] == eb[k - i]);
            assert(eb[k - i] == e.0[k - i]);
        }
        assert(b[k1] == w[k1 - i]);
        assert(w[k1 - i] == eb[e.0.len() as int]);
        assert(eb[e.0.len() as int] == 3u8);
        lemma_find_sep_at(b, i, k1);
        assert forall|k: int| k1 + 1 <= k < k2 implies b[k] != 3u8 by {
            assert(b[k] == w[k - i]);
            assert(w[k - i] == eb[k - i]);
            assert(eb[k - i] == e.1[k - i - (e.0.len() + 1)]);
        }
        assert(b[k2] == w[k2 - i]);
        assert(w[k2 - i] == eb[eb.len() - 1]);
        assert(eb[eb.len() - 1] == 3u8);
        lemma_find_sep_at(b, k1 + 1, k2);
        assert forall|m: int| 0 <= m < e.0.len() implies b.subrange(i, k1)[m] == e.0[m] by {
            assert(b[i + m] == w[m]);
            assert(w[m] == eb[m]);
            assert(eb[m] == e.0[m]);
        }
        assert(b.subrange(i, k1) =~= e.0);
        assert forall|m: int| 0 <= m < e.1.len() implies b.subrange(k1 + 1, k2)[m] == e.1[m] by {
            let k: int = e.0.len() + 1 + m;
            assert(b[i + k] == w[k]);
            assert(w[k] == eb[k]);
            assert(eb[k] == e.1[m]);
        }
        assert(b.subrange(k1 + 1, k2) =~= e.1);
        let rb = spec_entries_bytes(rest_es);
        assert forall|m: int| 0 <= m < rb.len() implies b.subrange(
            k2 + 1,
            k2 + 1 + rb.len() as int,
        )[m] == rb[m] by {
            let k: int = eb.len() + m;
            assert(b[i + k] == w[k]);
            assert(w[k] == rb[m]);
        }
        assert(b.subrange(k2 + 1, k2 + 1 + spec_entries_bytes(rest_es).len() as int)
            =~= spec_entries_bytes(rest_es));
        assert(forall|k: int| 0 <= k < rest_es.len() ==> entry_fields_wf(#[trigger] rest_es[k]));
        lemma_parse_entries_round(b, k2 + 1, rest_es);
        assert(seq![(b.subrange(i, k1), b.subrange(k1 + 1, k2))] + rest_es =~= es);
        assert(k2 + 1 + spec_entries_bytes(rest_es).len() == i + w.len());
    }
}


/// The macros of a record as name and value text, in order.
pub open spec fn macro_views(cs: Seq<CommandDef>) -> Seq<(Seq<char>, Seq<char>)> {
    cs.map_values(|c: CommandDef| (c.name@, c.value@))
}

/// The stored command line of the first macro with the given name.
pub open spec fn spec_lookup(vs: Seq<(Seq<char>, Seq<char>)>, name: Seq<char>) -> Option<Seq<char>>
    decreases vs.len(),
{
    if vs.len() == 0 {
        None
    } else if vs[0].0 == name {
        Some(vs[0].1)
    } else {
        spec_lookup(vs.drop_first(), name)
    }
}

/// The macros after defining one: the first macro with the name is replaced,
/// or the definition is appended.
pub open spec fn spec_upsert(
    vs: Seq<(Seq<char>, Seq<char>)>,
    name: Seq<char>,
    value: Seq<char>,
) -> Seq<(Seq<char>, Seq<char>)>
    decreases vs.len(),
{
    if vs.len() == 0 {
        seq![(name, value)]
    } else if vs[0].0 == name {
        seq![(name, value)] + vs.drop_first()
    } else {
        seq![vs[0]] + spec_upsert(vs.drop_first(), name, value)
    }
}

/// The macros after removing the first one with the given name, if any.
pub open spec fn spec_remove(vs: Seq<(Seq<char>, Seq<char>)>, name: Seq<char>) -> Seq<
    (Seq<char>, Seq<char>),
>
    decreases vs.len(),
{
    if vs.len() == 0 {
        vs
    } else if vs[0].0 == name {
        vs.drop_first()
    } else {
        seq![vs[0]] + spec_remove(vs.drop_first(), name)
    }
}

proof fn lemma_lookup_at(vs: Seq<(Seq<char>, Seq<char>)>, name: Seq<char>, idx: int)
    requires
        0 <= idx < vs.len(),
        vs[idx].0 == name,
        forall|j: int| 0 <= j < idx ==> (#[trigger] vs[j]).0 != name,
    ensures
        spec_lookup(vs, name) == Some(vs[idx].1),
    decreases idx,
{
    if idx > 0 {
        assert(vs.drop_first()[idx - 1] == vs[idx]);
        assert(forall|j: int| 0 <= j < idx - 1 ==> (#[trigger] vs.drop_first()[j]).0 != name);
        lemma_lookup_at(vs.drop_first(), name, idx - 1);
    }
}

proof fn lemma_lookup_none(vs: Seq<(Seq<char>, Seq<char>)>, name: Seq<char>)
    requires
        forall|j: int| 0 <= j < vs.len() ==> (#[trigger] vs[j]).0 != name,
    ensures
        spec_lookup(vs, name) is None,
    decreases vs.len(),
{
    if vs.len() > 0 {
        lemma_lookup_none(vs.drop_first(), name);
    }
}

proof fn lemma_upsert_at(
    vs: Seq<(Seq<char>, Seq<char>)>,
    name: Seq<char>,
    value: Seq<char>,
    idx: int,
)
    requires
        0 <= idx < vs.len(),
        vs[idx].0 == name,
        forall|j: int| 0 <= j < idx ==> (#[trigger] vs[j]).0 != name,
    ensures
        spec_upsert(vs, name, value) == vs.update(idx, (name, value)),
    decreases idx,
{
    if idx == 0 {
        assert(seq![(name, value)] + vs.drop_first() =~= vs.update(0, (name, value)));
    } else {
        assert(vs.drop_first()[idx - 1] == vs[idx]);
        assert(forall|j: int| 0 <= j < idx - 1 ==> (#[trigger] vs.drop_first()[j]).0 != name);
        lemma_upsert_at(vs.drop_first(), name, value, idx - 1);
        assert(seq![vs[0]] + vs.drop_first().update(idx - 1, (name, value)) =~= vs.update(
            idx,
            (name, value),
        ));
    }
}

proof fn lemma_upsert_none(vs: Seq<(Seq<char>, Seq<char>)>, name: Seq<char>, value: Seq<char>)
    requires
        forall|j: int| 0 <= j < vs.len() ==> (#[trigger] vs[j]).0 != name,
    ensures
        spec_upsert(vs, name, value) == vs.push((name, value)),
    decreases vs.len(),
{
    if vs.len() == 0 {
        assert(spec_upsert(vs, name, value) =~= vs.push((name, value)));
    } else {
        lemma_upsert_none(vs.drop_first(), name, value);
        assert(seq![vs[0]] + vs.drop_first().push((name, value)) =~= vs.push((name, value)));
    }
}

proof fn lemma_remove_at(vs: Seq<(Seq<char>, Seq<char>)>, name: Seq<char>, idx: int)
    requires
        0 <= idx < vs.len(),
        vs[idx].0 == name,
        forall|j: int| 0 <= j < idx ==> (#[trigger] vs[j]).0 != name,
    ensures
        spec_remove(vs, name) == vs.remove(idx),
    decreases idx,
{
    if idx == 0 {
        assert(vs.drop_first() =~= vs.remove(0));
    } else {
        assert(vs.drop_first()[idx - 1] == vs[idx]);
        assert(forall|j: int| 0 <= j < idx - 1 ==> (#[trigger] vs.drop_first()[j]).0 != name);
        lemma_remove_at(vs.drop_first(), name, idx - 1);
        assert(seq![vs[0]] + vs.drop_first().remove(idx - 1) =~= vs.remove(idx));
    }
}

proof fn lemma_remove_none(vs: Seq<(Seq<char>, Seq<char>)>, name: Seq<char>)
    requires
        forall|j: int| 0 <= j < vs.len() ==> (#[trigger] vs[j]).0 != name,
    ensures
        spec_remove(vs, name) == vs,
    decreases vs.len(),
{
    if vs.len() > 0 {
        lemma_remove_none(vs.drop_first(), name);
        assert(seq![vs[0]] + vs.drop_first() =~= vs);
    }
}

impl UserInfo {
    /// The stored command line of the macro with the given name.
    pub fn get_macro<'a>(&'a self, name: &str) -> (r: Option<&'a String>)
        ensures
            match spec_lookup(macro_views(self.commands@), name@) {
                Some(v) => r matches Some(out) && out@ == v,
                None => r is None,
            },
    {
        let n = self.commands.len();
        let mut i: usize = 0;
        while i < n
            invariant
                n == self.commands@.len(),
                i <= n,
                forall|j: int|
                    0 <= j < i ==> (#[trigger] macro_views(self.commands@)[j]).0 != name@,
            decreases n - i,
        {
            if crate::text::str_eq(self.commands[i].name.as_str(), name) {
                proof {
                    lemma_lookup_at(macro_views(self.commands@), name@, i as int);
                }
                return Some(&self.commands[i].value);
            }
            i += 1;
        }
        proof {
            lemma_lookup_none(macro_views(self.commands@), name@);
        }
        None
    }

    /// Defines or redefines a macro: the first macro with the name is
    /// replaced, or the definition is appended.
    pub fn define_macro(&mut self, name: String, value: String) -> (replaced: bool)
        ensures
            macro_views(final(self).commands@) == spec_upsert(
                macro_views(old(self).commands@),
                name@,
                value@,
            ),
            final(self).name == old(self).name,
            final(self).hp == old(self).hp,
            final(self).san == old(self).san,
            final(self).mp == old(self).mp,
            replaced == (spec_lookup(macro_views(old(self).commands@), name@) is Some),
            !replaced ==> final(self).commands@.len() == old(self).commands@.len() + 1,
            replaced ==> final(self).commands@.len() == old(self).commands@.len(),
    {
        let n = self.commands.len();
        let mut i: usize = 0;
        while i < n
            invariant
                n == self.commands@.len(),
                i <= n,
                *self == *old(self),
                forall|j: int|
                    0 <= j < i ==> (#[trigger] macro_views(self.commands@)[j]).0 != name@,
            decreases n - i,
        {
            if crate::text::str_eq(self.commands[i].name.as_str(), name.as_str()) {
                proof {
                    lemma_lookup_at(macro_views(self.commands@), name@, i as int);
                    lemma_upsert_at(macro_views(self.commands@), name@, value@, i as int);
                }
                self.commands.set(i, CommandDef { name, value });
                proof {
                    assert(macro_views(self.commands@) =~= macro_views(
                        old(self).commands@,
                    ).update(i as int, (name@, value@)));
                }
                return true;
            }
            i += 1;
        }
        proof {
            lemma_lookup_none(macro_views(self.commands@), name@);
            lemma_upsert_none(macro_views(self.commands@), name@, value@);
        }
        self.commands.push(CommandDef { name, value });
        proof {
            assert(macro_views(self.commands@) =~= macro_views(old(self).commands@).push(
                (name@, value@),
            ));
        }
        false
    }

    /// Removes the first macro with the given name, if any.
    pub fn remove_macro(&mut self, name: &str)
        ensures
            macro_views(final(self).commands@) == spec_remove(
                macro_views(old(self).commands@),
                name@,
            ),
            final(self).name == old(self).name,
            final(self).hp == old(self).hp,
            final(self).san == old(self).san,
            final(self).mp == old(self).mp,
    {
        let n = self.commands.len();
        let mut i: usize = 0;
        while i < n
            invariant
                n == self.commands@.len(),
                i <= n,
                *self == *old(self),
                forall|j: int|
                    0 <= j < i ==> (#[trigger] macro_views(self.commands@)[j]).0 != name@,
            decreases n - i,
        {
            if crate::text::str_eq(self.commands[i].name.as_str(), name) {
                proof {
                    lemma_remove_at(macro_views(self.commands@), name@, i as int);
                }
                self.commands.remove(i);
                proof {
                    assert(macro_views(self.commands@) =~= macro_views(
                        old(self).commands@,
                    ).remove(i as int));
                }
                return ;
            }
            i += 1;
        }
        proof {
            lemma_remove_none(macro_views(self.commands@), name@);
        }
    }
}

/// A run of records as one file.
pub open spec fn spec_records_bytes(infos: Seq<UserInfo>) -> Seq<u8>
    decreases infos.len(),
{
    if infos.len() == 0 {
        Seq::empty()
    } else {
        spec_records_bytes(infos.drop_last()) + spec_user_info_bytes(infos.last())
    }
}

/// Serializes a run of records into one file image.
pub fn serialize_all(infos: &Vec<UserInfo>) -> (r: Vec<u8>)
    ensures
        r@ == spec_records_bytes(infos@),
{
    let mut out: Vec<u8> = Vec::new();
    let n = infos.len();
    let mut i: usize = 0;
    while i < n
        invariant
            n == infos@.len(),
            i <= n,
            out@ == spec_records_bytes(infos@.take(i as int)),
        decreases n - i,
    {
        let mut piece = infos[i].to_vec();
        out.append(&mut piece);
        proof {
            assert(infos@.take(i + 1 as int).drop_last() =~= infos@.take(i as int));
            assert(infos@.take(i + 1 as int).last() == infos@[i as int]);
        }
        i += 1;
    }
    proof {
        assert(infos@.take(n as int) =~= infos@);
    }
    out
}

/// Parses a whole file image into its records, in file order. Returns
/// nothing exactly when some record is truncated or holds text that is not
/// valid: a well-formed image always parses.
pub fn parse_all(bytes: &[u8]) -> (r: Option<Vec<UserInfo>>)
    ensures
        spec_parse_records(bytes@, 0) is None ==> r is None,
        r matches Some(infos) ==> ({
            &&& spec_parse_records(bytes@, 0) matches Some(recs)
            &&& infos@.len() == spec_parse_records(bytes@, 0).unwrap().len()
            &&& forall|k: int|
                0 <= k < infos@.len() ==> record_matches(
                    spec_parse_records(bytes@, 0).unwrap()[k],
                    #[trigger] infos@[k],
                )
        }),
        (spec_parse_records(bytes@, 0) matches Some(recs) && (forall|k: int|
            0 <= k < recs.len() ==> record_text_ok(#[trigger] recs[k]))) ==> r is Some,
{
    let ghost b = bytes@;
    let n = bytes.len();
    let mut out: Vec<UserInfo> = Vec::new();
    let ghost mut done: Seq<(int, u8, u8, u8, Seq<(Seq<u8>, Seq<u8>)>)> = Seq::empty();
    let mut pos: usize = 0;
    proof {
        if spec_parse_records(b, 0) is Some {
            assert(done + spec_parse_records(b, 0).unwrap() =~= spec_parse_records(
                b,
                0,
            ).unwrap());
        }
    }
    while pos < n
        invariant
            b == bytes@,
            n == b.len(),
            pos <= n,
            out@.len() == done.len(),
            forall|k: int| 0 <= k < done.len() ==> record_matches(done[k], #[trigger] out@[k]),
            match spec_parse_records(b, pos as int) {
                Some(rest) => spec_parse_records(b, 0) == Some(done + rest),
                None => spec_parse_records(b, 0) is None,
            },
        decreases n - pos,
    {
        match parse_user_info(bytes, pos) {
            Some((info, end)) => {
                proof {
                    lemma_parse_record_end(b, pos as int);
                }
                if end <= pos {
                    proof {
                        assert(spec_parse_records(b, pos as int) is None);
                        assert(spec_parse_records(b, 0) is None);
                    }
                    return None;
                }
                let ghost rec = spec_parse_record(b, pos as int).unwrap().0;
                proof {
                    if spec_parse_records(b, end as int) is Some {
                        assert(done + (seq![rec] + spec_parse_records(b, end as int).unwrap())
                            =~= done.push(rec) + spec_parse_records(b, end as int).unwrap());
                    }
                }
                out.push(info);
                proof {
                    done = done.push(rec);
                }
                pos = end;
            },
            None => {
                proof {
                    if spec_parse_records(b, 0) is Some {
                        let rest = spec_parse_records(b, pos as int).unwrap();
                        assert(spec_parse_record(b, pos as int) is Some);
                        let rec = spec_parse_record(b, pos as int).unwrap().0;
                        let end = spec_parse_record(b, pos as int).unwrap().1;
                        assert(!record_text_ok(rec));
                        assert(rest == seq![rec] + spec_parse_records(b, end).unwrap());
                        assert(rest[0] == rec);
                        let all = spec_parse_records(b, 0).unwrap();
                        assert(all == done + rest);
                        assert(all[done.len() as int] == rec);
                        assert(0 <= done.len() < all.len());
                    }
                }
                return None;
            },
        }
    }
    proof {
        assert(spec_parse_records(b, pos as int) == Some(
            Seq::<(int, u8, u8, u8, Seq<(Seq<u8>, Seq<u8>)>)>::empty(),
        ));
        assert(done + Seq::<(int, u8, u8, u8, Seq<(Seq<u8>, Seq<u8>)>)>::empty() =~= done);
    }
    Some(out)
}

/// A parsed record ends within the input.
proof fn lemma_parse_record_end(b: Seq<u8>, i: int)
    requires
        0 <= i,
        spec_parse_record(b, i) is Some,
    ensures
        spec_parse_record(b, i).unwrap().1 <= b.len(),
    decreases 0int,
{
    lemma_parse_entries_bounds(b, i + 12, b[i + 11] as int);
}

/// The eight big-endian bytes of a value.
fn u64_be_bytes(x: u64) -> (r: Vec<u8>)
    ensures
        r@ == spec_u64_be(x),
{
    let mut out: Vec<u8> = Vec::new();
    out.push((x / 0x100000000000000) as u8);
    out.push(((x / 0x1000000000000) % 256) as u8);
    out.push(((x / 0x10000000000) % 256) as u8);
    out.push(((x / 0x100000000) % 256) as u8);
    out.push(((x / 0x1000000) % 256) as u8);
    out.push(((x / 0x10000) % 256) as u8);
    out.push(((x / 0x100) % 256) as u8);
    out.push((x % 256) as u8);
    proof {
        assert(x / 0x100000000000000 < 256) by (nonlinear_arith);
        assert(out@ =~= spec_u64_be(x));
    }
    out
}

} // verus!
