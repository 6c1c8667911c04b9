use vstd::prelude::*;
use crate::block::{
    category_known, default_field, field_key, is_known_category, kind_named, lookup_kind,
    handles_below, takes_input, takes_next, Block, BlockGraph, Kind,
};
use crate::error::Error;
use crate::number::Number;
use crate::value::Value;

verus! {

/// A datum of a saved project, as its loader hands it over.
#[derive(Debug)]
pub enum Json {
    Null,
    Bool(bool),
    Number(Number),
    Text(String),
    List(Vec<Json>),
}

/// One saved block record.
#[derive(Debug)]
pub struct RawBlock {
    pub id: String,
    pub opcode: String,
    pub next: Option<String>,
    /// Input key and its descriptor: `[tag, block id]` or `[tag, [type, value, variable id]]`.
    pub inputs: Vec<(String, Json)>,
    /// Field key and its positional slots.
    pub fields: Vec<(String, Vec<Option<String>>)>,
    /// Whether the block starts a thread.
    pub top_level: bool,
}

/// Position of the first record with this id, or the table's length.
pub open spec fn record_index(t: Seq<RawBlock>, id: Seq<char>) -> int
    decreases t.len(),
{
    if t.len() == 0 {
        0
    } else if t[0].id@ == id {
        0
    } else {
        1 + record_index(t.drop_first(), id)
    }
}

/// Position of the first `c` in `s`, or the length.
pub open spec fn index_of(s: Seq<char>, c: char) -> int
    decreases s.len(),
{
    if s.len() == 0 {
        0
    } else if s[0] == c {
        0
    } else {
        1 + index_of(s.drop_first(), c)
    }
}

pub open spec fn opcode_category(op: Seq<char>) -> Seq<char> {
    op.subrange(0, index_of(op, '_'))
}

pub open spec fn opcode_operation(op: Seq<char>) -> Seq<char> {
    op.subrange(index_of(op, '_') + 1, op.len() as int)
}

/// The kind an opcode `category_operation` selects.
pub open spec fn opcode_kind(op: Seq<char>) -> Option<Kind> {
    if index_of(op, '_') < op.len() && category_known(opcode_category(op)) {
        kind_named(opcode_category(op), opcode_operation(op))
    } else {
        None
    }
}

/// An integer type tag.
pub open spec fn as_tag(j: Json) -> Option<i64> {
    match j {
        Json::Number(n) => if n.scale == 0 {
            Some(n.mantissa)
        } else {
            None
        },
        _ => None,
    }
}

/// The block an input descriptor refers to, if it refers to one.
pub open spec fn input_ref(j: Json) -> Option<Seq<char>> {
    match j {
        Json::List(items) => if items@.len() >= 2 {
            match items@[1] {
                Json::Text(b) => Some(b@),
                _ => None,
            }
        } else {
            None
        },
        _ => None,
    }
}

pub open spec fn literal_ok(j: Json) -> bool {
    match j {
        Json::Text(_) | Json::Bool(_) => true,
        Json::Number(n) => n.wf(),
        _ => false,
    }
}

/// Whether an inline descriptor holds a literal (tag 1) or a variable reference (tag 2 or 3).
pub open spec fn inline_ok(j: Json) -> bool {
    match j {
        Json::List(items) => items@.len() >= 2 && match items@[1] {
            Json::List(arr) => match as_tag(items@[0]) {
                Some(tag) => if tag == 1 {
                    arr@.len() >= 2 && literal_ok(arr@[1])
                } else if tag == 2 || tag == 3 {
                    arr@.len() >= 3 && arr@[2] is Text
                } else {
                    false
                },
                None => false,
            },
            _ => false,
        },
        _ => false,
    }
}

/// Whether a field has a value: its second slot, else its first.
pub open spec fn field_ok(f: Seq<Option<String>>) -> bool {
    (f.len() > 1 && f[1] is Some) || (f.len() > 0 && f[0] is Some)
}

/// Whether the block `id` and everything it links to build within `fuel` levels.
pub open spec fn builds(t: Seq<RawBlock>, id: Seq<char>, fuel: nat) -> bool
    decreases fuel, 0nat,
{
    if fuel == 0 || record_index(t, id) >= t.len() {
        false
    } else {
        let r = t[record_index(t, id)];
        &&& opcode_kind(r.opcode@) is Some
        &&& (r.next matches Some(n) ==> builds(t, n@, (fuel - 1) as nat))
        &&& forall|j: int|
            0 <= j < r.inputs@.len() ==> input_builds(t, #[trigger] r.inputs@[j].1, (fuel - 1) as nat)
        &&& forall|j: int| 0 <= j < r.fields@.len() ==> field_ok(#[trigger] r.fields@[j].1@)
    }
}

/// Whether an input descriptor builds within `fuel` levels.
pub open spec fn input_builds(t: Seq<RawBlock>, j: Json, fuel: nat) -> bool
    decreases fuel, 1nat,
{
    match input_ref(j) {
        Some(b) => builds(t, b, fuel),
        None => inline_ok(j),
    }
}

/// Input `j` of record `r` is the first that does not build within `fuel` levels.
pub open spec fn first_bad_input(t: Seq<RawBlock>, r: RawBlock, fuel: nat, j: int) -> bool {
    &&& 0 <= j < r.inputs@.len()
    &&& !input_builds(t, r.inputs@[j].1, fuel)
    &&& forall|k: int| 0 <= k < j ==> input_builds(t, #[trigger] r.inputs@[k].1, fuel)
}

/// Field `j` of record `r` is the first without a value.
pub open spec fn first_bad_field(r: RawBlock, j: int) -> bool {
    &&& 0 <= j < r.fields@.len()
    &&& !field_ok(r.fields@[j].1@)
    &&& forall|k: int| 0 <= k < j ==> field_ok(#[trigger] r.fields@[k].1@)
}

/// Whether `e` is the error that building block `id` within `fuel` levels ends with: the
/// first failure met in the order opcode, successor, inputs, fields, each input failure
/// wrapped with the owning block's id and the input's key, level by level.
pub open spec fn fails_with(t: Seq<RawBlock>, id: Seq<char>, fuel: nat, e: Error) -> bool
    decreases fuel, 0nat,
{
    if fuel == 0 {
        e matches Error::CyclicBlocks { id: x } && x@ == id
    } else if record_index(t, id) >= t.len() {
        e matches Error::MissingBlock { id: x } && x@ == id
    } else {
        let r = t[record_index(t, id)];
        if opcode_kind(r.opcode@) is None {
            (e matches Error::UnknownOpcode { id: x, .. } && x@ == id) || (
            e matches Error::BlockInitialization { id: x, .. } && x@ == id)
        } else if r.next is Some && !builds(t, r.next->0@, (fuel - 1) as nat) {
            fails_with(t, r.next->0@, (fuel - 1) as nat, e)
        } else if exists|j: int| #[trigger] first_bad_input(t, r, (fuel - 1) as nat, j) {
            forall|j: int|
                #[trigger] first_bad_input(t, r, (fuel - 1) as nat, j) ==> (e matches Error::BlockInput {
                    id: x,
                    key: k,
                    source,
                } && x@ == id && k@ == r.inputs@[j].0@ && input_fails_with(
                    t,
                    r.inputs@[j].1,
                    (fuel - 1) as nat,
                    *source,
                ))
        } else {
            exists|j: int|
                #[trigger] first_bad_field(r, j) && (e matches Error::InvalidField { id: x, key: k }
                    && x@ == id && k@ == r.fields@[j].0@)
        }
    }
}

/// Whether `e` is the error that building an input descriptor ends with.
pub open spec fn input_fails_with(t: Seq<RawBlock>, j: Json, fuel: nat, e: Error) -> bool
    decreases fuel, 1nat,
{
    match input_ref(j) {
        Some(b) => fails_with(t, b, fuel, e),
        None => e == Error::InvalidType || e == Error::InvalidInputType || e
            == Error::InvalidInputTypeId,
    }
}

/// The value a field gets from its slots: the second where set, else the first.
pub open spec fn slot_value(f: Seq<Option<String>>) -> Seq<char> {
    if f.len() > 1 && f[1] is Some {
        f[1]->0@
    } else {
        f[0]->0@
    }
}

/// The value the last field with key `key` gives.
pub open spec fn field_for(fields: Seq<(String, Vec<Option<String>>)>, key: Seq<char>) -> Option<
    Seq<char>,
>
    decreases fields.len(),
{
    if fields.len() == 0 {
        None
    } else if fields.last().0@ == key {
        Some(slot_value(fields.last().1@))
    } else {
        field_for(fields.drop_last(), key)
    }
}

/// The block-building error with its block id and category.
pub fn add_error_context(id: String, category: &str, e: Error) -> (r: Error)
    ensures
        r matches Error::BlockInitialization { id: i, category: c, source: s } && i@ == id@ && c@
            == category@ && *s == e,
{
    Error::BlockInitialization { id, category: String::from_str(category), source: Box::new(e) }
}

fn find_record(t: &Vec<RawBlock>, id: &String) -> (r: usize)
    ensures
        r == record_index(t@, id@),
{
    let mut i: usize = 0;
    assert(t@.subrange(0, t@.len() as int) =~= t@);
    while i < t.len()
        invariant
            i <= t@.len(),
            record_index(t@, id@) == i + record_index(t@.subrange(i as int, t@.len() as int), id@),
        decreases t@.len() - i,
    {
        let ghost rest = t@.subrange(i as int, t@.len() as int);
        if t[i].id == *id {
            return i;
        }
        assert(rest.drop_first() =~= t@.subrange(i + 1, t@.len() as int));
        i = i + 1;
    }
    assert(t@.subrange(i as int, t@.len() as int).len() == 0);
    i
}

fn find_char(s: &str, c: char) -> (r: usize)
    ensures
        r == index_of(s@, c),
{
    let n = s.unicode_len();
    let mut i: usize = 0;
    assert(s@.subrange(0, n as int) =~= s@);
    while i < n
        invariant
            n == s@.len(),
            i <= n,
            index_of(s@, c) == i + index_of(s@.subrange(i as int, n as int), c),
        decreases n - i,
    {
        let ghost rest = s@.subrange(i as int, n as int);
        if s.get_char(i) == c {
            return i;
        }
        assert(rest.drop_first() =~= s@.subrange(i + 1, n as int));
        i = i + 1;
    }
    i
}

proof fn lemma_index_of_bound(s: Seq<char>, c: char)
    ensures
        0 <= index_of(s, c) <= s.len(),
    decreases s.len(),
{
    if s.len() > 0 {
        lemma_index_of_bound(s.drop_first(), c);
    }
}

/// A fresh block for the opcode `category_operation`.
pub fn get_block(id: &String, opcode: &String) -> (r: Result<Block, Error>)
    ensures
        r is Ok <==> opcode_kind(opcode@) is Some,
        r matches Ok(b) ==> Some(b.kind) == opcode_kind(opcode@) && b.id@ == id@ && b.next is None
            && b.inputs@.len() == 0 && b.literal is None && !b.started && b.field@ == default_field(
            b.kind,
        ),
        !(index_of(opcode@, '_') < opcode@.len() && category_known(opcode_category(opcode@))) ==> (
        r matches Err(Error::UnknownOpcode { id: i, opcode: o }) && i@ == id@ && o@ == opcode@),
        (index_of(opcode@, '_') < opcode@.len() && category_known(opcode_category(opcode@))
            && opcode_kind(opcode@) is None) ==> (r matches Err(
            Error::BlockInitialization { id: i, category: c, .. },
        ) && i@ == id@ && c@ == opcode_category(opcode@)),
{
    let op = opcode.as_str();
    let n = op.unicode_len();
    let u = find_char(op, '_');
    proof {
        lemma_index_of_bound(op@, '_');
    }
    if u >= n {
        return Err(Error::UnknownOpcode { id: id.clone(), opcode: opcode.clone() });
    }
    let category = op.substring_char(0, u);
    let name = op.substring_char(u + 1, n);
    if !is_known_category(category) {
        return Err(Error::UnknownOpcode { id: id.clone(), opcode: opcode.clone() });
    }
    match lookup_kind(category, name) {
        Some(k) => Ok(Block::new(k, id.clone())),
        None => Err(
            add_error_context(
                id.clone(),
                category,
                Error::UnknownOperation { name: String::from_str(name) },
            ),
        ),
    }
}

/// The value a literal descriptor holds.
pub open spec fn literal_of(j: Json) -> Option<Value> {
    match j {
        Json::Text(s) => Some(Value::Text(s)),
        Json::Bool(b) => Some(Value::Bool(b)),
        Json::Number(n) => if n.wf() {
            Some(Value::Number(n))
        } else {
            None
        },
        _ => None,
    }
}

/// Whether `b` is the block an inline descriptor stands for: a literal of `arr[1]` for
/// tag 1, a reference to the variable `arr[2]` for tags 2 and 3.
pub open spec fn inline_block(j: Json, b: Block) -> bool {
    &&& b.next is None
    &&& b.inputs@.len() == 0
    &&& !b.started
    &&& match j {
        Json::List(items) => items@.len() >= 2 && match items@[1] {
            Json::List(arr) => match as_tag(items@[0]) {
                Some(tag) => if tag == 1 {
                    arr@.len() >= 2 && b.kind == Kind::Literal && b.literal == literal_of(arr@[1])
                } else if tag == 2 || tag == 3 {
                    arr@.len() >= 3 && b.kind == Kind::Variable && b.literal is None && (
                    arr@[2] matches Json::Text(v) && b.field@ == v@)
                } else {
                    false
                },
                None => false,
            },
            _ => false,
        },
        _ => false,
    }
}

fn literal_value(j: &Json) -> (r: Option<Value>)
    ensures
        r == literal_of(*j),
        r matches Some(v) ==> v.wf(),
{
    match j {
        Json::Text(s) => Some(Value::Text(s.clone())),
        Json::Bool(b) => Some(Value::Bool(*b)),
        Json::Number(n) => if n.scale <= 18 {
            Some(Value::Number(*n))
        } else {
            None
        },
        _ => None,
    }
}

/// The value of a field: its second slot where set, else its first.
pub fn field_value(f: &Vec<Option<String>>) -> (r: Option<String>)
    ensures
        r is Some <==> field_ok(f@),
        r matches Some(s) ==> if f@.len() > 1 && f@[1] is Some {
            Some(s) == f@[1]
        } else {
            Some(s) == f@[0]
        },
{
    if f.len() > 1 {
        if let Some(s) = &f[1] {
            return Some(s.clone());
        }
    }
    if f.len() > 0 {
        if let Some(s) = &f[0] {
            return Some(s.clone());
        }
    }
    None
}

/// Builds the block for one input descriptor: a referenced block, a literal or a
/// variable reference.
pub fn input_block(t: &Vec<RawBlock>, input: &Json, fuel: usize, g: &mut BlockGraph) -> (r: Result<
    usize,
    Error,
>)
    requires
        old(g).wf(),
    ensures
        final(g).wf(),
        final(g)@.len() >= old(g)@.len(),
        final(g)@.subrange(0, old(g)@.len() as int) == old(g)@,
        r is Ok <==> input_builds(t@, *input, fuel as nat),
        r matches Err(e) ==> input_fails_with(t@, *input, fuel as nat, e),
        r matches Ok(i) ==> i + 1 == final(g)@.len(),
        input_ref(*input) matches Some(b) ==> (r matches Ok(i) ==> final(g)@[i as int].id@ == b
            && Some(final(g)@[i as int].kind) == opcode_kind(t@[record_index(t@, b)].opcode@)),
        input_ref(*input) is None ==> (r matches Ok(i) ==> inline_block(*input, final(g)@[i as int])),
        input_ref(*input) is None ==> (r is Err ==> final(g)@ == old(g)@),
    decreases fuel, 1nat,
{
    let items = match input {
        Json::List(items) => items,
        _ => return Err(Error::InvalidType),
    };
    if items.len() < 2 {
        return Err(Error::InvalidType);
    }
    match &items[1] {
        Json::Text(block_id) => build_node(t, block_id, fuel, g),
        Json::List(arr) => {
            let tag = match &items[0] {
                Json::Number(n) => if n.scale == 0 {
                    n.mantissa
                } else {
                    return Err(Error::InvalidType);
                },
                _ => return Err(Error::InvalidType),
            };
            if tag == 1 {
                if arr.len() < 2 {
                    return Err(Error::InvalidInputType);
                }
                match literal_value(&arr[1]) {
                    Some(v) => {
                        let b = Block::literal(v);
                        let i = g.push(b);
                        assert(final(g)@.subrange(0, old(g)@.len() as int) =~= old(g)@);
                        Ok(i)
                    },
                    None => Err(Error::InvalidInputType),
                }
            } else if tag == 2 || tag == 3 {
                if arr.len() < 3 {
                    return Err(Error::InvalidInputType);
                }
                match &arr[2] {
                    Json::Text(v) => {
                        let b = Block::variable(v.clone());
                        let i = g.push(b);
                        assert(final(g)@.subrange(0, old(g)@.len() as int) =~= old(g)@);
                        Ok(i)
                    },
                    _ => Err(Error::InvalidInputType),
                }
            } else {
                Err(Error::InvalidInputTypeId)
            }
        },
        _ => Err(Error::InvalidType),
    }
}

/// Builds the block `id`, its successors and its inputs into `g`, and returns its
/// handle. A chain of links longer than `fuel` counts as a cycle.
pub fn build_node(t: &Vec<RawBlock>, id: &String, fuel: usize, g: &mut BlockGraph) -> (r: Result<
    usize,
    Error,
>)
    requires
        old(g).wf(),
    ensures
        final(g).wf(),
        final(g)@.len() >= old(g)@.len(),
        final(g)@.subrange(0, old(g)@.len() as int) == old(g)@,
        r is Ok <==> builds(t@, id@, fuel as nat),
        r matches Ok(i) ==> i + 1 == final(g)@.len() && final(g)@[i as int].id@ == id@ && Some(
            final(g)@[i as int].kind,
        ) == opcode_kind(t@[record_index(t@, id@)].opcode@),
        fuel == 0 ==> (r matches Err(Error::CyclicBlocks { id: x }) && x@ == id@),
        r matches Err(e) ==> fails_with(t@, id@, fuel as nat, e),
        r matches Ok(i) ==> ({
            let rec = t@[record_index(t@, id@)];
            let b = final(g)@[i as int];
            &&& (rec.next is Some && takes_next(b.kind)) ==> (b.next matches Some(h)
                && final(g)@[h as int].id@ == rec.next->0@)
            &&& !(rec.next is Some && takes_next(b.kind)) ==> b.next is None
            &&& b.literal is None
            &&& !b.started
            &&& forall|j: int|
                0 <= j < rec.inputs@.len() && takes_input(b.kind, #[trigger] rec.inputs@[j].0@)
                    ==> b.input(rec.inputs@[j].0@) is Some
            &&& b.field@ == match field_key(b.kind) {
                Some(k) => match field_for(rec.fields@, k) {
                    Some(v) => v,
                    None => default_field(b.kind),
                },
                None => default_field(b.kind),
            }
        }),
        fuel > 0 && record_index(t@, id@) >= t@.len() ==> (r matches Err(
            Error::MissingBlock { id: x },
        ) && x@ == id@),
    decreases fuel, 0nat,
{
    if fuel == 0 {
        return Err(Error::CyclicBlocks { id: id.clone() });
    }
    let idx = find_record(t, id);
    if idx >= t.len() {
        return Err(Error::MissingBlock { id: id.clone() });
    }
    let r = &t[idx];
    let mut block = get_block(id, &r.opcode)?;
    let ghost g0 = g@;
    if let Some(next_id) = &r.next {
        let h = build_node(t, next_id, fuel - 1, g)?;
        block.set_substack("next", h);
    }
    assert(r.fields@.subrange(0, 0) =~= Seq::<(String, Vec<Option<String>>)>::empty());
    proof {
        reveal_strlit("next");
    }
    assert(handles_below(block, g@.len() as int));
    assert(g@.subrange(0, g0.len() as int) == g0);
    let mut j: usize = 0;
    while j < r.inputs.len()
        invariant
            g.wf(),
            g@.len() >= g0.len() >= old(g)@.len(),
            g@.subrange(0, old(g)@.len() as int) == old(g)@,
            idx < t@.len(),
            r == t@[idx as int],
            idx == record_index(t@, id@),
            fuel > 0,
            j <= r.inputs@.len(),
            handles_below(block, g@.len() as int),
            block.literal is None,
            (r.next is Some && takes_next(block.kind)) ==> (block.next matches Some(h) && h
                < g@.len() && g@[h as int].id@ == r.next->0@),
            !(r.next is Some && takes_next(block.kind)) ==> block.next is None,
            !block.started,
            block.field@ == default_field(block.kind),
            block.id@ == id@,
            Some(block.kind) == opcode_kind(r.opcode@),
            r.next matches Some(n) ==> builds(t@, n@, (fuel - 1) as nat),
            forall|k: int|
                0 <= k < j ==> input_builds(t@, #[trigger] r.inputs@[k].1, (fuel - 1) as nat),
            forall|k: int|
                0 <= k < j && takes_input(block.kind, #[trigger] r.inputs@[k].0@) ==> block.input(
                    r.inputs@[k].0@,
                ) is Some,
        decreases r.inputs@.len() - j,
    {
        let ghost glen = g@.len();
        let ghost gprev = g@;
        let key = &r.inputs[j].0;
        let h = match input_block(t, &r.inputs[j].1, fuel - 1, g) {
            Ok(h) => h,
            Err(e) => {
                proof {
                    assert(first_bad_input(t@, *r, (fuel - 1) as nat, j as int));
                    assert forall|j2: int| #[trigger]
                        first_bad_input(t@, *r, (fuel - 1) as nat, j2) implies j2 == j by {
                        if j2 < j {
                            assert(input_builds(t@, r.inputs@[j2].1, (fuel - 1) as nat));
                        } else if j2 > j {
                            assert(input_builds(t@, r.inputs@[j as int].1, (fuel - 1) as nat));
                        }
                    }
                }
                return Err(
                    Error::BlockInput { id: id.clone(), key: key.clone(), source: Box::new(e) },
                );
            },
        };
        assert(g@.subrange(0, old(g)@.len() as int) =~= gprev.subrange(0, old(g)@.len() as int));
        let ghost before = block;
        block.set_input(key.as_str(), h);
        proof {
            assert forall|k: int|
                0 <= k < j + 1 && takes_input(block.kind, #[trigger] r.inputs@[k].0@) implies block.input(
                r.inputs@[k].0@,
            ) is Some by {
                if block.inputs@.len() != before.inputs@.len() {
                    assert(block.inputs@ =~= before.inputs@.push(block.inputs@.last()));
                    crate::block::lemma_input_at_push(
                        before.inputs@,
                        block.inputs@.last(),
                        r.inputs@[k].0@,
                    );
                }
            }
        }
        assert forall|k: int| 0 <= k < block.inputs@.len() implies (
        #[trigger] block.inputs@[k]).1 < g@.len() by {
            if k < before.inputs@.len() {
                if block.inputs@.len() != before.inputs@.len() {
                    assert(block.inputs@.drop_last() == before.inputs@);
                    assert(block.inputs@[k] == block.inputs@.drop_last()[k]);
                }
                assert(block.inputs@[k] == before.inputs@[k]);
                assert(before.inputs@[k].1 < glen);
            }
        }
        j = j + 1;
    }
    let mut j: usize = 0;
    while j < r.fields.len()
        invariant
            g.wf(),
            g@.len() >= old(g)@.len(),
            g@.subrange(0, old(g)@.len() as int) == old(g)@,
            idx < t@.len(),
            r == t@[idx as int],
            idx == record_index(t@, id@),
            fuel > 0,
            j <= r.fields@.len(),
            handles_below(block, g@.len() as int),
            block.literal is None,
            (r.next is Some && takes_next(block.kind)) ==> (block.next matches Some(h) && h
                < g@.len() && g@[h as int].id@ == r.next->0@),
            !(r.next is Some && takes_next(block.kind)) ==> block.next is None,
            !block.started,
            block.field@ == match field_key(block.kind) {
                Some(k) => match field_for(r.fields@.subrange(0, j as int), k) {
                    Some(v) => v,
                    None => default_field(block.kind),
                },
                None => default_field(block.kind),
            },
            block.id@ == id@,
            Some(block.kind) == opcode_kind(r.opcode@),
            r.next matches Some(n) ==> builds(t@, n@, (fuel - 1) as nat),
            forall|k: int|
                0 <= k < r.inputs@.len() ==> input_builds(
                    t@,
                    #[trigger] r.inputs@[k].1,
                    (fuel - 1) as nat,
                ),
            forall|k: int| 0 <= k < j ==> field_ok(#[trigger] r.fields@[k].1@),
            forall|k: int|
                0 <= k < r.inputs@.len() && takes_input(block.kind, #[trigger] r.inputs@[k].0@)
                    ==> block.input(r.inputs@[k].0@) is Some,
        decreases r.fields@.len() - j,
    {
        let key = &r.fields[j].0;
        proof {
            assert(r.fields@.subrange(0, j + 1).drop_last() =~= r.fields@.subrange(0, j as int));
        }
        match field_value(&r.fields[j].1) {
            Some(v) => block.set_field(key.as_str(), v),
            None => {
                proof {
                    assert(first_bad_field(*r, j as int));
                    assert(forall|k: int| 0 <= k < r.inputs@.len() ==> !#[trigger] first_bad_input(t@, *r, (fuel - 1) as nat, k));
                }
                return Err(Error::InvalidField { id: id.clone(), key: key.clone() });
            },
        }
        j = j + 1;
    }
    assert(r.fields@.subrange(0, j as int) =~= r.fields@);
    let ghost gpre = g@;
    let i = g.push(block);
    assert(g@.subrange(0, old(g)@.len() as int) =~= gpre.subrange(0, old(g)@.len() as int));
    Ok(i)
}

/// Builds the graph rooted at `top_block_id` from a sprite's records, and returns it
/// with the root's handle.
pub fn block_tree(top_block_id: &String, infos: &Vec<RawBlock>) -> (r: Result<
    (BlockGraph, usize),
    Error,
>)
    ensures
        r is Ok <==> builds(infos@, top_block_id@, infos@.len() as nat),
        r matches Ok((g, root)) ==> g.wf() && root < g@.len() && g@[root as int].id@
            == top_block_id@,
        infos@.len() > 0 ==> (r matches Err(e) ==> fails_with(
            infos@,
            top_block_id@,
            infos@.len() as nat,
            e,
        )),
        r matches Ok((g, root)) ==> ({
            let rec = infos@[record_index(infos@, top_block_id@)];
            let b = g@[root as int];
            &&& Some(b.kind) == opcode_kind(rec.opcode@)
            &&& (rec.next is Some && takes_next(b.kind)) ==> (b.next matches Some(h)
                && g@[h as int].id@ == rec.next->0@)
            &&& !(rec.next is Some && takes_next(b.kind)) ==> b.next is None
        }),
        record_index(infos@, top_block_id@) >= infos@.len() ==> (r matches Err(
            Error::MissingBlock { id: x },
        ) && x@ == top_block_id@),
{
    let mut g = BlockGraph::new();
    if infos.len() == 0 {
        return Err(Error::MissingBlock { id: top_block_id.clone() });
    }
    match build_node(infos, top_block_id, infos.len(), &mut g) {
        Ok(root) => Ok((g, root)),
        Err(e) => Err(e),
    }
}

} // verus!
