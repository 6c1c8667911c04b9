use vstd::prelude::*;
use crate::block::{takes_next, text_eq, Block, BlockGraph, Kind};
use crate::broadcaster::{answers, spec_answers, BroadcastMsg};
use crate::sensing::{holds_key, key_pressed};
use crate::color::{channel_value, hex_to_rgb, is_hex_color};
use crate::error::Error;
use crate::number::{pow10, pow10_i64, Number};
use crate::pen::Rgb;
use crate::sprite_runtime::{Coordinate, HideStatus, SpriteRuntime, Text};
use crate::value::{number_of, text_of, to_number, to_number_or_zero, to_text, Value};
use crate::variables::Variables;

verus! {

/// What happens after a block has run.
#[derive(Debug)]
pub enum Next {
    /// The thread's current pass ends.
    End,
    /// The block failed.
    Fail(Error),
    /// Control passes to the given block.
    Continue(usize),
    /// A waiting block hands control down its chain for one pass, and is re-entered after.
    Loop(usize),
}

pub open spec fn spec_continue(b: Option<usize>) -> Next {
    match b {
        Some(h) => Next::Continue(h),
        None => Next::End,
    }
}

pub open spec fn spec_loop(b: Option<usize>) -> Next {
    match b {
        Some(h) => Next::Loop(h),
        None => Next::End,
    }
}

impl Next {
    pub fn continue_(block: Option<usize>) -> (r: Next)
        ensures
            r == spec_continue(block),
    {
        match block {
            Some(b) => Next::Continue(b),
            None => Next::End,
        }
    }

    pub fn loop_(block: Option<usize>) -> (r: Next)
        ensures
            r == spec_loop(block),
    {
        match block {
            Some(b) => Next::Loop(b),
            None => Next::End,
        }
    }
}

/// What a block waits for before it finishes.
#[derive(Debug)]
pub enum Wait {
    /// A `Start` broadcast of this name.
    Start(String),
    /// A `Finished` broadcast of this name.
    Finished(String),
    /// A click inside the sprite.
    Click,
    /// The given number of milliseconds.
    Timer(u32),
    /// The input layer's answer to the request of the reporter with this handle.
    Answer(usize),
    /// The host's pen color with its shade set to this number; see `Thread::color_computed`.
    PenShade(Number),
    /// The host's pen color with its hue set to this number; see `Thread::color_computed`.
    PenHue(Number),
}

/// How a block's run ends: at once, or once a wait is over.
#[derive(Debug)]
pub enum Outcome {
    Done(Next),
    Await(Wait),
}

/// The result of running a block: a message to publish first, then the outcome.
#[derive(Debug)]
pub struct Effect {
    pub send: Option<BroadcastMsg>,
    pub outcome: Outcome,
}

/// The value a reporter yields by itself, without the input layer's help.
pub open spec fn plain_value(b: Block, vars: Variables) -> Option<Value> {
    match b.kind {
        Kind::Literal => b.literal,
        Kind::Variable => vars.view_at(b.field@),
        Kind::KeyOptions | Kind::TouchingObjectMenu => Some(Value::Text(b.field)),
        _ => None,
    }
}

/// Evaluates a reporter that needs no outside help.
fn plain(g: &BlockGraph, i: usize, vars: &Variables) -> (r: Result<Value, Error>)
    requires
        g.wf(),
        vars.wf(),
        i < g@.len(),
    ensures
        r is Ok <==> plain_value(g@[i as int], *vars) is Some,
        r matches Ok(v) ==> v.wf() && Some(v) == plain_value(g@[i as int], *vars),
{
    let b = g.node(i);
    proof {
        vars.lemma_values_wf(b.field@);
    }
    match b.kind {
        Kind::Literal => match &b.literal {
            Some(v) => Ok(v.clone()),
            None => Err(Error::NoValue),
        },
        Kind::Variable => match vars.get(&b.field) {
            Some(v) => Ok(v),
            None => Err(Error::MissingVariable { id: b.field.clone() }),
        },
        Kind::KeyOptions | Kind::TouchingObjectMenu => Ok(Value::Text(b.field.clone())),
        _ => Err(Error::NoValue),
    }
}

/// The value of a menu input of `b`: one its reporter yields by itself.
pub open spec fn option_value(g: Seq<Block>, b: Block, slot: Seq<char>, vars: Variables) -> Option<
    Value,
> {
    match b.input(slot) {
        Some(c) => if c < g.len() {
            plain_value(g[c as int], vars)
        } else {
            None
        },
        None => None,
    }
}

/// Evaluates the menu input `slot` of the block at `i`.
fn option(g: &BlockGraph, i: usize, slot: &str, vars: &Variables) -> (r: Result<Value, Error>)
    requires
        g.wf(),
        vars.wf(),
        i < g@.len(),
    ensures
        r is Ok <==> option_value(g@, g@[i as int], slot@, *vars) is Some,
        r matches Ok(v) ==> v.wf() && Some(v) == option_value(g@, g@[i as int], slot@, *vars),
{
    let b = g.node(i);
    match b.get_input(slot) {
        Some(c) => {
            assert(crate::block::node_ok(g@[i as int], i as int));
            proof {
                crate::block::lemma_input_below(g@[i as int], slot@, i as int);
            }
            plain(g, c, vars)
        },
        None => Err(Error::UnsetInput { slot: String::from_str(slot) }),
    }
}

/// The request the reporter at `c` publishes to learn its value from the input layer,
/// where it needs one.
pub open spec fn request_of(g: Seq<Block>, c: int, vars: Variables) -> Option<BroadcastMsg> {
    let b = g[c];
    match b.kind {
        Kind::KeyPressed => if option_value(g, b, "KEY_OPTION"@, vars) is Some {
            Some(BroadcastMsg::RequestPressedKeys)
        } else {
            None
        },
        Kind::TouchingObject => match option_value(g, b, "TOUCHINGOBJECTMENU"@, vars) {
            Some(Value::Text(t)) => if t@ == "_mouse_"@ {
                Some(BroadcastMsg::RequestMousePosition)
            } else if t@ == "_edge_"@ {
                None
            } else {
                Some(BroadcastMsg::RequestSpriteRectangle(t))
            },
            _ => None,
        },
        _ => None,
    }
}

/// The request the reporter at `c` publishes to learn its value, if it needs one.
pub fn request(g: &BlockGraph, c: usize, vars: &Variables) -> (r: Option<BroadcastMsg>)
    requires
        g.wf(),
        vars.wf(),
        c < g@.len(),
    ensures
        r == request_of(g@, c as int, *vars),
{
    proof {
        reveal_strlit("KEY_OPTION");
        reveal_strlit("TOUCHINGOBJECTMENU");
    }
    match g.node(c).kind {
        Kind::KeyPressed => match option(g, c, "KEY_OPTION", vars) {
            Ok(_) => Some(BroadcastMsg::RequestPressedKeys),
            Err(_) => None,
        },
        Kind::TouchingObject => match option(g, c, "TOUCHINGOBJECTMENU", vars) {
            Ok(Value::Text(t)) => {
                if text_eq(t.as_str(), "_mouse_") {
                    Some(BroadcastMsg::RequestMousePosition)
                } else if text_eq(t.as_str(), "_edge_") {
                    None
                } else {
                    Some(BroadcastMsg::RequestSpriteRectangle(t))
                }
            },
            _ => None,
        },
        _ => None,
    }
}

/// The answer last recorded for the reporter at `c`.
pub open spec fn answer_in(known: Seq<(usize, Value)>, c: usize) -> Option<Value>
    decreases known.len(),
{
    if known.len() == 0 {
        None
    } else if known.last().0 == c {
        Some(known.last().1)
    } else {
        answer_in(known.drop_last(), c)
    }
}

pub open spec fn answers_wf(known: Seq<(usize, Value)>) -> bool {
    forall|j: int| 0 <= j < known.len() ==> (#[trigger] known[j]).1.wf()
}

fn find_answer(known: &Vec<(usize, Value)>, c: usize) -> (r: Option<Value>)
    requires
        answers_wf(known@),
    ensures
        r == answer_in(known@, c),
        r matches Some(v) ==> v.wf(),
{
    let mut i = known.len();
    assert(known@.subrange(0, i as int) =~= known@);
    while i > 0
        invariant
            i <= known@.len(),
            answers_wf(known@),
            answer_in(known@.subrange(0, i as int), c) == answer_in(known@, c),
        decreases i,
    {
        let ghost s = known@.subrange(0, i as int);
        if known[i - 1].0 == c {
            assert(s.last() == known@[i - 1]);
            return Some(known[i - 1].1.clone());
        }
        assert(s.drop_last() =~= known@.subrange(0, i - 1));
        i = i - 1;
    }
    None
}

/// The value of the reporter at `c`, given the answers `known` that the input layer gave.
pub open spec fn reporter_value(
    g: Seq<Block>,
    c: int,
    vars: Variables,
    known: Seq<(usize, Value)>,
    sprite: SpriteRuntime,
) -> Option<Value> {
    let b = g[c];
    match b.kind {
        Kind::KeyPressed => if request_of(g, c, vars) is Some {
            answer_in(known, c as usize)
        } else {
            None
        },
        Kind::TouchingObject => if request_of(g, c, vars) is Some {
            answer_in(known, c as usize)
        } else if option_value(g, b, "TOUCHINGOBJECTMENU"@, vars) matches Some(Value::Text(t)) && t@
            == "_edge_"@ {
            Some(Value::Bool(sprite.spec_rectangle().spec_on_edge()))
        } else {
            None
        },
        _ => plain_value(b, vars),
    }
}

/// Evaluates the reporter at `c`.
pub fn value(
    g: &BlockGraph,
    c: usize,
    vars: &Variables,
    known: &Vec<(usize, Value)>,
    sprite: &SpriteRuntime,
) -> (r: Result<Value, Error>)
    requires
        g.wf(),
        vars.wf(),
        sprite.wf(),
        answers_wf(known@),
        c < g@.len(),
    ensures
        r is Ok <==> reporter_value(g@, c as int, *vars, known@, *sprite) is Some,
        r matches Ok(v) ==> v.wf() && Some(v) == reporter_value(g@, c as int, *vars, known@, *sprite),
{
    proof {
        reveal_strlit("TOUCHINGOBJECTMENU");
    }
    match g.node(c).kind {
        Kind::KeyPressed | Kind::TouchingObject => match request(g, c, vars) {
            Some(_) => match find_answer(known, c) {
                Some(v) => Ok(v),
                None => Err(Error::NoValue),
            },
            None => {
                if g.node(c).kind == Kind::TouchingObject {
                    if let Ok(Value::Text(t)) = option(g, c, "TOUCHINGOBJECTMENU", vars) {
                        if text_eq(t.as_str(), "_edge_") {
                            return Ok(Value::Bool(sprite.rectangle().on_edge()));
                        }
                    }
                }
                Err(Error::NoValue)
            },
        },
        _ => plain(g, c, vars),
    }
}

/// What the input layer's message `msg` makes the reporter at `c` worth, where `msg`
/// answers the reporter's request.
pub open spec fn answer_value(
    g: Seq<Block>,
    c: int,
    vars: Variables,
    sprite: SpriteRuntime,
    msg: BroadcastMsg,
) -> Option<Value> {
    match request_of(g, c, vars) {
        Some(q) => if spec_answers(q, msg) {
            match msg {
                BroadcastMsg::PressedKeys(keys) => match option_value(g, g[c], "KEY_OPTION"@, vars) {
                    Some(v) => Some(
                        Value::Bool(text_of(v) == "any"@ || holds_key(keys@, text_of(v))),
                    ),
                    None => None,
                },
                BroadcastMsg::MousePosition(p) => Some(
                    Value::Bool(sprite.spec_rectangle().spec_contains(p)),
                ),
                BroadcastMsg::SpriteRectangle { rectangle, .. } => Some(
                    Value::Bool(sprite.spec_rectangle().spec_intersects(rectangle)),
                ),
                _ => None,
            }
        } else {
            None
        },
        None => None,
    }
}

/// The value the input layer's message `msg` gives the reporter at `c`; `None` where
/// `msg` is no answer to the reporter's request.
pub fn answer(g: &BlockGraph, c: usize, vars: &Variables, sprite: &SpriteRuntime, msg: &BroadcastMsg) -> (r:
    Option<Value>)
    requires
        g.wf(),
        vars.wf(),
        sprite.wf(),
        c < g@.len(),
    ensures
        r == answer_value(g@, c as int, *vars, *sprite, *msg),
        r matches Some(v) ==> v.wf(),
{
    proof {
        reveal_strlit("KEY_OPTION");
    }
    let q = match request(g, c, vars) {
        Some(q) => q,
        None => return None,
    };
    if !answers(&q, msg) {
        return None;
    }
    match msg {
        BroadcastMsg::PressedKeys(keys) => match option(g, c, "KEY_OPTION", vars) {
            Ok(v) => {
                let t = to_text(&v);
                Some(Value::Bool(key_pressed(t.as_str(), keys)))
            },
            Err(_) => None,
        },
        BroadcastMsg::MousePosition(p) => Some(Value::Bool(sprite.rectangle().contains(p))),
        BroadcastMsg::SpriteRectangle { rectangle, .. } => Some(
            Value::Bool(sprite.rectangle().intersects(rectangle)),
        ),
        _ => None,
    }
}

/// The value wired under `slot` of block `b`, if that input is set and yields one.
pub open spec fn input_value(
    g: Seq<Block>,
    b: Block,
    slot: Seq<char>,
    vars: Variables,
    known: Seq<(usize, Value)>,
    sprite: SpriteRuntime,
) -> Option<Value> {
    match b.input(slot) {
        Some(c) => if c < g.len() {
            reporter_value(g, c as int, vars, known, sprite)
        } else {
            None
        },
        None => None,
    }
}

/// Evaluates the input `slot` of the block at `i`; an unset slot is an error.
fn eval_input(
    g: &BlockGraph,
    i: usize,
    slot: &str,
    vars: &Variables,
    known: &Vec<(usize, Value)>,
    sprite: &SpriteRuntime,
) -> (r: Result<Value, Error>)
    requires
        g.wf(),
        vars.wf(),
        sprite.wf(),
        answers_wf(known@),
        i < g@.len(),
    ensures
        r is Ok <==> input_value(g@, g@[i as int], slot@, *vars, known@, *sprite) is Some,
        r matches Ok(v) ==> v.wf() && Some(v) == input_value(g@, g@[i as int], slot@, *vars, known@, *sprite),
        g@[i as int].input(slot@) is None ==> (r matches Err(Error::UnsetInput { slot: s }) && s@
            == slot@),
{
    let b = g.node(i);
    match b.get_input(slot) {
        Some(c) => {
            assert(crate::block::node_ok(g@[i as int], i as int));
            proof {
                crate::block::lemma_input_below(g@[i as int], slot@, i as int);
            }
            value(g, c, vars, known, sprite)
        },
        None => Err(Error::UnsetInput { slot: String::from_str(slot) }),
    }
}

/// The reporter under `slot` of `b` still waiting for the input layer, with its request.
pub open spec fn slot_pending(
    g: Seq<Block>,
    b: Block,
    slot: Seq<char>,
    vars: Variables,
    known: Seq<(usize, Value)>,
) -> Option<(usize, BroadcastMsg)> {
    match b.input(slot) {
        Some(c) => if c < g.len() && answer_in(known, c) is None {
            match request_of(g, c as int, vars) {
                Some(q) => Some((c, q)),
                None => None,
            }
        } else {
            None
        },
        None => None,
    }
}

/// The first required input of `b` whose reporter still waits for the input layer; none
/// while a required input is unset.
pub open spec fn pending_request(
    g: Seq<Block>,
    b: Block,
    vars: Variables,
    known: Seq<(usize, Value)>,
) -> Option<(usize, BroadcastMsg)> {
    let slots = required_inputs(b.kind);
    if exists|k: int| 0 <= k < slots.len() && b.input(#[trigger] slots[k]) is None {
        None
    } else if slots.len() >= 1 && slot_pending(g, b, slots[0], vars, known) is Some {
        slot_pending(g, b, slots[0], vars, known)
    } else if slots.len() >= 2 {
        slot_pending(g, b, slots[1], vars, known)
    } else {
        None
    }
}

fn pending_in(g: &BlockGraph, i: usize, slot: &str, vars: &Variables, known: &Vec<(usize, Value)>) -> (r:
    Option<(usize, BroadcastMsg)>)
    requires
        g.wf(),
        vars.wf(),
        answers_wf(known@),
        i < g@.len(),
    ensures
        r == slot_pending(g@, g@[i as int], slot@, *vars, known@),
{
    match g.node(i).get_input(slot) {
        Some(c) => {
            assert(crate::block::node_ok(g@[i as int], i as int));
            proof {
                crate::block::lemma_input_below(g@[i as int], slot@, i as int);
            }
            match find_answer(known, c) {
                Some(_) => None,
                None => match request(g, c, vars) {
                    Some(q) => Some((c, q)),
                    None => None,
                },
            }
        },
        None => None,
    }
}

/// The first required input of the block at `i` still waiting for the input layer.
pub fn pending(g: &BlockGraph, i: usize, vars: &Variables, known: &Vec<(usize, Value)>) -> (r: Option<
    (usize, BroadcastMsg),
>)
    requires
        g.wf(),
        vars.wf(),
        answers_wf(known@),
        i < g@.len(),
    ensures
        r == pending_request(g@, g@[i as int], *vars, known@),
{
    let b = g.node(i);
    let ghost slots = required_inputs(b.kind);
    proof {
        reveal_strlit("BROADCAST_INPUT");
        reveal_strlit("VALUE");
        reveal_strlit("MESSAGE");
        reveal_strlit("SECS");
        reveal_strlit("SIZE");
        reveal_strlit("COLOR");
        reveal_strlit("SHADE");
        reveal_strlit("HUE");
    }
    let (first, second): (&str, Option<&str>) = match b.kind {
        Kind::Broadcast | Kind::BroadcastAndWait => ("BROADCAST_INPUT", None),
        Kind::SetVariable | Kind::ChangeVariable => ("VALUE", None),
        Kind::Say => ("MESSAGE", None),
        Kind::SayForSecs => ("MESSAGE", Some("SECS")),
        Kind::SetSizeTo | Kind::SetPenSizeTo => ("SIZE", None),
        Kind::SetPenColorToColor => ("COLOR", None),
        Kind::SetPenShadeToNumber => ("SHADE", None),
        Kind::SetPenHueToNumber => ("HUE", None),
        _ => return None,
    };
    assert(slots.len() >= 1 && slots[0] == first@);
    assert(second matches Some(t) ==> slots.len() == 2 && slots[1] == t@);
    assert(second is None ==> slots.len() == 1);
    if b.get_input(first).is_none() {
        return None;
    }
    if let Some(t) = second {
        if b.get_input(t).is_none() {
            return None;
        }
    }
    assert(!exists|k: int| 0 <= k < slots.len() && b.input(#[trigger] slots[k]) is None);
    match pending_in(g, i, first, vars, known) {
        Some(p) => Some(p),
        None => match second {
            Some(t) => pending_in(g, i, t, vars, known),
            None => None,
        },
    }
}

/// Milliseconds in `secs` seconds, rounded half up; zero below zero, at most `u32::MAX`.
pub open spec fn spec_millis(secs: Number) -> int {
    if secs.mantissa <= 0 {
        0
    } else {
        let ms = (secs.mantissa * 1000 + pow10(secs.scale as nat) / 2) / pow10(secs.scale as nat);
        if ms > u32::MAX {
            u32::MAX as int
        } else {
            ms
        }
    }
}

pub fn millis(secs: &Number) -> (r: u32)
    requires
        secs.wf(),
    ensures
        r == spec_millis(*secs),
{
    if secs.mantissa <= 0 {
        return 0;
    }
    let p = pow10_i64(secs.scale);
    proof {
        crate::number::lemma_pow10_monotone(0, secs.scale as nat);
        crate::number::lemma_pow10_monotone(secs.scale as nat, 18);
        reveal_with_fuel(pow10, 19);
    }
    let num: i128 = (secs.mantissa as i128) * 1000 + (p as i128) / 2;
    let ms: i128 = num / (p as i128);
    if ms > u32::MAX as i128 {
        u32::MAX
    } else {
        ms as u32
    }
}

/// The slots a statement cannot run without.
pub open spec fn required_inputs(k: Kind) -> Seq<Seq<char>> {
    match k {
        Kind::Broadcast | Kind::BroadcastAndWait => seq!["BROADCAST_INPUT"@],
        Kind::SetVariable | Kind::ChangeVariable => seq!["VALUE"@],
        Kind::Say => seq!["MESSAGE"@],
        Kind::SayForSecs => seq!["MESSAGE"@, "SECS"@],
        Kind::SetSizeTo | Kind::SetPenSizeTo => seq!["SIZE"@],
        Kind::SetPenColorToColor => seq!["COLOR"@],
        Kind::SetPenShadeToNumber => seq!["SHADE"@],
        Kind::SetPenHueToNumber => seq!["HUE"@],
        _ => seq![],
    }
}

/// Whether a kind runs as a statement.
pub open spec fn executable(k: Kind) -> bool {
    match k {
        Kind::WhenFlagClicked | Kind::WhenBroadcastReceived | Kind::Broadcast
        | Kind::BroadcastAndWait | Kind::WhenThisSpriteClicked | Kind::SetVariable
        | Kind::ChangeVariable | Kind::Say | Kind::SayForSecs | Kind::Hide | Kind::Show
        | Kind::SetSizeTo | Kind::PenDown | Kind::PenUp | Kind::Clear | Kind::SetPenSizeTo
        | Kind::SetPenColorToColor | Kind::SetPenShadeToNumber | Kind::SetPenHueToNumber => true,
        _ => false,
    }
}

/// The graph is as before but for the `started` mark of block `i`.
pub open spec fn same_but_started(a: Seq<Block>, b: Seq<Block>, i: int) -> bool {
    &&& a.len() == b.len()
    &&& forall|j: int| 0 <= j < a.len() && j != i ==> a[j] == b[j]
    &&& a[i].kind == b[i].kind && a[i].id == b[i].id && a[i].next == b[i].next && a[i].inputs
        == b[i].inputs && a[i].field == b[i].field && a[i].literal == b[i].literal
}

/// Whether the message `m` ends the wait `w` of a block of `sprite`.
pub open spec fn ends_wait(w: Wait, m: BroadcastMsg, sprite: SpriteRuntime) -> bool {
    match w {
        Wait::Start(name) => m matches BroadcastMsg::Start(s) && s@ == name@,
        Wait::Finished(name) => m matches BroadcastMsg::Finished(s) && s@ == name@,
        Wait::Click => m matches BroadcastMsg::MouseClick(c) && sprite.spec_rectangle().spec_contains(
            c,
        ),
        Wait::Timer(_) | Wait::Answer(_) | Wait::PenShade(_) | Wait::PenHue(_) => false,
    }
}

/// Whether a kind changes the sprite's own state when it runs.
pub open spec fn changes_sprite(k: Kind) -> bool {
    match k {
        Kind::Say | Kind::SayForSecs | Kind::Hide | Kind::Show | Kind::SetSizeTo | Kind::PenDown
        | Kind::PenUp | Kind::Clear | Kind::SetPenSizeTo | Kind::SetPenColorToColor
        | Kind::SetPenShadeToNumber | Kind::SetPenHueToNumber => true,
        _ => false,
    }
}

/// What running the statement at `i` does: from graph `g0`, sprite `s0` and variables `v0`,
/// with the input layer's answers `known`, to `g1`, `s1` and `v1`, with effect `r`.
pub open spec fn executes(
    g0: BlockGraph,
    g1: BlockGraph,
    i: int,
    s0: SpriteRuntime,
    s1: SpriteRuntime,
    v0: Variables,
    v1: Variables,
    known: Seq<(usize, Value)>,
    r: Effect,
) -> bool {
    &&& g1.wf()
    &&& v1.wf()
    &&& s1.wf()
    &&& same_but_started(g0@, g1@, i)
    &&& g1@[i].started == (g0@[i].started && g0@[i].kind
            != Kind::WhenBroadcastReceived)
    &&& forall|k: int|
            0 <= k < required_inputs(g0@[i].kind).len() && g0@[i].input(
                #[trigger] required_inputs(g0@[i].kind)[k],
            ) is None ==> (r.outcome matches Outcome::Done(Next::Fail(_))) && r.send is None
    &&& !executable(g0@[i].kind) ==> (r.outcome matches Outcome::Done(
        Next::Fail(Error::CannotExecute),
    )) && r.send is None
    &&& !(r.outcome matches Outcome::Done(Next::Fail(_))) ==> executable(g0@[i].kind)
    &&& g0@[i].kind != Kind::SetVariable && g0@[i].kind != Kind::ChangeVariable
            ==> v1 == v0
    &&& (r.outcome matches Outcome::Done(Next::Fail(_))) ==> v1 == v0
    &&& pending_request(g0@, g0@[i], v0, known) matches Some((c, q)) ==> r.send
            == Some(q) && r.outcome == Outcome::Await(Wait::Answer(c)) && g1@ == g0@
            && v1 == v0 && s1 == s0
    &&& pending_request(g0@, g0@[i], v0, known) is None ==> ({
            let b = g0@[i];
            &&& b.kind == Kind::WhenFlagClicked ==> r.send is None && r.outcome == (if s0.spec_is_a_clone() {
                Outcome::Done(Next::End)
            } else {
                Outcome::Done(spec_continue(b.next))
            })
            &&& b.kind == Kind::WhenBroadcastReceived && b.started ==> (r.send matches Some(
                BroadcastMsg::Finished(s),
            ) && s@ == b.field@) && r.outcome == Outcome::Done(Next::End)
            &&& b.kind == Kind::WhenBroadcastReceived && !b.started ==> r.send is None && (
            r.outcome matches Outcome::Await(Wait::Start(s)) && s@ == b.field@)
            &&& b.kind == Kind::WhenThisSpriteClicked ==> r.send is None && r.outcome
                == Outcome::Await(Wait::Click)
            &&& (b.kind == Kind::Broadcast || b.kind == Kind::BroadcastAndWait) ==> match input_value(g0@, b, "BROADCAST_INPUT"@, v0, known, s0) {
                Some(v) => (r.send matches Some(BroadcastMsg::Start(s)) && s@ == text_of(v)) && (
                b.kind == Kind::Broadcast ==> r.outcome == Outcome::Done(spec_continue(b.next))) && (
                b.kind == Kind::BroadcastAndWait ==> (r.outcome matches Outcome::Await(
                    Wait::Finished(s),
                ) && s@ == text_of(v))),
                None => (r.outcome matches Outcome::Done(Next::Fail(_))) && r.send is None,
            }
            &&& b.kind == Kind::SetVariable ==> match input_value(g0@, b, "VALUE"@, v0, known, s0) {
                Some(v) => r.send is None && r.outcome == Outcome::Done(spec_continue(b.next))
                    && forall|k: Seq<char>| #[trigger]
                        v1.view_at(k) == if k == b.field@ {
                            Some(v)
                        } else {
                            v0.view_at(k)
                        },
                None => r.outcome matches Outcome::Done(Next::Fail(_)),
            }
            &&& b.kind == Kind::ChangeVariable ==> match (
                v0.view_at(b.field@),
                input_value(g0@, b, "VALUE"@, v0, known, s0),
            ) {
                (Some(prev), Some(v)) => match number_of(v) {
                    Some(d) => {
                        let p = match number_of(prev) {
                            Some(n) => n,
                            None => Number { mantissa: 0, scale: 0 },
                        };
                        if p.sum_fits(d) {
                            r.send is None && r.outcome == Outcome::Done(spec_continue(b.next))
                                && forall|k: Seq<char>| #[trigger]
                                v1.view_at(k) == if k == b.field@ {
                                    Some(
                                        Value::Number(
                                            Number {
                                                mantissa: (p.left_term(d) + p.right_term(d)) as i64,
                                                scale: p.sum_scale(d) as u32,
                                            },
                                        ),
                                    )
                                } else {
                                    v0.view_at(k)
                                }
                        } else {
                            r.outcome matches Outcome::Done(Next::Fail(Error::NumberOutOfRange))
                        }
                    },
                    None => r.outcome matches Outcome::Done(Next::Fail(_)),
                },
                (None, _) => r.outcome matches Outcome::Done(Next::Fail(Error::MissingVariable { .. })),
                (_, None) => r.outcome matches Outcome::Done(Next::Fail(_)),
            }
            &&& b.kind == Kind::Say ==> match input_value(g0@, b, "MESSAGE"@, v0, known, s0) {
                Some(v) => r.send is None && r.outcome == Outcome::Done(spec_continue(b.next))
                    && s1.spec_text() == Some(text_of(v)),
                None => r.outcome matches Outcome::Done(Next::Fail(_)),
            }
            &&& b.kind == Kind::SayForSecs ==> match (
                input_value(g0@, b, "MESSAGE"@, v0, known, s0),
                input_value(g0@, b, "SECS"@, v0, known, s0),
            ) {
                (Some(v), Some(s)) => match number_of(s) {
                    Some(n) => r.send is None && (r.outcome matches Outcome::Await(Wait::Timer(ms))
                        && ms == spec_millis(n)) && s1.spec_text() == Some(text_of(v)),
                    None => r.outcome matches Outcome::Done(Next::Fail(_)),
                },
                _ => r.outcome matches Outcome::Done(Next::Fail(_)),
            }
            &&& (b.kind == Kind::Hide || b.kind == Kind::Show) ==> r.send is None && r.outcome
                == Outcome::Done(spec_continue(b.next)) && s1.spec_hidden() == (b.kind
                == Kind::Hide)
            &&& b.kind == Kind::PenDown ==> r.send is None && r.outcome == Outcome::Done(
                spec_continue(b.next),
            ) && s1.spec_pen().spec_down()
            &&& b.kind == Kind::PenUp ==> r.send is None && r.outcome == Outcome::Done(
                spec_continue(b.next),
            ) && !s1.spec_pen().spec_down()
            &&& b.kind == Kind::Clear ==> r.send is None && r.outcome == Outcome::Done(
                spec_continue(b.next),
            ) && s1.spec_pen().spec_lines().len() == 1
                && s1.spec_pen().spec_lines()[0].points.len() == 0
            &&& b.kind == Kind::SetPenSizeTo ==> match input_value(
                g0@,
                b,
                "SIZE"@,
                v0,
                known,
                s0,
            ) {
                Some(v) => match number_of(v) {
                    Some(n) => r.send is None && r.outcome == Outcome::Done(spec_continue(b.next))
                        && s1.spec_pen().spec_lines().last().size == n,
                    None => r.outcome matches Outcome::Done(Next::Fail(_)),
                },
                None => r.outcome matches Outcome::Done(Next::Fail(_)),
            }
            &&& b.kind == Kind::SetPenColorToColor ==> match input_value(
                g0@,
                b,
                "COLOR"@,
                v0,
                known,
                s0,
            ) {
                Some(v) => if is_hex_color(text_of(v)) {
                    r.send is None && r.outcome == Outcome::Done(spec_continue(b.next))
                        && s1.spec_pen().spec_lines().last().color == (
                        channel_value(text_of(v), 1) as u8,
                        channel_value(text_of(v), 3) as u8,
                        channel_value(text_of(v), 5) as u8,
                    )
                } else {
                    r.outcome matches Outcome::Done(Next::Fail(Error::InvalidColor { .. }))
                },
                None => r.outcome matches Outcome::Done(Next::Fail(_)),
            }
            &&& (b.kind == Kind::SetPenShadeToNumber || b.kind == Kind::SetPenHueToNumber) ==> match input_value(
            g0@,
            b,
            if b.kind == Kind::SetPenShadeToNumber {
                "SHADE"@
            } else {
                "HUE"@
            },
            v0,
            known,
            s0,
        ) {
            Some(v) => match number_of(v) {
                Some(n) => r.send is None && s1 == s0 && r.outcome == Outcome::Await(
                    if b.kind == Kind::SetPenShadeToNumber {
                        Wait::PenShade(n)
                    } else {
                        Wait::PenHue(n)
                    },
                ),
                None => r.outcome matches Outcome::Done(Next::Fail(_)),
            },
            None => r.outcome matches Outcome::Done(Next::Fail(_)),
        }
        &&& b.kind == Kind::SetSizeTo ==> match input_value(g0@, b, "SIZE"@, v0, known, s0) {
                Some(v) => match number_of(v) {
                    Some(n) => r.send is None && r.outcome == Outcome::Done(spec_continue(b.next))
                        && s1.spec_size_percent() == n,
                    None => r.outcome matches Outcome::Done(Next::Fail(_)),
                },
                None => r.outcome matches Outcome::Done(Next::Fail(_)),
            }
    })
    &&& (r.outcome matches Outcome::Done(Next::Fail(_))) ==> s1 == s0 && g1@ == g0@
    &&& !changes_sprite(g0@[i].kind) ==> s1 == s0
}

/// Runs the statement at `i` up to its first wait.
#[verifier::rlimit(50)]
pub fn execute(
    g: &mut BlockGraph,
    i: usize,
    sprite: &mut SpriteRuntime,
    vars: &mut Variables,
    known: &Vec<(usize, Value)>,
) -> (r: Effect)
    requires
        old(g).wf(),
        old(vars).wf(),
        old(sprite).wf(),
        answers_wf(known@),
        i < old(g)@.len(),
    ensures
        executes(*old(g), *final(g), i as int, *old(sprite), *final(sprite), *old(vars), *final(vars), known@, r),
{
    let ghost g0 = g@;
    let kind = g.node(i).kind;
    let next = g.node(i).next;
    proof {
        reveal_strlit("BROADCAST_INPUT");
        reveal_strlit("VALUE");
        reveal_strlit("MESSAGE");
        reveal_strlit("SECS");
        reveal_strlit("SIZE");
        reveal_strlit("COLOR");
        reveal_strlit("SHADE");
        reveal_strlit("HUE");
    }
    let done = |n: Next| -> (e: Effect)
        ensures
            e.send is None,
            e.outcome == Outcome::Done(n),
        { Effect { send: None, outcome: Outcome::Done(n) } };
    if let Some((c, q)) = pending(g, i, vars, known) {
        return Effect { send: Some(q), outcome: Outcome::Await(Wait::Answer(c)) };
    }
    match kind {
        Kind::WhenFlagClicked => {
            if sprite.is_a_clone() {
                done(Next::End)
            } else {
                done(Next::continue_(next))
            }
        },
        Kind::WhenBroadcastReceived => {
            let name = g.node(i).field.clone();
            if g.node(i).started {
                g.set_started(i, false);
                Effect { send: Some(BroadcastMsg::Finished(name)), outcome: Outcome::Done(Next::End) }
            } else {
                Effect { send: None, outcome: Outcome::Await(Wait::Start(name)) }
            }
        },
        Kind::WhenThisSpriteClicked => Effect { send: None, outcome: Outcome::Await(Wait::Click) },
        Kind::Broadcast | Kind::BroadcastAndWait => {
            let v = match eval_input(g, i, "BROADCAST_INPUT", vars, known, sprite) {
                Ok(v) => v,
                Err(e) => return done(Next::Fail(e)),
            };
            let msg = to_text(&v);
            match kind {
                Kind::Broadcast => Effect {
                    send: Some(BroadcastMsg::Start(msg)),
                    outcome: Outcome::Done(Next::continue_(next)),
                },
                _ => {
                    let wait_for = msg.clone();
                    Effect {
                        send: Some(BroadcastMsg::Start(msg)),
                        outcome: Outcome::Await(Wait::Finished(wait_for)),
                    }
                },
            }
        },
        Kind::SetVariable => {
            let v = match eval_input(g, i, "VALUE", vars, known, sprite) {
                Ok(v) => v,
                Err(e) => return done(Next::Fail(e)),
            };
            let name = g.node(i).field.clone();
            vars.set(name, v);
            done(Next::continue_(next))
        },
        Kind::ChangeVariable => {
            let name = g.node(i).field.clone();
            let prev = match vars.get(&name) {
                Some(p) => p,
                None => return done(Next::Fail(Error::MissingVariable { id: name })),
            };
            proof {
                vars.lemma_values_wf(name@);
            }
            let v = match eval_input(g, i, "VALUE", vars, known, sprite) {
                Ok(v) => v,
                Err(e) => return done(Next::Fail(e)),
            };
            let p = to_number_or_zero(&prev);
            let d = match to_number(&v) {
                Ok(d) => d,
                Err(e) => return done(Next::Fail(e)),
            };
            let sum = match p.checked_add(&d) {
                Some(s) => s,
                None => return done(Next::Fail(Error::NumberOutOfRange)),
            };
            vars.set(name, Value::Number(sum));
            done(Next::continue_(next))
        },
        Kind::Say => {
            let v = match eval_input(g, i, "MESSAGE", vars, known, sprite) {
                Ok(v) => v,
                Err(e) => return done(Next::Fail(e)),
            };
            let id = g.node(i).id.clone();
            sprite.say(Text { id, text: Some(to_text(&v)) });
            done(Next::continue_(next))
        },
        Kind::SayForSecs => {
            let v = match eval_input(g, i, "MESSAGE", vars, known, sprite) {
                Ok(v) => v,
                Err(e) => return done(Next::Fail(e)),
            };
            let s = match eval_input(g, i, "SECS", vars, known, sprite) {
                Ok(s) => s,
                Err(e) => return done(Next::Fail(e)),
            };
            let n = match to_number(&s) {
                Ok(n) => n,
                Err(e) => return done(Next::Fail(e)),
            };
            let id = g.node(i).id.clone();
            sprite.say(Text { id, text: Some(to_text(&v)) });
            Effect { send: None, outcome: Outcome::Await(Wait::Timer(millis(&n))) }
        },
        Kind::Hide => {
            sprite.set_hide(HideStatus::Hide);
            done(Next::continue_(next))
        },
        Kind::Show => {
            sprite.set_hide(HideStatus::Show);
            done(Next::continue_(next))
        },
        Kind::SetSizeTo => {
            let v = match eval_input(g, i, "SIZE", vars, known, sprite) {
                Ok(v) => v,
                Err(e) => return done(Next::Fail(e)),
            };
            let n = match to_number(&v) {
                Ok(n) => n,
                Err(e) => return done(Next::Fail(e)),
            };
            sprite.set_size_percent(n);
            done(Next::continue_(next))
        },
        Kind::PenDown => {
            sprite.pen_down();
            done(Next::continue_(next))
        },
        Kind::PenUp => {
            sprite.pen_up();
            done(Next::continue_(next))
        },
        Kind::Clear => {
            sprite.pen_clear();
            done(Next::continue_(next))
        },
        Kind::SetPenSizeTo => {
            let v = match eval_input(g, i, "SIZE", vars, known, sprite) {
                Ok(v) => v,
                Err(e) => return done(Next::Fail(e)),
            };
            let n = match to_number(&v) {
                Ok(n) => n,
                Err(e) => return done(Next::Fail(e)),
            };
            sprite.set_pen_size(n);
            done(Next::continue_(next))
        },
        Kind::SetPenColorToColor => {
            let v = match eval_input(g, i, "COLOR", vars, known, sprite) {
                Ok(v) => v,
                Err(e) => return done(Next::Fail(e)),
            };
            let text = to_text(&v);
            let color = match hex_to_rgb(text.as_str()) {
                Ok(c) => c,
                Err(e) => return done(Next::Fail(e)),
            };
            sprite.set_pen_color(color);
            done(Next::continue_(next))
        },
        Kind::SetPenShadeToNumber | Kind::SetPenHueToNumber => {
            let slot = if kind == Kind::SetPenShadeToNumber {
                "SHADE"
            } else {
                "HUE"
            };
            let v = match eval_input(g, i, slot, vars, known, sprite) {
                Ok(v) => v,
                Err(e) => return done(Next::Fail(e)),
            };
            let n = match to_number(&v) {
                Ok(n) => n,
                Err(e) => return done(Next::Fail(e)),
            };
            let w = if kind == Kind::SetPenShadeToNumber {
                Wait::PenShade(n)
            } else {
                Wait::PenHue(n)
            };
            Effect { send: None, outcome: Outcome::Await(w) }
        },
        _ => done(Next::Fail(Error::CannotExecute)),
    }
}

/// Whether a thread whose pass ended starts over at its top block, to wait again.
pub open spec fn rearms(k: Kind) -> bool {
    k == Kind::WhenBroadcastReceived || k == Kind::WhenThisSpriteClicked
}

/// Hands the message `msg` to the block at `i`, which waits for `wait`. Returns how the
/// block goes on where the message ends the wait, and `None` where it does not.
pub fn resume(g: &mut BlockGraph, i: usize, wait: &Wait, msg: &BroadcastMsg, sprite: &SpriteRuntime) -> (r:
    Option<Next>)
    requires
        old(g).wf(),
        sprite.wf(),
        i < old(g)@.len(),
    ensures
        final(g).wf(),
        same_but_started(old(g)@, final(g)@, i as int),
        r is Some <==> ends_wait(*wait, *msg, *sprite),
        r is None ==> final(g)@ == old(g)@,
        r is Some && wait is Start ==> r == Some(spec_loop(old(g)@[i as int].next))
            && final(g)@[i as int].started,
        r is Some && !(wait is Start) ==> r == Some(spec_continue(old(g)@[i as int].next))
            && final(g)@ == old(g)@,
{
    let next = g.node(i).next;
    match (wait, msg) {
        (Wait::Start(name), BroadcastMsg::Start(s)) => {
            if *s == *name {
                g.set_started(i, true);
                Some(Next::loop_(next))
            } else {
                None
            }
        },
        (Wait::Finished(name), BroadcastMsg::Finished(s)) => {
            if *s == *name {
                Some(Next::continue_(next))
            } else {
                None
            }
        },
        (Wait::Click, BroadcastMsg::MouseClick(c)) => {
            if sprite.rectangle().contains(c) {
                Some(Next::continue_(next))
            } else {
                None
            }
        },
        _ => None,
    }
}

/// Ends the timed wait of the block at `i`: a timed speech bubble goes away, unless
/// another block replaced it meanwhile.
pub fn timer_fired(g: &BlockGraph, i: usize, sprite: &mut SpriteRuntime) -> (r: Next)
    requires
        g.wf(),
        old(sprite).wf(),
        i < g@.len(),
    ensures
        final(sprite).wf(),
        r == spec_continue(g@[i as int].next),
        g@[i as int].kind == Kind::SayForSecs && g@[i as int].id@ == old(sprite).spec_text_owner()
            ==> final(sprite).spec_text() is None,
        g@[i as int].kind != Kind::SayForSecs ==> *final(sprite) == *old(sprite),
{
    let b = g.node(i);
    if b.kind == Kind::SayForSecs {
        sprite.say(Text { id: b.id.clone(), text: None });
    }
    Next::continue_(b.next)
}

/// How far a thread got in one step.
#[derive(Debug)]
pub enum Progress {
    /// It moved to its next block, or ended a pass and starts over.
    Moved,
    /// Its current block waits; hand it messages through `Thread::resume`, or the
    /// timer's end through `Thread::timer_fired`.
    Waiting(Wait),
    /// It has nothing more to run.
    Finished,
}

/// The result of one step: a message to publish, then the progress or the error.
#[derive(Debug)]
pub struct Step {
    pub send: Option<BroadcastMsg>,
    pub result: Result<Progress, Error>,
}

/// One logical thread: the chain below a top-level block.
#[derive(Debug)]
pub struct Thread {
    top: usize,
    current: Option<usize>,
    loops: Vec<usize>,
    /// Answers the input layer gave for the current block's inputs.
    known: Vec<(usize, Value)>,
}

impl Thread {
    pub closed spec fn spec_top(&self) -> usize {
        self.top
    }

    pub closed spec fn spec_current(&self) -> Option<usize> {
        self.current
    }

    /// The waiting blocks to come back to, innermost last.
    pub closed spec fn spec_loops(&self) -> Seq<usize> {
        self.loops@
    }

    pub closed spec fn spec_known(&self) -> Seq<(usize, Value)> {
        self.known@
    }

    /// The current block and the waiting blocks to come back to.
    pub open spec fn position(&self) -> (Option<usize>, Seq<usize>) {
        (self.spec_current(), self.spec_loops())
    }

    pub open spec fn wf(&self, len: nat) -> bool {
        &&& answers_wf(self.spec_known())
        &&& self.spec_top() < len
        &&& (self.spec_current() matches Some(c) ==> c < len)
        &&& forall|j: int| 0 <= j < self.spec_loops().len() ==> #[trigger] self.spec_loops()[j] < len
    }

    /// A thread about to run its top block.
    pub fn new(top: usize) -> (r: Thread)
        ensures
            r.spec_top() == top,
            r.spec_current() == Some(top),
            r.spec_loops().len() == 0,
            r.spec_known().len() == 0,
    {
        Thread { top, current: Some(top), loops: Vec::new(), known: Vec::new() }
    }

    pub fn top(&self) -> (r: usize)
        ensures
            r == self.spec_top(),
    {
        self.top
    }

    pub fn current(&self) -> (r: Option<usize>)
        ensures
            r == self.spec_current(),
    {
        self.current
    }

    /// Moves on as `next` says; a failure is handed back.
    pub fn advance(&mut self, next: Next, g: &BlockGraph) -> (r: Result<(), Error>)
        requires
            old(self).wf(g@.len()),
            next matches Next::Continue(b) ==> b < g@.len(),
            next matches Next::Loop(b) ==> b < g@.len(),
        ensures
            final(self).wf(g@.len()),
            final(self).spec_top() == old(self).spec_top(),
            final(self).spec_known() == old(self).spec_known(),
            next matches Next::Fail(e) ==> r == Err::<(), Error>(e) && *final(self) == *old(self),
            !(next is Fail) ==> r is Ok,
            final(self).position() == spec_moved(
                old(self).spec_current(),
                old(self).spec_loops(),
                old(self).spec_top(),
                g@,
                next,
            ),
            next matches Next::Continue(b) ==> final(self).spec_current() == Some(b)
                && final(self).spec_loops() == old(self).spec_loops(),
            next matches Next::Loop(b) ==> final(self).spec_current() == Some(b)
                && final(self).spec_loops() == match old(self).spec_current() {
                Some(c) => old(self).spec_loops().push(c),
                None => old(self).spec_loops(),
            },
            next is End && old(self).spec_loops().len() > 0 ==> final(self).spec_current() == Some(
                old(self).spec_loops().last(),
            ) && final(self).spec_loops() == old(self).spec_loops().drop_last(),
            next is End && old(self).spec_loops().len() == 0 ==> final(self).spec_loops().len() == 0
                && final(self).spec_current() == if rearms(g@[old(self).spec_top() as int].kind) {
                Some(old(self).spec_top())
            } else {
                None
            },
    {
        match next {
            Next::Fail(e) => Err(e),
            Next::Continue(b) => {
                self.current = Some(b);
                Ok(())
            },
            Next::Loop(b) => {
                if let Some(c) = self.current {
                    self.loops.push(c);
                }
                self.current = Some(b);
                Ok(())
            },
            Next::End => {
                match self.loops.pop() {
                    Some(c) => {
                        self.current = Some(c);
                    },
                    None => {
                        let k = g.node(self.top).kind;
                        if k == Kind::WhenBroadcastReceived || k == Kind::WhenThisSpriteClicked {
                            self.current = Some(self.top);
                        } else {
                            self.current = None;
                        }
                    },
                }
                Ok(())
            },
        }
    }

    /// Runs the current block up to its first wait, and moves on.
    pub fn step(&mut self, g: &mut BlockGraph, sprite: &mut SpriteRuntime, vars: &mut Variables) -> (r:
        Step)
        requires
            old(g).wf(),
            old(vars).wf(),
            old(sprite).wf(),
            old(self).wf(old(g)@.len()),
        ensures
            final(g).wf(),
            final(vars).wf(),
            final(sprite).wf(),
            final(self).wf(final(g)@.len()),
            final(g)@.len() == old(g)@.len(),
            steps(
                *old(self),
                *final(self),
                *old(g),
                *final(g),
                *old(sprite),
                *final(sprite),
                *old(vars),
                *final(vars),
                r,
            ),
    {
        let i = match self.current {
            Some(i) => i,
            None => return Step { send: None, result: Ok(Progress::Finished) },
        };
        let ghost g0 = *g;
        let ghost s0 = *sprite;
        let ghost v0 = *vars;
        let ghost t0 = *self;
        proof {
            assert(crate::block::node_ok(g0@[i as int], i as int));
        }
        let eff = execute(g, i, sprite, vars, &self.known);
        let ghost e = eff;
        assert(executes(g0, *g, i as int, s0, *sprite, v0, *vars, t0.spec_known(), e));
        match eff.outcome {
            Outcome::Await(Wait::Answer(_)) => {},
            _ => {
                self.known = Vec::new();
                assert(self.known@ =~= Seq::<(usize, Value)>::empty());
            },
        }
        assert(answers_wf(self.known@));
        assert(g@.len() == g0@.len());
        assert(self.spec_loops() == old(self).spec_loops());
        assert(self.wf(g@.len()));
        let result = match eff.outcome {
            Outcome::Await(w) => Ok(Progress::Waiting(w)),
            Outcome::Done(n) => {
                match self.advance(n, g) {
                    Ok(()) => match self.current {
                        Some(_) => Ok(Progress::Moved),
                        None => Ok(Progress::Finished),
                    },
                    Err(e) => Err(e),
                }
            },
        };
        let r = Step { send: eff.send, result };
        assert(executes(g0, *g, i as int, s0, *sprite, v0, *vars, t0.spec_known(), e) && r.send == e.send);
        r
    }

    /// Hands `msg` to the waiting current block; returns whether it ended the wait. An
    /// answer of the input layer is recorded, and the block runs again with it.
    pub fn resume(
        &mut self,
        g: &mut BlockGraph,
        wait: &Wait,
        msg: &BroadcastMsg,
        sprite: &SpriteRuntime,
        vars: &Variables,
    ) -> (r: bool)
        requires
            old(g).wf(),
            sprite.wf(),
            vars.wf(),
            old(self).wf(old(g)@.len()),
        ensures
            final(g).wf(),
            final(g)@.len() == old(g)@.len(),
            final(self).wf(final(g)@.len()),
            resumes(*old(self), *final(self), *old(g), *final(g), *wait, *msg, *sprite, *vars, r),
    {
        if let Wait::Answer(c) = wait {
            if *c >= g.len() {
                return false;
            }
            return match answer(g, *c, vars, sprite, msg) {
                Some(v) => {
                    let ghost before = self.known@;
                    self.known.push((*c, v));
                    assert(self.spec_loops() == old(self).spec_loops());
                    assert forall|j: int| 0 <= j < self.known@.len() implies (
                    #[trigger] self.known@[j]).1.wf() by {
                        if j < before.len() {
                            assert(self.known@[j] == before[j]);
                        }
                    }
                    true
                },
                None => false,
            };
        }
        let i = match self.current {
            Some(i) => i,
            None => return false,
        };
        let ghost gb = g@;
        match resume(g, i, wait, msg, sprite) {
            Some(n) => {
                proof {
                    assert(crate::block::node_ok(gb[i as int], i as int));
                }
                let _ = self.advance(n, g);
                true
            },
            None => false,
        }
    }

    /// Hands the pen color the host computed for a shade or hue block back: the pen draws
    /// on in `color`, and the thread moves past the block.
    pub fn color_computed(&mut self, g: &BlockGraph, sprite: &mut SpriteRuntime, color: Rgb)
        requires
            g.wf(),
            old(sprite).wf(),
            old(self).wf(g@.len()),
        ensures
            final(sprite).wf(),
            final(self).wf(g@.len()),
            final(self).spec_top() == old(self).spec_top(),
            final(self).spec_known() == old(self).spec_known(),
            match old(self).spec_current() {
                Some(i) => if colors_pen(g@[i as int].kind) {
                    final(self).position() == spec_moved(
                        old(self).spec_current(),
                        old(self).spec_loops(),
                        old(self).spec_top(),
                        g@,
                        spec_continue(g@[i as int].next),
                    ) && final(sprite).spec_pen().spec_lines().last().color == color
                        && final(sprite).same_but_pen(&*old(sprite))
                } else {
                    *final(self) == *old(self) && *final(sprite) == *old(sprite)
                },
                None => *final(self) == *old(self) && *final(sprite) == *old(sprite),
            },
    {
        if let Some(i) = self.current {
            let b = g.node(i);
            if b.kind == Kind::SetPenShadeToNumber || b.kind == Kind::SetPenHueToNumber {
                proof {
                    assert(crate::block::node_ok(g@[i as int], i as int));
                }
                sprite.set_pen_color(color);
                let _ = self.advance(Next::continue_(b.next), g);
            }
        }
    }

    /// Ends the timed wait of the current block.
    pub fn timer_fired(&mut self, g: &BlockGraph, sprite: &mut SpriteRuntime)
        requires
            g.wf(),
            old(sprite).wf(),
            old(self).wf(g@.len()),
        ensures
            final(sprite).wf(),
            final(self).wf(g@.len()),
            timer_ends(*old(self), *final(self), *g, *old(sprite), *final(sprite)),
    {
        if let Some(i) = self.current {
            proof {
                assert(crate::block::node_ok(g@[i as int], i as int));
            }
            let n = timer_fired(g, i, sprite);
            let _ = self.advance(n, g);
        }
    }
}

/// Whether a kind waits for the host to compute the pen's next color.
pub open spec fn colors_pen(k: Kind) -> bool {
    k == Kind::SetPenShadeToNumber || k == Kind::SetPenHueToNumber
}

/// Where a thread stands after its current block ended with `n`: its current block, and
/// the waiting blocks to come back to. A pass that ends with nothing to come back to
/// starts over at the top block where that block waits for an event, and ends the
/// thread otherwise.
pub open spec fn spec_moved(
    current: Option<usize>,
    loops: Seq<usize>,
    top: usize,
    g: Seq<Block>,
    n: Next,
) -> (Option<usize>, Seq<usize>) {
    match n {
        Next::Fail(_) => (current, loops),
        Next::Continue(b) => (Some(b), loops),
        Next::Loop(b) => (
            Some(b),
            match current {
                Some(c) => loops.push(c),
                None => loops,
            },
        ),
        Next::End => if loops.len() > 0 {
            (Some(loops.last()), loops.drop_last())
        } else if rearms(g[top as int].kind) {
            (Some(top), loops)
        } else {
            (None, loops)
        },
    }
}

/// What one step of thread `t0` does: it runs its current block as `executes` says,
/// publishes that block's message, and moves as the block's outcome says.
pub open spec fn steps(
    t0: Thread,
    t1: Thread,
    g0: BlockGraph,
    g1: BlockGraph,
    s0: SpriteRuntime,
    s1: SpriteRuntime,
    v0: Variables,
    v1: Variables,
    r: Step,
) -> bool {
    &&& t1.spec_top() == t0.spec_top()
    &&& match t0.spec_current() {
        None => r.send is None && r.result == Ok::<Progress, Error>(Progress::Finished) && t1 == t0
            && g1 == g0 && s1 == s0 && v1 == v0,
        Some(i) => exists|e: Effect|
            #[trigger] executes(g0, g1, i as int, s0, s1, v0, v1, t0.spec_known(), e) && r.send
                == e.send && match e.outcome {
                Outcome::Await(w) => r.result == Ok::<Progress, Error>(Progress::Waiting(w))
                    && t1.position() == t0.position() && t1.spec_known() == (if w is Answer {
                    t0.spec_known()
                } else {
                    Seq::empty()
                }),
                Outcome::Done(n) => t1.spec_known().len() == 0 && t1.position() == spec_moved(
                    t0.spec_current(),
                    t0.spec_loops(),
                    t0.spec_top(),
                    g1@,
                    n,
                ) && r.result == match n {
                    Next::Fail(err) => Err::<Progress, Error>(err),
                    _ => if t1.spec_current() is Some {
                        Ok::<Progress, Error>(Progress::Moved)
                    } else {
                        Ok::<Progress, Error>(Progress::Finished)
                    },
                },
            },
    }
}

/// What handing `msg` to thread `t0`, waiting for `wait`, does. An answer of the input
/// layer is recorded for the block to run again with it; a message that ends a wait moves
/// the thread on past the waiting block (a started listener comes back to itself).
pub open spec fn resumes(
    t0: Thread,
    t1: Thread,
    g0: BlockGraph,
    g1: BlockGraph,
    wait: Wait,
    msg: BroadcastMsg,
    s: SpriteRuntime,
    v: Variables,
    r: bool,
) -> bool {
    &&& t1.spec_top() == t0.spec_top()
    &&& !r ==> t1 == t0 && g1@ == g0@
    &&& match wait {
        Wait::Answer(c) => (r <==> c < g0@.len() && answer_value(g0@, c as int, v, s, msg) is Some) && (r
            ==> t1.position() == t0.position() && g1@ == g0@ && t1.spec_known()
            == t0.spec_known().push((c, answer_value(g0@, c as int, v, s, msg)->0))),
        _ => match t0.spec_current() {
            None => !r,
            Some(i) => (r <==> ends_wait(wait, msg, s)) && (r ==> t1.spec_known() == t0.spec_known()
                && same_but_started(g0@, g1@, i as int) && t1.position() == spec_moved(
                t0.spec_current(),
                t0.spec_loops(),
                t0.spec_top(),
                g1@,
                if wait is Start {
                    spec_loop(g0@[i as int].next)
                } else {
                    spec_continue(g0@[i as int].next)
                },
            ) && (wait is Start ==> g1@[i as int].started) && (!(wait is Start) ==> g1@ == g0@)),
        },
    }
}

/// What the end of a timed wait does to thread `t0`: it moves past its current block, and
/// a timed speech bubble that block posted goes away.
pub open spec fn timer_ends(t0: Thread, t1: Thread, g: BlockGraph, s0: SpriteRuntime, s1: SpriteRuntime) -> bool {
    &&& t1.spec_top() == t0.spec_top()
    &&& t1.spec_known() == t0.spec_known()
    &&& match t0.spec_current() {
        None => t1 == t0 && s1 == s0,
        Some(i) => t1.position() == spec_moved(
            t0.spec_current(),
            t0.spec_loops(),
            t0.spec_top(),
            g@,
            spec_continue(g@[i as int].next),
        ) && (g@[i as int].kind == Kind::SayForSecs && g@[i as int].id@ == s0.spec_text_owner()
            ==> s1.spec_text() is None) && (g@[i as int].kind != Kind::SayForSecs ==> s1 == s0),
    }
}

/// Broadcast rendezvous. A block waiting for `Finished(x)` is released by a `Finished` of
/// the same name and by no other message, and a listener waiting for `x` is started by a
/// `Start(x)` alone. (A listener publishes `Finished` only on the run after it was started:
/// see `execute` and `resume`.)
pub proof fn law_broadcast_rendezvous(x: String, m: BroadcastMsg, s: SpriteRuntime)
    ensures
        ends_wait(Wait::Finished(x), m, s) <==> (m matches BroadcastMsg::Finished(y) && y@ == x@),
        ends_wait(Wait::Start(x), m, s) <==> (m matches BroadcastMsg::Start(y) && y@ == x@),
{
}

} // verus!
