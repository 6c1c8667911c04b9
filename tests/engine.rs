use scratch_vm::block::Kind;
use scratch_vm::broadcaster::{answers, BroadcastMsg, Broadcaster, ThreadId};
use scratch_vm::builder::{block_tree, Json, RawBlock};
use scratch_vm::controller::{ControllerSemaphore, DebugController, Pass, Speed};
use scratch_vm::error::Error;
use scratch_vm::exec::{execute, resume, Next, Outcome, Progress, Thread, Wait};
use scratch_vm::number::Number;
use scratch_vm::sprite::Sprite;
use scratch_vm::sprite_runtime::{Coordinate, Rectangle, SpriteRuntime};
use scratch_vm::value::Value;
use scratch_vm::variables::Variables;
use scratch_vm::vm::{Control, Event, Scheduler};

fn s(x: &str) -> String {
    x.to_string()
}

fn tag(n: i64) -> Json {
    Json::Number(Number { mantissa: n, scale: 0 })
}

/// An inline literal input: `[1, [10, text]]`.
fn literal(text: &str) -> Json {
    Json::List(vec![tag(1), Json::List(vec![tag(10), Json::Text(s(text))])])
}

/// An input referring to another block: `[2, id]`.
fn reference(id: &str) -> Json {
    Json::List(vec![tag(2), Json::Text(s(id))])
}

fn record(id: &str, opcode: &str, next: Option<&str>, top_level: bool) -> RawBlock {
    RawBlock {
        id: s(id),
        opcode: s(opcode),
        next: next.map(|n| s(n)),
        inputs: Vec::new(),
        fields: Vec::new(),
        top_level,
    }
}

fn with_input(mut r: RawBlock, key: &str, input: Json) -> RawBlock {
    r.inputs.push((s(key), input));
    r
}

fn with_field(mut r: RawBlock, key: &str, value: &str) -> RawBlock {
    r.fields.push((s(key), vec![Some(s(value)), Some(s(value))]));
    r
}

fn sprite_state() -> SpriteRuntime {
    SpriteRuntime::new(0, false, vec![Coordinate::new(20, 20)])
}

fn set_then_change() -> Vec<RawBlock> {
    vec![
        with_field(
            with_input(record("a", "data_setvariableto", Some("b"), true), "VALUE", literal("5")),
            "VARIABLE",
            "V",
        ),
        with_field(
            with_input(record("b", "data_changevariableby", None, false), "VALUE", literal("2.5")),
            "VARIABLE",
            "V",
        ),
    ]
}

#[test]
fn build_root_has_entry_id() {
    let table = set_then_change();
    let (g, root) = block_tree(&s("a"), &table).unwrap();
    assert_eq!(g.node(root).id, "a");
    assert_eq!(g.node(root).kind, Kind::SetVariable);
    let b = g.node(root).next.unwrap();
    assert_eq!(g.node(b).id, "b");
    assert_eq!(g.node(b).kind, Kind::ChangeVariable);
    assert_eq!(g.node(b).field, "V");
    let (g2, root2) = block_tree(&s("b"), &table).unwrap();
    assert_eq!(g2.node(root2).id, "b");
}

#[test]
fn build_introspection() {
    let table = set_then_change();
    let (g, root) = block_tree(&s("a"), &table).unwrap();
    let view = g.block_inputs(root);
    assert_eq!(view.info.name, "SetVariable");
    assert_eq!(view.info.id, "a");
    assert_eq!(view.fields, vec![(s("VARIABLE"), s("V"))]);
    assert_eq!(view.inputs.len(), 1);
    assert_eq!(view.inputs[0].0, "VALUE");
    assert_eq!(view.inputs[0].1.info.name, "Literal");
    assert_eq!(view.stacks.len(), 1);
    assert_eq!(view.stacks[0].1.info.id, "b");
}

#[test]
fn build_missing_entry() {
    let table = set_then_change();
    assert_eq!(block_tree(&s("zz"), &table).err(), Some(Error::MissingBlock { id: s("zz") }));
    assert_eq!(block_tree(&s("a"), &Vec::new()).err(), Some(Error::MissingBlock { id: s("a") }));
}

#[test]
fn build_unknown_opcode() {
    let table = vec![record("a", "nounderscore", None, true)];
    assert_eq!(
        block_tree(&s("a"), &table).err(),
        Some(Error::UnknownOpcode { id: s("a"), opcode: s("nounderscore") })
    );
    let table = vec![record("a", "magic_spell", None, true)];
    assert_eq!(
        block_tree(&s("a"), &table).err(),
        Some(Error::UnknownOpcode { id: s("a"), opcode: s("magic_spell") })
    );
    let table = vec![record("a", "data_frobnicate", None, true)];
    assert_eq!(
        block_tree(&s("a"), &table).err(),
        Some(Error::BlockInitialization {
            id: s("a"),
            category: s("data"),
            source: Box::new(Error::UnknownOperation { name: s("frobnicate") }),
        })
    );
}

#[test]
fn build_input_errors_carry_context() {
    let bad = with_input(record("a", "data_setvariableto", None, true), "VALUE", Json::Null);
    assert_eq!(
        block_tree(&s("a"), &vec![bad]).err(),
        Some(Error::BlockInput { id: s("a"), key: s("VALUE"), source: Box::new(Error::InvalidType) })
    );
    let bad_tag = Json::List(vec![tag(7), Json::List(vec![tag(10), Json::Text(s("1"))])]);
    let bad = with_input(record("a", "data_setvariableto", None, true), "VALUE", bad_tag);
    assert_eq!(
        block_tree(&s("a"), &vec![bad]).err(),
        Some(Error::BlockInput {
            id: s("a"),
            key: s("VALUE"),
            source: Box::new(Error::InvalidInputTypeId),
        })
    );
    let short = Json::List(vec![tag(3), Json::List(vec![tag(12), Json::Text(s("name"))])]);
    let bad = with_input(record("a", "data_setvariableto", None, true), "VALUE", short);
    assert_eq!(
        block_tree(&s("a"), &vec![bad]).err(),
        Some(Error::BlockInput {
            id: s("a"),
            key: s("VALUE"),
            source: Box::new(Error::InvalidInputType),
        })
    );
    // two levels deep: the inner reporter's own input is broken
    let outer = with_input(record("a", "event_broadcast", None, true), "BROADCAST_INPUT", reference("m"));
    let inner = with_input(record("m", "sensing_keypressed", None, false), "KEY_OPTION", Json::Bool(true));
    assert_eq!(
        block_tree(&s("a"), &vec![outer, inner]).err(),
        Some(Error::BlockInput {
            id: s("a"),
            key: s("BROADCAST_INPUT"),
            source: Box::new(Error::BlockInput {
                id: s("m"),
                key: s("KEY_OPTION"),
                source: Box::new(Error::InvalidType),
            }),
        })
    );
}

#[test]
fn build_variable_input_and_fields() {
    let var = Json::List(vec![tag(3), Json::List(vec![tag(12), Json::Text(s("name")), Json::Text(s("vid"))])]);
    let r = with_input(record("a", "data_setvariableto", None, true), "VALUE", var);
    let mut r = with_input(r, "IGNORED", literal("1"));
    r.fields.push((s("VARIABLE"), vec![Some(s("first")), None]));
    let (g, root) = block_tree(&s("a"), &vec![r]).unwrap();
    assert_eq!(g.node(root).field, "first");
    assert_eq!(g.node(root).inputs.len(), 1);
    let child = g.node(root).get_input("VALUE").unwrap();
    assert_eq!(g.node(child).kind, Kind::Variable);
    assert_eq!(g.node(child).field, "vid");
    let mut bad = record("a", "data_setvariableto", None, true);
    bad.fields.push((s("VARIABLE"), vec![None, None]));
    assert_eq!(
        block_tree(&s("a"), &vec![bad]).err(),
        Some(Error::InvalidField { id: s("a"), key: s("VARIABLE") })
    );
}

#[test]
fn build_cycle_is_an_error() {
    let table = vec![
        record("a", "looks_show", Some("b"), true),
        record("b", "looks_hide", Some("a"), false),
    ];
    assert!(matches!(block_tree(&s("a"), &table), Err(Error::CyclicBlocks { .. })));
}

#[test]
fn set_then_change_leaves_seven_and_a_half() {
    let table = set_then_change();
    let (mut g, root) = block_tree(&s("a"), &table).unwrap();
    let mut sprite = sprite_state();
    let mut vars = Variables::new();
    let mut t = Thread::new(root);
    let first = t.step(&mut g, &mut sprite, &mut vars);
    assert!(matches!(first.result, Ok(Progress::Moved)));
    let second = t.step(&mut g, &mut sprite, &mut vars);
    assert!(matches!(second.result, Ok(Progress::Finished)));
    assert_eq!(vars.get(&s("V")), Some(Value::Number(Number { mantissa: 75, scale: 1 })));
    assert!(matches!(t.step(&mut g, &mut sprite, &mut vars).result, Ok(Progress::Finished)));
}

#[test]
fn unset_input_is_an_error() {
    let table = vec![with_field(record("a", "data_setvariableto", None, true), "VARIABLE", "V")];
    let (mut g, root) = block_tree(&s("a"), &table).unwrap();
    let mut sprite = sprite_state();
    let mut vars = Variables::new();
    let eff = execute(&mut g, root, &mut sprite, &mut vars, &Vec::new());
    assert!(matches!(eff.outcome, Outcome::Done(Next::Fail(Error::UnsetInput { .. }))));
    assert_eq!(vars.get(&s("V")), None);

    let table = vec![record("a", "looks_say", None, true)];
    let (mut g, root) = block_tree(&s("a"), &table).unwrap();
    let eff = execute(&mut g, root, &mut sprite, &mut vars, &Vec::new());
    assert!(matches!(eff.outcome, Outcome::Done(Next::Fail(Error::UnsetInput { .. }))));
}

#[test]
fn change_of_missing_variable_fails() {
    let table = vec![with_field(
        with_input(record("a", "data_changevariableby", None, true), "VALUE", literal("1")),
        "VARIABLE",
        "nope",
    )];
    let (mut g, root) = block_tree(&s("a"), &table).unwrap();
    let mut sprite = sprite_state();
    let mut vars = Variables::new();
    let eff = execute(&mut g, root, &mut sprite, &mut vars, &Vec::new());
    assert!(matches!(eff.outcome, Outcome::Done(Next::Fail(Error::MissingVariable { .. }))));
}

#[test]
fn change_by_text_fails_and_non_numeric_previous_counts_as_zero() {
    let table = vec![with_field(
        with_input(record("a", "data_changevariableby", None, true), "VALUE", literal("x")),
        "VARIABLE",
        "V",
    )];
    let (mut g, root) = block_tree(&s("a"), &table).unwrap();
    let mut sprite = sprite_state();
    let mut vars = Variables::new();
    vars.set(s("V"), Value::Text(s("hello")));
    let eff = execute(&mut g, root, &mut sprite, &mut vars, &Vec::new());
    assert!(matches!(eff.outcome, Outcome::Done(Next::Fail(Error::NotANumber { .. }))));
    assert_eq!(vars.get(&s("V")), Some(Value::Text(s("hello"))));

    let table = vec![with_field(
        with_input(record("a", "data_changevariableby", None, true), "VALUE", literal("3")),
        "VARIABLE",
        "V",
    )];
    let (mut g, root) = block_tree(&s("a"), &table).unwrap();
    let eff = execute(&mut g, root, &mut sprite, &mut vars, &Vec::new());
    assert!(matches!(eff.outcome, Outcome::Done(Next::End)));
    assert_eq!(vars.get(&s("V")), Some(Value::Number(Number { mantissa: 3, scale: 0 })));
}

#[test]
fn statements_without_execution_fail() {
    let table = vec![record("a", "sound_play", None, true)];
    let (mut g, root) = block_tree(&s("a"), &table).unwrap();
    let mut sprite = sprite_state();
    let mut vars = Variables::new();
    let eff = execute(&mut g, root, &mut sprite, &mut vars, &Vec::new());
    assert!(matches!(eff.outcome, Outcome::Done(Next::Fail(Error::CannotExecute))));
}

#[test]
fn say_for_secs_waits_then_clears() {
    let r = with_input(record("a", "looks_sayforsecs", None, true), "MESSAGE", literal("hi"));
    let r = with_input(r, "SECS", literal("1.5"));
    let (mut g, root) = block_tree(&s("a"), &vec![r]).unwrap();
    let mut sprite = sprite_state();
    let mut vars = Variables::new();
    let mut t = Thread::new(root);
    let st = t.step(&mut g, &mut sprite, &mut vars);
    assert!(matches!(st.result, Ok(Progress::Waiting(Wait::Timer(1500)))));
    assert_eq!(sprite.text(), Some(s("hi")));
    t.timer_fired(&g, &mut sprite);
    assert_eq!(sprite.text(), None);
    assert_eq!(t.current(), None);
}

#[test]
fn size_and_visibility() {
    let table = vec![
        with_input(record("a", "looks_setsizeto", Some("b"), true), "SIZE", literal("50")),
        record("b", "looks_hide", None, false),
    ];
    let (mut g, root) = block_tree(&s("a"), &table).unwrap();
    let mut sprite = sprite_state();
    let mut vars = Variables::new();
    let mut t = Thread::new(root);
    t.step(&mut g, &mut sprite, &mut vars);
    t.step(&mut g, &mut sprite, &mut vars);
    assert_eq!(sprite.size_percent(), Number { mantissa: 50, scale: 0 });
    assert!(sprite.hidden());
}

#[test]
fn waiter_is_released_only_by_its_own_finish() {
    let table = vec![with_input(
        record("w", "event_broadcastandwait", None, true),
        "BROADCAST_INPUT",
        literal("X"),
    )];
    let (mut g, root) = block_tree(&s("w"), &table).unwrap();
    let mut sprite = sprite_state();
    let mut vars = Variables::new();
    let eff = execute(&mut g, root, &mut sprite, &mut vars, &Vec::new());
    assert!(matches!(eff.send, Some(BroadcastMsg::Start(ref n)) if n == "X"));
    let wait = match eff.outcome {
        Outcome::Await(w) => w,
        _ => panic!("expected a wait"),
    };
    assert!(resume(&mut g, root, &wait, &BroadcastMsg::Finished(s("Y")), &sprite).is_none());
    assert!(resume(&mut g, root, &wait, &BroadcastMsg::Start(s("X")), &sprite).is_none());
    assert!(matches!(
        resume(&mut g, root, &wait, &BroadcastMsg::Finished(s("X")), &sprite),
        Some(Next::End)
    ));
}

#[test]
fn click_inside_sprite_starts_chain() {
    let table = vec![
        record("c", "event_whenthisspriteclicked", Some("h"), true),
        record("h", "looks_hide", None, false),
    ];
    let (mut g, root) = block_tree(&s("c"), &table).unwrap();
    let mut sprite = sprite_state();
    let mut vars = Variables::new();
    let mut t = Thread::new(root);
    let wait = match t.step(&mut g, &mut sprite, &mut vars).result {
        Ok(Progress::Waiting(w)) => w,
        _ => panic!("expected a wait"),
    };
    assert!(!t.resume(&mut g, &wait, &BroadcastMsg::MouseClick(Coordinate::new(50, 50)), &sprite, &vars));
    assert!(t.resume(&mut g, &wait, &BroadcastMsg::MouseClick(Coordinate::new(5, -5)), &sprite, &vars));
    t.step(&mut g, &mut sprite, &mut vars);
    assert!(sprite.hidden());
    // the thread waits again for the next click
    assert_eq!(t.current(), Some(root));
}

/// Threads of several sprites and a bus that hands every message to the threads waiting
/// at that moment.
struct Stage {
    sprites: Vec<Sprite>,
    vars: Variables,
    waits: Vec<Vec<Option<Wait>>>,
    finished: Vec<Vec<bool>>,
}

impl Stage {
    fn new(tables: Vec<Vec<RawBlock>>) -> Stage {
        let mut sprites = Vec::new();
        let mut waits = Vec::new();
        let mut finished = Vec::new();
        for (i, t) in tables.iter().enumerate() {
            let rt = SpriteRuntime::new(i, false, vec![Coordinate::new(10, 10)]);
            let sp = Sprite::new(rt, t).unwrap();
            waits.push((0..sp.number_of_threads()).map(|_| None).collect());
            finished.push(vec![false; sp.number_of_threads()]);
            sprites.push(sp);
        }
        Stage { sprites, vars: Variables::new(), waits, finished }
    }

    fn deliver(&mut self, msg: BroadcastMsg) {
        for i in 0..self.sprites.len() {
            for t in 0..self.waits[i].len() {
                if let Some(w) = self.waits[i][t].take() {
                    if !self.sprites[i].resume(t, &w, &msg, &self.vars) {
                        self.waits[i][t] = Some(w);
                    }
                }
            }
        }
    }

    /// Steps each ready thread once, sprites in the given order.
    fn round(&mut self, order: &[usize]) {
        for &i in order {
            for t in 0..self.waits[i].len() {
                if self.waits[i][t].is_some() || self.finished[i][t] {
                    continue;
                }
                let st = self.sprites[i].step(t, &mut self.vars);
                match st.result {
                    Ok(Progress::Waiting(w)) => self.waits[i][t] = Some(w),
                    Ok(Progress::Finished) => self.finished[i][t] = true,
                    Ok(Progress::Moved) => {}
                    Err(e) => panic!("thread failed: {:?}", e),
                }
                if let Some(m) = st.send {
                    self.deliver(m);
                }
            }
        }
    }
}

fn rendezvous_tables() -> Vec<Vec<RawBlock>> {
    let a = vec![
        record("a1", "event_whenflagclicked", Some("a2"), true),
        with_input(record("a2", "event_broadcast", None, false), "BROADCAST_INPUT", literal("go")),
    ];
    let b = vec![
        with_field(record("b1", "event_whenbroadcastreceived", Some("b2"), true), "BROADCAST_OPTION", "go"),
        with_field(
            with_input(record("b2", "data_setvariableto", None, false), "VALUE", literal("1")),
            "VARIABLE",
            "heard",
        ),
    ];
    let c = vec![
        record("c1", "event_whenflagclicked", Some("c2"), true),
        with_input(record("c2", "event_broadcastandwait", Some("c3"), false), "BROADCAST_INPUT", literal("go")),
        with_field(
            with_input(record("c3", "data_setvariableto", None, false), "VALUE", literal("yes")),
            "VARIABLE",
            "after",
        ),
    ];
    vec![a, b, c]
}

#[test]
fn broadcast_and_wait_unblocks_after_listener_finishes() {
    let orders: Vec<Vec<usize>> =
        vec![vec![0, 1, 2], vec![2, 1, 0], vec![1, 2, 0], vec![1, 0, 2], vec![0, 2, 1], vec![2, 0, 1]];
    for order in orders {
        let mut stage = Stage::new(rendezvous_tables());
        // the listener must be subscribed before anything is sent
        stage.round(&[1]);
        for _ in 0..20 {
            stage.round(&order);
            // c waits for its broadcast until b's chain has completed
            if stage.vars.get(&s("after")).is_some() {
                assert!(stage.vars.get(&s("heard")).is_some());
            }
        }
        assert!(stage.finished[2][0], "{:?}", order);
        assert!(stage.finished[0][0], "{:?}", order);
        assert_eq!(stage.vars.get(&s("after")), Some(Value::Text(s("yes"))));
        assert_eq!(stage.vars.get(&s("heard")), Some(Value::Text(s("1"))));
        // the listener re-armed itself
        assert!(matches!(stage.waits[1][0], Some(Wait::Start(_))));
    }
}

#[test]
fn controller_semaphore() {
    let mut semaphore = ControllerSemaphore::new();
    assert!(semaphore.available());
    semaphore.set_blocking(true);
    assert!(!semaphore.available());
    semaphore.add_permit();
    assert!(semaphore.available());
    assert_ne!(semaphore.acquire(), Pass::Wait);
    assert!(!semaphore.available());
    semaphore.reset();
    assert!(semaphore.available());
}

#[test]
fn debug_gate_pause_step_continue() {
    let mut c = DebugController::new();
    assert_eq!(c.wait(), Pass::YieldThenGo);
    assert_eq!(c.wait(), Pass::Go);
    c.pause();
    assert!(c.display_debug());
    assert_eq!(c.wait(), Pass::Wait);
    assert_eq!(c.wait(), Pass::Wait);
    c.step();
    assert_eq!(c.wait(), Pass::Go);
    assert_eq!(c.wait(), Pass::Wait);
    c.continue_(Speed::Normal);
    assert!(!c.display_debug());
    for _ in 0..10 {
        assert_ne!(c.wait(), Pass::Wait);
    }
}

#[test]
fn scheduler_pauses_steps_and_aborts() {
    let t0 = ThreadId { sprite_id: 0, thread_id: 0 };
    let t1 = ThreadId { sprite_id: 1, thread_id: 0 };
    let mut sched = Scheduler::new();
    assert_eq!(sched.on_event(Event::Thread(t0)).run, vec![t0]);
    let a = sched.on_event(Event::Control(Some(Control::Pause)));
    assert!(a.listen_control && a.run.is_empty());
    assert!(sched.on_event(Event::Thread(t0)).run.is_empty());
    assert!(sched.on_event(Event::Thread(t1)).run.is_empty());
    assert!(sched.on_event(Event::Redraw).redraw);
    // a step releases every held thread for one more step, then pauses again
    assert_eq!(sched.on_event(Event::Control(Some(Control::Step))).run, vec![t0, t1]);
    assert!(sched.on_event(Event::Thread(t0)).run.is_empty());
    assert!(sched.on_event(Event::Thread(t1)).run.is_empty());
    assert_eq!(sched.on_event(Event::Control(Some(Control::Continue))).run, vec![t0, t1]);
    assert_eq!(sched.on_event(Event::Thread(t1)).run, vec![t1]);
    let a = sched.on_event(Event::Error(Error::CannotExecute));
    assert_eq!(a.abort, Some(Error::CannotExecute));
    assert!(sched.is_aborted());
    let a = sched.on_event(Event::Thread(t0));
    assert!(a.run.is_empty() && a.abort.is_none() && !a.redraw);
}

#[test]
fn failing_thread_aborts_run_with_its_error() {
    let table = vec![with_field(record("a", "data_setvariableto", None, true), "VARIABLE", "V")];
    let mut sp = Sprite::new(sprite_state(), &table).unwrap();
    let mut vars = Variables::new();
    let mut sched = Scheduler::new();
    let step = sp.step(0, &mut vars);
    let ev = scratch_vm::vm::event_of(ThreadId { sprite_id: 0, thread_id: 0 }, step);
    let a = sched.on_event(ev);
    assert_eq!(a.abort, Some(Error::UnsetInput { slot: s("VALUE") }));
}

#[test]
fn bus_send_needs_a_subscriber() {
    let mut bus = Broadcaster::new();
    assert_eq!(bus.send(BroadcastMsg::Start(s("x"))), Err(Error::NoSubscribers));
    let mut rx = bus.subscribe();
    assert_eq!(bus.send(BroadcastMsg::Start(s("x"))), Ok(()));
    assert!(matches!(rx.try_recv(), Ok(BroadcastMsg::Start(ref n)) if n == "x"));
}

#[test]
fn responses_match_their_request() {
    let rect = Rectangle::new(Coordinate::new(0, 0), Coordinate::new(1, 1));
    assert!(answers(
        &BroadcastMsg::RequestSpriteRectangle(s("Cat")),
        &BroadcastMsg::SpriteRectangle { sprite: s("Cat"), rectangle: rect }
    ));
    assert!(!answers(
        &BroadcastMsg::RequestSpriteRectangle(s("Cat")),
        &BroadcastMsg::SpriteRectangle { sprite: s("Dog"), rectangle: rect }
    ));
    assert!(answers(&BroadcastMsg::RequestMousePosition, &BroadcastMsg::MousePosition(Coordinate::new(1, 2))));
    assert!(!answers(&BroadcastMsg::RequestMousePosition, &BroadcastMsg::RequestPressedKeys));
    assert!(answers(&BroadcastMsg::RequestPressedKeys, &BroadcastMsg::PressedKeys(vec![s("a")])));
}

#[test]
fn sprite_threads_and_introspection() {
    let mut table = rendezvous_tables().remove(2);
    table.push(record("z", "looks_show", None, true));
    let sp = Sprite::new(sprite_state(), &table).unwrap();
    assert_eq!(sp.number_of_threads(), 2);
    let views = sp.block_inputs();
    assert_eq!(views[0].info.id, "c1");
    assert_eq!(views[1].info.id, "z");
    table.push(record("bad", "looks_nothing", None, true));
    assert!(Sprite::new(sprite_state(), &table).is_err());
}

fn menu(id: &str, opcode: &str, key: &str, value: &str) -> RawBlock {
    let mut r = record(id, opcode, None, false);
    r.fields.push((s(key), vec![Some(s(value)), None]));
    r
}

fn set_from(reporter: RawBlock, extra: Vec<RawBlock>) -> Vec<RawBlock> {
    let mut table = vec![
        with_field(
            with_input(record("a", "data_setvariableto", None, true), "VALUE", reference(&reporter.id)),
            "VARIABLE",
            "R",
        ),
        reporter,
    ];
    table.extend(extra);
    table
}

#[test]
fn key_pressed_asks_the_input_layer() {
    let table = set_from(
        with_input(record("k", "sensing_keypressed", None, false), "KEY_OPTION", reference("o")),
        vec![menu("o", "sensing_keyoptions", "KEY_OPTION", "space")],
    );
    let (mut g, root) = block_tree(&s("a"), &table).unwrap();
    let mut sprite = sprite_state();
    let mut vars = Variables::new();
    let mut t = Thread::new(root);
    let st = t.step(&mut g, &mut sprite, &mut vars);
    assert!(matches!(st.send, Some(BroadcastMsg::RequestPressedKeys)));
    let wait = match st.result {
        Ok(Progress::Waiting(w)) => w,
        _ => panic!("expected a wait"),
    };
    assert!(matches!(wait, Wait::Answer(_)));
    assert!(!t.resume(&mut g, &wait, &BroadcastMsg::MousePosition(Coordinate::new(0, 0)), &sprite, &vars));
    assert!(t.resume(&mut g, &wait, &BroadcastMsg::PressedKeys(vec![s("a"), s("space")]), &sprite, &vars));
    let st = t.step(&mut g, &mut sprite, &mut vars);
    assert!(matches!(st.result, Ok(Progress::Finished)));
    assert_eq!(vars.get(&s("R")), Some(Value::Bool(true)));
}

#[test]
fn touching_edge_needs_no_question() {
    let table = set_from(
        with_input(record("k", "sensing_touchingobject", None, false), "TOUCHINGOBJECTMENU", reference("o")),
        vec![menu("o", "sensing_touchingobjectmenu", "TOUCHINGOBJECTMENU", "_edge_")],
    );
    let (mut g, root) = block_tree(&s("a"), &table).unwrap();
    let mut sprite = sprite_state();
    let mut vars = Variables::new();
    let eff = execute(&mut g, root, &mut sprite, &mut vars, &Vec::new());
    assert!(eff.send.is_none());
    assert_eq!(vars.get(&s("R")), Some(Value::Bool(false)));
    sprite.set_position(&Coordinate::new(235, 0));
    execute(&mut g, root, &mut sprite, &mut vars, &Vec::new());
    assert_eq!(vars.get(&s("R")), Some(Value::Bool(true)));
}

#[test]
fn touching_sprite_matches_the_named_answer() {
    let table = set_from(
        with_input(record("k", "sensing_touchingobject", None, false), "TOUCHINGOBJECTMENU", reference("o")),
        vec![menu("o", "sensing_touchingobjectmenu", "TOUCHINGOBJECTMENU", "Cat")],
    );
    let (mut g, root) = block_tree(&s("a"), &table).unwrap();
    let mut sprite = sprite_state();
    let mut vars = Variables::new();
    let mut t = Thread::new(root);
    let st = t.step(&mut g, &mut sprite, &mut vars);
    assert!(matches!(st.send, Some(BroadcastMsg::RequestSpriteRectangle(ref n)) if n == "Cat"));
    let wait = match st.result {
        Ok(Progress::Waiting(w)) => w,
        _ => panic!("expected a wait"),
    };
    let far = Rectangle::new(Coordinate::new(100, 100), Coordinate::new(5, 5));
    let near = Rectangle::new(Coordinate::new(5, 5), Coordinate::new(5, 5));
    assert!(!t.resume(&mut g, &wait, &BroadcastMsg::SpriteRectangle { sprite: s("Dog"), rectangle: near }, &sprite, &vars));
    assert!(t.resume(&mut g, &wait, &BroadcastMsg::SpriteRectangle { sprite: s("Cat"), rectangle: far }, &sprite, &vars));
    t.step(&mut g, &mut sprite, &mut vars);
    assert_eq!(vars.get(&s("R")), Some(Value::Bool(false)));
}

#[test]
fn touching_mouse_pointer() {
    let table = set_from(
        with_input(record("k", "sensing_touchingobject", None, false), "TOUCHINGOBJECTMENU", reference("o")),
        vec![menu("o", "sensing_touchingobjectmenu", "TOUCHINGOBJECTMENU", "_mouse_")],
    );
    let (mut g, root) = block_tree(&s("a"), &table).unwrap();
    let mut sprite = sprite_state();
    let mut vars = Variables::new();
    let mut t = Thread::new(root);
    let st = t.step(&mut g, &mut sprite, &mut vars);
    assert!(matches!(st.send, Some(BroadcastMsg::RequestMousePosition)));
    let wait = match st.result {
        Ok(Progress::Waiting(w)) => w,
        _ => panic!("expected a wait"),
    };
    assert!(t.resume(&mut g, &wait, &BroadcastMsg::MousePosition(Coordinate::new(3, 3)), &sprite, &vars));
    t.step(&mut g, &mut sprite, &mut vars);
    assert_eq!(vars.get(&s("R")), Some(Value::Bool(true)));
}

#[test]
fn change_past_the_largest_number_fails() {
    let table = vec![with_field(
        with_input(record("a", "data_changevariableby", None, true), "VALUE", literal("1")),
        "VARIABLE",
        "V",
    )];
    let (mut g, root) = block_tree(&s("a"), &table).unwrap();
    let mut sprite = sprite_state();
    let mut vars = Variables::new();
    vars.set(s("V"), Value::Number(Number { mantissa: i64::MAX, scale: 0 }));
    let eff = execute(&mut g, root, &mut sprite, &mut vars, &Vec::new());
    assert!(matches!(eff.outcome, Outcome::Done(Next::Fail(Error::NumberOutOfRange))));
    assert_eq!(vars.get(&s("V")), Some(Value::Number(Number { mantissa: i64::MAX, scale: 0 })));
}

#[test]
fn statements_and_unanswered_queries_have_no_value() {
    let table = set_from(
        with_input(record("k", "sensing_keypressed", None, false), "KEY_OPTION", reference("o")),
        vec![menu("o", "sensing_keyoptions", "KEY_OPTION", "any")],
    );
    let (g, root) = block_tree(&s("a"), &table).unwrap();
    let sprite = sprite_state();
    let vars = Variables::new();
    assert_eq!(scratch_vm::exec::value(&g, root, &vars, &Vec::new(), &sprite), Err(Error::NoValue));
    let k = g.node(root).get_input("VALUE").unwrap();
    assert_eq!(scratch_vm::exec::value(&g, k, &vars, &Vec::new(), &sprite), Err(Error::NoValue));
    let answered = vec![(k, Value::Bool(true))];
    assert_eq!(scratch_vm::exec::value(&g, k, &vars, &answered, &sprite), Ok(Value::Bool(true)));
    let o = g.node(k).get_input("KEY_OPTION").unwrap();
    assert_eq!(scratch_vm::exec::value(&g, o, &vars, &Vec::new(), &sprite), Ok(Value::Text(s("any"))));
}

#[test]
fn variable_reporter_of_unset_variable_fails() {
    let var = Json::List(vec![tag(3), Json::List(vec![tag(12), Json::Text(s("n")), Json::Text(s("missing"))])]);
    let table = vec![with_field(
        with_input(record("a", "data_setvariableto", None, true), "VALUE", var),
        "VARIABLE",
        "V",
    )];
    let (mut g, root) = block_tree(&s("a"), &table).unwrap();
    let mut sprite = sprite_state();
    let mut vars = Variables::new();
    let eff = execute(&mut g, root, &mut sprite, &mut vars, &Vec::new());
    assert!(matches!(eff.outcome, Outcome::Done(Next::Fail(Error::MissingVariable { .. }))));
}

#[test]
fn error_messages_carry_their_context() {
    let table = vec![
        with_input(record("a", "event_broadcast", None, true), "BROADCAST_INPUT", reference("m")),
        with_input(record("m", "sensing_keypressed", None, false), "KEY_OPTION", Json::Bool(true)),
    ];
    let e = block_tree(&s("a"), &table).err().unwrap();
    assert_eq!(
        e.describe(),
        "block \"a\", input BROADCAST_INPUT: block \"m\", input KEY_OPTION: invalid type"
    );
    let table = vec![record("a", "data_frobnicate", None, true)];
    let e = block_tree(&s("a"), &table).err().unwrap();
    assert_eq!(e.describe(), "block \"a\" (data): frobnicate does not exist");
    assert_eq!(Error::CostumeOutOfRange { index: 12 }.describe(), "costume index out of range: 12");
    assert_eq!(Error::MissingBlock { id: s("q") }.describe(), "could not find block: q");
}

#[test]
fn pen_blocks_change_the_pen() {
    let table = vec![
        record("a", "pen_penDown", Some("b"), true),
        with_input(record("b", "pen_setPenColorToColor", Some("c"), false), "COLOR", literal("#00ff00")),
        with_input(record("c", "pen_setPenSizeTo", Some("d"), false), "SIZE", literal("4")),
        record("d", "pen_penUp", None, false),
    ];
    let (mut g, root) = block_tree(&s("a"), &table).unwrap();
    let mut sprite = sprite_state();
    let mut vars = Variables::new();
    let mut t = Thread::new(root);
    t.step(&mut g, &mut sprite, &mut vars);
    assert!(sprite.pen().is_down());
    sprite.set_position(&Coordinate::new(10, 0));
    t.step(&mut g, &mut sprite, &mut vars);
    assert_eq!(sprite.pen().color(), (0, 255, 0));
    t.step(&mut g, &mut sprite, &mut vars);
    assert_eq!(sprite.pen().size(), Number { mantissa: 4, scale: 0 });
    let st = t.step(&mut g, &mut sprite, &mut vars);
    assert!(matches!(st.result, Ok(Progress::Finished)));
    assert!(!sprite.pen().is_down());
}

#[test]
fn pen_color_must_be_hex() {
    let table = vec![with_input(record("b", "pen_setPenColorToColor", None, true), "COLOR", literal("green"))];
    let (mut g, root) = block_tree(&s("b"), &table).unwrap();
    let mut sprite = sprite_state();
    let mut vars = Variables::new();
    let eff = execute(&mut g, root, &mut sprite, &mut vars, &Vec::new());
    assert!(matches!(eff.outcome, Outcome::Done(Next::Fail(Error::InvalidColor { .. }))));
    assert_eq!(sprite.pen().color(), (255, 0, 0));
}

#[test]
fn pen_shade_waits_for_the_host() {
    let table = vec![with_input(record("b", "pen_setPenShadeToNumber", None, true), "SHADE", literal("50"))];
    let mut sp = Sprite::new(sprite_state(), &table).unwrap();
    let mut vars = Variables::new();
    let st = sp.step(0, &mut vars);
    assert!(matches!(st.result, Ok(Progress::Waiting(Wait::PenShade(n))) if n == Number { mantissa: 50, scale: 0 }));
    sp.color_computed(0, (10, 20, 30));
    assert_eq!(sp.runtime().pen().color(), (10, 20, 30));
    assert!(matches!(sp.step(0, &mut vars).result, Ok(Progress::Finished)));
}

#[test]
fn barrier_yields_every_so_many_passes() {
    let mut c = DebugController::new();
    assert_eq!(c.wait(), Pass::YieldThenGo);
    for _ in 1..0x1000 {
        assert_eq!(c.wait(), Pass::Go);
    }
    assert_eq!(c.wait(), Pass::YieldThenGo);
    assert_eq!(c.wait(), Pass::Go);
}
