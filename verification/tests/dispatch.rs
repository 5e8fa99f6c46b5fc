use rotor::handler::create_handler;
use rotor::config::create_slab;
use rotor::notify::create_notifier;
use rotor::test_util::TestApi;
use rotor::{
    early_scope, Compose2, Compose2Seed, Config, EventSet, Machine, Notify, PollOpt,
    Response, Scope, SpawnError, Time, Timeo, Timeout, Token,
};
use std::sync::mpsc::sync_channel;

struct Ctx {
    pending: Vec<u64>,
    inputs: Vec<Vec<u8>>,
    outputs: Vec<Vec<u8>>,
    returned_seeds: Vec<u64>,
    readies: u32,
    wakeups: u32,
    timeouts: u32,
    probe_wakeup_dies: bool,
    probe_ready_errors: bool,
    probe_shutdown: bool,
    probe_deadline: Option<Time>,
}

impl Ctx {
    fn new() -> Ctx {
        Ctx {
            pending: Vec::new(),
            inputs: Vec::new(),
            outputs: Vec::new(),
            returned_seeds: Vec::new(),
            readies: 0,
            wakeups: 0,
            timeouts: 0,
            probe_wakeup_dies: false,
            probe_ready_errors: false,
            probe_shutdown: false,
            probe_deadline: None,
        }
    }
}

/// An acceptor / connection pair over simulated byte streams held in
/// the context.
enum Echo {
    Acceptor,
    Connection(u64),
}

impl Machine<TestApi> for Echo {
    type Context = Ctx;
    type Seed = u64;

    fn create(
        seed: u64,
        scope: &mut Scope<'_, Ctx>,
        api: &mut TestApi,
    ) -> Response<Echo, u64> {
        scope
            .register(api, &seed, EventSet::readable(), PollOpt::level())
            .unwrap();
        Response::ok(Echo::Connection(seed))
    }

    fn ready(
        self,
        _events: EventSet,
        scope: &mut Scope<'_, Ctx>,
        _api: &mut TestApi,
    ) -> Response<Echo, u64> {
        match self {
            Echo::Acceptor => {
                if scope.ctx.pending.is_empty() {
                    Response::ok(Echo::Acceptor)
                } else {
                    let conn = scope.ctx.pending.remove(0);
                    Response::spawn(Echo::Acceptor, conn)
                }
            }
            Echo::Connection(id) => {
                let take = scope.ctx.inputs[id as usize].len().min(1024);
                if take == 0 {
                    return Response::done();
                }
                let data: Vec<u8> = scope.ctx.inputs[id as usize].drain(..take).collect();
                scope.ctx.outputs[id as usize].extend(data);
                Response::ok(Echo::Connection(id))
            }
        }
    }

    fn spawned(self, scope: &mut Scope<'_, Ctx>, _api: &mut TestApi) -> Response<Echo, u64> {
        match self {
            Echo::Acceptor => {
                if scope.ctx.pending.is_empty() {
                    Response::ok(Echo::Acceptor)
                } else {
                    let conn = scope.ctx.pending.remove(0);
                    Response::spawn(Echo::Acceptor, conn)
                }
            }
            other => Response::ok(other),
        }
    }

    fn spawn_error(
        self,
        scope: &mut Scope<'_, Ctx>,
        _api: &mut TestApi,
        error: SpawnError<u64>,
    ) -> Response<Echo, u64> {
        if let SpawnError::NoSlabSpace(seed) = error {
            scope.ctx.returned_seeds.push(seed);
        }
        Response::ok(self)
    }

    fn timeout(self, scope: &mut Scope<'_, Ctx>, _api: &mut TestApi) -> Response<Echo, u64> {
        scope.ctx.timeouts += 1;
        Response::ok(self)
    }

    fn wakeup(self, scope: &mut Scope<'_, Ctx>, _api: &mut TestApi) -> Response<Echo, u64> {
        scope.ctx.wakeups += 1;
        Response::ok(self)
    }
}

/// A machine whose reactions are scripted through the context.
struct Probe;

impl Machine<TestApi> for Probe {
    type Context = Ctx;
    type Seed = u64;

    fn create(
        _seed: u64,
        _scope: &mut Scope<'_, Ctx>,
        _api: &mut TestApi,
    ) -> Response<Probe, u64> {
        Response::ok(Probe)
    }

    fn ready(
        self,
        _events: EventSet,
        scope: &mut Scope<'_, Ctx>,
        _api: &mut TestApi,
    ) -> Response<Probe, u64> {
        scope.ctx.readies += 1;
        if scope.ctx.probe_ready_errors {
            return Response::error(Box::new(rotor::Diagnostic::new("scripted failure".to_owned())));
        }
        Response::ok(Probe)
    }

    fn spawned(self, _scope: &mut Scope<'_, Ctx>, _api: &mut TestApi) -> Response<Probe, u64> {
        Response::ok(Probe)
    }

    fn timeout(self, scope: &mut Scope<'_, Ctx>, _api: &mut TestApi) -> Response<Probe, u64> {
        scope.ctx.timeouts += 1;
        Response::ok(Probe)
    }

    fn wakeup(self, scope: &mut Scope<'_, Ctx>, api: &mut TestApi) -> Response<Probe, u64> {
        scope.ctx.wakeups += 1;
        if scope.ctx.probe_shutdown {
            scope.shutdown_loop(api);
        }
        if scope.ctx.probe_wakeup_dies {
            return Response::done();
        }
        match scope.ctx.probe_deadline {
            Some(d) => Response::ok(Probe).deadline(d),
            None => Response::ok(Probe),
        }
    }
}

fn echo_loop(capacity: usize) -> (rotor::Handler<Echo, TestApi>, TestApi) {
    let (tx, _rx) = sync_channel::<Notify>(16);
    let mut cfg = Config::new();
    cfg.slab_capacity(capacity);
    let handler = create_handler(create_slab(&cfg), Ctx::new(), tx);
    (handler, TestApi::new())
}

fn probe_loop(capacity: usize) -> (rotor::Handler<Probe, TestApi>, TestApi) {
    let (tx, _rx) = sync_channel::<Notify>(16);
    let mut cfg = Config::new();
    cfg.slab_capacity(capacity);
    let handler = create_handler(create_slab(&cfg), Ctx::new(), tx);
    (handler, TestApi::new())
}

#[test]
fn echo_three_connections() {
    let (mut handler, mut api) = echo_loop(8);
    let acc = handler.add_machine(&mut api, Echo::Acceptor, None, Time(1)).unwrap();
    assert_eq!(acc, Token(0));
    handler.context.pending = vec![0, 1, 2];
    handler.context.inputs = vec![b"a".to_vec(), b"b".to_vec(), b"c".to_vec()];
    handler.context.outputs = vec![Vec::new(), Vec::new(), Vec::new()];

    // One readiness on the listener accepts and installs all three
    // connections in a single spawn chain.
    handler.ready(&mut api, acc, EventSet::readable(), Time(2));
    assert_eq!(handler.count(), 4);
    for io in 0..3u64 {
        assert!(api.is_registered(io));
    }

    // Each connection echoes its bytes, then sees a zero-byte read and
    // terminates.
    for t in 1..=3usize {
        handler.ready(&mut api, Token(t), EventSet::readable(), Time(3));
    }
    assert_eq!(handler.context.outputs, vec![b"a".to_vec(), b"b".to_vec(), b"c".to_vec()]);
    for t in 1..=3usize {
        handler.ready(&mut api, Token(t), EventSet::readable(), Time(4));
    }
    assert_eq!(handler.count(), 1);
    assert!(handler.machine_at(acc).is_some());
}

#[test]
fn slab_exhaustion_hands_the_seed_back() {
    let (mut handler, mut api) = echo_loop(2);
    handler.context.inputs = vec![b"keep running".to_vec()];
    handler.context.outputs = vec![Vec::new()];
    let long_running = handler
        .add_machine(&mut api, Echo::Connection(0), None, Time(1))
        .unwrap();
    let acc = handler.add_machine(&mut api, Echo::Acceptor, None, Time(1)).unwrap();
    handler.context.pending = vec![5];

    handler.ready(&mut api, acc, EventSet::readable(), Time(2));

    // The parent saw NoSlabSpace carrying exactly the seed, kept it, and
    // keeps running; nothing leaked into the slab.
    assert_eq!(handler.context.returned_seeds, vec![5]);
    assert_eq!(handler.count(), 2);
    assert!(handler.machine_at(acc).is_some());
    assert!(handler.machine_at(long_running).is_some());
}

#[test]
fn add_machine_reports_full_slab() {
    let (mut handler, mut api) = probe_loop(1);
    handler.add_machine(&mut api, Probe, None, Time(1)).unwrap();
    match handler.add_machine(&mut api, Probe, None, Time(1)) {
        Err(SpawnError::NoSlabSpace(())) => {}
        _ => panic!("a full slab must be reported"),
    }
}

#[test]
fn deadline_rescheduling_delivers_one_timeout() {
    let (mut handler, mut api) = probe_loop(2);
    let tok = handler
        .add_machine(&mut api, Probe, Some(Time(101)), Time(1))
        .unwrap();
    assert!(api.is_armed(Timeout(0)));

    // At t=51 the machine reschedules to t=201: the old ticket is
    // cancelled and a fresh one armed.
    handler.context.probe_deadline = Some(Time(201));
    handler.notify(&mut api, Notify::Fsm(tok), Time(51));
    assert!(!api.is_armed(Timeout(0)));
    assert!(api.is_armed(Timeout(1)));
    assert_eq!(api.armed_count(), 1);

    // The fresh ticket was armed for this token with the delay that
    // corresponds to the new deadline under the dispatch time t=51.
    assert_eq!(api.armed_for(Timeout(1)), Some((tok, 151)));

    // Only the rescheduled timer fires: exactly one timeout arrives.
    handler.timeout(&mut api, Timeo::Fsm(tok), Time(202));
    assert_eq!(handler.context.timeouts, 1);
}

#[test]
fn equal_deadline_reuses_the_ticket() {
    let (mut handler, mut api) = probe_loop(2);
    let tok = handler
        .add_machine(&mut api, Probe, Some(Time(101)), Time(1))
        .unwrap();
    handler.context.probe_deadline = Some(Time(101));
    handler.notify(&mut api, Notify::Fsm(tok), Time(51));
    assert!(api.is_armed(Timeout(0)));
    assert_eq!(api.armed_count(), 1);
}

#[test]
fn past_deadline_fires_on_the_next_dispatch_only() {
    let (mut handler, mut api) = probe_loop(2);
    let tok = handler.add_machine(&mut api, Probe, None, Time(1)).unwrap();
    handler.context.probe_deadline = Some(Time(3));
    handler.notify(&mut api, Notify::Fsm(tok), Time(10));

    // The deadline lies in the past, yet no timeout ran synchronously:
    // the timer is armed (with a zero delay) for the next quantum.
    assert_eq!(handler.context.timeouts, 0);
    assert!(api.is_armed(Timeout(0)));
    handler.timeout(&mut api, Timeo::Fsm(tok), Time(10));
    assert_eq!(handler.context.timeouts, 1);
}

#[test]
fn notifier_survives_token_reuse() {
    let (tx, rx) = sync_channel::<Notify>(16);
    let mut cfg = Config::new();
    cfg.slab_capacity(1);
    let mut handler = create_handler::<Probe, TestApi>(create_slab(&cfg), Ctx::new(), tx);
    let mut api = TestApi::new();

    let tok = handler.add_machine(&mut api, Probe, None, Time(1)).unwrap();
    let n = create_notifier(tok, handler.channel());

    // The first occupant consumes a wakeup and terminates on it.
    handler.context.probe_wakeup_dies = true;
    n.wakeup().unwrap();
    let msg = rx.try_recv().unwrap();
    handler.notify(&mut api, msg, Time(2));
    assert_eq!(handler.count(), 0);
    assert_eq!(handler.context.wakeups, 1);

    // The token is recycled for a new occupant; the stale notifier now
    // produces a spurious wakeup, which the occupant tolerates.
    handler.context.probe_wakeup_dies = false;
    let tok2 = handler.add_machine(&mut api, Probe, None, Time(3)).unwrap();
    assert_eq!(tok2, tok);
    n.wakeup().unwrap();
    let msg = rx.try_recv().unwrap();
    handler.notify(&mut api, msg, Time(4));
    assert_eq!(handler.context.wakeups, 2);
    assert_eq!(handler.count(), 1);
}

#[test]
fn wakeup_for_a_vacant_token_is_dropped() {
    let (mut handler, mut api) = probe_loop(2);
    handler.notify(&mut api, Notify::Fsm(Token(1)), Time(2));
    handler.notify(&mut api, Notify::Fsm(Token(999)), Time(2));
    assert_eq!(handler.context.wakeups, 0);
}

#[test]
fn error_response_isolates_the_machine() {
    let (mut handler, mut api) = probe_loop(4);
    let sibling = handler.add_machine(&mut api, Probe, None, Time(1)).unwrap();
    let failing = handler.add_machine(&mut api, Probe, None, Time(1)).unwrap();

    handler.context.probe_ready_errors = true;
    handler.ready(&mut api, failing, EventSet::readable(), Time(2));
    assert_eq!(handler.count(), 1);
    assert!(handler.machine_at(failing).is_none());

    // The diagnostic of the failed machine is recorded for the driver.
    assert_eq!(handler.failure_count(), 1);
    let (bad_token, diag) = handler.failure_at(0);
    assert_eq!(*bad_token, failing);
    assert_eq!(diag.description(), "scripted failure");
    handler.clear_failures();
    assert_eq!(handler.failure_count(), 0);

    // The sibling keeps receiving events; the loop is still running.
    handler.context.probe_ready_errors = false;
    handler.notify(&mut api, Notify::Fsm(sibling), Time(3));
    assert_eq!(handler.context.wakeups, 1);
    assert!(handler.machine_at(sibling).is_some());
}

#[test]
fn composed_variants_share_the_dispatch() {
    let (tx, _rx) = sync_channel::<Notify>(16);
    let mut cfg = Config::new();
    cfg.slab_capacity(4);
    let mut handler =
        create_handler::<Compose2<Echo, Probe>, TestApi>(create_slab(&cfg), Ctx::new(), tx);
    let mut api = TestApi::new();
    handler.context.inputs = vec![b"hi".to_vec()];
    handler.context.outputs = vec![Vec::new()];

    let a = handler
        .add_machine(&mut api, Compose2::A(Echo::Connection(0)), None, Time(1))
        .unwrap();
    let b = handler.add_machine(&mut api, Compose2::B(Probe), None, Time(1)).unwrap();

    // Each event lands in its own variant: the connection echoes, the
    // probe counts.
    handler.ready(&mut api, a, EventSet::readable(), Time(2));
    assert_eq!(handler.context.outputs[0], b"hi".to_vec());
    assert_eq!(handler.context.readies, 0);
    handler.ready(&mut api, b, EventSet::readable(), Time(2));
    assert_eq!(handler.context.readies, 1);
    assert_eq!(handler.context.outputs[0], b"hi".to_vec());

    // A seed spawned by the first variant carries the first tag.
    let seed: Compose2Seed<u64, u64> = Compose2Seed::As(7);
    match seed {
        Compose2Seed::As(s) => assert_eq!(s, 7),
        Compose2Seed::Bs(_) => panic!("the seed variants must stay disjoint"),
    }
}

#[test]
fn composed_spawn_error_reaches_the_active_variant() {
    let (tx, _rx) = sync_channel::<Notify>(16);
    let mut cfg = Config::new();
    cfg.slab_capacity(2);
    let mut handler =
        create_handler::<Compose2<Echo, Probe>, TestApi>(create_slab(&cfg), Ctx::new(), tx);
    let mut api = TestApi::new();

    let acc = handler
        .add_machine(&mut api, Compose2::A(Echo::Acceptor), None, Time(1))
        .unwrap();
    handler.add_machine(&mut api, Compose2::B(Probe), None, Time(1)).unwrap();
    handler.context.pending = vec![5];

    // The spawn fails for want of a slot; the failure reaches the
    // acceptor variant with its own seed type, and the seed survives.
    handler.ready(&mut api, acc, EventSet::readable(), Time(2));
    assert_eq!(handler.context.returned_seeds, vec![5]);
    assert_eq!(handler.count(), 2);
    assert!(handler.machine_at(acc).is_some());
}

#[test]
fn shutdown_is_requested_through_the_scope() {
    let (mut handler, mut api) = probe_loop(2);
    let tok = handler.add_machine(&mut api, Probe, None, Time(1)).unwrap();
    assert!(!api.is_shutdown());
    handler.context.probe_shutdown = true;
    handler.notify(&mut api, Notify::Fsm(tok), Time(2));
    assert!(api.is_shutdown());
    assert_eq!(handler.count(), 1);
}

#[test]
fn a_scope_reports_its_token_and_time() {
    let (tx, _rx) = sync_channel::<Notify>(1);
    let mut ctx = Ctx::new();
    let sc = rotor::scope(Time(5), Token(1), &mut ctx, &tx);
    assert_eq!(sc.now(), Time(5));
    assert!(sc.estimate_system_time(Time(500)).is_some());
    let es = early_scope(Token(2), &tx);
    assert_eq!(es.now(), Time(1));
}

#[test]
fn register_then_deregister_leaves_no_residue() {
    let (tx, _rx) = sync_channel::<Notify>(4);
    let mut api = TestApi::new();
    let es = early_scope(Token(0), &tx);
    assert!(!api.is_registered(7));
    es.register(&mut api, &7u64, EventSet::readable(), PollOpt::edge()).unwrap();
    assert!(api.is_registered(7));
    es.deregister(&mut api, &7u64).unwrap();
    assert!(!api.is_registered(7));
}

#[test]
fn two_stage_construction_with_early_notifier() {
    let (tx, rx) = sync_channel::<Notify>(16);
    let mut cfg = Config::new();
    cfg.slab_capacity(4);
    let mut creator: rotor::LoopCreator<Probe, TestApi> = rotor::LoopCreator::new(&cfg, tx);
    let mut api = TestApi::new();

    // Before any context exists, the root machine's token is known and a
    // notifier for it can be minted through an early scope.
    let t = creator.vacant_token().unwrap();
    let n = early_scope(t, creator.channel()).notifier();
    assert_eq!(creator.add_machine(&mut api, Probe, None).unwrap(), t);

    let mut inst = creator.instantiate(Ctx::new());
    inst.add_machine(&mut api, Probe, None, Time(1)).unwrap();
    assert_eq!(inst.handler.count(), 2);

    n.wakeup().unwrap();
    let msg = rx.try_recv().unwrap();
    inst.handler.notify(&mut api, msg, Time(2));
    assert_eq!(inst.handler.context.wakeups, 1);
}
