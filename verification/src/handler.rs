//! Dispatching events to machine cells, and the spawn chain.
//!
//! The handler owns the slab of cells and the shared context.  For each
//! incoming event it samples one time value, takes the machine out of its
//! cell, invokes the matching method, and interprets the response: it
//! reconciles the cell's deadline with the timer wheel, reinserts the
//! successor machine, and walks the spawn chain to completion before
//! returning.
//!
//! The central invariant, [`coupled`], ties every deadline stored in a
//! cell to a ticket armed on the timer wheel for exactly that token: no
//! cell waits on a timer that is not armed, and no two cells share a
//! ticket.  Every entry point requires it and delivers it back.
//!
//! A machine that terminates with an error is removed alone; its
//! diagnostic is recorded with its token so the driver can report it.

use vstd::prelude::*;

use crate::Response;
use crate::error::{Diagnostic, SpawnError};
use crate::loop_api::{EventSet, LoopApi, TimerError, Timeout, Token};
use crate::loop_time::{mio_timeout_ms, spec_timeout_delay, Time};
use crate::machine::Machine;
use crate::response::{decompose, ResponseImpl};
use crate::scope::scope;
use crate::slab::{lemma_vacancies_update, vacancies, Slab};

verus! {

/// A timer event as it travels through the timer wheel.
pub enum Timeo {
    Fsm(Token),
}

/// A wakeup message as it travels through the notify channel.
pub enum Notify {
    Fsm(Token),
}

/// One slot's contents: an optional armed deadline and the machine.
pub type Cell<M> = (Option<(Timeout, Time)>, M);

/// The machine slab, the shared context and the wakeup channel of one
/// event loop.
pub struct Handler<M: Machine<L>, L: LoopApi> {
    slab: Slab<Cell<M>>,
    /// The loop-wide shared state.
    pub context: M::Context,
    channel: std::sync::mpsc::SyncSender<Notify>,
    failures: Vec<(Token, Box<Diagnostic>)>,
    services: core::marker::PhantomData<L>,
}

/// A cell's deadline is matched by the timer wheel: its ticket is armed
/// and owed to this cell's token.
pub open spec fn cell_coupled<M>(
    c: Option<Cell<M>>,
    i: usize,
    timers: Map<u64, (Token, u64)>,
) -> bool {
    match c {
        Some((Some((tk, _t)), _m)) => timers.contains_key(tk.0) && timers[tk.0].0 == Token(i),
        _ => true,
    }
}

/// Every cell's deadline is matched by the timer wheel.  Since each
/// armed ticket is owed to one token, no two cells can share a ticket.
pub open spec fn cells_coupled<M>(
    cells: Seq<Option<Cell<M>>>,
    timers: Map<u64, (Token, u64)>,
) -> bool {
    forall|i: usize| i < cells.len() ==> cell_coupled(#[trigger] cells[i as int], i, timers)
}

/// The handler's slab and the loop services agree on every deadline.
pub open spec fn coupled<M: Machine<L>, L: LoopApi>(h: Handler<M, L>, l: L) -> bool {
    cells_coupled(h.cells(), l.timers())
}

impl<M: Machine<L>, L: LoopApi> Handler<M, L> {
    /// The slab's contents, one optional cell per token.
    pub closed spec fn cells(&self) -> Seq<Option<Cell<M>>> {
        self.slab@
    }

    /// The loop-wide context value the handler holds.
    pub closed spec fn spec_context(&self) -> M::Context {
        self.context
    }

    /// The diagnostics of machines that terminated with an error, oldest
    /// first, each with the token it occupied.
    pub closed spec fn failure_log(&self) -> Seq<(Token, Box<Diagnostic>)> {
        self.failures@
    }

    /// How many error terminations have been recorded and not cleared.
    pub fn failure_count(&self) -> (r: usize)
        ensures
            r == self.failure_log().len(),
    {
        self.failures.len()
    }

    /// The recorded error termination at position `i`: the token whose
    /// machine failed, and its diagnostic.  A driver reads these and
    /// reports them at the severity of its choice.
    pub fn failure_at(&self, i: usize) -> (r: &(Token, Box<Diagnostic>))
        requires
            i < self.failure_log().len(),
        ensures
            *r == self.failure_log()[i as int],
    {
        &self.failures[i]
    }

    /// Forget the recorded error terminations.
    pub fn clear_failures(&mut self)
        ensures
            final(self).failure_log().len() == 0,
            final(self).cells() == old(self).cells(),
            final(self).spec_context() == old(self).spec_context(),
    {
        self.failures.clear();
    }

    /// How many slots hold a machine.
    pub fn count(&self) -> (r: usize)
        ensures
            r == self.cells().len() - vacancies(self.cells()),
    {
        self.slab.count()
    }

    /// The slab's capacity.
    pub fn capacity(&self) -> (r: usize)
        ensures
            r == self.cells().len(),
    {
        self.slab.capacity()
    }

    /// A borrow of the machine installed at `token`, if any.
    pub fn machine_at(&self, token: Token) -> (r: Option<&M>)
        requires
            token.0 < self.cells().len(),
        ensures
            match r {
                Some(m) => (self.cells()[token.0 as int] matches Some(c) && c.1 == *m),
                None => self.cells()[token.0 as int] is None,
            },
    {
        match self.slab.get(token.0) {
            Some(cell) => Some(&cell.1),
            None => None,
        }
    }

    /// The sending end of this loop's wakeup channel.
    pub fn channel(&self) -> &std::sync::mpsc::SyncSender<Notify> {
        &self.channel
    }

    /// The first token whose slot is vacant, if the slab is not full.
    pub fn vacant_token(&self) -> (r: Option<Token>)
        ensures
            match r {
                Some(t) => t.0 < self.cells().len() && self.cells()[t.0 as int] is None
                    && forall|j: int| 0 <= j < t.0 ==> self.cells()[j] is Some,
                None => forall|j: int| 0 <= j < self.cells().len() ==> self.cells()[j] is Some,
            },
    {
        match self.slab.find_vacant() {
            Some(i) => Some(Token(i)),
            None => None,
        }
    }
}

/// A handler over a slab, a context and the sending end of the loop's
/// wakeup channel.
pub fn create_handler<M: Machine<L>, L: LoopApi>(
    slab: Slab<Cell<M>>,
    context: M::Context,
    channel: std::sync::mpsc::SyncSender<Notify>,
) -> (r: Handler<M, L>)
    ensures
        r.cells() == slab@,
        r.spec_context() == context,
        r.failure_log().len() == 0,
{
    Handler { slab, context, channel, failures: Vec::new(), services: core::marker::PhantomData }
}

/// Arms a timer for `token` when a deadline is requested, handing back
/// what the cell should store.
///
/// A deadline at or before `now` is armed with a zero delay, so that it
/// fires on the next dispatch quantum.
pub fn set_timeout_opt<L: LoopApi>(
    option: Option<Time>,
    now: Time,
    token: Token,
    api: &mut L,
) -> (r: Result<Option<(Timeout, Time)>, TimerError>)
    requires
        now.0 >= 1,
    ensures
        final(api).registrations() == old(api).registrations(),
        final(api).shutdown_requested() == old(api).shutdown_requested(),
        match r {
            Ok(None) => option is None && final(api).timers() == old(api).timers(),
            Ok(Some((tk, t))) => option == Some(t) && !old(api).timers().contains_key(tk.0)
                && final(api).timers() == old(api).timers().insert(
                tk.0,
                (token, spec_timeout_delay(now, t)),
            ),
            Err(_) => option is Some && final(api).timers() == old(api).timers(),
        },
{
    match option {
        None => Ok(None),
        Some(new_ts) => {
            let ms = mio_timeout_ms(now, new_ts);
            match api.timeout_ms(token, ms) {
                Ok(tk) => Ok(Some((tk, new_ts))),
                Err(e) => Err(e),
            }
        },
    }
}

/// A fresh ticket was armed for `token` at the delay that corresponds to
/// the deadline `t` under the dispatch time `now`, and the cell stores it.
pub open spec fn armed_fresh<M>(
    base: Map<u64, (Token, u64)>,
    after: Map<u64, (Token, u64)>,
    r: Option<Cell<M>>,
    m: M,
    t: Time,
    token: Token,
    now: Time,
) -> bool {
    exists|tk2: Timeout|
        r == Some((Some((tk2, t)), m)) && !base.contains_key(tk2.0) && after == base.insert(
            #[trigger] tk2.0,
            (token, spec_timeout_delay(now, t)),
        )
}

/// Interprets a response for the cell at `token`: reconciles the armed
/// timer with the requested deadline, reusing the ticket when the
/// deadline is unchanged, and hands back the cell to store, `None` when
/// the machine terminated.  A carried seed is left in `creator`.
///
/// When the timer wheel cannot arm the requested deadline, the machine
/// is terminated as well: the exhaustion is confined to this one cell.
fn replacer<M: Machine<L>, L: LoopApi>(
    token: Token,
    resp: Response<M, M::Seed>,
    old_timeo: Option<(Timeout, Time)>,
    now: Time,
    api: &mut L,
    creator: &mut Option<M::Seed>,
    failed: &mut Option<Box<Diagnostic>>,
) -> (r: Option<Cell<M>>)
    requires
        now.0 >= 1,
        match old_timeo {
            Some((tk, _)) => old(api).timers().contains_key(tk.0) && old(api).timers()[tk.0].0
                == token,
            None => true,
        },
    ensures
        final(api).registrations() == old(api).registrations(),
        final(api).shutdown_requested() == old(api).shutdown_requested(),
        *final(failed) == (match resp.0 {
            ResponseImpl::Error(e) => Some(e),
            _ => None::<Box<Diagnostic>>,
        }),
        match resp.0 {
            ResponseImpl::Normal(m) => r == Some((None::<(Timeout, Time)>, m)) && *final(creator)
                is None,
            ResponseImpl::Deadline(m, t) => *final(creator) is None && match r {
                Some((dl, m2)) => m2 == m && match dl {
                    Some((tk2, t2)) => t2 == t && final(api).timers().contains_key(tk2.0)
                        && final(api).timers()[tk2.0].0 == token,
                    None => false,
                },
                None => true,
            },
            ResponseImpl::Spawn(m, n) => r == Some((None::<(Timeout, Time)>, m))
                && *final(creator) == Some(n),
            ResponseImpl::Done => r is None && *final(creator) is None,
            ResponseImpl::Error(_) => r is None && *final(creator) is None,
        },
        ({
            let before = old(api).timers();
            let after = final(api).timers();
            let base = (match old_timeo {
                Some((otk, _)) => before.remove(otk.0),
                None => before,
            });
            match resp.0 {
                ResponseImpl::Deadline(m, t) => (match old_timeo {
                    Some((otk, ot)) => if t.0 == ot.0 {
                        // An unchanged deadline reuses the armed ticket.
                        r == Some((Some((otk, t)), m)) && after == before
                    } else {
                        armed_fresh(base, after, r, m, t, token, now) || (r is None && after
                            == base)
                    },
                    None => armed_fresh(base, after, r, m, t, token, now) || (r is None && after
                        == base),
                }),
                _ => after == base,
            }
        }),
{
    let (mach, new, newtime) = decompose(token, resp);
    let same_deadline: bool = match (newtime, old_timeo) {
        (Some(nt), Some((_, ot))) => nt.0 == ot.0,
        _ => false,
    };
    let rtime: Result<Option<(Timeout, Time)>, TimerError> = if !same_deadline {
        if let Some((tk, _)) = old_timeo {
            api.clear_timeout(tk);
        }
        set_timeout_opt(newtime, now, token, api)
    } else {
        Ok(old_timeo)
    };
    *creator = new;
    match (mach, rtime) {
        (Ok(m), Ok(timeo)) => {
            *failed = None;
            Some((timeo, m))
        },
        (Ok(_), Err(_)) => {
            *failed = None;
            None
        },
        (Err(d), _) => {
            *failed = d;
            None
        },
    }
}

/// The five kinds of deliveries a cell can receive in one dispatch.
enum Event<S> {
    Ready(EventSet),
    Timeout,
    Wakeup,
    Spawned,
    SpawnFailed(SpawnError<S>),
}

/// Delivers one event to the occupied cell at `token`: takes the
/// machine, invokes the matching method, and stores the interpreted
/// outcome back.  A seed carried by the response is left in `creator`.
fn dispatch_step<M: Machine<L>, L: LoopApi>(
    handler: &mut Handler<M, L>,
    api: &mut L,
    token: Token,
    now: Time,
    ev: Event<M::Seed>,
    creator: &mut Option<M::Seed>,
)
    requires
        now.0 >= 1,
        token.0 < old(handler).cells().len(),
        old(handler).cells()[token.0 as int] is Some,
        coupled(*old(handler), *old(api)),
    ensures
        coupled(*final(handler), *final(api)),
        final(handler).cells().len() == old(handler).cells().len(),
        *final(creator) is Some ==> vacancies(final(handler).cells()) == vacancies(
            old(handler).cells(),
        ) && final(handler).cells()[token.0 as int] is Some,
        forall|j: usize|
            j < old(handler).cells().len() && j != token.0
                ==> final(handler).cells()[j as int] == old(handler).cells()[j as int],
        ev is SpawnFailed ==> *final(creator) is None,
        vacancies(final(handler).cells()) == vacancies(old(handler).cells()) || vacancies(
            final(handler).cells(),
        ) == vacancies(old(handler).cells()) + 1,
{
    let ghost cells0 = handler.cells();
    let cell = handler.slab.take(token.0);
    proof {
        lemma_vacancies_update(cells0, token.0 as int, None::<Cell<M>>);
    }
    let (old_timeo, m) = cell.unwrap();
    let ghost timers0 = api.timers();
    let resp = {
        let mut sc = scope(now, token, &mut handler.context, &handler.channel);
        match ev {
            Event::Ready(es) => m.ready(es, &mut sc, api),
            Event::Timeout => m.timeout(&mut sc, api),
            Event::Wakeup => m.wakeup(&mut sc, api),
            Event::Spawned => m.spawned(&mut sc, api),
            Event::SpawnFailed(err) => m.spawn_error(&mut sc, api, err),
        }
    };
    let mut failed: Option<Box<Diagnostic>> = None;
    let newcell = replacer(token, resp, old_timeo, now, api, creator, &mut failed);
    let ghost cells1 = handler.cells();
    match newcell {
        Some(c) => {
            handler.slab.replace(token.0, c);
            proof {
                lemma_vacancies_update(cells1, token.0 as int, Some(c));
            }
        },
        None => {},
    }
    if let Some(d) = failed {
        handler.failures.push((token, d));
    }
    proof {
        let cells_end = handler.cells();
        let timers_end = api.timers();
        assert forall|i: usize| i < cells_end.len() implies cell_coupled(
            #[trigger] cells_end[i as int],
            i,
            timers_end,
        ) by {
            assert(cell_coupled(cells0[i as int], i, timers0));
            if i != token.0 {
                assert(cells_end[i as int] == cells0[i as int]);
                match cells0[i as int] {
                    Some((Some((tk, _t)), _mm)) => {
                        assert(timers0.contains_key(tk.0) && timers0[tk.0].0 == Token(i));
                        match old_timeo {
                            Some((otk, _ot)) => {
                                assert(timers0[otk.0].0 == token);
                                assert(tk.0 != otk.0);
                            },
                            None => {},
                        }
                        assert(timers_end.contains_key(tk.0) && timers_end[tk.0] == timers0[tk.0]);
                    },
                    _ => {},
                }
            }
        }
    }
}

/// Runs one full dispatch for an event on `token`: the machine's method,
/// then the spawn chain to completion.
///
/// One `now` value is sampled by the caller and observed by every
/// sub-step of the dispatch.  An event for a vacant or out-of-range
/// token is spurious and dropped without any effect.
fn machine_loop<M: Machine<L>, L: LoopApi>(
    handler: &mut Handler<M, L>,
    api: &mut L,
    token: Token,
    kind: Event<M::Seed>,
    now: Time,
)
    requires
        now.0 >= 1,
        coupled(*old(handler), *old(api)),
        kind is Ready || kind is Timeout || kind is Wakeup,
    ensures
        coupled(*final(handler), *final(api)),
        final(handler).cells().len() == old(handler).cells().len(),
        token.0 >= old(handler).cells().len() || old(handler).cells()[token.0 as int] is None
            ==> *final(handler) == *old(handler) && *final(api) == *old(api),
        forall|j: usize|
            j < old(handler).cells().len() && j != token.0
                ==> final(handler).cells()[j as int] == old(handler).cells()[j as int] || old(
                handler,
            ).cells()[j as int] is None,
{
    if token.0 >= handler.slab.capacity() {
        return;
    }
    if !handler.slab.is_occupied(token.0) {
        return;
    }
    let mut creator: Option<M::Seed> = None;
    dispatch_step(handler, api, token, now, kind, &mut creator);
    while creator.is_some()
        invariant
            now.0 >= 1,
            token.0 < handler.cells().len(),
            handler.cells().len() == old(handler).cells().len(),
            coupled(*handler, *api),
            creator is Some ==> handler.cells()[token.0 as int] is Some,
            forall|j: usize|
                j < handler.cells().len() && j != token.0
                    ==> handler.cells()[j as int] == old(handler).cells()[j as int] || old(
                    handler,
                ).cells()[j as int] is None,
        decreases (if creator is Some {
            vacancies(handler.cells()) + 1
        } else {
            0nat
        }),
    {
        let seed = creator.take().unwrap();
        match handler.slab.find_vacant() {
            None => {
                // No slot: hand the seed back to the parent, unconsumed.
                let err = SpawnError::NoSlabSpace(seed);
                dispatch_step(handler, api, token, now, Event::SpawnFailed(err), &mut creator);
            },
            Some(child_slot) => {
                let child_token = Token(child_slot);
                let resp = {
                    let mut sc = scope(now, child_token, &mut handler.context, &handler.channel);
                    M::create(seed, &mut sc, api)
                };
                let (mach, _no_seed, newtime) = decompose(child_token, resp);
                match mach {
                    Ok(child) => {
                        match set_timeout_opt(newtime, now, child_token, api) {
                            Ok(timeo) => {
                                let ghost cells_before = handler.cells();
                                handler.slab.put(child_slot, (timeo, child));
                                proof {
                                    lemma_vacancies_update(
                                        cells_before,
                                        child_slot as int,
                                        Some((timeo, child)),
                                    );
                                }
                                dispatch_step(
                                    handler,
                                    api,
                                    token,
                                    now,
                                    Event::Spawned,
                                    &mut creator,
                                );
                            },
                            Err(_) => {
                                // The wheel cannot carry the child's deadline:
                                // report the construction as failed.
                                let err = SpawnError::UserError(
                                    Box::new(
                                        Diagnostic::new(
                                            "timer capacity reached while installing a machine".to_owned(),
                                        ),
                                    ),
                                );
                                dispatch_step(
                                    handler,
                                    api,
                                    token,
                                    now,
                                    Event::SpawnFailed(err),
                                    &mut creator,
                                );
                            },
                        }
                    },
                    Err(None) => {
                        // The construction declined: the slot stays vacant and
                        // the chain ends here.
                    },
                    Err(Some(e)) => {
                        let err = SpawnError::UserError(e);
                        dispatch_step(
                            handler,
                            api,
                            token,
                            now,
                            Event::SpawnFailed(err),
                            &mut creator,
                        );
                    },
                }
            },
        }
    }
}

impl<M: Machine<L>, L: LoopApi> Handler<M, L> {
    /// Readiness was reported for `token`: dispatch it, then walk the
    /// spawn chain.
    pub fn ready(&mut self, api: &mut L, token: Token, events: EventSet, now: Time)
        requires
            now.0 >= 1,
            coupled(*old(self), *old(api)),
        ensures
            coupled(*final(self), *final(api)),
            final(self).cells().len() == old(self).cells().len(),
            token.0 >= old(self).cells().len() || old(self).cells()[token.0 as int] is None
                ==> *final(self) == *old(self) && *final(api) == *old(api),
            forall|j: usize|
                j < old(self).cells().len() && j != token.0
                    ==> final(self).cells()[j as int] == old(self).cells()[j as int] || old(
                    self,
                ).cells()[j as int] is None,
    {
        machine_loop(self, api, token, Event::Ready(events), now)
    }

    /// A wakeup message arrived: dispatch it to its token.
    pub fn notify(&mut self, api: &mut L, msg: Notify, now: Time)
        requires
            now.0 >= 1,
            coupled(*old(self), *old(api)),
        ensures
            coupled(*final(self), *final(api)),
            final(self).cells().len() == old(self).cells().len(),
            (match msg {
                Notify::Fsm(token) => token.0 >= old(self).cells().len()
                    || old(self).cells()[token.0 as int] is None,
            }) ==> *final(self) == *old(self) && *final(api) == *old(api),
            forall|j: usize|
                j < old(self).cells().len() && (match msg {
                    Notify::Fsm(token) => j != token.0,
                }) ==> final(self).cells()[j as int] == old(self).cells()[j as int] || old(
                    self,
                ).cells()[j as int] is None,
    {
        match msg {
            Notify::Fsm(token) => machine_loop(self, api, token, Event::Wakeup, now),
        }
    }

    /// A timer fired: dispatch the timeout to its token.
    pub fn timeout(&mut self, api: &mut L, timeo: Timeo, now: Time)
        requires
            now.0 >= 1,
            coupled(*old(self), *old(api)),
        ensures
            coupled(*final(self), *final(api)),
            final(self).cells().len() == old(self).cells().len(),
            (match timeo {
                Timeo::Fsm(token) => token.0 >= old(self).cells().len()
                    || old(self).cells()[token.0 as int] is None,
            }) ==> *final(self) == *old(self) && *final(api) == *old(api),
            forall|j: usize|
                j < old(self).cells().len() && (match timeo {
                    Timeo::Fsm(token) => j != token.0,
                }) ==> final(self).cells()[j as int] == old(self).cells()[j as int] || old(
                    self,
                ).cells()[j as int] is None,
    {
        match timeo {
            Timeo::Fsm(token) => machine_loop(self, api, token, Event::Timeout, now),
        }
    }

    /// Install a machine into the first vacant slot, arming its deadline
    /// if one is given.
    ///
    /// With the slab at capacity nothing changes and the caller gets
    /// `NoSlabSpace`; if the timer wheel cannot carry the deadline, the
    /// machine is not installed and the caller gets a user error.
    pub fn add_machine(
        &mut self,
        api: &mut L,
        m: M,
        deadline: Option<Time>,
        now: Time,
    ) -> (r: Result<Token, SpawnError<()>>)
        requires
            now.0 >= 1,
            coupled(*old(self), *old(api)),
        ensures
            coupled(*final(self), *final(api)),
            final(self).cells().len() == old(self).cells().len(),
            final(api).registrations() == old(api).registrations(),
            final(api).shutdown_requested() == old(api).shutdown_requested(),
            match r {
                Ok(t) => t.0 < old(self).cells().len() && old(self).cells()[t.0 as int] is None
                    && (forall|j: int| 0 <= j < t.0 ==> old(self).cells()[j] is Some)
                    && (final(self).cells()[t.0 as int] matches Some(c) && c.1 == m
                        && (match (deadline, c.0) {
                        (Some(d), Some((_, td))) => td == d,
                        (None, None) => true,
                        _ => false,
                    }))
                    && (forall|j: int|
                        0 <= j < old(self).cells().len() && j != t.0
                            ==> final(self).cells()[j] == old(self).cells()[j]),
                Err(e) => *final(self) == *old(self) && final(api).timers() == old(api).timers()
                    && (e is NoSlabSpace ==> forall|j: int|
                        0 <= j < old(self).cells().len() ==> old(self).cells()[j] is Some) && (e
                    is UserError ==> deadline is Some),
            },
            deadline is None && (exists|j: int|
                0 <= j < old(self).cells().len() && old(self).cells()[j] is None) ==> r is Ok,
    {
        add_to_slab(&mut self.slab, api, m, deadline, now)
    }
}

/// Installs a machine into the first vacant slot of a pool, arming its
/// deadline; shared by the handler and the loop stages.
pub(crate) fn add_to_slab<M: Machine<L>, L: LoopApi>(
    slab: &mut Slab<Cell<M>>,
    api: &mut L,
    m: M,
    deadline: Option<Time>,
    now: Time,
) -> (r: Result<Token, SpawnError<()>>)
    requires
        now.0 >= 1,
        cells_coupled(old(slab)@, old(api).timers()),
    ensures
        cells_coupled(final(slab)@, final(api).timers()),
        final(slab)@.len() == old(slab)@.len(),
        final(api).registrations() == old(api).registrations(),
        final(api).shutdown_requested() == old(api).shutdown_requested(),
        match r {
            Ok(t) => t.0 < old(slab)@.len() && old(slab)@[t.0 as int] is None && (forall|j: int|
                0 <= j < t.0 ==> old(slab)@[j] is Some) && (final(slab)@[t.0 as int] matches Some(
                c,
            ) && c.1 == m && (match (deadline, c.0) {
                (Some(d), Some((_, td))) => td == d,
                (None, None) => true,
                _ => false,
            })) && (forall|j: int|
                0 <= j < old(slab)@.len() && j != t.0 ==> final(slab)@[j] == old(slab)@[j]),
            Err(e) => *final(slab) == *old(slab) && final(api).timers() == old(api).timers() && (e
                is NoSlabSpace ==> forall|j: int|
                0 <= j < old(slab)@.len() ==> old(slab)@[j] is Some) && (e is UserError
                ==> deadline is Some),
        },
        deadline is None && (exists|j: int| 0 <= j < old(slab)@.len() && old(slab)@[j] is None)
            ==> r is Ok,
{
    let ghost cells0 = slab@;
    let ghost timers0 = api.timers();
    match slab.find_vacant() {
        None => Err(SpawnError::NoSlabSpace(())),
        Some(i) => {
            match set_timeout_opt(deadline, now, Token(i), api) {
                Ok(timeo) => {
                    slab.put(i, (timeo, m));
                    proof {
                        let cells_end = slab@;
                        let timers_end = api.timers();
                        assert forall|k: usize| k < cells_end.len() implies cell_coupled(
                            #[trigger] cells_end[k as int],
                            k,
                            timers_end,
                        ) by {
                            assert(cell_coupled(cells0[k as int], k, timers0));
                        }
                    }
                    Ok(Token(i))
                },
                Err(_) => {
                    let err = SpawnError::UserError(
                        Box::new(
                            Diagnostic::new(
                                "timer capacity reached while installing a machine".to_owned(),
                            ),
                        ),
                    );
                    Err(err)
                },
            }
        },
    }
}

} // verus!
