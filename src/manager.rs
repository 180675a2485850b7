//! The registry of process records, keyed by instance id.
//!
//! Starting an instance is a reservation protocol: `begin_spawn` checks and
//! reserves the id in one step, the caller spawns without holding the
//! registry, then `finish_spawn` installs the record or `abort_spawn`
//! releases the reservation. So no two starts of one id can overlap, and a
//! start is refused while a live record stands under the id. A dead record
//! displaced by a reservation stays visible until the new record replaces
//! it, and comes back if the start fails.
use crate::process::ProcessState;
use std::collections::HashMap;
use vstd::prelude::*;

verus! {

broadcast use vstd::std_specs::hash::group_hash_axioms;

/// What the registry holds under an id.
pub enum Slot<P> {
    /// A start has been reserved and its child is being spawned; the dead
    /// record it will replace, if there was one, is kept meanwhile.
    Starting(Option<P>),
    /// A record, with the liveness last reported for it.
    Ready(P, ProcessState),
}

/// Why a start was refused.
#[derive(PartialEq, Eq, Clone, Copy, Debug, Structural)]
pub enum StartError {
    /// Another start of the id is in progress, or its record is alive.
    Conflict,
}

/// Whether a slot blocks a new start.
pub open spec fn blocks_start<P>(slot: Slot<P>) -> bool {
    match slot {
        Slot::Starting(_) => true,
        Slot::Ready(_, s) => s == ProcessState::Alive,
    }
}

/// Whether the map holds a live (or starting) occupant for `id`.
pub open spec fn occupied<P>(m: Map<u64, Slot<P>>, id: u64) -> bool {
    m.contains_key(id) && blocks_start(m[id])
}

/// The record last installed under `id`, alive or dead, if any.
pub open spec fn record_of<P>(m: Map<u64, Slot<P>>, id: u64) -> Option<P> {
    if m.contains_key(id) {
        match m[id] {
            Slot::Starting(displaced) => displaced,
            Slot::Ready(p, _) => Some(p),
        }
    } else {
        None
    }
}

/// The liveness last known of the record under `id`: a record displaced by
/// a reservation is dead.
pub open spec fn state_of<P>(m: Map<u64, Slot<P>>, id: u64) -> Option<ProcessState> {
    if m.contains_key(id) {
        match m[id] {
            Slot::Starting(Some(_)) => Some(ProcessState::Dead),
            Slot::Starting(None) => None,
            Slot::Ready(_, s) => Some(s),
        }
    } else {
        None
    }
}

/// The reservation that a start of `id` puts in place, keeping the record
/// it displaces.
pub open spec fn reservation<P>(m: Map<u64, Slot<P>>, id: u64) -> Slot<P> {
    Slot::Starting(record_of(m, id))
}

/// The registry after `begin_spawn(id)` on `before` that returned `r`.
pub open spec fn begin_post<P>(
    before: Map<u64, Slot<P>>,
    after: Map<u64, Slot<P>>,
    id: u64,
    r: Result<(), StartError>,
) -> bool {
    if occupied(before, id) {
        r == Err::<(), StartError>(StartError::Conflict) && after == before
    } else {
        r is Ok && after == before.insert(id, reservation(before, id))
    }
}

/// The registry after `finish_spawn(id, p)`.
pub open spec fn finish_post<P>(
    before: Map<u64, Slot<P>>,
    after: Map<u64, Slot<P>>,
    id: u64,
    p: P,
) -> bool {
    after == before.insert(id, Slot::Ready(p, ProcessState::Alive))
}

/// The registry after `abort_spawn(id)`: a reservation gives back the dead
/// record it displaced, or leaves the id empty; anything else is untouched.
pub open spec fn abort_post<P>(before: Map<u64, Slot<P>>, after: Map<u64, Slot<P>>, id: u64) -> bool {
    if before.contains_key(id) {
        match before[id] {
            Slot::Starting(Some(p)) => after == before.insert(
                id,
                Slot::Ready(p, ProcessState::Dead),
            ),
            Slot::Starting(None) => after == before.remove(id),
            Slot::Ready(_, _) => after == before,
        }
    } else {
        after == before
    }
}

/// The liveness a slot's record is known to have after a new report `s`.
pub open spec fn merged_state(old_state: ProcessState, s: ProcessState) -> ProcessState {
    if old_state == ProcessState::Dead {
        ProcessState::Dead
    } else {
        s
    }
}

/// The registry after `observe(id, s)`.
pub open spec fn observe_post<P>(
    before: Map<u64, Slot<P>>,
    id: u64,
    s: ProcessState,
) -> Map<u64, Slot<P>> {
    if before.contains_key(id) {
        match before[id] {
            Slot::Ready(p, old_state) => before.insert(id, Slot::Ready(p, merged_state(old_state, s))),
            Slot::Starting(_) => before,
        }
    } else {
        before
    }
}

pub struct ProcessManagementService<P> {
    processes: HashMap<u64, Slot<P>>,
}

impl<P> ProcessManagementService<P> {
    pub closed spec fn view(&self) -> Map<u64, Slot<P>> {
        self.processes@
    }

    /// An empty registry.
    pub fn new() -> (r: Self)
        ensures
            r@ == Map::<u64, Slot<P>>::empty(),
    {
        ProcessManagementService { processes: HashMap::new() }
    }

    /// The record last installed under `id`, whatever its liveness, also
    /// while a new start of `id` is in progress.
    pub fn get_process(&self, id: u64) -> (r: Option<&P>)
        ensures
            match r {
                Some(p) => record_of(self@, id) == Some(*p),
                None => record_of(self@, id) is None,
            },
    {
        match self.processes.get(&id) {
            Some(Slot::Ready(p, _)) => Some(p),
            Some(Slot::Starting(Some(p))) => Some(p),
            _ => None,
        }
    }

    /// The liveness last reported for the record under `id`.
    pub fn last_state(&self, id: u64) -> (r: Option<ProcessState>)
        ensures
            r == state_of(self@, id),
    {
        match self.processes.get(&id) {
            Some(Slot::Ready(_, s)) => Some(*s),
            Some(Slot::Starting(Some(_))) => Some(ProcessState::Dead),
            _ => None,
        }
    }

    /// Records a liveness report for the record under `id`. A record once
    /// reported dead stays dead.
    pub fn observe(&mut self, id: u64, s: ProcessState)
        ensures
            final(self)@ == observe_post(old(self)@, id, s),
    {
        match self.processes.remove(&id) {
            Some(Slot::Ready(p, old_state)) => {
                let merged = if old_state == ProcessState::Dead {
                    ProcessState::Dead
                } else {
                    s
                };
                self.processes.insert(id, Slot::Ready(p, merged));
                assert(final(self)@ =~= observe_post(old(self)@, id, s));
            },
            Some(Slot::Starting(displaced)) => {
                self.processes.insert(id, Slot::Starting(displaced));
                assert(final(self)@ =~= old(self)@);
            },
            None => {
                assert(final(self)@ =~= old(self)@);
            },
        }
    }

    /// Checks and reserves `id` for a new start in one step: refused while
    /// another start is in progress or the record is last known alive. A
    /// dead record stays in the reservation until it is replaced.
    pub fn begin_spawn(&mut self, id: u64) -> (r: Result<(), StartError>)
        ensures
            begin_post(old(self)@, final(self)@, id, r),
    {
        match self.processes.remove(&id) {
            None => {
                self.processes.insert(id, Slot::Starting(None));
                assert(final(self)@ =~= old(self)@.insert(id, reservation(old(self)@, id)));
                Ok(())
            },
            Some(Slot::Starting(displaced)) => {
                self.processes.insert(id, Slot::Starting(displaced));
                assert(final(self)@ =~= old(self)@);
                Err(StartError::Conflict)
            },
            Some(Slot::Ready(p, s)) => {
                if s == ProcessState::Alive {
                    self.processes.insert(id, Slot::Ready(p, s));
                    assert(final(self)@ =~= old(self)@);
                    Err(StartError::Conflict)
                } else {
                    self.processes.insert(id, Slot::Starting(Some(p)));
                    assert(final(self)@ =~= old(self)@.insert(id, reservation(old(self)@, id)));
                    Ok(())
                }
            },
        }
    }

    /// Installs the record of a started child under `id`, replacing whatever
    /// stood there.
    pub fn finish_spawn(&mut self, id: u64, process: P)
        ensures
            finish_post(old(self)@, final(self)@, id, process),
    {
        self.processes.insert(id, Slot::Ready(process, ProcessState::Alive));
    }

    /// Releases a reservation whose start failed, giving back the dead
    /// record it displaced.
    pub fn abort_spawn(&mut self, id: u64)
        ensures
            abort_post(old(self)@, final(self)@, id),
    {
        match self.processes.remove(&id) {
            Some(Slot::Starting(Some(p))) => {
                self.processes.insert(id, Slot::Ready(p, ProcessState::Dead));
                assert(final(self)@ =~= old(self)@.insert(id, Slot::Ready(p, ProcessState::Dead)));
            },
            Some(Slot::Starting(None)) => {},
            Some(Slot::Ready(p, s)) => {
                self.processes.insert(id, Slot::Ready(p, s));
                assert(final(self)@ =~= old(self)@);
            },
            None => {
                assert(final(self)@ =~= old(self)@);
            },
        }
    }
}

/// At most one child per id is starting or alive: while a start of `id` is
/// in progress or its record is last known alive, another start of `id` is
/// refused and leaves the registry as it was.
pub proof fn at_most_one_live_per_id<P>(
    before: Map<u64, Slot<P>>,
    after: Map<u64, Slot<P>>,
    id: u64,
    r: Result<(), StartError>,
)
    requires
        occupied(before, id),
        begin_post(before, after, id, r),
    ensures
        r == Err::<(), StartError>(StartError::Conflict),
        after == before,
{
}

/// Two starts of one id cannot overlap: after a start has reserved `id`,
/// a second start of `id` is refused.
pub proof fn second_start_conflicts<P>(
    m0: Map<u64, Slot<P>>,
    m1: Map<u64, Slot<P>>,
    m2: Map<u64, Slot<P>>,
    id: u64,
    r1: Result<(), StartError>,
    r2: Result<(), StartError>,
)
    requires
        begin_post(m0, m1, id, r1),
        r1 is Ok,
        begin_post(m1, m2, id, r2),
    ensures
        r2 == Err::<(), StartError>(StartError::Conflict),
{
}

/// A started record that is still reported alive blocks a new start of its
/// id: reports of `Alive` after `finish_spawn` keep the id occupied.
pub proof fn live_record_blocks_start<P>(
    m0: Map<u64, Slot<P>>,
    m1: Map<u64, Slot<P>>,
    id: u64,
    p: P,
    m2: Map<u64, Slot<P>>,
    r: Result<(), StartError>,
)
    requires
        finish_post(m0, m1, id, p),
        begin_post(observe_post(m1, id, ProcessState::Alive), m2, id, r),
    ensures
        r == Err::<(), StartError>(StartError::Conflict),
{
    assert(observe_post(m1, id, ProcessState::Alive) == m1.insert(
        id,
        Slot::Ready(p, ProcessState::Alive),
    ));
}

/// A start leaves every record visible: while it runs, the record last
/// installed under its id (dead, or none) is still the one returned.
pub proof fn record_visible_during_start<P>(
    m0: Map<u64, Slot<P>>,
    m1: Map<u64, Slot<P>>,
    id: u64,
    r: Result<(), StartError>,
)
    requires
        begin_post(m0, m1, id, r),
    ensures
        forall|k: u64| #[trigger] record_of(m1, k) == record_of(m0, k),
{
    assert forall|k: u64| #[trigger] record_of(m1, k) == record_of(m0, k) by {
        if k != id {
            if m1.contains_key(k) {
                assert(m1[k] == m0[k]);
            }
        }
    }
}

/// A failed start leaves the registry exactly as it found it: releasing a
/// reservation undoes it.
pub proof fn failed_start_leaves_registry_unchanged<P>(
    m0: Map<u64, Slot<P>>,
    m1: Map<u64, Slot<P>>,
    m2: Map<u64, Slot<P>>,
    id: u64,
    r: Result<(), StartError>,
)
    requires
        begin_post(m0, m1, id, r),
        r is Ok,
        abort_post(m1, m2, id),
    ensures
        m2 == m0,
{
    if m0.contains_key(id) {
        match m0[id] {
            Slot::Ready(p, st) => {
                assert(st == ProcessState::Dead);
                assert(m0[id] == Slot::Ready(p, ProcessState::Dead));
                assert(m1[id] == Slot::<P>::Starting(Some(p)));
                assert(m2 =~= m0);
            },
            Slot::Starting(_) => {},
        }
    } else {
        assert(m1[id] == Slot::<P>::Starting(None));
        assert(m2 =~= m0);
    }
}

/// Starting an id whose record is dead succeeds whatever is reported of the
/// dead record, and installing the new child replaces it under that id and
/// nowhere else.
pub proof fn respawn_replaces_dead_record<P>(
    m0: Map<u64, Slot<P>>,
    id: u64,
    old_process: P,
    new_process: P,
    report: ProcessState,
    m1: Map<u64, Slot<P>>,
    r: Result<(), StartError>,
    m2: Map<u64, Slot<P>>,
)
    requires
        m0.contains_key(id),
        m0[id] == Slot::Ready(old_process, ProcessState::Dead),
        begin_post(observe_post(m0, id, report), m1, id, r),
        finish_post(m1, m2, id, new_process),
    ensures
        observe_post(m0, id, report) == m0,
        r is Ok,
        record_of(m1, id) == Some(old_process),
        record_of(m2, id) == Some(new_process),
        state_of(m2, id) == Some(ProcessState::Alive),
        forall|k: u64| k != id ==> #[trigger] record_of(m2, k) == record_of(m0, k),
{
    assert(observe_post(m0, id, report) =~= m0);
    assert forall|k: u64| k != id implies #[trigger] record_of(m2, k) == record_of(m0, k) by {
        if m2.contains_key(k) {
            assert(m2[k] == m0[k]);
        }
    }
}

} // verus!
