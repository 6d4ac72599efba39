//! The shared simulation slot: a single container holding at most one active
//! simulator, with atomic replace/clear operations. Mutual exclusion around
//! the slot belongs to the boundary layer; every operation here is a plain,
//! total function of the slot's state.

use crate::models::{eq_ride, RideData, TelemetryUpdate};
use crate::simulator::{sim_wf, spec_new, spec_step, TelemetrySimulator};
use vstd::prelude::*;
use vstd::string::StrSliceExecFns;

verus! {

/// Everything that can go wrong around a simulation, as a tagged value:
/// translated to text only at the outermost boundary.
#[derive(Clone, Copy, PartialEq, Eq, Structural, Debug)]
pub enum SimError {
    /// The ride-type identifier is not one of the known rides.
    InvalidRideType,
    /// The ride file could not be read.
    IOError,
    /// The ride file or a timestamp in it is malformed.
    ParseError,
    /// The mutual-exclusion primitive guarding the slot was poisoned.
    LockError,
}

impl SimError {
    /// A short description of the error.
    pub fn message(&self) -> (r: &'static str)
        ensures
            *self is InvalidRideType ==> r@ == "Invalid ride type"@,
            *self is IOError ==> r@ == "Could not read ride file"@,
            *self is ParseError ==> r@ == "Malformed ride data"@,
            *self is LockError ==> r@ == "Simulation state corrupted"@,
    {
        match self {
            SimError::InvalidRideType => "Invalid ride type",
            SimError::IOError => "Could not read ride file",
            SimError::ParseError => "Malformed ride data",
            SimError::LockError => "Simulation state corrupted",
        }
    }
}

/// Character-for-character equality of two string slices.
fn str_eq(a: &str, b: &str) -> (r: bool)
    ensures
        r == (a@ == b@),
{
    let la = a.unicode_len();
    let lb = b.unicode_len();
    if la != lb {
        proof {
            assert(a@.len() != b@.len());
        }
        return false;
    }
    let mut i: usize = 0;
    while i < la
        invariant
            la == a@.len(),
            la == b@.len(),
            i <= la,
            forall|j: int| 0 <= j < i ==> a@[j] == b@[j],
        decreases la - i,
    {
        if a.get_char(i) != b.get_char(i) {
            return false;
        }
        i = i + 1;
    }
    proof {
        assert(a@ =~= b@);
    }
    true
}

/// The file that records a ride of the given type, for the small closed set
/// of known ride types; an unrecognized identifier is `InvalidRideType`.
pub fn ride_file_path(ride_type: &str) -> (r: Result<String, SimError>)
    ensures
        ride_type@ == "chill"@ ==> (r matches Ok(p) && p@
            == "resources/rides/ride-chill.json"@),
        ride_type@ == "hardcore"@ ==> (r matches Ok(p) && p@
            == "resources/rides/ride-hardcore.json"@),
        ride_type@ != "chill"@ && ride_type@ != "hardcore"@ ==> r == Err::<String, SimError>(
            SimError::InvalidRideType,
        ),
{
    proof {
        reveal_strlit("chill");
        reveal_strlit("hardcore");
        assert("chill"@.len() == 5);
        assert("hardcore"@.len() == 8);
    }
    if str_eq(ride_type, "chill") {
        Ok("resources/rides/ride-chill.json".to_owned())
    } else if str_eq(ride_type, "hardcore") {
        Ok("resources/rides/ride-hardcore.json".to_owned())
    } else {
        Err(SimError::InvalidRideType)
    }
}

/// A single mutually-exclusive container holding at most one active
/// simulator. The states of the implicit machine are visible in the
/// occupant: `None` is idle; an occupant whose cursor is short of the end is
/// running; one at the end is exhausted but stays installed.
pub struct SimulationSlot {
    pub active: Option<TelemetrySimulator>,
}

/// Any occupant of the slot is well-formed.
pub open spec fn slot_wf(s: SimulationSlot) -> bool {
    s.active matches Some(sim) ==> sim_wf(sim)
}

/// The slot's place in the simulation lifecycle.
pub enum SlotState {
    /// No simulator is installed.
    Idle,
    /// A simulator is installed and has frames left to yield.
    Running,
    /// A simulator is installed and its ride is spent; it stays installed.
    Exhausted,
}

pub open spec fn slot_state(s: SimulationSlot) -> SlotState {
    match s.active {
        Option::None => SlotState::Idle,
        Option::Some(sim) => if sim.current_index < sim.ride_data.waypoints@.len() {
            SlotState::Running
        } else {
            SlotState::Exhausted
        },
    }
}

/// What one poll does to the slot, as a mathematical function: nothing to an
/// empty slot, one `spec_step` to an occupant.
pub open spec fn spec_poll(s: SimulationSlot) -> (SimulationSlot, Option<TelemetryUpdate>) {
    match s.active {
        Option::None => (s, Option::None),
        Option::Some(sim) => (
            SimulationSlot { active: Option::Some(spec_step(sim).0) },
            spec_step(sim).1,
        ),
    }
}

/// The slot's lifecycle under polling: an idle slot stays idle and yields
/// nothing; an exhausted slot stays exhausted, keeps its occupant and yields
/// nothing, indefinitely; a running slot yields a frame and is afterwards
/// running or exhausted, never idle — polling never changes occupancy.
pub proof fn lemma_slot_state_machine(s: SimulationSlot)
    requires
        slot_wf(s),
    ensures
        slot_state(s) is Idle ==> spec_poll(s) == (s, Option::<TelemetryUpdate>::None),
        slot_state(s) is Exhausted ==> spec_poll(s).0 == s && spec_poll(s).1 is None,
        slot_state(s) is Running ==> spec_poll(s).1 is Some && !(slot_state(spec_poll(s).0)
            is Idle),
{
}

impl SimulationSlot {
    /// An empty slot: no simulation has been started.
    pub fn new() -> (s: Self)
        ensures
            s.active is None,
            slot_wf(s),
    {
        SimulationSlot { active: None }
    }

    /// Constructs a fresh simulator from `ride` and atomically replaces
    /// whatever occupies the slot; any in-flight progress is deliberately
    /// discarded.
    pub fn start(&mut self, ride: RideData)
        ensures
            final(self).active == Some(spec_new(ride)),
            slot_wf(*final(self)),
    {
        self.active = Some(TelemetrySimulator::new(ride));
    }

    /// Feeds the outcome of loading a ride into the slot: a loaded ride
    /// replaces the occupant as `start` does, and a failed load returns the
    /// error and leaves the slot — and any running simulation — untouched.
    pub fn start_loaded(&mut self, loaded: Result<RideData, SimError>) -> (r: Result<
        (),
        SimError,
    >)
        ensures
            (old(self).active matches Some(_)) ==> loaded is Err ==> *final(self) == *old(self),
            loaded is Err ==> *final(self) == *old(self) && r == Err::<(), SimError>(
                loaded->Err_0,
            ),
            loaded matches Ok(ride) ==> final(self).active == Some(spec_new(ride)) && r is Ok,
    {
        match loaded {
            Ok(ride) => {
                self.start(ride);
                Ok(())
            },
            Err(e) => Err(e),
        }
    }

    /// Polls the occupant for the next frame. Nothing both where no
    /// simulator is active and where the active one is exhausted; polling
    /// never changes the slot's occupancy, and an exhausted simulator stays
    /// installed.
    pub fn poll(&mut self) -> (r: Option<TelemetryUpdate>)
        requires
            slot_wf(*old(self)),
        ensures
            (*final(self), r) == spec_poll(*old(self)),
            old(self).active is None ==> r is None && *final(self) == *old(self),
            old(self).active matches Some(sim) ==> final(self).active == Some(spec_step(sim).0)
                && r == spec_step(sim).1,
            slot_wf(*final(self)),
            r is Some <==> slot_state(*old(self)) is Running,
    {
        match &mut self.active {
            Some(sim) => sim.next_update(),
            None => None,
        }
    }

    /// Clears the slot unconditionally, discarding any simulator and its
    /// progress; stopping with nothing active is not an error.
    pub fn stop(&mut self)
        ensures
            final(self).active is None,
            slot_wf(*final(self)),
    {
        self.active = None;
    }

    /// A read-only snapshot of the active simulator's ride, without
    /// advancing its cursor, or nothing if none is active.
    pub fn peek_ride(&self) -> (r: Option<RideData>)
        ensures
            r is Some <==> self.active is Some,
            r matches Some(ride) ==> eq_ride(ride, self.active->0.ride_data),
    {
        match &self.active {
            Some(sim) => Some(sim.ride_data.clone()),
            None => None,
        }
    }
}

} // verus!
