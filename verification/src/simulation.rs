//! The simulation clock: what one tick does to the traffic picture, and what
//! it hands out to a waiting reader.

use crate::flight::{
    all_in_bounds, all_on_map, all_stepped, lemma_step_moves_one_unit, move_aircrafts, Flight,
};
use vstd::prelude::*;

verus! {

/// Time from one tick to the next, in milliseconds.
pub const TICK_PERIOD_MS: u64 = 300;

/// Number of ticks that pass without movement between two movement ticks.
pub const QUIET_TICKS: u32 = 3;

/// The simulation as the contracts see it.
pub struct SimulationView {
    /// The aircraft, in the order in which they were handed over.
    pub traffic: Seq<Flight>,
    /// Quiet ticks counted since the last movement.
    pub skip_counter: nat,
}

impl SimulationView {
    /// Every aircraft is on the map and the counter has not passed the
    /// number of quiet ticks.
    pub open spec fn wf(self) -> bool {
        all_in_bounds(self.traffic) && self.skip_counter <= QUIET_TICKS
    }

    /// The coming tick moves the aircraft.
    pub open spec fn moves_next(self) -> bool {
        self.skip_counter == QUIET_TICKS
    }

    /// The simulation after one tick: on a movement tick every aircraft takes
    /// one step and the counter starts again, on any other tick only the
    /// counter advances.
    pub open spec fn ticked(self) -> SimulationView {
        if self.moves_next() {
            SimulationView { traffic: all_stepped(self.traffic), skip_counter: 0 }
        } else {
            SimulationView { traffic: self.traffic, skip_counter: self.skip_counter + 1 }
        }
    }
}

/// A tick keeps the simulation well formed.
pub proof fn lemma_tick_keeps_wf(sim: SimulationView)
    requires
        sim.wf(),
    ensures
        sim.ticked().wf(),
{
    if sim.moves_next() {
        assert forall|i: int| 0 <= i < sim.traffic.len() implies (#[trigger] all_stepped(
            sim.traffic,
        )[i]).in_bounds() by {
            lemma_step_moves_one_unit(sim.traffic[i]);
        }
    }
}

/// The three ticks that follow a movement tick leave every aircraft where the
/// movement put it, and the tick after them moves again.
pub proof fn lemma_quiet_ticks_after_movement(sim: SimulationView)
    requires
        sim.wf(),
        sim.moves_next(),
    ensures
        sim.ticked().traffic == all_stepped(sim.traffic),
        sim.ticked().ticked().traffic == sim.ticked().traffic,
        sim.ticked().ticked().ticked().traffic == sim.ticked().traffic,
        sim.ticked().ticked().ticked().ticked().traffic == sim.ticked().traffic,
        sim.ticked().ticked().ticked().ticked().moves_next(),
{
}

/// The sole owner of the traffic picture. Readers see it only through the
/// copies that `tick` hands out.
pub struct Simulation {
    traffic: Vec<Flight>,
    skip_counter: u32,
}

impl View for Simulation {
    type V = SimulationView;

    closed spec fn view(&self) -> SimulationView {
        SimulationView { traffic: self.traffic@, skip_counter: self.skip_counter as nat }
    }
}

impl Simulation {
    /// The simulation is well formed at all times.
    #[verifier::type_invariant]
    closed spec fn inv(self) -> bool {
        self@.wf()
    }

    /// Starts a simulation of the given aircraft; the first movement comes
    /// after the quiet ticks. There is no simulation of a collection in which
    /// an aircraft lies off the map.
    pub fn new(traffic: Vec<Flight>) -> (started: Option<Simulation>)
        ensures
            started.is_some() == all_in_bounds(traffic@),
            started matches Some(sim) ==> sim@.wf() && sim@.traffic == traffic@
                && sim@.skip_counter == 0,
    {
        if all_on_map(traffic.as_slice()) {
            Some(Simulation { traffic, skip_counter: 0 })
        } else {
            None
        }
    }

    /// A copy of the current traffic picture.
    pub fn snapshot(&self) -> (copy: Vec<Flight>)
        ensures
            copy@ == self@.traffic,
            all_in_bounds(copy@),
    {
        proof {
            use_type_invariant(self);
        }
        let copy = self.traffic.clone();
        assert(copy@ =~= self.traffic@);
        copy
    }

    /// Quiet ticks counted since the last movement.
    pub fn skip_counter(&self) -> (n: u32)
        ensures
            n == self@.skip_counter,
    {
        self.skip_counter
    }

    /// Runs one tick. A pending request is answered first, with a copy of the
    /// traffic as it stands; then the aircraft move if this is a movement
    /// tick.
    pub fn tick(&mut self, request_pending: bool) -> (snapshot: Option<Vec<Flight>>)
        ensures
            old(self)@.wf(),
            final(self)@ == old(self)@.ticked(),
            final(self)@.wf(),
            snapshot.is_some() == request_pending,
            snapshot matches Some(copy) ==> copy@ == old(self)@.traffic,
    {
        proof {
            use_type_invariant(&*self);
        }
        let snapshot = if request_pending {
            Some(self.snapshot())
        } else {
            None
        };
        if self.skip_counter == QUIET_TICKS {
            let mut traffic: Vec<Flight> = Vec::new();
            std::mem::swap(&mut self.traffic, &mut traffic);
            move_aircrafts(traffic.as_mut_slice());
            self.traffic = traffic;
            self.skip_counter = 0;
        } else {
            self.skip_counter += 1;
        }
        snapshot
    }
}

} // verus!
