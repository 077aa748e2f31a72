//! The simulation layer: the messages a simulation exchanges with its
//! window, the capability a simulation implements, and the executor that
//! drives it with a fixed timestep.

use vstd::prelude::*;

use crate::queue::Queue;
use crate::timing::{dur_add_sat, hz_to_duration, Duration, Stopwatch};

verus! {

/// Messages a simulation may pass back to the executor.
#[derive(Copy, Clone, Debug, PartialEq, Eq, Structural)]
pub enum ControlMessage {
    Proceed,
    ExitSim,
}

/// A key the window layer reports.
#[derive(Copy, Clone, Debug, PartialEq, Eq, Structural)]
pub enum KeyboardMsg {
    W,
    A,
    S,
    D,
}

/// An event of the window that hosts the simulation.
#[derive(Copy, Clone, Debug, PartialEq, Eq, Structural)]
pub enum WindowMsg {
    Shutdown,
    RedrawRequested,
    Resize { w: u32, h: u32 },
    KeyPress(KeyboardMsg),
    KeyRelease(KeyboardMsg),
}

/// An input handed to a simulation: either a message of the embedding
/// application or a window event.
#[derive(Copy, Clone, Debug, PartialEq)]
pub enum Input<UserMsg> {
    UserMsg(UserMsg),
    WindowMsg(WindowMsg),
}

/// Common functionality a simulation must implement.
pub trait Simulation<Cfg, Msg>: Sized {
    /// Creates a new simulation.
    fn new(config: Cfg) -> Self;

    /// A single tick for an application.
    fn tick(&mut self, frame: u64, delta_t: Duration, messages: &[Input<Msg>]) -> ControlMessage;
}

/// Time tracking record manager.
struct Timekeeper {
    tick_duration: Duration,
    accumulated_time: Duration,
    simulation_stopwatch: Stopwatch,
}

/// The next frame counter: one more, wrapping to zero at the top.
pub open spec fn wrapping_inc(frame: u64) -> u64 {
    if frame == u64::MAX {
        0u64
    } else {
        (frame + 1) as u64
    }
}

/// The most ticks one call of the executor may run, so that a simulation
/// that cannot keep up slows down instead of spiraling.
pub const MAX_TICKS_PER_FRAME: u8 = 10;

/// Executor for a simulation. Handles timestepping.
pub struct SimulationExecutor<Sim, Cfg, Msg>
    where Sim: Simulation<Cfg, Msg>,
 {
    use_fixed_timestep: bool,
    time_keeper: Timekeeper,
    sim: Sim,
    engine_queue: Queue<Input<Msg>>,
    cfg_phantom: core::marker::PhantomData<Cfg>,
    frame: u64,
}

impl<Sim, Cfg, Msg> SimulationExecutor<Sim, Cfg, Msg> where Sim: Simulation<Cfg, Msg> {
    /// The simulation the executor drives.
    pub closed spec fn spec_sim(&self) -> Sim {
        self.sim
    }

    /// The frame counter.
    pub closed spec fn spec_frame(&self) -> u64 {
        self.frame
    }

    /// The inputs queued for the next tick.
    pub closed spec fn spec_queue(&self) -> Seq<Input<Msg>> {
        self.engine_queue@
    }

    /// Whether the executor steps on a fixed timestep.
    pub closed spec fn spec_fixed(&self) -> bool {
        self.use_fixed_timestep
    }

    /// The period of one fixed tick, in nanoseconds.
    pub closed spec fn spec_tick_nanos(&self) -> u64 {
        self.time_keeper.tick_duration.nanos
    }

    /// Creates a new executor around a freshly built simulation. The tick
    /// rate must be given; a rate of zero is raised to one per second.
    pub fn new(max_engine_msgs: usize, sim_hz: Option<u32>, use_fixed_timestep: bool, config: Cfg) -> (r: Self)
        requires
            sim_hz is Some,
        ensures
            r.spec_frame() == 0,
            r.spec_queue() == Seq::<Input<Msg>>::empty(),
            r.spec_fixed() == use_fixed_timestep,
            r.spec_tick_nanos() == crate::timing::NANOS_PER_SEC as int / (
            if sim_hz.unwrap() == 0 {
                1int
            } else {
                sim_hz.unwrap() as int
            }),
    {
        let sim_hz: u32 = match sim_hz {
            Some(hz) => if hz == 0 {
                1
            } else {
                hz
            },
            None => 0,
        };

        let time_keeper = Timekeeper {
            tick_duration: hz_to_duration(sim_hz),
            accumulated_time: Duration::zero(),
            simulation_stopwatch: Stopwatch::new(),
        };

        let sim = Sim::new(config);

        SimulationExecutor {
            use_fixed_timestep,
            time_keeper,
            sim,
            engine_queue: Queue::new(max_engine_msgs),
            cfg_phantom: core::marker::PhantomData,
            frame: 0,
        }
    }

    /// Borrows the simulation.
    pub fn sim(&self) -> (r: &Sim)
        ensures
            *r == self.spec_sim(),
    {
        &self.sim
    }

    /// Borrows the simulation for mutation.
    pub fn sim_mut(&mut self) -> (r: &mut Sim)
        ensures
            *r == old(self).spec_sim(),
            final(self).spec_sim() == *final(r),
            final(self).spec_frame() == old(self).spec_frame(),
            final(self).spec_queue() == old(self).spec_queue(),
            final(self).spec_fixed() == old(self).spec_fixed(),
            final(self).spec_tick_nanos() == old(self).spec_tick_nanos(),
    {
        &mut self.sim
    }

    /// Returns the last updated frame. Wraps to 0 past the largest value.
    pub fn last_updated_frame(&self) -> (r: u64)
        ensures
            r == self.spec_frame(),
    {
        self.frame
    }

    /// Queues the input, if any, and advances the simulation: without a
    /// fixed timestep it ticks exactly once; with one it ticks as often as
    /// the accumulated time demands, up to the per-frame cap. Queued
    /// inputs are handed to the first tick and then cleared, so the queue
    /// is empty afterwards unless no tick was due.
    pub fn tick(&mut self, input: Option<Input<Msg>>) -> (control: ControlMessage)
        ensures
            final(self).spec_fixed() == old(self).spec_fixed(),
            final(self).spec_tick_nanos() == old(self).spec_tick_nanos(),
            !old(self).spec_fixed() ==> final(self).spec_frame() == wrapping_inc(
                old(self).spec_frame(),
            ) && final(self).spec_queue().len() == 0,
            old(self).spec_fixed() ==> final(self).spec_queue().len() == 0 || (final(self).spec_queue()
                == (match input {
                Some(i) => old(self).spec_queue().push(i),
                None => old(self).spec_queue(),
            }) && final(self).spec_frame() == old(self).spec_frame()),
    {
        let mut control_msg = ControlMessage::Proceed;

        // Queue up any messages
        if let Some(input) = input {
            self.engine_queue.push(input);
        }

        // If we're using a fixed time step, see if it should be executed.
        if self.use_fixed_timestep {
            // Increase accumulated time, then tick until the simulation
            // has caught up.
            let elapsed = self.time_keeper.simulation_stopwatch.elapsed();
            self.time_keeper.accumulated_time = self.time_keeper.accumulated_time.saturating_add(
                elapsed,
            );

            // In the event that the loop gets in a spiral where the sim
            // cannot keep up, clamp it to a set number of ticks per frame.
            let mut times_ticked: u8 = 0;

            while self.time_keeper.accumulated_time.nanos > self.time_keeper.tick_duration.nanos
                invariant_except_break
                    times_ticked < MAX_TICKS_PER_FRAME,
                invariant
                    self.use_fixed_timestep == old(self).spec_fixed(),
                    self.time_keeper.tick_duration.nanos == old(self).spec_tick_nanos(),
                    times_ticked > 0 ==> self.engine_queue@.len() == 0,
                    times_ticked == 0 ==> self.engine_queue@ == (match input {
                        Some(i) => old(self).spec_queue().push(i),
                        None => old(self).spec_queue(),
                    }) && self.frame == old(self).spec_frame(),
                decreases MAX_TICKS_PER_FRAME - times_ticked,
            {
                self.frame = if self.frame == u64::MAX {
                    0
                } else {
                    self.frame + 1
                };
                self.time_keeper.accumulated_time = Duration::from_nanos(
                    self.time_keeper.accumulated_time.nanos - self.time_keeper.tick_duration.nanos,
                );
                times_ticked = times_ticked + 1;

                control_msg = self.sim.tick(
                    self.frame,
                    self.time_keeper.tick_duration,
                    self.engine_queue.items(),
                );
                self.engine_queue.clear();

                // Break out if the sim is taking too long, or it should
                // shut down, so a slow simulation crawls instead of
                // stalling.
                let should_exit = match control_msg {
                    ControlMessage::ExitSim => true,
                    ControlMessage::Proceed => false,
                };
                if times_ticked >= MAX_TICKS_PER_FRAME || should_exit {
                    break ;
                }
            }
        } else {
            // Otherwise execute exactly one tick.
            self.frame = if self.frame == u64::MAX {
                0
            } else {
                self.frame + 1
            };
            let delta_t = self.time_keeper.simulation_stopwatch.elapsed();
            control_msg = self.sim.tick(self.frame, delta_t, self.engine_queue.items());
            self.engine_queue.clear();
        }

        // Return the control message
        control_msg
    }
}

} // verus!
