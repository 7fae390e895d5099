//! Debugger decision core: the stepping mode machine and the breakpoint
//! watch list. The terminal front end around it only reads keys and
//! prints; every decision is made here.

use vstd::prelude::*;
use crate::bus::Fault;
use crate::cpu::{CPU, cpu_wf, fetch_next, tick_v};

verus! {

/// Stepping mode of the debugger.
#[derive(Clone, Copy, PartialEq, Eq, Structural, Debug)]
pub enum DebugState {
    /// The core is halted; the debugger waits for a command.
    Frozen,
    /// The core ticks freely.
    Continuous,
    /// The core does one tick, then freezes.
    Step,
    /// The core ticks until a watched program counter is reached.
    OnWatch,
    /// The watch list is being edited.
    Modify,
}

/// Debugger state: the stepping mode and the program-counter breakpoints.
pub struct Debugger {
    pub state: DebugState,
    pub watch_list_pc: Vec<u16>,
}

/// Whether `pc` is on the watch list.
pub open spec fn watched(d: Debugger, pc: u16) -> bool {
    d.watch_list_pc@.contains(pc)
}

/// The mode selected by a command key in the frozen prompt.
pub open spec fn mode_for_key(state: DebugState, c: char) -> DebugState {
    if c == 's' {
        DebugState::Step
    } else if c == 'w' {
        DebugState::OnWatch
    } else if c == 'c' {
        DebugState::Continuous
    } else if c == 'm' {
        DebugState::Modify
    } else {
        state
    }
}

impl Debugger {
    /// A debugger that starts frozen with no breakpoints.
    pub fn new() -> (d: Debugger)
        ensures
            d.state == DebugState::Frozen,
            d.watch_list_pc@.len() == 0,
    {
        Debugger { state: DebugState::Frozen, watch_list_pc: Vec::new() }
    }

    /// Move to another stepping mode.
    pub fn change_state_to(&mut self, state_i: DebugState)
        ensures
            final(self).state == state_i,
            final(self).watch_list_pc == old(self).watch_list_pc,
    {
        self.state = state_i;
    }

    /// Apply a command key from the frozen prompt.
    pub fn choose_state(&mut self, c: char)
        ensures
            final(self).state == mode_for_key(old(self).state, c),
            final(self).watch_list_pc == old(self).watch_list_pc,
    {
        if c == 's' {
            self.state = DebugState::Step;
        } else if c == 'w' {
            self.state = DebugState::OnWatch;
        } else if c == 'c' {
            self.state = DebugState::Continuous;
        } else if c == 'm' {
            self.state = DebugState::Modify;
        }
    }

    /// Whether `pc` is on the watch list.
    pub fn is_watched(&self, pc: u16) -> (r: bool)
        ensures
            r == watched(*self, pc),
    {
        let n = self.watch_list_pc.len();
        let mut j: usize = 0;
        while j < n
            invariant
                n == self.watch_list_pc@.len(),
                j <= n,
                forall|i: int| 0 <= i < j ==> self.watch_list_pc@[i] != pc,
            decreases n - j,
        {
            if self.watch_list_pc[j] == pc {
                return true;
            }
            j = j + 1;
        }
        false
    }

    /// Freeze when the core reaches a watched program counter.
    pub fn check_watch(&mut self, pc: u16) -> (r: bool)
        ensures
            final(self).state == if watched(*old(self), pc) {
                DebugState::Frozen
            } else {
                old(self).state
            },
            final(self).watch_list_pc == old(self).watch_list_pc,
            r == false,
    {
        if self.is_watched(pc) {
            self.change_state_to(DebugState::Frozen);
        }
        false
    }

    /// Add a program-counter breakpoint.
    pub fn add_watch(&mut self, pc: u16)
        ensures
            final(self).state == old(self).state,
            forall|x: u16|
                #[trigger] final(self).watch_list_pc@.contains(x) == (old(
                    self,
                ).watch_list_pc@.contains(x) || x == pc),
    {
        if !self.is_watched(pc) {
            let ghost s1 = self.watch_list_pc@;
            self.watch_list_pc.push(pc);
            proof {
                let s2 = self.watch_list_pc@;
                assert forall|x: u16| #[trigger] s2.contains(x) == (s1.contains(x) || x == pc) by {
                    if s1.contains(x) {
                        let i = choose|i: int| 0 <= i < s1.len() && s1[i] == x;
                        assert(s2[i] == x);
                    }
                    if x == pc {
                        assert(s2[s1.len() as int] == x);
                    }
                    if s2.contains(x) {
                        let i = choose|i: int| 0 <= i < s2.len() && s2[i] == x;
                        if i < s1.len() {
                            assert(s1[i] == x);
                        }
                    }
                }
            }
        }
    }

    /// Remove a program-counter breakpoint.
    pub fn remove_watch(&mut self, pc: u16)
        ensures
            final(self).state == old(self).state,
            forall|x: u16|
                #[trigger] final(self).watch_list_pc@.contains(x) == (old(
                    self,
                ).watch_list_pc@.contains(x) && x != pc),
    {
        let n = self.watch_list_pc.len();
        let mut kept: Vec<u16> = Vec::new();
        let mut j: usize = 0;
        while j < n
            invariant
                n == self.watch_list_pc@.len(),
                j <= n,
                forall|x: u16|
                    #[trigger] kept@.contains(x) == (self.watch_list_pc@.take(j as int).contains(x)
                        && x != pc),
            decreases n - j,
        {
            let v = self.watch_list_pc[j];
            let ghost k1 = kept@;
            if v != pc {
                kept.push(v);
            }
            proof {
                let t0 = self.watch_list_pc@.take(j as int);
                let t1 = self.watch_list_pc@.take(j + 1);
                let k2 = kept@;
                assert forall|x: u16| #[trigger] k2.contains(x) == (t1.contains(x) && x != pc) by {
                    if k2.contains(x) {
                        let i = choose|i: int| 0 <= i < k2.len() && k2[i] == x;
                        if i < k1.len() {
                            assert(k1[i] == x);
                            assert(k1.contains(x));
                            assert(t0.contains(x));
                            let i0 = choose|i0: int| 0 <= i0 < t0.len() && t0[i0] == x;
                            assert(t1[i0] == t0[i0]);
                            assert(t1.contains(x));
                        } else {
                            assert(x == v);
                            assert(t1[j as int] == x);
                            assert(t1.contains(x));
                        }
                    }
                    if t1.contains(x) && x != pc {
                        let i = choose|i: int| 0 <= i < t1.len() && t1[i] == x;
                        if i < j {
                            assert(t0[i] == x);
                            assert(t0.contains(x));
                            assert(k1.contains(x));
                            let i0 = choose|i0: int| 0 <= i0 < k1.len() && k1[i0] == x;
                            assert(k2[i0] == k1[i0]);
                            assert(k2.contains(x));
                        } else {
                            assert(x == v);
                            assert(k2[k2.len() - 1] == x);
                            assert(k2.contains(x));
                        }
                    }
                }
            }
            j = j + 1;
        }
        proof {
            assert(self.watch_list_pc@.take(n as int) =~= self.watch_list_pc@);
        }
        self.watch_list_pc = kept;
    }

    /// Forget every breakpoint.
    pub fn clear_watches(&mut self)
        ensures
            final(self).state == old(self).state,
            final(self).watch_list_pc@.len() == 0,
    {
        self.watch_list_pc = Vec::new();
    }

    /// Run one core tick on behalf of the front end.
    pub fn do_a_cpu_tick(&mut self, cpu: &mut CPU) -> (r: Result<(), Fault>)
        requires
            cpu_wf(old(cpu)@),
        ensures
            *final(self) == *old(self),
            match tick_v(old(cpu)@) {
                Ok(m2) => r is Ok && final(cpu)@ == m2,
                Err(e) => r == Err::<(), Fault>(e) && final(cpu)@ == fetch_next(old(cpu)@),
            },
            cpu_wf(final(cpu)@),
    {
        cpu.tick()
    }
}

} // verus!
