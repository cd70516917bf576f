//! Simulation driver bookkeeping.
//!
//! The main loop alternates numerical work (one integration step, performed
//! by the caller) with decisions: when to print a status line, when to
//! augment and archive the state, when to flush the archive writer, and when
//! to stop.  Those decisions are exact, so they live here: `SimScheduler` is
//! a state machine over the step counter whose transitions say precisely at
//! which report points each action happens.
//!
//! A run has report points `0 ..= n_steps`.  Point 0 is the start state and
//! is always archived; afterwards the caller advances the scheduler once per
//! integration step.  A report point is archived exactly when its index is a
//! multiple of the archive interval or it is the last point of the run —
//! never once per integration step.  The run ends at the last point, or
//! early as soon as the caller reports that the body-fixed altitude has
//! dropped below zero.

use vstd::prelude::*;
use vstd::arithmetic::div_mod::lemma_fundamental_div_mod;
use vstd::arithmetic::div_mod::lemma_fundamental_div_mod_converse_div;
use vstd::arithmetic::div_mod::lemma_fundamental_div_mod_converse_mod;

verus! {

/// Where the driver stands: loading and building state, running steps,
/// writing a due archive row, or done.
pub enum SimPhase {
    Initializing,
    Stepping,
    Archiving,
    Terminated,
}

/// Actions owed at the report point the scheduler has just reached.
pub struct StepDirectives {
    pub print: bool,
    pub archive: bool,
    pub flush: bool,
}

/// An archive row is due at report point `s` of a run with `n` steps and
/// archive interval `k` exactly when `s` is a multiple of `k` or `s` is the
/// final point.
pub open spec fn archive_due(s: int, n: int, k: int) -> bool {
    s % k == 0 || s == n
}

/// The first and the last report point of a run are always archived.
pub proof fn lemma_first_and_last_point_archived(n: int, k: int)
    requires
        0 <= n,
        1 <= k,
    ensures
        archive_due(0, n, k),
        archive_due(n, n, k),
{
}

/// Number of archived report points among `0 ..= p` of a run with `n` steps
/// and archive interval `k`.
pub open spec fn archived_points_up_to(n: int, k: int, p: int) -> int
    decreases p + 1,
{
    if p < 0 {
        0
    } else {
        archived_points_up_to(n, k, p - 1) + if archive_due(p, n, k) {
            1int
        } else {
            0int
        }
    }
}

/// Among the report points strictly before the final one, exactly the
/// multiples of `k` are archived: one row per started interval.
proof fn lemma_archived_points_before_end(n: int, k: int, p: int)
    requires
        1 <= k,
        0 <= p < n,
    ensures
        archived_points_up_to(n, k, p) == p / k + 1,
    decreases p,
{
    let q = p / k;
    let r = p % k;
    lemma_fundamental_div_mod(p, k);
    if p == 0 {
        lemma_fundamental_div_mod_converse_div(0, k, 0, 0);
        lemma_fundamental_div_mod_converse_mod(0, k, 0, 0);
        assert(archived_points_up_to(n, k, -1) == 0);
    } else {
        lemma_archived_points_before_end(n, k, p - 1);
        if r == 0 {
            assert(p - 1 == (q - 1) * k + (k - 1)) by (nonlinear_arith)
                requires
                    p == q * k + r,
                    r == 0,
            ;
            lemma_fundamental_div_mod_converse_div(p - 1, k, q - 1, k - 1);
        } else {
            assert(p - 1 == q * k + (r - 1)) by (nonlinear_arith)
                requires
                    p == q * k + r,
            ;
            lemma_fundamental_div_mod_converse_div(p - 1, k, q, r - 1);
        }
    }
}

/// How many rows a full run writes: one per started archive interval, one
/// for the start state, and one more for the forced final row when the
/// interval does not divide the run — never one row per integration step.
pub proof fn lemma_archive_row_count(n: int, k: int)
    requires
        0 <= n,
        1 <= k,
    ensures
        archived_points_up_to(n, k, n) == n / k + 1 + (if n % k == 0 {
            0int
        } else {
            1int
        }),
{
    if n == 0 {
        lemma_fundamental_div_mod_converse_div(0, k, 0, 0);
        lemma_fundamental_div_mod_converse_mod(0, k, 0, 0);
        assert(archived_points_up_to(n, k, -1) == 0);
    } else {
        lemma_archived_points_before_end(n, k, n - 1);
        let q = n / k;
        let r = n % k;
        lemma_fundamental_div_mod(n, k);
        if r == 0 {
            assert(n - 1 == (q - 1) * k + (k - 1)) by (nonlinear_arith)
                requires
                    n == q * k + r,
                    r == 0,
            ;
            lemma_fundamental_div_mod_converse_div(n - 1, k, q - 1, k - 1);
        } else {
            assert(n - 1 == q * k + (r - 1)) by (nonlinear_arith)
                requires
                    n == q * k + r,
            ;
            lemma_fundamental_div_mod_converse_div(n - 1, k, q, r - 1);
        }
    }
}

/// Step scheduler of the simulation driver.  Intervals are measured in
/// integration steps and must be at least 1.
pub struct SimScheduler {
    /// Number of integration steps in the run.
    pub n_steps: u64,
    /// An archive row is due every `archive_every` steps.
    pub archive_every: u64,
    /// A writer flush is due every `flush_every` steps.
    pub flush_every: u64,
    /// A console status line is due every `print_every` steps.
    pub print_every: u64,
    /// Completed integration steps; the current report point.
    pub step: u64,
    /// Whether the caller reported a below-zero altitude.
    pub early_exit: bool,
    pub phase: SimPhase,
}

impl SimScheduler {
    pub open spec fn wf(self) -> bool {
        &&& self.archive_every >= 1
        &&& self.flush_every >= 1
        &&& self.print_every >= 1
        &&& self.step <= self.n_steps
        &&& (self.phase is Initializing ==> self.step == 0 && !self.early_exit)
        &&& (self.phase is Stepping ==> self.step < self.n_steps && !self.early_exit)
        &&& (self.phase is Archiving ==> archive_due(
            self.step as int,
            self.n_steps as int,
            self.archive_every as int,
        ))
    }

    /// A fresh scheduler for a run of `n_steps` integration steps.
    pub fn new(n_steps: u64, archive_every: u64, flush_every: u64, print_every: u64) -> (s:
        SimScheduler)
        requires
            archive_every >= 1,
            flush_every >= 1,
            print_every >= 1,
        ensures
            s.wf(),
            s.n_steps == n_steps,
            s.archive_every == archive_every,
            s.flush_every == flush_every,
            s.print_every == print_every,
            s.step == 0,
            !s.early_exit,
            s.phase is Initializing,
    {
        SimScheduler {
            n_steps,
            archive_every,
            flush_every,
            print_every,
            step: 0,
            early_exit: false,
            phase: SimPhase::Initializing,
        }
    }

    /// Initialization is complete: the start state (report point 0) is due
    /// to be archived before any integration step runs.
    pub fn begin(&mut self)
        requires
            old(self).wf(),
            old(self).phase is Initializing,
        ensures
            final(self).wf(),
            final(self).phase is Archiving,
            final(self).n_steps == old(self).n_steps,
            final(self).archive_every == old(self).archive_every,
            final(self).flush_every == old(self).flush_every,
            final(self).print_every == old(self).print_every,
            final(self).step == 0,
            !final(self).early_exit,
    {
        self.phase = SimPhase::Archiving;
    }

    /// One integration step has completed; `altitude_negative` tells whether
    /// the body-fixed altitude of the new state is below zero.  Moves to the
    /// next report point and says which actions are owed there.  If an
    /// archive row is due the scheduler waits in `Archiving` until the
    /// caller confirms the row with `archive_done`.
    pub fn advance(&mut self, altitude_negative: bool) -> (d: StepDirectives)
        requires
            old(self).wf(),
            old(self).phase is Stepping,
        ensures
            final(self).wf(),
            final(self).n_steps == old(self).n_steps,
            final(self).archive_every == old(self).archive_every,
            final(self).flush_every == old(self).flush_every,
            final(self).print_every == old(self).print_every,
            final(self).step == old(self).step + 1,
            final(self).early_exit == altitude_negative,
            d.archive == archive_due(
                final(self).step as int,
                final(self).n_steps as int,
                final(self).archive_every as int,
            ),
            d.flush == (final(self).step as int % final(self).flush_every as int == 0),
            d.print == (final(self).step as int % final(self).print_every as int == 0
                || final(self).step == final(self).n_steps),
            final(self).phase == if d.archive {
                SimPhase::Archiving
            } else if altitude_negative {
                SimPhase::Terminated
            } else {
                SimPhase::Stepping
            },
    {
        let new_step: u64 = self.step + 1;
        self.step = new_step;
        self.early_exit = altitude_negative;
        let is_last: bool = new_step == self.n_steps;
        let archive: bool = new_step % self.archive_every == 0 || is_last;
        let flush: bool = new_step % self.flush_every == 0;
        let print: bool = new_step % self.print_every == 0 || is_last;
        self.phase = if archive {
            SimPhase::Archiving
        } else if altitude_negative {
            SimPhase::Terminated
        } else {
            SimPhase::Stepping
        };
        StepDirectives { print, archive, flush }
    }

    /// The archive row for the current report point has been written.  The
    /// run goes on stepping, or terminates if this was the last point or the
    /// altitude exit condition fired.
    pub fn archive_done(&mut self)
        requires
            old(self).wf(),
            old(self).phase is Archiving,
        ensures
            final(self).wf(),
            final(self).n_steps == old(self).n_steps,
            final(self).archive_every == old(self).archive_every,
            final(self).flush_every == old(self).flush_every,
            final(self).print_every == old(self).print_every,
            final(self).step == old(self).step,
            final(self).early_exit == old(self).early_exit,
            final(self).phase == if old(self).early_exit || old(self).step == old(self).n_steps {
                SimPhase::Terminated
            } else {
                SimPhase::Stepping
            },
    {
        self.phase = if self.early_exit || self.step == self.n_steps {
            SimPhase::Terminated
        } else {
            SimPhase::Stepping
        };
    }

    /// Whether the run is over.
    pub fn finished(&self) -> (r: bool)
        ensures
            r == (self.phase is Terminated),
    {
        match self.phase {
            SimPhase::Terminated => true,
            _ => false,
        }
    }
}

} // verus!
