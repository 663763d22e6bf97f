//! Tick-rate instrumentation core: a bounded rolling window of tick
//! timestamps and the ticks-per-second metric derived from it on demand.
//!
//! The control-flow redirection that feeds the window is unsafe,
//! platform-specific work and lives with the caller; this library holds
//! the window lifecycle (absent until the redirection is installed and
//! enabled), the recording step, and the rate computation.

use vstd::prelude::*;

pub mod rate;
pub mod window;

use crate::rate::compute_tps;
use crate::rate::tps_of;
use crate::window::record_step;
use crate::window::TickWindow;
use crate::window::WINDOW_CAP;

verus! {

/// The externally visible metric for a given module state: `-1` while the
/// window is absent, otherwise the rate its contents yield.
pub open spec fn tps_view(v: Option<Seq<u64>>) -> int {
    match v {
        Option::None => -1,
        Option::Some(s) => tps_of(s),
    }
}

/// Law: while the window is absent — before any successful
/// initialization — the metric is the unavailable sentinel.
pub proof fn lemma_absent_window_unavailable(v: Option<Seq<u64>>)
    requires
        v is None,
    ensures
        tps_view(v) == -1,
{
}

/// The module's externally visible state: the rolling window, absent
/// until the redirection has been installed and enabled.
pub struct TpsModule {
    window: Option<TickWindow>,
}

impl View for TpsModule {
    type V = Option<Seq<u64>>;

    closed spec fn view(&self) -> Option<Seq<u64>> {
        match self.window {
            Option::None => Option::None,
            Option::Some(w) => Option::Some(w@),
        }
    }
}

impl TpsModule {
    /// The window, when active, respects its capacity bound.
    pub open spec fn wf(&self) -> bool {
        self@ matches Some(s) ==> s.len() <= WINDOW_CAP as nat
    }

    /// A fresh module: no window, no metric.
    pub fn new() -> (m: Self)
        ensures
            m@ is None,
            m.wf(),
    {
        TpsModule { window: Option::None }
    }

    /// The install-time decision. `hook_installed` reports whether the
    /// redirection was placed and enabled; only then, and only on the
    /// first call, does the window become active and empty, with status
    /// `0`. Any failure, and any repeated call, returns status `1` and
    /// leaves the state untouched.
    pub fn init(&mut self, hook_installed: bool) -> (status: i32)
        requires
            old(self).wf(),
        ensures
            final(self).wf(),
            status == 0 || status == 1,
            (status == 0) <==> (hook_installed && old(self)@ is None),
            status == 0 ==> final(self)@ == Some(Seq::<u64>::empty()),
            status == 1 ==> final(self)@ == old(self)@,
    {
        if !hook_installed {
            return 1;
        }
        if self.window.is_some() {
            return 1;
        }
        self.window = Option::Some(TickWindow::new());
        0
    }

    /// Record one tick observed at `now_ms` milliseconds. The window must
    /// be active: a tick arriving before initialization is an internal
    /// invariant violation with no defined recovery.
    pub fn on_tick(&mut self, now_ms: u64)
        requires
            old(self).wf(),
            old(self)@ is Some,
        ensures
            final(self).wf(),
            final(self)@ == Some(record_step(old(self)@->0, now_ms)),
    {
        match &mut self.window {
            Option::Some(w) => w.record(now_ms),
            Option::None => {
                proof {
                    assert(false);
                }
            },
        }
    }

    /// The metric on demand: the rate the current window contents yield,
    /// or `-1` while the window is absent.
    pub fn get_tps(&self) -> (r: i32)
        ensures
            r as int == tps_view(self@),
    {
        match &self.window {
            Option::None => -1,
            Option::Some(w) => compute_tps(w),
        }
    }

    /// Whether the window is active, that is, whether initialization has
    /// succeeded.
    pub fn is_active(&self) -> (b: bool)
        ensures
            b == (self@ is Some),
    {
        self.window.is_some()
    }

    /// A snapshot of the window contents, oldest first, or `None` while
    /// the window is absent.
    pub fn snapshot(&self) -> (r: Option<Vec<u64>>)
        ensures
            (r is Some) == (self@ is Some),
            r is Some ==> r->0@ == self@->0,
    {
        match &self.window {
            Option::None => Option::None,
            Option::Some(w) => {
                let n: usize = w.len();
                let mut out: Vec<u64> = Vec::new();
                let mut i: usize = 0;
                while i < n
                    invariant
                        i <= n,
                        n == w@.len(),
                        out@ == w@.take(i as int),
                    decreases n - i,
                {
                    out.push(w.get(i));
                    proof {
                        assert(out@ =~= w@.take(i as int + 1));
                    }
                    i = i + 1;
                }
                proof {
                    assert(w@.take(n as int) =~= w@);
                }
                Option::Some(out)
            },
        }
    }
}

} // verus!
