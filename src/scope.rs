//! A job that may be started once.
use vstd::prelude::*;

verus! {

/// Holds one job until it is started; starting it twice is a caller's bug.
pub struct JoinScope<F> {
    f: Option<F>,
}

impl<F> JoinScope<F> {
    /// The job, until it is started.
    pub closed spec fn job(&self) -> Option<F> {
        self.f
    }

    pub fn new(f: F) -> (r: Self)
        ensures
            r.job() == Some(f),
    {
        JoinScope { f: Some(f) }
    }

    pub fn is_spawned(&self) -> (r: bool)
        ensures
            r == self.job() is None,
    {
        self.f.is_none()
    }

    /// Starts the job by one call of `start`, which is handed the job, and
    /// returns what `start` returned.
    pub fn spawn_with<G, S: FnOnce(F) -> G>(&mut self, start: S) -> (r: G)
        requires
            old(self).job() is Some,
            start.requires((old(self).job()->Some_0,)),
        ensures
            final(self).job() is None,
            start.ensures((old(self).job()->Some_0,), r),
    {
        let f = self.f.take().unwrap();
        start(f)
    }
}

} // verus!
