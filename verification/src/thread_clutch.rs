//! A clutch that pauses and releases worker threads.
//!
//! The clutch itself is the two-state rule: *released*, the default, and
//! *paused*. A worker asks it before each piece of work whether it may go on.
//! Whoever shares a clutch between threads keeps it behind a lock, parks a
//! worker that may not go on, and wakes the parked workers after a release.
use vstd::prelude::*;

verus! {

/// The state of a clutch.
#[derive(Debug)]
pub struct ThreadClutchInner {
    paused: bool,
}

impl ThreadClutchInner {
    /// Whether the controlled threads are held back.
    pub closed spec fn paused(&self) -> bool {
        self.paused
    }

    /// A state in which the controlled threads run.
    pub fn new() -> (r: Self)
        ensures
            !r.paused(),
    {
        Self { paused: false }
    }

    /// A state in which the controlled threads are held back.
    pub fn new_paused() -> (r: Self)
        ensures
            r.paused(),
    {
        Self { paused: true }
    }

    /// Holds the controlled threads back.
    pub fn pause_thread(&mut self)
        ensures
            final(self).paused(),
    {
        self.paused = true;
    }

    /// Lets the controlled threads run. Threads that are parked are to be
    /// woken after this.
    pub fn release_thread(&mut self)
        ensures
            !final(self).paused(),
    {
        self.paused = false;
    }

    /// Asks whether a controlled thread may go on. Where it returns `false`,
    /// the thread has to park until the next release and ask again.
    pub fn wait_for_release(&self) -> (released: bool)
        ensures
            released == !self.paused(),
    {
        !self.paused
    }

    /// Returns true if the controlled threads are held back.
    pub fn is_paused(&self) -> (r: bool)
        ensures
            r == self.paused(),
    {
        self.paused
    }

    /// Returns true if the controlled threads are running.
    pub fn is_running(&self) -> (r: bool)
        ensures
            r == !self.paused(),
    {
        !self.paused
    }
}

/// The `ThreadClutch` provides a way to pause and release threads from other threads.
/// We talk about *controlled threads* - these are threads which call `wait_for_release`
/// before they go on. We also have *controlling threads* - these are threads which call
/// `pause_threads` and `release_threads` to control the execution of the other threads.
#[derive(Debug)]
pub struct ThreadClutch {
    inner: ThreadClutchInner,
}

impl ThreadClutch {
    /// Whether the controlled threads are held back.
    pub closed spec fn paused(&self) -> bool {
        self.inner.paused()
    }

    /// Creates a new `ThreadClutch`, with the controlled thread(s)
    /// in the running state.
    pub fn new() -> (r: Self)
        ensures
            !r.paused(),
    {
        Self { inner: ThreadClutchInner::new() }
    }

    /// Creates a new `ThreadClutch`, with the controlled thread(s)
    /// in the paused state.
    pub fn new_paused() -> (r: Self)
        ensures
            r.paused(),
    {
        Self { inner: ThreadClutchInner::new_paused() }
    }

    /// Pauses all threads that are controlled by this `ThreadClutch`.
    pub fn pause_threads(&mut self)
        ensures
            final(self).paused(),
    {
        self.inner.pause_thread();
    }

    /// Releases all threads that are controlled by this `ThreadClutch`.
    /// Threads that are parked are to be woken after this.
    pub fn release_threads(&mut self)
        ensures
            !final(self).paused(),
    {
        self.inner.release_thread();
    }

    /// Asks whether a controlled thread may go on. Call this from one or more
    /// *controlled threads*. Where it returns `false`, the thread has to park
    /// until a *controlling thread* has called `release_threads`, and ask again.
    pub fn wait_for_release(&self) -> (released: bool)
        ensures
            released == !self.paused(),
    {
        self.inner.wait_for_release()
    }

    /// Returns true if the controlled threads are paused, waiting
    /// on this clutch.
    pub fn is_paused(&self) -> (r: bool)
        ensures
            r == self.paused(),
    {
        self.inner.is_paused()
    }

    /// Returns true if the controlled threads are running.
    pub fn is_running(&self) -> (r: bool)
        ensures
            r == !self.paused(),
    {
        self.inner.is_running()
    }
}

} // verus!
