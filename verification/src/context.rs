//! The synchronized-access wrapper around the process-wide state: a
//! container holding zero or one live value, with read and read-write
//! operations submitted as whole closures.
//!
//! Serialization is by construction: every mutation is one total application
//! of a submitted closure to the exclusively held value, so no observer ever
//! sees a half-applied mutation — between any two operations the container
//! holds exactly the output of the earlier one. An empty container models
//! teardown: every operation then observes "state gone" instead of a value.

use vstd::prelude::*;

verus! {

/// A pipeline of operations in flight against the container: the state as
/// the operations so far have left it, and the value they produced.
pub struct ContextMonad<V, T> {
    data: Option<V>,
    val: T,
}

/// The shared container: zero or one live value.
pub struct Context<V> {
    data: Option<V>,
}

impl<V> View for Context<V> {
    type V = Option<V>;

    closed spec fn view(&self) -> Option<V> {
        self.data
    }
}

impl<V, T> ContextMonad<V, T> {
    /// The state as the pipeline has left it.
    pub closed spec fn state(&self) -> Option<V> {
        self.data
    }

    /// The value the pipeline has produced.
    pub closed spec fn value(&self) -> T {
        self.val
    }

    /// Applies a read-only operation to the pipeline: the closure observes
    /// the state, which it cannot change, and combines it with the carried
    /// value.
    pub fn bind<U, F: FnOnce(&Option<V>, T) -> U>(self, f: F) -> (m: ContextMonad<V, U>)
        requires
            call_requires(f, (&self.state(), self.value())),
        ensures
            m.state() == self.state(),
            call_ensures(f, (&self.state(), self.value()), m.value()),
    {
        let u = f(&self.data, self.val);
        ContextMonad { data: self.data, val: u }
    }

    /// Applies a mutating operation to the pipeline: the closure takes the
    /// whole state and hands back the whole new state, atomically from every
    /// observer's point of view.
    pub fn bind_mut<U, F: FnOnce(Option<V>, T) -> (Option<V>, U)>(self, f: F) -> (m: ContextMonad<
        V,
        U,
    >)
        requires
            call_requires(f, (self.state(), self.value())),
        ensures
            call_ensures(f, (self.state(), self.value()), (m.state(), m.value())),
    {
        let (d, u) = f(self.data, self.val);
        ContextMonad { data: d, val: u }
    }

    /// Like `bind_mut`, for operations that decide between reading and
    /// writing only once they hold the state.
    pub fn bind_rwlock<U, F: FnOnce(Option<V>, T) -> (Option<V>, U)>(self, f: F) -> (m:
        ContextMonad<V, U>)
        requires
            call_requires(f, (self.state(), self.value())),
        ensures
            call_ensures(f, (self.state(), self.value()), (m.state(), m.value())),
    {
        let (d, u) = f(self.data, self.val);
        ContextMonad { data: d, val: u }
    }

    /// Finishes the pipeline: the container as the operations left it, and
    /// the produced value.
    pub fn assemble(self) -> (r: (Context<V>, T))
        ensures
            r.0@ == self.state(),
            r.1 == self.value(),
    {
        (Context { data: self.data }, self.val)
    }

    /// Runs the finished pipeline to its result.
    pub fn run(self) -> (r: (Context<V>, T))
        ensures
            r.0@ == self.state(),
            r.1 == self.value(),
    {
        self.assemble()
    }
}

impl<V> Context<V> {
    /// A container holding the given live value.
    pub fn new(v: V) -> (c: Self)
        ensures
            c@ == Some(v),
    {
        Context { data: Some(v) }
    }

    /// The raw contents: a live value, or nothing during teardown.
    pub fn raw(&self) -> (r: &Option<V>)
        ensures
            *r == self@,
    {
        &self.data
    }

    /// Tears the container down: every later operation observes the state
    /// gone and fails fast rather than hanging.
    pub fn close(&mut self)
        ensures
            final(self)@ is None,
    {
        self.data = None;
    }

    /// Opens a pipeline of operations against this container, consuming it
    /// until the pipeline is assembled back.
    pub fn compose(self) -> (m: ContextMonad<V, ()>)
        ensures
            m.state() == self@,
            m.value() == (),
    {
        ContextMonad { data: self.data, val: () }
    }

    /// Submits one read-only operation; the closure observes either the live
    /// value or the torn-down state.
    pub fn run<T, F: FnOnce(&Option<V>) -> T>(&self, f: F) -> (r: T)
        requires
            call_requires(f, (&self@,)),
        ensures
            call_ensures(f, (&self@,), r),
    {
        f(&self.data)
    }

    /// Submits one read-only operation that demands a live value.
    pub fn run_force<T, F: FnOnce(&V) -> T>(&self, f: F) -> (r: T)
        requires
            self@ is Some,
            forall|v: &V| *v == self@->0 ==> call_requires(f, (v,)),
        ensures
            exists|v: &V| *v == self@->0 && call_ensures(f, (v,), r),
    {
        match &self.data {
            Some(v) => f(v),
            None => vstd::pervasive::unreached(),
        }
    }

    /// Submits one mutating operation: the closure takes the whole state and
    /// hands back the whole new state. Atomic by construction — the
    /// container holds nothing in between, so no concurrent observer can see
    /// a half-applied mutation.
    pub fn run_mut<T, F: FnOnce(Option<V>) -> (Option<V>, T)>(&mut self, f: F) -> (r: T)
        requires
            call_requires(f, (old(self)@,)),
        ensures
            call_ensures(f, (old(self)@,), (final(self)@, r)),
    {
        let d = self.data.take();
        let (d2, t) = f(d);
        self.data = d2;
        t
    }

    /// Submits one mutating operation that demands a live value; the state
    /// stays live, holding exactly the closure's output.
    pub fn run_mut_force<T, F: FnOnce(V) -> (V, T)>(&mut self, f: F) -> (r: T)
        requires
            old(self)@ is Some,
            call_requires(f, (old(self)@->0,)),
        ensures
            final(self)@ is Some,
            call_ensures(f, (old(self)@->0,), (final(self)@->0, r)),
    {
        let d = self.data.take();
        match d {
            Some(v) => {
                let (v2, t) = f(v);
                self.data = Some(v2);
                t
            },
            None => vstd::pervasive::unreached(),
        }
    }
}


} // verus!
