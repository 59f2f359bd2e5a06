//! Slots that keep the handles of the processes this launcher started.
use vstd::prelude::*;

verus! {

/// Holds at most one handle of a started process.
pub struct ProcessSlot<H> {
    handle: Option<H>,
}

impl<H> ProcessSlot<H> {
    /// The handle that the slot holds, if any.
    pub closed spec fn held(&self) -> Option<H> {
        self.handle
    }

    pub fn new() -> (r: Self)
        ensures
            r.held() == None::<H>,
    {
        ProcessSlot { handle: None }
    }

    /// Puts a handle in the slot and gives back the one it replaced.
    pub fn store(&mut self, handle: H) -> (previous: Option<H>)
        ensures
            final(self).held() == Some(handle),
            previous == old(self).held(),
    {
        let previous = self.handle.take();
        self.handle = Some(handle);
        previous
    }

    /// Empties the slot and gives back what it held.
    pub fn take(&mut self) -> (r: Option<H>)
        ensures
            r == old(self).held(),
            final(self).held() == None::<H>,
    {
        self.handle.take()
    }

    pub fn is_empty(&self) -> (r: bool)
        ensures
            r == (self.held() == None::<H>),
    {
        self.handle.is_none()
    }
}

/// The handles of an optional value, as a sequence of zero or one.
pub open spec fn handles_of<H>(o: Option<H>) -> Seq<H> {
    match o {
        Some(h) => seq![h],
        None => Seq::empty(),
    }
}

/// Empties both slots and gives back, backend first, every handle that they
/// held: each is to be terminated once.
pub fn shutdown<H>(engine: &mut ProcessSlot<H>, backend: &mut ProcessSlot<H>) -> (stop: Vec<H>)
    ensures
        stop@ == handles_of(old(backend).held()) + handles_of(old(engine).held()),
        final(engine).held() == None::<H>,
        final(backend).held() == None::<H>,
{
    let mut stop: Vec<H> = Vec::new();
    match backend.take() {
        Some(h) => stop.push(h),
        None => {},
    }
    match engine.take() {
        Some(h) => stop.push(h),
        None => {},
    }
    assert(stop@ =~= handles_of(old(backend).held()) + handles_of(old(engine).held()));
    stop
}

/// After bring-up has filled both slots with distinct handles, shutdown empties
/// both and hands each stored handle back exactly once.
pub proof fn lemma_shutdown_after_bring_up<H>(
    engine: ProcessSlot<H>,
    backend: ProcessSlot<H>,
    engine_handle: H,
    backend_handle: H,
)
    requires
        engine.held() == Some(engine_handle),
        backend.held() == Some(backend_handle),
        engine_handle != backend_handle,
    ensures
        ({
            let stop = handles_of(backend.held()) + handles_of(engine.held());
            &&& stop =~= seq![backend_handle, engine_handle]
            &&& stop.filter(|h: H| h == engine_handle).len() == 1
            &&& stop.filter(|h: H| h == backend_handle).len() == 1
        }),
{
    let stop = handles_of(Some(backend_handle)) + handles_of(Some(engine_handle));
    assert(stop =~= seq![backend_handle, engine_handle]);
    reveal_with_fuel(Seq::filter, 3);
    assert(stop.drop_last() =~= seq![backend_handle]);
    assert(stop.drop_last().drop_last() =~= Seq::<H>::empty());
}

} // verus!
