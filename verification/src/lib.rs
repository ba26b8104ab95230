//! Scope-exit guards: a payload paired with a finalizer that runs exactly
//! once, with ownership of the payload, when the guard is dropped — unless
//! the guard was defused first.
//!
//! A guard is *armed* while the finalizer obligation is pending and
//! *disarmed* once the finalizer has run or has been discarded. The slot
//! holding the pair is emptied on the first of the two paths (explicit
//! extraction or implicit destruction) to reach it, so the other path finds
//! it empty and does nothing: the two paths are mutually exclusive by
//! construction.
use vstd::prelude::*;

verus! {

/// The finalizer half of a guard's slot: either a live callable that will
/// receive the payload, or the designated no-op left behind by
/// neutralisation, which receives nothing and has no effect.
///
/// Its type invariant is what lets the destructor's unchecked call meet the
/// finalizer's precondition: whatever payload the guard comes to hold, a
/// live finalizer accepts it.
#[derive(Debug)]
enum FinalizerSlot<T, F: FnOnce(T)> {
    Live(F, core::marker::PhantomData<T>),
    Inert,
}

impl<T, F: FnOnce(T)> FinalizerSlot<T, F> {
    #[verifier::type_invariant]
    spec fn wf(self) -> bool {
        self matches FinalizerSlot::Live(f, _m) ==> forall|t: T| call_requires(f, (t,))
    }
}

/// A guard that owns a payload of type `T` and a finalizer `F`. When an
/// armed guard is dropped, the finalizer is invoked once with the payload;
/// a defused guard is dropped silently.
#[derive(Debug)]
pub struct PhantomDrop<T, F: FnOnce(T)> {
    slot: Option<(T, FinalizerSlot<T, F>)>,
}

impl<T, F: FnOnce(T)> PhantomDrop<T, F> {
    /// True while the guard still owns its payload (the finalizer has
    /// neither run nor been discarded, though it may have been neutralised).
    pub closed spec fn armed(self) -> bool {
        self.slot is Some
    }

    /// True while the guard holds a live finalizer that will run on drop;
    /// false once the guard is defused or neutralised.
    pub closed spec fn active(self) -> bool {
        self.slot matches Some((_v, FinalizerSlot::Live(_f, _m)))
    }

    /// The payload held by an armed guard.
    pub closed spec fn payload(self) -> T {
        self.slot->Some_0.0
    }

    /// The live finalizer held by an active guard.
    pub closed spec fn finalizer(self) -> F {
        self.slot->Some_0.1->Live_0
    }

    /// Arm a new guard: `fun` will be invoked with the value `value` then
    /// holds when the guard is dropped. The finalizer must accept every
    /// payload value, since the payload may be replaced through `as_mut`
    /// before the finalizer observes it.
    pub fn new(value: T, fun: F) -> (r: Self)
        requires
            forall|t: T| call_requires(fun, (t,)),
        ensures
            r.armed(),
            r.active(),
            r.payload() == value,
            r.finalizer() == fun,
    {
        PhantomDrop {
            slot: Some((value, FinalizerSlot::Live(fun, core::marker::PhantomData))),
        }
    }

    /// Read-only borrow of the payload; the finalizer obligation is
    /// untouched.
    pub fn as_ref(&self) -> (r: &T)
        requires
            self.armed(),
        ensures
            *r == self.payload(),
    {
        match &self.slot {
            Some(pair) => &pair.0,
            None => vstd::pervasive::unreached(),
        }
    }

    /// Exclusive borrow of the payload. The finalizer observes the payload
    /// as of the moment the guard is dropped, so writing through this
    /// borrow changes what it will be invoked with.
    pub fn as_mut(&mut self) -> (r: &mut T)
        requires
            old(self).armed(),
        ensures
            *r == old(self).payload(),
            final(self).armed(),
            final(self).active() == old(self).active(),
            old(self).active() ==> final(self).finalizer() == old(self).finalizer(),
            final(self).payload() == *final(r),
    {
        match &mut self.slot {
            Some(pair) => &mut pair.0,
            None => vstd::pervasive::unreached(),
        }
    }

    /// Empty the slot, disarming the guard: the caller receives the pair
    /// and decides its fate, and the disarmed guard's drop does nothing.
    fn take_pair(&mut self) -> (pair: (T, FinalizerSlot<T, F>))
        requires
            old(self).armed(),
        ensures
            !final(self).armed(),
            pair == old(self).slot->Some_0,
    {
        let mut taken: Option<(T, FinalizerSlot<T, F>)> = None;
        core::mem::swap(&mut self.slot, &mut taken);
        taken.unwrap()
    }

    /// Extract the payload; the finalizer is discarded without being
    /// invoked (its own destructor still runs) and the guard is disarmed.
    pub fn into_inner(self) -> (r: T)
        requires
            self.armed(),
        ensures
            r == self.payload(),
    {
        let mut this = self;
        let (value, _finalizer) = this.take_pair();
        value
    }

    /// Discard payload and finalizer without invoking the finalizer. Both
    /// still have their own destructors run, so resources they own are
    /// released; only the finalizer invocation is skipped.
    pub fn forget(self) {
        let mut this = self;
        let mut taken: Option<(T, FinalizerSlot<T, F>)> = None;
        core::mem::swap(&mut this.slot, &mut taken);
    }

    /// Consume the guard and return one over the same payload whose
    /// finalizer is the designated no-op: still armed, but dropping it has
    /// no observable effect. The old finalizer is discarded uninvoked.
    pub fn neutralise(self) -> (r: Self)
        requires
            self.armed(),
        ensures
            r.armed(),
            !r.active(),
            r.payload() == self.payload(),
    {
        let mut this = self;
        let (value, _finalizer) = this.take_pair();
        PhantomDrop { slot: Some((value, FinalizerSlot::Inert)) }
    }

    /// Replace the finalizer with the designated no-op in place, without
    /// consuming the guard or allocating. The guard stays armed over the
    /// untouched payload; dropping it will have no observable effect.
    pub fn neutralise_in_place(&mut self)
        requires
            old(self).armed(),
        ensures
            final(self).armed(),
            !final(self).active(),
            final(self).payload() == old(self).payload(),
    {
        let (value, _finalizer) = self.take_pair();
        self.slot = Some((value, FinalizerSlot::Inert));
    }

    /// The same replacement as `neutralise_in_place`, named for guards
    /// whose finalizer is heap-held: the designated no-op is a slot state
    /// rather than a callable value, so it needs no allocation here either
    /// and the two operations coincide.
    pub fn neutralise_boxed(&mut self)
        requires
            old(self).armed(),
        ensures
            final(self).armed(),
            !final(self).active(),
            final(self).payload() == old(self).payload(),
    {
        self.neutralise_in_place();
    }
}

impl<T: Clone, F: FnOnce(T) + Copy> Clone for PhantomDrop<T, F> {
    /// An independent guard: its payload is a clone of the original's and
    /// its finalizer a copy, and each of the two guards owes its own
    /// finalizer invocation — the armed state is not shared.
    fn clone(&self) -> (r: Self)
        ensures
            r.armed() == self.armed(),
            r.active() == self.active(),
            self.active() ==> r.finalizer() == self.finalizer(),
            self.armed() ==> call_ensures(T::clone, (&self.payload(),), r.payload()),
    {
        match &self.slot {
            Some(pair) => {
                proof {
                    use_type_invariant(&pair.1);
                }
                let value = pair.0.clone();
                let fin = match &pair.1 {
                    FinalizerSlot::Live(f, _m) => {
                        FinalizerSlot::Live(*f, core::marker::PhantomData)
                    },
                    FinalizerSlot::Inert => FinalizerSlot::Inert,
                };
                PhantomDrop { slot: Some((value, fin)) }
            },
            None => PhantomDrop { slot: None },
        }
    }
}

impl<F: FnOnce(())> PhantomDrop<(), F> {
    /// Defer a function: arm a guard over the unit payload, so that `fun`
    /// runs when the guard is dropped.
    pub fn defer(fun: F) -> (r: Self)
        requires
            forall|t: ()| call_requires(fun, (t,)),
        ensures
            r.armed(),
            r.active(),
            r.finalizer() == fun,
    {
        PhantomDrop::new((), fun)
    }
}

/// Defer `fun` to run when the returned guard is dropped.
pub fn defer<F: FnOnce()>(fun: F) -> (r: PhantomDrop<(), impl FnOnce(())>)
    requires
        call_requires(fun, ()),
    ensures
        r.armed(),
        r.active(),
        forall|u: ()| call_ensures(r.finalizer(), ((),), u) ==> call_ensures(fun, (), u),
{
    PhantomDrop::defer(
        (move |_u: ()| -> (ret: ())
            ensures
                call_ensures(fun, (), ret),
            {
                fun()
            }),
    )
}

impl<T, F: FnOnce(T)> Drop for PhantomDrop<T, F> {
    /// The scope-exit hook: if the guard is still active, the finalizer is
    /// moved out and invoked once with the payload; a defused or
    /// neutralised guard does nothing here. Emptying the slot first keeps
    /// this path and explicit extraction mutually exclusive.
    ///
    /// Relies on `FnOnce::call_once` for the one finalizer invocation; the
    /// finalizer slot's type invariant guarantees the call meets the
    /// finalizer's precondition. Verus requires `Drop::drop` to be
    /// `no_unwind` while it treats every non-static call as able to unwind,
    /// so this body cannot be verified: it holds the armed-state test and
    /// the single call, nothing else.
    #[verifier::external_body]
    fn drop(&mut self)
        opens_invariants none
        no_unwind
    {
        if let Some((value, FinalizerSlot::Live(fun, _))) = self.slot.take() {
            fun(value);
        }
    }
}

} // verus!
