//! The cancellation guard: a teardown action bound to a scope.

use vstd::prelude::*;

verus! {

/// The life of a guard.
pub enum Guard<A> {
    /// The teardown will run when the scope is left.
    Armed(A),
    /// The success path disarmed the guard.
    Defused,
    /// The scope was left and the teardown handed out.
    Fired,
}

impl<A> Guard<A> {
    /// Disarming an armed guard; a guard that is defused or has fired stays
    /// as it is.
    pub open spec fn defuse(self) -> Guard<A> {
        match self {
            Guard::Armed(_) => Guard::Defused,
            other => other,
        }
    }

    /// Leaving the scope: an armed guard fires and yields its action, any
    /// other guard stays as it is and yields nothing.
    pub open spec fn leave(self) -> (Guard<A>, Option<A>) {
        match self {
            Guard::Armed(action) => (Guard::Fired, Some(action)),
            other => (other, None),
        }
    }
}

/// A teardown action that is due when its scope is left, unless the guard was
/// defused first. The action is data: whoever leaves the scope runs what
/// [`OnDrop::leave`] hands out, to the end, before going on.
pub struct OnDrop<A> {
    action: Option<A>,
    fired: bool,
}

impl<A> View for OnDrop<A> {
    type V = Guard<A>;

    closed spec fn view(&self) -> Guard<A> {
        match self.action {
            Some(action) => Guard::Armed(action),
            None => if self.fired {
                Guard::Fired
            } else {
                Guard::Defused
            },
        }
    }
}

impl<A> OnDrop<A> {
    /// A guard armed with `action`.
    pub fn new(action: A) -> (guard: OnDrop<A>)
        ensures
            guard@ == Guard::Armed(action),
    {
        OnDrop { action: Some(action), fired: false }
    }

    /// A guard that is already defused: the state of a scope that has nothing
    /// to tear down.
    pub fn defused() -> (guard: OnDrop<A>)
        ensures
            guard@ == Guard::<A>::Defused,
    {
        OnDrop { action: None, fired: false }
    }

    /// Disarms the guard on the success path.
    pub fn defuse(&mut self)
        ensures
            final(self)@ == old(self)@.defuse(),
    {
        if self.action.is_some() {
            self.action = None;
            self.fired = false;
        }
    }

    /// Leaves the scope: hands out the teardown action if the guard is still
    /// armed.
    pub fn leave(&mut self) -> (action: Option<A>)
        ensures
            (final(self)@, action) == old(self)@.leave(),
    {
        let action = self.action.take();
        if action.is_some() {
            self.fired = true;
        }
        action
    }

    /// Whether the teardown is still due.
    pub fn is_armed(&self) -> (armed: bool)
        ensures
            armed == (self@ is Armed),
    {
        self.action.is_some()
    }
}

/// Defusing twice is defusing once.
pub proof fn law_defuse_idempotent<A>(guard: Guard<A>)
    ensures
        guard.defuse().defuse() == guard.defuse(),
{
}

/// Defusing a guard that has already fired performs no action and leaves it
/// fired; no later scope exit runs the teardown a second time.
pub proof fn law_defuse_after_fire<A>(guard: Guard<A>)
    requires
        guard is Armed,
    ensures
        guard.leave().0 == Guard::<A>::Fired,
        guard.leave().0.defuse() == guard.leave().0,
        guard.leave().0.defuse().leave().1 is None,
        guard.leave().0.leave() == (Guard::<A>::Fired, None::<A>),
{
}

/// A guard defused before the scope exit never runs its teardown.
pub proof fn law_defused_never_fires<A>(guard: Guard<A>)
    ensures
        guard.defuse().leave().1 is None,
        guard.defuse().leave().0 == guard.defuse(),
        !(guard.defuse() is Armed),
{
}

} // verus!
