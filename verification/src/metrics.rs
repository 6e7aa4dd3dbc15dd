use vstd::prelude::*;

verus! {

/// A counter: an unsigned value that is added to, wrapping on overflow.
#[derive(Default, Debug)]
pub struct Counter(u64);

impl View for Counter {
    type V = u64;

    closed spec fn view(&self) -> u64 {
        self.0
    }
}

impl Counter {
    pub fn new() -> (c: Self)
        ensures
            c@ == 0,
    {
        Self::with_value(0)
    }

    pub fn with_value(value: u64) -> (c: Self)
        ensures
            c@ == value,
    {
        Counter(value)
    }

    #[inline]
    pub fn increment(&mut self)
        ensures
            final(self)@ == vstd::wrapping::u64_specs::wrapping_add(old(self)@, 1),
    {
        self.add(1);
    }

    #[inline]
    pub fn add(&mut self, value: u64)
        ensures
            final(self)@ == vstd::wrapping::u64_specs::wrapping_add(old(self)@, value),
    {
        self.0 = self.0.wrapping_add(value);
    }

    #[inline]
    pub fn value(&self) -> (v: u64)
        ensures
            v == self@,
    {
        self.0
    }

    /// Sets the value and returns the previous one.
    #[inline]
    pub fn set(&mut self, value: u64) -> (prev: u64)
        ensures
            prev == old(self)@,
            final(self)@ == value,
    {
        let prev = self.0;
        self.0 = value;
        prev
    }

    /// Sets the value to zero and returns the previous one.
    #[inline]
    pub fn reset(&mut self) -> (prev: u64)
        ensures
            prev == old(self)@,
            final(self)@ == 0,
    {
        self.set(0)
    }
}

/// A gauge: a signed value that goes up and down, wrapping on overflow.
#[derive(Default, Debug)]
pub struct Gauge(i64);

impl View for Gauge {
    type V = i64;

    closed spec fn view(&self) -> i64 {
        self.0
    }
}

impl Gauge {
    pub fn new() -> (g: Self)
        ensures
            g@ == 0,
    {
        Gauge(0)
    }

    #[inline]
    pub fn increment(&mut self)
        ensures
            final(self)@ == vstd::wrapping::i64_specs::wrapping_add(old(self)@, 1),
    {
        self.add(1);
    }

    #[inline]
    pub fn decrement(&mut self)
        ensures
            final(self)@ == vstd::wrapping::i64_specs::wrapping_sub(old(self)@, 1),
    {
        self.sub(1);
    }

    #[inline]
    pub fn add(&mut self, value: i64)
        ensures
            final(self)@ == vstd::wrapping::i64_specs::wrapping_add(old(self)@, value),
    {
        self.0 = self.0.wrapping_add(value);
    }

    #[inline]
    pub fn sub(&mut self, value: i64)
        ensures
            final(self)@ == vstd::wrapping::i64_specs::wrapping_sub(old(self)@, value),
    {
        self.0 = self.0.wrapping_sub(value);
    }

    #[inline]
    pub fn value(&self) -> (v: i64)
        ensures
            v == self@,
    {
        self.0
    }

    /// Sets the value and returns the previous one.
    #[inline]
    pub fn set(&mut self, value: i64) -> (prev: i64)
        ensures
            prev == old(self)@,
            final(self)@ == value,
    {
        let prev = self.0;
        self.0 = value;
        prev
    }

    /// Sets the value to zero and returns the previous one.
    #[inline]
    pub fn reset(&mut self) -> (prev: i64)
        ensures
            prev == old(self)@,
            final(self)@ == 0,
    {
        self.set(0)
    }
}

/// Raising a gauge by one and lowering it by one leaves its value as it
/// was, across the wrap-around too.
pub proof fn law_gauge_up_down(before: i64, after_up: i64, after_down: i64)
    requires
        after_up == vstd::wrapping::i64_specs::wrapping_add(before, 1),
        after_down == vstd::wrapping::i64_specs::wrapping_sub(after_up, 1),
    ensures
        after_down == before,
{
}

/// Adding to a counter gives the sum modulo 2^64.
pub proof fn law_counter_add(before: u64, value: u64, after: u64)
    requires
        after == vstd::wrapping::u64_specs::wrapping_add(before, value),
    ensures
        after == (before + value) % 0x1_0000_0000_0000_0000,
{
}

/// The state of a lazily initialised value.
enum LazyState<T, F> {
    /// Not yet initialised; holds the initialiser.
    Uninit(F),
    /// Initialised.
    Init(T),
    /// The initialiser is running or has failed.
    Poisoned,
}

/// A value computed by `func` the first time it is forced.
pub struct LazyCell<T, F> {
    state: LazyState<T, F>,
}

impl<T, F> LazyCell<T, F> {
    /// Whether the value has been computed.
    pub closed spec fn is_init(&self) -> bool {
        self.state is Init
    }

    /// Whether the initialiser is still held.
    pub closed spec fn is_uninit(&self) -> bool {
        self.state is Uninit
    }

    /// The computed value.
    pub closed spec fn value(&self) -> T {
        match self.state {
            LazyState::Init(v) => v,
            _ => arbitrary(),
        }
    }

    /// The initialiser.
    pub closed spec fn func(&self) -> F {
        match self.state {
            LazyState::Uninit(f) => f,
            _ => arbitrary(),
        }
    }

    pub fn new(func: F) -> (c: Self)
        ensures
            c.is_uninit(),
            !c.is_init(),
            c.func() == func,
    {
        LazyCell { state: LazyState::Uninit(func) }
    }

    /// The value, if it has been computed.
    pub fn get(&self) -> (r: Option<&T>)
        ensures
            r is Some <==> self.is_init(),
            r matches Some(v) ==> *v == self.value(),
    {
        match &self.state {
            LazyState::Init(v) => Some(v),
            _ => None,
        }
    }

    /// Mutable access to the value, if it has been computed.
    pub fn get_mut(&mut self) -> (r: Option<&mut T>)
        ensures
            r is Some <==> old(self).is_init(),
            r is None ==> *final(self) == *old(self),
            r matches Some(v) ==> *v == old(self).value() && final(self).is_init() && final(self).value() == *final(v),
    {
        if let LazyState::Init(_) = &self.state {
        } else {
            return None;
        }
        match &mut self.state {
            LazyState::Init(v) => Some(v),
            _ => None,
        }
    }

    /// Whether the value has been computed.
    pub fn is_enabled(&self) -> (r: bool)
        ensures
            r == self.is_init(),
    {
        self.get().is_some()
    }

    /// The value, if it has been computed.
    pub fn into_inner(self) -> (r: Option<T>)
        ensures
            r is Some <==> self.is_init(),
            r matches Some(v) ==> v == self.value(),
    {
        match self.state {
            LazyState::Init(v) => Some(v),
            _ => None,
        }
    }
}

impl<T, F: FnOnce() -> T> LazyCell<T, F> {
    /// The value, computing it first if it has not been computed.
    pub fn force_mut(&mut self) -> (r: &mut T)
        requires
            old(self).is_init() || (old(self).is_uninit() && call_requires(old(self).func(), ())),
        ensures
            old(self).is_init() ==> *r == old(self).value(),
            old(self).is_uninit() ==> call_ensures(old(self).func(), (), *r),
            final(self).is_init(),
            final(self).value() == *final(r),
    {
        if let LazyState::Uninit(_) = &self.state {
            let mut taken = LazyState::Poisoned;
            std::mem::swap(&mut taken, &mut self.state);
            if let LazyState::Uninit(func) = taken {
                let value = func();
                self.state = LazyState::Init(value);
            }
        }
        self.get_mut().unwrap()
    }
}

/// State word of a lazy cell shared between threads: not yet computed.
pub const LAZY_UNINIT: u8 = 0;

/// State word: one thread is running the initialiser.
pub const LAZY_INIT_IN_PROGRESS: u8 = 1;

/// State word: the value is there.
pub const LAZY_INIT: u8 = 2;

/// State word: the initialiser panicked.
pub const LAZY_POISONED: u8 = 3;

/// What a thread that wants the value of a shared lazy cell does next.
#[derive(Copy, Clone, PartialEq, Eq, Structural, Debug)]
pub enum LazyAction {
    /// Read the value.
    Ready,
    /// Try to claim the initialisation (move the state from uninitialised
    /// to in progress).
    Claim,
    /// This thread claimed the initialisation: run the initialiser.
    Initialise,
    /// Another thread runs the initialiser: load the state again.
    Wait,
    /// The initialiser panicked: panic too.
    Poisoned,
}

/// The step of a thread that loaded `state` and wants the value: read it
/// when it is there, panic when the initialiser panicked, otherwise try to
/// claim the initialisation.
pub open spec fn spec_force_action(state: u8) -> LazyAction {
    if state == LAZY_INIT {
        LazyAction::Ready
    } else if state == LAZY_POISONED {
        LazyAction::Poisoned
    } else {
        LazyAction::Claim
    }
}

/// The step of a thread that found `found` instead of claiming the
/// initialisation, or that waits and loaded `found`.
pub open spec fn spec_found_action(found: u8) -> LazyAction {
    if found == LAZY_INIT {
        LazyAction::Ready
    } else if found == LAZY_POISONED {
        LazyAction::Poisoned
    } else {
        LazyAction::Wait
    }
}

/// The step of a thread that loaded `state` and wants the value.
pub fn force_action(state: u8) -> (r: LazyAction)
    requires
        state <= LAZY_POISONED,
    ensures
        r == spec_force_action(state),
{
    if state == LAZY_INIT {
        LazyAction::Ready
    } else if state == LAZY_POISONED {
        LazyAction::Poisoned
    } else {
        LazyAction::Claim
    }
}

/// The step after trying to claim the initialisation: `Ok` when this
/// thread moved the state from uninitialised to in progress, otherwise the
/// state it found (which cannot be uninitialised: the claim would have
/// succeeded).
pub fn claim_action(claimed: Result<u8, u8>) -> (r: LazyAction)
    requires
        claimed matches Err(found) ==> (found == LAZY_INIT_IN_PROGRESS || found == LAZY_INIT || found
            == LAZY_POISONED),
    ensures
        claimed is Ok ==> r == LazyAction::Initialise,
        claimed matches Err(found) ==> r == spec_found_action(found),
{
    match claimed {
        Ok(_) => LazyAction::Initialise,
        Err(found) => {
            if found == LAZY_INIT {
                LazyAction::Ready
            } else if found == LAZY_POISONED {
                LazyAction::Poisoned
            } else {
                LazyAction::Wait
            }
        },
    }
}

/// The step of a waiting thread that loaded `state`; the state never goes
/// back to uninitialised once claimed.
pub fn wait_action(state: u8) -> (r: LazyAction)
    requires
        state == LAZY_INIT_IN_PROGRESS || state == LAZY_INIT || state == LAZY_POISONED,
    ensures
        r == spec_found_action(state),
{
    claim_action(Err(state))
}

/// The state stored once the initialiser has run: initialised when it
/// returned, poisoned when it panicked.
pub open spec fn spec_settled_state(returned: bool) -> u8 {
    if returned {
        LAZY_INIT
    } else {
        LAZY_POISONED
    }
}

/// The state stored once the initialiser has run.
pub fn settled_state(returned: bool) -> (r: u8)
    ensures
        r == spec_settled_state(returned),
{
    if returned {
        LAZY_INIT
    } else {
        LAZY_POISONED
    }
}

/// The protocol of a shared lazy cell: a thread reads the value only in
/// the initialised state; once the initialiser has settled, no thread is
/// sent to claim the initialisation again or to keep waiting, so the
/// initialiser runs at most once and every waiter stops.
pub proof fn law_lazy_protocol(state: u8, returned: bool)
    requires
        state <= LAZY_POISONED,
    ensures
        spec_force_action(state) == LazyAction::Ready <==> state == LAZY_INIT,
        spec_found_action(state) == LazyAction::Ready <==> state == LAZY_INIT,
        spec_force_action(spec_settled_state(returned)) != LazyAction::Claim,
        spec_found_action(spec_settled_state(returned)) != LazyAction::Wait,
        spec_force_action(spec_settled_state(returned)) == LazyAction::Ready <==> returned,
{
}

} // verus!
