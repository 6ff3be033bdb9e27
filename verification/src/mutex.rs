//! The lifecycle of native locks.
//!
//! A lock goes from uninitialized to initialized to destroyed and never back.
//! The native handle itself lives with the caller, who makes the native calls;
//! the types here hold the lifecycle, say which call is due, and say which
//! codes of a native call mean that it did its work. A call that did not do
//! its work is the end of the thread that made it: the caller tests the code
//! first and hands on only the codes of calls that succeeded.

use crate::io::NativeCodes;
use crate::target::Target;
use vstd::prelude::*;

verus! {

/// The type attribute a native lock is created with.
#[derive(Clone, Copy, Debug, PartialEq, Eq, Structural)]
pub enum LockType {
    /// Locking again from the owning thread deadlocks.
    Normal,
    /// The owning thread may lock again; each lock needs its unlock.
    Recursive,
}

/// How far a lock has come. The four phases before `Initialized` are the
/// steps of initialization, each named by what has been done so far.
#[derive(Clone, Copy, Debug, PartialEq, Eq, Structural)]
pub enum Phase {
    Uninitialized,
    /// The attribute object has been initialized.
    AttrReady,
    /// The lock type has been set on the attribute object.
    AttrTyped,
    /// The native lock has been initialized; the attribute object is still
    /// to be destroyed.
    HandleReady,
    Initialized,
    Destroyed,
}

/// A native call of the initialization protocol.
#[derive(Clone, Copy, Debug, PartialEq, Eq, Structural)]
pub enum InitCall {
    /// Initialize the attribute object.
    AttrInit,
    /// Set this lock type on the attribute object.
    AttrSetType(LockType),
    /// Initialize the native lock with the attribute object.
    MutexInit,
    /// Destroy the attribute object.
    AttrDestroy,
}

/// The position of a phase in the lifecycle.
pub open spec fn rank(phase: Phase) -> nat {
    match phase {
        Phase::Uninitialized => 0,
        Phase::AttrReady => 1,
        Phase::AttrTyped => 2,
        Phase::HandleReady => 3,
        Phase::Initialized => 4,
        Phase::Destroyed => 5,
    }
}

/// The call of the initialization protocol that is due in `phase` for a lock
/// of type `ty`: the attribute object is initialized, given the lock type,
/// used to initialize the lock, and destroyed, in this order. None is due
/// once the lock is initialized.
pub open spec fn spec_init_call(phase: Phase, ty: LockType) -> Option<InitCall> {
    match phase {
        Phase::Uninitialized => Some(InitCall::AttrInit),
        Phase::AttrReady => Some(InitCall::AttrSetType(ty)),
        Phase::AttrTyped => Some(InitCall::MutexInit),
        Phase::HandleReady => Some(InitCall::AttrDestroy),
        Phase::Initialized | Phase::Destroyed => None,
    }
}

/// The phase that follows `phase` when the call due in it has succeeded.
pub open spec fn spec_after_init_call(phase: Phase) -> Phase {
    match phase {
        Phase::Uninitialized => Phase::AttrReady,
        Phase::AttrReady => Phase::AttrTyped,
        Phase::AttrTyped => Phase::HandleReady,
        Phase::HandleReady => Phase::Initialized,
        Phase::Initialized => Phase::Initialized,
        Phase::Destroyed => Phase::Destroyed,
    }
}

/// Whether a native call that returned `result` has done its work: zero is
/// success, any other code is a failure that the thread cannot go on from.
pub open spec fn spec_succeeded(result: i32) -> bool {
    result == 0
}

/// Whether destroying a plain lock has done its work when the native call
/// returned `result`. Zero is success. On DragonFly a lock that was never
/// used answers with the code for an invalid argument, which counts as
/// success there and nowhere else. Any other code is a failure that the
/// thread cannot go on from.
pub open spec fn spec_destroyed(result: i32, target: Target, codes: NativeCodes) -> bool {
    result == 0 || (target == Target::DragonFly && result == codes.einval)
}

/// The phases that a lock of type `ty` goes through while it is initialized,
/// each with the call that is due in it.
pub open spec fn init_protocol(ty: LockType) -> Seq<(Phase, InitCall)> {
    seq![
        (Phase::Uninitialized, InitCall::AttrInit),
        (Phase::AttrReady, InitCall::AttrSetType(ty)),
        (Phase::AttrTyped, InitCall::MutexInit),
        (Phase::HandleReady, InitCall::AttrDestroy),
    ]
}

/// Initialization is one fixed run of four calls: it starts on a lock that is
/// uninitialized, each call is the one due in the phase the call before it
/// led to, the lock type is set before the lock is made from the attributes,
/// and the last call leaves the lock initialized with nothing more due.
pub proof fn law_init_protocol(ty: LockType)
    ensures
        init_protocol(ty).len() == 4,
        init_protocol(ty)[0].0 == Phase::Uninitialized,
        forall|i: int|
            0 <= i < 4 ==> spec_init_call((#[trigger] init_protocol(ty)[i]).0, ty) == Some(
                init_protocol(ty)[i].1,
            ),
        forall|i: int|
            0 <= i < 3 ==> spec_after_init_call((#[trigger] init_protocol(ty)[i]).0)
                == init_protocol(ty)[i + 1].0,
        spec_after_init_call(init_protocol(ty)[3].0) == Phase::Initialized,
        spec_init_call(Phase::Initialized, ty) is None,
        init_protocol(ty)[1].1 == InitCall::AttrSetType(ty),
{
}

fn init_call(phase: Phase, ty: LockType) -> (call: Option<InitCall>)
    ensures
        call == spec_init_call(phase, ty),
{
    match phase {
        Phase::Uninitialized => Some(InitCall::AttrInit),
        Phase::AttrReady => Some(InitCall::AttrSetType(ty)),
        Phase::AttrTyped => Some(InitCall::MutexInit),
        Phase::HandleReady => Some(InitCall::AttrDestroy),
        Phase::Initialized => None,
        Phase::Destroyed => None,
    }
}

fn after_init_call(phase: Phase) -> (next: Phase)
    ensures
        next == spec_after_init_call(phase),
{
    match phase {
        Phase::Uninitialized => Phase::AttrReady,
        Phase::AttrReady => Phase::AttrTyped,
        Phase::AttrTyped => Phase::HandleReady,
        Phase::HandleReady => Phase::Initialized,
        Phase::Initialized => Phase::Initialized,
        Phase::Destroyed => Phase::Destroyed,
    }
}

/// Whether a native call on a lock, which returned `result`, did its work.
/// Where it did not, the thread must not go on.
pub fn succeeded(result: i32) -> (ok: bool)
    ensures
        ok == spec_succeeded(result),
{
    result == 0
}

/// Whether the native call that destroys a plain lock, which returned
/// `result`, did its work on `target`. Where it did not, the thread must not
/// go on.
pub fn destroyed(result: i32, target: Target, codes: &NativeCodes) -> (ok: bool)
    ensures
        ok == spec_destroyed(result, target, *codes),
{
    result == 0 || (target == Target::DragonFly && result == codes.einval)
}

/// A lock that deadlocks when its owning thread locks it again.
#[derive(Debug)]
pub struct Mutex {
    phase: Phase,
}

impl Mutex {
    pub closed spec fn phase(&self) -> Phase {
        self.phase
    }

    /// A lock that has not been initialized.
    pub fn new() -> (m: Mutex)
        ensures
            m.phase() == Phase::Uninitialized,
    {
        Mutex { phase: Phase::Uninitialized }
    }

    /// The phase the lock is in.
    pub fn state(&self) -> (phase: Phase)
        ensures
            phase == self.phase(),
    {
        self.phase
    }

    /// Begins initialization: gives the first native call to make. The lock
    /// type that the protocol sets is always `Normal`, never the platform's
    /// default.
    pub fn init(&mut self) -> (call: InitCall)
        requires
            old(self).phase() == Phase::Uninitialized,
        ensures
            final(self).phase() == old(self).phase(),
            Some(call) == spec_init_call(old(self).phase(), LockType::Normal),
            call == InitCall::AttrInit,
    {
        InitCall::AttrInit
    }

    /// Takes the code of the native call due in this phase, which did its
    /// work: the lock moves one phase on, and the next call due is given, or
    /// none once the lock is initialized.
    pub fn init_step(&mut self, result: i32) -> (next: Option<InitCall>)
        requires
            spec_init_call(old(self).phase(), LockType::Normal) is Some,
            spec_succeeded(result),
        ensures
            final(self).phase() == spec_after_init_call(old(self).phase()),
            rank(final(self).phase()) == rank(old(self).phase()) + 1,
            next == spec_init_call(final(self).phase(), LockType::Normal),
    {
        self.phase = after_init_call(self.phase);
        init_call(self.phase, LockType::Normal)
    }

    /// Takes the code of the native lock call, which did its work: the
    /// calling thread holds the lock. The lifecycle stays where it is; who
    /// holds the lock is kept by the native lock.
    pub fn lock(&self, result: i32)
        requires
            self.phase() == Phase::Initialized,
            spec_succeeded(result),
    {
    }

    /// Takes the code of the native unlock call, which did its work: the
    /// lock was released. The lifecycle stays where it is.
    pub fn unlock(&self, result: i32)
        requires
            self.phase() == Phase::Initialized,
            spec_succeeded(result),
    {
    }

    /// Whether the native try-lock call, which returned `result`, acquired
    /// the lock. Any code but zero means that it did not, and none ends the
    /// thread.
    pub fn try_lock(&self, result: i32) -> (acquired: bool)
        requires
            self.phase() == Phase::Initialized,
        ensures
            acquired == spec_succeeded(result),
    {
        succeeded(result)
    }

    /// Takes the code of the native destroy call, which did its work on
    /// `target`: the lock is destroyed for good. A lock may be destroyed once
    /// it is initialized, or while it has never been initialized at all.
    pub fn destroy(&mut self, result: i32, target: Target, codes: &NativeCodes)
        requires
            old(self).phase() == Phase::Initialized || old(self).phase() == Phase::Uninitialized,
            spec_destroyed(result, target, *codes),
        ensures
            final(self).phase() == Phase::Destroyed,
    {
        self.phase = Phase::Destroyed;
    }
}

/// A lock that its owning thread may lock again without deadlock, as long as
/// it unlocks once for each time it locked. Who owns the lock and how often
/// is kept by the native lock, not here.
#[derive(Debug)]
pub struct ReentrantMutex {
    phase: Phase,
}

impl ReentrantMutex {
    pub closed spec fn phase(&self) -> Phase {
        self.phase
    }

    /// A lock that has not been initialized.
    pub fn uninitialized() -> (m: ReentrantMutex)
        ensures
            m.phase() == Phase::Uninitialized,
    {
        ReentrantMutex { phase: Phase::Uninitialized }
    }

    /// The phase the lock is in.
    pub fn state(&self) -> (phase: Phase)
        ensures
            phase == self.phase(),
    {
        self.phase
    }

    /// Begins initialization: gives the first native call to make. The lock
    /// type that the protocol sets is `Recursive`.
    pub fn init(&mut self) -> (call: InitCall)
        requires
            old(self).phase() == Phase::Uninitialized,
        ensures
            final(self).phase() == old(self).phase(),
            Some(call) == spec_init_call(old(self).phase(), LockType::Recursive),
            call == InitCall::AttrInit,
    {
        InitCall::AttrInit
    }

    /// Takes the code of the native call due in this phase, which did its
    /// work: the lock moves one phase on, and the next call due is given, or
    /// none once the lock is initialized.
    pub fn init_step(&mut self, result: i32) -> (next: Option<InitCall>)
        requires
            spec_init_call(old(self).phase(), LockType::Recursive) is Some,
            spec_succeeded(result),
        ensures
            final(self).phase() == spec_after_init_call(old(self).phase()),
            rank(final(self).phase()) == rank(old(self).phase()) + 1,
            next == spec_init_call(final(self).phase(), LockType::Recursive),
    {
        self.phase = after_init_call(self.phase);
        init_call(self.phase, LockType::Recursive)
    }

    /// Takes the code of the native lock call, which did its work: the
    /// calling thread holds the lock, once more than before. The lifecycle
    /// stays where it is; how often the lock is held is kept by the native
    /// lock.
    pub fn lock(&self, result: i32)
        requires
            self.phase() == Phase::Initialized,
            spec_succeeded(result),
    {
    }

    /// Whether the native try-lock call, which returned `result`, acquired
    /// the lock. Any code but zero means that it did not, and none ends the
    /// thread.
    pub fn try_lock(&self, result: i32) -> (acquired: bool)
        requires
            self.phase() == Phase::Initialized,
        ensures
            acquired == spec_succeeded(result),
    {
        succeeded(result)
    }

    /// Takes the code of the native unlock call, which did its work: one
    /// hold on the lock was given up. The lifecycle stays where it is.
    pub fn unlock(&self, result: i32)
        requires
            self.phase() == Phase::Initialized,
            spec_succeeded(result),
    {
    }

    /// Takes the code of the native destroy call, which did its work: the
    /// lock is destroyed for good. Zero is the only code that says so, on
    /// every platform.
    pub fn destroy(&mut self, result: i32)
        requires
            old(self).phase() == Phase::Initialized,
            spec_succeeded(result),
        ensures
            final(self).phase() == Phase::Destroyed,
    {
        self.phase = Phase::Destroyed;
    }
}

} // verus!
