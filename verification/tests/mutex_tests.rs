use posix_platform::io::NativeCodes;
use posix_platform::mutex::{
    destroyed, succeeded, InitCall, LockType, Mutex, Phase, ReentrantMutex,
};
use posix_platform::target::Target;

#[test]
fn plain_lock_is_initialized_as_normal() {
    let mut m = Mutex::new();
    assert_eq!(m.state(), Phase::Uninitialized);
    assert_eq!(m.init(), InitCall::AttrInit);
    assert_eq!(m.state(), Phase::Uninitialized);
    assert_eq!(m.init_step(0), Some(InitCall::AttrSetType(LockType::Normal)));
    assert_eq!(m.state(), Phase::AttrReady);
    assert_eq!(m.init_step(0), Some(InitCall::MutexInit));
    assert_eq!(m.state(), Phase::AttrTyped);
    assert_eq!(m.init_step(0), Some(InitCall::AttrDestroy));
    assert_eq!(m.state(), Phase::HandleReady);
    assert_eq!(m.init_step(0), None);
    assert_eq!(m.state(), Phase::Initialized);
}

#[test]
fn reentrant_lock_is_initialized_as_recursive() {
    let mut m = ReentrantMutex::uninitialized();
    assert_eq!(m.state(), Phase::Uninitialized);
    assert_eq!(m.init(), InitCall::AttrInit);
    assert_eq!(m.init_step(0), Some(InitCall::AttrSetType(LockType::Recursive)));
    assert_eq!(m.init_step(0), Some(InitCall::MutexInit));
    assert_eq!(m.init_step(0), Some(InitCall::AttrDestroy));
    assert_eq!(m.init_step(0), None);
    assert_eq!(m.state(), Phase::Initialized);
}

#[test]
fn only_zero_says_that_a_call_did_its_work() {
    assert!(succeeded(0));
    assert!(!succeeded(1));
    assert!(!succeeded(-1));
    assert!(!succeeded(12));
    assert!(!succeeded(22));
    assert!(!succeeded(35));
    assert!(!succeeded(libc::EBUSY));
    assert!(!succeeded(i32::MAX));
    assert!(!succeeded(i32::MIN));
}

fn ready() -> Mutex {
    let mut m = Mutex::new();
    m.init();
    let mut i = 0;
    while i < 4 {
        assert!(succeeded(0));
        m.init_step(0);
        i += 1;
    }
    m
}

fn ready_reentrant() -> ReentrantMutex {
    let mut m = ReentrantMutex::uninitialized();
    m.init();
    let mut i = 0;
    while i < 4 {
        assert!(succeeded(0));
        m.init_step(0);
        i += 1;
    }
    m
}

#[test]
fn lock_and_unlock_leave_the_lifecycle_where_it_is() {
    let m = ready();
    m.lock(0);
    assert_eq!(m.state(), Phase::Initialized);
    m.unlock(0);
    assert_eq!(m.state(), Phase::Initialized);
}

#[test]
fn try_lock_reports_whether_the_lock_was_taken() {
    let m = ready();
    assert!(m.try_lock(0));
    assert!(!m.try_lock(libc::EBUSY));
    assert!(!m.try_lock(-1));
    let r = ready_reentrant();
    assert!(r.try_lock(0));
    assert!(!r.try_lock(libc::EBUSY));
}

#[test]
fn reentrant_lock_cycles() {
    let r = ready_reentrant();
    r.lock(0);
    r.lock(0);
    r.unlock(0);
    r.unlock(0);
    assert_eq!(r.state(), Phase::Initialized);
}

#[test]
fn destroy_ends_the_lifecycle() {
    let codes = NativeCodes::host();
    let mut m = ready();
    assert!(destroyed(0, Target::Linux, &codes));
    m.destroy(0, Target::Linux, &codes);
    assert_eq!(m.state(), Phase::Destroyed);
    let mut r = ready_reentrant();
    r.destroy(0);
    assert_eq!(r.state(), Phase::Destroyed);
}

#[test]
fn destroy_of_a_lock_never_initialized() {
    let codes = NativeCodes::host();
    let mut m = Mutex::new();
    m.destroy(0, Target::FreeBsd, &codes);
    assert_eq!(m.state(), Phase::Destroyed);
}

#[test]
fn invalid_argument_on_destroy_is_tolerated_on_dragonfly_only() {
    let codes = NativeCodes::host();
    assert!(destroyed(0, Target::DragonFly, &codes));
    assert!(destroyed(codes.einval, Target::DragonFly, &codes));
    assert!(!destroyed(codes.eperm, Target::DragonFly, &codes));
    assert!(!destroyed(codes.einval, Target::Linux, &codes));
    assert!(!destroyed(codes.einval, Target::FreeBsd, &codes));
    assert!(!destroyed(codes.einval, Target::MacOs, &codes));
    assert!(!destroyed(codes.einval, Target::Other, &codes));
    assert!(!destroyed(-1, Target::Linux, &codes));

    let mut m = Mutex::new();
    m.destroy(codes.einval, Target::DragonFly, &codes);
    assert_eq!(m.state(), Phase::Destroyed);
}
