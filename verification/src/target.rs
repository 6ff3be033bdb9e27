//! The platforms whose behaviour this layer tells apart.

use vstd::prelude::*;

verus! {

/// The platform a program is built for, as far as the rules of this crate
/// depend on it. It is chosen once, where the program is built, and handed to
/// every rule that differs between platforms.
#[derive(Clone, Copy, Debug, PartialEq, Eq, Hash, Structural)]
pub enum Target {
    /// Linux with the GNU C library.
    Linux,
    /// Linux with the musl C library.
    LinuxMusl,
    Android,
    FreeBsd,
    DragonFly,
    MacOs,
    Bitrig,
    NetBsd,
    /// NetBSD as a rump kernel.
    NetBsdRumprun,
    OpenBsd,
    Solaris,
    L4Re,
    Emscripten,
    Fuchsia,
    /// Any other POSIX platform.
    Other,
}

} // verus!
