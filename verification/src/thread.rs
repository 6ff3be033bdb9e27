//! What this layer does for a thread when it starts.

pub mod guard;
