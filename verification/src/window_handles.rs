//! Marker traits for what a window handle has to be on targets with threads.

use vstd::prelude::*;

verus! {

/// A type that can be sent to and shared between threads.
pub trait WasmNotSendSync: WasmNotSend + WasmNotSync {

}

impl<T: WasmNotSend + WasmNotSync> WasmNotSendSync for T {

}

/// A type that can be sent to another thread.
pub trait WasmNotSend: Send {

}

impl<T: Send> WasmNotSend for T {

}

/// A type that can be shared between threads.
pub trait WasmNotSync: Sync {

}

impl<T: Sync> WasmNotSync for T {

}

} // verus!
