//! Clocks, timers and runtime information.

use vstd::prelude::*;

verus! {

/// Relies on std::time::SystemTime::now and duration_since: the current
/// wall-clock time as milliseconds since the Unix epoch. Nothing can be
/// promised of a clock reading.
#[verifier::external_body]
pub(crate) fn now_millis() -> u64 {
    match std::time::SystemTime::now().duration_since(std::time::UNIX_EPOCH) {
        Ok(d) => d.as_millis() as u64,
        Err(_) => 0,
    }
}

/// A simple named timer: it remembers the wall-clock reading taken when it
/// was created.
#[derive(Debug, Clone)]
pub struct Timer {
    /// Name under which the measurement is reported.
    pub name: String,
    /// Wall-clock reading at creation, in milliseconds since the epoch.
    pub start_ms: u64,
}

impl Timer {
    /// Start a timer under the given name.
    pub fn new(name: &str) -> (r: Timer)
        ensures
            r.name@ == name@,
    {
        Timer { name: String::from_str(name), start_ms: now_millis() }
    }

    /// Milliseconds elapsed since the timer started, clamped at zero if the
    /// clock moved backwards.
    pub fn elapsed_ms(&self) -> u64 {
        let now = now_millis();
        if now >= self.start_ms {
            now - self.start_ms
        } else {
            0
        }
    }
}

/// Static facts about the runtime the process found itself on.
#[derive(Debug, Clone)]
pub struct SystemInfo {
    /// Library version string.
    pub version: String,
    /// Number of worker threads available.
    pub cpu_threads: u32,
    /// Whether vectorized text routines are available.
    pub simd_support: bool,
    /// Name of the memory allocator in use.
    pub memory_allocator: String,
}

/// Allocator-level memory usage counters.
#[derive(Debug, Clone, Copy, PartialEq, Eq, Structural)]
pub struct MemoryStats {
    /// Bytes currently allocated.
    pub allocated_bytes: u64,
    /// Bytes resident in physical memory.
    pub resident_bytes: u64,
    /// High-water mark of allocated bytes.
    pub peak_bytes: u64,
}

} // verus!
