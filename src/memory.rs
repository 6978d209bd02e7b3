use vstd::prelude::*;

verus! {

/// Bytes in one kibibyte, the unit in which firmware reports installed memory.
pub const BYTES_PER_KIB: u64 = 1024;

/// Which of the two memory counters a reading was asked for.
#[derive(Debug, Clone, Copy, PartialEq, Eq, Structural)]
pub enum MemoryQuery {
    /// Physical memory that the operating system reports as usable.
    Visible,
    /// Physical memory that is installed in the machine.
    Installed,
}

/// A memory reading that could not be taken.
#[derive(Debug, Clone, Copy, PartialEq, Eq, Structural)]
pub enum SampleError {
    /// The operating system refused the query, with its platform error code.
    QueryFailed { query: MemoryQuery, code: i32 },
}

/// One reading of installed versus visible physical memory, in bytes.
///
/// The all-zero reading stands for "no signal yet": it is never degraded.
#[derive(Debug, Clone, Copy, PartialEq, Eq, Structural)]
pub struct MemoryInfo {
    pub installed_bytes: u64,
    pub visible_bytes: u64,
}

/// Degraded memory: some memory is installed and strictly less than
/// half of it (rounded down) is visible.
pub open spec fn problem_spec(installed: u64, visible: u64) -> bool {
    installed > 0 && visible < installed / 2
}

/// Visible memory as hundredths of a percent of installed memory, rounded
/// down; zero while nothing is known to be installed.
pub open spec fn ratio_hundredths_spec(installed: u64, visible: u64) -> int {
    if installed == 0 {
        0
    } else {
        let q = (visible as int * 10000) / (installed as int);
        if q > u64::MAX { u64::MAX as int } else { q }
    }
}

/// The reading that the two counter queries give, or the first failure among
/// them (the visible counter is read first).
pub open spec fn sample_outcome(
    visible: Result<u64, SampleError>,
    installed: Result<u64, SampleError>,
) -> Result<MemoryInfo, SampleError> {
    match visible {
        Err(e) => Err(e),
        Ok(v) => match installed {
            Err(e) => Err(e),
            Ok(i) => Ok(MemoryInfo { installed_bytes: i, visible_bytes: v }),
        },
    }
}

/// A count of kibibytes in bytes, saturating at the largest `u64`.
pub fn kib_to_bytes(kib: u64) -> (r: u64)
    ensures
        r == if kib as int * 1024 > u64::MAX { u64::MAX as int } else { kib as int * 1024 },
{
    match kib.checked_mul(BYTES_PER_KIB) {
        Some(b) => b,
        None => u64::MAX,
    }
}

impl MemoryInfo {
    /// The empty reading.
    pub open spec fn new_spec() -> MemoryInfo {
        MemoryInfo { installed_bytes: 0, visible_bytes: 0 }
    }

    /// The empty reading, taken before any sample succeeded.
    pub fn new() -> (r: MemoryInfo)
        ensures
            r == MemoryInfo::new_spec(),
            r.installed_bytes == 0,
            r.visible_bytes == 0,
    {
        MemoryInfo { installed_bytes: 0, visible_bytes: 0 }
    }

    /// Replaces this reading with the one that the two counter queries give.
    ///
    /// Fails fast: when either query failed, the previous reading is dropped
    /// (the empty reading takes its place) and the failure is returned.
    pub fn update(
        &mut self,
        visible: Result<u64, SampleError>,
        installed: Result<u64, SampleError>,
    ) -> (r: Result<(), SampleError>)
        ensures
            match sample_outcome(visible, installed) {
                Ok(m) => r is Ok && *final(self) == m,
                Err(e) => r == Err::<(), SampleError>(e) && *final(self) == MemoryInfo::new_spec(),
            },
    {
        match visible {
            Err(e) => {
                *self = MemoryInfo::new();
                Err(e)
            },
            Ok(v) => match installed {
                Err(e) => {
                    *self = MemoryInfo::new();
                    Err(e)
                },
                Ok(i) => {
                    self.installed_bytes = i;
                    self.visible_bytes = v;
                    Ok(())
                },
            },
        }
    }

    /// Whether this reading shows degraded memory: strictly less than half of
    /// the installed memory (rounded down) is visible. Without any installed
    /// memory there is no signal, and so no problem.
    pub fn has_problem(&self) -> (r: bool)
        ensures
            self.installed_bytes == 0 ==> !r,
            self.installed_bytes > 0 ==> r == (self.visible_bytes < self.installed_bytes / 2),
            r == problem_spec(self.installed_bytes, self.visible_bytes),
    {
        if self.installed_bytes == 0 {
            return false;
        }
        let half = self.installed_bytes / 2;
        self.visible_bytes < half
    }

    /// Visible memory as hundredths of a percent of installed memory, for
    /// display (9375 stands for 93.75 %).
    pub fn ratio_hundredths(&self) -> (r: u64)
        ensures
            r == ratio_hundredths_spec(self.installed_bytes, self.visible_bytes),
    {
        if self.installed_bytes == 0 {
            return 0;
        }
        let v = self.visible_bytes as u128;
        assert(v * 10000 <= u64::MAX as u128 * 10000) by (nonlinear_arith)
            requires
                v <= u64::MAX,
        ;
        let q = (v * 10000) / (self.installed_bytes as u128);
        if q > u64::MAX as u128 {
            u64::MAX
        } else {
            q as u64
        }
    }
}

impl Default for MemoryInfo {
    fn default() -> (r: MemoryInfo)
        ensures
            r.installed_bytes == 0,
            r.visible_bytes == 0,
    {
        MemoryInfo::new()
    }
}

} // verus!
