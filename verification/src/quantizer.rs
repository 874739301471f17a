//! The table of encodable time windows and the search for the shortest
//! window that covers a requested duration.
//!
//! Durations are fixed-point: one tick is `2^-17` seconds, a quarter of the
//! smallest time unit the hardware can report, so every encodable window is
//! a whole number of ticks.

use crate::codec::EncodingError;
use vstd::arithmetic::power2::*;
use vstd::bits::*;
use vstd::prelude::*;

verus! {

/// Ticks in one second.
pub const TICKS_PER_SECOND: u64 = 131072;

/// Number of `(y, z)` pairs: 32 exponents times 4 fractions.
pub const TABLE_LEN: usize = 128;

/// A duration in ticks of `2^-17` seconds.
#[derive(Debug, Clone, Copy, PartialEq, Eq, Structural)]
pub struct Seconds {
    pub ticks: u64,
}

impl Seconds {
    /// A whole number of seconds.
    pub fn from_whole(seconds: u32) -> (r: Seconds)
        ensures
            r.ticks == seconds * TICKS_PER_SECOND,
    {
        let s: u64 = seconds as u64;
        assert(s * 131072 <= 0xFFFF_FFFF * 131072) by (nonlinear_arith)
            requires
                s <= 0xFFFF_FFFF,
        ;
        Seconds { ticks: s * TICKS_PER_SECOND }
    }
}

/// Length in ticks of the window `2^y * (1 + z/4)` time units, where one
/// time unit is `2^-time_exp` seconds.
pub open spec fn window_ticks(time_exp: u32, y: u32, z: u32) -> int {
    (4 + z) * pow2((y + 15 - time_exp) as nat)
}

/// Length in ticks of the table's entry `i`, which holds exponent `i / 4`
/// and fraction `i % 4`.
pub open spec fn entry_ticks(time_exp: u32, i: nat) -> int {
    window_ticks(time_exp, (i / 4) as u32, (i % 4) as u32)
}

/// Index of the first entry at or after `from` that lasts at least `ticks`;
/// the table's length if there is none.
pub open spec fn first_fit(time_exp: u32, ticks: u64, from: nat) -> nat
    decreases TABLE_LEN - from,
{
    if from >= TABLE_LEN {
        TABLE_LEN as nat
    } else if entry_ticks(time_exp, from) >= ticks {
        from
    } else {
        first_fit(time_exp, ticks, from + 1)
    }
}

/// The exponent and fraction of the shortest window that lasts at least
/// `ticks`, if any window does.
pub open spec fn quantize_spec(time_exp: u32, ticks: u64) -> Option<(u32, u32)> {
    let k = first_fit(time_exp, ticks, 0);
    if k < TABLE_LEN {
        Some(((k / 4) as u32, (k % 4) as u32))
    } else {
        None
    }
}

/// No window is longer than `7 * 2^46` ticks.
pub proof fn lemma_window_ticks_bound(time_exp: u32, y: u32, z: u32)
    requires
        time_exp <= 15,
        y <= 31,
        z <= 3,
    ensures
        0 < window_ticks(time_exp, y, z) <= 0x1_C000_0000_0000,
{
    let e = (y + 15 - time_exp) as nat;
    lemma_pow2_pos(e);
    lemma2_to64_rest();
    if e < 46 {
        lemma_pow2_strictly_increases(e, 46);
    }
    let p = pow2(e);
    assert((4 + z) * p <= 7 * 0x4000_0000_0000 && 0 < (4 + z) * p) by (nonlinear_arith)
        requires
            0 < p <= 0x4000_0000_0000,
            0 <= z <= 3,
    ;
}

/// Each entry is strictly shorter than the next one.
proof fn lemma_entry_step(time_exp: u32, i: nat)
    requires
        time_exp <= 15,
        i + 1 < TABLE_LEN,
    ensures
        entry_ticks(time_exp, i) < entry_ticks(time_exp, i + 1),
{
    let y = (i / 4) as u32;
    let z = (i % 4) as u32;
    let e = (y + 15 - time_exp) as nat;
    let p = pow2(e);
    lemma_pow2_pos(e);
    if z < 3 {
        assert((i + 1) / 4 == y && (i + 1) % 4 == z + 1);
        assert((4 + z) * p < (4 + (z + 1)) * p) by (nonlinear_arith)
            requires
                0 < p,
                0 <= z,
        ;
    } else {
        assert((i + 1) / 4 == y + 1 && (i + 1) % 4 == 0);
        lemma_pow2_unfold(e + 1);
        let q = pow2(e + 1);
        assert((4 + 3) * p < (4 + 0) * q) by (nonlinear_arith)
            requires
                0 < p,
                q == 2 * p,
        ;
    }
}

/// The table is in strictly ascending order of duration: no two windows
/// have the same length.
pub proof fn lemma_entries_ascending(time_exp: u32, i: nat, j: nat)
    requires
        time_exp <= 15,
        i < j < TABLE_LEN,
    ensures
        entry_ticks(time_exp, i) < entry_ticks(time_exp, j),
    decreases j,
{
    lemma_entry_step(time_exp, (j - 1) as nat);
    if i + 1 < j {
        lemma_entries_ascending(time_exp, i, (j - 1) as nat);
    }
}

/// What `first_fit` finds: an entry that is long enough, every earlier
/// entry being too short.
pub proof fn lemma_first_fit(time_exp: u32, ticks: u64, from: nat)
    requires
        from <= TABLE_LEN,
    ensures
        from <= first_fit(time_exp, ticks, from) <= TABLE_LEN,
        first_fit(time_exp, ticks, from) < TABLE_LEN ==> entry_ticks(
            time_exp,
            first_fit(time_exp, ticks, from),
        ) >= ticks,
        forall|j: nat|
            from <= j < first_fit(time_exp, ticks, from) ==> #[trigger] entry_ticks(time_exp, j)
                < ticks,
    decreases TABLE_LEN - from,
{
    if from < TABLE_LEN && entry_ticks(time_exp, from) < ticks {
        lemma_first_fit(time_exp, ticks, from + 1);
    }
}

/// The window that `quantize_spec` picks is the shortest one that covers
/// the request. It exists exactly when the request does not exceed the
/// longest window, `y = 31, z = 3`; a request no longer than the shortest
/// window gets `y = 0, z = 0`.
pub proof fn lemma_quantize_minimal(time_exp: u32, ticks: u64)
    requires
        time_exp <= 15,
    ensures
        quantize_spec(time_exp, ticks) is None <==> ticks > window_ticks(time_exp, 31, 3),
        ticks <= window_ticks(time_exp, 0, 0) ==> quantize_spec(time_exp, ticks) == Some(
            (0u32, 0u32),
        ),
        quantize_spec(time_exp, ticks) is Some ==> {
            let (y, z) = quantize_spec(time_exp, ticks).unwrap();
            &&& y <= 31
            &&& z <= 3
            &&& window_ticks(time_exp, y, z) >= ticks
            &&& forall|y2: u32, z2: u32|
                y2 <= 31 && z2 <= 3 && #[trigger] window_ticks(time_exp, y2, z2) >= ticks
                    ==> window_ticks(time_exp, y, z) <= window_ticks(time_exp, y2, z2)
        },
{
    let k = first_fit(time_exp, ticks, 0);
    lemma_first_fit(time_exp, ticks, 0);
    assert(entry_ticks(time_exp, 127) == window_ticks(time_exp, 31, 3));
    assert(entry_ticks(time_exp, 0) == window_ticks(time_exp, 0, 0));
    if k < TABLE_LEN {
        if k < 127 {
            lemma_entries_ascending(time_exp, k, 127);
        }
        let y = (k / 4) as u32;
        let z = (k % 4) as u32;
        assert forall|y2: u32, z2: u32|
            y2 <= 31 && z2 <= 3 && #[trigger] window_ticks(time_exp, y2, z2)
                >= ticks implies window_ticks(time_exp, y, z) <= window_ticks(time_exp, y2, z2) by {
            let j = (4 * y2 + z2) as nat;
            assert(j / 4 == y2 && j % 4 == z2);
            assert(entry_ticks(time_exp, j) == window_ticks(time_exp, y2, z2));
            if j < k {
                assert(entry_ticks(time_exp, j) < ticks);
            } else if k < j {
                lemma_entries_ascending(time_exp, k, j);
            }
        }
    } else {
        assert(entry_ticks(time_exp, 127) < ticks);
    }
}

/// One encodable time window.
#[derive(Debug, Clone, Copy, PartialEq, Eq, Structural)]
pub struct TimeWindow {
    /// Its length in ticks.
    pub ticks: u64,
    /// The exponent, at most 31.
    pub y: u32,
    /// The fraction in quarters, at most 3.
    pub z: u32,
}

/// All encodable time windows for one time unit, shortest first.
pub struct TimeWindowTable {
    time_exp: u32,
    entries: Vec<TimeWindow>,
}

/// `2^e` as a machine integer.
pub(crate) fn pow2_u64(e: u32) -> (r: u64)
    requires
        e < 64,
    ensures
        r == pow2(e as nat),
{
    let shift: u64 = e as u64;
    proof {
        lemma_u64_pow2_no_overflow(e as nat);
        lemma_u64_shl_is_mul(1, shift);
    }
    1u64 << shift
}

impl TimeWindowTable {
    /// The exponent of the time unit the table was built for.
    pub closed spec fn time_exp_spec(&self) -> u32 {
        self.time_exp
    }

    /// The entries, in table order.
    pub closed spec fn view(&self) -> Seq<TimeWindow> {
        self.entries@
    }

    /// The table holds all 128 windows, entry `i` being exponent `i / 4` and
    /// fraction `i % 4` with its length; by `lemma_entries_ascending` that
    /// is ascending order of duration.
    pub open spec fn wf(&self) -> bool {
        &&& self.time_exp_spec() <= 15
        &&& self@.len() == TABLE_LEN
        &&& forall|i: int|
            0 <= i < TABLE_LEN ==> {
                &&& (#[trigger] self@[i]).y == i / 4
                &&& self@[i].z == i % 4
                &&& self@[i].ticks == entry_ticks(self.time_exp_spec(), i as nat)
            }
    }

    /// Builds the table for a time unit of `2^-time_exp` seconds.
    pub fn new(time_exp: u32) -> (t: TimeWindowTable)
        requires
            time_exp <= 15,
        ensures
            t.wf(),
            t.time_exp_spec() == time_exp,
    {
        let mut entries: Vec<TimeWindow> = Vec::new();
        let mut i: usize = 0;
        while i < TABLE_LEN
            invariant
                time_exp <= 15,
                i <= TABLE_LEN,
                entries@.len() == i,
                forall|j: int|
                    0 <= j < i ==> {
                        &&& (#[trigger] entries@[j]).y == j / 4
                        &&& entries@[j].z == j % 4
                        &&& entries@[j].ticks == entry_ticks(time_exp, j as nat)
                    },
            decreases TABLE_LEN - i,
        {
            let y: u32 = (i / 4) as u32;
            let z: u32 = (i % 4) as u32;
            let unit: u64 = pow2_u64(y + 15 - time_exp);
            proof {
                lemma_window_ticks_bound(time_exp, y, z);
            }
            let ticks: u64 = (4 + z as u64) * unit;
            entries.push(TimeWindow { ticks, y, z });
            i += 1;
        }
        TimeWindowTable { time_exp, entries }
    }

    /// The time unit exponent the table was built for.
    pub fn time_exp(&self) -> (r: u32)
        ensures
            r == self.time_exp_spec(),
    {
        self.time_exp
    }

    /// The entry at `index`.
    pub fn entry(&self, index: usize) -> (r: Option<TimeWindow>)
        ensures
            r == if index < self@.len() {
                Some(self@[index as int])
            } else {
                None
            },
    {
        if index < self.entries.len() {
            Some(self.entries[index])
        } else {
            None
        }
    }

    /// The exponent and fraction of the shortest window that lasts at least
    /// `duration`: an ascending scan that stops at the first entry that is
    /// long enough. Fails with `DurationOutOfRange` exactly when `duration`
    /// exceeds the longest window.
    pub fn quantize(&self, duration: Seconds) -> (r: Result<(u32, u32), EncodingError>)
        requires
            self.wf(),
        ensures
            r is Ok <==> duration.ticks <= window_ticks(self.time_exp_spec(), 31, 3),
            r is Err ==> r == Err::<(u32, u32), EncodingError>(EncodingError::DurationOutOfRange),
            r is Ok ==> Some(r.unwrap()) == quantize_spec(self.time_exp_spec(), duration.ticks),
            r is Ok ==> {
                let (y, z) = r.unwrap();
                &&& y <= 31
                &&& z <= 3
                &&& window_ticks(self.time_exp_spec(), y, z) >= duration.ticks
                &&& forall|y2: u32, z2: u32|
                    y2 <= 31 && z2 <= 3 && #[trigger] window_ticks(self.time_exp_spec(), y2, z2)
                        >= duration.ticks ==> window_ticks(self.time_exp_spec(), y, z)
                        <= window_ticks(self.time_exp_spec(), y2, z2)
            },
            duration.ticks <= window_ticks(self.time_exp_spec(), 0, 0) ==> r == Ok::<
                (u32, u32),
                EncodingError,
            >((0u32, 0u32)),
    {
        let mut i: usize = 0;
        while i < TABLE_LEN
            invariant
                self.wf(),
                i <= TABLE_LEN,
                first_fit(self.time_exp, duration.ticks, 0) == first_fit(
                    self.time_exp,
                    duration.ticks,
                    i as nat,
                ),
            decreases TABLE_LEN - i,
        {
            let entry = self.entries[i];
            assert(entry == self@[i as int]);
            if entry.ticks >= duration.ticks {
                proof {
                    lemma_quantize_minimal(self.time_exp, duration.ticks);
                }
                return Ok((entry.y, entry.z));
            }
            i += 1;
        }
        proof {
            lemma_quantize_minimal(self.time_exp, duration.ticks);
        }
        Err(EncodingError::DurationOutOfRange)
    }
}

} // verus!
