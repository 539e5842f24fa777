//! Turns cumulative host counters into per-tick display metrics.
use vstd::prelude::*;

verus! {

/// The counters kept from one tick to the next.
pub struct SampleState {
    pub previous_received_bytes: u64,
    pub previous_transmitted_bytes: u64,
}

/// The cumulative byte counters of one network interface.
pub struct InterfaceCounters {
    pub received_bytes: u64,
    pub transmitted_bytes: u64,
}

/// What the host reports at one instant.
pub struct RawSample {
    /// Global CPU usage, in hundredths of a percent.
    pub cpu_usage_hundredths: u32,
    pub used_memory_bytes: u64,
    pub total_memory_bytes: u64,
    /// Received bytes, summed over all interfaces.
    pub total_received_bytes: u64,
    /// Transmitted bytes, summed over all interfaces.
    pub total_transmitted_bytes: u64,
}

/// The metrics of one tick.
pub struct DisplayMetrics {
    /// CPU usage, in hundredths of a percent.
    pub cpu_hundredths: u32,
    /// Used memory over total memory, in hundredths of a percent, rounded down.
    pub memory_hundredths: u128,
    pub download_rate_bytes_per_tick: u64,
    pub upload_rate_bytes_per_tick: u64,
}

/// The change of a cumulative counter since the last tick, zero when it went back.
pub open spec fn saturating_delta(now: u64, before: u64) -> u64 {
    if now >= before {
        (now - before) as u64
    } else {
        0
    }
}

/// Memory use in hundredths of a percent, rounded down; zero when the total is zero.
pub open spec fn memory_hundredths_of(used: u64, total: u64) -> int {
    if total == 0 {
        0
    } else {
        (used * 10000) / (total as int)
    }
}

/// The sum of a sequence of counters.
pub open spec fn counter_sum(s: Seq<u64>) -> int
    decreases s.len(),
{
    if s.len() == 0 {
        0
    } else {
        counter_sum(s.drop_last()) + s.last()
    }
}

/// A sum that stops at the largest `u64`.
pub open spec fn saturated(n: int) -> u64 {
    if n > u64::MAX {
        u64::MAX
    } else {
        n as u64
    }
}

pub open spec fn received_of(s: Seq<InterfaceCounters>) -> Seq<u64> {
    s.map_values(|c: InterfaceCounters| c.received_bytes)
}

pub open spec fn transmitted_of(s: Seq<InterfaceCounters>) -> Seq<u64> {
    s.map_values(|c: InterfaceCounters| c.transmitted_bytes)
}

impl SampleState {
    /// The state before any sample: both totals read as zero.
    pub fn new() -> (r: SampleState)
        ensures
            r.previous_received_bytes == 0,
            r.previous_transmitted_bytes == 0,
    {
        SampleState { previous_received_bytes: 0, previous_transmitted_bytes: 0 }
    }
}

/// Computes this tick's metrics against the totals of the last tick, then keeps
/// this tick's totals for the next one.
pub fn tick(state: &mut SampleState, raw: &RawSample) -> (m: DisplayMetrics)
    ensures
        m.cpu_hundredths == raw.cpu_usage_hundredths,
        m.memory_hundredths == memory_hundredths_of(raw.used_memory_bytes, raw.total_memory_bytes),
        m.download_rate_bytes_per_tick == saturating_delta(
            raw.total_received_bytes,
            old(state).previous_received_bytes,
        ),
        m.upload_rate_bytes_per_tick == saturating_delta(
            raw.total_transmitted_bytes,
            old(state).previous_transmitted_bytes,
        ),
        final(state).previous_received_bytes == raw.total_received_bytes,
        final(state).previous_transmitted_bytes == raw.total_transmitted_bytes,
{
    let download = raw.total_received_bytes.saturating_sub(state.previous_received_bytes);
    let upload = raw.total_transmitted_bytes.saturating_sub(state.previous_transmitted_bytes);
    state.previous_received_bytes = raw.total_received_bytes;
    state.previous_transmitted_bytes = raw.total_transmitted_bytes;
    let memory = memory_hundredths(raw.used_memory_bytes, raw.total_memory_bytes);
    DisplayMetrics {
        cpu_hundredths: raw.cpu_usage_hundredths,
        memory_hundredths: memory,
        download_rate_bytes_per_tick: download,
        upload_rate_bytes_per_tick: upload,
    }
}

/// Used memory over total memory in hundredths of a percent, rounded down;
/// zero when the total is zero.
pub fn memory_hundredths(used: u64, total: u64) -> (r: u128)
    ensures
        r == memory_hundredths_of(used, total),
{
    if total == 0 {
        0
    } else {
        assert(used * 10000 <= u64::MAX * 10000) by (nonlinear_arith);
        (used as u128) * 10000 / (total as u128)
    }
}

/// Sums the counters of all interfaces, each total stopping at the largest `u64`.
pub fn total_counters(interfaces: &Vec<InterfaceCounters>) -> (r: (u64, u64))
    ensures
        r.0 == saturated(counter_sum(received_of(interfaces@))),
        r.1 == saturated(counter_sum(transmitted_of(interfaces@))),
{
    let mut rx: u64 = 0;
    let mut tx: u64 = 0;
    let mut i: usize = 0;
    while i < interfaces.len()
        invariant
            i <= interfaces@.len(),
            rx == saturated(counter_sum(received_of(interfaces@.take(i as int)))),
            tx == saturated(counter_sum(transmitted_of(interfaces@.take(i as int)))),
        decreases interfaces@.len() - i,
    {
        let c = &interfaces[i];
        proof {
            let next = interfaces@.take(i + 1);
            assert(received_of(next).drop_last() =~= received_of(interfaces@.take(i as int)));
            assert(transmitted_of(next).drop_last() =~= transmitted_of(
                interfaces@.take(i as int),
            ));
            lemma_counter_sum_nonneg(received_of(interfaces@.take(i as int)));
            lemma_counter_sum_nonneg(transmitted_of(interfaces@.take(i as int)));
        }
        rx = rx.saturating_add(c.received_bytes);
        tx = tx.saturating_add(c.transmitted_bytes);
        i = i + 1;
    }
    assert(interfaces@.take(interfaces@.len() as int) =~= interfaces@);
    (rx, tx)
}

proof fn lemma_counter_sum_nonneg(s: Seq<u64>)
    ensures
        counter_sum(s) >= 0,
    decreases s.len(),
{
    if s.len() > 0 {
        lemma_counter_sum_nonneg(s.drop_last());
    }
}

/// While a counter grows, its rate is exactly how much it grew.
pub proof fn lemma_rate_when_counter_grows(now: u64, before: u64)
    requires
        now >= before,
    ensures
        saturating_delta(now, before) == now - before,
{
}

/// When a counter goes back (it was reset), its rate is zero, never a wrapped value.
pub proof fn lemma_rate_when_counter_resets(now: u64, before: u64)
    requires
        now < before,
    ensures
        saturating_delta(now, before) == 0,
{
}

} // verus!
