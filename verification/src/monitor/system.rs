//! The monitor's retained state and the network rate calculator.
//!
//! Across refreshes the monitor keeps exactly one thing: the timestamp and
//! cumulative byte counters of the most recent observation. Each new
//! observation turns the two into throughput rates and unconditionally
//! replaces the retained sample, so no delta can be observed twice.

use vstd::prelude::*;
use crate::cli::Args;
use crate::display::formatter::process_cpu_count;
use crate::display::formatter::process_memory_count;
use crate::monitor::cpu::CoreInfo;
use crate::monitor::cpu::CpuInfo;
use crate::monitor::disk::DiskInfo;
use crate::monitor::memory::MemoryInfo;
use crate::monitor::network::NetworkInfo;
use crate::monitor::process::ProcessInfo;
use crate::monitor::process::core_scores;
use crate::monitor::process::cpu_scores;
use crate::monitor::process::memory_scores;
use crate::monitor::process::process_views;
use crate::monitor::process::selected_processes;
use crate::monitor::process::get_top_cores;
use crate::monitor::process::get_top_processes_by_cpu;
use crate::monitor::process::get_top_processes_by_memory;
use crate::topk::Scored;
use crate::topk::top_k_spec;
use vstd::arithmetic::div_mod::lemma_div_multiples_vanish_quotient;
use vstd::arithmetic::div_mod::lemma_div_nonincreasing;

verus! {

/// One observation of the cumulative network counters: a timestamp in
/// milliseconds and the received and transmitted byte totals.
#[derive(Clone, Copy, Debug, PartialEq, Eq, Structural)]
pub struct RateSample {
    pub timestamp_ms: u64,
    pub received: u64,
    pub transmitted: u64,
}

/// Throughput in whole bytes per second from two cumulative counter values
/// and the elapsed milliseconds between them: zero when no time has passed
/// (or the clock went backwards), zero when the counter moved backwards (a
/// counter reset), otherwise the floor of `delta * 1000 / elapsed_ms`,
/// saturated at `u64::MAX`.
pub open spec fn rate_value(prev_count: u64, new_count: u64, elapsed_ms: int) -> int {
    if elapsed_ms <= 0 {
        0
    } else if new_count < prev_count {
        0
    } else if (new_count - prev_count) * 1000 / elapsed_ms > u64::MAX {
        u64::MAX as int
    } else {
        (new_count - prev_count) * 1000 / elapsed_ms
    }
}

/// The download rate a new observation yields against the retained sample;
/// the first-ever observation yields zero.
pub open spec fn download_rate_spec(prev: Option<RateSample>, now: RateSample) -> int {
    match prev {
        None => 0,
        Some(p) => rate_value(p.received, now.received, now.timestamp_ms - p.timestamp_ms),
    }
}

/// The upload rate a new observation yields against the retained sample;
/// the first-ever observation yields zero.
pub open spec fn upload_rate_spec(prev: Option<RateSample>, now: RateSample) -> int {
    match prev {
        None => 0,
        Some(p) => rate_value(p.transmitted, now.transmitted, now.timestamp_ms - p.timestamp_ms),
    }
}

/// Compute one direction's rate in whole bytes per second.
pub fn rate_from(prev_count: u64, new_count: u64, prev_ms: u64, now_ms: u64) -> (r: u64)
    ensures
        r == rate_value(prev_count, new_count, now_ms - prev_ms),
{
    if now_ms <= prev_ms {
        0
    } else if new_count < prev_count {
        0
    } else {
        let elapsed: u64 = now_ms - prev_ms;
        let delta: u64 = new_count - prev_count;
        let scaled: u128 = (delta as u128) * 1000 / (elapsed as u128);
        if scaled > u64::MAX as u128 {
            u64::MAX
        } else {
            scaled as u64
        }
    }
}

/// The monitor's retained state: the sample kept from the most recent
/// observation, `None` before the first.
#[derive(Clone, Copy, Debug)]
pub struct SystemMonitor {
    pub last_network_check: Option<RateSample>,
}

impl SystemMonitor {
    /// A monitor that has not observed the counters yet.
    pub fn new() -> (r: Self)
        ensures
            r.last_network_check.is_none(),
    {
        SystemMonitor { last_network_check: None }
    }

    /// The rate-calculator step: turn a new counter observation into
    /// download and upload rates against the retained sample, and retain
    /// the new observation - on every path, so a caller can never observe
    /// the same delta twice.
    pub fn network_info(&mut self, now: RateSample) -> (r: NetworkInfo)
        ensures
            final(self).last_network_check == Some(now),
            r.total_received == now.received,
            r.total_transmitted == now.transmitted,
            r.download_speed == download_rate_spec(old(self).last_network_check, now),
            r.upload_speed == upload_rate_spec(old(self).last_network_check, now),
    {
        let down: u64;
        let up: u64;
        match self.last_network_check {
            None => {
                down = 0;
                up = 0;
            },
            Some(p) => {
                down = rate_from(p.received, now.received, p.timestamp_ms, now.timestamp_ms);
                up = rate_from(p.transmitted, now.transmitted, p.timestamp_ms, now.timestamp_ms);
            },
        }
        self.last_network_check = Some(now);
        NetworkInfo::new(down, up, now.received, now.transmitted)
    }
}

impl Default for SystemMonitor {
    /// The same state as `new`: nothing observed yet.
    fn default() -> (r: Self)
        ensures
            r.last_network_check.is_none(),
    {
        SystemMonitor { last_network_check: None }
    }
}

/// One snapshot of the machine, captured at one instant and never
/// mutated: the per-core and aggregate CPU readings, the memory and disk
/// totals, the raw cumulative network counters, the process list and the
/// uptime, together with the capture timestamp in milliseconds.
#[derive(Debug)]
pub struct Snapshot {
    pub timestamp_ms: u64,
    pub cpu: CpuInfo,
    pub memory: MemoryInfo,
    pub disks: Vec<DiskInfo>,
    pub total_received: u64,
    pub total_transmitted: u64,
    pub processes: Vec<ProcessInfo>,
    pub uptime_secs: u64,
}

/// The sample a snapshot contributes to the rate calculator.
pub open spec fn sample_of(s: &Snapshot) -> RateSample {
    RateSample {
        timestamp_ms: s.timestamp_ms,
        received: s.total_received,
        transmitted: s.total_transmitted,
    }
}

/// What one sampling pass adds to a snapshot: the network rates computed
/// against the retained state, and the three leaderboards.
#[derive(Debug)]
pub struct Report {
    pub network: NetworkInfo,
    pub top_cores: Vec<CoreInfo>,
    pub top_by_cpu: Vec<ProcessInfo>,
    pub top_by_memory: Vec<ProcessInfo>,
}

impl SystemMonitor {
    /// The sampling pass over a fresh snapshot: feed the raw counters to
    /// the rate calculator (retaining the new sample), and select the
    /// three busiest cores and the top processes by CPU and by memory,
    /// the process leaderboards sized by the detail flag.
    pub fn enrich(&mut self, snapshot: &Snapshot, cfg: &Args) -> (r: Report)
        ensures
            final(self).last_network_check == Some(sample_of(snapshot)),
            r.network.download_speed == download_rate_spec(
                old(self).last_network_check,
                sample_of(snapshot),
            ),
            r.network.upload_speed == upload_rate_spec(
                old(self).last_network_check,
                sample_of(snapshot),
            ),
            r.network.total_received == snapshot.total_received,
            r.network.total_transmitted == snapshot.total_transmitted,
            r.top_cores@ == top_k_spec(core_scores(snapshot.cpu.cores@), 3).map_values(
                |x: Scored| snapshot.cpu.cores@[x.key as int],
            ),
            process_views(r.top_by_cpu@) == selected_processes(
                process_views(snapshot.processes@),
                top_k_spec(
                    cpu_scores(process_views(snapshot.processes@)),
                    if cfg.detailed {
                        10int
                    } else {
                        5int
                    },
                ),
            ),
            process_views(r.top_by_memory@) == selected_processes(
                process_views(snapshot.processes@),
                top_k_spec(
                    memory_scores(process_views(snapshot.processes@)),
                    if cfg.detailed {
                        5int
                    } else {
                        3int
                    },
                ),
            ),
    {
        let sample = RateSample {
            timestamp_ms: snapshot.timestamp_ms,
            received: snapshot.total_received,
            transmitted: snapshot.total_transmitted,
        };
        let network = self.network_info(sample);
        let top_cores = get_top_cores(&snapshot.cpu.cores, 3);
        let top_by_cpu = get_top_processes_by_cpu(
            &snapshot.processes,
            process_cpu_count(cfg.detailed),
        );
        let top_by_memory = get_top_processes_by_memory(
            &snapshot.processes,
            process_memory_count(cfg.detailed),
        );
        Report { network, top_cores, top_by_cpu, top_by_memory }
    }
}

/// Law: over a whole number of seconds with a counter that did not move
/// backwards, the rate is exactly the counter delta divided by the elapsed
/// seconds, rounded down.
pub proof fn lemma_rate_whole_seconds(prev_count: u64, new_count: u64, e: u64)
    requires
        1 <= e,
        prev_count <= new_count,
    ensures
        rate_value(prev_count, new_count, e * 1000) == (new_count - prev_count) / (e as int),
{
    let delta = new_count - prev_count;
    lemma_div_multiples_vanish_quotient(1000, delta, e as int);
    lemma_div_nonincreasing(delta, e as int);
}

/// Law: a counter reset (the new counter below the previous one) yields a
/// zero rate; a rate is never negative.
pub proof fn lemma_counter_reset(prev_count: u64, new_count: u64, elapsed_ms: int)
    requires
        new_count < prev_count,
    ensures
        rate_value(prev_count, new_count, elapsed_ms) == 0,
        rate_value(prev_count, new_count, elapsed_ms) >= 0,
{
}

/// Law: the first-ever observation yields zero rates, whatever the
/// counters hold.
pub proof fn lemma_first_observation(now: RateSample)
    ensures
        download_rate_spec(None, now) == 0,
        upload_rate_spec(None, now) == 0,
{
}

/// Law: elapsed time at or below zero yields zero rates.
pub proof fn lemma_no_elapsed(prev: RateSample, now: RateSample)
    requires
        now.timestamp_ms <= prev.timestamp_ms,
    ensures
        download_rate_spec(Some(prev), now) == 0,
        upload_rate_spec(Some(prev), now) == 0,
{
}

/// Law: a rate is never negative and never above `u64::MAX`.
pub proof fn lemma_rate_bounds(prev_count: u64, new_count: u64, elapsed_ms: int)
    ensures
        0 <= rate_value(prev_count, new_count, elapsed_ms) <= u64::MAX,
{
    if elapsed_ms > 0 && new_count >= prev_count {
        vstd::arithmetic::div_mod::lemma_div_pos_is_pos((new_count - prev_count) * 1000, elapsed_ms);
    }
}

} // verus!
