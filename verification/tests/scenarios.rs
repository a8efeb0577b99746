use sysmon::cli::Args;
use sysmon::display::formatter::uptime_parts;
use sysmon::monitor::cpu::CoreInfo;
use sysmon::monitor::cpu::CpuInfo;
use sysmon::monitor::memory::MemoryInfo;
use sysmon::monitor::process::ProcessInfo;
use sysmon::monitor::system::Snapshot;
use sysmon::monitor::system::SystemMonitor;
use sysmon::refresh::Action;
use sysmon::refresh::LoopState;
use sysmon::refresh::Phase;
use sysmon::refresh::advance;
use sysmon::refresh::loop_init;

fn stub_snapshot() -> Snapshot {
    // A stub provider's reading: CPU 42.5%, memory 8 of 16 GiB, uptime
    // 90061 seconds.
    Snapshot {
        timestamp_ms: 1_000,
        cpu: CpuInfo::new(
            425,
            vec![
                CoreInfo { index: 0, usage_tenths: 425 },
                CoreInfo { index: 1, usage_tenths: 425 },
            ],
        ),
        memory: MemoryInfo::new(16 * 1_073_741_824, 8 * 1_073_741_824),
        disks: vec![],
        total_received: 0,
        total_transmitted: 0,
        processes: vec![ProcessInfo::new("init".to_string(), 1, 1, 1_000_000)],
        uptime_secs: 90_061,
    }
}

/// Drive the state machine as the real loop would, with the cancellation
/// flag switched by an observation count, and a cap on turns in case the
/// machine misbehaves. Returns how many renders the machine counted and
/// how many Render actions the driver saw.
fn drive(cfg: &Args, cancel_from_observation: Option<u64>) -> (LoopState, u64) {
    let mut st = loop_init();
    let mut observations: u64 = 0;
    let mut renders_seen: u64 = 0;
    for _ in 0..1_000 {
        let cancelled = match cancel_from_observation {
            Some(from) => observations >= from,
            None => false,
        };
        observations += 1;
        let (next, action) = advance(&st, cfg, cancelled);
        st = next;
        match action {
            Action::Render => renders_seen += 1,
            Action::Finish => return (st, renders_seen),
            _ => {},
        }
    }
    (st, renders_seen)
}

#[test]
fn test_scenario_single_shot() {
    // Single-shot run over a stub snapshot: one sampling pass, one
    // render, then termination with no waiting.
    let cfg = Args { watch: false, interval: 1, detailed: false };
    let mut monitor = SystemMonitor::new();

    let mut st = loop_init();
    let (next, action) = advance(&st, &cfg, false);
    st = next;
    assert_eq!(st.phase, Phase::Sampling);
    assert_eq!(action, Action::Sample);

    let snapshot = stub_snapshot();
    let report = monitor.enrich(&snapshot, &cfg);
    assert_eq!(report.network.download_speed, 0);
    assert_eq!(report.top_cores.len(), 2);
    assert_eq!(report.top_by_cpu.len(), 1);

    let (next, action) = advance(&st, &cfg, false);
    st = next;
    assert_eq!(st.phase, Phase::Rendering);
    assert_eq!(action, Action::Render);

    // The rendered uptime line for 90061 seconds.
    let (days, hours, minutes) = uptime_parts(snapshot.uptime_secs);
    let line = format!("{} days, {} hours, {} minutes", days, hours, minutes);
    assert_eq!(line, "1 days, 1 hours, 1 minutes");
    // And the memory figure it draws from.
    assert_eq!(snapshot.memory.percentage(), 50);

    let (next, action) = advance(&st, &cfg, false);
    st = next;
    assert_eq!(st.phase, Phase::Terminated);
    assert_eq!(action, Action::Finish);
    assert_eq!(st.renders, 1);
}

#[test]
fn test_scenario_cancel_before_first_sample() {
    // Continuous mode, interval one second, cancellation set before the
    // first sampling step: the loop terminates having rendered zero
    // times.
    let cfg = Args { watch: true, interval: 1, detailed: false };
    let (st, renders_seen) = drive(&cfg, Some(0));
    assert_eq!(st.phase, Phase::Terminated);
    assert_eq!(st.renders, 0);
    assert_eq!(renders_seen, 0);
}

#[test]
fn test_scenario_cancel_during_wait() {
    // Continuous mode, cancellation set during the wait after one
    // successful render: exactly one render, then termination on the
    // next polling tick.
    let cfg = Args { watch: true, interval: 1, detailed: false };
    // Observations: idle check, sampling, rendering, first wait tick,
    // then the flag is up.
    let (st, renders_seen) = drive(&cfg, Some(4));
    assert_eq!(st.phase, Phase::Terminated);
    assert_eq!(st.renders, 1);
    assert_eq!(renders_seen, 1);
}

#[test]
fn test_wait_ticks_count_out_the_interval() {
    // Never cancelled: after a render in watch mode the machine sleeps
    // interval * 10 ticks of 100 ms, then samples again.
    let cfg = Args { watch: true, interval: 2, detailed: false };
    let mut st = loop_init();
    let mut actions: Vec<Action> = vec![];
    for _ in 0..40 {
        let (next, action) = advance(&st, &cfg, false);
        st = next;
        actions.push(action);
        if st.phase == Phase::Idle {
            break;
        }
    }
    let sleeps = actions.iter().filter(|a| **a == Action::SleepTick).count();
    assert_eq!(sleeps, 20);
    assert_eq!(st.phase, Phase::Idle);
    assert_eq!(st.renders, 1);
}

#[test]
fn test_enrich_computes_rates_across_passes() {
    let cfg = Args { watch: true, interval: 1, detailed: true };
    let mut monitor = SystemMonitor::new();
    let mut first = stub_snapshot();
    first.total_received = 1_000;
    first.total_transmitted = 0;
    let report = monitor.enrich(&first, &cfg);
    assert_eq!(report.network.download_speed, 0);

    let mut second = stub_snapshot();
    second.timestamp_ms = 2_000;
    second.total_received = 2_500;
    second.total_transmitted = 3_000;
    let report = monitor.enrich(&second, &cfg);
    assert_eq!(report.network.download_speed, 1_500);
    assert_eq!(report.network.upload_speed, 3_000);
    assert_eq!(report.network.total_received, 2_500);
}

#[test]
fn test_enrich_sizes_leaderboards_by_detail_flag() {
    let mut procs = vec![];
    for i in 0..12u32 {
        procs.push(ProcessInfo::new(format!("p{}", i), i, i * 10, (i as u64) * 1_000));
    }
    let mut snapshot = stub_snapshot();
    snapshot.processes = procs;

    let compact = Args { watch: false, interval: 1, detailed: false };
    let mut monitor = SystemMonitor::new();
    let report = monitor.enrich(&snapshot, &compact);
    assert_eq!(report.top_by_cpu.len(), 5);
    assert_eq!(report.top_by_memory.len(), 3);
    assert_eq!(report.top_by_cpu[0].name, "p11");

    let detailed = Args { watch: false, interval: 1, detailed: true };
    let mut monitor = SystemMonitor::new();
    let report = monitor.enrich(&snapshot, &detailed);
    assert_eq!(report.top_by_cpu.len(), 10);
    assert_eq!(report.top_by_memory.len(), 5);
}
