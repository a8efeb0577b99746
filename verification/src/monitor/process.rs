//! Process records and the leaderboards built over them.
//!
//! The top-processes and top-cores queries are instances of the top-k
//! selector: each element is scored (CPU usage in tenths of a percent, or
//! memory in bytes) under its index as key, the selector picks and orders
//! the keys, and the records are read back by key.

use vstd::prelude::*;
use crate::monitor::cpu::CoreInfo;
use crate::topk::Scored;
use crate::topk::top_k;
use crate::topk::top_k_spec;
use crate::topk::lemma_top_k_membership;

verus! {

/// One running process: name, process id, CPU usage in tenths of a
/// percent, and resident memory in bytes.
#[derive(Debug)]
pub struct ProcessInfo {
    pub name: String,
    pub pid: u32,
    pub cpu_usage_tenths: u32,
    pub memory_bytes: u64,
}

/// The mathematical value of a process record.
#[verifier::ext_equal]
pub struct ProcessInfoV {
    pub name: Seq<char>,
    pub pid: u32,
    pub cpu_usage_tenths: u32,
    pub memory_bytes: u64,
}

impl View for ProcessInfo {
    type V = ProcessInfoV;

    open spec fn view(&self) -> ProcessInfoV {
        ProcessInfoV {
            name: self.name@,
            pid: self.pid,
            cpu_usage_tenths: self.cpu_usage_tenths,
            memory_bytes: self.memory_bytes,
        }
    }
}

impl Clone for ProcessInfo {
    /// An equal record: same name, same numbers.
    fn clone(&self) -> (r: Self)
        ensures
            r@ == self@,
    {
        ProcessInfo {
            name: self.name.clone(),
            pid: self.pid,
            cpu_usage_tenths: self.cpu_usage_tenths,
            memory_bytes: self.memory_bytes,
        }
    }
}

impl ProcessInfo {
    /// Put together a process record from its four values.
    pub fn new(name: String, pid: u32, cpu_usage_tenths: u32, memory_bytes: u64) -> (r: Self)
        ensures
            r@ == (ProcessInfoV { name: name@, pid, cpu_usage_tenths, memory_bytes }),
    {
        ProcessInfo { name, pid, cpu_usage_tenths, memory_bytes }
    }
}

/// Each process scored by CPU usage, keyed by its index.
pub open spec fn cpu_scores(s: Seq<ProcessInfoV>) -> Seq<Scored> {
    Seq::new(s.len(), |i: int| Scored { key: i as u64, score: s[i].cpu_usage_tenths as u64 })
}

/// Each process scored by resident memory, keyed by its index.
pub open spec fn memory_scores(s: Seq<ProcessInfoV>) -> Seq<Scored> {
    Seq::new(s.len(), |i: int| Scored { key: i as u64, score: s[i].memory_bytes })
}

/// Each core scored by its usage, keyed by its position in the list.
pub open spec fn core_scores(s: Seq<CoreInfo>) -> Seq<Scored> {
    Seq::new(s.len(), |i: int| Scored { key: i as u64, score: s[i].usage_tenths as u64 })
}

/// The views of a sequence of process records.
pub open spec fn process_views(s: Seq<ProcessInfo>) -> Seq<ProcessInfoV> {
    s.map_values(|p: ProcessInfo| p@)
}

/// The records selected by a sequence of scored keys.
pub open spec fn selected_processes(s: Seq<ProcessInfoV>, pairs: Seq<Scored>) -> Seq<ProcessInfoV> {
    pairs.map_values(|x: Scored| s[x.key as int])
}

proof fn lemma_scored_keys_in_range(scores: Seq<Scored>, k: int)
    requires
        0 <= k,
        forall|i: int| 0 <= i < scores.len() ==> (#[trigger] scores[i]).key == i as u64,
        scores.len() <= u64::MAX,
    ensures
        forall|j: int|
            0 <= j < top_k_spec(scores, k).len() ==> (#[trigger] top_k_spec(scores, k)[j]).key
                < scores.len(),
{
    assert forall|j: int| 0 <= j < top_k_spec(scores, k).len() implies (#[trigger] top_k_spec(
        scores,
        k,
    )[j]).key < scores.len() by {
        lemma_top_k_membership(scores, k, j);
        let x = top_k_spec(scores, k)[j];
        let i = choose|i: int| 0 <= i < scores.len() && scores[i] == x;
        assert(x.key == i as u64);
    }
}

fn select_by_pairs(processes: &Vec<ProcessInfo>, pairs: &Vec<Scored>) -> (r: Vec<ProcessInfo>)
    requires
        forall|t: int| 0 <= t < pairs@.len() ==> (#[trigger] pairs@[t]).key < processes@.len(),
    ensures
        process_views(r@) == selected_processes(process_views(processes@), pairs@),
{
    let mut r: Vec<ProcessInfo> = Vec::new();
    let mut j: usize = 0;
    #[verifier::loop_isolation(false)]
    while j < pairs.len()
        invariant
            j <= pairs@.len(),
            r@.len() == j,
            forall|t: int| 0 <= t < j ==> (#[trigger] r@[t])@ == processes@[pairs@[t].key as int]@,
        decreases pairs@.len() - j,
    {
        let key = pairs[j].key;
        proof {
            vstd::std_specs::vec::axiom_spec_len(processes);
            assert(pairs@[j as int].key < processes@.len());
        }
        r.push(processes[key as usize].clone());
        j = j + 1;
        proof {
            assert(r@[j as int - 1]@ == processes@[pairs@[j as int - 1].key as int]@);
        }
    }
    proof {
        assert(process_views(r@) =~= selected_processes(process_views(processes@), pairs@));
    }
    r
}

/// The top `min(n, len)` processes by CPU usage, descending, ties keeping
/// their original order. The caller's vector is read, never changed.
pub fn get_top_processes_by_cpu(processes: &Vec<ProcessInfo>, n: usize) -> (r: Vec<ProcessInfo>)
    ensures
        process_views(r@) == selected_processes(
            process_views(processes@),
            top_k_spec(cpu_scores(process_views(processes@)), n as int),
        ),
        r@.len() == if n <= processes@.len() {
            n as int
        } else {
            processes@.len() as int
        },
{
    let ghost scores = cpu_scores(process_views(processes@));
    let mut scored: Vec<Scored> = Vec::new();
    let mut i: usize = 0;
    #[verifier::loop_isolation(false)]
    while i < processes.len()
        invariant
            i <= processes@.len(),
            scored@ =~= scores.take(i as int),
        decreases processes@.len() - i,
    {
        scored.push(Scored { key: i as u64, score: processes[i].cpu_usage_tenths as u64 });
        i = i + 1;
        proof {
            assert(scored@ =~= scores.take(i as int));
        }
    }
    proof {
        assert(scored@ =~= scores);
    }
    let pairs = top_k(&scored, n);
    proof {
        lemma_scored_keys_in_range(scores, n as int);
        crate::topk::lemma_sort_desc_len(scores);
    }
    let out = select_by_pairs(processes, &pairs);
    proof {
        assert(process_views(out@).len() == out@.len());
        assert(selected_processes(process_views(processes@), pairs@).len() == pairs@.len());
    }
    out
}

/// The top `min(n, len)` processes by resident memory, descending, ties
/// keeping their original order. The caller's vector is read, never
/// changed.
pub fn get_top_processes_by_memory(processes: &Vec<ProcessInfo>, n: usize) -> (r: Vec<ProcessInfo>)
    ensures
        process_views(r@) == selected_processes(
            process_views(processes@),
            top_k_spec(memory_scores(process_views(processes@)), n as int),
        ),
        r@.len() == if n <= processes@.len() {
            n as int
        } else {
            processes@.len() as int
        },
{
    let ghost scores = memory_scores(process_views(processes@));
    let mut scored: Vec<Scored> = Vec::new();
    let mut i: usize = 0;
    #[verifier::loop_isolation(false)]
    while i < processes.len()
        invariant
            i <= processes@.len(),
            scored@ =~= scores.take(i as int),
        decreases processes@.len() - i,
    {
        scored.push(Scored { key: i as u64, score: processes[i].memory_bytes });
        i = i + 1;
        proof {
            assert(scored@ =~= scores.take(i as int));
        }
    }
    proof {
        assert(scored@ =~= scores);
    }
    let pairs = top_k(&scored, n);
    proof {
        lemma_scored_keys_in_range(scores, n as int);
        crate::topk::lemma_sort_desc_len(scores);
    }
    let out = select_by_pairs(processes, &pairs);
    proof {
        assert(process_views(out@).len() == out@.len());
        assert(selected_processes(process_views(processes@), pairs@).len() == pairs@.len());
    }
    out
}

/// The top `min(n, len)` busiest cores, descending by usage, ties keeping
/// their original order. The caller's vector is read, never changed.
pub fn get_top_cores(cores: &Vec<CoreInfo>, n: usize) -> (r: Vec<CoreInfo>)
    ensures
        r@ == top_k_spec(core_scores(cores@), n as int).map_values(
            |x: Scored| cores@[x.key as int],
        ),
        r@.len() == if n <= cores@.len() {
            n as int
        } else {
            cores@.len() as int
        },
{
    let ghost scores = core_scores(cores@);
    let mut scored: Vec<Scored> = Vec::new();
    let mut i: usize = 0;
    #[verifier::loop_isolation(false)]
    while i < cores.len()
        invariant
            i <= cores@.len(),
            scored@ =~= scores.take(i as int),
        decreases cores@.len() - i,
    {
        scored.push(Scored { key: i as u64, score: cores[i].usage_tenths as u64 });
        i = i + 1;
        proof {
            assert(scored@ =~= scores.take(i as int));
        }
    }
    proof {
        assert(scored@ =~= scores);
    }
    let pairs = top_k(&scored, n);
    proof {
        lemma_scored_keys_in_range(scores, n as int);
        crate::topk::lemma_sort_desc_len(scores);
    }
    let mut r: Vec<CoreInfo> = Vec::new();
    let mut j: usize = 0;
    #[verifier::loop_isolation(false)]
    while j < pairs.len()
        invariant
            j <= pairs@.len(),
            r@.len() == j,
            forall|t: int| 0 <= t < j ==> r@[t] == cores@[pairs@[t].key as int],
        decreases pairs@.len() - j,
    {
        let key = pairs[j].key;
        r.push(cores[key as usize]);
        j = j + 1;
    }
    proof {
        assert(r@ =~= top_k_spec(scores, n as int).map_values(|x: Scored| cores@[x.key as int]));
    }
    r
}

} // verus!
