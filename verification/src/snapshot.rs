//! Immutable telemetry snapshots.
//!
//! A snapshot is a value object built once per sampling tick: it bundles
//! deep copies of every rolling series of one subsystem together with the
//! current scalar totals, carries them across the thread boundary in
//! persistent vectors, and is never mutated once published.

use vstd::prelude::*;

use crate::history::DEPTH_LIMIT;
use crate::history::HistorySeries;
use crate::imvec::im_get;
use crate::imvec::im_len;
use crate::imvec::im_new;
use crate::imvec::im_push_back;
use crate::imvec::im_seq;
use crate::imvec::im_values;
use crate::units::all_in_range;
use crate::units::all_percent;

verus! {

/// Deep-copy a working buffer into a fresh persistent series.
pub(crate) fn to_persistent(h: &HistorySeries) -> (v: im::Vector<u64>)
    ensures
        im_seq(v) == h@,
{
    let n = h.len();
    let mut v = im_new();
    let mut i: usize = 0;
    while i < n
        invariant
            n == h@.len(),
            i <= n,
            im_seq(v) == h@.take(i as int),
        decreases n - i,
    {
        let s = h.get(i);
        im_push_back(&mut v, s);
        proof {
            assert(h@.take(i + 1 as int) =~= h@.take(i as int).push(h@[i as int]));
        }
        i = i + 1;
    }
    proof {
        assert(h@.take(n as int) =~= h@);
    }
    v
}

/// One CPU/memory snapshot: per-core, average and memory series plus the
/// current memory totals in bytes.
#[derive(Clone)]
pub struct CpuSnapshot {
    pub(crate) per_core_history: Vec<im::Vector<u64>>,
    pub(crate) average_history: im::Vector<u64>,
    pub(crate) memory_used_history: im::Vector<u64>,
    pub used_memory_bytes: u64,
    pub total_memory_bytes: u64,
}

impl CpuSnapshot {
    /// The per-core series, one window of samples per detected core.
    pub closed spec fn per_core_view(&self) -> Seq<Seq<u64>> {
        self.per_core_history@.map(|i: int, v: im::Vector<u64>| im_seq(v))
    }

    /// The averaged-utilization series.
    pub closed spec fn average_view(&self) -> Seq<u64> {
        im_seq(self.average_history)
    }

    /// The memory-usage percentage series.
    pub closed spec fn memory_view(&self) -> Seq<u64> {
        im_seq(self.memory_used_history)
    }

    /// Number of cores the snapshot covers; fixed for the process lifetime.
    pub open spec fn core_count(&self) -> nat {
        self.per_core_view().len()
    }

    /// The common depth of every series in the snapshot.
    pub open spec fn depth(&self) -> nat {
        self.average_view().len()
    }

    /// The current used-memory reading, in bytes.
    pub closed spec fn used_bytes(&self) -> u64 {
        self.used_memory_bytes
    }

    /// The current total-memory reading, in bytes.
    pub closed spec fn total_bytes(&self) -> u64 {
        self.total_memory_bytes
    }

    /// Well-formed: at least one core, every series of the same depth of
    /// at least two samples, and every sample a clamped percentage.
    pub open spec fn wf(&self) -> bool {
        &&& 1 <= self.core_count()
        &&& 2 <= self.depth() <= DEPTH_LIMIT
        &&& forall|i: int|
            0 <= i < self.core_count() ==> (#[trigger] self.per_core_view()[i]).len()
                == self.depth()
        &&& forall|i: int| 0 <= i < self.core_count() ==> all_percent(#[trigger] self.per_core_view()[i])
        &&& all_percent(self.average_view())
        &&& self.memory_view().len() == self.depth()
        &&& all_percent(self.memory_view())
    }

    /// How many cores the snapshot covers.
    pub fn cores(&self) -> (n: usize)
        ensures
            n == self.core_count(),
    {
        self.per_core_history.len()
    }

    /// The common depth of the series.
    pub fn len(&self) -> (n: usize)
        ensures
            n == self.depth(),
    {
        im_len(&self.average_history)
    }

    /// The samples of core `i`, oldest first.
    pub fn core_values(&self, i: usize) -> (r: Vec<u64>)
        requires
            i < self.core_count(),
        ensures
            r@ == self.per_core_view()[i as int],
    {
        im_values(&self.per_core_history[i])
    }

    /// The averaged-utilization samples, oldest first.
    pub fn average_values(&self) -> (r: Vec<u64>)
        ensures
            r@ == self.average_view(),
    {
        im_values(&self.average_history)
    }

    /// The memory-percentage samples, oldest first.
    pub fn memory_values(&self) -> (r: Vec<u64>)
        ensures
            r@ == self.memory_view(),
    {
        im_values(&self.memory_used_history)
    }

    /// Deep-copy a sampler's working buffers into a fresh snapshot.
    pub(crate) fn build(
        per_core: &Vec<HistorySeries>,
        average: &HistorySeries,
        memory: &HistorySeries,
        used_memory_bytes: u64,
        total_memory_bytes: u64,
    ) -> (snap: CpuSnapshot)
        ensures
            snap.core_count() == per_core@.len(),
            forall|i: int|
                0 <= i < per_core@.len() ==> #[trigger] snap.per_core_view()[i] == per_core@[i]@,
            snap.average_view() == average@,
            snap.memory_view() == memory@,
            snap.used_bytes() == used_memory_bytes,
            snap.total_bytes() == total_memory_bytes,
    {
        let mut per_core_history: Vec<im::Vector<u64>> = Vec::new();
        let mut i: usize = 0;
        while i < per_core.len()
            invariant
                i <= per_core@.len(),
                per_core_history@.len() == i,
                forall|j: int|
                    0 <= j < i ==> im_seq(#[trigger] per_core_history@[j]) == per_core@[j]@,
            decreases per_core@.len() - i,
        {
            per_core_history.push(to_persistent(&per_core[i]));
            i = i + 1;
        }
        let snap = CpuSnapshot {
            per_core_history,
            average_history: to_persistent(average),
            memory_used_history: to_persistent(memory),
            used_memory_bytes,
            total_memory_bytes,
        };
        proof {
            assert forall|i: int| 0 <= i < per_core@.len() implies #[trigger] snap.per_core_view()[i]
                == per_core@[i]@ by {
                assert(snap.per_core_view()[i] == im_seq(snap.per_core_history@[i]));
            }
        }
        snap
    }
}

/// One GPU snapshot: identity strings, temperature, per-fan and VRAM
/// series, plus the current VRAM totals in bytes.
#[derive(Clone)]
pub struct GpuSnapshot {
    pub brand: String,
    pub name: String,
    pub(crate) temperature_history: im::Vector<u64>,
    pub(crate) fan_speed_history: Vec<im::Vector<u64>>,
    pub(crate) vram_used_history: im::Vector<u64>,
    pub used_vram_bytes: u64,
    pub total_vram_bytes: u64,
}

impl GpuSnapshot {
    /// The temperature series, in milli-degrees Celsius.
    pub closed spec fn temperature_view(&self) -> Seq<u64> {
        im_seq(self.temperature_history)
    }

    /// The per-fan series, each a percentage of the maximum fan speed.
    pub closed spec fn fan_view(&self) -> Seq<Seq<u64>> {
        self.fan_speed_history@.map(|i: int, v: im::Vector<u64>| im_seq(v))
    }

    /// The VRAM-usage percentage series.
    pub closed spec fn vram_view(&self) -> Seq<u64> {
        im_seq(self.vram_used_history)
    }

    /// Number of fans the snapshot covers; fixed at discovery.
    pub open spec fn fan_count(&self) -> nat {
        self.fan_view().len()
    }

    /// The common depth of every series in the snapshot.
    pub open spec fn depth(&self) -> nat {
        self.temperature_view().len()
    }

    /// The adapter's brand string.
    pub closed spec fn brand_view(&self) -> Seq<char> {
        self.brand@
    }

    /// The adapter's product-name string.
    pub closed spec fn name_view(&self) -> Seq<char> {
        self.name@
    }

    /// The current used-VRAM reading, in bytes.
    pub closed spec fn used_bytes(&self) -> u64 {
        self.used_vram_bytes
    }

    /// The current total-VRAM reading, in bytes.
    pub closed spec fn total_bytes(&self) -> u64 {
        self.total_vram_bytes
    }

    /// Well-formed: every series of the same depth of at least two
    /// samples, fan and VRAM series clamped percentages, temperature
    /// within the sample limit.
    pub open spec fn wf(&self) -> bool {
        &&& 2 <= self.depth() <= DEPTH_LIMIT
        &&& all_in_range(self.temperature_view())
        &&& forall|i: int|
            0 <= i < self.fan_count() ==> (#[trigger] self.fan_view()[i]).len() == self.depth()
        &&& forall|i: int| 0 <= i < self.fan_count() ==> all_percent(#[trigger] self.fan_view()[i])
        &&& self.vram_view().len() == self.depth()
        &&& all_percent(self.vram_view())
    }

    /// How many fans the snapshot covers.
    pub fn fans(&self) -> (n: usize)
        ensures
            n == self.fan_count(),
    {
        self.fan_speed_history.len()
    }

    /// The common depth of the series.
    pub fn len(&self) -> (n: usize)
        ensures
            n == self.depth(),
    {
        im_len(&self.temperature_history)
    }

    /// The temperature samples, oldest first.
    pub fn temperature_values(&self) -> (r: Vec<u64>)
        ensures
            r@ == self.temperature_view(),
    {
        im_values(&self.temperature_history)
    }

    /// The samples of fan `i`, oldest first.
    pub fn fan_values(&self, i: usize) -> (r: Vec<u64>)
        requires
            i < self.fan_count(),
        ensures
            r@ == self.fan_view()[i as int],
    {
        im_values(&self.fan_speed_history[i])
    }

    /// The VRAM-percentage samples, oldest first.
    pub fn vram_values(&self) -> (r: Vec<u64>)
        ensures
            r@ == self.vram_view(),
    {
        im_values(&self.vram_used_history)
    }

    /// The newest VRAM-percentage sample.
    pub fn newest_vram(&self) -> (v: u64)
        requires
            self.vram_view().len() >= 1,
        ensures
            v == self.vram_view().last(),
    {
        let n = im_len(&self.vram_used_history);
        im_get(&self.vram_used_history, n - 1)
    }

    /// Deep-copy a sampler's working buffers into a fresh snapshot.
    pub(crate) fn build(
        brand: String,
        name: String,
        temperature: &HistorySeries,
        fans: &Vec<HistorySeries>,
        vram: &HistorySeries,
        used_vram_bytes: u64,
        total_vram_bytes: u64,
    ) -> (snap: GpuSnapshot)
        ensures
            snap.brand_view() == brand@,
            snap.name_view() == name@,
            snap.temperature_view() == temperature@,
            snap.fan_count() == fans@.len(),
            forall|i: int| 0 <= i < fans@.len() ==> #[trigger] snap.fan_view()[i] == fans@[i]@,
            snap.vram_view() == vram@,
            snap.used_bytes() == used_vram_bytes,
            snap.total_bytes() == total_vram_bytes,
    {
        let mut fan_speed_history: Vec<im::Vector<u64>> = Vec::new();
        let mut i: usize = 0;
        while i < fans.len()
            invariant
                i <= fans@.len(),
                fan_speed_history@.len() == i,
                forall|j: int|
                    0 <= j < i ==> im_seq(#[trigger] fan_speed_history@[j]) == fans@[j]@,
            decreases fans@.len() - i,
        {
            fan_speed_history.push(to_persistent(&fans[i]));
            i = i + 1;
        }
        let snap = GpuSnapshot {
            brand,
            name,
            temperature_history: to_persistent(temperature),
            fan_speed_history,
            vram_used_history: to_persistent(vram),
            used_vram_bytes,
            total_vram_bytes,
        };
        proof {
            assert forall|i: int| 0 <= i < fans@.len() implies #[trigger] snap.fan_view()[i]
                == fans@[i]@ by {
                assert(snap.fan_view()[i] == im_seq(snap.fan_speed_history@[i]));
            }
        }
        snap
    }
}

/// The consumer-held pair of most-recent snapshots, one per subsystem.
/// Delivery replaces a whole snapshot; it never mutates one in place.
#[derive(Clone)]
pub struct DashboardState {
    pub cpu: CpuSnapshot,
    pub gpu: GpuSnapshot,
}

impl DashboardState {
    /// Both held snapshots are well-formed.
    pub open spec fn wf(&self) -> bool {
        self.cpu.wf() && self.gpu.wf()
    }

    /// Hold the given pair of snapshots.
    pub fn new(cpu: CpuSnapshot, gpu: GpuSnapshot) -> (r: DashboardState)
        ensures
            r.cpu == cpu,
            r.gpu == gpu,
    {
        DashboardState { cpu, gpu }
    }

    /// Replace the held CPU snapshot with a newly delivered one; the GPU
    /// snapshot is untouched.
    pub fn apply_cpu(&mut self, snapshot: CpuSnapshot)
        ensures
            final(self).cpu == snapshot,
            final(self).gpu == old(self).gpu,
    {
        self.cpu = snapshot;
    }

    /// Replace the held GPU snapshot with a newly delivered one; the CPU
    /// snapshot is untouched.
    pub fn apply_gpu(&mut self, snapshot: GpuSnapshot)
        ensures
            final(self).gpu == snapshot,
            final(self).cpu == old(self).cpu,
    {
        self.gpu = snapshot;
    }
}

} // verus!
