//! Per-tick sampler state machines.
//!
//! A sampler owns the private working buffers of one subsystem. Each tick
//! the caller hands it the raw readings of that tick; the sampler clamps
//! and stores them, and hands back the immutable snapshot to publish.
//! The hardware queries themselves live at the unverified edge.

use vstd::prelude::*;

use vstd::arithmetic::div_mod::lemma_div_is_ordered;
use vstd::arithmetic::div_mod::lemma_div_multiples_vanish;
use vstd::arithmetic::div_mod::lemma_div_pos_is_pos;

use crate::history::DEPTH_LIMIT;
use crate::history::HistorySeries;
use crate::history::lemma_pushed_bound;
use crate::history::pushed;
use crate::snapshot::CpuSnapshot;
use crate::snapshot::GpuSnapshot;
use crate::units::FULL_PERCENT;
use crate::units::all_in_range;
use crate::units::RawValue;
use crate::units::SAMPLE_LIMIT;
use crate::units::all_percent;
use crate::units::clamp_percent;
use crate::units::clamp_percent_spec;
use crate::units::percent_of;
use crate::units::percent_of_spec;

verus! {

/// The sum of the clamped percentages of a tick's raw readings.
pub open spec fn clamped_sum(rs: Seq<RawValue>) -> int
    decreases rs.len(),
{
    if rs.len() == 0 {
        0
    } else {
        clamped_sum(rs.drop_last()) + clamp_percent_spec(rs.last())
    }
}

/// The averaged sample one tick stores: the clamped readings summed and
/// divided by their count (truncating fixed-point division).
pub open spec fn average_sample(rs: Seq<RawValue>) -> u64
    recommends
        rs.len() >= 1,
{
    (clamped_sum(rs) / (rs.len() as int)) as u64
}

/// The clamped sum of `n` readings lies between 0 and `n` times full scale.
pub proof fn lemma_clamped_sum_bounds(rs: Seq<RawValue>)
    ensures
        0 <= clamped_sum(rs) <= rs.len() * FULL_PERCENT,
    decreases rs.len(),
{
    if rs.len() > 0 {
        lemma_clamped_sum_bounds(rs.drop_last());
        assert((rs.len() - 1) * (FULL_PERCENT as int) + FULL_PERCENT == rs.len() * (
        FULL_PERCENT as int)) by (nonlinear_arith);
    }
}

/// The average of clamped percentages is itself a clamped percentage.
pub proof fn lemma_average_bound(rs: Seq<RawValue>)
    requires
        rs.len() >= 1,
    ensures
        0 <= clamped_sum(rs) / (rs.len() as int) <= FULL_PERCENT,
        average_sample(rs) == clamped_sum(rs) / (rs.len() as int),
{
    lemma_clamped_sum_bounds(rs);
    lemma_div_pos_is_pos(clamped_sum(rs), rs.len() as int);
    lemma_div_is_ordered(clamped_sum(rs), rs.len() * FULL_PERCENT, rs.len() as int);
    lemma_div_multiples_vanish(FULL_PERCENT as int, rs.len() as int);
}

/// The CPU/memory sampler: one working buffer per detected core, one for
/// the averaged utilization, one for the memory percentage. The core
/// count and the window depth are fixed at construction.
pub struct CpuSampler {
    per_core: Vec<HistorySeries>,
    average: HistorySeries,
    memory: HistorySeries,
}

impl CpuSampler {
    /// The per-core working buffers, one window per core.
    pub closed spec fn per_core_windows(&self) -> Seq<Seq<u64>> {
        self.per_core@.map(|i: int, h: HistorySeries| h@)
    }

    /// The averaged-utilization working buffer.
    pub closed spec fn average_window(&self) -> Seq<u64> {
        self.average@
    }

    /// The memory-percentage working buffer.
    pub closed spec fn memory_window(&self) -> Seq<u64> {
        self.memory@
    }

    /// Number of cores discovered at startup.
    pub open spec fn core_count(&self) -> nat {
        self.per_core_windows().len()
    }

    /// The fixed depth of every window.
    pub open spec fn depth(&self) -> nat {
        self.average_window().len()
    }

    /// Well-formed: at least one core, every window of the same fixed
    /// depth of at least two samples, every sample a clamped percentage.
    pub open spec fn wf(&self) -> bool {
        &&& 1 <= self.core_count()
        &&& 2 <= self.depth() <= DEPTH_LIMIT
        &&& forall|i: int|
            0 <= i < self.core_count() ==> (#[trigger] self.per_core_windows()[i]).len()
                == self.depth()
        &&& forall|i: int|
            0 <= i < self.core_count() ==> all_percent(#[trigger] self.per_core_windows()[i])
        &&& all_percent(self.average_window())
        &&& self.memory_window().len() == self.depth()
        &&& all_percent(self.memory_window())
    }

    /// How many cores the sampler covers.
    pub fn cores(&self) -> (n: usize)
        ensures
            n == self.core_count(),
    {
        self.per_core.len()
    }

    /// Start a sampler for `cores` cores with windows of depth `depth`,
    /// all samples initially zero.
    pub fn new(cores: usize, depth: usize) -> (r: CpuSampler)
        requires
            1 <= cores,
            2 <= depth <= DEPTH_LIMIT,
        ensures
            r.wf(),
            r.core_count() == cores,
            r.depth() == depth,
            forall|i: int, k: int|
                0 <= i < cores && 0 <= k < depth ==> r.per_core_windows()[i][k] == 0,
            forall|k: int| 0 <= k < depth ==> r.average_window()[k] == 0,
            forall|k: int| 0 <= k < depth ==> r.memory_window()[k] == 0,
    {
        let mut per_core: Vec<HistorySeries> = Vec::new();
        let mut i: usize = 0;
        while i < cores
            invariant
                i <= cores,
                2 <= depth <= DEPTH_LIMIT,
                per_core@.len() == i,
                forall|j: int|
                    0 <= j < i ==> (#[trigger] per_core@[j]@).len() == depth,
                forall|j: int, k: int| 0 <= j < i && 0 <= k < depth ==> per_core@[j]@[k] == 0,
            decreases cores - i,
        {
            per_core.push(HistorySeries::new(depth, 0));
            i = i + 1;
        }
        let r = CpuSampler {
            per_core,
            average: HistorySeries::new(depth, 0),
            memory: HistorySeries::new(depth, 0),
        };
        proof {
            assert forall|i: int| 0 <= i < cores implies (#[trigger] r.per_core_windows()[i]).len()
                == depth && all_percent(r.per_core_windows()[i]) by {
                assert(r.per_core_windows()[i] == r.per_core@[i]@);
            }
        }
        r
    }

    /// One sampling tick: push every core's clamped utilization, the
    /// computed average and the memory percentage, then deep-copy the
    /// buffers into the snapshot to publish.
    pub fn tick(&mut self, utilization: &Vec<RawValue>, used_memory: u64, total_memory: u64) -> (
        snap: CpuSnapshot)
        requires
            old(self).wf(),
            utilization@.len() == old(self).core_count(),
        ensures
            final(self).wf(),
            final(self).core_count() == old(self).core_count(),
            final(self).depth() == old(self).depth(),
            forall|i: int|
                0 <= i < old(self).core_count() ==> #[trigger] final(self).per_core_windows()[i]
                    == pushed(
                    old(self).per_core_windows()[i],
                    clamp_percent_spec(utilization@[i]),
                ),
            final(self).average_window() == pushed(
                old(self).average_window(),
                average_sample(utilization@),
            ),
            final(self).memory_window() == pushed(
                old(self).memory_window(),
                percent_of_spec(used_memory, total_memory),
            ),
            snap.wf(),
            snap.per_core_view() == final(self).per_core_windows(),
            snap.average_view() == final(self).average_window(),
            snap.memory_view() == final(self).memory_window(),
            snap.used_bytes() == used_memory,
            snap.total_bytes() == total_memory,
            snap.average_view().last() == average_sample(utilization@),
            snap.memory_view().last() == percent_of_spec(used_memory, total_memory),
    {
        let cores = self.per_core.len();
        let mut sum: u128 = 0;
        let mut i: usize = 0;
        while i < cores
            invariant
                old(self).wf(),
                cores == old(self).core_count(),
                utilization@.len() == cores,
                i <= cores,
                self.average == old(self).average,
                self.memory == old(self).memory,
                self.per_core@.len() == cores,
                forall|j: int| i <= j < cores ==> self.per_core@[j] == old(self).per_core@[j],
                forall|j: int|
                    0 <= j < i ==> #[trigger] self.per_core@[j]@ == pushed(
                        old(self).per_core_windows()[j],
                        clamp_percent_spec(utilization@[j]),
                    ),
                forall|j: int|
                    0 <= j < i ==> (#[trigger] self.per_core@[j]@).len() == old(self).depth(),
                forall|j: int| 0 <= j < i ==> all_percent(#[trigger] self.per_core@[j]@),
                sum as int == clamped_sum(utilization@.take(i as int)),
                sum <= i * FULL_PERCENT,
            decreases cores - i,
        {
            let c = clamp_percent(utilization[i]);
            proof {
                assert(self.per_core@[i as int] == old(self).per_core@[i as int]);
                assert(old(self).per_core_windows()[i as int] == old(self).per_core@[i as int]@);
                lemma_pushed_bound(self.per_core@[i as int]@, c, FULL_PERCENT);
            }
            self.per_core[i].push(c);
            proof {
                let taken = utilization@.take(i + 1 as int);
                assert(taken.drop_last() =~= utilization@.take(i as int));
                assert(taken.last() == utilization@[i as int]);
            }
            sum = sum + c as u128;
            i = i + 1;
        }
        proof {
            assert(utilization@.take(cores as int) =~= utilization@);
            lemma_average_bound(utilization@);
        }
        let avg: u64 = (sum / (cores as u128)) as u64;
        proof {
            lemma_pushed_bound(self.average@, avg, FULL_PERCENT);
        }
        self.average.push(avg);
        let mem_pct = percent_of(used_memory, total_memory);
        proof {
            lemma_pushed_bound(self.memory@, mem_pct, FULL_PERCENT);
        }
        self.memory.push(mem_pct);
        let snap = CpuSnapshot::build(
            &self.per_core,
            &self.average,
            &self.memory,
            used_memory,
            total_memory,
        );
        proof {
            assert forall|i: int| 0 <= i < cores implies #[trigger] self.per_core_windows()[i]
                == pushed(
                old(self).per_core_windows()[i],
                clamp_percent_spec(utilization@[i]),
            ) by {
                assert(self.per_core_windows()[i] == self.per_core@[i]@);
            }
            assert(snap.per_core_view() =~= self.per_core_windows());
        }
        snap
    }

    /// Deep-copy the current working buffers into a snapshot carrying the
    /// given memory totals; used for the initial all-zero snapshot.
    pub fn publish(&self, used_memory: u64, total_memory: u64) -> (snap: CpuSnapshot)
        requires
            self.wf(),
        ensures
            snap.wf(),
            snap.per_core_view() == self.per_core_windows(),
            snap.average_view() == self.average_window(),
            snap.memory_view() == self.memory_window(),
            snap.used_bytes() == used_memory,
            snap.total_bytes() == total_memory,
    {
        let snap = CpuSnapshot::build(
            &self.per_core,
            &self.average,
            &self.memory,
            used_memory,
            total_memory,
        );
        proof {
            assert(snap.per_core_view() =~= self.per_core_windows());
        }
        snap
    }
}

/// Fixed maximum fan speed, in RPM, that fan percentages and the fan
/// axis labels are computed against.
pub const MAX_RPM: u64 = 3000;

/// One memory reading: current used and total bytes.
#[derive(Clone, Copy, PartialEq, Eq, Structural, Debug)]
pub struct MemoryReading {
    pub used: u64,
    pub total: u64,
}

/// The raw GPU readings of one tick. Each metric is queried
/// independently at the unverified edge; `None` records that its query
/// failed this tick.
pub struct GpuReadings {
    /// Temperature in milli-degrees Celsius, if the query succeeded.
    pub temperature: Option<u64>,
    /// Fan speed in RPM for each fan, where its query succeeded.
    pub fan_rpm: Vec<Option<u64>>,
    /// Used and total VRAM in bytes, if the query succeeded.
    pub memory: Option<MemoryReading>,
}

/// The GPU sampler: working buffers for temperature, one per fan, and
/// VRAM usage, plus the adapter's identity and the fixed maximum fan
/// speed that fan percentages are computed against. Fan count and window
/// depth are fixed at construction.
pub struct GpuSampler {
    brand: String,
    name: String,
    max_rpm: u64,
    temperature: HistorySeries,
    fans: Vec<HistorySeries>,
    vram: HistorySeries,
}

impl GpuSampler {
    /// The temperature working buffer, in milli-degrees Celsius.
    pub closed spec fn temperature_window(&self) -> Seq<u64> {
        self.temperature@
    }

    /// The per-fan working buffers, each a percentage of the maximum speed.
    pub closed spec fn fan_windows(&self) -> Seq<Seq<u64>> {
        self.fans@.map(|i: int, h: HistorySeries| h@)
    }

    /// The VRAM-percentage working buffer.
    pub closed spec fn vram_window(&self) -> Seq<u64> {
        self.vram@
    }

    /// The adapter's brand string.
    pub closed spec fn brand_view(&self) -> Seq<char> {
        self.brand@
    }

    /// The adapter's product-name string.
    pub closed spec fn name_view(&self) -> Seq<char> {
        self.name@
    }

    /// The configured maximum fan speed, in RPM.
    pub closed spec fn max_fan_rpm(&self) -> u64 {
        self.max_rpm
    }

    /// Number of fans discovered at startup.
    pub open spec fn fan_count(&self) -> nat {
        self.fan_windows().len()
    }

    /// The fixed depth of every window.
    pub open spec fn depth(&self) -> nat {
        self.temperature_window().len()
    }

    /// Well-formed: every window of the same fixed depth of at least two
    /// samples, fan and VRAM samples clamped percentages, temperature
    /// samples within the fixed-point limit.
    pub open spec fn wf(&self) -> bool {
        &&& 2 <= self.depth() <= DEPTH_LIMIT
        &&& all_in_range(self.temperature_window())
        &&& forall|i: int|
            0 <= i < self.fan_count() ==> (#[trigger] self.fan_windows()[i]).len() == self.depth()
        &&& forall|i: int| 0 <= i < self.fan_count() ==> all_percent(#[trigger] self.fan_windows()[i])
        &&& self.vram_window().len() == self.depth()
        &&& all_percent(self.vram_window())
    }

    /// How many fans the sampler covers.
    pub fn fans(&self) -> (n: usize)
        ensures
            n == self.fan_count(),
    {
        self.fans.len()
    }

    /// Start a sampler for an adapter with `fan_count` fans, windows of
    /// depth `depth` initially all zero, and fan percentages computed
    /// against `max_rpm`.
    pub fn new(fan_count: usize, depth: usize, max_rpm: u64, brand: String, name: String) -> (r:
        GpuSampler)
        requires
            2 <= depth <= DEPTH_LIMIT,
        ensures
            r.wf(),
            r.fan_count() == fan_count,
            r.depth() == depth,
            r.max_fan_rpm() == max_rpm,
            r.brand_view() == brand@,
            r.name_view() == name@,
            forall|k: int| 0 <= k < depth ==> r.temperature_window()[k] == 0,
            forall|i: int, k: int|
                0 <= i < fan_count && 0 <= k < depth ==> r.fan_windows()[i][k] == 0,
            forall|k: int| 0 <= k < depth ==> r.vram_window()[k] == 0,
    {
        let mut fans: Vec<HistorySeries> = Vec::new();
        let mut i: usize = 0;
        while i < fan_count
            invariant
                i <= fan_count,
                2 <= depth <= DEPTH_LIMIT,
                fans@.len() == i,
                forall|j: int| 0 <= j < i ==> (#[trigger] fans@[j]@).len() == depth,
                forall|j: int, k: int| 0 <= j < i && 0 <= k < depth ==> fans@[j]@[k] == 0,
            decreases fan_count - i,
        {
            fans.push(HistorySeries::new(depth, 0));
            i = i + 1;
        }
        let r = GpuSampler {
            brand,
            name,
            max_rpm,
            temperature: HistorySeries::new(depth, 0),
            fans,
            vram: HistorySeries::new(depth, 0),
        };
        proof {
            assert forall|i: int| 0 <= i < fan_count implies (#[trigger] r.fan_windows()[i]).len()
                == depth && all_percent(r.fan_windows()[i]) by {
                assert(r.fan_windows()[i] == r.fans@[i]@);
            }
        }
        r
    }

    /// One sampling tick. Every metric updates independently: a failed
    /// query leaves that series exactly as it was, so its newest sample
    /// is the stale value of the last successful read, while the other
    /// series advance. A snapshot is built and handed back exactly when
    /// the memory query succeeded; on a memory failure nothing is
    /// published this tick.
    pub fn tick(&mut self, readings: &GpuReadings) -> (snap: Option<GpuSnapshot>)
        requires
            old(self).wf(),
            readings.fan_rpm@.len() == old(self).fan_count(),
            readings.temperature matches Some(t) ==> t <= SAMPLE_LIMIT,
        ensures
            final(self).wf(),
            final(self).fan_count() == old(self).fan_count(),
            final(self).depth() == old(self).depth(),
            final(self).brand_view() == old(self).brand_view(),
            final(self).name_view() == old(self).name_view(),
            final(self).max_fan_rpm() == old(self).max_fan_rpm(),
            readings.temperature matches Some(t) ==> final(self).temperature_window() == pushed(
                old(self).temperature_window(),
                t,
            ),
            readings.temperature is None ==> final(self).temperature_window() == old(
                self).temperature_window(),
            forall|i: int|
                0 <= i < old(self).fan_count() && readings.fan_rpm@[i] is Some
                    ==> #[trigger] final(self).fan_windows()[i] == pushed(
                    old(self).fan_windows()[i],
                    percent_of_spec(readings.fan_rpm@[i]->Some_0, old(self).max_fan_rpm()),
                ),
            forall|i: int|
                0 <= i < old(self).fan_count() && readings.fan_rpm@[i] is None
                    ==> #[trigger] final(self).fan_windows()[i] == old(self).fan_windows()[i],
            readings.memory matches Some(m) ==> final(self).vram_window() == pushed(
                old(self).vram_window(),
                percent_of_spec(m.used, m.total),
            ),
            readings.memory is None ==> final(self).vram_window() == old(self).vram_window(),
            snap is Some <==> readings.memory is Some,
            snap matches Some(s) ==> s.wf() && s.brand_view() == old(self).brand_view()
                && s.name_view() == old(self).name_view()
                && s.temperature_view() == final(self).temperature_window()
                && s.fan_view() == final(self).fan_windows()
                && s.vram_view() == final(self).vram_window()
                && s.used_bytes() == readings.memory->Some_0.used
                && s.total_bytes() == readings.memory->Some_0.total,
    {
        if let Some(t) = readings.temperature {
            proof {
                lemma_pushed_bound(self.temperature@, t, SAMPLE_LIMIT);
            }
            self.temperature.push(t);
        }
        let count = self.fans.len();
        let mut i: usize = 0;
        while i < count
            invariant
                old(self).wf(),
                count == old(self).fan_count(),
                readings.fan_rpm@.len() == count,
                i <= count,
                self.brand == old(self).brand,
                self.name == old(self).name,
                self.max_rpm == old(self).max_rpm,
                readings.temperature matches Some(t) ==> self.temperature@ == pushed(
                    old(self).temperature_window(),
                    t,
                ),
                readings.temperature is None ==> self.temperature@ == old(
                    self).temperature_window(),
                all_in_range(self.temperature@),
                self.temperature@.len() == old(self).depth(),
                self.vram == old(self).vram,
                self.fans@.len() == count,
                forall|j: int| i <= j < count ==> self.fans@[j] == old(self).fans@[j],
                forall|j: int|
                    0 <= j < i && readings.fan_rpm@[j] is Some ==> #[trigger] self.fans@[j]@
                        == pushed(
                        old(self).fan_windows()[j],
                        percent_of_spec(readings.fan_rpm@[j]->Some_0, old(self).max_fan_rpm()),
                    ),
                forall|j: int|
                    0 <= j < i && readings.fan_rpm@[j] is None ==> self.fans@[j] == old(
                        self).fans@[j],
                forall|j: int| 0 <= j < i ==> (#[trigger] self.fans@[j]@).len() == old(self).depth(),
                forall|j: int| 0 <= j < i ==> all_percent(#[trigger] self.fans@[j]@),
            decreases count - i,
        {
            proof {
                assert(self.fans@[i as int] == old(self).fans@[i as int]);
                assert(old(self).fan_windows()[i as int] == old(self).fans@[i as int]@);
                assert(all_percent(old(self).fans@[i as int]@));
                assert(old(self).fans@[i as int]@.len() == old(self).depth());
            }
            if let Some(rpm) = readings.fan_rpm[i] {
                let pct = percent_of(rpm, self.max_rpm);
                proof {
                    lemma_pushed_bound(self.fans@[i as int]@, pct, FULL_PERCENT);
                }
                self.fans[i].push(pct);
            }
            proof {
                assert(self.fans@[i as int]@.len() == old(self).depth());
                assert(all_percent(self.fans@[i as int]@));
            }
            i = i + 1;
        }
        proof {
            assert forall|j: int| 0 <= j < count implies (#[trigger] self.fan_windows()[j])
                == self.fans@[j]@ by {}
            assert forall|j: int| 0 <= j < count implies all_percent(
                #[trigger] self.fan_windows()[j],
            ) && self.fan_windows()[j].len() == old(self).depth() by {
                if readings.fan_rpm@[j] is None {
                    assert(self.fans@[j]@ == old(self).fan_windows()[j]);
                }
            }
        }
        if let Some(m) = readings.memory {
            let pct = percent_of(m.used, m.total);
            proof {
                lemma_pushed_bound(self.vram@, pct, FULL_PERCENT);
            }
            self.vram.push(pct);
            let snap = GpuSnapshot::build(
                self.brand.clone(),
                self.name.clone(),
                &self.temperature,
                &self.fans,
                &self.vram,
                m.used,
                m.total,
            );
            proof {
                assert(snap.fan_view() =~= self.fan_windows());
            }
            Some(snap)
        } else {
            None
        }
    }

    /// Deep-copy the current working buffers into a snapshot carrying
    /// the given VRAM totals; used for the initial all-zero snapshot.
    pub fn publish(&self, used_vram: u64, total_vram: u64) -> (snap: GpuSnapshot)
        requires
            self.wf(),
        ensures
            snap.wf(),
            snap.brand_view() == self.brand_view(),
            snap.name_view() == self.name_view(),
            snap.temperature_view() == self.temperature_window(),
            snap.fan_view() == self.fan_windows(),
            snap.vram_view() == self.vram_window(),
            snap.used_bytes() == used_vram,
            snap.total_bytes() == total_vram,
    {
        let snap = GpuSnapshot::build(
            self.brand.clone(),
            self.name.clone(),
            &self.temperature,
            &self.fans,
            &self.vram,
            used_vram,
            total_vram,
        );
        proof {
            assert(snap.fan_view() =~= self.fan_windows());
        }
        snap
    }
}

} // verus!
