//! The sampler's decisions: turning one pass of raw host readings into a
//! snapshot, and the checks made before the first pass.
use vstd::prelude::*;
use crate::model::{
    CoreSample, NetworkInterfaceSample, NetworkView, ProcessorSample, ProcessorView,
    SnapshotView, TelemetrySnapshot, copy_networks,
};

verus! {

/// Wait between the two CPU readings of a pass, and again after publishing.
pub const SETTLING_DELAY_MS: u64 = 500;

/// One core as the host reports it; utilization in hundredths of a percent.
pub struct CoreReading {
    pub name: String,
    pub brand: String,
    pub usage_hundredths: u32,
    pub frequency: u64,
}

/// One network interface as the host reports it.
pub struct NetworkReading {
    pub name: String,
    pub mac_address: String,
    pub ipv4: Option<String>,
    pub received: u64,
    pub transmitted: u64,
    pub total_received: u64,
    pub total_transmitted: u64,
    pub mtu: u64,
}

/// Motherboard identity; each field may be unavailable.
pub struct MotherboardIdentity {
    pub name: Option<String>,
    pub vendor_name: Option<String>,
    pub version: Option<String>,
    pub serial_number: Option<String>,
}

/// Everything read from the host during one pass.
pub struct HostReadings {
    pub os_name: Option<String>,
    pub os_version: Option<String>,
    pub kernel_version: Option<String>,
    pub hostname: Option<String>,
    pub motherboard: Option<MotherboardIdentity>,
    pub cores: Vec<CoreReading>,
    pub memory_total_bytes: u64,
    pub memory_used_bytes: u64,
    pub networks: Vec<NetworkReading>,
}

/// Which optional groups of readings a sampler publishes.
#[derive(Clone, Copy, Debug, PartialEq, Eq, Structural)]
pub struct SamplerConfig {
    pub memory: bool,
    pub network: bool,
    pub motherboard: bool,
}

/// Why a sampler cannot start.
#[derive(Clone, Copy, Debug, PartialEq, Eq, Structural)]
pub enum StartupError {
    /// The host reports no CPU core.
    NoCores,
    /// Motherboard readings are configured but the host has no source for them.
    NoMotherboard,
}

/// Text that stands for a value the host could not report.
pub open spec fn sentinel() -> Seq<char> {
    seq!['N', '/', 'A']
}

pub open spec fn or_sentinel(o: Option<String>) -> Seq<char> {
    match o {
        Some(s) => s@,
        None => sentinel(),
    }
}

/// Whole megabytes in a byte count, remainder dropped.
pub open spec fn to_mb(bytes: u64) -> u64 {
    bytes / 1024 / 1024
}

pub open spec fn core_sample_of(c: CoreReading) -> CoreSample {
    CoreSample { usage_hundredths: c.usage_hundredths, frequency: c.frequency }
}

/// All cores grouped under one processor, named after its first core.
pub open spec fn processor_of(cores: Seq<CoreReading>, arch: Seq<char>) -> ProcessorView {
    ProcessorView {
        name: cores[0].name@,
        brand: cores[0].brand@,
        arch,
        cores: cores.map_values(|c: CoreReading| core_sample_of(c)),
        total_usage_hundredths: cores[0].usage_hundredths,
    }
}

pub open spec fn total_of(n: NetworkView, received: bool) -> u64 {
    if received { n.total_received } else { n.total_transmitted }
}

/// The largest cumulative total (received or transmitted) among the
/// interfaces of that name in `prev`, if there is one.
pub open spec fn prior_max(prev: Seq<NetworkView>, name: Seq<char>, received: bool) -> Option<u64>
    decreases prev.len(),
{
    if prev.len() == 0 {
        None
    } else {
        let rest = prior_max(prev.drop_last(), name, received);
        if prev.last().name == name {
            Some(carried_total(rest, total_of(prev.last(), received)))
        } else {
            rest
        }
    }
}

/// A cumulative counter never goes below its last published value.
pub open spec fn carried_total(prior: Option<u64>, host_total: u64) -> u64 {
    match prior {
        Some(p) => if host_total >= p { host_total } else { p },
        None => host_total,
    }
}

pub open spec fn network_of(prev: Seq<NetworkView>, r: NetworkReading) -> NetworkView {
    NetworkView {
        name: r.name@,
        mac_address: r.mac_address@,
        ipv4: or_sentinel(r.ipv4),
        received: r.received,
        transmitted: r.transmitted,
        total_received: carried_total(prior_max(prev, r.name@, true), r.total_received),
        total_transmitted: carried_total(prior_max(prev, r.name@, false), r.total_transmitted),
        mtu: r.mtu,
    }
}

pub open spec fn motherboard_field(m: Option<MotherboardIdentity>, which: int) -> Seq<char> {
    match m {
        Some(b) => or_sentinel(
            if which == 0 { b.name } else if which == 1 { b.vendor_name }
            else if which == 2 { b.version } else { b.serial_number },
        ),
        None => sentinel(),
    }
}

/// The snapshot one pass publishes.
pub open spec fn snapshot_of(
    config: SamplerConfig,
    arch: Seq<char>,
    prev: Seq<NetworkView>,
    r: HostReadings,
) -> SnapshotView {
    let board = if config.motherboard { r.motherboard } else { None };
    SnapshotView {
        os_name: or_sentinel(r.os_name),
        os_version: or_sentinel(r.os_version),
        kernel_version: or_sentinel(r.kernel_version),
        hostname: or_sentinel(r.hostname),
        motherboard_name: motherboard_field(board, 0),
        motherboard_vendor_name: motherboard_field(board, 1),
        motherboard_version: motherboard_field(board, 2),
        motherboard_serial_number: motherboard_field(board, 3),
        processors: seq![processor_of(r.cores@, arch)],
        memory_total_mb: if config.memory { to_mb(r.memory_total_bytes) } else { 0 },
        memory_used_mb: if config.memory { to_mb(r.memory_used_bytes) } else { 0 },
        networks: if config.network {
            r.networks@.map_values(|n: NetworkReading| network_of(prev, n))
        } else {
            Seq::empty()
        },
    }
}

/// The stand-in text for an unreported value.
pub fn sentinel_text() -> (r: String)
    ensures
        r@ == sentinel(),
{
    proof {
        reveal_strlit("N/A");
    }
    "N/A".to_owned()
}

/// The reported text, or the stand-in when the host reported none.
pub fn text_or_sentinel(o: &Option<String>) -> (r: String)
    ensures
        r@ == or_sentinel(*o),
{
    match o {
        Some(s) => s.clone(),
        None => sentinel_text(),
    }
}

/// Whole megabytes in a byte count, remainder dropped.
pub fn bytes_to_mb(bytes: u64) -> (r: u64)
    ensures
        r == to_mb(bytes),
{
    bytes / 1024 / 1024
}

/// Groups all cores under one processor whose name, brand and aggregate
/// utilization come from the first core.
pub fn group_cores(cores: &Vec<CoreReading>, arch: &String) -> (r: ProcessorSample)
    requires
        cores@.len() > 0,
    ensures
        r@ == processor_of(cores@, arch@),
        r@.wf(),
{
    let mut samples: Vec<CoreSample> = Vec::new();
    let mut i: usize = 0;
    while i < cores.len()
        invariant
            i <= cores.len(),
            samples@.len() == i,
            forall|j: int| 0 <= j < i ==> #[trigger] samples@[j] == core_sample_of(cores@[j]),
        decreases cores.len() - i,
    {
        samples.push(CoreSample { usage_hundredths: cores[i].usage_hundredths, frequency: cores[i].frequency });
        i = i + 1;
    }
    assert(samples@ =~= cores@.map_values(|c: CoreReading| core_sample_of(c)));
    ProcessorSample {
        name: cores[0].name.clone(),
        brand: cores[0].brand.clone(),
        arch: arch.clone(),
        cores: samples,
        total_usage_hundredths: cores[0].usage_hundredths,
    }
}

/// The sample of one interface, its totals held at or above every total
/// last published under the same name.
pub fn network_sample(prev: &Vec<NetworkInterfaceSample>, r: &NetworkReading) -> (s: NetworkInterfaceSample)
    ensures
        s@ == network_of(prev@.map_values(|n: NetworkInterfaceSample| n@), *r),
{
    let ghost views = prev@.map_values(|n: NetworkInterfaceSample| n@);
    let mut max_received: Option<u64> = None;
    let mut max_transmitted: Option<u64> = None;
    let mut i: usize = 0;
    while i < prev.len()
        invariant
            i <= prev@.len(),
            views == prev@.map_values(|n: NetworkInterfaceSample| n@),
            max_received == prior_max(views.subrange(0, i as int), r.name@, true),
            max_transmitted == prior_max(views.subrange(0, i as int), r.name@, false),
        decreases prev.len() - i,
    {
        assert(views.subrange(0, i + 1).drop_last() =~= views.subrange(0, i as int));
        assert(views.subrange(0, i + 1).last() == prev@[i as int]@);
        if prev[i].name == r.name {
            let got_r = prev[i].total_received;
            max_received = Some(match max_received {
                Some(m) => if got_r >= m { got_r } else { m },
                None => got_r,
            });
            let got_t = prev[i].total_transmitted;
            max_transmitted = Some(match max_transmitted {
                Some(m) => if got_t >= m { got_t } else { m },
                None => got_t,
            });
        }
        i = i + 1;
    }
    assert(views.subrange(0, views.len() as int) =~= views);
    let total_received = match max_received {
        Some(m) => if r.total_received >= m { r.total_received } else { m },
        None => r.total_received,
    };
    let total_transmitted = match max_transmitted {
        Some(m) => if r.total_transmitted >= m { r.total_transmitted } else { m },
        None => r.total_transmitted,
    };
    NetworkInterfaceSample {
        name: r.name.clone(),
        mac_address: r.mac_address.clone(),
        ipv4: text_or_sentinel(&r.ipv4),
        received: r.received,
        transmitted: r.transmitted,
        total_received,
        total_transmitted,
        mtu: r.mtu,
    }
}

/// The largest total under a name is at least the total of each interface
/// of that name.
pub proof fn lemma_prior_max_bounds(prev: Seq<NetworkView>, j: int, received: bool)
    requires
        0 <= j < prev.len(),
    ensures
        prior_max(prev, prev[j].name, received) matches Some(m) && m >= total_of(prev[j], received),
    decreases prev.len(),
{
    let name = prev[j].name;
    let init = prev.drop_last();
    if j < prev.len() - 1 {
        assert(init[j] == prev[j]);
        lemma_prior_max_bounds(init, j, received);
    }
}

/// When the host reports no more memory in use than in total, the
/// published megabyte figures keep that order.
pub proof fn law_memory_used_within_total(
    config: SamplerConfig,
    arch: Seq<char>,
    prev: Seq<NetworkView>,
    r: HostReadings,
)
    requires
        r.memory_used_bytes <= r.memory_total_bytes,
    ensures
        snapshot_of(config, arch, prev, r).memory_used_mb <= snapshot_of(config, arch, prev, r).memory_total_mb,
{
    let u = r.memory_used_bytes as int;
    let t = r.memory_total_bytes as int;
    assert(u / 1024 <= t / 1024) by (nonlinear_arith)
        requires u <= t;
    assert(u / 1024 / 1024 <= t / 1024 / 1024) by (nonlinear_arith)
        requires u / 1024 <= t / 1024;
}

/// Every processor of a snapshot built from at least one core has cores,
/// and its aggregate utilization is that of its first core.
pub proof fn law_processors_have_cores(
    config: SamplerConfig,
    arch: Seq<char>,
    prev: Seq<NetworkView>,
    r: HostReadings,
)
    requires
        r.cores@.len() > 0,
    ensures
        snapshot_of(config, arch, prev, r).wf(),
        snapshot_of(config, arch, prev, r).processors.len() == 1,
        forall|i: int| 0 <= i < snapshot_of(config, arch, prev, r).processors.len()
            ==> #[trigger] snapshot_of(config, arch, prev, r).processors[i].cores.len() > 0,
{
    let s = snapshot_of(config, arch, prev, r);
    assert(s.processors[0] == processor_of(r.cores@, arch));
}

/// Cumulative byte totals of an interface never decrease from one published
/// snapshot to the next: entry `i` of the new snapshot is at least every
/// entry of the previous one with the same name.
pub proof fn law_totals_non_decreasing(
    config: SamplerConfig,
    arch: Seq<char>,
    prev: Seq<NetworkView>,
    r: HostReadings,
    i: int,
    j: int,
)
    requires
        config.network,
        0 <= i < r.networks@.len(),
        0 <= j < prev.len(),
        prev[j].name == r.networks@[i].name@,
    ensures
        snapshot_of(config, arch, prev, r).networks[i].name == prev[j].name,
        snapshot_of(config, arch, prev, r).networks[i].total_received >= prev[j].total_received,
        snapshot_of(config, arch, prev, r).networks[i].total_transmitted >= prev[j].total_transmitted,
{
    lemma_prior_max_bounds(prev, j, true);
    lemma_prior_max_bounds(prev, j, false);
}

/// Produces snapshots from successive passes of host readings.
pub struct Sampler {
    pub config: SamplerConfig,
    pub arch: String,
    /// Interfaces of the last published snapshot.
    pub previous_networks: Vec<NetworkInterfaceSample>,
}

impl Sampler {
    pub open spec fn previous(&self) -> Seq<NetworkView> {
        self.previous_networks@.map_values(|n: NetworkInterfaceSample| n@)
    }

    /// Starts a sampler for a host with `core_count` cores; `arch` is the
    /// architecture of the running build.
    pub fn start(config: SamplerConfig, arch: String, core_count: usize, has_motherboard: bool) -> (r: Result<Sampler, StartupError>)
        ensures
            core_count == 0 ==> r == Err::<Sampler, StartupError>(StartupError::NoCores),
            core_count > 0 && config.motherboard && !has_motherboard ==> r == Err::<Sampler, StartupError>(StartupError::NoMotherboard),
            r is Ok <==> core_count > 0 && (config.motherboard ==> has_motherboard),
            r matches Ok(s) ==> s.config == config && s.arch@ == arch@ && s.previous().len() == 0,
    {
        if core_count == 0 {
            return Err(StartupError::NoCores);
        }
        if config.motherboard && !has_motherboard {
            return Err(StartupError::NoMotherboard);
        }
        let s = Sampler { config, arch, previous_networks: Vec::new() };
        assert(s.previous() =~= Seq::<NetworkView>::empty());
        Ok(s)
    }
    /// One sampling pass over the host's readings. With no core reported
    /// there is no data yet: nothing is published and the sampler is left
    /// as it was. Otherwise the snapshot is returned and its interfaces
    /// become the reference for the next pass's totals.
    pub fn pass(&mut self, r: &HostReadings) -> (s: Option<TelemetrySnapshot>)
        ensures
            r.cores@.len() == 0 <==> s is None,
            s is None ==> *final(self) == *old(self),
            s matches Some(snap) ==> {
                &&& snap@ == snapshot_of(old(self).config, old(self).arch@, old(self).previous(), *r)
                &&& snap@.wf()
                &&& final(self).config == old(self).config
                &&& final(self).arch@ == old(self).arch@
                &&& final(self).previous() == snap@.networks
            },
    {
        if r.cores.len() == 0 {
            return None;
        }
        let processor = group_cores(&r.cores, &self.arch);
        let mut processors: Vec<ProcessorSample> = Vec::new();
        processors.push(processor);

        let mut networks: Vec<NetworkInterfaceSample> = Vec::new();
        if self.config.network {
            let mut i: usize = 0;
            while i < r.networks.len()
                invariant
                    i <= r.networks@.len(),
                    networks@.len() == i,
                    forall|j: int| 0 <= j < i ==> #[trigger] networks@[j]@ == network_of(self.previous(), r.networks@[j]),
                decreases r.networks.len() - i,
            {
                networks.push(network_sample(&self.previous_networks, &r.networks[i]));
                i = i + 1;
            }
        }

        let board_enabled = self.config.motherboard;
        let (mb_name, mb_vendor, mb_version, mb_serial) = match &r.motherboard {
            Some(b) if board_enabled => (
                text_or_sentinel(&b.name),
                text_or_sentinel(&b.vendor_name),
                text_or_sentinel(&b.version),
                text_or_sentinel(&b.serial_number),
            ),
            _ => (sentinel_text(), sentinel_text(), sentinel_text(), sentinel_text()),
        };
        let (memory_total_mb, memory_used_mb) = if self.config.memory {
            (bytes_to_mb(r.memory_total_bytes), bytes_to_mb(r.memory_used_bytes))
        } else {
            (0, 0)
        };

        let snap = TelemetrySnapshot {
            os_name: text_or_sentinel(&r.os_name),
            os_version: text_or_sentinel(&r.os_version),
            kernel_version: text_or_sentinel(&r.kernel_version),
            hostname: text_or_sentinel(&r.hostname),
            motherboard_name: mb_name,
            motherboard_vendor_name: mb_vendor,
            motherboard_version: mb_version,
            motherboard_serial_number: mb_serial,
            processors,
            memory_total_mb,
            memory_used_mb,
            networks,
        };
        let ghost expected = snapshot_of(self.config, self.arch@, self.previous(), *r);
        assert(snap@.processors =~= expected.processors);
        assert(snap@.networks =~= expected.networks);
        self.previous_networks = copy_networks(&snap.networks);
        Some(snap)
    }
}

} // verus!
