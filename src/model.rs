//! The telemetry snapshot and its parts, with their mathematical views.
use vstd::prelude::*;

verus! {

/// One logical core: utilization in hundredths of a percent and clock
/// frequency in the host's unit.
#[derive(Clone, Copy, Debug, PartialEq, Eq, Structural)]
pub struct CoreSample {
    pub usage_hundredths: u32,
    pub frequency: u64,
}

/// One logical processor with its cores in host enumeration order.
#[derive(Debug)]
pub struct ProcessorSample {
    pub name: String,
    pub brand: String,
    pub arch: String,
    pub cores: Vec<CoreSample>,
    /// Utilization of the representative (first) core.
    pub total_usage_hundredths: u32,
}

pub ghost struct ProcessorView {
    pub name: Seq<char>,
    pub brand: Seq<char>,
    pub arch: Seq<char>,
    pub cores: Seq<CoreSample>,
    pub total_usage_hundredths: u32,
}

impl View for ProcessorSample {
    type V = ProcessorView;

    open spec fn view(&self) -> ProcessorView {
        ProcessorView {
            name: self.name@,
            brand: self.brand@,
            arch: self.arch@,
            cores: self.cores@,
            total_usage_hundredths: self.total_usage_hundredths,
        }
    }
}

impl ProcessorView {
    /// A processor has at least one core, and its aggregate utilization is
    /// that of its first core.
    pub open spec fn wf(self) -> bool {
        &&& self.cores.len() > 0
        &&& self.total_usage_hundredths == self.cores[0].usage_hundredths
    }
}

/// One network interface: interval and cumulative byte counters.
#[derive(Debug)]
pub struct NetworkInterfaceSample {
    pub name: String,
    pub mac_address: String,
    pub ipv4: String,
    pub received: u64,
    pub transmitted: u64,
    pub total_received: u64,
    pub total_transmitted: u64,
    pub mtu: u64,
}

pub ghost struct NetworkView {
    pub name: Seq<char>,
    pub mac_address: Seq<char>,
    pub ipv4: Seq<char>,
    pub received: u64,
    pub transmitted: u64,
    pub total_received: u64,
    pub total_transmitted: u64,
    pub mtu: u64,
}

impl View for NetworkInterfaceSample {
    type V = NetworkView;

    open spec fn view(&self) -> NetworkView {
        NetworkView {
            name: self.name@,
            mac_address: self.mac_address@,
            ipv4: self.ipv4@,
            received: self.received,
            transmitted: self.transmitted,
            total_received: self.total_received,
            total_transmitted: self.total_transmitted,
            mtu: self.mtu,
        }
    }
}

/// The full state published by one sampling pass.
#[derive(Debug)]
pub struct TelemetrySnapshot {
    pub os_name: String,
    pub os_version: String,
    pub kernel_version: String,
    pub hostname: String,
    pub motherboard_name: String,
    pub motherboard_vendor_name: String,
    pub motherboard_version: String,
    pub motherboard_serial_number: String,
    pub processors: Vec<ProcessorSample>,
    pub memory_total_mb: u64,
    pub memory_used_mb: u64,
    pub networks: Vec<NetworkInterfaceSample>,
}

pub ghost struct SnapshotView {
    pub os_name: Seq<char>,
    pub os_version: Seq<char>,
    pub kernel_version: Seq<char>,
    pub hostname: Seq<char>,
    pub motherboard_name: Seq<char>,
    pub motherboard_vendor_name: Seq<char>,
    pub motherboard_version: Seq<char>,
    pub motherboard_serial_number: Seq<char>,
    pub processors: Seq<ProcessorView>,
    pub memory_total_mb: u64,
    pub memory_used_mb: u64,
    pub networks: Seq<NetworkView>,
}

impl View for TelemetrySnapshot {
    type V = SnapshotView;

    open spec fn view(&self) -> SnapshotView {
        SnapshotView {
            os_name: self.os_name@,
            os_version: self.os_version@,
            kernel_version: self.kernel_version@,
            hostname: self.hostname@,
            motherboard_name: self.motherboard_name@,
            motherboard_vendor_name: self.motherboard_vendor_name@,
            motherboard_version: self.motherboard_version@,
            motherboard_serial_number: self.motherboard_serial_number@,
            processors: self.processors@.map_values(|p: ProcessorSample| p@),
            memory_total_mb: self.memory_total_mb,
            memory_used_mb: self.memory_used_mb,
            networks: self.networks@.map_values(|n: NetworkInterfaceSample| n@),
        }
    }
}

impl SnapshotView {
    /// Every processor of the snapshot is well formed.
    pub open spec fn wf(self) -> bool {
        forall|i: int| 0 <= i < self.processors.len() ==> #[trigger] self.processors[i].wf()
    }

    /// The value the store holds before the first pass: empty text, zero
    /// counters, no processors and no interfaces.
    pub open spec fn initial() -> SnapshotView {
        SnapshotView {
            os_name: Seq::empty(),
            os_version: Seq::empty(),
            kernel_version: Seq::empty(),
            hostname: Seq::empty(),
            motherboard_name: Seq::empty(),
            motherboard_vendor_name: Seq::empty(),
            motherboard_version: Seq::empty(),
            motherboard_serial_number: Seq::empty(),
            processors: Seq::empty(),
            memory_total_mb: 0,
            memory_used_mb: 0,
            networks: Seq::empty(),
        }
    }
}

impl ProcessorSample {
    /// An independent copy with the same contents.
    pub fn deep_copy(&self) -> (r: ProcessorSample)
        ensures
            r@ == self@,
    {
        let mut cores: Vec<CoreSample> = Vec::new();
        let mut i: usize = 0;
        while i < self.cores.len()
            invariant
                i <= self.cores.len(),
                cores@ == self.cores@.subrange(0, i as int),
            decreases self.cores.len() - i,
        {
            cores.push(self.cores[i]);
            i = i + 1;
        }
        assert(cores@ =~= self.cores@);
        ProcessorSample {
            name: self.name.clone(),
            brand: self.brand.clone(),
            arch: self.arch.clone(),
            cores,
            total_usage_hundredths: self.total_usage_hundredths,
        }
    }
}

impl NetworkInterfaceSample {
    /// An independent copy with the same contents.
    pub fn deep_copy(&self) -> (r: NetworkInterfaceSample)
        ensures
            r@ == self@,
    {
        NetworkInterfaceSample {
            name: self.name.clone(),
            mac_address: self.mac_address.clone(),
            ipv4: self.ipv4.clone(),
            received: self.received,
            transmitted: self.transmitted,
            total_received: self.total_received,
            total_transmitted: self.total_transmitted,
            mtu: self.mtu,
        }
    }
}

/// Copies a sequence of interfaces element by element.
pub fn copy_networks(v: &Vec<NetworkInterfaceSample>) -> (r: Vec<NetworkInterfaceSample>)
    ensures
        r@.map_values(|n: NetworkInterfaceSample| n@) == v@.map_values(
            |n: NetworkInterfaceSample| n@,
        ),
{
    let mut out: Vec<NetworkInterfaceSample> = Vec::new();
    let mut i: usize = 0;
    while i < v.len()
        invariant
            i <= v.len(),
            out@.len() == i,
            forall|j: int| 0 <= j < i ==> #[trigger] out@[j]@ == v@[j]@,
        decreases v.len() - i,
    {
        out.push(v[i].deep_copy());
        i = i + 1;
    }
    assert(out@.map_values(|n: NetworkInterfaceSample| n@) =~= v@.map_values(
        |n: NetworkInterfaceSample| n@,
    ));
    out
}

impl TelemetrySnapshot {
    /// The snapshot held before any pass has completed.
    pub fn initial() -> (r: TelemetrySnapshot)
        ensures
            r@ == SnapshotView::initial(),
    {
        let r = TelemetrySnapshot {
            os_name: String::new(),
            os_version: String::new(),
            kernel_version: String::new(),
            hostname: String::new(),
            motherboard_name: String::new(),
            motherboard_vendor_name: String::new(),
            motherboard_version: String::new(),
            motherboard_serial_number: String::new(),
            processors: Vec::new(),
            memory_total_mb: 0,
            memory_used_mb: 0,
            networks: Vec::new(),
        };
        assert(r@.processors =~= Seq::<ProcessorView>::empty());
        assert(r@.networks =~= Seq::<NetworkView>::empty());
        r
    }

    /// Whether every processor has cores and the utilization of its first one.
    pub fn is_well_formed(&self) -> (r: bool)
        ensures
            r == self@.wf(),
    {
        let mut i: usize = 0;
        while i < self.processors.len()
            invariant
                i <= self.processors.len(),
                forall|j: int| 0 <= j < i ==> #[trigger] self@.processors[j].wf(),
            decreases self.processors.len() - i,
        {
            let p = &self.processors[i];
            assert(self@.processors[i as int] == p@);
            if p.cores.len() == 0 || p.total_usage_hundredths != p.cores[0].usage_hundredths {
                assert(!self@.processors[i as int].wf());
                return false;
            }
            i = i + 1;
        }
        true
    }

    /// An independent copy with the same contents: no part of the result
    /// is shared with `self`.
    pub fn deep_copy(&self) -> (r: TelemetrySnapshot)
        ensures
            r@ == self@,
    {
        let mut processors: Vec<ProcessorSample> = Vec::new();
        let mut i: usize = 0;
        while i < self.processors.len()
            invariant
                i <= self.processors.len(),
                processors@.len() == i,
                forall|j: int| 0 <= j < i ==> #[trigger] processors@[j]@ == self.processors@[j]@,
            decreases self.processors.len() - i,
        {
            processors.push(self.processors[i].deep_copy());
            i = i + 1;
        }
        let r = TelemetrySnapshot {
            os_name: self.os_name.clone(),
            os_version: self.os_version.clone(),
            kernel_version: self.kernel_version.clone(),
            hostname: self.hostname.clone(),
            motherboard_name: self.motherboard_name.clone(),
            motherboard_vendor_name: self.motherboard_vendor_name.clone(),
            motherboard_version: self.motherboard_version.clone(),
            motherboard_serial_number: self.motherboard_serial_number.clone(),
            processors,
            memory_total_mb: self.memory_total_mb,
            memory_used_mb: self.memory_used_mb,
            networks: copy_networks(&self.networks),
        };
        assert(r@.processors =~= self@.processors);
        r
    }
}

} // verus!
