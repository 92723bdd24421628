//! The benchmark report: the document each per-proving-system harness
//! prints, as plain typed data.  Every measurement field holds zero until
//! measurement code exists; only the labels (operation, system, circuit
//! size, timestamp) and a few fixed capability flags vary by system.
//! Fractional leaves are carried as whole numbers here and rendered as
//! floating-point by the emitting binary.
use vstd::prelude::*;

verus! {

/// Elapsed-time measurements, in milliseconds.
#[derive(Clone, Debug)]
pub struct TimeMetrics {
    /// Time for initial setup.
    pub setup_time_ms: u64,
    /// Time to generate a proof.
    pub proving_time_ms: u64,
    /// Time to verify a proof.
    pub verification_time_ms: u64,
    /// Total execution time.
    pub total_execution_time_ms: u64,
    /// Block production time, for the node-style harness only.
    pub block_production_time_ms: Option<u64>,
    /// Consensus time, for the node-style harness only.
    pub consensus_time_ms: Option<u64>,
}

/// Resource usage measurements.
#[derive(Clone, Debug)]
pub struct ResourceMetrics {
    /// Peak memory during execution, in kilobytes.
    pub peak_memory_usage_kb: u64,
    /// Size of the generated proof, in bytes.
    pub proof_size_bytes: u64,
    /// Processor utilization while proving, in percent.
    pub cpu_utilization_percent: u64,
    /// Graphics-processor utilization, in percent, if applicable.
    pub gpu_utilization_percent: u64,
}

/// Setup characteristics.
#[derive(Clone, Debug)]
pub struct SetupMetrics {
    /// The kind of setup the system needs.
    pub setup_type: &'static str,
    /// Size of the setup artifact, in bytes.
    pub setup_size_bytes: u64,
    /// Whether the setup can be reused across circuits.
    pub setup_reusable: bool,
}

/// Capability flags.
#[derive(Clone, Debug)]
pub struct Features {
    /// Whether proofs can attest to other proofs.
    pub recursive_proofs: bool,
    /// Whether one setup covers arbitrary circuits.
    pub universal_circuits: bool,
    /// Whether proving parallelizes.
    pub parallel_proving: bool,
    /// Whether verification parallelizes.
    pub parallel_verification: bool,
    /// Whether custom gates are supported.
    pub custom_gates: bool,
    /// Whether proofs are zero-knowledge, where the harness declares it.
    pub zero_knowledge: Option<bool>,
    /// Native field operations, where the harness declares it.
    pub native_field_operations: Option<bool>,
    /// Native lookup support, where the harness declares it.
    pub native_lookups: Option<bool>,
}

/// Security characteristics.
#[derive(Clone, Debug)]
pub struct SecurityMetrics {
    /// Whether the system resists quantum attacks.
    pub post_quantum_resistant: bool,
    /// The claimed security level, in bits.
    pub security_level_bits: u64,
    /// The hardness assumptions relied on.
    pub assumptions: Vec<&'static str>,
}

/// Scalability measurements.
#[derive(Clone, Debug)]
pub struct ScalabilityMetrics {
    /// Number of constraints.
    pub constraints_count: u64,
    /// Number of variables.
    pub variables_count: u64,
    /// Degree of the constraint system.
    pub degree: u64,
    /// Theoretical proving complexity.
    pub proving_complexity_class: &'static str,
    /// Theoretical verification complexity.
    pub verification_complexity_class: &'static str,
    /// Network transactions per second, for the node-style harness only.
    pub network_tps: Option<u64>,
    /// Block capacity, for the node-style harness only.
    pub block_capacity: Option<u64>,
    /// Lookup table size, where the harness declares it.
    pub lookup_table_size: Option<u64>,
}

/// Additional performance measurements.
#[derive(Clone, Debug)]
pub struct PerformanceMetrics {
    /// Whole proofs per second; rendered fractional by the emitter.
    pub throughput_proofs_per_second: u64,
    /// Latency, in milliseconds.
    pub latency_ms: u64,
    /// Whether batch proving is supported.
    pub batch_proving_supported: bool,
    /// Whether batch verification is supported.
    pub batch_verification_supported: bool,
    /// Block time, for the node-style harness only.
    pub block_time_ms: Option<u64>,
    /// Network latency, for the node-style harness only.
    pub network_latency_ms: Option<u64>,
}

/// Hardware the system asks for.
#[derive(Clone, Debug)]
pub struct SystemRequirements {
    /// Minimum memory, in gigabytes.
    pub minimum_memory_gb: u64,
    /// Recommended number of processor cores.
    pub recommended_cpu_cores: u64,
    /// Whether a graphics processor is required.
    pub gpu_required: bool,
    /// Disk space, in gigabytes.
    pub disk_space_gb: u64,
    /// Required network bandwidth, for the node-style harness only.
    pub network_bandwidth_required: Option<u64>,
}

/// Node-network measurements, for the node-style harness.
#[derive(Clone, Debug)]
pub struct NetworkMetrics {
    /// Current block height.
    pub block_height: u64,
    /// Network difficulty.
    pub network_difficulty: u64,
    /// Number of connected peers.
    pub connected_peers: u64,
    /// Synchronization status.
    pub sync_status: &'static str,
    /// Number of transactions waiting in the pool.
    pub mempool_size: u64,
}

/// Program-execution measurements, for the virtual-machine harness.
#[derive(Clone, Debug)]
pub struct ExecutionMetrics {
    /// The executed program's identifier.
    pub program_id: &'static str,
    /// The executed function's identifier.
    pub function_id: &'static str,
    /// Input size.
    pub input_size: u64,
    /// Output size.
    pub output_size: u64,
    /// Stack size.
    pub stack_size: u64,
    /// Registers used.
    pub register_usage: u64,
}

/// The proving systems a harness instance can report for.
#[derive(Clone, Copy, Debug, PartialEq, Eq, Structural)]
pub enum SystemKind {
    /// The halo2 circuit harness.
    Halo2,
    /// The Aleo node harness.
    AleoSnarkos,
    /// The Aleo virtual-machine harness.
    AleoSnarkvm,
    /// The Miden harness.
    Miden,
    /// The Nexus harness.
    Nexus,
}

/// The fixed identifying string of a harness instance.
pub open spec fn spec_system_name(k: SystemKind) -> Seq<char> {
    match k {
        SystemKind::Halo2 => "halo2"@,
        SystemKind::AleoSnarkos => "aleo-snarkos"@,
        SystemKind::AleoSnarkvm => "aleo-snarkvm"@,
        SystemKind::Miden => "miden"@,
        SystemKind::Nexus => "nexus"@,
    }
}

impl SystemKind {
    /// The fixed identifying string of this harness instance.
    pub fn name(&self) -> (r: &'static str)
        ensures
            r@ == spec_system_name(*self),
    {
        match self {
            SystemKind::Halo2 => "halo2",
            SystemKind::AleoSnarkos => "aleo-snarkos",
            SystemKind::AleoSnarkvm => "aleo-snarkvm",
            SystemKind::Miden => "miden",
            SystemKind::Nexus => "nexus",
        }
    }
}

/// The whole report document.
#[derive(Clone, Debug)]
pub struct Report {
    /// The benchmarked operation's name.
    pub operation: &'static str,
    /// The proving system's fixed identifying string.
    pub system: &'static str,
    /// The circuit size label the harness was invoked with.
    pub circuit_size: String,
    /// When the report was produced, as an RFC 3339 string.
    pub timestamp: String,
    /// Elapsed-time measurements.
    pub time_metrics: TimeMetrics,
    /// Resource usage measurements.
    pub resource_metrics: ResourceMetrics,
    /// Setup characteristics.
    pub setup_metrics: SetupMetrics,
    /// Capability flags.
    pub features: Features,
    /// Security characteristics.
    pub security_metrics: SecurityMetrics,
    /// Scalability measurements.
    pub scalability_metrics: ScalabilityMetrics,
    /// Additional performance measurements.
    pub performance_metrics: PerformanceMetrics,
    /// Hardware the system asks for.
    pub system_requirements: SystemRequirements,
    /// Node-network measurements, present for the node-style harness only.
    pub network_metrics: Option<NetworkMetrics>,
    /// Program-execution measurements, present for the virtual-machine
    /// harness only.
    pub execution_metrics: Option<ExecutionMetrics>,
}

/// Every measurement leaf of the report is zero, counting the optional
/// leaves that are present.
pub open spec fn measurements_zero(r: Report) -> bool {
    &&& r.time_metrics.setup_time_ms == 0
    &&& r.time_metrics.proving_time_ms == 0
    &&& r.time_metrics.verification_time_ms == 0
    &&& r.time_metrics.total_execution_time_ms == 0
    &&& r.time_metrics.block_production_time_ms matches Some(v) ==> v == 0
    &&& r.time_metrics.consensus_time_ms matches Some(v) ==> v == 0
    &&& r.resource_metrics.peak_memory_usage_kb == 0
    &&& r.resource_metrics.proof_size_bytes == 0
    &&& r.resource_metrics.cpu_utilization_percent == 0
    &&& r.resource_metrics.gpu_utilization_percent == 0
    &&& r.setup_metrics.setup_size_bytes == 0
    &&& r.scalability_metrics.constraints_count == 0
    &&& r.scalability_metrics.variables_count == 0
    &&& r.scalability_metrics.degree == 0
    &&& r.scalability_metrics.network_tps matches Some(v) ==> v == 0
    &&& r.scalability_metrics.block_capacity matches Some(v) ==> v == 0
    &&& r.scalability_metrics.lookup_table_size matches Some(v) ==> v == 0
    &&& r.performance_metrics.throughput_proofs_per_second == 0
    &&& r.performance_metrics.latency_ms == 0
    &&& r.performance_metrics.block_time_ms matches Some(v) ==> v == 0
    &&& r.performance_metrics.network_latency_ms matches Some(v) ==> v == 0
    &&& r.system_requirements.minimum_memory_gb == 0
    &&& r.system_requirements.recommended_cpu_cores == 0
    &&& r.system_requirements.disk_space_gb == 0
    &&& r.system_requirements.network_bandwidth_required matches Some(v) ==> v == 0
    &&& r.network_metrics matches Some(n) ==> n.block_height == 0 && n.network_difficulty == 0
        && n.connected_peers == 0 && n.mempool_size == 0
    &&& r.execution_metrics matches Some(e) ==> e.input_size == 0 && e.output_size == 0
        && e.stack_size == 0 && e.register_usage == 0
}

/// The claimed security level of each harness instance: the halo2 template
/// leaves it unmeasured at zero, the others declare 128 bits.
pub open spec fn spec_security_bits(k: SystemKind) -> nat {
    if k is Halo2 {
        0
    } else {
        128
    }
}

/// Builds the report a harness instance emits before any measurement code
/// runs: the given circuit size (defaulting to `"small"` when absent), the
/// supplied timestamp, the system's fixed labels and capability flags, and
/// zero in every measurement leaf.
pub fn report_for(system: SystemKind, circuit_size: Option<String>, timestamp: String) -> (r:
    Report)
    ensures
        r.operation@ == "operation_name"@,
        r.system@ == spec_system_name(system),
        (match circuit_size {
            Some(s) => r.circuit_size@ == s@,
            None => r.circuit_size@ == "small"@,
        }),
        r.timestamp@ == timestamp@,
        measurements_zero(r),
        r.security_metrics.security_level_bits == spec_security_bits(system),
        r.network_metrics is Some <==> system is AleoSnarkos,
        r.execution_metrics is Some <==> system is AleoSnarkvm,
{
    let size = match circuit_size {
        Some(s) => s,
        None => String::from_str("small"),
    };
    let node_style = matches!(system, SystemKind::AleoSnarkos);
    let vm_style = matches!(system, SystemKind::AleoSnarkvm);
    let halo2_style = matches!(system, SystemKind::Halo2);
    let post_quantum = matches!(system, SystemKind::Miden | SystemKind::Nexus);
    let opt_zero: Option<u64> = if node_style {
        Some(0)
    } else {
        None
    };
    Report {
        operation: "operation_name",
        system: system.name(),
        circuit_size: size,
        timestamp,
        time_metrics: TimeMetrics {
            setup_time_ms: 0,
            proving_time_ms: 0,
            verification_time_ms: 0,
            total_execution_time_ms: 0,
            block_production_time_ms: opt_zero,
            consensus_time_ms: opt_zero,
        },
        resource_metrics: ResourceMetrics {
            peak_memory_usage_kb: 0,
            proof_size_bytes: 0,
            cpu_utilization_percent: 0,
            gpu_utilization_percent: 0,
        },
        setup_metrics: SetupMetrics {
            setup_type: match system {
                SystemKind::Halo2 => "trusted/transparent",
                SystemKind::AleoSnarkos => "universal_srs",
                SystemKind::AleoSnarkvm => "universal_srs",
                SystemKind::Miden => "transparent",
                SystemKind::Nexus => "transparent",
            },
            setup_size_bytes: 0,
            setup_reusable: !halo2_style,
        },
        features: Features {
            recursive_proofs: !halo2_style,
            universal_circuits: !halo2_style,
            parallel_proving: !halo2_style,
            parallel_verification: !halo2_style,
            custom_gates: !halo2_style,
            zero_knowledge: if matches!(system, SystemKind::Nexus) {
                Some(true)
            } else {
                None
            },
            native_field_operations: if matches!(system, SystemKind::Miden) {
                Some(true)
            } else {
                None
            },
            native_lookups: if matches!(system, SystemKind::Nexus) {
                Some(true)
            } else {
                None
            },
        },
        security_metrics: SecurityMetrics {
            post_quantum_resistant: post_quantum,
            security_level_bits: if halo2_style {
                0
            } else {
                128
            },
            assumptions: assumptions_for(system),
        },
        scalability_metrics: ScalabilityMetrics {
            constraints_count: 0,
            variables_count: 0,
            degree: 0,
            proving_complexity_class: "O(n log n)",
            verification_complexity_class: if halo2_style {
                "O(n)"
            } else {
                "O(1)"
            },
            network_tps: opt_zero,
            block_capacity: opt_zero,
            lookup_table_size: if matches!(system, SystemKind::Nexus) {
                Some(0)
            } else {
                None
            },
        },
        performance_metrics: PerformanceMetrics {
            throughput_proofs_per_second: 0,
            latency_ms: 0,
            batch_proving_supported: !halo2_style,
            batch_verification_supported: !halo2_style,
            block_time_ms: opt_zero,
            network_latency_ms: opt_zero,
        },
        system_requirements: SystemRequirements {
            minimum_memory_gb: 0,
            recommended_cpu_cores: 0,
            gpu_required: false,
            disk_space_gb: 0,
            network_bandwidth_required: opt_zero,
        },
        network_metrics: if node_style {
            Some(
                NetworkMetrics {
                    block_height: 0,
                    network_difficulty: 0,
                    connected_peers: 0,
                    sync_status: "",
                    mempool_size: 0,
                },
            )
        } else {
            None
        },
        execution_metrics: if vm_style {
            Some(
                ExecutionMetrics {
                    program_id: "",
                    function_id: "",
                    input_size: 0,
                    output_size: 0,
                    stack_size: 0,
                    register_usage: 0,
                },
            )
        } else {
            None
        },
    }
}

/// The hardness assumptions each harness instance declares.
fn assumptions_for(system: SystemKind) -> (r: Vec<&'static str>)
    ensures
        r@.len() == 2,
{
    let mut v: Vec<&'static str> = Vec::new();
    match system {
        SystemKind::Halo2 => {
            v.push("discrete_log");
            v.push("etc");
        },
        SystemKind::AleoSnarkos => {
            v.push("discrete_log");
            v.push("collision_resistant_hash");
        },
        SystemKind::AleoSnarkvm => {
            v.push("discrete_log");
            v.push("collision_resistant_hash");
        },
        SystemKind::Miden => {
            v.push("collision_resistant_hash");
            v.push("AIR_soundness");
        },
        SystemKind::Nexus => {
            v.push("collision_resistant_hash");
            v.push("discrete_log");
        },
    }
    v
}

} // verus!
