//! The benchmark report builder: default circuit size, fixed system labels,
//! and all-zero measurement leaves.
use ecdsa_circuit::report::{report_for, SystemKind};

#[test]
fn test_report_defaults_to_small() {
    let report = report_for(SystemKind::Halo2, None, String::from("1970-01-01T00:00:00+00:00"));
    assert_eq!(report.circuit_size, "small");
    assert_eq!(report.system, "halo2");
    assert_eq!(report.operation, "operation_name");
    assert_eq!(report.timestamp, "1970-01-01T00:00:00+00:00");
    // Every declared numeric leaf is zero.
    assert_eq!(report.time_metrics.setup_time_ms, 0);
    assert_eq!(report.time_metrics.proving_time_ms, 0);
    assert_eq!(report.time_metrics.verification_time_ms, 0);
    assert_eq!(report.time_metrics.total_execution_time_ms, 0);
    assert_eq!(report.resource_metrics.peak_memory_usage_kb, 0);
    assert_eq!(report.resource_metrics.proof_size_bytes, 0);
    assert_eq!(report.resource_metrics.cpu_utilization_percent, 0);
    assert_eq!(report.resource_metrics.gpu_utilization_percent, 0);
    assert_eq!(report.setup_metrics.setup_size_bytes, 0);
    assert_eq!(report.security_metrics.security_level_bits, 0);
    assert_eq!(report.scalability_metrics.constraints_count, 0);
    assert_eq!(report.scalability_metrics.variables_count, 0);
    assert_eq!(report.scalability_metrics.degree, 0);
    assert_eq!(report.performance_metrics.throughput_proofs_per_second, 0);
    assert_eq!(report.performance_metrics.latency_ms, 0);
    assert_eq!(report.system_requirements.minimum_memory_gb, 0);
    assert_eq!(report.system_requirements.recommended_cpu_cores, 0);
    assert_eq!(report.system_requirements.disk_space_gb, 0);
    // The halo2 harness carries no system-specific extension objects.
    assert!(report.network_metrics.is_none());
    assert!(report.execution_metrics.is_none());
}

#[test]
fn test_report_keeps_given_size() {
    let report = report_for(
        SystemKind::Miden,
        Some(String::from("large")),
        String::from("2024-01-01T00:00:00+00:00"),
    );
    assert_eq!(report.circuit_size, "large");
    assert_eq!(report.system, "miden");
    assert_eq!(report.security_metrics.security_level_bits, 128);
    assert!(report.security_metrics.post_quantum_resistant);
}

#[test]
fn test_report_system_names() {
    assert_eq!(SystemKind::Halo2.name(), "halo2");
    assert_eq!(SystemKind::AleoSnarkos.name(), "aleo-snarkos");
    assert_eq!(SystemKind::AleoSnarkvm.name(), "aleo-snarkvm");
    assert_eq!(SystemKind::Miden.name(), "miden");
    assert_eq!(SystemKind::Nexus.name(), "nexus");
}

#[test]
fn test_report_extension_objects() {
    let ts = String::from("1970-01-01T00:00:00+00:00");
    let node = report_for(SystemKind::AleoSnarkos, None, ts.clone());
    let network = node.network_metrics.expect("node harness reports network metrics");
    assert_eq!(network.block_height, 0);
    assert_eq!(network.connected_peers, 0);
    assert_eq!(network.sync_status, "");
    assert!(node.execution_metrics.is_none());

    let vm = report_for(SystemKind::AleoSnarkvm, None, ts);
    let execution = vm.execution_metrics.expect("vm harness reports execution metrics");
    assert_eq!(execution.program_id, "");
    assert_eq!(execution.input_size, 0);
    assert!(vm.network_metrics.is_none());
}
