use std::collections::HashMap;

use oracle::acquisition::{
    AcquisitionCoordinator, AdbShell, ArtifactManifest, DiscoveredArtifact,
};
use oracle::ids::InvestigationId;
use oracle::types::ArtifactClass;
use sha2::Digest;

const TEST_SERIAL: &str = "MOCK123456";

/// A shell that answers only the commands it was given responses for.
struct MockAdbShell {
    responses: HashMap<(String, String), String>,
}

impl MockAdbShell {
    fn new() -> Self {
        MockAdbShell { responses: HashMap::new() }
    }

    fn add_command_response(&mut self, serial: &str, command: &str, response: &str) {
        self.responses
            .insert((serial.to_string(), command.to_string()), response.to_string());
    }
}

impl AdbShell for MockAdbShell {
    fn shell_command(&self, serial: &str, command: &str) -> Result<String, String> {
        self.responses
            .get(&(serial.to_string(), command.to_string()))
            .cloned()
            .ok_or_else(|| format!("ADB command failed: {}", command))
    }
}

fn expected_hash(bytes: &[u8]) -> String {
    sha2::Sha256::digest(bytes).iter().map(|b| format!("{:02x}", b)).collect()
}

fn manifest_of(found: Vec<DiscoveredArtifact>) -> ArtifactManifest {
    ArtifactManifest { investigation_id: InvestigationId::new(), discovered_artifacts: found }
}

#[test]
fn test_acquire_single_artifact() {
    let mut adb = MockAdbShell::new();
    let artifact = DiscoveredArtifact {
        artifact_class: ArtifactClass::BuildProp,
        device_path: "/system/build.prop".to_string(),
        file_size: Some(128),
    };

    let fake_content = "ro.product.model=Pixel 8\nro.build.fingerprint=google/...\n";
    adb.add_command_response(TEST_SERIAL, "cat '/system/build.prop'", fake_content);

    let acquired = AcquisitionCoordinator::acquire_artifact(&adb, TEST_SERIAL, &artifact)
        .expect("acquisition should succeed");

    assert_eq!(acquired.artifact_class, ArtifactClass::BuildProp);
    assert_eq!(acquired.device_path, "/system/build.prop");
    assert_eq!(acquired.raw_bytes, fake_content.as_bytes());

    // Verify the hash matches the SHA-256 of the content.
    let expected = expected_hash(fake_content.as_bytes());
    assert_eq!(acquired.sha256_hash, expected);
}

#[test]
fn test_acquire_all_mixed() {
    let mut adb = MockAdbShell::new();

    let wpa_content = "network={\n  ssid=\"TestWifi\"\n}\n";
    adb.add_command_response(
        TEST_SERIAL,
        "cat '/data/misc/wifi/wpa_supplicant.conf'",
        wpa_content,
    );
    // No response for build.prop → will fail.

    let manifest = manifest_of(vec![
        DiscoveredArtifact {
            artifact_class: ArtifactClass::WpaSupplicant,
            device_path: "/data/misc/wifi/wpa_supplicant.conf".to_string(),
            file_size: Some(64),
        },
        DiscoveredArtifact {
            artifact_class: ArtifactClass::BuildProp,
            device_path: "/system/build.prop".to_string(),
            file_size: Some(128),
        },
    ]);

    let report = AcquisitionCoordinator::acquire_all(&adb, TEST_SERIAL, &manifest);

    assert_eq!(report.successful.len(), 1);
    assert_eq!(report.failed.len(), 1);
    assert_eq!(report.successful[0].artifact_class, ArtifactClass::WpaSupplicant);
    assert_eq!(report.failed[0].artifact_class, ArtifactClass::BuildProp);
    assert_eq!(report.total_bytes, wpa_content.len() as u64);
}

#[test]
fn test_acquire_all_empty_manifest() {
    let adb = MockAdbShell::new();
    let manifest = manifest_of(vec![]);
    let report = AcquisitionCoordinator::acquire_all(&adb, TEST_SERIAL, &manifest);

    assert!(report.successful.is_empty());
    assert!(report.failed.is_empty());
    assert_eq!(report.total_bytes, 0);
}

#[test]
fn test_acquisition_report_duration() {
    let adb = MockAdbShell::new();
    let manifest = manifest_of(vec![]);
    let report = AcquisitionCoordinator::acquire_all(&adb, TEST_SERIAL, &manifest);

    // Duration should be very small for an empty manifest.
    assert!(report.duration.as_secs() < 1);
}

#[test]
fn pull_command_quotes_the_path() {
    let cmd = AcquisitionCoordinator::pull_command("/data/misc/wifi/WifiConfigStore.xml");
    assert_eq!(cmd, "cat '/data/misc/wifi/WifiConfigStore.xml'");
}

#[test]
fn failed_pull_keeps_the_shell_reason_and_order() {
    let adb = MockAdbShell::new();
    let manifest = manifest_of(vec![
        DiscoveredArtifact {
            artifact_class: ArtifactClass::DnsCache,
            device_path: "/a".to_string(),
            file_size: None,
        },
        DiscoveredArtifact {
            artifact_class: ArtifactClass::KernelLogs,
            device_path: "/b".to_string(),
            file_size: None,
        },
    ]);
    let report = AcquisitionCoordinator::acquire_all(&adb, TEST_SERIAL, &manifest);
    assert_eq!(report.successful.len(), 0);
    assert_eq!(report.failed.len(), 2);
    assert_eq!(report.failed[0].device_path, "/a");
    assert_eq!(report.failed[0].reason, "ADB command failed: cat '/a'");
    assert_eq!(report.failed[1].artifact_class, ArtifactClass::KernelLogs);
}

#[test]
fn record_pull_hashes_utf8_bytes_of_the_output() {
    let artifact = DiscoveredArtifact {
        artifact_class: ArtifactClass::HostapdLogs,
        device_path: "/x".to_string(),
        file_size: None,
    };
    let acquired =
        AcquisitionCoordinator::record_pull(&artifact, Ok("é".to_string())).expect("ok output");
    assert_eq!(acquired.raw_bytes, vec![0xC3, 0xA9]);
    assert_eq!(acquired.sha256_hash, expected_hash(&[0xC3, 0xA9]));
    let empty = AcquisitionCoordinator::record_pull(&artifact, Ok(String::new())).unwrap();
    assert_eq!(
        empty.sha256_hash,
        "e3b0c44298fc1c149afbf4c8996fb92427ae41e4649b934ca495991b7852b855"
    );
    let failed = AcquisitionCoordinator::record_pull(&artifact, Err("offline".to_string()));
    assert_eq!(failed.unwrap_err(), "offline");
}

#[test]
fn acquire_all_takes_bytes_and_reasons_from_the_shell() {
    let mut adb = MockAdbShell::new();
    adb.add_command_response(TEST_SERIAL, "cat '/b'", "second");
    let manifest = manifest_of(vec![
        DiscoveredArtifact { artifact_class: ArtifactClass::DnsCache, device_path: "/a".to_string(), file_size: None },
        DiscoveredArtifact { artifact_class: ArtifactClass::KernelLogs, device_path: "/b".to_string(), file_size: None },
    ]);
    let report = AcquisitionCoordinator::acquire_all(&adb, TEST_SERIAL, &manifest);
    assert_eq!(report.successful.len(), 1);
    assert_eq!(report.successful[0].raw_bytes, b"second".to_vec());
    assert_eq!(report.successful[0].sha256_hash, expected_hash(b"second"));
    assert_eq!(report.failed[0].reason, "ADB command failed: cat '/a'");
    assert_eq!(report.total_bytes, 6);
}
