use oracle::ids::InvestigationId;
use oracle::types::{ArtifactClass, ConfidenceClassification, SecurityProtocol};

#[test]
fn test_confidence_classification_boundaries() {
    assert_eq!(ConfidenceClassification::from_score(10000), ConfidenceClassification::Definitive);
    assert_eq!(ConfidenceClassification::from_score(9500), ConfidenceClassification::Definitive);
    assert_eq!(ConfidenceClassification::from_score(9400), ConfidenceClassification::High);
    assert_eq!(ConfidenceClassification::from_score(8000), ConfidenceClassification::High);
    assert_eq!(ConfidenceClassification::from_score(7900), ConfidenceClassification::Moderate);
    assert_eq!(ConfidenceClassification::from_score(5000), ConfidenceClassification::Moderate);
    assert_eq!(ConfidenceClassification::from_score(4900), ConfidenceClassification::Low);
    assert_eq!(ConfidenceClassification::from_score(0), ConfidenceClassification::Low);
}

#[test]
fn test_artifact_class_baseline_reliability() {
    assert_eq!(ArtifactClass::KernelLogs.baseline_reliability(), 9900);
    assert_eq!(ArtifactClass::Unknown.baseline_reliability(), 3000);
    // Ensure all classes return a value in [0, 1]
    let all_classes = [
        ArtifactClass::WpaSupplicant, ArtifactClass::WifiConfigStore,
        ArtifactClass::DhcpLeases, ArtifactClass::BatteryStats,
        ArtifactClass::ConnectivityLogs, ArtifactClass::KernelLogs,
        ArtifactClass::HostapdLogs, ArtifactClass::DnsCache,
        ArtifactClass::NetworkPolicy, ArtifactClass::BuildProp,
        ArtifactClass::Unknown,
    ];
    for class in &all_classes {
        let score = class.baseline_reliability();
        assert!(score <= 10000, "{:?} has invalid baseline: {}", class, score);
    }
}

#[test]
fn test_investigation_id_uniqueness() {
    let id1 = InvestigationId::new();
    let id2 = InvestigationId::new();
    assert_ne!(id1, id2);
}

#[test]
fn test_security_protocol_display() {
    assert_eq!(SecurityProtocol::Wpa2Psk.to_string(), "WPA2-PSK");
    assert_eq!(SecurityProtocol::Open.to_string(), "OPEN");
}

#[test]
fn classification_display_labels() {
    assert_eq!(ConfidenceClassification::Definitive.to_string(), "DEFINITIVE");
    assert_eq!(ConfidenceClassification::Contradicted.to_string(), "CONTRADICTED");
    assert_eq!(SecurityProtocol::EapTls.to_string(), "EAP-TLS");
}

#[test]
fn investigation_id_is_version_four_and_hyphenated() {
    let id = InvestigationId::new();
    assert_eq!((id.0 >> 76) & 0xF, 4);
    assert_eq!((id.0 >> 62) & 0x3, 2);
    let text = id.to_string();
    assert_eq!(text.len(), 36);
    assert_eq!(text, uuid::Uuid::from_u128(id.0).hyphenated().to_string());
}

#[test]
fn investigation_id_text_is_lower_case_hyphenated() {
    let id = InvestigationId(0x67e5504410b1426f9247bb680e5fe0c8);
    assert_eq!(id.to_string(), "67e55044-10b1-426f-9247-bb680e5fe0c8");
}
