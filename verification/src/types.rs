//! Core types: the forensic ontology shared across all ORACLE subsystems.
//!
//! Every subsystem that stores, transmits, or processes evidence records uses
//! these types to ensure provenance traceability and cross-module consistency.
use vstd::prelude::*;
use vstd::string::*;
use crate::ids::ArtifactId;
use crate::time::UtcInstant;

verus! {

/// Identifies the forensic examiner operating the platform.
/// Recorded in every audit log entry and chain of custody record.
#[derive(Debug, Clone, PartialEq, Eq)]
pub struct ExaminerIdentity {
    /// Full legal name of the examiner.
    pub name: String,
    /// Badge number or employee identifier within the forensic lab.
    pub badge_id: String,
    /// The forensic laboratory or agency name.
    pub organization: String,
}

/// Complete identity profile of the target Android device.
/// Populated by the Capability Detection Engine before any acquisition.
#[derive(Debug, Clone, PartialEq, Eq)]
pub struct DeviceIdentity {
    /// Device serial number (from `ro.serialno` or ADB).
    pub serial: String,
    /// OEM manufacturer (e.g., "samsung", "Google", "Xiaomi").
    pub manufacturer: String,
    /// Device model (e.g., "SM-S928B", "Pixel 8 Pro").
    pub model: String,
    /// Android version string (e.g., "14").
    pub android_version: String,
    /// API level (e.g., 34).
    pub api_level: u32,
    /// Security patch level (e.g., "2024-12-01").
    pub security_patch_level: String,
    /// Build fingerprint: uniquely identifies the exact firmware build.
    pub build_fingerprint: String,
    /// OEM skin name if detectable (e.g., "One UI", "HyperOS").
    pub oem_skin: Option<String>,
    /// OEM skin version if detectable.
    pub oem_skin_version: Option<String>,
}

/// The root access method detected on the device.
#[derive(Debug, Clone, Copy, PartialEq, Eq, Structural)]
pub enum RootMethod {
    /// No root access available.
    NoRoot,
    /// Magisk systemless root detected.
    Magisk,
    /// Traditional system-level su binary detected.
    SystemRoot,
    /// ADB daemon running as root (engineering build or `adb root` success).
    AdbRoot,
    /// KernelSU detected.
    KernelSU,
}

/// SELinux enforcement mode on the target device.
#[derive(Debug, Clone, Copy, PartialEq, Eq, Structural)]
pub enum SelinuxMode {
    Enforcing,
    Permissive,
    Disabled,
    Unknown,
}

/// Bootloader lock state.
#[derive(Debug, Clone, Copy, PartialEq, Eq, Structural)]
pub enum BootloaderState {
    Locked,
    Unlocked,
    Tampered,
    Unknown,
}

/// File-Based Encryption (FBE) device state.
#[derive(Debug, Clone, Copy, PartialEq, Eq, Structural)]
pub enum EncryptionState {
    /// Before First Unlock: CE keys are evicted. Only DE storage is accessible.
    BeforeFirstUnlock,
    /// After First Unlock: CE keys are loaded. Full access if privileged.
    AfterFirstUnlock,
    /// Legacy Full Disk Encryption (pre-Android 10).
    FullDiskEncryption,
    /// Encryption state could not be determined.
    Unknown,
}

/// The acquisition method available for the device given its current state.
#[derive(Debug, Clone, Copy, PartialEq, Eq, Hash, Structural)]
pub enum AcquisitionMethod {
    /// Full filesystem extraction via rooted ADB shell.
    PrivilegedLogical,
    /// ADB backup-based extraction (limited scope).
    AdbBackup,
    /// Shell-user level extraction via `run-as` or accessible paths.
    UnprivilegedLogical,
    /// Content provider queries via instrumentation.
    ContentProvider,
    /// Static/offline image analysis (no live device required).
    OfflineImage,
}

/// The complete capability profile generated by the Capability Detection Engine.
///
/// Every downstream subsystem receives this profile and adapts its behavior
/// to only request operations that the profile confirms are possible.
#[derive(Debug, Clone)]
pub struct CapabilityProfile {
    /// The device identity.
    pub device: DeviceIdentity,
    /// Whether USB debugging is enabled.
    pub usb_debugging_enabled: bool,
    /// Whether ADB is authorized.
    pub adb_authorized: bool,
    /// Root availability and method.
    pub root_method: RootMethod,
    /// SELinux mode.
    pub selinux_mode: SelinuxMode,
    /// Bootloader lock state.
    pub bootloader_state: BootloaderState,
    /// FBE encryption state.
    pub encryption_state: EncryptionState,
    /// Acquisition methods available given the detected state.
    pub available_methods: Vec<AcquisitionMethod>,
    /// Artifact classes accessible under each method.
    pub accessible_artifact_classes: Vec<AccessibleArtifactClass>,
    /// Artifact classes that are inaccessible and the reason why.
    pub inaccessible_artifact_classes: Vec<InaccessibleArtifactClass>,
    /// Instant of capability detection.
    pub detected_at: UtcInstant,
    /// Whether the investigator has acknowledged this profile.
    pub acknowledged: bool,
}

/// An artifact class that is accessible under a given acquisition method.
#[derive(Debug, Clone, Copy, PartialEq, Eq, Structural)]
pub struct AccessibleArtifactClass {
    pub artifact_class: ArtifactClass,
    pub acquisition_method: AcquisitionMethod,
    /// Confidence in the access, in ten-thousandths (`SCORE_SCALE` is 1.0).
    pub confidence: u32,
}

/// An artifact class that is inaccessible, with forensic justification.
#[derive(Debug, Clone)]
pub struct InaccessibleArtifactClass {
    pub artifact_class: ArtifactClass,
    pub reason: String,
}

/// Classification of forensic artifact types recognized by the platform.
#[derive(Debug, Clone, Copy, PartialEq, Eq, Hash, Structural)]
pub enum ArtifactClass {
    /// WPA supplicant configuration (known networks).
    WpaSupplicant,
    /// WifiConfigStore XML (Android 8+).
    WifiConfigStore,
    /// DHCP lease records.
    DhcpLeases,
    /// Battery statistics with network correlation.
    BatteryStats,
    /// System connectivity logs.
    ConnectivityLogs,
    /// Kernel dmesg network events.
    KernelLogs,
    /// Hostapd (hotspot) configuration and logs.
    HostapdLogs,
    /// DNS resolver cache.
    DnsCache,
    /// Network policy data.
    NetworkPolicy,
    /// Build properties (device identity).
    BuildProp,
    /// Unknown or unclassified artifact.
    Unknown,
}

impl ArtifactClass {
    /// The baseline reliability of the artifact class, in ten-thousandths,
    /// as fixed by the Confidence Model v1.0 taxonomy.
    pub open spec fn reliability(self) -> u32 {
        match self {
            ArtifactClass::KernelLogs => 9900,
            ArtifactClass::WifiConfigStore => 9500,
            ArtifactClass::WpaSupplicant => 9000,
            ArtifactClass::DhcpLeases => 9200,
            ArtifactClass::ConnectivityLogs => 8500,
            ArtifactClass::BatteryStats => 8000,
            ArtifactClass::HostapdLogs => 8800,
            ArtifactClass::DnsCache => 7000,
            ArtifactClass::NetworkPolicy => 8500,
            ArtifactClass::BuildProp => 9900,
            ArtifactClass::Unknown => 3000,
        }
    }

    /// Returns the baseline reliability score for this artifact class, in
    /// ten-thousandths (0.99 is 9900).
    ///
    /// These values are constants defined by the Confidence Model v1.0
    /// and are documented in the forensic methodology disclosure.
    pub fn baseline_reliability(&self) -> (r: u32)
        ensures
            r == self.reliability(),
            r <= 10000,
    {
        match self {
            ArtifactClass::KernelLogs => 9900,
            ArtifactClass::WifiConfigStore => 9500,
            ArtifactClass::WpaSupplicant => 9000,
            ArtifactClass::DhcpLeases => 9200,
            ArtifactClass::ConnectivityLogs => 8500,
            ArtifactClass::BatteryStats => 8000,
            ArtifactClass::HostapdLogs => 8800,
            ArtifactClass::DnsCache => 7000,
            ArtifactClass::NetworkPolicy => 8500,
            ArtifactClass::BuildProp => 9900,
            ArtifactClass::Unknown => 3000,
        }
    }
}

/// The volatility classification of an artifact.
/// Volatile artifacts are cleared on reboot or under memory pressure.
#[derive(Debug, Clone, Copy, PartialEq, Eq, Structural)]
pub enum VolatilityClass {
    /// Persistent: survives reboot (e.g., configuration files).
    Persistent,
    /// Semi-volatile: survives reboot but may be rotated (e.g., log files).
    SemiVolatile,
    /// Volatile: lost on reboot (e.g., kernel ring buffer, RAM caches).
    Volatile,
}

/// The provenance of a piece of evidence, linking it back to its
/// exact source bytes in the original artifact.
#[derive(Debug, Clone, PartialEq, Eq)]
pub struct SourceReference {
    /// The artifact from which this record was extracted.
    pub artifact_id: ArtifactId,
    /// The SHA-256 hash of the source artifact at time of parsing.
    pub artifact_hash: String,
    /// The parser that produced this record.
    pub parser_id: String,
    /// The exact version of the parser.
    pub parser_version: String,
    /// Byte offset within the artifact where this record's source data begins.
    pub byte_offset: Option<u64>,
    /// Byte length of the source data for this record.
    pub byte_length: Option<u64>,
    /// Database row ID if the artifact is a SQLite database.
    pub db_row_id: Option<i64>,
    /// Instant when this parsing occurred.
    pub parsed_at: UtcInstant,
}

/// Wi-Fi security protocol taxonomy.
#[derive(Debug, Clone, Copy, PartialEq, Eq, Hash, Structural)]
pub enum SecurityProtocol {
    Open,
    Wep,
    WpaPsk,
    Wpa2Psk,
    Wpa3Sae,
    Owe,
    EapPeap,
    EapTls,
    Unknown,
}

impl SecurityProtocol {
    /// The display label of the protocol.
    pub open spec fn label(self) -> Seq<char> {
        match self {
            SecurityProtocol::Open => "OPEN"@,
            SecurityProtocol::Wep => "WEP"@,
            SecurityProtocol::WpaPsk => "WPA-PSK"@,
            SecurityProtocol::Wpa2Psk => "WPA2-PSK"@,
            SecurityProtocol::Wpa3Sae => "WPA3-SAE"@,
            SecurityProtocol::Owe => "OWE"@,
            SecurityProtocol::EapPeap => "EAP-PEAP"@,
            SecurityProtocol::EapTls => "EAP-TLS"@,
            SecurityProtocol::Unknown => "UNKNOWN"@,
        }
    }

    /// The display text of the protocol (e.g. `WPA2-PSK`).
    pub fn to_string(&self) -> (s: String)
        ensures
            s@ == self.label(),
    {
        let text = match self {
            SecurityProtocol::Open => "OPEN",
            SecurityProtocol::Wep => "WEP",
            SecurityProtocol::WpaPsk => "WPA-PSK",
            SecurityProtocol::Wpa2Psk => "WPA2-PSK",
            SecurityProtocol::Wpa3Sae => "WPA3-SAE",
            SecurityProtocol::Owe => "OWE",
            SecurityProtocol::EapPeap => "EAP-PEAP",
            SecurityProtocol::EapTls => "EAP-TLS",
            SecurityProtocol::Unknown => "UNKNOWN",
        };
        text.to_owned()
    }
}

/// Anomaly flags for timestamps that require forensic attention.
#[derive(Debug, Clone, Copy, PartialEq, Eq, Hash, Structural)]
pub enum TimestampAnomaly {
    /// No anomaly detected.
    NoAnomaly,
    /// Timestamp is in the future relative to acquisition time.
    Future,
    /// Timestamp is Unix epoch zero (1970-01-01T00:00:00Z).
    EpochDefault,
    /// Timestamp predates the Android OS (before 2008).
    PreAndroidEra,
    /// Timestamp matches a known OEM default date.
    OemDefault,
    /// Clock skew detected between device time and acquisition time.
    ClockSkewDetected,
    /// Timestamp format could not be reliably determined.
    FormatAmbiguous,
}

/// A forensic timestamp carrying both the raw and normalized values
/// along with provenance and anomaly metadata.
#[derive(Debug, Clone, PartialEq)]
pub struct ForensicTimestamp {
    /// The raw timestamp value exactly as extracted from the artifact.
    pub raw_value: String,
    /// The format of the raw timestamp (e.g., "unix_epoch_ms", "iso8601").
    pub source_format: String,
    /// The normalized UTC instant.
    pub normalized_utc: UtcInstant,
    /// Any detected clock skew compensation applied, in milliseconds.
    pub clock_skew_compensation_ms: Option<i64>,
    /// Anomaly classification for this timestamp.
    pub anomaly: TimestampAnomaly,
    /// Confidence in this timestamp's accuracy, in ten-thousandths.
    pub confidence: u32,
}

/// The evidence layer classification, tracking the processing stage of each record.
#[derive(Debug, Clone, Copy, PartialEq, Eq, Hash, Structural)]
pub enum EvidenceLayer {
    /// Layer 0: Raw bytes, exactly as acquired.
    Raw,
    /// Layer 1: Parsed records, untransformed structured data.
    Parsed,
    /// Layer 2: Normalized records, cleaned and unified.
    Normalized,
    /// Layer 3: Correlated records, derived conclusions.
    Correlated,
}

/// Whether the device was acting as a Wi-Fi client or a hotspot.
#[derive(Debug, Clone, Copy, PartialEq, Eq, Structural)]
pub enum NetworkRole {
    /// Device connected to an external Wi-Fi network.
    DeviceAsClient,
    /// Device operating as a mobile hotspot / access point.
    DeviceAsHotspot,
    /// Insufficient evidence to classify.
    Ambiguous,
}

/// Confidence classification for court presentation.
#[derive(Debug, Clone, Copy, PartialEq, Eq, PartialOrd, Ord, Structural)]
pub enum ConfidenceClassification {
    /// Score >= 0.95: supported by multiple independent sources with no contradictions.
    Definitive,
    /// Score 0.80 to 0.94: strong evidence with minor gaps.
    High,
    /// Score 0.50 to 0.79: moderate evidence, some uncertainty.
    Moderate,
    /// Score < 0.50: weak evidence, significant gaps or contradictions.
    Low,
    /// Active contradictions exist for this finding.
    Contradicted,
}

/// The classification of a score in ten-thousandths.
pub open spec fn classify(score: u32) -> ConfidenceClassification {
    if score >= 9500 {
        ConfidenceClassification::Definitive
    } else if score >= 8000 {
        ConfidenceClassification::High
    } else if score >= 5000 {
        ConfidenceClassification::Moderate
    } else {
        ConfidenceClassification::Low
    }
}

/// How strong a classification is: `Definitive` is strongest; `Low` and
/// `Contradicted` are weakest.
pub open spec fn strength(c: ConfidenceClassification) -> int {
    match c {
        ConfidenceClassification::Definitive => 3,
        ConfidenceClassification::High => 2,
        ConfidenceClassification::Moderate => 1,
        ConfidenceClassification::Low => 0,
        ConfidenceClassification::Contradicted => 0,
    }
}

impl ConfidenceClassification {
    /// Derive the classification from a score in ten-thousandths:
    /// 9500 and above is Definitive, 8000 and above High, 5000 and above
    /// Moderate, anything lower Low.
    pub fn from_score(score: u32) -> (c: Self)
        ensures
            c == classify(score),
    {
        if score >= 9500 {
            ConfidenceClassification::Definitive
        } else if score >= 8000 {
            ConfidenceClassification::High
        } else if score >= 5000 {
            ConfidenceClassification::Moderate
        } else {
            ConfidenceClassification::Low
        }
    }

    /// The display label of the classification.
    pub open spec fn label(self) -> Seq<char> {
        match self {
            ConfidenceClassification::Definitive => "DEFINITIVE"@,
            ConfidenceClassification::High => "HIGH"@,
            ConfidenceClassification::Moderate => "MODERATE"@,
            ConfidenceClassification::Low => "LOW"@,
            ConfidenceClassification::Contradicted => "CONTRADICTED"@,
        }
    }

    /// The display text of the classification (e.g. `DEFINITIVE`).
    pub fn to_string(&self) -> (s: String)
        ensures
            s@ == self.label(),
    {
        let text = match self {
            ConfidenceClassification::Definitive => "DEFINITIVE",
            ConfidenceClassification::High => "HIGH",
            ConfidenceClassification::Moderate => "MODERATE",
            ConfidenceClassification::Low => "LOW",
            ConfidenceClassification::Contradicted => "CONTRADICTED",
        };
        text.to_owned()
    }
}

/// The Confidence Model v1.0 taxonomy of baseline reliabilities: kernel logs
/// and build properties 0.99, WifiConfigStore 0.95, DHCP leases 0.92, WPA
/// supplicant 0.90, hostapd logs 0.88, connectivity logs and network policy
/// 0.85, battery statistics 0.80, DNS cache 0.70, unknown 0.30. The DNS cache
/// is the least reliable known class, kernel logs among the most reliable.
pub proof fn lemma_reliability_taxonomy(c: ArtifactClass)
    ensures
        c == ArtifactClass::KernelLogs ==> c.reliability() == 9900,
        c == ArtifactClass::BuildProp ==> c.reliability() == 9900,
        c == ArtifactClass::WifiConfigStore ==> c.reliability() == 9500,
        c == ArtifactClass::DhcpLeases ==> c.reliability() == 9200,
        c == ArtifactClass::WpaSupplicant ==> c.reliability() == 9000,
        c == ArtifactClass::HostapdLogs ==> c.reliability() == 8800,
        c == ArtifactClass::ConnectivityLogs ==> c.reliability() == 8500,
        c == ArtifactClass::NetworkPolicy ==> c.reliability() == 8500,
        c == ArtifactClass::BatteryStats ==> c.reliability() == 8000,
        c == ArtifactClass::DnsCache ==> c.reliability() == 7000,
        c == ArtifactClass::Unknown ==> c.reliability() == 3000,
        c != ArtifactClass::DnsCache && c != ArtifactClass::Unknown
            ==> ArtifactClass::DnsCache.reliability() < c.reliability(),
        c != ArtifactClass::Unknown ==> ArtifactClass::Unknown.reliability() < c.reliability(),
        c.reliability() <= ArtifactClass::KernelLogs.reliability(),
{
}

/// Classifications are shown to the court under distinct labels, each its
/// variant's name in capitals.
pub proof fn lemma_classification_labels(a: ConfidenceClassification, b: ConfidenceClassification)
    ensures
        a != b ==> a.label() != b.label(),
        a == ConfidenceClassification::Definitive ==> a.label() == "DEFINITIVE"@,
        a == ConfidenceClassification::High ==> a.label() == "HIGH"@,
        a == ConfidenceClassification::Moderate ==> a.label() == "MODERATE"@,
        a == ConfidenceClassification::Low ==> a.label() == "LOW"@,
        a == ConfidenceClassification::Contradicted ==> a.label() == "CONTRADICTED"@,
{
    reveal_strlit("DEFINITIVE");
    reveal_strlit("HIGH");
    reveal_strlit("MODERATE");
    reveal_strlit("LOW");
    reveal_strlit("CONTRADICTED");
    if a != b {
        assert(a.label().len() != b.label().len());
    }
}

/// Security protocols are shown under distinct labels, each the protocol's
/// usual name in capitals.
pub proof fn lemma_protocol_labels_distinct(a: SecurityProtocol, b: SecurityProtocol)
    ensures
        a != b ==> a.label() != b.label(),
        a == SecurityProtocol::Open ==> a.label() == "OPEN"@,
        a == SecurityProtocol::Wep ==> a.label() == "WEP"@,
        a == SecurityProtocol::WpaPsk ==> a.label() == "WPA-PSK"@,
        a == SecurityProtocol::Wpa2Psk ==> a.label() == "WPA2-PSK"@,
        a == SecurityProtocol::Wpa3Sae ==> a.label() == "WPA3-SAE"@,
        a == SecurityProtocol::Owe ==> a.label() == "OWE"@,
        a == SecurityProtocol::EapPeap ==> a.label() == "EAP-PEAP"@,
        a == SecurityProtocol::EapTls ==> a.label() == "EAP-TLS"@,
        a == SecurityProtocol::Unknown ==> a.label() == "UNKNOWN"@,
{
    reveal_strlit("OPEN");
    reveal_strlit("WEP");
    reveal_strlit("WPA-PSK");
    reveal_strlit("WPA2-PSK");
    reveal_strlit("WPA3-SAE");
    reveal_strlit("OWE");
    reveal_strlit("EAP-PEAP");
    reveal_strlit("EAP-TLS");
    reveal_strlit("UNKNOWN");
    if a != b {
        if a.label().len() == b.label().len() {
            assert(a.label()[0] != b.label()[0] || a.label()[3] != b.label()[3]
                || a.label()[4] != b.label()[4] || a.label()[5] != b.label()[5]);
        }
    }
}

/// A higher score never gets a weaker classification.
pub proof fn lemma_classification_monotone(lower: u32, higher: u32)
    requires
        lower <= higher,
    ensures
        strength(classify(lower)) <= strength(classify(higher)),
{
}

/// Classification of operations recorded in the audit log.
#[derive(Debug, Clone, PartialEq, Eq)]
pub enum AuditOperationType {
    InvestigationCreated,
    InvestigationOpened,
    InvestigationClosed,
    DeviceConnected,
    DeviceDisconnected,
    CapabilityDetectionStarted,
    CapabilityDetectionCompleted,
    CapabilityProfileAcknowledged,
    ArtifactAcquisitionStarted,
    ArtifactAcquisitionCompleted,
    ArtifactAcquisitionFailed,
    ParserExecutionStarted,
    ParserExecutionCompleted,
    ParserExecutionFailed,
    NormalizationStarted,
    NormalizationCompleted,
    CorrelationStarted,
    CorrelationCompleted,
    ConfidenceScoreComputed,
    ExaminerOverrideApplied,
    ExaminerNoteAdded,
    ReportGenerationStarted,
    ReportGenerationCompleted,
    ReportExported,
    EvidenceStoreCreated,
    EvidenceStoreVerified,
    EvidenceIntegrityViolation,
    PluginLoaded,
    PluginValidationFailed,
    SystemStartup,
    SystemShutdown,
    SystemCrashRecovery,
    AuditChainVerified,
    /// Catch-all for extensibility.
    Custom(String),
}

/// The result status of an audited operation.
#[derive(Debug, Clone, PartialEq, Eq)]
pub enum AuditResult {
    /// The operation completed successfully.
    Success,
    /// The operation failed with an error.
    Failure(String),
    /// The operation was started but not yet completed (intent log).
    Pending,
    /// The operation was skipped (e.g., artifact already exists).
    Skipped(String),
}

} // verus!
