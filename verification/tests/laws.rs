use oracle::startup::{check_oem_plugin, choose_config_source, ConfigSource};
use oracle::commands::{summarize_evidence, EvidenceCheck, EvidenceSummary};
use oracle::commands::{
    case_context, examiner_for_case, ingest_preconditions, parse_investigation_id,
    report_base_filename, underscore_spaces, verification_outcome, verify_preconditions,
    CommandError,
};
use oracle::ids::InvestigationId;
use oracle::scorer::{ScoreHistory, ScoringEngine, ScoringInput};
use oracle::startup::{
    check_adb, check_audit_log_integrity, check_oem_plugins, run_preflight_checks, AdbProbe,
    AuditChainStatus, PluginValidation, PreflightAction, PreflightCheck, PreflightProgress,
};
use oracle::stats::temporal_consistency;
use oracle::text::{hex_lower_string, trim};
use oracle::time::UtcInstant;
use oracle::types::{ArtifactClass, AuditResult, ConfidenceClassification};

fn at(secs: i64) -> UtcInstant {
    UtcInstant { secs, nanos: 0 }
}

fn consistency_of_secs(secs: &[i64]) -> u32 {
    let ts: Vec<UtcInstant> = secs.iter().map(|s| at(*s)).collect();
    temporal_consistency(&ts)
}

fn input(class: ArtifactClass, secs: &[i64], count: usize, contradicted: bool) -> ScoringInput {
    ScoringInput {
        primary_artifact_class: class,
        corroboration_count: count,
        source_timestamps: secs.iter().map(|s| at(1_700_000_000 + *s)).collect(),
        acquisition_time: at(1_700_000_000),
        interest_window_start: at(1_700_000_000 - 3600),
        interest_window_end: at(1_700_000_000 + 3600),
        has_contradictions: contradicted,
        contradiction_count: if contradicted { 1 } else { 0 },
    }
}

#[test]
fn consistency_exact_values() {
    assert_eq!(consistency_of_secs(&[0, 5, 10, 15, 20]), 9765);
    assert_eq!(consistency_of_secs(&[0, 1, 2]), 9973);
    assert_eq!(consistency_of_secs(&[0, 5, 10]), 9864);
    assert_eq!(consistency_of_secs(&[100, 400]), 5000);
    assert_eq!(consistency_of_secs(&[0, 599]), 17);
    assert_eq!(consistency_of_secs(&[0, 600]), 0);
    assert_eq!(consistency_of_secs(&[0, 1_000_000_000_000]), 0);
    assert_eq!(consistency_of_secs(&[i64::MIN, i64::MAX]), 0);
    assert_eq!(consistency_of_secs(&[]), 5000);
}

#[test]
fn consistency_of_identical_timestamps_is_full() {
    assert_eq!(consistency_of_secs(&[42, 42, 42]), 10000);
}

#[test]
fn consistency_is_unchanged_by_a_common_shift() {
    let a = consistency_of_secs(&[0, 7, 30, 31]);
    let b = consistency_of_secs(&[-1_000_000, -999_993, -999_970, -999_969]);
    assert_eq!(a, b);
}

#[test]
fn freshness_exact_values() {
    let window = (at(10 * 3600), at(20 * 3600));
    let f = |acq: i64| ScoringEngine::compute_freshness(at(acq), window.0, window.1);
    assert_eq!(f(15 * 3600), 10000);
    assert_eq!(f(10 * 3600), 10000);
    assert_eq!(f(20 * 3600), 10000);
    // one whole hour after the window
    assert_eq!(f(21 * 3600), 9715);
    // just under one hour after: zero whole hours away
    assert_eq!(f(21 * 3600 - 1), 10000);
    // a day before the window
    assert_eq!(f(-14 * 3600), 5000);
    // 47 hours after
    assert_eq!(f(67 * 3600), 2573);
    // far away: the 0.05 floor
    assert_eq!(f(20 * 3600 + 200 * 3600), 500);
}

#[test]
fn freshness_never_grows_with_distance() {
    let mut previous = 10000;
    for hours in 0..300 {
        let f = ScoringEngine::compute_freshness(at(hours * 3600), at(-100), at(0));
        assert!(f <= previous);
        assert!(f >= 500);
        previous = f;
    }
}

#[test]
fn corroboration_curve() {
    let values: Vec<u32> = (0..8).map(ScoringEngine::compute_corroboration).collect();
    assert_eq!(values, vec![1000, 4000, 6500, 8000, 9000, 9500, 9500, 9500]);
}

#[test]
fn score_exact_weighted_sum() {
    let score = ScoringEngine::compute(&input(ArtifactClass::KernelLogs, &[0, 5, 10, 15, 20], 5, false));
    assert_eq!(score.factors.source_reliability, 9900);
    assert_eq!(score.factors.temporal_consistency, 9765);
    assert_eq!(score.factors.corroboration, 9500);
    assert_eq!(score.factors.freshness, 10000);
    assert_eq!(score.raw_weighted_sum, 9761);
    assert_eq!(score.score, 9761);
    assert_eq!(score.classification, ConfidenceClassification::Definitive);
}

#[test]
fn contradiction_caps_and_classifies() {
    let clean = ScoringEngine::compute(&input(ArtifactClass::WifiConfigStore, &[0, 5, 10], 3, false));
    let contradicted =
        ScoringEngine::compute(&input(ArtifactClass::WifiConfigStore, &[0, 5, 10], 3, true));
    assert_eq!(clean.raw_weighted_sum, contradicted.raw_weighted_sum);
    assert_eq!(contradicted.score, 5000);
    assert_eq!(contradicted.classification, ConfidenceClassification::Moderate);
    let weak = ScoringEngine::compute(&input(ArtifactClass::Unknown, &[0], 1, true));
    assert_eq!(weak.raw_weighted_sum, 4850);
    assert_eq!(weak.score, 850);
    assert_eq!(weak.classification, ConfidenceClassification::Contradicted);
}

#[test]
fn override_clamps_and_keeps_the_breakdown() {
    let original = ScoringEngine::compute(&input(ArtifactClass::DnsCache, &[0, 60], 2, false));
    let (high, record) = ScoringEngine::apply_override(&original, 12_000, "why", "who");
    assert_eq!(high.score, 10000);
    assert_eq!(high.classification, ConfidenceClassification::Definitive);
    assert_eq!(record.original_score, original.score);
    assert_eq!(high.factors, original.factors);
    let (low, record) = ScoringEngine::apply_override(&original, -5, "why", "who");
    assert_eq!(low.score, 0);
    assert_eq!(record.adjusted_score, 0);
    assert_eq!(low.classification, ConfidenceClassification::Low);
}

#[test]
fn history_keeps_newest_first() {
    let first = ScoringEngine::compute(&input(ArtifactClass::DnsCache, &[0], 1, false));
    let second = ScoringEngine::compute(&input(ArtifactClass::KernelLogs, &[0], 4, false));
    let second_score = second.score;
    let first_score = first.score;
    let mut history = ScoreHistory::new(first);
    history.add_version(second);
    assert_eq!(history.current().unwrap().score, second_score);
    assert_eq!(history.versions[1].score, first_score);
    assert_eq!(history.revision_count(), 2);
}

#[test]
fn hex_and_trim_helpers() {
    assert_eq!(hex_lower_string(&[0x00, 0x0f, 0xa5, 0xff]), "000fa5ff");
    assert_eq!(trim("  \t adb: error \n"), "adb: error");
    assert_eq!(trim("\u{3000}x\u{2028}"), "x");
    assert_eq!(trim("   "), "");
}

#[test]
fn investigation_id_text_parses_back() {
    let id = InvestigationId::new();
    let parsed = parse_investigation_id(&id.to_string());
    assert_eq!(parsed.ok(), Some(id));
    assert!(matches!(
        parse_investigation_id("not-a-uuid"),
        Err(CommandError::InvalidInvestigationId)
    ));
    assert_eq!(
        CommandError::InvalidInvestigationId.message(),
        "Invalid Investigation ID format (must be a valid UUID)"
    );
}

#[test]
fn preflight_runs_checks_in_order_and_halts_on_failure() {
    let (p, a) = run_preflight_checks(PreflightProgress::start(), None);
    assert!(matches!(a, PreflightAction::Run(PreflightCheck::AdbAccess)));
    let (p, a) = run_preflight_checks(p, Some(Ok(())));
    assert!(matches!(a, PreflightAction::Run(PreflightCheck::InvestigationsDirectory)));
    let (p, a) = run_preflight_checks(p, Some(Ok(())));
    assert!(matches!(a, PreflightAction::Run(PreflightCheck::AuditLogIntegrity)));
    let (halted, a) = run_preflight_checks(p, Some(Err("chain broken".to_string())));
    assert_eq!(halted.passed, 2);
    match a {
        PreflightAction::Halt(f) => {
            assert_eq!(f.check, PreflightCheck::AuditLogIntegrity);
            assert_eq!(f.context, "Audit log integrity verification failed");
            assert_eq!(f.cause, "chain broken");
        }
        _ => panic!("expected a halt"),
    }
    let (p, _) = run_preflight_checks(p, Some(Ok(())));
    let (p, a) = run_preflight_checks(p, Some(Ok(())));
    assert_eq!(p.passed, 4);
    assert!(matches!(a, PreflightAction::AllPassed));
}

#[test]
fn preflight_check_verdicts() {
    assert!(check_adb(AdbProbe::NotFound).is_ok());
    assert!(check_adb(AdbProbe::Exited { success: true, stderr: String::new() }).is_ok());
    assert_eq!(
        check_adb(AdbProbe::Exited { success: false, stderr: " daemon not running\n".to_string() }),
        Err("ADB command returned non-zero status: daemon not running".to_string())
    );
    assert!(check_audit_log_integrity(None, None).is_ok());
    assert!(check_audit_log_integrity(Some(AuditChainStatus::Intact), None).is_ok());
    assert_eq!(
        check_audit_log_integrity(Some(AuditChainStatus::Broken), None),
        Err("Audit log integrity chain is broken: Unknown chain breakage".to_string())
    );
    assert_eq!(
        check_audit_log_integrity(Some(AuditChainStatus::Broken), Some("entry 7".to_string())),
        Err("Audit log integrity chain is broken: entry 7".to_string())
    );
    let validations = vec![
        PluginValidation { oem_name: "samsung".to_string(), outcome: Ok(()) },
        PluginValidation { oem_name: "xiaomi".to_string(), outcome: Err("bad paths".to_string()) },
        PluginValidation { oem_name: "oneplus".to_string(), outcome: Err("other".to_string()) },
    ];
    assert_eq!(
        check_oem_plugins(&validations),
        Err("Plugin validation failed for xiaomi: bad paths".to_string())
    );
    assert!(check_oem_plugins(&vec![]).is_ok());
}

#[test]
fn command_decisions() {
    let examiner = examiner_for_case("J. Smith".to_string(), "Lab".to_string());
    assert_eq!(examiner.badge_id, "N/A");
    assert_eq!(examiner.organization, "Lab");
    assert_eq!(
        case_context(None, None),
        ("Investigation".to_string(), "UNKNOWN".to_string())
    );
    assert_eq!(
        case_context(None, Some(("c".to_string(), "e".to_string()))),
        ("c".to_string(), "e".to_string())
    );
    assert_eq!(
        case_context(
            Some(("first".to_string(), "x".to_string())),
            Some(("c".to_string(), "e".to_string()))
        ),
        ("first".to_string(), "x".to_string())
    );
    assert!(matches!(
        ingest_preconditions(false, true, "/w"),
        Err(CommandError::MissingAuditDatabase)
    ));
    let missing = ingest_preconditions(true, false, "/w/abc").unwrap_err();
    assert_eq!(
        missing.message(),
        "Investigation workspace directory does not exist: /w/abc. Has this investigation been created?"
    );
    assert!(ingest_preconditions(true, true, "/w").is_ok());
    assert_eq!(underscore_spaces("CASE 2026 0042"), "CASE_2026_0042");
    let id = InvestigationId(0x67e5504410b1426f9247bb680e5fe0c8);
    assert_eq!(
        report_base_filename("My Case", id),
        "report_My_Case_67e55044-10b1-426f-9247-bb680e5fe0c8"
    );
    assert_eq!(verification_outcome(AuditChainStatus::Intact, true), AuditResult::Success);
    assert_eq!(
        verification_outcome(AuditChainStatus::Broken, true),
        AuditResult::Failure("Integrity check failed: audit_chain=Broken, evidence_clean=true".to_string())
    );
    assert_eq!(
        verification_outcome(AuditChainStatus::Intact, false),
        AuditResult::Failure("Integrity check failed: audit_chain=Intact, evidence_clean=false".to_string())
    );
}

#[test]
fn single_plugin_verdicts() {
    let good = PluginValidation { oem_name: "samsung".to_string(), outcome: Ok(()) };
    assert!(check_oem_plugin(&good).is_ok());
    let bad = PluginValidation { oem_name: "xiaomi".to_string(), outcome: Err("bad paths".to_string()) };
    assert_eq!(
        check_oem_plugin(&bad),
        Err("Plugin validation failed for xiaomi: bad paths".to_string())
    );
}

#[test]
fn configuration_source_choice() {
    assert_eq!(choose_config_source(true, true), ConfigSource::ExplicitFile);
    assert_eq!(choose_config_source(true, false), ConfigSource::ExplicitFile);
    assert_eq!(choose_config_source(false, true), ConfigSource::DefaultFile);
    assert_eq!(choose_config_source(false, false), ConfigSource::BuiltIn);
}

#[test]
fn evidence_summary_of_a_missing_store_is_not_clean() {
    let missing = summarize_evidence(EvidenceCheck::MissingStore);
    assert_eq!(missing, EvidenceSummary { clean: false, total_artifacts: 0, failed_artifacts: 0 });
    assert_eq!(
        verification_outcome(AuditChainStatus::Intact, missing.clean),
        AuditResult::Failure("Integrity check failed: audit_chain=Intact, evidence_clean=false".to_string())
    );
    let verified = summarize_evidence(EvidenceCheck::Verified { total_artifacts: 5, failed_count: 1, clean: false });
    assert_eq!(verified, EvidenceSummary { clean: false, total_artifacts: 5, failed_artifacts: 1 });
    let clean = summarize_evidence(EvidenceCheck::Verified { total_artifacts: 3, failed_count: 0, clean: true });
    assert!(clean.clean);
}

#[test]
fn verify_needs_the_audit_database() {
    let missing = verify_preconditions(false).unwrap_err();
    assert!(matches!(missing, CommandError::MissingAuditDatabase));
    assert_eq!(
        missing.message(),
        "Audit database does not exist. Create an investigation first."
    );
    assert!(verify_preconditions(true).is_ok());
}

#[test]
fn investigation_id_accepts_every_uuid_shape() {
    let value: u128 = 0x67e5504410b1426f9247bb680e5fe0c8;
    for text in [
        "67e5504410b1426f9247bb680e5fe0c8",
        "67E55044-10B1-426F-9247-BB680E5FE0C8",
        "{67e55044-10b1-426f-9247-bb680e5fe0c8}",
        "URN:uuid:67e55044-10b1-426f-9247-bb680e5fe0c8",
    ] {
        match parse_investigation_id(text) {
            Ok(id) => assert_eq!(id.0, value),
            Err(_) => panic!("rejected {}", text),
        }
    }
    for text in [
        "67e55044-10b1-426f-9247-bb680e5fe0c",
        "[67e55044-10b1-426f-9247-bb680e5fe0c8]",
        "urn:uid::67e55044-10b1-426f-9247-bb680e5fe0c8",
        "67e55044-10b1-426f-9247_bb680e5fe0c8",
        "67e5504410b1426f9247bb680e5fe0cg",
    ] {
        assert!(matches!(
            parse_investigation_id(text),
            Err(CommandError::InvalidInvestigationId)
        ));
    }
}
