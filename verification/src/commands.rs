//! # Investigation Command Decisions
//!
//! The decisions of the command handlers that create investigations, ingest
//! device artifacts, and verify the chain of custody: identifier parsing,
//! examiner identities, case context, report file names, preconditions and
//! the verification outcome. The handlers' audit-log, evidence-store and
//! file-system work stays with the caller.
use vstd::prelude::*;
use vstd::string::*;
use crate::ids::{InvestigationId, lemma_uuid_text_parses_back, parse_uuid_text, parsed_uuid, uuid_text};
use crate::startup::AuditChainStatus;
use crate::types::{AuditResult, ExaminerIdentity};

verus! {

/// Errors that the commands report before any evidence is touched.
#[derive(Debug, Clone)]
pub enum CommandError {
    /// The investigation identifier is not a valid UUID.
    InvalidInvestigationId,
    /// No audit database exists yet.
    MissingAuditDatabase,
    /// The investigation's workspace directory does not exist.
    MissingWorkspace { path: String },
}

impl CommandError {
    /// The text of the error.
    pub open spec fn text(self) -> Seq<char> {
        match self {
            CommandError::InvalidInvestigationId => "Invalid Investigation ID format (must be a valid UUID)"@,
            CommandError::MissingAuditDatabase => "Audit database does not exist. Create an investigation first."@,
            CommandError::MissingWorkspace { path } => "Investigation workspace directory does not exist: "@
                + path@ + ". Has this investigation been created?"@,
        }
    }

    /// The message of the error.
    pub fn message(&self) -> (s: String)
        ensures
            s@ == self.text(),
    {
        match self {
            CommandError::InvalidInvestigationId => "Invalid Investigation ID format (must be a valid UUID)".to_owned(),
            CommandError::MissingAuditDatabase => "Audit database does not exist. Create an investigation first.".to_owned(),
            CommandError::MissingWorkspace { path } => {
                let mut s = "Investigation workspace directory does not exist: ".to_owned();
                s.append(path.as_str());
                s.append(". Has this investigation been created?");
                s
            },
        }
    }
}

/// Parses an investigation identifier given on the command line (any form
/// the `uuid` crate accepts). The hyphenated text of an identifier always
/// parses back to that identifier.
pub fn parse_investigation_id(text: &str) -> (res: Result<InvestigationId, CommandError>)
    ensures
        match parsed_uuid(text@) {
            Some(v) => res matches Ok(id) && id.0 == v,
            None => res matches Err(CommandError::InvalidInvestigationId),
        },
        forall|v: u128| text@ == #[trigger] uuid_text(v) ==> (res matches Ok(id) && id.0 == v),
{
    proof {
        assert forall|v: u128| text@ == #[trigger] uuid_text(v) implies parsed_uuid(text@) == Some(v) by {
            lemma_uuid_text_parses_back(v);
        }
    }
    match parse_uuid_text(text) {
        Some(v) => Ok(InvestigationId(v)),
        None => Err(CommandError::InvalidInvestigationId),
    }
}

/// The examiner identity recorded for a case: the examiner's name, no badge
/// (`N/A`), and the organization from the configuration.
pub fn examiner_for_case(name: String, organization: String) -> (e: ExaminerIdentity)
    ensures
        e.name@ == name@,
        e.badge_id@ == "N/A"@,
        e.organization@ == organization@,
{
    ExaminerIdentity { name, badge_id: "N/A".to_owned(), organization }
}

/// The case name and examiner of an investigation, taken from its
/// `InvestigationCreated` audit entry, else from its earliest audit entry,
/// else `("Investigation", "UNKNOWN")`.
pub fn case_context(created_entry: Option<(String, String)>, earliest_entry: Option<(String, String)>) -> (res:
    (String, String))
    ensures
        match (created_entry, earliest_entry) {
            (Some((case_name, examiner)), _) => res.0@ == case_name@ && res.1@ == examiner@,
            (None, Some((case_name, examiner))) => res.0@ == case_name@ && res.1@ == examiner@,
            (None, None) => res.0@ == "Investigation"@ && res.1@ == "UNKNOWN"@,
        },
{
    match created_entry {
        Some(entry) => entry,
        None => match earliest_entry {
            Some(entry) => entry,
            None => ("Investigation".to_owned(), "UNKNOWN".to_owned()),
        },
    }
}

/// Ingestion needs an audit database and the investigation's workspace.
pub fn ingest_preconditions(audit_db_exists: bool, workspace_exists: bool, workspace_path: &str) -> (res:
    Result<(), CommandError>)
    ensures
        !audit_db_exists ==> res matches Err(CommandError::MissingAuditDatabase),
        audit_db_exists && !workspace_exists ==> (res matches Err(
            CommandError::MissingWorkspace { path },
        ) && path@ == workspace_path@),
        audit_db_exists && workspace_exists ==> res is Ok,
{
    if !audit_db_exists {
        Err(CommandError::MissingAuditDatabase)
    } else if !workspace_exists {
        Err(CommandError::MissingWorkspace { path: workspace_path.to_owned() })
    } else {
        Ok(())
    }
}

/// Verifying an investigation needs the audit database.
pub fn verify_preconditions(audit_db_exists: bool) -> (res: Result<(), CommandError>)
    ensures
        !audit_db_exists ==> res matches Err(CommandError::MissingAuditDatabase),
        audit_db_exists ==> res is Ok,
{
    if !audit_db_exists {
        Err(CommandError::MissingAuditDatabase)
    } else {
        Ok(())
    }
}

/// The text with every space replaced by an underscore.
pub open spec fn spaces_to_underscores(s: Seq<char>) -> Seq<char> {
    Seq::new(
        s.len(),
        |i: int|
            if s[i] == ' ' {
                '_'
            } else {
                s[i]
            },
    )
}

/// Replacing spaces keeps the length, leaves no space behind, puts an
/// underscore where each space was, and keeps every other character.
pub proof fn lemma_spaces_become_underscores(s: Seq<char>)
    ensures
        spaces_to_underscores(s).len() == s.len(),
        !spaces_to_underscores(s).contains(' '),
        forall|i: int|
            0 <= i < s.len() ==> (#[trigger] spaces_to_underscores(s)[i] == (if s[i] == ' ' {
                '_'
            } else {
                s[i]
            })),
{
    let r = spaces_to_underscores(s);
    assert forall|i: int| 0 <= i < r.len() implies r[i] != ' ' by {}
}

/// Replaces every space of the text by an underscore.
pub fn underscore_spaces(s: &str) -> (r: String)
    ensures
        r@ == spaces_to_underscores(s@),
{
    let n = s.unicode_len();
    let mut r = String::new();
    for i in 0..n
        invariant
            n == s@.len(),
            r@ == spaces_to_underscores(s@).subrange(0, i as int),
    {
        let c = s.get_char(i);
        let ghost prev = r@;
        if c == ' ' {
            let underscore = "_";
            proof {
                reveal_strlit("_");
            }
            r.append(underscore);
            assert(r@ =~= prev.push('_'));
        } else {
            let one = s.substring_char(i, i + 1);
            assert(one@ =~= seq![c]);
            r.append(one);
            assert(r@ =~= prev.push(c));
        }
        assert(r@ =~= spaces_to_underscores(s@).subrange(0, i + 1));
    }
    assert(spaces_to_underscores(s@).subrange(0, n as int) =~= spaces_to_underscores(s@));
    r
}

/// The base name of the report files of an investigation:
/// `report_<case name, spaces as underscores>_<investigation id>`.
pub open spec fn report_base_name(case_name: Seq<char>, id: InvestigationId) -> Seq<char> {
    "report_"@ + spaces_to_underscores(case_name) + "_"@ + uuid_text(id.0)
}

/// The base name of the report files written by an ingestion.
pub fn report_base_filename(case_name: &str, id: InvestigationId) -> (name: String)
    ensures
        name@ == report_base_name(case_name@, id),
{
    let mut name = "report_".to_owned();
    let case_part = underscore_spaces(case_name);
    name.append(case_part.as_str());
    name.append("_");
    let id_text = id.to_string();
    name.append(id_text.as_str());
    name
}

/// The text of a chain status as the verification log records it.
pub open spec fn chain_status_text(status: AuditChainStatus) -> Seq<char> {
    match status {
        AuditChainStatus::Intact => "Intact"@,
        AuditChainStatus::Broken => "Broken"@,
    }
}

/// The reason recorded for a failed verification.
pub open spec fn verification_failure_text(status: AuditChainStatus, evidence_clean: bool) -> Seq<char> {
    "Integrity check failed: audit_chain="@ + chain_status_text(status) + ", evidence_clean="@ + (
    if evidence_clean {
        "true"@
    } else {
        "false"@
    })
}

/// The outcome recorded for a verification: success exactly when the audit
/// chain is intact and the evidence is clean, otherwise a failure naming
/// both.
pub fn verification_outcome(status: AuditChainStatus, evidence_clean: bool) -> (res: AuditResult)
    ensures
        status == AuditChainStatus::Intact && evidence_clean ==> res == AuditResult::Success,
        !(status == AuditChainStatus::Intact && evidence_clean) ==> (res matches AuditResult::Failure(
            reason,
        ) && reason@ == verification_failure_text(status, evidence_clean)),
{
    if status == AuditChainStatus::Intact && evidence_clean {
        AuditResult::Success
    } else {
        let mut reason = "Integrity check failed: audit_chain=".to_owned();
        match status {
            AuditChainStatus::Intact => reason.append("Intact"),
            AuditChainStatus::Broken => reason.append("Broken"),
        }
        reason.append(", evidence_clean=");
        if evidence_clean {
            reason.append("true");
        } else {
            reason.append("false");
        }
        AuditResult::Failure(reason)
    }
}

/// How the check of an investigation's evidence store went.
#[derive(Debug, Clone, Copy, PartialEq, Eq, Structural)]
pub enum EvidenceCheck {
    /// The workspace directory does not exist.
    MissingStore,
    /// The store could not be opened.
    StoreUnreadable,
    /// The integrity check of the stored artifacts could not be run.
    IntegrityCheckFailed,
    /// The integrity check ran: how many artifacts were checked, how many
    /// failed, and whether the store is clean.
    Verified { total_artifacts: usize, failed_count: usize, clean: bool },
}

/// What a verification records of the evidence store.
#[derive(Debug, Clone, Copy, PartialEq, Eq, Structural)]
pub struct EvidenceSummary {
    /// Whether every stored artifact matched its ingestion hash.
    pub clean: bool,
    /// How many artifacts were checked.
    pub total_artifacts: usize,
    /// How many artifacts failed their check.
    pub failed_artifacts: usize,
}

/// The evidence summary of a verification: only a store whose integrity
/// check ran can be clean and have totals; a missing or unreadable store,
/// or a check that could not run, counts as not clean with zero totals.
pub fn summarize_evidence(check: EvidenceCheck) -> (summary: EvidenceSummary)
    ensures
        match check {
            EvidenceCheck::Verified { total_artifacts, failed_count, clean } => summary
                == EvidenceSummary { clean, total_artifacts, failed_artifacts: failed_count },
            _ => summary == EvidenceSummary { clean: false, total_artifacts: 0, failed_artifacts: 0 },
        },
{
    match check {
        EvidenceCheck::Verified { total_artifacts, failed_count, clean } => EvidenceSummary {
            clean,
            total_artifacts,
            failed_artifacts: failed_count,
        },
        _ => EvidenceSummary { clean: false, total_artifacts: 0, failed_artifacts: 0 },
    }
}

} // verus!
