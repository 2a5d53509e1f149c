//! # Pre-flight Startup Checks
//!
//! The decisions of the pre-flight checks that run before command dispatch.
//! Failures halt the application immediately to prevent evidence corruption
//! or incomplete audit trails.
//!
//! The checks themselves touch the outside world (the `adb` binary, the
//! file system, the audit database, the plugin registry); the caller performs
//! each check that [`run_preflight_checks`] asks for and hands back its
//! outcome, and the functions here decide what each outcome means.
use vstd::prelude::*;
use vstd::string::*;
use crate::text::{trim, trimmed};

verus! {

/// The pre-flight checks, in the order in which they run.
#[derive(Debug, Clone, Copy, PartialEq, Eq, Structural)]
pub enum PreflightCheck {
    /// ADB installation and accessibility.
    AdbAccess,
    /// Writability of the evidence investigations directory.
    InvestigationsDirectory,
    /// Integrity of an existing audit log.
    AuditLogIntegrity,
    /// Presence and validity of the OEM plugins.
    OemPlugins,
}

/// The number of pre-flight checks.
pub const PREFLIGHT_CHECK_COUNT: u32 = 4;

/// The check that runs at position `i` (0-based).
pub open spec fn check_at(i: int) -> PreflightCheck {
    if i == 0 {
        PreflightCheck::AdbAccess
    } else if i == 1 {
        PreflightCheck::InvestigationsDirectory
    } else if i == 2 {
        PreflightCheck::AuditLogIntegrity
    } else {
        PreflightCheck::OemPlugins
    }
}

/// The context that a failure of each check is reported under.
pub open spec fn failure_context(check: PreflightCheck) -> Seq<char> {
    match check {
        PreflightCheck::AdbAccess => "ADB pre-flight check failed"@,
        PreflightCheck::InvestigationsDirectory => "Evidence investigations directory is not writable"@,
        PreflightCheck::AuditLogIntegrity => "Audit log integrity verification failed"@,
        PreflightCheck::OemPlugins => "OEM plugin validation failed"@,
    }
}

impl PreflightCheck {
    /// The check that runs at position `i` (0-based) of the pre-flight run.
    pub fn at(i: u32) -> (c: PreflightCheck)
        requires
            i < PREFLIGHT_CHECK_COUNT,
        ensures
            c == check_at(i as int),
    {
        if i == 0 {
            PreflightCheck::AdbAccess
        } else if i == 1 {
            PreflightCheck::InvestigationsDirectory
        } else if i == 2 {
            PreflightCheck::AuditLogIntegrity
        } else {
            PreflightCheck::OemPlugins
        }
    }

    /// The context a failure of this check is reported under.
    pub fn context(&self) -> (s: String)
        ensures
            s@ == failure_context(*self),
    {
        let text = match self {
            PreflightCheck::AdbAccess => "ADB pre-flight check failed",
            PreflightCheck::InvestigationsDirectory => "Evidence investigations directory is not writable",
            PreflightCheck::AuditLogIntegrity => "Audit log integrity verification failed",
            PreflightCheck::OemPlugins => "OEM plugin validation failed",
        };
        text.to_owned()
    }
}

/// Why the pre-flight run stopped: the failed check, the context it is
/// reported under, and the cause given by the check.
#[derive(Debug, Clone)]
pub struct PreflightFailure {
    pub check: PreflightCheck,
    pub context: String,
    pub cause: String,
}

/// How far a pre-flight run has come: the number of checks passed so far
/// (they pass in order).
#[derive(Debug, Clone, Copy, PartialEq, Eq, Structural)]
pub struct PreflightProgress {
    pub passed: u32,
}

impl PreflightProgress {
    /// A run in which no check has passed yet.
    pub fn start() -> (p: Self)
        ensures
            p.passed == 0,
    {
        PreflightProgress { passed: 0 }
    }
}

/// What the caller does next.
#[derive(Debug, Clone)]
pub enum PreflightAction {
    /// Perform this check and hand back its outcome.
    Run(PreflightCheck),
    /// All checks passed: startup may continue.
    AllPassed,
    /// A check failed: startup halts with this failure.
    Halt(PreflightFailure),
}

/// The action that comes after `passed` checks have passed.
pub open spec fn action_after(passed: u32) -> Option<PreflightCheck> {
    if passed < PREFLIGHT_CHECK_COUNT {
        Some(check_at(passed as int))
    } else {
        None
    }
}

/// Performs one step of the pre-flight run.
///
/// With no outcome, it names the next check (or reports that all passed).
/// With the outcome of the check just run: a success moves on to the next
/// check, or to `AllPassed` after the last one; a failure halts the run with
/// the failed check, its context, and the cause. The checks run in the
/// order ADB, investigations directory, audit log, OEM plugins.
pub fn run_preflight_checks(progress: PreflightProgress, outcome: Option<Result<(), String>>) -> (res:
    (PreflightProgress, PreflightAction))
    requires
        progress.passed <= PREFLIGHT_CHECK_COUNT,
        outcome is Some ==> progress.passed < PREFLIGHT_CHECK_COUNT,
    ensures
        res.0.passed <= PREFLIGHT_CHECK_COUNT,
        match outcome {
            Some(Err(cause)) => {
                &&& res.0 == progress
                &&& res.1 matches PreflightAction::Halt(f)
                &&& f.check == check_at(progress.passed as int)
                &&& f.context@ == failure_context(f.check)
                &&& f.cause@ == cause@
            },
            _ => {
                let passed = if outcome is Some {
                    progress.passed + 1
                } else {
                    progress.passed as int
                };
                &&& res.0.passed == passed
                &&& match action_after(res.0.passed) {
                    Some(check) => res.1 == PreflightAction::Run(check),
                    None => res.1 == PreflightAction::AllPassed,
                }
            },
        },
{
    match outcome {
        Some(Err(cause)) => {
            let check = PreflightCheck::at(progress.passed);
            let failure = PreflightFailure { check, context: check.context(), cause };
            (progress, PreflightAction::Halt(failure))
        },
        _ => {
            let passed = if outcome.is_some() {
                progress.passed + 1
            } else {
                progress.passed
            };
            let next = PreflightProgress { passed };
            if passed < PREFLIGHT_CHECK_COUNT {
                (next, PreflightAction::Run(PreflightCheck::at(passed)))
            } else {
                (next, PreflightAction::AllPassed)
            }
        },
    }
}

/// How a probe of the `adb` binary (`adb version`) went.
#[derive(Debug, Clone)]
pub enum AdbProbe {
    /// The binary could not be started (not on the `PATH`).
    NotFound,
    /// The binary ran and exited; `stderr` is its error output as text.
    Exited { success: bool, stderr: String },
}

/// The cause reported for an `adb version` that exited unsuccessfully.
pub open spec fn adb_failure_cause(stderr: Seq<char>) -> Seq<char> {
    "ADB command returned non-zero status: "@ + trimmed(stderr)
}

/// Decides the ADB check. A missing binary passes (the examiner may work
/// with filesystem images or offline evidence); a successful run passes; an
/// unsuccessful run fails with its trimmed error output.
pub fn check_adb(probe: AdbProbe) -> (res: Result<(), String>)
    ensures
        match probe {
            AdbProbe::NotFound => res is Ok,
            AdbProbe::Exited { success, stderr } => if success {
                res is Ok
            } else {
                res matches Err(cause) && cause@ == adb_failure_cause(stderr@)
            },
        },
{
    match probe {
        AdbProbe::NotFound => Ok(()),
        AdbProbe::Exited { success, stderr } => {
            if success {
                Ok(())
            } else {
                let mut cause = "ADB command returned non-zero status: ".to_owned();
                let tail = trim(stderr.as_str());
                cause.append(tail.as_str());
                Err(cause)
            }
        },
    }
}

/// The state of the audit log's hash chain as reported by its verifier.
#[derive(Debug, Clone, Copy, PartialEq, Eq, Structural)]
pub enum AuditChainStatus {
    /// Every entry links to its predecessor.
    Intact,
    /// Some entry does not link to its predecessor.
    Broken,
}

/// The cause reported for a broken audit chain.
pub open spec fn broken_chain_cause(description: Option<String>) -> Seq<char> {
    "Audit log integrity chain is broken: "@ + match description {
        Some(d) => d@,
        None => "Unknown chain breakage"@,
    }
}

/// Decides the audit log check from the verifier's report: a broken chain
/// fails with its description (or "Unknown chain breakage"); an intact
/// chain, or no audit database at all, passes.
pub fn check_audit_log_integrity(status: Option<AuditChainStatus>, failure_description: Option<String>) -> (res:
    Result<(), String>)
    ensures
        status == Some(AuditChainStatus::Broken) ==> (res matches Err(cause) && cause@
            == broken_chain_cause(failure_description)),
        status != Some(AuditChainStatus::Broken) ==> res is Ok,
{
    match status {
        Some(AuditChainStatus::Broken) => {
            let mut cause = "Audit log integrity chain is broken: ".to_owned();
            match failure_description {
                Some(d) => cause.append(d.as_str()),
                None => cause.append("Unknown chain breakage"),
            }
            Err(cause)
        },
        _ => Ok(()),
    }
}

/// The validation of one OEM plugin of the registry.
#[derive(Debug)]
pub struct PluginValidation {
    /// The plugin's OEM name.
    pub oem_name: String,
    /// What the validator said.
    pub outcome: Result<(), String>,
}

/// The cause reported for a plugin that failed validation.
pub open spec fn plugin_failure_cause(v: PluginValidation) -> Seq<char> {
    "Plugin validation failed for "@ + v.oem_name@ + ": "@ + match v.outcome {
        Err(e) => e@,
        Ok(_) => Seq::empty(),
    }
}

/// Decides one plugin of the OEM plugin check: it passes when the validator
/// accepted the plugin, and otherwise fails with the plugin's name and the
/// validator's reason. Plugins are decided one at a time, in registry order,
/// and no plugin after the first failure needs validating.
pub fn check_oem_plugin(validation: &PluginValidation) -> (res: Result<(), String>)
    ensures
        res is Ok <==> validation.outcome is Ok,
        res matches Err(cause) ==> cause@ == plugin_failure_cause(*validation),
{
    match &validation.outcome {
        Ok(_) => Ok(()),
        Err(e) => {
            let mut cause = "Plugin validation failed for ".to_owned();
            cause.append(validation.oem_name.as_str());
            cause.append(": ");
            cause.append(e.as_str());
            Err(cause)
        },
    }
}

/// Decides the OEM plugin check from the validations of the registry's
/// plugins, in registry order: it passes when every plugin validated, and
/// otherwise fails with the first failing plugin's name and reason (the
/// decision of `check_oem_plugin` on it).
pub fn check_oem_plugins(validations: &Vec<PluginValidation>) -> (res: Result<(), String>)
    ensures
        res is Ok <==> forall|i: int|
            0 <= i < validations@.len() ==> (#[trigger] validations@[i]).outcome is Ok,
        res matches Err(cause) ==> exists|k: int|
            0 <= k < validations@.len() && (#[trigger] validations@[k]).outcome is Err && (forall|
                i: int,
            | 0 <= i < k ==> (#[trigger] validations@[i]).outcome is Ok) && cause@
                == plugin_failure_cause(validations@[k]),
{
    let n = validations.len();
    for k in 0..n
        invariant
            n == validations@.len(),
            forall|i: int| 0 <= i < k ==> (#[trigger] validations@[i]).outcome is Ok,
    {
        check_oem_plugin(&validations[k])?;
    }
    Ok(())
}

/// Where the platform configuration comes from.
#[derive(Debug, Clone, Copy, PartialEq, Eq, Structural)]
pub enum ConfigSource {
    /// The file named on the command line (an error if it cannot be loaded).
    ExplicitFile,
    /// `config/default.toml` in the working directory.
    DefaultFile,
    /// The built-in configuration rooted at the working directory.
    BuiltIn,
}

/// Chooses the configuration source: an explicitly named file first, then
/// the default file when it exists, then the built-in configuration.
pub fn choose_config_source(explicit_path_given: bool, default_file_exists: bool) -> (source:
    ConfigSource)
    ensures
        explicit_path_given ==> source == ConfigSource::ExplicitFile,
        !explicit_path_given && default_file_exists ==> source == ConfigSource::DefaultFile,
        !explicit_path_given && !default_file_exists ==> source == ConfigSource::BuiltIn,
{
    if explicit_path_given {
        ConfigSource::ExplicitFile
    } else if default_file_exists {
        ConfigSource::DefaultFile
    } else {
        ConfigSource::BuiltIn
    }
}

/// Every check runs exactly once, in the order ADB, investigations
/// directory, audit log, OEM plugins, and the run passes only after all
/// four have passed.
pub proof fn lemma_preflight_runs_every_check_in_order()
    ensures
        action_after(0) == Some(PreflightCheck::AdbAccess),
        action_after(1) == Some(PreflightCheck::InvestigationsDirectory),
        action_after(2) == Some(PreflightCheck::AuditLogIntegrity),
        action_after(3) == Some(PreflightCheck::OemPlugins),
        forall|passed: u32| #[trigger] action_after(passed) is None <==> passed >= PREFLIGHT_CHECK_COUNT,
        forall|i: int, j: int|
            0 <= i < j < PREFLIGHT_CHECK_COUNT ==> #[trigger] check_at(i) != #[trigger] check_at(j),
{
}

} // verus!
