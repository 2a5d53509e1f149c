//! # Acquisition Coordinator
//!
//! Orchestrates the retrieval of discovered artifacts from an Android device.
//!
//! The coordinator pulls each artifact byte-for-byte via an ADB shell,
//! computes a SHA-256 integrity hash, and produces an [`AcquisitionReport`]
//! summarizing successes, failures, total bytes, and elapsed time.
//!
//! All acquisition operations are non-destructive: they use `cat` to read
//! device files without modifying them.
use vstd::prelude::*;
use vstd::string::*;
use sha2::Digest;
use crate::ids::InvestigationId;
use crate::text::{hex_lower, hex_lower_string};
use crate::time::{UtcInstant, utc_now};
use crate::types::ArtifactClass;

verus! {

/// What SHA-256 gives for a byte string.
pub uninterp spec fn sha256_digest(data: Seq<u8>) -> Seq<u8>;

/// Calls `sha2::Sha256::digest`. Trusted: the result is the SHA-256 digest
/// of the bytes (named, not stated), which is 32 bytes long.
#[verifier::external_body]
fn sha256(data: &[u8]) -> (digest: Vec<u8>)
    ensures
        digest@ == sha256_digest(data@),
        digest@.len() == 32,
{
    sha2::Sha256::digest(data).to_vec()
}

/// The lower-case hexadecimal SHA-256 hash of the bytes.
pub open spec fn forensic_hash_text(data: Seq<u8>) -> Seq<char> {
    hex_lower(sha256_digest(data))
}

/// Computes the chain-of-custody hash of raw bytes: SHA-256, as 64
/// lower-case hexadecimal digits.
pub fn forensic_hash_hex(data: &[u8]) -> (hex: String)
    ensures
        hex@ == forensic_hash_text(data@),
        hex@.len() == 64,
{
    let digest = sha256(data);
    hex_lower_string(digest.as_slice())
}

#[verifier::external_type_specification]
#[verifier::external_body]
pub struct ExInstant(std::time::Instant);

/// Calls `std::time::Instant::now`. Trusted: nothing is claimed of the clock.
#[verifier::external_body]
fn monotonic_now() -> (t: std::time::Instant) {
    std::time::Instant::now()
}

/// Calls `std::time::Instant::elapsed`. Trusted: nothing is claimed of the clock.
#[verifier::external_body]
fn elapsed_since(start: &std::time::Instant) -> (d: std::time::Duration) {
    start.elapsed()
}

/// A shell on an Android device reachable over ADB.
pub trait AdbShell {
    /// Whether `output` (standard output, or a description of the failure)
    /// is an answer this shell gives to `command` run on the device with the
    /// given serial. A shell that does not describe its answers admits every
    /// answer; code generic over the shell knows only what `shell_command`
    /// reported.
    open spec fn answers(
        &self,
        serial: Seq<char>,
        command: Seq<char>,
        output: Result<Seq<char>, Seq<char>>,
    ) -> bool {
        true
    }

    /// Runs `command` in the shell of the device with the given serial and
    /// returns its standard output, or a description of the failure.
    fn shell_command(&self, serial: &str, command: &str) -> (output: Result<String, String>)
        ensures
            self.answers(serial@, command@, answer_text(output)),
    ;
}

/// A shell answer as text.
pub open spec fn answer_text(output: Result<String, String>) -> Result<Seq<char>, Seq<char>> {
    match output {
        Ok(text) => Ok(text@),
        Err(e) => Err(e@),
    }
}

/// An artifact located on the device during discovery.
#[derive(Debug, Clone)]
pub struct DiscoveredArtifact {
    /// The classification of the artifact.
    pub artifact_class: ArtifactClass,
    /// The device-side path of the artifact.
    pub device_path: String,
    /// The size reported during discovery, when known.
    pub file_size: Option<u64>,
}

/// The artifacts discovered for an investigation, in discovery order.
#[derive(Debug, Clone)]
pub struct ArtifactManifest {
    /// The investigation the manifest belongs to.
    pub investigation_id: InvestigationId,
    /// The artifacts to acquire.
    pub discovered_artifacts: Vec<DiscoveredArtifact>,
}

/// A single artifact that has been successfully acquired from the device.
#[derive(Debug, Clone)]
pub struct AcquiredArtifact {
    /// The classification of the acquired artifact.
    pub artifact_class: ArtifactClass,
    /// The device-side path this artifact was pulled from.
    pub device_path: String,
    /// SHA-256 hash of the raw bytes, computed at acquisition time.
    pub sha256_hash: String,
    /// The raw artifact bytes.
    pub raw_bytes: Vec<u8>,
    /// Instant when acquisition completed.
    pub acquired_at: UtcInstant,
}

/// An artifact that could not be acquired, with the reason for failure.
#[derive(Debug, Clone)]
pub struct FailedArtifact {
    /// The classification of the artifact that failed acquisition.
    pub artifact_class: ArtifactClass,
    /// The device-side path that was attempted.
    pub device_path: String,
    /// Human-readable reason for the failure.
    pub reason: String,
}

/// The complete report produced after acquiring all artifacts from a manifest.
#[derive(Debug)]
pub struct AcquisitionReport {
    /// Artifacts that were successfully acquired.
    pub successful: Vec<AcquiredArtifact>,
    /// Artifacts that failed acquisition.
    pub failed: Vec<FailedArtifact>,
    /// Total bytes acquired across all successful artifacts (saturating).
    pub total_bytes: u64,
    /// Wall-clock duration of the entire acquisition process.
    pub duration: std::time::Duration,
}

/// The shell command that reads a device file.
pub open spec fn pull_command_text(path: Seq<char>) -> Seq<char> {
    "cat '"@ + path + "'"@
}

/// Which artifact an acquisition record or a discovery stands for.
pub open spec fn discovered_key(a: DiscoveredArtifact) -> (ArtifactClass, Seq<char>) {
    (a.artifact_class, a.device_path@)
}

/// Which artifact an acquisition stands for.
pub open spec fn acquired_key(a: AcquiredArtifact) -> (ArtifactClass, Seq<char>) {
    (a.artifact_class, a.device_path@)
}

/// Which artifact a failure stands for.
pub open spec fn failed_key(a: FailedArtifact) -> (ArtifactClass, Seq<char>) {
    (a.artifact_class, a.device_path@)
}

/// An acquisition record is sound: its bytes came from a shell's text
/// output and its hash is the SHA-256 of exactly those bytes.
pub open spec fn sound_acquisition(a: AcquiredArtifact) -> bool {
    &&& a.sha256_hash@ == forensic_hash_text(a.raw_bytes@)
    &&& vstd::utf8::valid_utf8(a.raw_bytes@)
}

/// The discovered artifacts whose acquisition succeeded (`ok[i]`) or failed
/// (`!ok[i]`), in discovery order.
pub open spec fn outcomes_with(
    artifacts: Seq<DiscoveredArtifact>,
    ok: Seq<bool>,
    succeeded: bool,
) -> Seq<(ArtifactClass, Seq<char>)>
    decreases artifacts.len(),
{
    if artifacts.len() == 0 {
        seq![]
    } else {
        let earlier = outcomes_with(artifacts.drop_last(), ok.drop_last(), succeeded);
        if ok.last() == succeeded {
            earlier.push(discovered_key(artifacts.last()))
        } else {
            earlier
        }
    }
}

/// The number of bytes held by a sequence of acquisitions.
pub open spec fn bytes_acquired(acquired: Seq<AcquiredArtifact>) -> int
    decreases acquired.len(),
{
    if acquired.len() == 0 {
        0
    } else {
        bytes_acquired(acquired.drop_last()) + acquired.last().raw_bytes@.len()
    }
}

/// A shell answer: the served text, or the reason for the refusal.
pub type ShellAnswer = Result<Seq<char>, Seq<char>>;

/// The bytes of the texts that the shell served, in order (refusals skipped).
pub open spec fn served_bytes(answers: Seq<ShellAnswer>) -> Seq<Seq<u8>>
    decreases answers.len(),
{
    if answers.len() == 0 {
        seq![]
    } else {
        let earlier = served_bytes(answers.drop_last());
        match answers.last() {
            Ok(text) => earlier.push(vstd::utf8::encode_utf8(text)),
            Err(_) => earlier,
        }
    }
}

/// The reasons the shell gave for its refusals, in order (served texts skipped).
pub open spec fn refusals(answers: Seq<ShellAnswer>) -> Seq<Seq<char>>
    decreases answers.len(),
{
    if answers.len() == 0 {
        seq![]
    } else {
        let earlier = refusals(answers.drop_last());
        match answers.last() {
            Ok(_) => earlier,
            Err(reason) => earlier.push(reason),
        }
    }
}

/// `answers` holds, for each artifact in order, an answer the shell gives
/// to the artifact's pull command on the device with the given serial.
pub open spec fn shell_answered<A: AdbShell>(
    adb: &A,
    serial: Seq<char>,
    artifacts: Seq<DiscoveredArtifact>,
    answers: Seq<ShellAnswer>,
) -> bool {
    &&& answers.len() == artifacts.len()
    &&& forall|i: int|
        0 <= i < answers.len() ==> adb.answers(
            serial,
            pull_command_text(artifacts[i].device_path@),
            #[trigger] answers[i],
        )
}

/// The report is what the shell's answers make of the manifest: an artifact
/// is acquired exactly when the shell served its pull command, and then
/// holds the bytes of the served text; otherwise it failed, with the
/// shell's reason.
pub open spec fn report_follows_answers(
    report: AcquisitionReport,
    ok: Seq<bool>,
    answers: Seq<ShellAnswer>,
) -> bool {
    &&& forall|i: int| 0 <= i < answers.len() ==> ok[i] == (#[trigger] answers[i] is Ok)
    &&& report.successful@.map_values(|a: AcquiredArtifact| a.raw_bytes@) == served_bytes(answers)
    &&& report.failed@.map_values(|f: FailedArtifact| f.reason@) == refusals(answers)
}

/// The report accounts for every artifact of the manifest: exactly one of
/// `successful` and `failed` holds it, both lists keep discovery order,
/// every acquisition is sound, and the byte total is the saturating sum.
pub open spec fn report_accounts_for(
    artifacts: Seq<DiscoveredArtifact>,
    report: AcquisitionReport,
    ok: Seq<bool>,
) -> bool {
    &&& ok.len() == artifacts.len()
    &&& report.successful@.map_values(|a: AcquiredArtifact| acquired_key(a)) == outcomes_with(
        artifacts,
        ok,
        true,
    )
    &&& report.failed@.map_values(|f: FailedArtifact| failed_key(f)) == outcomes_with(
        artifacts,
        ok,
        false,
    )
    &&& forall|i: int|
        0 <= i < report.successful@.len() ==> sound_acquisition(#[trigger] report.successful@[i])
    &&& report.total_bytes == (if bytes_acquired(report.successful@) > u64::MAX {
        u64::MAX as int
    } else {
        bytes_acquired(report.successful@)
    })
}

/// Coordinates the acquisition of forensic artifacts from an Android device.
///
/// The coordinator iterates over the manifest's discovered artifacts, pulls
/// each one via ADB shell, computes integrity hashes, and collects results
/// into an [`AcquisitionReport`].
pub struct AcquisitionCoordinator;

impl AcquisitionCoordinator {
    /// The shell command that pulls the file at `path`: `cat '<path>'`.
    pub fn pull_command(path: &str) -> (cmd: String)
        ensures
            cmd@ == pull_command_text(path@),
    {
        let mut cmd = "cat '".to_owned();
        cmd.append(path);
        cmd.append("'");
        cmd
    }

    /// Turns what the shell answered to the pull of `artifact` into an
    /// acquisition: the output's bytes, hashed with SHA-256; a shell
    /// failure is handed back as it came.
    pub fn record_pull(artifact: &DiscoveredArtifact, output: Result<String, String>) -> (res:
        Result<AcquiredArtifact, String>)
        ensures
            match (output, res) {
                (Ok(text), Ok(a)) => {
                    &&& a.artifact_class == artifact.artifact_class
                    &&& a.device_path@ == artifact.device_path@
                    &&& a.raw_bytes@ == vstd::utf8::encode_utf8(text@)
                    &&& a.sha256_hash@ == forensic_hash_text(a.raw_bytes@)
                },
                (Err(e), Err(r)) => r@ == e@,
                _ => false,
            },
    {
        match output {
            Ok(text) => {
                let raw_bytes = text.as_str().as_bytes_vec();
                let sha256_hash = forensic_hash_hex(raw_bytes.as_slice());
                Ok(
                    AcquiredArtifact {
                        artifact_class: artifact.artifact_class,
                        device_path: artifact.device_path.clone(),
                        sha256_hash,
                        raw_bytes,
                        acquired_at: utc_now(),
                    },
                )
            },
            Err(e) => Err(e),
        }
    }

    /// Acquire a single artifact from the device.
    ///
    /// Runs `cat '<path>'` in the ADB shell; the raw bytes of the output are
    /// hashed with SHA-256 to establish a chain-of-custody hash at the moment
    /// of acquisition. A shell failure is returned as the error.
    pub fn acquire_artifact<A: AdbShell>(adb: &A, serial: &str, artifact: &DiscoveredArtifact) -> (res:
        Result<AcquiredArtifact, String>)
        ensures
            res matches Ok(a) ==> {
                &&& a.artifact_class == artifact.artifact_class
                &&& a.device_path@ == artifact.device_path@
                &&& sound_acquisition(a)
                &&& exists|text: Seq<char>|
                    adb.answers(
                        serial@,
                        pull_command_text(artifact.device_path@),
                        Ok(text),
                    ) && a.raw_bytes@ == vstd::utf8::encode_utf8(text)
            },
            res matches Err(e) ==> adb.answers(
                serial@,
                pull_command_text(artifact.device_path@),
                Err(e@),
            ),
    {
        let cmd = Self::pull_command(artifact.device_path.as_str());
        let output = adb.shell_command(serial, cmd.as_str());
        let ghost answer = output;
        let res = Self::record_pull(artifact, output);
        proof {
            match answer {
                Ok(text) => {
                    vstd::utf8::encode_utf8_valid_utf8(text@);
                    assert(answer_text(answer) == Ok::<Seq<char>, Seq<char>>(text@));
                },
                Err(_) => {},
            }
        }
        res
    }

    /// Acquire all artifacts listed in a manifest.
    ///
    /// Every artifact is attempted, in manifest order. Failures are captured
    /// in the report rather than short-circuiting the entire operation:
    /// forensic practice demands collecting as much evidence as possible even
    /// when individual artifacts are unavailable.
    pub fn acquire_all<A: AdbShell>(adb: &A, serial: &str, manifest: &ArtifactManifest) -> (report:
        AcquisitionReport)
        ensures
            report.successful@.len() + report.failed@.len() == manifest.discovered_artifacts@.len(),
            exists|ok: Seq<bool>, answers: Seq<ShellAnswer>|
                {
                    &&& report_accounts_for(manifest.discovered_artifacts@, report, ok)
                    &&& shell_answered(adb, serial@, manifest.discovered_artifacts@, answers)
                    &&& report_follows_answers(report, ok, answers)
                },
    {
        let start = monotonic_now();
        let mut successful: Vec<AcquiredArtifact> = Vec::new();
        let mut failed: Vec<FailedArtifact> = Vec::new();
        let mut total_bytes: u64 = 0;
        let ghost artifacts = manifest.discovered_artifacts@;
        let ghost mut ok: Seq<bool> = seq![];
        let ghost mut answers: Seq<ShellAnswer> = seq![];
        let n = manifest.discovered_artifacts.len();
        assert(artifacts.take(0) =~= Seq::<DiscoveredArtifact>::empty());
        for k in 0..n
            invariant
                n == artifacts.len(),
                artifacts == manifest.discovered_artifacts@,
                ok.len() == k,
                answers.len() == k,
                forall|i: int|
                    0 <= i < k ==> adb.answers(
                        serial@,
                        pull_command_text(artifacts[i].device_path@),
                        #[trigger] answers[i],
                    ),
                forall|i: int| 0 <= i < k ==> ok[i] == (#[trigger] answers[i] is Ok),
                successful@.map_values(|a: AcquiredArtifact| a.raw_bytes@) == served_bytes(answers),
                failed@.map_values(|f: FailedArtifact| f.reason@) == refusals(answers),
                successful@.len() + failed@.len() == k,
                successful@.map_values(|a: AcquiredArtifact| acquired_key(a)) == outcomes_with(
                    artifacts.take(k as int),
                    ok,
                    true,
                ),
                failed@.map_values(|f: FailedArtifact| failed_key(f)) == outcomes_with(
                    artifacts.take(k as int),
                    ok,
                    false,
                ),
                forall|i: int|
                    0 <= i < successful@.len() ==> sound_acquisition(#[trigger] successful@[i]),
                total_bytes == (if bytes_acquired(successful@) > u64::MAX {
                    u64::MAX as int
                } else {
                    bytes_acquired(successful@)
                }),
        {
            let artifact = &manifest.discovered_artifacts[k];
            let ghost prev_ok = ok;
            let ghost prev_answers = answers;
            let ghost prev_successful = successful@;
            let ghost prev_failed = failed@;
            assert(artifacts.take(k + 1).drop_last() =~= artifacts.take(k as int));
            assert(artifacts.take(k + 1).last() == artifacts[k as int]);
            match Self::acquire_artifact(adb, serial, artifact) {
                Ok(acquired) => {
                    let ghost text = choose|t: Seq<char>|
                        adb.answers(serial@, pull_command_text(artifact.device_path@), Ok(t))
                            && acquired.raw_bytes@ == vstd::utf8::encode_utf8(t);
                    let len = acquired.raw_bytes.len() as u64;
                    total_bytes = total_bytes.saturating_add(len);
                    successful.push(acquired);
                    proof {
                        ok = prev_ok.push(true);
                        answers = prev_answers.push(Ok(text));
                        assert(ok.drop_last() =~= prev_ok);
                        assert(answers.drop_last() =~= prev_answers);
                        assert(successful@.map_values(|a: AcquiredArtifact| a.raw_bytes@)
                            =~= prev_successful.map_values(|a: AcquiredArtifact| a.raw_bytes@).push(
                            vstd::utf8::encode_utf8(text),
                        ));
                        assert(successful@.drop_last() =~= prev_successful);
                        assert(successful@.map_values(|a: AcquiredArtifact| acquired_key(a))
                            =~= prev_successful.map_values(|a: AcquiredArtifact| acquired_key(a)).push(
                            discovered_key(artifacts[k as int]),
                        ));
                    }
                },
                Err(e) => {
                    let ghost e_text = e@;
                    failed.push(
                        FailedArtifact {
                            artifact_class: artifact.artifact_class,
                            device_path: artifact.device_path.clone(),
                            reason: e,
                        },
                    );
                    proof {
                        ok = prev_ok.push(false);
                        answers = prev_answers.push(Err(e_text));
                        assert(ok.drop_last() =~= prev_ok);
                        assert(answers.drop_last() =~= prev_answers);
                        assert(failed@.map_values(|f: FailedArtifact| f.reason@)
                            =~= prev_failed.map_values(|f: FailedArtifact| f.reason@).push(e_text));
                        assert(failed@.map_values(|f: FailedArtifact| failed_key(f))
                            =~= prev_failed.map_values(|f: FailedArtifact| failed_key(f)).push(
                            discovered_key(artifacts[k as int]),
                        ));
                    }
                },
            }
        }
        assert(artifacts.take(n as int) =~= artifacts);
        let duration = elapsed_since(&start);
        let report = AcquisitionReport { successful, failed, total_bytes, duration };
        assert(report_accounts_for(artifacts, report, ok));
        assert(shell_answered(adb, serial@, artifacts, answers));
        assert(report_follows_answers(report, ok, answers));
        report
    }
}

} // verus!
