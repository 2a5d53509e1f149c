# ORACLE verified core

The verified core of ORACLE, an Android network forensics platform, written in
Verus. `src/` is the library; every function in it carries a contract.
Verus proves the contracts of the verified functions; those of the few
wrappers around the `uuid`, `sha2` and `chrono` crates and `std::time::Instant`
are believed, not proved. `app/` is the command-line front end around it.

## Layout

- `src/ids.rs`: investigation, artifact, record, score and report identifiers
  (UUIDs held as their 128-bit value; generation, text form and parsing by the
  `uuid` crate).
- `src/time.rs`: instants in UTC as epoch seconds and nanoseconds.
- `src/text.rs`: Unicode white space, trimming, lower-case hexadecimal.
- `src/types.rs`: the forensic ontology (devices, capabilities, artifact
  classes and their baseline reliability, timestamps, confidence
  classification, audit operations).
- `src/model.rs`: the Confidence Model v1.0 parameters and documentation.
- `src/stats.rs`: the exact integer standard deviation behind temporal
  consistency.
- `src/scorer.rs`: the deterministic scoring engine, examiner overrides,
  score history, and the laws of the model.
- `src/acquisition.rs`: the acquisition coordinator (ADB shell pulls, SHA-256
  chain-of-custody hashes, acquisition reports).
- `src/report.rs`: the report data model.
- `src/startup.rs`: the pre-flight check run and the verdicts of each check.
- `src/commands.rs`: the decisions of the investigation commands.

Scores, weights and confidences are fixed-point values in ten-thousandths:
`SCORE_SCALE` (10000) stands for 1.0.
