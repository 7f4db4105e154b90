use std::collections::BTreeMap;
use vox_golem::telemetry::{
    default_telemetry_config, file_name, path_exists, reject_symlink, validate_identifier,
    ErrorCategory, FileStep, InferenceProvider, InputSource, PathEntry, Provider,
    SpeculativeOrigin, Stage, Status, TelemetryConfig, TelemetryMetadata, TelemetrySink, Transport,
    SCHEMA_VERSION,
};

fn event() -> TelemetryMetadata {
    TelemetryMetadata {
        schema_version: SCHEMA_VERSION,
        timestamp_ms: 1,
        request_id: "req-1".into(),
        generation: 1,
        input_source: InputSource::Voice,
        provider: Provider::Local,
        model: "model".into(),
        stage: Stage::CompletionPrediction,
        transport: Transport::InProcess,
        inference_provider: InferenceProvider::Cpu,
        speculative_origin: SpeculativeOrigin::System,
        input_tokens: Some(2),
        output_tokens: Some(3),
        duration_ms: Some(4),
        status: Status::Success,
        error_category: ErrorCategory::Nothing,
    }
}

fn config(max_bytes: u64, backup_count: usize) -> TelemetryConfig {
    TelemetryConfig { enabled: true, max_bytes, backup_count }
}

fn sink(config: TelemetryConfig) -> TelemetrySink {
    TelemetrySink::new(String::from("state"), config)
}

/// The files of a sink, by their names.
#[derive(Default)]
struct Files {
    contents: BTreeMap<String, Vec<u8>>,
}

impl Files {
    fn append(&mut self, sink: &TelemetrySink, line: &[u8]) -> Result<(), &'static str> {
        let current = self.contents.get(&file_name(0)).map_or(0, |file| file.len() as u64);
        for step in sink.append(&event(), line, current)? {
            match step {
                FileStep::Remove { slot } => {
                    self.contents.remove(&file_name(slot));
                }
                FileStep::Rename { from, to } => {
                    if let Some(file) = self.contents.remove(&file_name(from)) {
                        self.contents.insert(file_name(to), file);
                    }
                }
                FileStep::Append => {
                    let file = self.contents.entry(file_name(0)).or_default();
                    file.extend_from_slice(line);
                    file.push(b'\n');
                }
            }
        }
        Ok(())
    }

    fn holds(&self, name: &str) -> bool {
        self.contents.contains_key(name)
    }
}

#[test]
fn appends_jsonl() {
    let mut files = Files::default();
    files.append(&sink(config(4096, 2)), b"{\"a\":1}").unwrap();
    let text = String::from_utf8(files.contents["telemetry.jsonl"].clone()).unwrap();
    assert!(text.ends_with('\n'));
    assert_eq!(text.lines().count(), 1);
    assert!(serde_json::from_str::<serde_json::Value>(text.trim_end()).is_ok());
}

#[test]
fn disabled_does_not_write() {
    let mut files = Files::default();
    files
        .append(&sink(TelemetryConfig { enabled: false, ..config(20, 1) }), b"{}")
        .unwrap();
    assert!(!files.holds("telemetry.jsonl"));
}

#[test]
fn rotates_with_fixed_backups() {
    let mut files = Files::default();
    let line = b"{\"record\":true}";
    let sink = sink(config(line.len() as u64 + 2, 1));
    files.append(&sink, line).unwrap();
    files.append(&sink, line).unwrap();
    assert!(files.holds("telemetry.jsonl.1"));
}

#[test]
fn zero_backups_discards_previous_file_without_retaining_backup() {
    let mut files = Files::default();
    let line = b"{\"record\":true}";
    let sink = sink(config(line.len() as u64 + 2, 0));
    files.append(&sink, line).unwrap();
    files.append(&sink, line).unwrap();
    assert!(files.holds("telemetry.jsonl"));
    assert!(!files.holds("telemetry.jsonl.1"));
}

#[test]
fn rejects_symlinked_directory_and_file_paths() {
    assert!(reject_symlink(PathEntry::Symlink).is_err());
    assert!(path_exists(PathEntry::Symlink).is_err());
    assert_eq!(path_exists(PathEntry::Missing), Ok(false));
    assert_eq!(path_exists(PathEntry::Other), Ok(true));
    assert_eq!(reject_symlink(PathEntry::Missing), Ok(()));
}

#[test]
fn rotation_shifts_every_backup_by_one() {
    let mut files = Files::default();
    let sink = sink(config(3, 2));
    for line in [b"a", b"b", b"c", b"d"] {
        files.append(&sink, line).unwrap();
    }
    let shown: Vec<(&str, &[u8])> =
        files.contents.iter().map(|(name, file)| (name.as_str(), file.as_slice())).collect();
    assert_eq!(
        shown,
        vec![
            ("telemetry.jsonl", b"d\n".as_slice()),
            ("telemetry.jsonl.1", b"c\n".as_slice()),
            ("telemetry.jsonl.2", b"b\n".as_slice()),
        ]
    );
}

#[test]
fn records_are_refused_that_are_too_large_or_badly_named() {
    let narrow = sink(config(3, 1));
    assert_eq!(
        narrow.append(&event(), b"abc", 0),
        Err("telemetry record exceeds rotation limit")
    );
    assert_eq!(narrow.append(&event(), b"ab", 0), Ok(vec![FileStep::Append]));
    let mut unnamed = event();
    unnamed.request_id = String::new();
    assert_eq!(
        narrow.append(&unnamed, b"ab", 0),
        Err("telemetry identifier is invalid")
    );
    assert_eq!(validate_identifier("gpt-5.6_sol"), Ok(()));
    assert_eq!(validate_identifier("a b"), Err("telemetry identifier is invalid"));
    assert!(validate_identifier(&"x".repeat(128)).is_ok());
    assert!(validate_identifier(&"x".repeat(129)).is_err());
}

#[test]
fn telemetry_is_kept_by_default() {
    let config = default_telemetry_config();
    assert!(config.enabled);
    assert_eq!(config.max_bytes, 10 * 1024 * 1024);
    assert_eq!(config.backup_count, 3);
}
