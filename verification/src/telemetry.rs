//! Metadata-only, local telemetry: what a record may hold, and how the file that holds the records
//! is kept within its bounds.

use crate::text;
use crate::text::{concat2, decimal_text, is_ascii_alphanumeric};
use vstd::prelude::*;
use vstd::string::*;

verus! {

broadcast use vstd::string::group_string_axioms;

/// The version of the record layout.
pub const SCHEMA_VERSION: u8 = 1;

/// How large the telemetry file grows where nothing else is configured.
pub const DEFAULT_TELEMETRY_MAX_BYTES: usize = 10485760;

/// How many older telemetry files are kept where nothing else is configured.
pub const DEFAULT_TELEMETRY_BACKUP_COUNT: u8 = 3;

/// How a request came in.
#[derive(Clone, Copy, Debug, PartialEq, Eq, Structural)]
pub enum InputSource {
    Voice,
    Text,
}

/// Who answered.
#[derive(Clone, Copy, Debug, PartialEq, Eq, Structural)]
pub enum Provider {
    Local,
    Custom,
    OpenCode,
}

/// Which part of the work a record is about.
#[derive(Clone, Copy, Debug, PartialEq, Eq, Structural)]
pub enum Stage {
    Generation,
    PartialTranscription,
    CompletionPrediction,
    Prefetch,
    Deep,
    Review,
}

/// How the model was reached.
#[derive(Clone, Copy, Debug, PartialEq, Eq, Structural)]
pub enum Transport {
    InProcess,
    Http,
}

/// What the model ran on.
#[derive(Clone, Copy, Debug, PartialEq, Eq, Structural)]
pub enum InferenceProvider {
    Cuda,
    Cpu,
    AttachedUnknown,
    Remote,
}

/// Who caused work that nobody had asked for yet.
#[derive(Clone, Copy, Debug, PartialEq, Eq, Structural)]
pub enum SpeculativeOrigin {
    Nobody,
    User,
    System,
}

/// How the work ended.
#[derive(Clone, Copy, Debug, PartialEq, Eq, Structural)]
pub enum Status {
    Success,
    Error,
}

/// What kind of error there was.
#[derive(Clone, Copy, Debug, PartialEq, Eq, Structural)]
pub enum ErrorCategory {
    Nothing,
    Internal,
}

/// One telemetry record. It holds no text that a user wrote or read.
#[derive(Clone, Debug)]
pub struct TelemetryMetadata {
    pub schema_version: u8,
    pub timestamp_ms: u64,
    pub request_id: String,
    pub generation: u64,
    pub input_source: InputSource,
    pub provider: Provider,
    pub model: String,
    pub stage: Stage,
    pub transport: Transport,
    pub inference_provider: InferenceProvider,
    pub speculative_origin: SpeculativeOrigin,
    pub input_tokens: Option<u64>,
    pub output_tokens: Option<u64>,
    pub duration_ms: Option<u64>,
    pub status: Status,
    pub error_category: ErrorCategory,
}

/// Whether telemetry is kept, and how much of it.
#[derive(Clone, Copy, Debug, PartialEq, Eq, Structural)]
pub struct TelemetryConfig {
    pub enabled: bool,
    pub max_bytes: u64,
    pub backup_count: usize,
}

/// How telemetry is kept where nothing else is configured.
pub fn default_telemetry_config() -> (config: TelemetryConfig)
    ensures
        config == (TelemetryConfig { enabled: true, max_bytes: 10485760, backup_count: 3 }),
{
    TelemetryConfig {
        enabled: true,
        max_bytes: DEFAULT_TELEMETRY_MAX_BYTES as u64,
        backup_count: DEFAULT_TELEMETRY_BACKUP_COUNT as usize,
    }
}

/// Where telemetry goes.
pub struct TelemetrySink {
    pub dir: String,
    pub config: TelemetryConfig,
}

/// One step on the telemetry files. Slot zero is the file that grows, slot `n` the `n`-th backup.
#[derive(Clone, Copy, Debug, PartialEq, Eq, Structural)]
pub enum FileStep {
    /// Removes a file, where there is one.
    Remove { slot: usize },
    /// Gives a file, where there is one, the place of another.
    Rename { from: usize, to: usize },
    /// Appends the record and a line feed to the file that grows.
    Append,
}

/// Whether a character may stand in an identifier.
pub open spec fn identifier_char(c: char) -> bool {
    text::ascii_alphanumeric(c) || c == '.' || c == '_' || c == '-'
}

/// Whether a text may stand for a request or a model: not empty, not long, and made of letters,
/// digits, dots, underscores and hyphens.
pub open spec fn valid_identifier(value: Seq<char>) -> bool {
    &&& 0 < value.len()
    &&& text::byte_count(value) <= 128
    &&& forall|i: int| 0 <= i < value.len() ==> identifier_char(#[trigger] value[i])
}

/// Accepts a text that may stand for a request or a model.
pub fn validate_identifier(value: &str) -> (result: Result<(), &'static str>)
    ensures
        match result {
            Ok(_) => valid_identifier(value@),
            Err(message) => !valid_identifier(value@) && message@
                == "telemetry identifier is invalid"@,
        },
{
    if value.is_empty() || text::byte_len(value) > 128 {
        return Err("telemetry identifier is invalid");
    }
    let chars = text::chars_of(value);
    let mut i: usize = 0;
    while i < chars.len()
        invariant
            chars@ == value@,
            i <= chars.len(),
            forall|j: int| 0 <= j < i ==> identifier_char(#[trigger] value@[j]),
        decreases chars.len() - i,
    {
        let c: char = chars[i];
        if !(is_ascii_alphanumeric(c) || c == '.' || c == '_' || c == '-') {
            proof {
                assert(!identifier_char(value@[i as int]));
            }
            return Err("telemetry identifier is invalid");
        }
        i += 1;
    }
    Ok(())
}

/// The name of the file in a slot.
pub open spec fn slot_name(slot: nat) -> Seq<char> {
    if slot == 0 {
        "telemetry.jsonl"@
    } else {
        "telemetry.jsonl."@ + text::decimal(slot)
    }
}

/// The name of the file in a slot.
pub fn file_name(slot: usize) -> (name: String)
    ensures
        name@ == slot_name(slot as nat),
{
    if slot == 0 {
        "telemetry.jsonl".to_owned()
    } else {
        concat2("telemetry.jsonl.", decimal_text(slot as u128).as_str())
    }
}

/// The steps that move backups `last` to one up by one, the oldest first.
pub open spec fn shift_steps(last: nat) -> Seq<FileStep>
    decreases last,
{
    if last == 0 {
        seq![]
    } else {
        seq![FileStep::Rename { from: last as usize, to: (last + 1) as usize }] + shift_steps(
            (last - 1) as nat,
        )
    }
}

/// The steps that make room for a new file.
pub open spec fn rotation_steps(backup_count: usize) -> Seq<FileStep> {
    if backup_count == 0 {
        seq![FileStep::Remove { slot: 0 }]
    } else {
        seq![FileStep::Remove { slot: backup_count }] + shift_steps((backup_count - 1) as nat)
            + seq![FileStep::Rename { from: 0, to: 1 }]
    }
}

/// Whether a record has to go to a new file.
pub open spec fn rotates(config: TelemetryConfig, line_len: nat, current_len: u64) -> bool {
    let total = current_len + line_len + 1;
    (if total <= u64::MAX {
        total
    } else {
        u64::MAX as int
    }) > config.max_bytes
}

/// Why a record is refused, where it is.
pub open spec fn record_refusal(
    config: TelemetryConfig,
    metadata: TelemetryMetadata,
    line_len: nat,
) -> Option<Seq<char>> {
    if !valid_identifier(metadata.request_id@) || !valid_identifier(metadata.model@) {
        Some("telemetry identifier is invalid"@)
    } else if line_len + 1 > config.max_bytes {
        Some("telemetry record exceeds rotation limit"@)
    } else {
        None
    }
}

/// The steps that write a record.
pub open spec fn append_steps(
    config: TelemetryConfig,
    line_len: nat,
    current_len: u64,
) -> Seq<FileStep> {
    if rotates(config, line_len, current_len) {
        rotation_steps(config.backup_count).push(FileStep::Append)
    } else {
        seq![FileStep::Append]
    }
}

impl TelemetrySink {
    /// A sink that writes to the directory `state_dir`.
    pub fn new(state_dir: String, config: TelemetryConfig) -> (sink: Self)
        ensures
            sink.dir == state_dir,
            sink.config == config,
    {
        TelemetrySink { dir: state_dir, config }
    }

    /// The steps that write a record whose serialised form is `line` to a file that now holds
    /// `current_len` bytes; none where telemetry is disabled.
    pub fn append(&self, metadata: &TelemetryMetadata, line: &[u8], current_len: u64) -> (result:
        Result<Vec<FileStep>, &'static str>)
        requires
            line@.len() < u64::MAX,
        ensures
            match result {
                Ok(steps) => if self.config.enabled {
                    &&& record_refusal(self.config, *metadata, line@.len()) is None
                    &&& steps@ == append_steps(self.config, line@.len(), current_len)
                } else {
                    steps@ == Seq::<FileStep>::empty()
                },
                Err(message) => {
                    &&& self.config.enabled
                    &&& record_refusal(self.config, *metadata, line@.len()) == Some(message@)
                },
            },
    {
        let mut steps: Vec<FileStep> = Vec::new();
        if !self.config.enabled {
            return Ok(steps);
        }
        match validate_identifier(metadata.request_id.as_str()) {
            Ok(_) => {},
            Err(message) => {
                return Err(message);
            },
        }
        match validate_identifier(metadata.model.as_str()) {
            Ok(_) => {},
            Err(message) => {
                return Err(message);
            },
        }
        let line_len: u64 = line.len() as u64 + 1;
        if line_len > self.config.max_bytes {
            return Err("telemetry record exceeds rotation limit");
        }
        if current_len.saturating_add(line_len) > self.config.max_bytes {
            steps = self.rotate();
        }
        steps.push(FileStep::Append);
        proof {
            assert(steps@ == append_steps(self.config, line@.len(), current_len));
        }
        Ok(steps)
    }

    /// The steps that make room for a new file.
    pub fn rotate(&self) -> (steps: Vec<FileStep>)
        ensures
            steps@ == rotation_steps(self.config.backup_count),
    {
        let mut steps: Vec<FileStep> = Vec::new();
        if self.config.backup_count == 0 {
            steps.push(FileStep::Remove { slot: 0 });
            return steps;
        }
        steps.push(FileStep::Remove { slot: self.config.backup_count });
        let mut index: usize = self.config.backup_count - 1;
        let ghost head = seq![FileStep::Remove { slot: self.config.backup_count }];
        proof {
            assert(steps@ == head);
        }
        while index > 0
            invariant
                index < self.config.backup_count,
                steps@ + shift_steps(index as nat) == head + shift_steps(
                    (self.config.backup_count - 1) as nat,
                ),
            decreases index,
        {
            let ghost before = steps@;
            let step = FileStep::Rename { from: index, to: index + 1 };
            steps.push(step);
            proof {
                assert(shift_steps(index as nat) == seq![step] + shift_steps((index - 1) as nat));
                assert(steps@ + shift_steps((index - 1) as nat) == before + (seq![step]
                    + shift_steps((index - 1) as nat)));
            }
            index -= 1;
        }
        proof {
            assert(steps@ + shift_steps(0) == steps@);
        }
        steps.push(FileStep::Rename { from: 0, to: 1 });
        steps
    }
}

/// What was found at a path.
#[derive(Clone, Copy, Debug, PartialEq, Eq, Structural)]
pub enum PathEntry {
    Missing,
    Symlink,
    Other,
}

/// Whether there is something at a path; a symbolic link is refused.
pub fn path_exists(entry: PathEntry) -> (result: Result<bool, &'static str>)
    ensures
        match result {
            Ok(present) => !(entry is Symlink) && present == (entry is Other),
            Err(message) => entry is Symlink && message@
                == "telemetry path must not be a symlink"@,
        },
{
    match entry {
        PathEntry::Missing => Ok(false),
        PathEntry::Symlink => Err("telemetry path must not be a symlink"),
        PathEntry::Other => Ok(true),
    }
}

/// Accepts every path that is not a symbolic link.
pub fn reject_symlink(entry: PathEntry) -> (result: Result<(), &'static str>)
    ensures
        match result {
            Ok(_) => !(entry is Symlink),
            Err(message) => entry is Symlink && message@
                == "telemetry path must not be a symlink"@,
        },
{
    match path_exists(entry) {
        Ok(_) => Ok(()),
        Err(message) => Err(message),
    }
}

/// The files after one step, where `line` is the record to append. The files are what each slot
/// that has one holds.
pub open spec fn after_step(files: Map<nat, Seq<u8>>, step: FileStep, line: Seq<u8>) -> Map<
    nat,
    Seq<u8>,
> {
    match step {
        FileStep::Remove { slot } => files.remove(slot as nat),
        FileStep::Rename { from, to } => if files.contains_key(from as nat) {
            files.remove(from as nat).insert(to as nat, files[from as nat])
        } else {
            files
        },
        FileStep::Append => files.insert(
            0,
            (if files.contains_key(0) {
                files[0]
            } else {
                seq![]
            }) + line.push(10u8),
        ),
    }
}

/// The files after all of `steps`.
pub open spec fn after_steps(
    files: Map<nat, Seq<u8>>,
    steps: Seq<FileStep>,
    line: Seq<u8>,
) -> Map<nat, Seq<u8>>
    decreases steps.len(),
{
    if steps.len() == 0 {
        files
    } else {
        after_steps(after_step(files, steps[0], line), steps.skip(1), line)
    }
}

/// The files of which backups one to `last` moved up by one, over backup `last + 1`.
pub open spec fn shifted(files: Map<nat, Seq<u8>>, last: nat) -> Map<nat, Seq<u8>> {
    Map::new(
        |slot: nat|
            if slot == 0 || slot > last + 1 {
                files.contains_key(slot)
            } else if slot == 1 {
                last == 0 && files.contains_key(1)
            } else {
                files.contains_key((slot - 1) as nat)
            },
        |slot: nat|
            if slot == 0 || slot > last + 1 || last == 0 {
                files[slot]
            } else {
                files[(slot - 1) as nat]
            },
    )
}

/// The files that a rotation leaves: the one that grew is the first backup, every backup moved up
/// by one, the oldest is gone, and files beyond the backups stay.
pub open spec fn rotated(files: Map<nat, Seq<u8>>, backup_count: usize) -> Map<nat, Seq<u8>> {
    Map::new(
        |slot: nat|
            slot != 0 && files.contains_key(
                if slot <= backup_count {
                    (slot - 1) as nat
                } else {
                    slot
                },
            ),
        |slot: nat|
            if slot <= backup_count {
                files[(slot - 1) as nat]
            } else {
                files[slot]
            },
    )
}

proof fn lemma_after_steps_append(
    files: Map<nat, Seq<u8>>,
    first: Seq<FileStep>,
    second: Seq<FileStep>,
    line: Seq<u8>,
)
    ensures
        after_steps(files, first + second, line) == after_steps(
            after_steps(files, first, line),
            second,
            line,
        ),
    decreases first.len(),
{
    if first.len() == 0 {
        assert(first + second == second);
    } else {
        assert((first + second)[0] == first[0]);
        assert((first + second).skip(1) == first.skip(1) + second);
        lemma_after_steps_append(
            after_step(files, first[0], line),
            first.skip(1),
            second,
            line,
        );
    }
}

proof fn lemma_one_step(files: Map<nat, Seq<u8>>, step: FileStep, line: Seq<u8>)
    ensures
        after_steps(files, seq![step], line) == after_step(files, step, line),
{
    assert(seq![step].skip(1) == Seq::<FileStep>::empty());
    assert(seq![step][0] == step);
    assert(after_steps(after_step(files, step, line), seq![step].skip(1), line) == after_step(
        files,
        step,
        line,
    ));
}

proof fn lemma_shift(files: Map<nat, Seq<u8>>, last: nat, line: Seq<u8>)
    requires
        last < usize::MAX,
        !files.contains_key(last + 1),
    ensures
        after_steps(files, shift_steps(last), line) == shifted(files, last),
    decreases last,
{
    if last == 0 {
        assert(shifted(files, 0) =~= files);
    } else {
        let step = FileStep::Rename { from: last as usize, to: (last + 1) as usize };
        let next = after_step(files, step, line);
        let rest = shift_steps((last - 1) as nat);
        lemma_after_steps_append(files, seq![step], rest, line);
        lemma_one_step(files, step, line);
        lemma_shift(next, (last - 1) as nat, line);
        assert(shifted(next, (last - 1) as nat) =~= shifted(files, last));
    }
}

/// A rotation keeps the newest files: what grew becomes the first backup, each backup takes the
/// place of the next older one, the oldest one goes, and nothing else is touched.
pub proof fn law_rotation_shifts_backups(
    files: Map<nat, Seq<u8>>,
    backup_count: usize,
    line: Seq<u8>,
)
    ensures
        after_steps(files, rotation_steps(backup_count), line) == rotated(files, backup_count),
{
    if backup_count == 0 {
        lemma_one_step(files, FileStep::Remove { slot: 0 }, line);
        assert(files.remove(0) =~= rotated(files, 0));
    } else {
        let last = (backup_count - 1) as nat;
        let remove = FileStep::Remove { slot: backup_count };
        let rename = FileStep::Rename { from: 0, to: 1 };
        let cleared = files.remove(backup_count as nat);
        lemma_after_steps_append(files, seq![remove] + shift_steps(last), seq![rename], line);
        lemma_after_steps_append(files, seq![remove], shift_steps(last), line);
        lemma_one_step(files, remove, line);
        lemma_shift(cleared, last, line);
        let moved = shifted(cleared, last);
        lemma_one_step(moved, rename, line);
        assert(after_step(moved, rename, line) =~= rotated(files, backup_count));
    }
}

/// Writing a record that is not refused leaves a file that ends in that record and is within its
/// bound, keeps everything that was in the file before either in front of the record or as the
/// first backup, and never makes more backups than configured.
pub proof fn law_records_are_kept_within_bounds(
    config: TelemetryConfig,
    files: Map<nat, Seq<u8>>,
    line: Seq<u8>,
    current_len: u64,
)
    requires
        line.len() + 1 <= config.max_bytes,
        current_len + line.len() + 1 <= u64::MAX,
        current_len == (if files.contains_key(0) {
            files[0].len()
        } else {
            0
        }),
    ensures
        ({
            let after = after_steps(files, append_steps(config, line.len(), current_len), line);
            &&& after.contains_key(0)
            &&& after[0].len() <= config.max_bytes
            &&& line.push(10u8).is_suffix_of(after[0])
            &&& files.contains_key(0) && !rotates(config, line.len(), current_len) ==> after[0]
                == files[0] + line.push(10u8)
            &&& files.contains_key(0) && rotates(config, line.len(), current_len)
                && config.backup_count > 0 ==> after.contains_key(1) && after[1] == files[0]
            &&& forall|slot: nat|
                slot > config.backup_count && #[trigger] after.contains_key(slot)
                    ==> files.contains_key(slot)
        }),
{
    let record = line.push(10u8);
    if rotates(config, line.len(), current_len) {
        let steps = rotation_steps(config.backup_count);
        assert(steps.push(FileStep::Append) == steps + seq![FileStep::Append]);
        lemma_after_steps_append(files, steps, seq![FileStep::Append], line);
        law_rotation_shifts_backups(files, config.backup_count, line);
        let room = rotated(files, config.backup_count);
        lemma_one_step(room, FileStep::Append, line);
        assert(Seq::<u8>::empty() + record == record);
    } else {
        lemma_one_step(files, FileStep::Append, line);
    }
}

/// A name is accepted exactly where it has one to so many bytes, all of them letters, digits, dots,
/// underscores or hyphens.
pub proof fn law_names_are_plain(value: Seq<char>)
    ensures
        valid_identifier(value) <==> {
            &&& value.len() > 0
            &&& vstd::utf8::encode_utf8(value).len() <= 128
            &&& forall|i: int|
                0 <= i < value.len() ==> {
                    let c = #[trigger] value[i];
                    'a' <= c <= 'z' || 'A' <= c <= 'Z' || '0' <= c <= '9' || c == '.' || c == '_'
                        || c == '-'
                }
        },
{
    if valid_identifier(value) {
        assert forall|i: int| 0 <= i < value.len() implies {
            let c = #[trigger] value[i];
            'a' <= c <= 'z' || 'A' <= c <= 'Z' || '0' <= c <= '9' || c == '.' || c == '_' || c
                == '-'
        } by {
            assert(identifier_char(value[i]));
        }
    }
}

/// A record is refused exactly where one of its names is not plain, or where it would not fit into a
/// file of its own.
pub proof fn law_records_are_refused_where_they_cannot_be_kept(
    config: TelemetryConfig,
    metadata: TelemetryMetadata,
    len: nat,
)
    ensures
        ({
            let refusal = record_refusal(config, metadata, len);
            let named = valid_identifier(metadata.request_id@) && valid_identifier(
                metadata.model@,
            );
            let fits = len + 1 <= config.max_bytes;
            &&& refusal is None <==> named && fits
            &&& !named ==> refusal == Some("telemetry identifier is invalid"@)
            &&& named && !fits ==> refusal == Some("telemetry record exceeds rotation limit"@)
        }),
{
}

/// A record goes to a new file exactly where the file that grows would exceed its bound with it, and
/// is otherwise just appended.
pub proof fn law_files_are_filled_before_they_are_rotated(
    config: TelemetryConfig,
    len: nat,
    current_len: u64,
)
    requires
        current_len + len + 1 <= u64::MAX,
    ensures
        rotates(config, len, current_len) <==> current_len + len + 1 > config.max_bytes,
        current_len + len + 1 <= config.max_bytes ==> append_steps(config, len, current_len)
            == seq![FileStep::Append],
        append_steps(config, len, current_len).last() is Append,
{
}

/// A rotation leaves no file that grows; each backup then holds what the one before it held, the
/// first what had grown, and files beyond the backups are not touched.
pub proof fn law_backups_move_up_by_one(
    files: Map<nat, Seq<u8>>,
    backup_count: usize,
    line: Seq<u8>,
    slot: nat,
)
    ensures
        ({
            let after = after_steps(files, rotation_steps(backup_count), line);
            &&& !after.contains_key(0)
            &&& 0 < slot <= backup_count ==> (after.contains_key(slot) <==> files.contains_key(
                (slot - 1) as nat,
            ))
            &&& 0 < slot <= backup_count && files.contains_key((slot - 1) as nat) ==> after[slot]
                == files[(slot - 1) as nat]
            &&& slot > backup_count ==> (after.contains_key(slot) <==> files.contains_key(slot))
            &&& slot > backup_count && files.contains_key(slot) ==> after[slot] == files[slot]
        }),
{
    law_rotation_shifts_backups(files, backup_count, line);
}

/// The file that grows and its backups have fixed names, the backups by their numbers.
pub proof fn law_files_have_their_names(slot: nat)
    ensures
        slot_name(0) == "telemetry.jsonl"@,
        slot > 0 ==> slot_name(slot) == "telemetry.jsonl."@ + text::decimal(slot),
{
}

} // verus!
