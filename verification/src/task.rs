//! The per-file pipeline of the batch run: deriving each destination name,
//! deciding when a file is skipped, when the destination is overwritten, and
//! when the original is deleted, and accumulating the run's exit status.

use vstd::prelude::*;
use crate::guard::{decision_spec, GuardDecision};
use crate::names::{codec_suffix, has_codec_suffix, stripped, add_suffix, ends_with_suffix,
    is_stdio, is_stdio_name, strip_suffix};

verus! {

/// The direction the run is configured for.
#[derive(Clone, Copy, Debug, PartialEq, Eq, Structural)]
pub enum Mode {
    Compress,
    Decompress,
}

/// The configuration of one run, fixed before any file is processed.
pub struct RunConfig {
    pub mode: Mode,
    /// Write to the standard output stream instead of a named file.
    pub write_to_stdout: bool,
    /// Overwrite existing destinations without prompting.
    pub force_overwrite: bool,
    /// Never delete the original input file.
    pub keep_original: bool,
    /// The input names, in order; `"-"` stands for the standard streams.
    pub inputs: Vec<String>,
}

/// Whether a real-file input is skipped as a soft failure: compression
/// refuses a name that already carries the codec suffix, decompression
/// refuses one that does not.
pub open spec fn soft_skip(mode: Mode, name: Seq<char>) -> bool {
    match mode {
        Mode::Compress => has_codec_suffix(name),
        Mode::Decompress => !has_codec_suffix(name),
    }
}

/// The destination name a real-file task produces: compression appends the
/// codec suffix, decompression strips it.
pub open spec fn dest_name_spec(mode: Mode, name: Seq<char>) -> Seq<char>
    recommends
        !soft_skip(mode, name),
{
    match mode {
        Mode::Compress => name + codec_suffix(),
        Mode::Decompress => stripped(name),
    }
}

/// Where a task's output goes.
#[derive(Debug, PartialEq, Eq)]
pub enum Dest {
    /// The standard output stream: nothing is created on disk.
    Stdout,
    /// A named file, created or truncated once authorized.
    File { name: String },
}

/// What the name-resolution step decides for one input.
#[derive(Debug, PartialEq, Eq)]
pub enum Resolution {
    /// The input is `"-"`: stream the standard input to the standard output,
    /// with no on-disk destination and no deletion.
    Stdio,
    /// The name does not fit the mode: warn, mark the run failed, move on.
    SoftSkip,
    /// Pipe the source through the codec into `dest`; consult the overwrite
    /// guard first exactly when `check_overwrite` is set, and delete the
    /// source afterwards exactly when `delete_source` is set.
    Pipe { dest: Dest, check_overwrite: bool, delete_source: bool },
}

/// Resolves one input name under the run's configuration: the stdio
/// pseudo-file passes through, a name unfit for the mode becomes a soft
/// skip, and any other name gets its destination, its overwrite-check
/// obligation, and its deletion decision.
pub fn resolve_task(config: &RunConfig, name: &str) -> (r: Resolution)
    ensures
        (r is Stdio) == is_stdio_name(name@),
        !is_stdio_name(name@) ==> ((r is SoftSkip) == soft_skip(config.mode, name@)),
        !is_stdio_name(name@) && !soft_skip(config.mode, name@) ==> (r matches Resolution::Pipe {
            dest,
            check_overwrite,
            delete_source,
        } && check_overwrite == !config.write_to_stdout && delete_source == (!config.keep_original
            && !config.write_to_stdout) && (config.write_to_stdout ==> dest is Stdout) && (
        !config.write_to_stdout ==> (dest matches Dest::File { name: d } && d@ == dest_name_spec(
            config.mode,
            name@,
        )))),
{
    if is_stdio(name) {
        return Resolution::Stdio;
    }
    let suffixed = ends_with_suffix(name);
    let skip = match config.mode {
        Mode::Compress => suffixed,
        Mode::Decompress => !suffixed,
    };
    if skip {
        return Resolution::SoftSkip;
    }
    let dest = if config.write_to_stdout {
        Dest::Stdout
    } else {
        match config.mode {
            Mode::Compress => Dest::File { name: add_suffix(name) },
            Mode::Decompress => Dest::File { name: strip_suffix(name) },
        }
    };
    Resolution::Pipe {
        dest,
        check_overwrite: !config.write_to_stdout,
        delete_source: !config.keep_original && !config.write_to_stdout,
    }
}

/// The tail of the warning printed when a file is skipped.
pub open spec fn warning_tail(mode: Mode) -> Seq<char> {
    match mode {
        Mode::Compress => " ends with suffix, skipping"@,
        Mode::Decompress => " ends with unknown suffix, skipping"@,
    }
}

/// The warning emitted when `name` is skipped: the name followed by the
/// mode's explanation.
pub fn skip_warning(mode: Mode, name: &str) -> (r: String)
    ensures
        r@ == name@ + warning_tail(mode),
{
    let s = String::from_str(name);
    match mode {
        Mode::Compress => s.concat(" ends with suffix, skipping"),
        Mode::Decompress => s.concat(" ends with unknown suffix, skipping"),
    }
}

/// The input list a run actually processes: an empty command line means
/// "read the standard input", that is, the single pseudo-file `"-"`.
pub fn effective_inputs(files: Vec<String>) -> (r: Vec<String>)
    ensures
        files@.len() == 0 ==> r@.len() == 1 && is_stdio_name(r@[0]@),
        files@.len() > 0 ==> r@ == files@,
{
    if files.len() == 0 {
        let mut v: Vec<String> = Vec::new();
        let dash = String::from_str("-");
        proof {
            reveal_strlit("-");
            assert(dash@ =~= seq!['-']);
        }
        v.push(dash);
        v
    } else {
        files
    }
}

/// The process exit status chosen from the run's failure accumulator.
pub open spec fn exit_code_spec(any_failure: bool) -> int {
    if any_failure {
        1
    } else {
        0
    }
}

/// The run-wide failure accumulator, read once at the end to choose the
/// process exit code.
pub struct RunResult {
    /// Whether any input was skipped as a soft failure.
    pub any_failure: bool,
}

impl RunResult {
    /// A fresh run: nothing has failed yet.
    pub fn new() -> (r: RunResult)
        ensures
            !r.any_failure,
    {
        RunResult { any_failure: false }
    }

    /// Records that an input was skipped as a soft failure.
    pub fn record_soft_skip(&mut self)
        ensures
            final (self).any_failure,
    {
        self.any_failure = true;
    }

    /// The exit code the process reports: 1 after any soft failure, else 0.
    pub fn exit_code(&self) -> (r: i32)
        ensures
            r as int == exit_code_spec(self.any_failure),
    {
        if self.any_failure {
            1
        } else {
            0
        }
    }
}

/// The on-disk side effects of one task, as the specification sees them:
/// which destination file is written, whether a pre-existing destination is
/// removed first, whether the source file is deleted, and whether the task
/// counts as a soft failure.
pub struct TaskEffects {
    pub writes_dest_file: Option<Seq<char>>,
    pub removes_dest_first: bool,
    pub deletes_source: bool,
    pub soft_failure: bool,
}

/// No effect on the file system at all.
pub open spec fn no_disk_effects(e: TaskEffects) -> bool {
    e.writes_dest_file is None && !e.removes_dest_first && !e.deletes_source
}

/// The complete per-task state machine: what one input causes on disk,
/// given the configuration, whether the derived destination already exists,
/// and the operator's answer should the guard ask.
pub open spec fn task_effects(
    config: RunConfig,
    name: Seq<char>,
    dest_exists: bool,
    answer: Option<Seq<char>>,
) -> TaskEffects {
    if is_stdio_name(name) {
        TaskEffects {
            writes_dest_file: None,
            removes_dest_first: false,
            deletes_source: false,
            soft_failure: false,
        }
    } else if soft_skip(config.mode, name) {
        TaskEffects {
            writes_dest_file: None,
            removes_dest_first: false,
            deletes_source: false,
            soft_failure: true,
        }
    } else if config.write_to_stdout {
        TaskEffects {
            writes_dest_file: None,
            removes_dest_first: false,
            deletes_source: false,
            soft_failure: false,
        }
    } else {
        match decision_spec(config.force_overwrite, dest_exists, answer) {
            GuardDecision::Proceed { remove_existing } => TaskEffects {
                writes_dest_file: Some(dest_name_spec(config.mode, name)),
                removes_dest_first: remove_existing,
                deletes_source: !config.keep_original,
                soft_failure: false,
            },
            GuardDecision::Decline => TaskEffects {
                writes_dest_file: None,
                removes_dest_first: false,
                deletes_source: false,
                soft_failure: false,
            },
        }
    }
}

/// Round trip at the level of names: the destination that compression
/// derives for a name is exactly a name that decompression accepts, and
/// decompression derives the original name from it again.
pub proof fn lemma_dest_name_round_trip(name: Seq<char>)
    ensures
        !soft_skip(Mode::Decompress, dest_name_spec(Mode::Compress, name)),
        dest_name_spec(Mode::Decompress, dest_name_spec(Mode::Compress, name)) == name,
{
    crate::names::lemma_suffix_round_trip(name);
}

/// An input that already carries the codec suffix is skipped by compress
/// mode as a soft failure: nothing is written or deleted, and the run's
/// exit code becomes 1.
pub proof fn lemma_compress_skips_suffixed(
    config: RunConfig,
    name: Seq<char>,
    dest_exists: bool,
    answer: Option<Seq<char>>,
)
    requires
        config.mode == Mode::Compress,
        !is_stdio_name(name),
        has_codec_suffix(name),
    ensures
        task_effects(config, name, dest_exists, answer).soft_failure,
        no_disk_effects(task_effects(config, name, dest_exists, answer)),
        exit_code_spec(true) == 1,
{
}

/// An input without the codec suffix is skipped by decompress mode as a
/// soft failure: nothing is written or deleted, and the run's exit code
/// becomes 1.
pub proof fn lemma_decompress_skips_unsuffixed(
    config: RunConfig,
    name: Seq<char>,
    dest_exists: bool,
    answer: Option<Seq<char>>,
)
    requires
        config.mode == Mode::Decompress,
        !is_stdio_name(name),
        !has_codec_suffix(name),
    ensures
        task_effects(config, name, dest_exists, answer).soft_failure,
        no_disk_effects(task_effects(config, name, dest_exists, answer)),
        exit_code_spec(true) == 1,
{
}

/// When the destination exists, `force` is not set, and the operator does
/// not answer affirmatively (or no answer could be read), the task touches
/// nothing: the destination stays as it is and the source is not deleted.
pub proof fn lemma_declined_overwrite_preserves(
    config: RunConfig,
    name: Seq<char>,
    answer: Option<Seq<char>>,
)
    requires
        !config.force_overwrite,
        match answer {
            Some(a) => !crate::guard::affirmative(a),
            None => true,
        },
    ensures
        no_disk_effects(task_effects(config, name, true, answer)),
{
}

/// With `force` set, a real-file task that is not skipped writes its
/// destination without consulting the operator, removing a pre-existing
/// file there first.
pub proof fn lemma_force_replaces_destination(
    config: RunConfig,
    name: Seq<char>,
    dest_exists: bool,
    answer: Option<Seq<char>>,
)
    requires
        config.force_overwrite,
        !config.write_to_stdout,
        !is_stdio_name(name),
        !soft_skip(config.mode, name),
    ensures
        !crate::guard::needs_prompt_spec(config.force_overwrite, dest_exists),
        task_effects(config, name, dest_exists, answer).writes_dest_file == Some(
            dest_name_spec(config.mode, name),
        ),
        task_effects(config, name, dest_exists, answer).removes_dest_first == dest_exists,
{
}

/// With output routed to the standard output stream, no task creates a
/// destination file on disk, removes one, or deletes its source — whether
/// or not `keep` was asked for.
pub proof fn lemma_stdout_leaves_disk_alone(
    config: RunConfig,
    name: Seq<char>,
    dest_exists: bool,
    answer: Option<Seq<char>>,
)
    requires
        config.write_to_stdout,
    ensures
        no_disk_effects(task_effects(config, name, dest_exists, answer)),
{
}

} // verus!
