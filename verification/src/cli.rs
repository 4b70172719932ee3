//! Command-line options as plain data, and the selection of the run mode.
//!
//! Argument parsing itself happens in the unverified driver; the driver
//! hands over a `Cli` value with every field already within its
//! documented range.

use vstd::prelude::*;

verus! {

/// The mutually exclusive export/import switches.
///
/// Exactly one of the two is expected to be set; any other combination is
/// rejected by [`select_run_mode`].
pub struct ExclusiveOptions {
    pub export: Option<bool>,
    pub import: Option<bool>,
}

/// All command-line options, as plain values.
pub struct Cli {
    pub exclusive_options: ExclusiveOptions,
    pub config_file: String,
    pub source_schema: String,
    pub source_table: String,
    pub output_dir: Option<String>,
    pub input_dir: Option<String>,
    pub threads: u32,
    pub timeout_in_hours: u64,
}

/// The two operations the tool can run: export index statements to files,
/// or import previously exported statements into the target.
#[derive(PartialEq, Eq, Structural, Clone, Copy, Debug)]
pub enum RunMode {
    Export,
    Import,
}

/// Decides which operation to run from the exclusive switches.
///
/// Returns `None` when neither or both switches are set, making the
/// invalid combinations unrepresentable downstream.
pub fn select_run_mode(opts: &ExclusiveOptions) -> (r: Option<RunMode>)
    ensures
        (opts.export is Some && opts.import is None) ==> r == Some(RunMode::Export),
        (opts.export is None && opts.import is Some) ==> r == Some(RunMode::Import),
        !((opts.export is Some && opts.import is None) || (opts.export is None
            && opts.import is Some)) ==> r is None,
{
    match (&opts.export, &opts.import) {
        (Some(_), None) => Some(RunMode::Export),
        (None, Some(_)) => Some(RunMode::Import),
        _ => None,
    }
}

} // verus!
