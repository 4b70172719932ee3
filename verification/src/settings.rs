//! Run settings derived from the command line.

use crate::cli::Cli;
use vstd::prelude::*;

verus! {

/// The operational parameters of one run, copied out of the command line.
///
/// `threads` is the worker count (valid range 1..=10) and
/// `timeout_in_hours` the pool acquisition timeout (valid range 1..=72);
/// both ranges are enforced by the argument parser in the driver and
/// restated here by [`Settings::wf`].
pub struct Settings {
    pub source_schema_name: String,
    pub source_table_name: String,
    pub output_dir: Option<String>,
    pub input_dir: Option<String>,
    pub threads: u32,
    pub timeout_in_hours: u64,
}

impl Settings {
    /// Validity of the numeric parameters: worker count 1..=10 and
    /// acquisition timeout 1..=72 hours.
    pub open spec fn wf(self) -> bool {
        &&& 1 <= self.threads <= 10
        &&& 1 <= self.timeout_in_hours <= 72
    }

    /// Copies every relevant option out of the parsed command line.
    pub fn from_args(cli: &Cli) -> (s: Self)
        ensures
            s.source_schema_name@ == cli.source_schema@,
            s.source_table_name@ == cli.source_table@,
            s.output_dir is Some <==> cli.output_dir is Some,
            cli.output_dir matches Some(d) ==> (s.output_dir matches Some(e) && e@ == d@),
            s.input_dir is Some <==> cli.input_dir is Some,
            cli.input_dir matches Some(d) ==> (s.input_dir matches Some(e) && e@ == d@),
            s.threads == cli.threads,
            s.timeout_in_hours == cli.timeout_in_hours,
            s.wf() <==> (1 <= cli.threads <= 10 && 1 <= cli.timeout_in_hours <= 72),
    {
        let source_schema_name = cli.source_schema.clone();
        let source_table_name = cli.source_table.clone();
        let output_dir = match &cli.output_dir {
            Some(d) => Some(d.clone()),
            None => None,
        };
        let input_dir = match &cli.input_dir {
            Some(d) => Some(d.clone()),
            None => None,
        };
        let threads = cli.threads;
        let timeout_in_hours = cli.timeout_in_hours;
        Settings {
            source_schema_name,
            source_table_name,
            output_dir,
            input_dir,
            threads,
            timeout_in_hours,
        }
    }

    pub fn get_source_schema_name_as_ref(&self) -> (r: &String)
        ensures
            r == self.source_schema_name,
    {
        &self.source_schema_name
    }

    pub fn get_source_table_name_as_ref(&self) -> (r: &String)
        ensures
            r == self.source_table_name,
    {
        &self.source_table_name
    }

    pub fn get_output_dir_as_ref(&self) -> (r: &Option<String>)
        ensures
            r == self.output_dir,
    {
        &self.output_dir
    }

    pub fn get_input_dir_as_ref(&self) -> (r: &Option<String>)
        ensures
            r == self.input_dir,
    {
        &self.input_dir
    }

    pub fn get_threads(&self) -> (r: u32)
        ensures
            r == self.threads,
    {
        self.threads
    }

    pub fn get_timeout(&self) -> (r: u64)
        ensures
            r == self.timeout_in_hours,
    {
        self.timeout_in_hours
    }
}

} // verus!
