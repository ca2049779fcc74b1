//! A whole run: from the flags of a command line and the entries of a
//! container to the files to write.

use vstd::prelude::*;
use crate::codec::{container_entries, container_reading, read_container};
use crate::config::{resolve_format, resolved_format, text_view};
use crate::format::{FormatError, FormatFault, SupportedImages};
use crate::output::{get_output_path, output_path};
use crate::pipeline::{convert, converts_to, ConversionError};
use crate::selection::{
    get_indices_to_extract, lemma_resolved_indices_in_bounds, resolution, Args,
    Selection, SelectionError,
};

verus! {

/// A converted entry: the path of its file and the bytes of the file.
#[derive(Debug)]
pub struct OutputFile {
    /// Where the file is to be written.
    pub path: std::path::PathBuf,
    /// What the file is to hold.
    pub bytes: Vec<u8>,
}

/// Why a run stopped.
#[derive(Debug)]
pub enum RunError {
    /// The bytes of the container are no ICO file.
    Container(std::io::Error),
    /// The request selects nothing.
    Selection(SelectionError),
    /// No output format was settled.
    Format(FormatError),
    /// The entry at `index` was not converted.
    Conversion { index: usize, error: ConversionError },
}

/// What a run is to do, once its inputs are found valid: the format of every
/// output and the indices of the entries to convert, in order.
#[derive(Debug)]
pub struct Plan {
    /// The format of every output.
    pub format: SupportedImages,
    /// The indices of the entries to convert, in order.
    pub indices: Vec<usize>,
}

/// What a run did: the files of the entries that were converted, in order,
/// and the reason why it stopped early, if it did. The files listed are to
/// be written even where the run failed after them.
#[derive(Debug)]
pub struct Report {
    /// The files of the entries that were converted, in order.
    pub written: Vec<OutputFile>,
    /// Why the run stopped before it had converted every entry, if it did.
    pub failure: Option<RunError>,
}

/// The mathematical content of a [`RunError`].
pub enum RunFault {
    Container(std::io::Error),
    Selection(SelectionError),
    Format(FormatFault),
    Conversion { index: usize, error: ConversionError },
}

impl View for RunError {
    type V = RunFault;

    open spec fn view(&self) -> RunFault {
        match self {
            RunError::Container(e) => RunFault::Container(*e),
            RunError::Selection(e) => RunFault::Selection(*e),
            RunError::Format(e) => RunFault::Format(e@),
            RunError::Conversion { index, error } => RunFault::Conversion {
                index: *index,
                error: *error,
            },
        }
    }
}

/// What a run is to do for a container of `total` entries. An empty
/// container is refused first, then the format is settled, then the selection
/// is resolved; the first of these to fail decides.
pub open spec fn planned(
    total: usize,
    selection: Selection,
    cli: SupportedImages,
    config: Option<Seq<char>>,
) -> Result<(SupportedImages, Seq<usize>), RunFault> {
    if total == 0 {
        Err(RunFault::Selection(SelectionError::EmptyContainer))
    } else {
        match resolved_format(cli, config) {
            Err(e) => Err(RunFault::Format(e)),
            Ok(format) => match resolution(selection, total) {
                Err(e) => Err(RunFault::Selection(e)),
                Ok(indices) => Ok((format, indices)),
            },
        }
    }
}

/// The outcome of planning, by its content.
pub open spec fn plan_outcome(r: Result<Plan, RunError>) -> Result<
    (SupportedImages, Seq<usize>),
    RunFault,
> {
    match r {
        Ok(plan) => Ok((plan.format, plan.indices@)),
        Err(e) => Err(e@),
    }
}

/// Where the outputs of a run go: the output directory, and the path of
/// the container, whose file stem names them.
pub struct Destination<'a> {
    /// The directory that the outputs are written into.
    pub output_dir: &'a std::path::Path,
    /// The path of the container file.
    pub input_path: &'a std::path::Path,
}

/// Whether `file` is the output for the entry at `index`: it has the output
/// path of that index and holds a conversion of that entry.
pub open spec fn is_output_of(
    file: OutputFile,
    entries: Seq<ico::IconDirEntry>,
    index: usize,
    destination: Destination,
    format: SupportedImages,
) -> bool {
    &&& file.path == output_path(destination.output_dir, destination.input_path, index, format)
    &&& converts_to(entries[index as int], format, Ok(file.bytes@))
}

/// Whether `report` is what comes of converting the entries at `indices`
/// one after the other: one file for each index in turn, up to the first entry
/// that fails to convert, whose index and error are then reported.
pub open spec fn carries_out(
    report: Report,
    entries: Seq<ico::IconDirEntry>,
    indices: Seq<usize>,
    destination: Destination,
    format: SupportedImages,
) -> bool {
    &&& report.written@.len() <= indices.len()
    &&& forall|k: int|
        0 <= k < report.written@.len() ==> is_output_of(
            #[trigger] report.written@[k],
            entries,
            indices[k],
            destination,
            format,
        )
    &&& match report.failure {
        None => report.written@.len() == indices.len(),
        Some(RunError::Conversion { index, error }) => {
            &&& report.written@.len() < indices.len()
            &&& index == indices[report.written@.len() as int]
            &&& converts_to(entries[index as int], format, Err(error))
        },
        Some(_) => false,
    }
}

/// Settles what a run is to do for a container of `total` entries, before
/// any entry is decoded.
pub fn plan(total: usize, args: &Args, format: SupportedImages, config: Option<&str>) -> (r: Result<
    Plan,
    RunError,
>)
    ensures
        plan_outcome(r) == planned(total, args.selection(), format, text_view(config)),
{
    if total == 0 {
        return Err(RunError::Selection(SelectionError::EmptyContainer));
    }
    let format = match resolve_format(format, config) {
        Err(e) => {
            return Err(RunError::Format(e));
        },
        Ok(format) => format,
    };
    match get_indices_to_extract(args, total) {
        Err(e) => Err(RunError::Selection(e)),
        Ok(indices) => Ok(Plan { format, indices }),
    }
}

/// Converts the entries at `indices` one after the other and stops at the
/// first that fails.
fn convert_all(
    entries: &[ico::IconDirEntry],
    indices: &Vec<usize>,
    destination: &Destination,
    format: SupportedImages,
) -> (report: Report)
    requires
        forall|k: int| 0 <= k < indices@.len() ==> indices@[k] < entries@.len(),
    ensures
        carries_out(report, entries@, indices@, *destination, format),
{
    let mut written: Vec<OutputFile> = Vec::new();
    let mut k: usize = 0;
    while k < indices.len()
        invariant
            k <= indices@.len(),
            written@.len() == k,
            forall|j: int| 0 <= j < indices@.len() ==> indices@[j] < entries@.len(),
            forall|j: int|
                0 <= j < k ==> is_output_of(
                    #[trigger] written@[j],
                    entries@,
                    indices@[j],
                    *destination,
                    format,
                ),
        decreases indices@.len() - k,
    {
        let index = indices[k];
        match convert(&entries[index], format) {
            Err(error) => {
                return Report { written, failure: Some(RunError::Conversion { index, error }) };
            },
            Ok(bytes) => {
                let path = get_output_path(
                    destination.output_dir,
                    destination.input_path,
                    index,
                    format,
                );
                written.push(OutputFile { path, bytes });
            },
        }
        k += 1;
    }
    Report { written, failure: None }
}

/// Whether `report` is what a run makes of the entries of a container: the
/// failure of its plan and no file, or the plan carried out.
pub open spec fn runs_on(
    report: Report,
    entries: Seq<ico::IconDirEntry>,
    selection: Selection,
    cli: SupportedImages,
    config: Option<Seq<char>>,
    destination: Destination,
) -> bool {
    match planned(entries.len() as usize, selection, cli, config) {
        Err(fault) => {
            &&& report.written@.len() == 0
            &&& report.failure matches Some(e)
            &&& e@ == fault
        },
        Ok((target, indices)) => carries_out(report, entries, indices, destination, target),
    }
}

/// Whether `report` is what a run makes of the bytes of a container file:
/// the failure to read them and no file, or the run on the entries read.
pub open spec fn runs(
    report: Report,
    container: Seq<u8>,
    selection: Selection,
    cli: SupportedImages,
    config: Option<Seq<char>>,
    destination: Destination,
) -> bool {
    match container_reading(container) {
        Err(error) => {
            &&& report.written@.len() == 0
            &&& report.failure matches Some(e)
            &&& e@ == RunFault::Container(error)
        },
        Ok(read) => runs_on(report, container_entries(read), selection, cli, config, destination),
    }
}

/// Runs a conversion on the entries of a container: settles the format and
/// the entries to convert, and converts them. Nothing is converted where the
/// inputs are found invalid.
pub fn run_entries(
    entries: &[ico::IconDirEntry],
    args: &Args,
    format: SupportedImages,
    config: Option<&str>,
    destination: &Destination,
) -> (report: Report)
    ensures
        runs_on(report, entries@, args.selection(), format, text_view(config), *destination),
{
    match plan(entries.len(), args, format, config) {
        Err(e) => Report { written: Vec::new(), failure: Some(e) },
        Ok(plan) => {
            assert forall|k: int| 0 <= k < plan.indices@.len() implies plan.indices@[k]
                < entries@.len() by {
                lemma_resolved_indices_in_bounds(args.selection(), entries@.len() as usize, k);
            }
            convert_all(entries, &plan.indices, destination, plan.format)
        },
    }
}

/// Runs a conversion on the bytes of a container file: reads the container,
/// then runs on its entries.
pub fn run(
    container: &[u8],
    args: &Args,
    format: SupportedImages,
    config: Option<&str>,
    destination: &Destination,
) -> (report: Report)
    ensures
        runs(report, container@, args.selection(), format, text_view(config), *destination),
{
    match read_container(container) {
        Err(e) => Report { written: Vec::new(), failure: Some(RunError::Container(e)) },
        Ok(read) => run_entries(read.entries(), args, format, config, destination),
    }
}

/// A container without entries gives a run nothing to do, whatever is
/// asked of it and whatever the configuration says: the run fails with
/// `EmptyContainer` and writes no file.
pub proof fn lemma_empty_container_stops_run(
    report: Report,
    selection: Selection,
    cli: SupportedImages,
    config: Option<Seq<char>>,
    destination: Destination,
)
    requires
        runs_on(report, Seq::empty(), selection, cli, config, destination),
    ensures
        report.written@.len() == 0,
        report.failure matches Some(RunError::Selection(SelectionError::EmptyContainer)),
{
}

/// Where a configuration is supplied, the run is the same whatever format
/// the command line names.
pub proof fn lemma_configuration_decides_format(
    total: usize,
    selection: Selection,
    first: SupportedImages,
    second: SupportedImages,
    config: Seq<char>,
)
    ensures
        planned(total, selection, first, Some(config)) == planned(
            total,
            selection,
            second,
            Some(config),
        ),
{
}

/// A run that does not fail writes one file for each index of its plan, in
/// the order of the plan.
pub proof fn lemma_complete_run_writes_all(
    report: Report,
    entries: Seq<ico::IconDirEntry>,
    indices: Seq<usize>,
    destination: Destination,
    format: SupportedImages,
)
    requires
        carries_out(report, entries, indices, destination, format),
        report.failure is None,
    ensures
        report.written@.len() == indices.len(),
        forall|k: int|
            0 <= k < indices.len() ==> (#[trigger] report.written@[k]).path == output_path(
                destination.output_dir,
                destination.input_path,
                indices[k],
                format,
            ),
{
}

} // verus!
