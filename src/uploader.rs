//! The batch uploader: fixed settings, a parallel count, one run of the
//! transfer tool, and the decisions of its command line front end.
use vstd::prelude::*;

use crate::command::{arg_views, destination_of, folder_name, transfer_args, TransferConfig};
use crate::status::{outcome_message, outcome_succeeded, report_outcome, ProcessOutcome};
use crate::walker::{all_entries, count_parallel, file_count, EntryKind};

verus! {

/// Uploads one directory with settings tuned for very many files.
pub struct BulkUploader {
    pub config: TransferConfig,
}

/// The batch settings: into `uploads`, 16 transfers at once, 256 MiB chunks.
pub open spec fn bulk_config_ok(c: &TransferConfig, source: Seq<char>) -> bool {
    &&& c.source@ == source
    &&& c.destination@ == "uploads"@
    &&& c.parallel_transfers == 16
    &&& c.chunk_size@ == "256M"@
}

impl BulkUploader {
    /// An uploader for `source` with the batch settings.
    pub fn new(source: String) -> (r: BulkUploader)
        ensures
            bulk_config_ok(&r.config, source@),
    {
        BulkUploader {
            config: TransferConfig {
                source,
                destination: String::from_str("uploads"),
                parallel_transfers: 16,
                chunk_size: String::from_str("256M"),
            },
        }
    }

    /// Counts the regular files of the source directory from the entries that
    /// the walk's workers took, batch by batch.
    pub fn count_files_parallel(&self, batches: &Vec<Vec<EntryKind>>) -> (r: u64)
        requires
            all_entries(batches@).len() <= u64::MAX,
        ensures
            r == file_count(all_entries(batches@)),
    {
        count_parallel(batches)
    }

    /// Where the upload lands: `<remote>:uploads/<folder>`.
    pub fn destination(&self) -> (r: String)
        ensures
            r@ == destination_of(self.config.destination@, folder_name(self.config.source@)),
    {
        self.config.destination_arg()
    }

    /// The arguments for the transfer tool.
    pub fn command_args(&self) -> (r: Vec<String>)
        ensures
            arg_views(r@) == transfer_args(
                self.config.source@,
                destination_of(self.config.destination@, folder_name(self.config.source@)),
                self.config.parallel_transfers as nat,
                self.config.chunk_size@,
            ),
    {
        self.config.command_args()
    }

    /// The result of an upload of `total_files` files whose run ended as
    /// `outcome`: `Ok` with the success message exactly when the tool exited
    /// with success, else `Err` with the failure message.
    pub fn upload_report(&self, total_files: u64, outcome: &ProcessOutcome) -> (r: Result<
        String,
        String,
    >)
        ensures
            r is Ok == outcome_succeeded(*outcome),
            match r {
                Ok(m) => m@ == outcome_message(
                    total_files as nat,
                    destination_of(self.config.destination@, folder_name(self.config.source@)),
                    *outcome,
                ),
                Err(m) => m@ == outcome_message(
                    total_files as nat,
                    destination_of(self.config.destination@, folder_name(self.config.source@)),
                    *outcome,
                ),
            },
    {
        let dest = self.destination();
        report_outcome(total_files, &dest, outcome)
    }
}

/// What the command line front end does with its arguments.
pub enum CliPlan {
    /// No directory was given: print the usage line and exit with 1.
    Usage,
    /// The path is not an existing directory: report it and exit with 1,
    /// starting nothing.
    InvalidDirectory(String),
    /// Upload the directory.
    Upload(BulkUploader),
}

/// Decides what to do with the command line `args` (program name first);
/// `source_is_dir` says whether the second argument names an existing
/// directory.
pub fn plan_cli(args: &Vec<String>, source_is_dir: bool) -> (r: CliPlan)
    ensures
        args@.len() < 2 ==> r is Usage,
        args@.len() >= 2 && !source_is_dir ==> (r matches CliPlan::InvalidDirectory(p) && p@
            == args@[1]@),
        args@.len() >= 2 && source_is_dir ==> (r matches CliPlan::Upload(u) && bulk_config_ok(
            &u.config,
            args@[1]@,
        )),
{
    if args.len() < 2 {
        CliPlan::Usage
    } else if !source_is_dir {
        CliPlan::InvalidDirectory(args[1].clone())
    } else {
        CliPlan::Upload(BulkUploader::new(args[1].clone()))
    }
}

impl CliPlan {
    /// The exit code to stop with before any upload, if the plan stops early.
    pub fn early_exit_code(&self) -> (r: Option<i32>)
        ensures
            r == (if self is Upload {
                None
            } else {
                Some(1i32)
            }),
    {
        match self {
            CliPlan::Upload(_) => None,
            _ => Some(1),
        }
    }
}

/// The exit code after an upload: 0 on success, 1 on failure.
pub fn exit_code(report: &Result<String, String>) -> (r: i32)
    ensures
        r == (if report is Ok {
            0i32
        } else {
            1i32
        }),
{
    match report {
        Ok(_) => 0,
        Err(_) => 1,
    }
}

} // verus!
