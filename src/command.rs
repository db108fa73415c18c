//! The command line handed to the external transfer tool.
use vstd::prelude::*;

use crate::text::{decimal, to_decimal};

verus! {

/// Everything an upload needs to know before it starts.
pub struct TransferConfig {
    /// The local directory whose contents are uploaded.
    pub source: String,
    /// The folder on the remote under which the directory is placed.
    pub destination: String,
    /// How many files the tool transfers at once.
    pub parallel_transfers: u32,
    /// Size of each part of a multi-part upload, and the size from which a
    /// file is sent in parts (such as `256M`).
    pub chunk_size: String,
}

/// Name of the final component of `path`, when it has one that is a plain
/// name (not a root, not `..`).
pub uninterp spec fn file_name_of(path: Seq<char>) -> Option<Seq<char>>;

/// Relies on `std::path::Path::file_name`: the final component of the path,
/// if there is one; a path made from a `&str` yields it as text.
#[verifier::external_body]
fn path_file_name(path: &String) -> (r: Option<String>)
    ensures
        match r {
            Some(n) => file_name_of(path@) == Some(n@),
            None => file_name_of(path@) is None,
        },
{
    std::path::Path::new(path.as_str()).file_name().and_then(|n| n.to_str()).map(
        |n| n.to_string(),
    )
}

/// The remote that uploads go to.
pub open spec fn remote_label() -> Seq<char> {
    seq!['g', 'd', 'r', 'i', 'v', 'e']
}

/// The subfolder an upload of `source` lands in: the source's own name, or
/// `upload` where the path has none.
pub open spec fn folder_name(source: Seq<char>) -> Seq<char> {
    match file_name_of(source) {
        Some(n) => n,
        None => seq!['u', 'p', 'l', 'o', 'a', 'd'],
    }
}

/// `<remote>:<destination>/<folder>`.
pub open spec fn destination_of(destination: Seq<char>, folder: Seq<char>) -> Seq<char> {
    remote_label() + seq![':'] + destination + seq!['/'] + folder
}

/// The argument list: copy `source` to `dest` with the fixed tuning flags.
pub open spec fn transfer_args(
    source: Seq<char>,
    dest: Seq<char>,
    transfers: nat,
    chunk_size: Seq<char>,
) -> Seq<Seq<char>> {
    seq![
        "copy"@,
        source,
        dest,
        "--transfers"@,
        decimal(transfers),
        "--checkers"@,
        "16"@,
        "--buffer-size"@,
        "32M"@,
        "--drive-chunk-size"@,
        chunk_size,
        "--drive-upload-cutoff"@,
        chunk_size,
        "--fast-list"@,
        "--no-check-dest"@,
        "--no-update-modtime"@,
        "--drive-use-trash=false"@,
        "--low-level-retries"@,
        "10"@,
        "--retries"@,
        "5"@,
        "--stats"@,
        "2s"@,
        "--stats-one-line"@,
        "--log-level"@,
        "INFO"@,
        "--progress"@,
    ]
}

/// The text of each argument.
pub open spec fn arg_views(v: Seq<String>) -> Seq<Seq<char>> {
    v.map_values(|a: String| a@)
}

fn push_str_arg(args: &mut Vec<String>, a: &str)
    ensures
        arg_views(final(args)@) == arg_views(old(args)@).push(a@),
{
    args.push(String::from_str(a));
    assert(arg_views(args@) =~= arg_views(old(args)@).push(a@));
}

fn push_arg(args: &mut Vec<String>, a: String)
    ensures
        arg_views(final(args)@) == arg_views(old(args)@).push(a@),
{
    let ghost v = a@;
    args.push(a);
    assert(arg_views(args@) =~= arg_views(old(args)@).push(v));
}

/// Builds `<remote>:<destination>/<folder>`.
pub fn destination_arg(destination: &String, folder: &String) -> (r: String)
    ensures
        r@ == destination_of(destination@, folder@),
{
    let mut d = String::from_str("gdrive:");
    d.append(destination.as_str());
    d.append("/");
    d.append(folder.as_str());
    proof {
        reveal_strlit("gdrive:");
        reveal_strlit("/");
        assert(d@ =~= destination_of(destination@, folder@));
    }
    d
}

/// Builds the argument list for an upload of `config` into the subfolder
/// `folder` of the destination.
pub fn build_args(config: &TransferConfig, folder: &String) -> (r: Vec<String>)
    ensures
        arg_views(r@) == transfer_args(
            config.source@,
            destination_of(config.destination@, folder@),
            config.parallel_transfers as nat,
            config.chunk_size@,
        ),
{
    let mut args: Vec<String> = Vec::new();
    assert(arg_views(args@) =~= Seq::empty());
    push_str_arg(&mut args, "copy");
    push_arg(&mut args, config.source.clone());
    push_arg(&mut args, destination_arg(&config.destination, folder));
    push_str_arg(&mut args, "--transfers");
    push_arg(&mut args, to_decimal(config.parallel_transfers as u64));
    push_str_arg(&mut args, "--checkers");
    push_str_arg(&mut args, "16");
    push_str_arg(&mut args, "--buffer-size");
    push_str_arg(&mut args, "32M");
    push_str_arg(&mut args, "--drive-chunk-size");
    push_arg(&mut args, config.chunk_size.clone());
    push_str_arg(&mut args, "--drive-upload-cutoff");
    push_arg(&mut args, config.chunk_size.clone());
    push_str_arg(&mut args, "--fast-list");
    push_str_arg(&mut args, "--no-check-dest");
    push_str_arg(&mut args, "--no-update-modtime");
    push_str_arg(&mut args, "--drive-use-trash=false");
    push_str_arg(&mut args, "--low-level-retries");
    push_str_arg(&mut args, "10");
    push_str_arg(&mut args, "--retries");
    push_str_arg(&mut args, "5");
    push_str_arg(&mut args, "--stats");
    push_str_arg(&mut args, "2s");
    push_str_arg(&mut args, "--stats-one-line");
    push_str_arg(&mut args, "--log-level");
    push_str_arg(&mut args, "INFO");
    push_str_arg(&mut args, "--progress");
    assert(arg_views(args@) =~= transfer_args(
        config.source@,
        destination_of(config.destination@, folder@),
        config.parallel_transfers as nat,
        config.chunk_size@,
    ));
    args
}

impl TransferConfig {
    /// The subfolder this upload lands in.
    pub fn folder_name(&self) -> (r: String)
        ensures
            r@ == folder_name(self.source@),
    {
        match path_file_name(&self.source) {
            Some(n) => n,
            None => {
                let u = String::from_str("upload");
                proof {
                    reveal_strlit("upload");
                }
                u
            },
        }
    }

    /// The destination argument, `<remote>:<destination>/<folder>`.
    pub fn destination_arg(&self) -> (r: String)
        ensures
            r@ == destination_of(self.destination@, folder_name(self.source@)),
    {
        destination_arg(&self.destination, &self.folder_name())
    }

    /// The argument list for uploading this configuration.
    pub fn command_args(&self) -> (r: Vec<String>)
        ensures
            arg_views(r@) == transfer_args(
                self.source@,
                destination_of(self.destination@, folder_name(self.source@)),
                self.parallel_transfers as nat,
                self.chunk_size@,
            ),
    {
        build_args(self, &self.folder_name())
    }
}

/// Whether the tool's list of configured remotes (one `<name>:` per entry)
/// holds the remote that uploads go to.
pub fn has_upload_remote(remotes: &Vec<String>) -> (r: bool)
    ensures
        r == exists|i: int| 0 <= i < remotes@.len() && #[trigger] remotes@[i]@ == remote_label()
            + seq![':'],
{
    let wanted = String::from_str("gdrive:");
    proof {
        reveal_strlit("gdrive:");
        assert(wanted@ =~= remote_label() + seq![':']);
    }
    let mut i: usize = 0;
    while i < remotes.len()
        invariant
            i <= remotes@.len(),
            wanted@ == remote_label() + seq![':'],
            forall|j: int| 0 <= j < i ==> #[trigger] remotes@[j]@ != remote_label() + seq![':'],
        decreases remotes@.len() - i,
    {
        if remotes[i] == wanted {
            return true;
        }
        i = i + 1;
    }
    false
}

/// The command line is a function of the configuration: two configurations
/// with the same source, destination, parallelism and chunk size give the
/// same arguments, and the destination argument (the third) always ends with
/// the subfolder named after the source, which is the source's own final
/// component whenever it has one.
pub proof fn lemma_command_deterministic(a: &TransferConfig, b: &TransferConfig)
    requires
        a.source@ == b.source@,
        a.destination@ == b.destination@,
        a.parallel_transfers == b.parallel_transfers,
        a.chunk_size@ == b.chunk_size@,
    ensures
        ({
            let args = transfer_args(
                a.source@,
                destination_of(a.destination@, folder_name(a.source@)),
                a.parallel_transfers as nat,
                a.chunk_size@,
            );
            let dest = args[2];
            let folder = folder_name(a.source@);
            &&& args == transfer_args(
                b.source@,
                destination_of(b.destination@, folder_name(b.source@)),
                b.parallel_transfers as nat,
                b.chunk_size@,
            )
            &&& dest.len() >= folder.len()
            &&& dest.subrange(dest.len() - folder.len(), dest.len() as int) == folder
            &&& (file_name_of(a.source@) matches Some(n) ==> folder == n)
        }),
{
    let folder = folder_name(a.source@);
    let dest = destination_of(a.destination@, folder);
    assert(dest.subrange(dest.len() - folder.len(), dest.len() as int) =~= folder);
}

} // verus!
