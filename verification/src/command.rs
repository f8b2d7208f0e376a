//! The operations of the client and the parameters of each.

use vstd::prelude::*;
use crate::blob_id::BlobId;
use crate::error::CliError;
use crate::units::{human_bytes, format_bytes};

verus! {

/// Nanoseconds in one second.
pub const NANOS_PER_SEC: u32 = 1_000_000_000;

/// For how long a status request may stay unanswered.
#[derive(Clone, Copy, Debug, PartialEq, Eq, Structural)]
pub struct Timeout {
    pub secs: u64,
    pub nanos: u32,
}

/// The URL of the chain's RPC node, where the wallet's is not to be used.
#[derive(Clone, Debug, PartialEq, Eq)]
pub struct RpcArg {
    pub rpc_url: Option<String>,
}

/// Where a service listens and which blobs it refuses.
#[derive(Clone, Debug, PartialEq, Eq)]
pub struct DaemonArgs {
    /// The socket address to bind, as text.
    pub bind_address: String,
    /// Path of the file that lists the blocked blob identifiers.
    pub blocklist: Option<String>,
}

/// The parameters of a service that takes blobs in.
#[derive(Clone, Debug, PartialEq, Eq)]
pub struct PublisherArgs {
    pub daemon_args: DaemonArgs,
    /// The largest body of a PUT request, in KiB.
    pub max_body_size_kib: usize,
}

/// Which blob is meant: the one in a file, or the one with an identifier.
#[derive(Clone, Debug, PartialEq, Eq)]
pub struct FileOrBlobId {
    pub file: Option<String>,
    pub blob_id: Option<BlobId>,
}

/// The operations of the client.
#[derive(Clone, Debug, PartialEq, Eq)]
pub enum Commands {
    /// Store a new blob.
    Store { file: String, epochs: u64, force: bool },
    /// Read a blob, given its identifier.
    Read { blob_id: BlobId, out: Option<String>, rpc_arg: RpcArg },
    /// Get the status of a blob.
    BlobStatus { file_or_blob_id: FileOrBlobId, timeout: Timeout, rpc_arg: RpcArg },
    /// Run a publisher.
    Publisher { args: PublisherArgs },
    /// Run an aggregator.
    Aggregator { rpc_arg: RpcArg, daemon_args: DaemonArgs },
    /// Run a publisher and an aggregator in one.
    Daemon { args: PublisherArgs },
    /// Print information about the storage system.
    Info { rpc_arg: RpcArg, dev: bool },
    /// Take the whole invocation from a JSON document: the one given here,
    /// or the one on standard input.
    Json { command_string: Option<String> },
    /// Compute the identifier of the blob in a file.
    BlobId { file: String, n_shards: Option<u16>, rpc_arg: RpcArg },
}

/// One invocation of the client.
#[derive(Clone, Debug, PartialEq, Eq)]
pub struct App {
    /// Path of the client's configuration.
    pub config: Option<String>,
    /// Path of the wallet's configuration.
    pub wallet: Option<String>,
    /// The gas budget for transactions.
    pub gas_budget: u64,
    /// Whether results are written as JSON.
    pub json: bool,
    pub command: Commands,
}

/// The characters of a text that may be absent.
pub open spec fn opt_text(text: Option<String>) -> Option<Seq<char>> {
    match text {
        Some(t) => Some(t@),
        None => None,
    }
}

/// The content of a [`DaemonArgs`].
pub struct DaemonArgsView {
    pub bind_address: Seq<char>,
    pub blocklist: Option<Seq<char>>,
}

/// The content of a [`PublisherArgs`].
pub struct PublisherArgsView {
    pub daemon_args: DaemonArgsView,
    pub max_body_size_kib: usize,
}

/// The content of a [`FileOrBlobId`].
pub struct FileOrBlobIdView {
    pub file: Option<Seq<char>>,
    pub blob_id: Option<BlobId>,
}

/// The content of a [`Commands`].
pub enum CommandsView {
    Store { file: Seq<char>, epochs: u64, force: bool },
    Read { blob_id: BlobId, out: Option<Seq<char>>, rpc_url: Option<Seq<char>> },
    BlobStatus { file_or_blob_id: FileOrBlobIdView, timeout: Timeout, rpc_url: Option<Seq<char>> },
    Publisher { args: PublisherArgsView },
    Aggregator { rpc_url: Option<Seq<char>>, daemon_args: DaemonArgsView },
    Daemon { args: PublisherArgsView },
    Info { rpc_url: Option<Seq<char>>, dev: bool },
    Json { command_string: Option<Seq<char>> },
    BlobId { file: Seq<char>, n_shards: Option<u16>, rpc_url: Option<Seq<char>> },
}

/// The content of an [`App`].
pub struct AppView {
    pub config: Option<Seq<char>>,
    pub wallet: Option<Seq<char>>,
    pub gas_budget: u64,
    pub json: bool,
    pub command: CommandsView,
}

impl View for RpcArg {
    type V = Option<Seq<char>>;

    open spec fn view(&self) -> Option<Seq<char>> {
        opt_text(self.rpc_url)
    }
}

impl View for DaemonArgs {
    type V = DaemonArgsView;

    open spec fn view(&self) -> DaemonArgsView {
        DaemonArgsView { bind_address: self.bind_address@, blocklist: opt_text(self.blocklist) }
    }
}

impl View for PublisherArgs {
    type V = PublisherArgsView;

    open spec fn view(&self) -> PublisherArgsView {
        PublisherArgsView {
            daemon_args: self.daemon_args@,
            max_body_size_kib: self.max_body_size_kib,
        }
    }
}

impl View for FileOrBlobId {
    type V = FileOrBlobIdView;

    open spec fn view(&self) -> FileOrBlobIdView {
        FileOrBlobIdView { file: opt_text(self.file), blob_id: self.blob_id }
    }
}

impl View for Commands {
    type V = CommandsView;

    open spec fn view(&self) -> CommandsView {
        match self {
            Commands::Store { file, epochs, force } => CommandsView::Store {
                file: file@,
                epochs: *epochs,
                force: *force,
            },
            Commands::Read { blob_id, out, rpc_arg } => CommandsView::Read {
                blob_id: *blob_id,
                out: opt_text(*out),
                rpc_url: rpc_arg@,
            },
            Commands::BlobStatus { file_or_blob_id, timeout, rpc_arg } => CommandsView::BlobStatus {
                file_or_blob_id: file_or_blob_id@,
                timeout: *timeout,
                rpc_url: rpc_arg@,
            },
            Commands::Publisher { args } => CommandsView::Publisher { args: args@ },
            Commands::Aggregator { rpc_arg, daemon_args } => CommandsView::Aggregator {
                rpc_url: rpc_arg@,
                daemon_args: daemon_args@,
            },
            Commands::Daemon { args } => CommandsView::Daemon { args: args@ },
            Commands::Info { rpc_arg, dev } => CommandsView::Info { rpc_url: rpc_arg@, dev: *dev },
            Commands::Json { command_string } => CommandsView::Json {
                command_string: opt_text(*command_string),
            },
            Commands::BlobId { file, n_shards, rpc_arg } => CommandsView::BlobId {
                file: file@,
                n_shards: *n_shards,
                rpc_url: rpc_arg@,
            },
        }
    }
}

impl View for App {
    type V = AppView;

    open spec fn view(&self) -> AppView {
        AppView {
            config: opt_text(self.config),
            wallet: opt_text(self.wallet),
            gas_budget: self.gas_budget,
            json: self.json,
            command: self.command@,
        }
    }
}

impl Timeout {
    /// A timeout is in order when its nanoseconds stay below one second.
    pub open spec fn wf(self) -> bool {
        self.nanos < NANOS_PER_SEC
    }
}

impl FileOrBlobIdView {
    /// Exactly one of the file and the identifier is set.
    pub open spec fn wf(self) -> bool {
        self.file is Some != self.blob_id is Some
    }

    /// What hinders the choice of a blob, if anything does.
    pub open spec fn fault(self) -> Option<CliError> {
        if self.file is Some && self.blob_id is Some {
            Some(CliError::AmbiguousTarget)
        } else if self.file is None && self.blob_id is None {
            Some(CliError::MissingTarget)
        } else {
            None
        }
    }
}

impl CommandsView {
    /// Whether the operation is one to carry out, not one that stands for
    /// a document still to be read.
    pub open spec fn is_concrete(self) -> bool {
        !(self is Json)
    }

    /// What forbids the operation whatever the rest of the invocation
    /// says, if anything does.
    pub open spec fn fault(self) -> Option<CliError> {
        match self {
            CommandsView::Store { epochs, .. } => if epochs == 0 {
                Some(CliError::ZeroEpochs)
            } else {
                None
            },
            CommandsView::BlobStatus { file_or_blob_id, .. } => file_or_blob_id.fault(),
            _ => None,
        }
    }

    /// The operation is in order: it has no fault, a timeout in it is in
    /// order, and a shard count in it is not zero.
    pub open spec fn wf(self) -> bool {
        &&& self.fault() is None
        &&& self matches CommandsView::BlobStatus { timeout, .. } ==> timeout.wf()
        &&& self matches CommandsView::BlobId { n_shards, .. } ==> n_shards != Some(0u16)
    }
}

impl AppView {
    /// The invocation is in order when its operation is.
    pub open spec fn wf(self) -> bool {
        self.command.wf()
    }
}

impl FileOrBlobId {
    /// Makes the choice of a blob from what an invocation gives. It fails
    /// unless exactly one of the two is given.
    pub fn new(file: Option<String>, blob_id: Option<BlobId>) -> (r: Result<FileOrBlobId, CliError>)
        ensures
            match r {
                Ok(target) => target.file == file && target.blob_id == blob_id && target@.wf(),
                Err(e) => Some(e) == (FileOrBlobIdView {
                    file: opt_text(file),
                    blob_id,
                }).fault(),
            },
    {
        if file.is_some() && blob_id.is_some() {
            Err(CliError::AmbiguousTarget)
        } else if file.is_none() && blob_id.is_none() {
            Err(CliError::MissingTarget)
        } else {
            Ok(FileOrBlobId { file, blob_id })
        }
    }

    /// Checks that exactly one of the file and the identifier is set,
    /// however the value was made.
    pub fn validate(&self) -> (r: Result<(), CliError>)
        ensures
            r is Ok <==> self@.wf(),
            r matches Err(e) ==> Some(e) == self@.fault(),
    {
        if self.file.is_some() && self.blob_id.is_some() {
            Err(CliError::AmbiguousTarget)
        } else if self.file.is_none() && self.blob_id.is_none() {
            Err(CliError::MissingTarget)
        } else {
            Ok(())
        }
    }
}

impl PublisherArgs {
    /// The largest body in bytes: the KiB count times 1024, of which the
    /// bits that a `usize` has no room for are dropped.
    pub open spec fn spec_max_body_size(self) -> usize {
        ((self.max_body_size_kib * 1024) % (usize::MAX + 1)) as usize
    }

    /// The largest body of a PUT request, in bytes.
    pub fn max_body_size(&self) -> (bytes: usize)
        ensures
            bytes == self.spec_max_body_size(),
    {
        self.max_body_size_kib.wrapping_mul(1024)
    }

    /// The largest body of a PUT request as people read it.
    pub fn format_max_body_size(&self) -> (r: String)
        ensures
            r@ == human_bytes(self.spec_max_body_size() as u64),
    {
        format_bytes(self.max_body_size() as u64)
    }
}

impl Commands {
    /// Whether the operation is one to carry out.
    pub fn is_concrete(&self) -> (r: bool)
        ensures
            r == self@.is_concrete(),
    {
        match self {
            Commands::Json { .. } => false,
            _ => true,
        }
    }
}

} // verus!
