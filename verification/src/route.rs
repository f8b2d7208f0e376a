//! From an invocation to what has to be set up for it.
//!
//! Each operation needs one thing of the outside: a client that may write,
//! a client that only reads, a client that only reads the chain, or an
//! encoder. Which one, and with which parameters, is decided here; setting
//! it up and using it is the caller's part. What is wrong with an
//! invocation is found here too, before anything outside is touched.

use vstd::prelude::*;
use crate::blob_id::BlobId;
use crate::command::{
    opt_text, App, AppView, Commands, CommandsView, FileOrBlobId, FileOrBlobIdView, Timeout,
};
use crate::error::CliError;

verus! {

/// What a client that may write is set up with, besides the configuration
/// and the wallet.
#[derive(Clone, Debug, PartialEq, Eq)]
pub struct WriteAccess {
    pub gas_budget: u64,
    pub blocklist: Option<String>,
}

/// What a client that only reads is set up with, besides the
/// configuration and the wallet.
#[derive(Clone, Debug, PartialEq, Eq)]
pub struct ReadAccess {
    pub rpc_url: Option<String>,
    /// Whether the wallet's own RPC node may be used: so when no wallet
    /// path was given.
    pub trust_wallet_config: bool,
    pub blocklist: Option<String>,
}

/// What a client that only reads the chain is set up with.
#[derive(Clone, Debug, PartialEq, Eq)]
pub struct ChainAccess {
    pub rpc_url: Option<String>,
    /// Whether the wallet's own RPC node may be used: so when no wallet
    /// path was given.
    pub trust_wallet_config: bool,
}

/// The blob that a status is asked for.
#[derive(Clone, Debug, PartialEq, Eq)]
pub enum Target {
    /// The blob in this file; its identifier is still to be computed.
    File(String),
    /// The blob with this identifier.
    BlobId(BlobId),
}

/// Where the number of shards comes from.
#[derive(Clone, Debug, PartialEq, Eq)]
pub enum ShardSource {
    /// The invocation gives it.
    Given(u16),
    /// It is read from the chain's committee.
    Chain(ChainAccess),
}

/// What is to be set up and done for an invocation.
#[derive(Clone, Debug, PartialEq, Eq)]
pub enum Plan {
    Store { access: WriteAccess, file: String, epochs: u64, force: bool },
    Read { access: ReadAccess, blob_id: BlobId, out: Option<String> },
    BlobStatus { access: ChainAccess, target: Target, timeout: Timeout },
    /// A server in the role of a publisher.
    Publisher { access: WriteAccess, bind_address: String, max_body_size: usize },
    /// A server in the role of an aggregator.
    Aggregator { access: ReadAccess, bind_address: String },
    /// A server in both roles.
    Daemon { access: WriteAccess, bind_address: String, max_body_size: usize },
    Info { access: ChainAccess, dev: bool },
    BlobId { file: String, shards: ShardSource },
}

/// An invocation made ready: the wallet to load and the plan to follow.
#[derive(Clone, Debug, PartialEq, Eq)]
pub struct Route {
    /// The path of the wallet configuration, where one is known.
    pub wallet_path: Option<String>,
    pub plan: Plan,
}

/// What a plan needs and cannot have.
#[derive(Clone, Copy, Debug, PartialEq, Eq, Structural)]
pub enum Missing {
    /// The client configuration is in none of the places looked in.
    Configuration,
    /// The wallet configuration is in none of the places looked in.
    Wallet,
}

/// Where the bytes of a blob that was read go.
#[derive(Clone, Copy, Debug, PartialEq, Eq, Structural)]
pub enum ReadDelivery {
    /// Into the file that the invocation names.
    File,
    /// To standard output, as they are.
    StandardOutput,
    /// Nowhere but into the document that reports the read.
    Document,
}

/// The content of a [`WriteAccess`].
pub struct WriteAccessView {
    pub gas_budget: u64,
    pub blocklist: Option<Seq<char>>,
}

/// The content of a [`ReadAccess`].
pub struct ReadAccessView {
    pub rpc_url: Option<Seq<char>>,
    pub trust_wallet_config: bool,
    pub blocklist: Option<Seq<char>>,
}

/// The content of a [`ChainAccess`].
pub struct ChainAccessView {
    pub rpc_url: Option<Seq<char>>,
    pub trust_wallet_config: bool,
}

/// The content of a [`Target`].
pub enum TargetView {
    File(Seq<char>),
    BlobId(BlobId),
}

/// The content of a [`ShardSource`].
pub enum ShardSourceView {
    Given(u16),
    Chain(ChainAccessView),
}

/// The content of a [`Plan`].
pub enum PlanView {
    Store { access: WriteAccessView, file: Seq<char>, epochs: u64, force: bool },
    Read { access: ReadAccessView, blob_id: BlobId, out: Option<Seq<char>> },
    BlobStatus { access: ChainAccessView, target: TargetView, timeout: Timeout },
    Publisher { access: WriteAccessView, bind_address: Seq<char>, max_body_size: usize },
    Aggregator { access: ReadAccessView, bind_address: Seq<char> },
    Daemon { access: WriteAccessView, bind_address: Seq<char>, max_body_size: usize },
    Info { access: ChainAccessView, dev: bool },
    BlobId { file: Seq<char>, shards: ShardSourceView },
}

/// The content of a [`Route`].
pub struct RouteView {
    pub wallet_path: Option<Seq<char>>,
    pub plan: PlanView,
}

impl View for WriteAccess {
    type V = WriteAccessView;

    open spec fn view(&self) -> WriteAccessView {
        WriteAccessView { gas_budget: self.gas_budget, blocklist: opt_text(self.blocklist) }
    }
}

impl View for ReadAccess {
    type V = ReadAccessView;

    open spec fn view(&self) -> ReadAccessView {
        ReadAccessView {
            rpc_url: opt_text(self.rpc_url),
            trust_wallet_config: self.trust_wallet_config,
            blocklist: opt_text(self.blocklist),
        }
    }
}

impl View for ChainAccess {
    type V = ChainAccessView;

    open spec fn view(&self) -> ChainAccessView {
        ChainAccessView {
            rpc_url: opt_text(self.rpc_url),
            trust_wallet_config: self.trust_wallet_config,
        }
    }
}

impl View for Target {
    type V = TargetView;

    open spec fn view(&self) -> TargetView {
        match self {
            Target::File(file) => TargetView::File(file@),
            Target::BlobId(id) => TargetView::BlobId(*id),
        }
    }
}

impl View for ShardSource {
    type V = ShardSourceView;

    open spec fn view(&self) -> ShardSourceView {
        match self {
            ShardSource::Given(n) => ShardSourceView::Given(*n),
            ShardSource::Chain(access) => ShardSourceView::Chain(access@),
        }
    }
}

impl View for Plan {
    type V = PlanView;

    open spec fn view(&self) -> PlanView {
        match self {
            Plan::Store { access, file, epochs, force } => PlanView::Store {
                access: access@,
                file: file@,
                epochs: *epochs,
                force: *force,
            },
            Plan::Read { access, blob_id, out } => PlanView::Read {
                access: access@,
                blob_id: *blob_id,
                out: opt_text(*out),
            },
            Plan::BlobStatus { access, target, timeout } => PlanView::BlobStatus {
                access: access@,
                target: target@,
                timeout: *timeout,
            },
            Plan::Publisher { access, bind_address, max_body_size } => PlanView::Publisher {
                access: access@,
                bind_address: bind_address@,
                max_body_size: *max_body_size,
            },
            Plan::Aggregator { access, bind_address } => PlanView::Aggregator {
                access: access@,
                bind_address: bind_address@,
            },
            Plan::Daemon { access, bind_address, max_body_size } => PlanView::Daemon {
                access: access@,
                bind_address: bind_address@,
                max_body_size: *max_body_size,
            },
            Plan::Info { access, dev } => PlanView::Info { access: access@, dev: *dev },
            Plan::BlobId { file, shards } => PlanView::BlobId { file: file@, shards: shards@ },
        }
    }
}

impl View for Route {
    type V = RouteView;

    open spec fn view(&self) -> RouteView {
        RouteView { wallet_path: opt_text(self.wallet_path), plan: self.plan@ }
    }
}

/// The wallet path to go by: the one that the invocation gives, else the
/// one that the configuration names.
pub open spec fn resolved_wallet_path(
    explicit: Option<Seq<char>>,
    configured: Option<Seq<char>>,
) -> Option<Seq<char>> {
    match explicit {
        Some(path) => Some(path),
        None => configured,
    }
}

/// The blob that a choice of file or identifier stands for, or what is
/// wrong with the choice.
pub open spec fn target_of(choice: FileOrBlobIdView) -> Result<TargetView, CliError> {
    match choice.fault() {
        Some(fault) => Err(fault),
        None => match choice.blob_id {
            Some(id) => Ok(TargetView::BlobId(id)),
            None => Ok(TargetView::File(choice.file->0)),
        },
    }
}

/// The largest body in bytes for a count of KiB, see
/// [`crate::command::PublisherArgs::spec_max_body_size`].
pub open spec fn body_bytes(kib: usize) -> usize {
    ((kib * 1024) % (usize::MAX + 1)) as usize
}

/// The plan for an operation. `trust` says whether the wallet's own RPC
/// node may be used.
pub open spec fn planned_for(command: CommandsView, gas_budget: u64, json: bool, trust: bool)
    -> Result<PlanView, CliError>
    recommends
        command.is_concrete(),
{
    match command {
        CommandsView::Store { file, epochs, force } => if epochs == 0 {
            Err(CliError::ZeroEpochs)
        } else {
            Ok(
                PlanView::Store {
                    access: WriteAccessView { gas_budget, blocklist: None },
                    file,
                    epochs,
                    force,
                },
            )
        },
        CommandsView::Read { blob_id, out, rpc_url } => Ok(
            PlanView::Read {
                access: ReadAccessView { rpc_url, trust_wallet_config: trust, blocklist: None },
                blob_id,
                out,
            },
        ),
        CommandsView::BlobStatus { file_or_blob_id, timeout, rpc_url } => match target_of(
            file_or_blob_id,
        ) {
            Ok(target) => Ok(
                PlanView::BlobStatus {
                    access: ChainAccessView { rpc_url, trust_wallet_config: trust },
                    target,
                    timeout,
                },
            ),
            Err(e) => Err(e),
        },
        CommandsView::Publisher { args } => Ok(
            PlanView::Publisher {
                access: WriteAccessView { gas_budget, blocklist: args.daemon_args.blocklist },
                bind_address: args.daemon_args.bind_address,
                max_body_size: body_bytes(args.max_body_size_kib),
            },
        ),
        CommandsView::Aggregator { rpc_url, daemon_args } => Ok(
            PlanView::Aggregator {
                access: ReadAccessView {
                    rpc_url,
                    trust_wallet_config: trust,
                    blocklist: daemon_args.blocklist,
                },
                bind_address: daemon_args.bind_address,
            },
        ),
        CommandsView::Daemon { args } => Ok(
            PlanView::Daemon {
                access: WriteAccessView { gas_budget, blocklist: args.daemon_args.blocklist },
                bind_address: args.daemon_args.bind_address,
                max_body_size: body_bytes(args.max_body_size_kib),
            },
        ),
        CommandsView::Info { rpc_url, dev } => if json {
            Err(CliError::InfoInJsonMode)
        } else {
            Ok(PlanView::Info { access: ChainAccessView { rpc_url, trust_wallet_config: trust }, dev })
        },
        CommandsView::BlobId { file, n_shards, rpc_url } => match n_shards {
            Some(n) => if n == 0 {
                Err(CliError::InvalidField(crate::error::Field::NShards))
            } else {
                Ok(PlanView::BlobId { file, shards: ShardSourceView::Given(n) })
            },
            None => Ok(
                PlanView::BlobId {
                    file,
                    shards: ShardSourceView::Chain(
                        ChainAccessView { rpc_url, trust_wallet_config: trust },
                    ),
                },
            ),
        },
        CommandsView::Json { .. } => arbitrary(),
    }
}

/// The route for an invocation, given the wallet path that the
/// configuration names, if it names one.
pub open spec fn routed(app: AppView, configured_wallet: Option<Seq<char>>) -> Result<
    RouteView,
    CliError,
>
    recommends
        app.command.is_concrete(),
{
    let wallet_path = resolved_wallet_path(app.wallet, configured_wallet);
    match planned_for(app.command, app.gas_budget, app.json, wallet_path is None) {
        Ok(plan) => Ok(RouteView { wallet_path, plan }),
        Err(e) => Err(e),
    }
}

/// Whether a plan needs the configuration: all do but the computing of an
/// identifier for a number of shards that is given.
pub open spec fn needs_configuration(plan: PlanView) -> bool {
    !(plan matches PlanView::BlobId { shards: ShardSourceView::Given(_), .. })
}

/// Whether a plan needs a wallet and a gas budget: those do that set up a
/// client that may write.
pub open spec fn needs_wallet(plan: PlanView) -> bool {
    plan is Store || plan is Publisher || plan is Daemon
}

/// What a plan needs and cannot have, given what was found: the
/// configuration where the plan needs it and none was found, else the
/// wallet where the plan needs it and none was found. What a plan does not
/// need is not missed.
pub open spec fn missing(plan: PlanView, config_found: bool, wallet_found: bool) -> Option<
    Missing,
> {
    if needs_configuration(plan) && !config_found {
        Some(Missing::Configuration)
    } else if needs_wallet(plan) && !wallet_found {
        Some(Missing::Wallet)
    } else {
        None
    }
}

/// Whether a plan ends in a server that runs on.
pub open spec fn starts_server(plan: PlanView) -> bool {
    plan is Publisher || plan is Aggregator || plan is Daemon
}

/// Where the bytes of a blob that was read go.
pub open spec fn read_delivery(out: Option<Seq<char>>, json: bool) -> ReadDelivery {
    if out is Some {
        ReadDelivery::File
    } else if json {
        ReadDelivery::Document
    } else {
        ReadDelivery::StandardOutput
    }
}

/// What a route, or the refusal to give one, holds.
pub open spec fn route_result(r: Result<Route, CliError>) -> Result<RouteView, CliError> {
    match r {
        Ok(route) => Ok(route@),
        Err(e) => Err(e),
    }
}

/// The wallet path to go by, see [`resolved_wallet_path`].
pub fn resolve_wallet_path(explicit: Option<String>, configured: Option<String>) -> (r: Option<
    String,
>)
    ensures
        opt_text(r) == resolved_wallet_path(opt_text(explicit), opt_text(configured)),
{
    match explicit {
        Some(path) => Some(path),
        None => configured,
    }
}

impl FileOrBlobId {
    /// The blob that this choice stands for. It fails unless exactly one
    /// of the file and the identifier is set.
    pub fn target(self) -> (r: Result<Target, CliError>)
        ensures
            match r {
                Ok(target) => target_of(self@) == Ok::<TargetView, CliError>(target@),
                Err(e) => target_of(self@) == Err::<TargetView, CliError>(e),
            },
            r is Ok <==> self@.wf(),
    {
        match (self.file, self.blob_id) {
            (Some(_), Some(_)) => Err(CliError::AmbiguousTarget),
            (None, None) => Err(CliError::MissingTarget),
            (None, Some(id)) => Ok(Target::BlobId(id)),
            (Some(file), None) => Ok(Target::File(file)),
        }
    }
}

/// Where the bytes of a blob that was read go, see [`read_delivery`].
pub fn deliver_read(out: &Option<String>, json: bool) -> (r: ReadDelivery)
    ensures
        r == read_delivery(opt_text(*out), json),
{
    if out.is_some() {
        ReadDelivery::File
    } else if json {
        ReadDelivery::Document
    } else {
        ReadDelivery::StandardOutput
    }
}

impl Missing {
    /// What the missing file is called.
    pub open spec fn name(self) -> Seq<char> {
        match self {
            Missing::Configuration => "client configuration"@,
            Missing::Wallet => "wallet configuration"@,
        }
    }

    /// What the missing file is called.
    pub fn as_str(self) -> (r: &'static str)
        ensures
            r@ == self.name(),
    {
        match self {
            Missing::Configuration => "client configuration",
            Missing::Wallet => "wallet configuration",
        }
    }
}

impl Plan {
    /// Whether this plan needs the configuration.
    pub fn needs_configuration(&self) -> (r: bool)
        ensures
            r == needs_configuration(self@),
    {
        match self {
            Plan::BlobId { shards: ShardSource::Given(_), .. } => false,
            _ => true,
        }
    }

    /// Whether this plan needs a wallet and a gas budget.
    pub fn needs_wallet(&self) -> (r: bool)
        ensures
            r == needs_wallet(self@),
    {
        match self {
            Plan::Store { .. } | Plan::Publisher { .. } | Plan::Daemon { .. } => true,
            _ => false,
        }
    }

    /// What this plan needs and cannot have, see [`missing`].
    pub fn missing(&self, config_found: bool, wallet_found: bool) -> (r: Option<Missing>)
        ensures
            r == missing(self@, config_found, wallet_found),
    {
        if self.needs_configuration() && !config_found {
            Some(Missing::Configuration)
        } else if self.needs_wallet() && !wallet_found {
            Some(Missing::Wallet)
        } else {
            None
        }
    }

    /// Whether this plan ends in a server that runs on.
    pub fn starts_server(&self) -> (r: bool)
        ensures
            r == starts_server(self@),
    {
        match self {
            Plan::Publisher { .. } | Plan::Aggregator { .. } | Plan::Daemon { .. } => true,
            _ => false,
        }
    }
}

impl App {
    /// The route for this invocation, see [`routed`]. `configured_wallet`
    /// is the wallet path that the configuration names, if the
    /// configuration could be had and names one.
    pub fn route(self, configured_wallet: Option<String>) -> (r: Result<Route, CliError>)
        requires
            self@.command.is_concrete(),
        ensures
            route_result(r) == routed(self@, opt_text(configured_wallet)),
    {
        let gas_budget = self.gas_budget;
        let json = self.json;
        let wallet_path = resolve_wallet_path(self.wallet, configured_wallet);
        let trust = wallet_path.is_none();
        let plan = match self.command {
            Commands::Store { file, epochs, force } => {
                if epochs == 0 {
                    return Err(CliError::ZeroEpochs);
                }
                Plan::Store { access: WriteAccess { gas_budget, blocklist: None }, file, epochs, force }
            },
            Commands::Read { blob_id, out, rpc_arg } => Plan::Read {
                access: ReadAccess {
                    rpc_url: rpc_arg.rpc_url,
                    trust_wallet_config: trust,
                    blocklist: None,
                },
                blob_id,
                out,
            },
            Commands::BlobStatus { file_or_blob_id, timeout, rpc_arg } => {
                let target = file_or_blob_id.target()?;
                Plan::BlobStatus {
                    access: ChainAccess { rpc_url: rpc_arg.rpc_url, trust_wallet_config: trust },
                    target,
                    timeout,
                }
            },
            Commands::Publisher { args } => {
                let max_body_size = args.max_body_size();
                Plan::Publisher {
                    access: WriteAccess { gas_budget, blocklist: args.daemon_args.blocklist },
                    bind_address: args.daemon_args.bind_address,
                    max_body_size,
                }
            },
            Commands::Aggregator { rpc_arg, daemon_args } => Plan::Aggregator {
                access: ReadAccess {
                    rpc_url: rpc_arg.rpc_url,
                    trust_wallet_config: trust,
                    blocklist: daemon_args.blocklist,
                },
                bind_address: daemon_args.bind_address,
            },
            Commands::Daemon { args } => {
                let max_body_size = args.max_body_size();
                Plan::Daemon {
                    access: WriteAccess { gas_budget, blocklist: args.daemon_args.blocklist },
                    bind_address: args.daemon_args.bind_address,
                    max_body_size,
                }
            },
            Commands::Info { rpc_arg, dev } => {
                if json {
                    return Err(CliError::InfoInJsonMode);
                }
                Plan::Info {
                    access: ChainAccess { rpc_url: rpc_arg.rpc_url, trust_wallet_config: trust },
                    dev,
                }
            },
            Commands::BlobId { file, n_shards, rpc_arg } => match n_shards {
                Some(n) => {
                    if n == 0 {
                        return Err(CliError::InvalidField(crate::error::Field::NShards));
                    }
                    Plan::BlobId { file, shards: ShardSource::Given(n) }
                },
                None => Plan::BlobId {
                    file,
                    shards: ShardSource::Chain(
                        ChainAccess { rpc_url: rpc_arg.rpc_url, trust_wallet_config: trust },
                    ),
                },
            },
            Commands::Json { .. } => unreached(),
        };
        Ok(Route { wallet_path, plan })
    }
}

/// A choice of file or identifier is in order exactly when one of the two
/// is set and the other is not. With none set or with both set it is
/// refused with an error of validation, in a document as on a command
/// line: no route leads on from it.
pub proof fn lemma_target_needs_exactly_one(
    choice: FileOrBlobIdView,
    timeout: Timeout,
    rpc_url: Option<Seq<char>>,
    gas_budget: u64,
    json: bool,
    trust: bool,
)
    ensures
        choice.wf() <==> (choice.file is Some && choice.blob_id is None) || (choice.file is None
            && choice.blob_id is Some),
        choice.wf() <==> choice.fault() is None,
        choice.wf() <==> target_of(choice) is Ok,
        !choice.wf() ==> (target_of(choice) matches Err(e) && e.is_validation()),
        !choice.wf() ==> (planned_for(
            CommandsView::BlobStatus { file_or_blob_id: choice, timeout, rpc_url },
            gas_budget,
            json,
            trust,
        ) matches Err(e) && e.is_validation()),
{
}

/// Information on the system cannot be had as JSON: the invocation is
/// refused with an error of validation and no route, so that nothing
/// outside is touched for it.
pub proof fn lemma_info_in_json_mode_is_refused(app: AppView, configured_wallet: Option<Seq<char>>)
    requires
        app.command is Info,
        app.json,
    ensures
        routed(app, configured_wallet) == Err::<RouteView, CliError>(CliError::InfoInJsonMode),
        CliError::InfoInJsonMode.is_validation(),
{
}

/// An invocation that comes out of a document and asks for information on
/// the system is refused, whatever the document says of JSON output.
pub proof fn lemma_info_from_document_is_refused(
    text: Seq<char>,
    configured_wallet: Option<Seq<char>>,
)
    requires
        crate::rehydrate::rehydrated(text) matches Ok(app) && app.command is Info,
    ensures
        routed(crate::rehydrate::rehydrated(text)->Ok_0, configured_wallet) == Err::<
            RouteView,
            CliError,
        >(CliError::InfoInJsonMode),
{
}

} // verus!
