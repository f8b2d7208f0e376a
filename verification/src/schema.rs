//! The JSON form of an invocation: a document with the members `config`,
//! `wallet`, `gasBudget`, `json` and `command`, the last an object whose one
//! member is named after the operation and holds its fields.
//!
//! Members that the form does not know are passed over. A member that may
//! be absent may also be `null`.

use vstd::prelude::*;
use crate::blob_id::BlobId;
use crate::command::{
    App, AppView, Commands, CommandsView, DaemonArgs, DaemonArgsView, FileOrBlobId,
    FileOrBlobIdView, PublisherArgs, PublisherArgsView, RpcArg, Timeout, NANOS_PER_SEC,
};
use crate::defaults::{
    default_bind_address, default_status_timeout, DEFAULT_EPOCHS, DEFAULT_GAS_BUDGET,
    DEFAULT_MAX_BODY_SIZE_KIB,
};
use crate::error::{CliError, Field};
use crate::command::opt_text;
use crate::defaults::{bind_address, status_timeout};
use crate::blob_id::lemma_text_round_trip;
use crate::json::{
    lemma_lookup_at, lemma_member_view, lookup, member, optional_text_doc, JsonDoc, JsonValue,
};
use crate::text::same_text;

verus! {

/// A text that may be absent: no member or `null` is none, a string is
/// that text.
pub open spec fn optional_text(doc: JsonDoc, field: Field) -> Result<Option<Seq<char>>, CliError> {
    match member(doc, field.name()) {
        None => Ok(None),
        Some(JsonDoc::Null) => Ok(None),
        Some(JsonDoc::Text(text)) => Ok(Some(text)),
        Some(_) => Err(CliError::InvalidField(field)),
    }
}

/// A text that must be there.
pub open spec fn required_text(doc: JsonDoc, field: Field) -> Result<Seq<char>, CliError> {
    match member(doc, field.name()) {
        None => Err(CliError::MissingField(field)),
        Some(JsonDoc::Text(text)) => Ok(text),
        Some(_) => Err(CliError::InvalidField(field)),
    }
}

/// A flag: unset where there is no member.
pub open spec fn flag(doc: JsonDoc, field: Field) -> Result<bool, CliError> {
    match member(doc, field.name()) {
        None => Ok(false),
        Some(JsonDoc::Bool(b)) => Ok(b),
        Some(_) => Err(CliError::InvalidField(field)),
    }
}

/// A count: `default` where there is no member.
pub open spec fn count(doc: JsonDoc, field: Field, default: u64) -> Result<u64, CliError> {
    match member(doc, field.name()) {
        None => Ok(default),
        Some(JsonDoc::Number(n)) => Ok(n),
        Some(_) => Err(CliError::InvalidField(field)),
    }
}

/// A blob identifier that may be absent.
pub open spec fn optional_blob_id(doc: JsonDoc) -> Result<Option<BlobId>, CliError> {
    match member(doc, Field::BlobId.name()) {
        None => Ok(None),
        Some(JsonDoc::Null) => Ok(None),
        Some(JsonDoc::Text(text)) => match BlobId::of_text(text) {
            Some(id) => Ok(Some(id)),
            None => Err(CliError::InvalidField(Field::BlobId)),
        },
        Some(_) => Err(CliError::InvalidField(Field::BlobId)),
    }
}

/// A blob identifier that must be there.
pub open spec fn required_blob_id(doc: JsonDoc) -> Result<BlobId, CliError> {
    match member(doc, Field::BlobId.name()) {
        None => Err(CliError::MissingField(Field::BlobId)),
        Some(JsonDoc::Text(text)) => match BlobId::of_text(text) {
            Some(id) => Ok(id),
            None => Err(CliError::InvalidField(Field::BlobId)),
        },
        Some(_) => Err(CliError::InvalidField(Field::BlobId)),
    }
}

/// A timeout from whole seconds and nanoseconds: a thousand million
/// nanoseconds or more are carried over into the seconds, which must not
/// overflow.
pub open spec fn timeout_from_parts(secs: u64, nanos: u64) -> Option<Timeout> {
    if nanos <= u32::MAX && secs + nanos / (NANOS_PER_SEC as u64) <= u64::MAX {
        Some(
            Timeout {
                secs: (secs + nanos / (NANOS_PER_SEC as u64)) as u64,
                nanos: (nanos % (NANOS_PER_SEC as u64)) as u32,
            },
        )
    } else {
        None
    }
}

/// The timeout of a status request: one second where there is no member,
/// else an object with the numbers `secs` and `nanos`.
pub open spec fn timeout(doc: JsonDoc) -> Result<Timeout, CliError> {
    match member(doc, Field::Timeout.name()) {
        None => Ok(default_status_timeout()),
        Some(parts) => match (member(parts, "secs"@), member(parts, "nanos"@)) {
            (Some(JsonDoc::Number(secs)), Some(JsonDoc::Number(nanos))) => match timeout_from_parts(
                secs,
                nanos,
            ) {
                Some(timeout) => Ok(timeout),
                None => Err(CliError::InvalidField(Field::Timeout)),
            },
            _ => Err(CliError::InvalidField(Field::Timeout)),
        },
    }
}

/// The largest body in KiB: the default where there is no member.
pub open spec fn body_size(doc: JsonDoc) -> Result<usize, CliError> {
    match member(doc, Field::MaxBodySizeKib.name()) {
        None => Ok(DEFAULT_MAX_BODY_SIZE_KIB),
        Some(JsonDoc::Number(n)) => if n <= usize::MAX {
            Ok(n as usize)
        } else {
            Err(CliError::InvalidField(Field::MaxBodySizeKib))
        },
        Some(_) => Err(CliError::InvalidField(Field::MaxBodySizeKib)),
    }
}

/// A shard count that may be absent; one that is there is not zero.
pub open spec fn shard_count(doc: JsonDoc) -> Result<Option<u16>, CliError> {
    match member(doc, Field::NShards.name()) {
        None => Ok(None),
        Some(JsonDoc::Null) => Ok(None),
        Some(JsonDoc::Number(n)) => if 1 <= n <= u16::MAX {
            Ok(Some(n as u16))
        } else {
            Err(CliError::InvalidField(Field::NShards))
        },
        Some(_) => Err(CliError::InvalidField(Field::NShards)),
    }
}

/// Where a service listens: the default address where there is no member.
pub open spec fn daemon_args(doc: JsonDoc) -> Result<DaemonArgsView, CliError> {
    let address = match member(doc, Field::BindAddress.name()) {
        None => Ok(default_bind_address()),
        Some(JsonDoc::Text(text)) => Ok(text),
        Some(_) => Err(CliError::InvalidField(Field::BindAddress)),
    };
    let blocklist = optional_text(doc, Field::Blocklist);
    if address is Err {
        Err(address->Err_0)
    } else if blocklist is Err {
        Err(blocklist->Err_0)
    } else {
        Ok(DaemonArgsView { bind_address: address->Ok_0, blocklist: blocklist->Ok_0 })
    }
}

/// The parameters of a publisher.
pub open spec fn publisher_args(doc: JsonDoc) -> Result<PublisherArgsView, CliError> {
    let daemon = daemon_args(doc);
    let size = body_size(doc);
    if daemon is Err {
        Err(daemon->Err_0)
    } else if size is Err {
        Err(size->Err_0)
    } else {
        Ok(PublisherArgsView { daemon_args: daemon->Ok_0, max_body_size_kib: size->Ok_0 })
    }
}

/// The fields of `store`.
pub open spec fn decode_store(args: JsonDoc) -> Result<CommandsView, CliError> {
    let file = required_text(args, Field::File);
    let epochs = count(args, Field::Epochs, DEFAULT_EPOCHS);
    let force = flag(args, Field::Force);
    if file is Err {
        Err(file->Err_0)
    } else if epochs is Err {
        Err(epochs->Err_0)
    } else if force is Err {
        Err(force->Err_0)
    } else if epochs->Ok_0 == 0 {
        Err(CliError::ZeroEpochs)
    } else {
        Ok(CommandsView::Store { file: file->Ok_0, epochs: epochs->Ok_0, force: force->Ok_0 })
    }
}

/// The fields of `read`.
pub open spec fn decode_read(args: JsonDoc) -> Result<CommandsView, CliError> {
    let blob_id = required_blob_id(args);
    let out = optional_text(args, Field::Out);
    let rpc_url = optional_text(args, Field::RpcUrl);
    if blob_id is Err {
        Err(blob_id->Err_0)
    } else if out is Err {
        Err(out->Err_0)
    } else if rpc_url is Err {
        Err(rpc_url->Err_0)
    } else {
        Ok(CommandsView::Read { blob_id: blob_id->Ok_0, out: out->Ok_0, rpc_url: rpc_url->Ok_0 })
    }
}

/// The fields of `blobStatus`.
pub open spec fn decode_blob_status(args: JsonDoc) -> Result<CommandsView, CliError> {
    let file = optional_text(args, Field::File);
    let blob_id = optional_blob_id(args);
    let timeout = timeout(args);
    let rpc_url = optional_text(args, Field::RpcUrl);
    if file is Err {
        Err(file->Err_0)
    } else if blob_id is Err {
        Err(blob_id->Err_0)
    } else if timeout is Err {
        Err(timeout->Err_0)
    } else if rpc_url is Err {
        Err(rpc_url->Err_0)
    } else {
        let target = FileOrBlobIdView { file: file->Ok_0, blob_id: blob_id->Ok_0 };
        match target.fault() {
            Some(fault) => Err(fault),
            None => Ok(
                CommandsView::BlobStatus {
                    file_or_blob_id: target,
                    timeout: timeout->Ok_0,
                    rpc_url: rpc_url->Ok_0,
                },
            ),
        }
    }
}

/// The fields of `aggregator`.
pub open spec fn decode_aggregator(args: JsonDoc) -> Result<CommandsView, CliError> {
    let rpc_url = optional_text(args, Field::RpcUrl);
    let daemon = daemon_args(args);
    if rpc_url is Err {
        Err(rpc_url->Err_0)
    } else if daemon is Err {
        Err(daemon->Err_0)
    } else {
        Ok(CommandsView::Aggregator { rpc_url: rpc_url->Ok_0, daemon_args: daemon->Ok_0 })
    }
}

/// The fields of `info`.
pub open spec fn decode_info(args: JsonDoc) -> Result<CommandsView, CliError> {
    let rpc_url = optional_text(args, Field::RpcUrl);
    let dev = flag(args, Field::Dev);
    if rpc_url is Err {
        Err(rpc_url->Err_0)
    } else if dev is Err {
        Err(dev->Err_0)
    } else {
        Ok(CommandsView::Info { rpc_url: rpc_url->Ok_0, dev: dev->Ok_0 })
    }
}

/// The fields of `blobId`.
pub open spec fn decode_blob_id(args: JsonDoc) -> Result<CommandsView, CliError> {
    let file = required_text(args, Field::File);
    let n_shards = shard_count(args);
    let rpc_url = optional_text(args, Field::RpcUrl);
    if file is Err {
        Err(file->Err_0)
    } else if n_shards is Err {
        Err(n_shards->Err_0)
    } else if rpc_url is Err {
        Err(rpc_url->Err_0)
    } else {
        Ok(
            CommandsView::BlobId {
                file: file->Ok_0,
                n_shards: n_shards->Ok_0,
                rpc_url: rpc_url->Ok_0,
            },
        )
    }
}

/// The fields of the operation called `name`.
pub open spec fn decode_fields(name: Seq<char>, args: JsonDoc) -> Result<CommandsView, CliError> {
    if name == "store"@ {
        decode_store(args)
    } else if name == "read"@ {
        decode_read(args)
    } else if name == "blobStatus"@ {
        decode_blob_status(args)
    } else if name == "publisher"@ {
        match publisher_args(args) {
            Ok(args) => Ok(CommandsView::Publisher { args }),
            Err(e) => Err(e),
        }
    } else if name == "aggregator"@ {
        decode_aggregator(args)
    } else if name == "daemon"@ {
        match publisher_args(args) {
            Ok(args) => Ok(CommandsView::Daemon { args }),
            Err(e) => Err(e),
        }
    } else if name == "info"@ {
        decode_info(args)
    } else if name == "json"@ {
        match optional_text(args, Field::CommandString) {
            Ok(command_string) => Ok(CommandsView::Json { command_string }),
            Err(e) => Err(e),
        }
    } else if name == "blobId"@ {
        decode_blob_id(args)
    } else {
        Err(CliError::UnknownCommand)
    }
}

/// Whether a name is that of an operation.
pub open spec fn is_command_name(name: Seq<char>) -> bool {
    name == "store"@ || name == "read"@ || name == "blobStatus"@ || name == "publisher"@ || name
        == "aggregator"@ || name == "daemon"@ || name == "info"@ || name == "json"@ || name
        == "blobId"@
}

/// The operation that a `command` member holds: an object with one
/// member, named after the operation, that holds an object with the
/// operation's fields.
pub open spec fn decode_command(doc: JsonDoc) -> Result<CommandsView, CliError> {
    match doc {
        JsonDoc::Object(members) => if members.len() != 1 {
            Err(CliError::CommandShape)
        } else if !is_command_name(members[0].0) {
            Err(CliError::UnknownCommand)
        } else if !(members[0].1 is Object) {
            Err(CliError::ArgumentsShape)
        } else {
            decode_fields(members[0].0, members[0].1)
        },
        _ => Err(CliError::CommandShape),
    }
}

/// The invocation that a document holds.
pub open spec fn decode_app(doc: JsonDoc) -> Result<AppView, CliError> {
    if !(doc is Object) {
        Err(CliError::NotAnObject)
    } else {
        let config = optional_text(doc, Field::Config);
        let wallet = optional_text(doc, Field::Wallet);
        let gas_budget = count(doc, Field::GasBudget, DEFAULT_GAS_BUDGET);
        let json = flag(doc, Field::Json);
        if config is Err {
            Err(config->Err_0)
        } else if wallet is Err {
            Err(wallet->Err_0)
        } else if gas_budget is Err {
            Err(gas_budget->Err_0)
        } else if json is Err {
            Err(json->Err_0)
        } else {
            match member(doc, Field::Command.name()) {
                None => Err(CliError::MissingField(Field::Command)),
                Some(command) => match decode_command(command) {
                    Err(e) => Err(e),
                    Ok(command) => Ok(
                        AppView {
                            config: config->Ok_0,
                            wallet: wallet->Ok_0,
                            gas_budget: gas_budget->Ok_0,
                            json: json->Ok_0,
                            command,
                        },
                    ),
                },
            }
        }
    }
}

/// What a decoded operation, or the refusal to decode one, holds.
pub open spec fn command_result(r: Result<Commands, CliError>) -> Result<CommandsView, CliError> {
    match r {
        Ok(command) => Ok(command@),
        Err(e) => Err(e),
    }
}

/// What a decoded invocation, or the refusal to decode one, holds.
pub open spec fn app_result(r: Result<App, CliError>) -> Result<AppView, CliError> {
    match r {
        Ok(app) => Ok(app@),
        Err(e) => Err(e),
    }
}

fn read_optional_text(doc: &JsonValue, field: Field) -> (r: Result<Option<String>, CliError>)
    ensures
        match r {
            Ok(text) => optional_text(doc@, field) == Ok::<Option<Seq<char>>, CliError>(
                opt_text(text),
            ),
            Err(e) => optional_text(doc@, field) == Err::<Option<Seq<char>>, CliError>(e),
        },
{
    match doc.get(field.as_str()) {
        None => Ok(None),
        Some(JsonValue::Null) => Ok(None),
        Some(JsonValue::Text(text)) => Ok(Some(text.clone())),
        Some(_) => Err(CliError::InvalidField(field)),
    }
}

fn read_required_text(doc: &JsonValue, field: Field) -> (r: Result<String, CliError>)
    ensures
        match r {
            Ok(text) => required_text(doc@, field) == Ok::<Seq<char>, CliError>(text@),
            Err(e) => required_text(doc@, field) == Err::<Seq<char>, CliError>(e),
        },
{
    match doc.get(field.as_str()) {
        None => Err(CliError::MissingField(field)),
        Some(JsonValue::Text(text)) => Ok(text.clone()),
        Some(_) => Err(CliError::InvalidField(field)),
    }
}

fn read_flag(doc: &JsonValue, field: Field) -> (r: Result<bool, CliError>)
    ensures
        r == flag(doc@, field),
{
    match doc.get(field.as_str()) {
        None => Ok(false),
        Some(JsonValue::Bool(b)) => Ok(*b),
        Some(_) => Err(CliError::InvalidField(field)),
    }
}

fn read_count(doc: &JsonValue, field: Field, default: u64) -> (r: Result<u64, CliError>)
    ensures
        r == count(doc@, field, default),
{
    match doc.get(field.as_str()) {
        None => Ok(default),
        Some(JsonValue::Number(n)) => Ok(*n),
        Some(_) => Err(CliError::InvalidField(field)),
    }
}

fn read_optional_blob_id(doc: &JsonValue) -> (r: Result<Option<BlobId>, CliError>)
    ensures
        r == optional_blob_id(doc@),
{
    match doc.get(Field::BlobId.as_str()) {
        None => Ok(None),
        Some(JsonValue::Null) => Ok(None),
        Some(JsonValue::Text(text)) => match BlobId::parse(text.as_str()) {
            Some(id) => Ok(Some(id)),
            None => Err(CliError::InvalidField(Field::BlobId)),
        },
        Some(_) => Err(CliError::InvalidField(Field::BlobId)),
    }
}

fn read_required_blob_id(doc: &JsonValue) -> (r: Result<BlobId, CliError>)
    ensures
        r == required_blob_id(doc@),
{
    match doc.get(Field::BlobId.as_str()) {
        None => Err(CliError::MissingField(Field::BlobId)),
        Some(JsonValue::Text(text)) => match BlobId::parse(text.as_str()) {
            Some(id) => Ok(id),
            None => Err(CliError::InvalidField(Field::BlobId)),
        },
        Some(_) => Err(CliError::InvalidField(Field::BlobId)),
    }
}

impl Timeout {
    /// A timeout from whole seconds and nanoseconds, see
    /// [`timeout_from_parts`].
    pub fn from_parts(secs: u64, nanos: u64) -> (r: Option<Timeout>)
        ensures
            r == timeout_from_parts(secs, nanos),
            r matches Some(timeout) ==> timeout.wf(),
    {
        if nanos > 0xffff_ffff {
            return None;
        }
        let carry: u64 = nanos / 1_000_000_000;
        match secs.checked_add(carry) {
            Some(total) => Some(Timeout { secs: total, nanos: (nanos % 1_000_000_000) as u32 }),
            None => None,
        }
    }
}

fn read_number(doc: &JsonValue, name: &str) -> (r: Option<u64>)
    ensures
        match r {
            Some(n) => member(doc@, name@) == Some(JsonDoc::Number(n)),
            None => !(member(doc@, name@) matches Some(JsonDoc::Number(_))),
        },
{
    match doc.get(name) {
        Some(JsonValue::Number(n)) => Some(*n),
        _ => None,
    }
}

fn read_timeout(doc: &JsonValue) -> (r: Result<Timeout, CliError>)
    ensures
        r == timeout(doc@),
        r matches Ok(timeout) ==> timeout.wf(),
{
    match doc.get(Field::Timeout.as_str()) {
        None => Ok(status_timeout()),
        Some(parts) => {
            let secs = read_number(parts, "secs");
            let nanos = read_number(parts, "nanos");
            match (secs, nanos) {
                (Some(secs), Some(nanos)) => match Timeout::from_parts(secs, nanos) {
                    Some(timeout) => Ok(timeout),
                    None => Err(CliError::InvalidField(Field::Timeout)),
                },
                _ => Err(CliError::InvalidField(Field::Timeout)),
            }
        },
    }
}

fn read_body_size(doc: &JsonValue) -> (r: Result<usize, CliError>)
    ensures
        r == body_size(doc@),
{
    match doc.get(Field::MaxBodySizeKib.as_str()) {
        None => Ok(DEFAULT_MAX_BODY_SIZE_KIB),
        Some(JsonValue::Number(n)) => if *n <= usize::MAX as u64 {
            Ok(*n as usize)
        } else {
            Err(CliError::InvalidField(Field::MaxBodySizeKib))
        },
        Some(_) => Err(CliError::InvalidField(Field::MaxBodySizeKib)),
    }
}

fn read_shard_count(doc: &JsonValue) -> (r: Result<Option<u16>, CliError>)
    ensures
        r == shard_count(doc@),
{
    match doc.get(Field::NShards.as_str()) {
        None => Ok(None),
        Some(JsonValue::Null) => Ok(None),
        Some(JsonValue::Number(n)) => if 1 <= *n && *n <= 0xffff {
            Ok(Some(*n as u16))
        } else {
            Err(CliError::InvalidField(Field::NShards))
        },
        Some(_) => Err(CliError::InvalidField(Field::NShards)),
    }
}

fn read_daemon_args(doc: &JsonValue) -> (r: Result<DaemonArgs, CliError>)
    ensures
        match r {
            Ok(args) => daemon_args(doc@) == Ok::<DaemonArgsView, CliError>(args@),
            Err(e) => daemon_args(doc@) == Err::<DaemonArgsView, CliError>(e),
        },
{
    let address = match doc.get(Field::BindAddress.as_str()) {
        None => bind_address(),
        Some(JsonValue::Text(text)) => text.clone(),
        Some(_) => {
            return Err(CliError::InvalidField(Field::BindAddress));
        },
    };
    let blocklist = read_optional_text(doc, Field::Blocklist)?;
    Ok(DaemonArgs { bind_address: address, blocklist })
}

fn read_publisher_args(doc: &JsonValue) -> (r: Result<PublisherArgs, CliError>)
    ensures
        match r {
            Ok(args) => publisher_args(doc@) == Ok::<PublisherArgsView, CliError>(args@),
            Err(e) => publisher_args(doc@) == Err::<PublisherArgsView, CliError>(e),
        },
{
    let daemon_args = read_daemon_args(doc)?;
    let max_body_size_kib = read_body_size(doc)?;
    Ok(PublisherArgs { daemon_args, max_body_size_kib })
}

fn read_store(args: &JsonValue) -> (r: Result<Commands, CliError>)
    ensures
        command_result(r) == decode_store(args@),
{
    let file = read_required_text(args, Field::File)?;
    let epochs = read_count(args, Field::Epochs, DEFAULT_EPOCHS)?;
    let force = read_flag(args, Field::Force)?;
    if epochs == 0 {
        return Err(CliError::ZeroEpochs);
    }
    Ok(Commands::Store { file, epochs, force })
}

fn read_read(args: &JsonValue) -> (r: Result<Commands, CliError>)
    ensures
        command_result(r) == decode_read(args@),
{
    let blob_id = read_required_blob_id(args)?;
    let out = read_optional_text(args, Field::Out)?;
    let rpc_url = read_optional_text(args, Field::RpcUrl)?;
    Ok(Commands::Read { blob_id, out, rpc_arg: RpcArg { rpc_url } })
}

fn read_blob_status(args: &JsonValue) -> (r: Result<Commands, CliError>)
    ensures
        command_result(r) == decode_blob_status(args@),
{
    let file = read_optional_text(args, Field::File)?;
    let blob_id = read_optional_blob_id(args)?;
    let timeout = read_timeout(args)?;
    let rpc_url = read_optional_text(args, Field::RpcUrl)?;
    let file_or_blob_id = FileOrBlobId::new(file, blob_id)?;
    Ok(Commands::BlobStatus { file_or_blob_id, timeout, rpc_arg: RpcArg { rpc_url } })
}

fn read_aggregator(args: &JsonValue) -> (r: Result<Commands, CliError>)
    ensures
        command_result(r) == decode_aggregator(args@),
{
    let rpc_url = read_optional_text(args, Field::RpcUrl)?;
    let daemon_args = read_daemon_args(args)?;
    Ok(Commands::Aggregator { rpc_arg: RpcArg { rpc_url }, daemon_args })
}

fn read_info(args: &JsonValue) -> (r: Result<Commands, CliError>)
    ensures
        command_result(r) == decode_info(args@),
{
    let rpc_url = read_optional_text(args, Field::RpcUrl)?;
    let dev = read_flag(args, Field::Dev)?;
    Ok(Commands::Info { rpc_arg: RpcArg { rpc_url }, dev })
}

fn read_blob_id(args: &JsonValue) -> (r: Result<Commands, CliError>)
    ensures
        command_result(r) == decode_blob_id(args@),
{
    let file = read_required_text(args, Field::File)?;
    let n_shards = read_shard_count(args)?;
    let rpc_url = read_optional_text(args, Field::RpcUrl)?;
    Ok(Commands::BlobId { file, n_shards, rpc_arg: RpcArg { rpc_url } })
}

fn read_fields(name: &str, args: &JsonValue) -> (r: Result<Commands, CliError>)
    ensures
        command_result(r) == decode_fields(name@, args@),
        r matches Err(e) && e == CliError::UnknownCommand ==> !is_command_name(name@),
{
    if same_text(name, "store") {
        read_store(args)
    } else if same_text(name, "read") {
        read_read(args)
    } else if same_text(name, "blobStatus") {
        read_blob_status(args)
    } else if same_text(name, "publisher") {
        Ok(Commands::Publisher { args: read_publisher_args(args)? })
    } else if same_text(name, "aggregator") {
        read_aggregator(args)
    } else if same_text(name, "daemon") {
        Ok(Commands::Daemon { args: read_publisher_args(args)? })
    } else if same_text(name, "info") {
        read_info(args)
    } else if same_text(name, "json") {
        Ok(Commands::Json { command_string: read_optional_text(args, Field::CommandString)? })
    } else if same_text(name, "blobId") {
        read_blob_id(args)
    } else {
        Err(CliError::UnknownCommand)
    }
}

fn names_command(name: &str) -> (r: bool)
    ensures
        r == is_command_name(name@),
{
    same_text(name, "store") || same_text(name, "read") || same_text(name, "blobStatus")
        || same_text(name, "publisher") || same_text(name, "aggregator") || same_text(
        name,
        "daemon",
    ) || same_text(name, "info") || same_text(name, "json") || same_text(name, "blobId")
}

impl Commands {
    /// Reads the operation that a `command` member holds. The result is
    /// the operation, or the refusal, that [`decode_command`] gives for the
    /// document.
    pub fn from_json(doc: &JsonValue) -> (r: Result<Commands, CliError>)
        ensures
            command_result(r) == decode_command(doc@),
    {
        match doc {
            JsonValue::Object(members) => {
                proof {
                    lemma_member_view(*members);
                }
                if members.len() != 1 {
                    return Err(CliError::CommandShape);
                }
                let name = members[0].0.as_str();
                let args = &members[0].1;
                if !names_command(name) {
                    return Err(CliError::UnknownCommand);
                }
                match args {
                    JsonValue::Object(_) => read_fields(name, args),
                    _ => Err(CliError::ArgumentsShape),
                }
            },
            _ => Err(CliError::CommandShape),
        }
    }
}

impl App {
    /// Reads the invocation that a document holds. The result is the
    /// invocation, or the refusal, that [`decode_app`] gives for the
    /// document.
    pub fn from_json(doc: &JsonValue) -> (r: Result<App, CliError>)
        ensures
            app_result(r) == decode_app(doc@),
            r matches Ok(app) ==> app@.wf(),
    {
        proof {
            lemma_decoded_is_in_order(doc@);
        }
        match doc {
            JsonValue::Object(_) => {},
            _ => {
                return Err(CliError::NotAnObject);
            },
        }
        let config = read_optional_text(doc, Field::Config)?;
        let wallet = read_optional_text(doc, Field::Wallet)?;
        let gas_budget = read_count(doc, Field::GasBudget, DEFAULT_GAS_BUDGET)?;
        let json = read_flag(doc, Field::Json)?;
        let command = match doc.get(Field::Command.as_str()) {
            None => {
                return Err(CliError::MissingField(Field::Command));
            },
            Some(command) => Commands::from_json(command)?,
        };
        Ok(App { config, wallet, gas_budget, json, command })
    }
}

/// The value that stands for a blob identifier that may be absent.
pub open spec fn optional_blob_id_doc(id: Option<BlobId>) -> JsonDoc {
    match id {
        Some(id) => JsonDoc::Text(id.text()),
        None => JsonDoc::Null,
    }
}

/// The value that stands for a shard count that may be absent.
pub open spec fn shard_count_doc(n: Option<u16>) -> JsonDoc {
    match n {
        Some(n) => JsonDoc::Number(n as u64),
        None => JsonDoc::Null,
    }
}

/// The object that stands for a timeout.
pub open spec fn timeout_doc(timeout: Timeout) -> JsonDoc {
    JsonDoc::Object(
        seq![
            ("secs"@, JsonDoc::Number(timeout.secs)),
            ("nanos"@, JsonDoc::Number(timeout.nanos as u64)),
        ],
    )
}

/// The name of an operation in a document.
pub open spec fn command_name(command: CommandsView) -> Seq<char> {
    match command {
        CommandsView::Store { .. } => "store"@,
        CommandsView::Read { .. } => "read"@,
        CommandsView::BlobStatus { .. } => "blobStatus"@,
        CommandsView::Publisher { .. } => "publisher"@,
        CommandsView::Aggregator { .. } => "aggregator"@,
        CommandsView::Daemon { .. } => "daemon"@,
        CommandsView::Info { .. } => "info"@,
        CommandsView::Json { .. } => "json"@,
        CommandsView::BlobId { .. } => "blobId"@,
    }
}

/// The members that stand for the parameters of a publisher.
pub open spec fn publisher_members(args: PublisherArgsView) -> Seq<(Seq<char>, JsonDoc)> {
    seq![
        (Field::BindAddress.name(), JsonDoc::Text(args.daemon_args.bind_address)),
        (Field::Blocklist.name(), optional_text_doc(args.daemon_args.blocklist)),
        (Field::MaxBodySizeKib.name(), JsonDoc::Number(args.max_body_size_kib as u64)),
    ]
}

/// The members that stand for the fields of an operation. Every field is
/// written, one that is absent as `null`.
pub open spec fn command_members(command: CommandsView) -> Seq<(Seq<char>, JsonDoc)> {
    match command {
        CommandsView::Store { file, epochs, force } => seq![
            (Field::File.name(), JsonDoc::Text(file)),
            (Field::Epochs.name(), JsonDoc::Number(epochs)),
            (Field::Force.name(), JsonDoc::Bool(force)),
        ],
        CommandsView::Read { blob_id, out, rpc_url } => seq![
            (Field::BlobId.name(), JsonDoc::Text(blob_id.text())),
            (Field::Out.name(), optional_text_doc(out)),
            (Field::RpcUrl.name(), optional_text_doc(rpc_url)),
        ],
        CommandsView::BlobStatus { file_or_blob_id, timeout, rpc_url } => seq![
            (Field::File.name(), optional_text_doc(file_or_blob_id.file)),
            (Field::BlobId.name(), optional_blob_id_doc(file_or_blob_id.blob_id)),
            (Field::Timeout.name(), timeout_doc(timeout)),
            (Field::RpcUrl.name(), optional_text_doc(rpc_url)),
        ],
        CommandsView::Publisher { args } => publisher_members(args),
        CommandsView::Aggregator { rpc_url, daemon_args } => seq![
            (Field::RpcUrl.name(), optional_text_doc(rpc_url)),
            (Field::BindAddress.name(), JsonDoc::Text(daemon_args.bind_address)),
            (Field::Blocklist.name(), optional_text_doc(daemon_args.blocklist)),
        ],
        CommandsView::Daemon { args } => publisher_members(args),
        CommandsView::Info { rpc_url, dev } => seq![
            (Field::RpcUrl.name(), optional_text_doc(rpc_url)),
            (Field::Dev.name(), JsonDoc::Bool(dev)),
        ],
        CommandsView::Json { command_string } => seq![
            (Field::CommandString.name(), optional_text_doc(command_string)),
        ],
        CommandsView::BlobId { file, n_shards, rpc_url } => seq![
            (Field::File.name(), JsonDoc::Text(file)),
            (Field::NShards.name(), shard_count_doc(n_shards)),
            (Field::RpcUrl.name(), optional_text_doc(rpc_url)),
        ],
    }
}

/// The `command` member that stands for an operation.
pub open spec fn encode_command(command: CommandsView) -> JsonDoc {
    JsonDoc::Object(seq![(command_name(command), JsonDoc::Object(command_members(command)))])
}

/// The document that stands for an invocation.
pub open spec fn encode_app(app: AppView) -> JsonDoc {
    JsonDoc::Object(
        seq![
            (Field::Config.name(), optional_text_doc(app.config)),
            (Field::Wallet.name(), optional_text_doc(app.wallet)),
            (Field::GasBudget.name(), JsonDoc::Number(app.gas_budget)),
            (Field::Json.name(), JsonDoc::Bool(app.json)),
            (Field::Command.name(), encode_command(app.command)),
        ],
    )
}

fn entry(field: Field, value: JsonValue) -> (r: (String, JsonValue))
    ensures
        r.0@ == field.name(),
        r.1 == value,
{
    JsonValue::member(field.as_str(), value)
}

impl Timeout {
    /// The object that stands for this timeout.
    pub fn to_json(&self) -> (r: JsonValue)
        ensures
            r@ == timeout_doc(*self),
    {
        let mut members: Vec<(String, JsonValue)> = Vec::new();
        members.push(JsonValue::member("secs", JsonValue::Number(self.secs)));
        members.push(JsonValue::member("nanos", JsonValue::Number(self.nanos as u64)));
        let r = JsonValue::object(members);
        assert(r@->Object_0 =~= timeout_doc(*self)->Object_0);
        r
    }
}

impl PublisherArgs {
    fn members(&self) -> (r: Vec<(String, JsonValue)>)
        ensures
            JsonValue::Object(r)@ == JsonDoc::Object(publisher_members(self@)),
    {
        let mut members: Vec<(String, JsonValue)> = Vec::new();
        members.push(
            entry(Field::BindAddress, JsonValue::text(self.daemon_args.bind_address.as_str())),
        );
        members.push(
            entry(Field::Blocklist, JsonValue::optional_text(&self.daemon_args.blocklist)),
        );
        members.push(
            entry(Field::MaxBodySizeKib, JsonValue::Number(self.max_body_size_kib as u64)),
        );
        proof {
            lemma_member_view(members);
            assert(JsonValue::Object(members)@->Object_0 =~= publisher_members(self@));
        }
        members
    }
}

fn optional_blob_id_value(id: &Option<BlobId>) -> (r: JsonValue)
    ensures
        r@ == optional_blob_id_doc(*id),
{
    match id {
        Some(id) => JsonValue::Text(id.to_text()),
        None => JsonValue::Null,
    }
}

fn shard_count_value(n: &Option<u16>) -> (r: JsonValue)
    ensures
        r@ == shard_count_doc(*n),
{
    match n {
        Some(n) => JsonValue::Number(*n as u64),
        None => JsonValue::Null,
    }
}

impl Commands {
    /// The name of this operation in a document.
    pub fn name(&self) -> (r: &'static str)
        ensures
            r@ == command_name(self@),
    {
        match self {
            Commands::Store { .. } => "store",
            Commands::Read { .. } => "read",
            Commands::BlobStatus { .. } => "blobStatus",
            Commands::Publisher { .. } => "publisher",
            Commands::Aggregator { .. } => "aggregator",
            Commands::Daemon { .. } => "daemon",
            Commands::Info { .. } => "info",
            Commands::Json { .. } => "json",
            Commands::BlobId { .. } => "blobId",
        }
    }

    fn members(&self) -> (r: Vec<(String, JsonValue)>)
        ensures
            JsonValue::Object(r)@ == JsonDoc::Object(command_members(self@)),
    {
        let mut members: Vec<(String, JsonValue)> = Vec::new();
        match self {
            Commands::Store { file, epochs, force } => {
                members.push(entry(Field::File, JsonValue::text(file.as_str())));
                members.push(entry(Field::Epochs, JsonValue::Number(*epochs)));
                members.push(entry(Field::Force, JsonValue::Bool(*force)));
            },
            Commands::Read { blob_id, out, rpc_arg } => {
                members.push(entry(Field::BlobId, JsonValue::Text(blob_id.to_text())));
                members.push(entry(Field::Out, JsonValue::optional_text(out)));
                members.push(entry(Field::RpcUrl, JsonValue::optional_text(&rpc_arg.rpc_url)));
            },
            Commands::BlobStatus { file_or_blob_id, timeout, rpc_arg } => {
                members.push(entry(Field::File, JsonValue::optional_text(&file_or_blob_id.file)));
                members.push(
                    entry(Field::BlobId, optional_blob_id_value(&file_or_blob_id.blob_id)),
                );
                members.push(entry(Field::Timeout, timeout.to_json()));
                members.push(entry(Field::RpcUrl, JsonValue::optional_text(&rpc_arg.rpc_url)));
            },
            Commands::Publisher { args } => {
                return args.members();
            },
            Commands::Aggregator { rpc_arg, daemon_args } => {
                members.push(entry(Field::RpcUrl, JsonValue::optional_text(&rpc_arg.rpc_url)));
                members.push(
                    entry(Field::BindAddress, JsonValue::text(daemon_args.bind_address.as_str())),
                );
                members.push(entry(Field::Blocklist, JsonValue::optional_text(&daemon_args.blocklist)));
            },
            Commands::Daemon { args } => {
                return args.members();
            },
            Commands::Info { rpc_arg, dev } => {
                members.push(entry(Field::RpcUrl, JsonValue::optional_text(&rpc_arg.rpc_url)));
                members.push(entry(Field::Dev, JsonValue::Bool(*dev)));
            },
            Commands::Json { command_string } => {
                members.push(entry(Field::CommandString, JsonValue::optional_text(command_string)));
            },
            Commands::BlobId { file, n_shards, rpc_arg } => {
                members.push(entry(Field::File, JsonValue::text(file.as_str())));
                members.push(entry(Field::NShards, shard_count_value(n_shards)));
                members.push(entry(Field::RpcUrl, JsonValue::optional_text(&rpc_arg.rpc_url)));
            },
        }
        proof {
            lemma_member_view(members);
            assert(JsonValue::Object(members)@->Object_0 =~= command_members(self@));
        }
        members
    }

    /// The `command` member that stands for this operation.
    pub fn to_json(&self) -> (r: JsonValue)
        ensures
            r@ == encode_command(self@),
    {
        let fields = self.members();
        let mut members: Vec<(String, JsonValue)> = Vec::new();
        members.push(JsonValue::member(self.name(), JsonValue::Object(fields)));
        let r = JsonValue::object(members);
        assert(r@->Object_0 =~= encode_command(self@)->Object_0);
        r
    }
}

impl App {
    /// The document that stands for this invocation.
    pub fn to_json(&self) -> (r: JsonValue)
        ensures
            r@ == encode_app(self@),
    {
        let mut members: Vec<(String, JsonValue)> = Vec::new();
        members.push(entry(Field::Config, JsonValue::optional_text(&self.config)));
        members.push(entry(Field::Wallet, JsonValue::optional_text(&self.wallet)));
        members.push(entry(Field::GasBudget, JsonValue::Number(self.gas_budget)));
        members.push(entry(Field::Json, JsonValue::Bool(self.json)));
        members.push(entry(Field::Command, self.command.to_json()));
        let r = JsonValue::object(members);
        assert(r@->Object_0 =~= encode_app(self@)->Object_0);
        r
    }
}

/// An invocation that is read from a document is in order.
pub proof fn lemma_decoded_is_in_order(doc: JsonDoc)
    ensures
        decode_app(doc) matches Ok(app) ==> app.wf(),
{
    if let Ok(app) = decode_app(doc) {
        let command = member(doc, Field::Command.name())->0;
        let members = command->Object_0;
        let name = members[0].0;
        let args = members[0].1;
        assert(decode_fields(name, args) == Ok::<CommandsView, CliError>(app.command));
        if name == "blobStatus"@ {
            let nanos = member(member(args, Field::Timeout.name())->0, "nanos"@);
            if member(args, Field::Timeout.name()) is Some {
                let n = nanos->0->Number_0;
                assert(n % (NANOS_PER_SEC as u64) < NANOS_PER_SEC);
            }
        }
    }
}

/// What tells the name of one field from that of another: its length and
/// its first character.
proof fn lemma_field_name_marks(field: Field)
    ensures
        field.name().len() >= 3,
        (field.name().len(), field.name()[0]) == match field {
            Field::Config => (6nat, 'c'),
            Field::Wallet => (6nat, 'w'),
            Field::GasBudget => (9nat, 'g'),
            Field::Json => (4nat, 'j'),
            Field::Command => (7nat, 'c'),
            Field::File => (4nat, 'f'),
            Field::Epochs => (6nat, 'e'),
            Field::Force => (5nat, 'f'),
            Field::BlobId => (6nat, 'b'),
            Field::Out => (3nat, 'o'),
            Field::RpcUrl => (6nat, 'r'),
            Field::Timeout => (7nat, 't'),
            Field::BindAddress => (11nat, 'b'),
            Field::Blocklist => (9nat, 'b'),
            Field::MaxBodySizeKib => (14nat, 'm'),
            Field::Dev => (3nat, 'd'),
            Field::CommandString => (13nat, 'c'),
            Field::NShards => (7nat, 'n'),
        },
{
    reveal_strlit("config");
    reveal_strlit("wallet");
    reveal_strlit("gasBudget");
    reveal_strlit("json");
    reveal_strlit("command");
    reveal_strlit("file");
    reveal_strlit("epochs");
    reveal_strlit("force");
    reveal_strlit("blobId");
    reveal_strlit("out");
    reveal_strlit("rpcUrl");
    reveal_strlit("timeout");
    reveal_strlit("bindAddress");
    reveal_strlit("blocklist");
    reveal_strlit("maxBodySizeKib");
    reveal_strlit("dev");
    reveal_strlit("commandString");
    reveal_strlit("nShards");
}

/// No two fields share a name.
pub proof fn lemma_field_names_distinct(a: Field, b: Field)
    requires
        a != b,
    ensures
        a.name() != b.name(),
{
    lemma_field_name_marks(a);
    lemma_field_name_marks(b);
}

/// What tells the name of one operation from that of another: its length
/// and its first character.
proof fn lemma_command_name_marks(command: CommandsView)
    ensures
        is_command_name(command_name(command)),
        (command_name(command).len(), command_name(command)[0]) == match command {
            CommandsView::Store { .. } => (5nat, 's'),
            CommandsView::Read { .. } => (4nat, 'r'),
            CommandsView::BlobStatus { .. } => (10nat, 'b'),
            CommandsView::Publisher { .. } => (9nat, 'p'),
            CommandsView::Aggregator { .. } => (10nat, 'a'),
            CommandsView::Daemon { .. } => (6nat, 'd'),
            CommandsView::Info { .. } => (4nat, 'i'),
            CommandsView::Json { .. } => (4nat, 'j'),
            CommandsView::BlobId { .. } => (6nat, 'b'),
        },
        "store"@.len() == 5 && "store"@[0] == 's',
        "read"@.len() == 4 && "read"@[0] == 'r',
        "blobStatus"@.len() == 10 && "blobStatus"@[0] == 'b',
        "publisher"@.len() == 9 && "publisher"@[0] == 'p',
        "aggregator"@.len() == 10 && "aggregator"@[0] == 'a',
        "daemon"@.len() == 6 && "daemon"@[0] == 'd',
        "info"@.len() == 4 && "info"@[0] == 'i',
        "json"@.len() == 4 && "json"@[0] == 'j',
        "blobId"@.len() == 6 && "blobId"@[0] == 'b',
{
    reveal_strlit("store");
    reveal_strlit("read");
    reveal_strlit("blobStatus");
    reveal_strlit("publisher");
    reveal_strlit("aggregator");
    reveal_strlit("daemon");
    reveal_strlit("info");
    reveal_strlit("json");
    reveal_strlit("blobId");
}

/// In an object whose members are named after distinct fields, a lookup
/// of the field at `i` gives the value at `i`.
proof fn lemma_member_at(members: Seq<(Seq<char>, JsonDoc)>, fields: Seq<Field>, i: int)
    requires
        members.len() == fields.len(),
        0 <= i < members.len(),
        forall|j: int| 0 <= j < members.len() ==> (#[trigger] members[j]).0 == fields[j].name(),
        forall|j: int, k: int| 0 <= j < k < fields.len() ==> fields[j] != fields[k],
    ensures
        member(JsonDoc::Object(members), fields[i].name()) == Some(members[i].1),
{
    assert forall|j: int| 0 <= j < i implies (#[trigger] members[j]).0 != fields[i].name() by {
        lemma_field_names_distinct(fields[j], fields[i]);
    }
    lemma_lookup_at(members, fields[i].name(), i);
}

/// In an object whose members are named after distinct fields, a lookup
/// of each field gives the value that stands beside its name.
proof fn lemma_members_by_field(members: Seq<(Seq<char>, JsonDoc)>, fields: Seq<Field>)
    requires
        members.len() == fields.len(),
        forall|j: int| 0 <= j < members.len() ==> (#[trigger] members[j]).0 == fields[j].name(),
        forall|j: int, k: int| 0 <= j < k < fields.len() ==> fields[j] != fields[k],
    ensures
        forall|i: int|
            0 <= i < fields.len() ==> member(JsonDoc::Object(members), #[trigger] fields[i].name())
                == Some(members[i].1),
{
    assert forall|i: int| 0 <= i < fields.len() implies member(
        JsonDoc::Object(members),
        #[trigger] fields[i].name(),
    ) == Some(members[i].1) by {
        lemma_member_at(members, fields, i);
    }
}

/// A timeout that is in order is read back from the object that stands
/// for it.
proof fn lemma_timeout_round_trip(t: Timeout)
    requires
        t.wf(),
    ensures
        member(timeout_doc(t), "secs"@) == Some(JsonDoc::Number(t.secs)),
        member(timeout_doc(t), "nanos"@) == Some(JsonDoc::Number(t.nanos as u64)),
        timeout_from_parts(t.secs, t.nanos as u64) == Some(t),
{
    reveal_strlit("secs");
    reveal_strlit("nanos");
    let members = timeout_doc(t)->Object_0;
    lemma_lookup_at(members, "secs"@, 0);
    assert("secs"@.len() != "nanos"@.len());
    lemma_lookup_at(members, "nanos"@, 1);
    let nanos = t.nanos as u64;
    assert(nanos / (NANOS_PER_SEC as u64) == 0 && nanos % (NANOS_PER_SEC as u64) == nanos);
    assert(timeout_from_parts(t.secs, nanos)->0.nanos == t.nanos);
}

/// The fields of an operation that is in order are read back from the
/// members that stand for them.
proof fn lemma_fields_round_trip(command: CommandsView)
    requires
        command.wf(),
    ensures
        decode_fields(command_name(command), JsonDoc::Object(command_members(command))) == Ok::<
            CommandsView,
            CliError,
        >(command),
{
    let members = command_members(command);
    let args = JsonDoc::Object(members);
    lemma_command_name_marks(command);
    match command {
        CommandsView::Store { file, epochs, force } => {
            let fields = seq![Field::File, Field::Epochs, Field::Force];
            lemma_members_by_field(members, fields);
            assert(fields[0] == Field::File && fields[1] == Field::Epochs && fields[2]
                == Field::Force);
            assert(decode_store(args) == Ok::<CommandsView, CliError>(command));
        },
        CommandsView::Read { blob_id, out, rpc_url } => {
            let fields = seq![Field::BlobId, Field::Out, Field::RpcUrl];
            lemma_members_by_field(members, fields);
            assert(fields[0] == Field::BlobId && fields[1] == Field::Out && fields[2]
                == Field::RpcUrl);
            lemma_text_round_trip(blob_id);
            assert(decode_read(args) == Ok::<CommandsView, CliError>(command));
        },
        CommandsView::BlobStatus { file_or_blob_id, timeout, rpc_url } => {
            let fields = seq![Field::File, Field::BlobId, Field::Timeout, Field::RpcUrl];
            lemma_members_by_field(members, fields);
            assert(fields[0] == Field::File && fields[1] == Field::BlobId && fields[2]
                == Field::Timeout && fields[3] == Field::RpcUrl);
            if let Some(id) = file_or_blob_id.blob_id {
                lemma_text_round_trip(id);
            }
            lemma_timeout_round_trip(timeout);
            assert(self::timeout(args) == Ok::<Timeout, CliError>(timeout));
            assert(optional_blob_id(args) == Ok::<Option<BlobId>, CliError>(
                file_or_blob_id.blob_id,
            ));
            assert(decode_blob_status(args) == Ok::<CommandsView, CliError>(command));
        },
        CommandsView::Publisher { args: publisher } => {
            let fields = seq![Field::BindAddress, Field::Blocklist, Field::MaxBodySizeKib];
            lemma_members_by_field(members, fields);
            assert(fields[0] == Field::BindAddress && fields[1] == Field::Blocklist && fields[2]
                == Field::MaxBodySizeKib);
            assert(publisher_args(args) == Ok::<PublisherArgsView, CliError>(publisher));
        },
        CommandsView::Aggregator { rpc_url, daemon_args } => {
            let fields = seq![Field::RpcUrl, Field::BindAddress, Field::Blocklist];
            lemma_members_by_field(members, fields);
            assert(fields[0] == Field::RpcUrl && fields[1] == Field::BindAddress && fields[2]
                == Field::Blocklist);
            assert(self::daemon_args(args) == Ok::<DaemonArgsView, CliError>(daemon_args));
            assert(decode_aggregator(args) == Ok::<CommandsView, CliError>(command));
        },
        CommandsView::Daemon { args: publisher } => {
            let fields = seq![Field::BindAddress, Field::Blocklist, Field::MaxBodySizeKib];
            lemma_members_by_field(members, fields);
            assert(fields[0] == Field::BindAddress && fields[1] == Field::Blocklist && fields[2]
                == Field::MaxBodySizeKib);
            assert(publisher_args(args) == Ok::<PublisherArgsView, CliError>(publisher));
        },
        CommandsView::Info { rpc_url, dev } => {
            let fields = seq![Field::RpcUrl, Field::Dev];
            lemma_members_by_field(members, fields);
            assert(fields[0] == Field::RpcUrl && fields[1] == Field::Dev);
            assert(decode_info(args) == Ok::<CommandsView, CliError>(command));
        },
        CommandsView::Json { command_string } => {
            let fields = seq![Field::CommandString];
            lemma_members_by_field(members, fields);
            assert(fields[0] == Field::CommandString);
        },
        CommandsView::BlobId { file, n_shards, rpc_url } => {
            let fields = seq![Field::File, Field::NShards, Field::RpcUrl];
            lemma_members_by_field(members, fields);
            assert(fields[0] == Field::File && fields[1] == Field::NShards && fields[2]
                == Field::RpcUrl);
            assert(decode_blob_id(args) == Ok::<CommandsView, CliError>(command));
        },
    }
}

/// An operation that is in order is read back from the `command` member
/// that stands for it.
pub proof fn lemma_command_round_trip(command: CommandsView)
    requires
        command.wf(),
    ensures
        decode_command(encode_command(command)) == Ok::<CommandsView, CliError>(command),
{
    lemma_command_name_marks(command);
    lemma_fields_round_trip(command);
}

/// Writing an invocation that is in order as a document and reading the
/// document gives the same invocation: the same operation with the same
/// value in every field.
pub proof fn lemma_round_trip(app: AppView)
    requires
        app.wf(),
    ensures
        decode_app(encode_app(app)) == Ok::<AppView, CliError>(app),
{
    let members = encode_app(app)->Object_0;
    let fields = seq![Field::Config, Field::Wallet, Field::GasBudget, Field::Json, Field::Command];
    lemma_members_by_field(members, fields);
    assert(fields[0] == Field::Config && fields[1] == Field::Wallet && fields[2]
        == Field::GasBudget && fields[3] == Field::Json && fields[4] == Field::Command);
    lemma_command_round_trip(app.command);
}

} // verus!
