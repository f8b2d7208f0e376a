//! Why an invocation is turned down before anything is asked of the outside.

use vstd::prelude::*;

verus! {

/// The fields of an invocation document.
#[derive(Clone, Copy, Debug, PartialEq, Eq, Structural)]
pub enum Field {
    Config,
    Wallet,
    GasBudget,
    Json,
    Command,
    File,
    Epochs,
    Force,
    BlobId,
    Out,
    RpcUrl,
    Timeout,
    BindAddress,
    Blocklist,
    MaxBodySizeKib,
    Dev,
    CommandString,
    NShards,
}

/// Why an invocation is turned down.
#[derive(Clone, Copy, Debug, PartialEq, Eq, Structural)]
pub enum CliError {
    /// The text is not a JSON document.
    MalformedJson,
    /// The document is not an object.
    NotAnObject,
    /// The `command` member is not an object with exactly one member.
    CommandShape,
    /// The `command` member names no operation that there is.
    UnknownCommand,
    /// The arguments of the operation are not an object.
    ArgumentsShape,
    /// A field that has no default is not there.
    MissingField(Field),
    /// A field holds a value of the wrong kind or out of its range.
    InvalidField(Field),
    /// Neither a file nor a blob identifier says which blob is meant.
    MissingTarget,
    /// Both a file and a blob identifier say which blob is meant.
    AmbiguousTarget,
    /// A blob was to be stored for no epoch at all.
    ZeroEpochs,
    /// Information on the system was asked for with JSON output.
    InfoInJsonMode,
}

impl Field {
    /// The name of the field in an invocation document.
    pub open spec fn name(self) -> Seq<char> {
        match self {
            Field::Config => "config"@,
            Field::Wallet => "wallet"@,
            Field::GasBudget => "gasBudget"@,
            Field::Json => "json"@,
            Field::Command => "command"@,
            Field::File => "file"@,
            Field::Epochs => "epochs"@,
            Field::Force => "force"@,
            Field::BlobId => "blobId"@,
            Field::Out => "out"@,
            Field::RpcUrl => "rpcUrl"@,
            Field::Timeout => "timeout"@,
            Field::BindAddress => "bindAddress"@,
            Field::Blocklist => "blocklist"@,
            Field::MaxBodySizeKib => "maxBodySizeKib"@,
            Field::Dev => "dev"@,
            Field::CommandString => "commandString"@,
            Field::NShards => "nShards"@,
        }
    }

    /// The name of the field in an invocation document.
    pub fn as_str(self) -> (r: &'static str)
        ensures
            r@ == self.name(),
    {
        match self {
            Field::Config => "config",
            Field::Wallet => "wallet",
            Field::GasBudget => "gasBudget",
            Field::Json => "json",
            Field::Command => "command",
            Field::File => "file",
            Field::Epochs => "epochs",
            Field::Force => "force",
            Field::BlobId => "blobId",
            Field::Out => "out",
            Field::RpcUrl => "rpcUrl",
            Field::Timeout => "timeout",
            Field::BindAddress => "bindAddress",
            Field::Blocklist => "blocklist",
            Field::MaxBodySizeKib => "maxBodySizeKib",
            Field::Dev => "dev",
            Field::CommandString => "commandString",
            Field::NShards => "nShards",
        }
    }
}

/// The kinds of refusal.
#[derive(Clone, Copy, Debug, PartialEq, Eq, Structural)]
pub enum ErrorKind {
    /// The invocation is well formed as a document or a command line, but
    /// asks for what is not allowed.
    Validation,
    /// The text is no JSON, or the document is no invocation.
    Deserialization,
}

impl CliError {
    /// Whether the error is one of validation: the invocation is well
    /// formed as a document or a command line, but asks for what is not
    /// allowed.
    pub open spec fn is_validation(self) -> bool {
        self is MissingTarget || self is AmbiguousTarget || self is ZeroEpochs
            || self is InfoInJsonMode
    }

    /// The kind of the error: every error that is not one of validation
    /// is one of deserialization.
    pub open spec fn spec_kind(self) -> ErrorKind {
        if self.is_validation() {
            ErrorKind::Validation
        } else {
            ErrorKind::Deserialization
        }
    }

    /// The kind of the error.
    pub fn kind(&self) -> (r: ErrorKind)
        ensures
            r == self.spec_kind(),
    {
        match self {
            CliError::MissingTarget
            | CliError::AmbiguousTarget
            | CliError::ZeroEpochs
            | CliError::InfoInJsonMode => ErrorKind::Validation,
            _ => ErrorKind::Deserialization,
        }
    }

    /// The sentence that tells a person of the error.
    pub open spec fn message(self) -> Seq<char> {
        match self {
            CliError::MalformedJson => "the input is not valid JSON"@,
            CliError::NotAnObject => "the invocation must be a JSON object"@,
            CliError::CommandShape => "the command must be an object with exactly one member"@,
            CliError::UnknownCommand => "unknown command"@,
            CliError::ArgumentsShape => "the arguments of the command must be a JSON object"@,
            CliError::MissingField(field) => "missing field `"@ + field.name() + "`"@,
            CliError::InvalidField(field) => "invalid value for field `"@ + field.name() + "`"@,
            CliError::MissingTarget => "either the file or blob ID must be defined"@,
            CliError::AmbiguousTarget => "only one of the file and the blob ID may be defined"@,
            CliError::ZeroEpochs => "the number of epochs must be at least 1"@,
            CliError::InfoInJsonMode => "the info command is not available in JSON mode"@,
        }
    }

    /// The sentence that tells a person of the error.
    pub fn describe(&self) -> (r: String)
        ensures
            r@ == self.message(),
    {
        match self {
            CliError::MalformedJson => String::from_str("the input is not valid JSON"),
            CliError::NotAnObject => String::from_str("the invocation must be a JSON object"),
            CliError::CommandShape => String::from_str(
                "the command must be an object with exactly one member",
            ),
            CliError::UnknownCommand => String::from_str("unknown command"),
            CliError::ArgumentsShape => String::from_str(
                "the arguments of the command must be a JSON object",
            ),
            CliError::MissingField(field) => {
                let mut out = String::from_str("missing field `");
                out.append(field.as_str());
                out.append("`");
                out
            },
            CliError::InvalidField(field) => {
                let mut out = String::from_str("invalid value for field `");
                out.append(field.as_str());
                out.append("`");
                out
            },
            CliError::MissingTarget => String::from_str(
                "either the file or blob ID must be defined",
            ),
            CliError::AmbiguousTarget => String::from_str(
                "only one of the file and the blob ID may be defined",
            ),
            CliError::ZeroEpochs => String::from_str("the number of epochs must be at least 1"),
            CliError::InfoInJsonMode => String::from_str(
                "the info command is not available in JSON mode",
            ),
        }
    }
}

} // verus!
