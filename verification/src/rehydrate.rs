//! Resolving an invocation that stands for a JSON document into the
//! invocation that the document holds.
//!
//! An invocation whose operation is `json` carries no work of its own. The
//! document it points to, given inline or found on standard input, is read
//! as a whole invocation, which takes its place and writes its results as
//! JSON whatever the document says. The invocation read may again be a
//! `json` one; nothing bounds how often that happens. The library offers one
//! round and a walk along inline documents that stops after a number of
//! rounds the caller chooses; who needs the unbounded walk repeats it.

use vstd::prelude::*;
use crate::command::{App, AppView, Commands, CommandsView};
use crate::error::CliError;
use crate::json::{parsed_json, JsonDoc, JsonValue};
use crate::schema::{app_result, decode_app, lemma_decoded_is_in_order};

verus! {

/// Where an invocation takes its document from.
#[derive(Clone, Copy, Debug, PartialEq, Eq, Structural)]
pub enum DocumentSource {
    /// The invocation is one to carry out; it needs no document.
    Nowhere,
    /// The invocation holds the document.
    Inline,
    /// The document is the whole of standard input.
    StandardInput,
}

/// Where an invocation takes its document from.
pub open spec fn document_source(app: AppView) -> DocumentSource {
    match app.command {
        CommandsView::Json { command_string: Some(_) } => DocumentSource::Inline,
        CommandsView::Json { command_string: None } => DocumentSource::StandardInput,
        _ => DocumentSource::Nowhere,
    }
}

/// The invocation that a document holds, set to write its results as JSON.
pub open spec fn rehydrated_document(doc: JsonDoc) -> Result<AppView, CliError> {
    match decode_app(doc) {
        Ok(app) => Ok(AppView { json: true, ..app }),
        Err(e) => Err(e),
    }
}

/// The invocation that a text holds, set to write its results as JSON.
pub open spec fn rehydrated(text: Seq<char>) -> Result<AppView, CliError> {
    match parsed_json(text) {
        Some(doc) => rehydrated_document(doc),
        None => Err(CliError::MalformedJson),
    }
}

/// One round: a `json` invocation gives way to the invocation in its
/// document, which is the inline one where there is one and `input`
/// otherwise. Any other invocation stays as it is.
pub open spec fn advanced(app: AppView, input: Seq<char>) -> Result<AppView, CliError> {
    match app.command {
        CommandsView::Json { command_string: Some(text) } => rehydrated(text),
        CommandsView::Json { command_string: None } => rehydrated(input),
        _ => Ok(app),
    }
}

/// At most `rounds` rounds along inline documents: the walk ends at the
/// first invocation that holds no inline document, at the first document
/// that is refused, or when the rounds are used up.
pub open spec fn followed_inline(app: AppView, rounds: nat) -> Result<AppView, CliError>
    decreases rounds,
{
    match app.command {
        CommandsView::Json { command_string: Some(text) } => if rounds == 0 {
            Ok(app)
        } else {
            match rehydrated(text) {
                Ok(next) => followed_inline(next, (rounds - 1) as nat),
                Err(e) => Err(e),
            }
        },
        _ => Ok(app),
    }
}

/// Reads the invocation that a document holds and sets it to write its
/// results as JSON.
pub fn rehydrate_document(doc: &JsonValue) -> (r: Result<App, CliError>)
    ensures
        app_result(r) == rehydrated_document(doc@),
        r matches Ok(app) ==> app.json && app@.wf(),
{
    match App::from_json(doc) {
        Ok(app) => {
            let mut app = app;
            app.json = true;
            Ok(app)
        },
        Err(e) => Err(e),
    }
}

/// Reads the invocation that a text holds and sets it to write its
/// results as JSON. Text that is no JSON document is refused as malformed.
pub fn rehydrate(text: &str) -> (r: Result<App, CliError>)
    ensures
        app_result(r) == rehydrated(text@),
        r matches Ok(app) ==> app.json && app@.wf(),
{
    match JsonValue::parse(text) {
        Some(doc) => rehydrate_document(&doc),
        None => Err(CliError::MalformedJson),
    }
}

impl App {
    /// Where this invocation takes its document from.
    pub fn document_source(&self) -> (r: DocumentSource)
        ensures
            r == document_source(self@),
    {
        match &self.command {
            Commands::Json { command_string: Some(_) } => DocumentSource::Inline,
            Commands::Json { command_string: None } => DocumentSource::StandardInput,
            _ => DocumentSource::Nowhere,
        }
    }

    /// One round, see [`advanced`]. `input` is what standard input holds;
    /// it is looked at only where the invocation asks for it.
    pub fn advance(self, input: &str) -> (r: Result<App, CliError>)
        ensures
            app_result(r) == advanced(self@, input@),
            !self@.command.is_concrete() ==> (r matches Ok(app) ==> app.json),
    {
        match &self.command {
            Commands::Json { command_string: Some(text) } => rehydrate(text.as_str()),
            Commands::Json { command_string: None } => rehydrate(input),
            _ => Ok(self),
        }
    }

    /// At most `rounds` rounds along inline documents, see
    /// [`followed_inline`].
    pub fn follow_inline(self, rounds: u64) -> (r: Result<App, CliError>)
        ensures
            app_result(r) == followed_inline(self@, rounds as nat),
    {
        let mut app = self;
        let mut left: u64 = rounds;
        while left > 0
            invariant
                followed_inline(self@, rounds as nat) == followed_inline(app@, left as nat),
            decreases left,
        {
            let next = match &app.command {
                Commands::Json { command_string: Some(text) } => rehydrate(text.as_str()),
                _ => {
                    return Ok(app);
                },
            };
            match next {
                Ok(next) => {
                    app = next;
                },
                Err(e) => {
                    return Err(e);
                },
            }
            left -= 1;
        }
        Ok(app)
    }
}

/// Every invocation that comes out of a document writes its results as
/// JSON, and is in order.
pub proof fn lemma_rehydrated_writes_json(text: Seq<char>)
    ensures
        rehydrated(text) matches Ok(app) ==> app.json && app.wf(),
{
    if let Some(doc) = parsed_json(text) {
        lemma_decoded_is_in_order(doc);
    }
}

/// Where the document of a `json` invocation holds an operation to carry
/// out, one round ends the walk: the invocation it gives is one to carry
/// out, writes its results as JSON, and further rounds leave it as it is.
pub proof fn lemma_one_round_suffices(app: AppView, input: Seq<char>)
    requires
        app.command is Json,
        advanced(app, input) matches Ok(next) && next.command.is_concrete(),
    ensures
        !app.command.is_concrete(),
        advanced(app, input) matches Ok(next) && next.json && next.command.is_concrete()
            && forall|more: Seq<char>| advanced(next, more) == Ok::<AppView, CliError>(next),
{
}

/// Where the inline document of a `json` invocation holds an operation to
/// carry out, a walk of one round or more ends after the first, and a walk
/// of no round does not get there.
pub proof fn lemma_inline_walk_takes_one_round(app: AppView, text: Seq<char>, rounds: nat)
    requires
        app.command == (CommandsView::Json { command_string: Some(text) }),
        rehydrated(text) matches Ok(next) && next.command.is_concrete(),
        rounds >= 1,
    ensures
        followed_inline(app, rounds) == rehydrated(text),
        followed_inline(app, rounds) matches Ok(next) && next.json && next.command.is_concrete(),
        followed_inline(app, 0) == Ok::<AppView, CliError>(app),
{
    let next = rehydrated(text)->Ok_0;
    assert(followed_inline(next, (rounds - 1) as nat) == Ok::<AppView, CliError>(next));
}

} // verus!
