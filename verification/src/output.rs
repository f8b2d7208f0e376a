//! What the operations report, and the two ways in which a report is
//! written: as text for people, and as a JSON document for programs.
//!
//! Both hold the same facts. In the document a member whose value is absent
//! is left out, and the bytes of a blob are there exactly when they were not
//! written to a file, be they many or none.

use vstd::prelude::*;
use serde_with::SerializeAs;
use crate::blob_id::BlobId;
use crate::command::opt_text;
use crate::json::{
    json_text, lemma_lookup_absent, lemma_lookup_at, lemma_member_view, member, JsonDoc, JsonValue,
};
use crate::sizing::{
    encoded_blob_length, encoded_blob_length_for_n_shards, lemma_encoded_length_exceeds,
    lemma_free_at_price_zero, mist_price_per_blob_size, price_or_zero,
    price_per_unit_size_or_default, storage_cost,
};
use crate::status::{
    event_text, stage_name, BlobCertificationStatus, BlobStatus, BlobStatusView, EventId,
    EventIdView,
};
use crate::style::{bold, error, is_error_mark, is_plain, is_success_mark, shows, success};
use crate::text::{decimal, decimal_string, push_decimal};
use crate::units::{human_bytes, human_mist, push_human_bytes, push_human_mist};

verus! {

/// The object on chain that stands for a stored blob.
#[derive(Clone, Debug, PartialEq, Eq)]
pub struct BlobObject {
    /// The identifier of the object on chain, as the chain writes it.
    pub id: String,
    pub blob_id: BlobId,
    /// The size of the blob before encoding, in bytes.
    pub size: u64,
}

/// How an attempt to store a blob ended.
#[derive(Clone, Debug, PartialEq, Eq)]
pub enum BlobStoreResult {
    /// The blob was certified already, for long enough.
    AlreadyCertified { blob_id: BlobId, event: EventId, end_epoch: u64 },
    /// The blob was stored and is new on chain.
    NewlyCreated(BlobObject),
    /// The blob is marked as invalid.
    MarkedInvalid { blob_id: BlobId, event: EventId },
}

/// The output of the `store` command.
#[derive(Clone, Debug, PartialEq, Eq)]
pub struct StoreOutput {
    pub result: BlobStoreResult,
    pub n_shards: u16,
    pub price_per_unit_size: u64,
}

/// The output of the `read` command.
#[derive(Clone, Debug, PartialEq, Eq)]
pub struct ReadOutput {
    pub out: Option<String>,
    pub blob_id: BlobId,
    /// The bytes of the blob; none where they went to a file.
    pub blob: Vec<u8>,
}

/// The output of the `blob-id` command.
#[derive(Clone, Debug, PartialEq, Eq)]
pub struct BlobIdOutput {
    pub blob_id: BlobId,
    pub file: String,
    pub unencoded_length: u64,
}

/// The output of the `blob-status` command.
#[derive(Clone, Debug, PartialEq, Eq)]
pub struct BlobStatusOutput {
    pub blob_id: BlobId,
    pub file: Option<String>,
    pub status: BlobStatus,
}

/// The content of a [`BlobObject`].
pub struct BlobObjectView {
    pub id: Seq<char>,
    pub blob_id: BlobId,
    pub size: u64,
}

/// The content of a [`BlobStoreResult`].
pub enum BlobStoreResultView {
    AlreadyCertified { blob_id: BlobId, event: EventIdView, end_epoch: u64 },
    NewlyCreated(BlobObjectView),
    MarkedInvalid { blob_id: BlobId, event: EventIdView },
}

/// The content of a [`StoreOutput`].
pub struct StoreOutputView {
    pub result: BlobStoreResultView,
    pub n_shards: u16,
    pub price_per_unit_size: u64,
}

/// The content of a [`ReadOutput`].
pub struct ReadOutputView {
    pub out: Option<Seq<char>>,
    pub blob_id: BlobId,
    pub blob: Seq<u8>,
}

/// The content of a [`BlobIdOutput`].
pub struct BlobIdOutputView {
    pub blob_id: BlobId,
    pub file: Seq<char>,
    pub unencoded_length: u64,
}

/// The content of a [`BlobStatusOutput`].
pub struct BlobStatusOutputView {
    pub blob_id: BlobId,
    pub file: Option<Seq<char>>,
    pub status: BlobStatusView,
}

impl View for BlobObject {
    type V = BlobObjectView;

    open spec fn view(&self) -> BlobObjectView {
        BlobObjectView { id: self.id@, blob_id: self.blob_id, size: self.size }
    }
}

impl View for BlobStoreResult {
    type V = BlobStoreResultView;

    open spec fn view(&self) -> BlobStoreResultView {
        match self {
            BlobStoreResult::AlreadyCertified {
                blob_id,
                event,
                end_epoch,
            } => BlobStoreResultView::AlreadyCertified {
                blob_id: *blob_id,
                event: event@,
                end_epoch: *end_epoch,
            },
            BlobStoreResult::NewlyCreated(blob) => BlobStoreResultView::NewlyCreated(blob@),
            BlobStoreResult::MarkedInvalid { blob_id, event } => BlobStoreResultView::MarkedInvalid {
                blob_id: *blob_id,
                event: event@,
            },
        }
    }
}

impl View for StoreOutput {
    type V = StoreOutputView;

    open spec fn view(&self) -> StoreOutputView {
        StoreOutputView {
            result: self.result@,
            n_shards: self.n_shards,
            price_per_unit_size: self.price_per_unit_size,
        }
    }
}

impl View for ReadOutput {
    type V = ReadOutputView;

    open spec fn view(&self) -> ReadOutputView {
        ReadOutputView { out: opt_text(self.out), blob_id: self.blob_id, blob: self.blob@ }
    }
}

impl View for BlobIdOutput {
    type V = BlobIdOutputView;

    open spec fn view(&self) -> BlobIdOutputView {
        BlobIdOutputView {
            blob_id: self.blob_id,
            file: self.file@,
            unencoded_length: self.unencoded_length,
        }
    }
}

impl View for BlobStatusOutput {
    type V = BlobStatusOutputView;

    open spec fn view(&self) -> BlobStatusOutputView {
        BlobStatusOutputView {
            blob_id: self.blob_id,
            file: opt_text(self.file),
            status: self.status@,
        }
    }
}

/// Bytes as standard base64 with padding, as `serde_with` writes them.
pub uninterp spec fn base64_padded(bytes: Seq<u8>) -> Seq<char>;

/// `serde_with::base64::Base64` with the standard alphabet and padding,
/// serialising into a `serde_json::Value`: the bytes as a base64 string.
#[verifier::external_body]
fn encode_base64(bytes: &Vec<u8>) -> (r: String)
    ensures
        r@ == base64_padded(bytes@),
{
    match serde_with::base64::Base64::<
        serde_with::base64::Standard,
        serde_with::formats::Padded,
    >::serialize_as(bytes, serde_json::value::Serializer) {
        Ok(serde_json::Value::String(text)) => text,
        _ => String::new(),
    }
}

impl StoreOutputView {
    /// The encoded size that a report of a new blob states.
    pub open spec fn encoded_size(self) -> Option<int> {
        match self.result {
            BlobStoreResultView::NewlyCreated(blob) => encoded_blob_length(self.n_shards, blob.size),
            _ => None,
        }
    }

    /// The cost that a report of a new blob states.
    pub open spec fn cost(self) -> Option<int> {
        match self.result {
            BlobStoreResultView::NewlyCreated(blob) => storage_cost(
                self.n_shards,
                blob.size,
                self.price_per_unit_size,
            ),
            _ => None,
        }
    }

    /// The output can be reported: there is a shard at least, and a new
    /// blob has an encoded size and a cost.
    pub open spec fn wf(self) -> bool {
        &&& self.n_shards >= 1
        &&& self.result is NewlyCreated ==> self.encoded_size() is Some && self.cost() is Some
    }

    /// Whether the attempt ended well: anything but a blob marked invalid.
    pub open spec fn is_success(self) -> bool {
        !(self.result is MarkedInvalid)
    }

    /// Whether `mark` is the mark that opens the report.
    pub open spec fn takes_mark(self, mark: Seq<char>) -> bool {
        if self.is_success() {
            is_success_mark(mark)
        } else {
            is_error_mark(mark)
        }
    }

    /// The report for people, opened by `mark`.
    pub open spec fn report(self, mark: Seq<char>) -> Seq<char> {
        match self.result {
            BlobStoreResultView::AlreadyCertified { blob_id, event, end_epoch } => mark
                + " Blob was previously certified within Walrus for a sufficient period.\nBlob ID: "@
                + blob_id.text() + "\nCertification event ID: "@ + event_text(event)
                + "\nEnd epoch (exclusive): "@ + decimal(end_epoch as nat),
            BlobStoreResultView::NewlyCreated(blob) => mark
                + " Blob stored successfully.\nBlob ID: "@ + blob.blob_id.text()
                + "\nUnencoded size: "@ + human_bytes(blob.size)
                + "\nEncoded size (including metadata): "@ + human_bytes(
                self.encoded_size()->0 as u64,
            ) + "\nSui object ID: "@ + blob.id + "\nCost (excluding gas): "@ + human_mist(
                self.cost()->0 as u64,
            ),
            BlobStoreResultView::MarkedInvalid { blob_id, event } => mark
                + " Blob was marked as invalid.\nBlob ID: "@ + blob_id.text()
                + "\nInvalidation event ID: "@ + event_text(event),
        }
    }

    /// Whether `out` is the report for people: the report opened by a mark
    /// that it takes.
    pub open spec fn is_report(self, out: Seq<char>) -> bool {
        exists|mark: Seq<char>| self.takes_mark(mark) && out == #[trigger] self.report(mark)
    }
}

/// The object that stands for an event.
pub open spec fn event_doc(event: EventIdView) -> JsonDoc {
    JsonDoc::Object(
        seq![
            ("txDigest"@, JsonDoc::Text(event.tx_digest)),
            ("eventSeq"@, JsonDoc::Text(decimal(event.event_seq as nat))),
        ],
    )
}

/// The object that stands for a blob object.
pub open spec fn blob_object_doc(blob: BlobObjectView) -> JsonDoc {
    JsonDoc::Object(
        seq![
            ("id"@, JsonDoc::Text(blob.id)),
            ("blobId"@, JsonDoc::Text(blob.blob_id.text())),
            ("size"@, JsonDoc::Number(blob.size)),
        ],
    )
}

impl StoreOutputView {
    /// The object that stands for the result: one member, named after how
    /// the attempt ended, with the facts of the report.
    pub open spec fn result_doc(self) -> JsonDoc {
        match self.result {
            BlobStoreResultView::AlreadyCertified { blob_id, event, end_epoch } => JsonDoc::Object(
                seq![
                    (
                        "alreadyCertified"@,
                        JsonDoc::Object(
                            seq![
                                ("blobId"@, JsonDoc::Text(blob_id.text())),
                                ("event"@, event_doc(event)),
                                ("endEpoch"@, JsonDoc::Number(end_epoch)),
                            ],
                        ),
                    ),
                ],
            ),
            BlobStoreResultView::NewlyCreated(blob) => JsonDoc::Object(
                seq![
                    (
                        "newlyCreated"@,
                        JsonDoc::Object(
                            seq![
                                ("blobObject"@, blob_object_doc(blob)),
                                ("encodedSize"@, JsonDoc::Number(self.encoded_size()->0 as u64)),
                                ("cost"@, JsonDoc::Number(self.cost()->0 as u64)),
                            ],
                        ),
                    ),
                ],
            ),
            BlobStoreResultView::MarkedInvalid { blob_id, event } => JsonDoc::Object(
                seq![
                    (
                        "markedInvalid"@,
                        JsonDoc::Object(
                            seq![
                                ("blobId"@, JsonDoc::Text(blob_id.text())),
                                ("event"@, event_doc(event)),
                            ],
                        ),
                    ),
                ],
            ),
        }
    }

    /// The document for programs.
    pub open spec fn document(self) -> JsonDoc {
        JsonDoc::Object(
            seq![
                ("result"@, self.result_doc()),
                ("nShards"@, JsonDoc::Number(self.n_shards as u64)),
                ("pricePerUnitSize"@, JsonDoc::Number(self.price_per_unit_size)),
            ],
        )
    }
}

impl EventId {
    /// The object that stands for this event.
    pub fn to_json(&self) -> (r: JsonValue)
        ensures
            r@ == event_doc(self@),
    {
        let mut members: Vec<(String, JsonValue)> = Vec::new();
        members.push(JsonValue::member("txDigest", JsonValue::text(self.tx_digest.as_str())));
        members.push(JsonValue::member("eventSeq", JsonValue::Text(decimal_string(self.event_seq))));
        let r = JsonValue::object(members);
        assert(r@->Object_0 =~= event_doc(self@)->Object_0);
        r
    }
}

impl BlobObject {
    /// The object that stands for this blob object.
    pub fn to_json(&self) -> (r: JsonValue)
        ensures
            r@ == blob_object_doc(self@),
    {
        let mut members: Vec<(String, JsonValue)> = Vec::new();
        members.push(JsonValue::member("id", JsonValue::text(self.id.as_str())));
        members.push(JsonValue::member("blobId", JsonValue::Text(self.blob_id.to_text())));
        members.push(JsonValue::member("size", JsonValue::Number(self.size)));
        let r = JsonValue::object(members);
        assert(r@->Object_0 =~= blob_object_doc(self@)->Object_0);
        r
    }
}

fn tagged(name: &str, members: Vec<(String, JsonValue)>) -> (r: JsonValue)
    ensures
        r@ == JsonDoc::Object(seq![(name@, JsonValue::Object(members)@)]),
{
    let mut outer: Vec<(String, JsonValue)> = Vec::new();
    outer.push(JsonValue::member(name, JsonValue::Object(members)));
    let r = JsonValue::object(outer);
    assert(r@->Object_0 =~= seq![(name@, JsonValue::Object(members)@)]);
    r
}

impl StoreOutput {
    /// The output of a store that ended in `result`. `price_lookup` is the
    /// price per unit that the chain gave; where the lookup failed the price
    /// counts as zero, and the store is reported all the same.
    pub fn new(result: BlobStoreResult, n_shards: u16, price_lookup: Option<u64>) -> (r: StoreOutput)
        ensures
            r.result == result,
            r.n_shards == n_shards,
            r.price_per_unit_size == price_or_zero(price_lookup),
    {
        StoreOutput {
            result,
            n_shards,
            price_per_unit_size: price_per_unit_size_or_default(price_lookup),
        }
    }

    /// Whether the output can be reported, see [`StoreOutputView::wf`].
    pub fn is_valid(&self) -> (r: bool)
        ensures
            r == self@.wf(),
    {
        if self.n_shards == 0 {
            return false;
        }
        match &self.result {
            BlobStoreResult::NewlyCreated(blob) => {
                encoded_blob_length_for_n_shards(self.n_shards, blob.size).is_some()
                    && mist_price_per_blob_size(
                    blob.size,
                    self.n_shards,
                    self.price_per_unit_size,
                ).is_some()
            },
            _ => true,
        }
    }

    /// Whether the attempt ended well.
    pub fn is_success(&self) -> (r: bool)
        ensures
            r == self@.is_success(),
    {
        match self.result {
            BlobStoreResult::MarkedInvalid { .. } => false,
            _ => true,
        }
    }

    /// The report for people, opened by `mark`.
    pub fn report(&self, mark: &str) -> (r: String)
        requires
            self@.wf(),
        ensures
            r@ == self@.report(mark@),
    {
        let mut out = String::from_str(mark);
        match &self.result {
            BlobStoreResult::AlreadyCertified { blob_id, event, end_epoch } => {
                out.append(
                    " Blob was previously certified within Walrus for a sufficient period.\nBlob ID: ",
                );
                out.append(blob_id.to_text().as_str());
                out.append("\nCertification event ID: ");
                out.append(event.format().as_str());
                out.append("\nEnd epoch (exclusive): ");
                push_decimal(&mut out, *end_epoch);
            },
            BlobStoreResult::NewlyCreated(blob) => {
                let encoded_size = match encoded_blob_length_for_n_shards(self.n_shards, blob.size) {
                    Some(size) => size,
                    None => 0,
                };
                let price = match mist_price_per_blob_size(
                    blob.size,
                    self.n_shards,
                    self.price_per_unit_size,
                ) {
                    Some(price) => price,
                    None => 0,
                };
                out.append(" Blob stored successfully.\nBlob ID: ");
                out.append(blob.blob_id.to_text().as_str());
                out.append("\nUnencoded size: ");
                push_human_bytes(&mut out, blob.size);
                out.append("\nEncoded size (including metadata): ");
                push_human_bytes(&mut out, encoded_size);
                out.append("\nSui object ID: ");
                out.append(blob.id.as_str());
                out.append("\nCost (excluding gas): ");
                push_human_mist(&mut out, price);
            },
            BlobStoreResult::MarkedInvalid { blob_id, event } => {
                out.append(" Blob was marked as invalid.\nBlob ID: ");
                out.append(blob_id.to_text().as_str());
                out.append("\nInvalidation event ID: ");
                out.append(event.format().as_str());
            },
        }
        assert(out@ =~= self@.report(mark@));
        out
    }

    /// The report for people: [`StoreOutput::report`] opened by the mark of
    /// a success, or by that of a failure for a blob marked invalid.
    pub fn to_text(&self) -> (r: String)
        requires
            self@.wf(),
        ensures
            self@.is_report(r@),
    {
        let mark = if self.is_success() {
            success()
        } else {
            error()
        };
        let r = self.report(mark.as_str());
        assert(self@.takes_mark(mark@) && r@ == self@.report(mark@));
        r
    }

    /// The document for programs.
    pub fn to_json(&self) -> (r: JsonValue)
        requires
            self@.wf(),
        ensures
            r@ == self@.document(),
    {
        let mut fields: Vec<(String, JsonValue)> = Vec::new();
        let result = match &self.result {
            BlobStoreResult::AlreadyCertified { blob_id, event, end_epoch } => {
                fields.push(JsonValue::member("blobId", JsonValue::Text(blob_id.to_text())));
                fields.push(JsonValue::member("event", event.to_json()));
                fields.push(JsonValue::member("endEpoch", JsonValue::Number(*end_epoch)));
                proof {
                    lemma_member_view(fields);
                    let expected = self@.result_doc()->Object_0[0].1->Object_0;
                    assert(JsonValue::Object(fields)@->Object_0 =~= expected);
                }
                tagged("alreadyCertified", fields)
            },
            BlobStoreResult::NewlyCreated(blob) => {
                let encoded_size = match encoded_blob_length_for_n_shards(self.n_shards, blob.size) {
                    Some(size) => size,
                    None => 0,
                };
                let price = match mist_price_per_blob_size(
                    blob.size,
                    self.n_shards,
                    self.price_per_unit_size,
                ) {
                    Some(price) => price,
                    None => 0,
                };
                fields.push(JsonValue::member("blobObject", blob.to_json()));
                fields.push(JsonValue::member("encodedSize", JsonValue::Number(encoded_size)));
                fields.push(JsonValue::member("cost", JsonValue::Number(price)));
                proof {
                    lemma_member_view(fields);
                    let expected = self@.result_doc()->Object_0[0].1->Object_0;
                    assert(JsonValue::Object(fields)@->Object_0 =~= expected);
                }
                tagged("newlyCreated", fields)
            },
            BlobStoreResult::MarkedInvalid { blob_id, event } => {
                fields.push(JsonValue::member("blobId", JsonValue::Text(blob_id.to_text())));
                fields.push(JsonValue::member("event", event.to_json()));
                proof {
                    lemma_member_view(fields);
                    let expected = self@.result_doc()->Object_0[0].1->Object_0;
                    assert(JsonValue::Object(fields)@->Object_0 =~= expected);
                }
                tagged("markedInvalid", fields)
            },
        };
        assert(result@ == self@.result_doc());
        let mut members: Vec<(String, JsonValue)> = Vec::new();
        members.push(JsonValue::member("result", result));
        members.push(JsonValue::member("nShards", JsonValue::Number(self.n_shards as u64)));
        members.push(
            JsonValue::member("pricePerUnitSize", JsonValue::Number(self.price_per_unit_size)),
        );
        let r = JsonValue::object(members);
        assert(r@->Object_0 =~= self@.document()->Object_0);
        r
    }
}

impl ReadOutputView {
    /// The report for people, opened by `mark`: where the blob went to a
    /// file, that it did; else nothing, the blob itself being the output.
    pub open spec fn report(self, mark: Seq<char>) -> Seq<char> {
        match self.out {
            Some(path) => mark + " Blob "@ + self.blob_id.text()
                + " reconstructed from Walrus and written to "@ + path + "."@,
            None => Seq::empty(),
        }
    }

    /// Whether `out` is the report for people.
    pub open spec fn is_report(self, out: Seq<char>) -> bool {
        exists|mark: Seq<char>| is_success_mark(mark) && out == #[trigger] self.report(mark)
    }

    /// The members of the document. Where the blob went to a file: the
    /// path and the identifier. Where it did not: the identifier and the
    /// bytes in base64, also when there are no bytes.
    pub open spec fn members(self) -> Seq<(Seq<char>, JsonDoc)> {
        match self.out {
            Some(path) => seq![
                ("out"@, JsonDoc::Text(path)),
                ("blobId"@, JsonDoc::Text(self.blob_id.text())),
            ],
            None => seq![
                ("blobId"@, JsonDoc::Text(self.blob_id.text())),
                ("blob"@, JsonDoc::Text(base64_padded(self.blob))),
            ],
        }
    }

    /// The document for programs.
    pub open spec fn document(self) -> JsonDoc {
        JsonDoc::Object(self.members())
    }
}

impl ReadOutput {
    /// The output of reading `orig_blob`. Where the blob went to a file its
    /// bytes are dropped, so that no document carries them a second time.
    pub fn new(out: Option<String>, blob_id: BlobId, orig_blob: Vec<u8>) -> (r: ReadOutput)
        ensures
            r.out == out,
            r.blob_id == blob_id,
            r.blob@ == if out is Some {
                Seq::<u8>::empty()
            } else {
                orig_blob@
            },
    {
        let blob = if out.is_some() {
            Vec::new()
        } else {
            orig_blob
        };
        ReadOutput { out, blob_id, blob }
    }

    /// The report for people, opened by `mark`.
    pub fn report(&self, mark: &str) -> (r: String)
        ensures
            r@ == self@.report(mark@),
    {
        match &self.out {
            Some(path) => {
                let mut out = String::from_str(mark);
                out.append(" Blob ");
                out.append(self.blob_id.to_text().as_str());
                out.append(" reconstructed from Walrus and written to ");
                out.append(path.as_str());
                out.append(".");
                assert(out@ =~= self@.report(mark@));
                out
            },
            None => String::new(),
        }
    }

    /// The report for people: [`ReadOutput::report`] opened by the mark of a
    /// success.
    pub fn to_text(&self) -> (r: String)
        ensures
            self@.is_report(r@),
    {
        let mark = success();
        let r = self.report(mark.as_str());
        assert(is_success_mark(mark@) && r@ == self@.report(mark@));
        r
    }

    /// The document for programs.
    pub fn to_json(&self) -> (r: JsonValue)
        ensures
            r@ == self@.document(),
    {
        let mut members: Vec<(String, JsonValue)> = Vec::new();
        match &self.out {
            Some(path) => {
                members.push(JsonValue::member("out", JsonValue::text(path.as_str())));
            },
            None => {},
        }
        members.push(JsonValue::member("blobId", JsonValue::Text(self.blob_id.to_text())));
        if self.out.is_none() {
            members.push(JsonValue::member("blob", JsonValue::Text(encode_base64(&self.blob))));
        }
        let r = JsonValue::object(members);
        assert(r@->Object_0 =~= self@.members());
        r
    }
}

impl BlobIdOutputView {
    /// The report for people, opened by `mark`.
    pub open spec fn report(self, mark: Seq<char>) -> Seq<char> {
        mark + " Blob encoded successfully: "@ + self.file + ".\nUnencoded size: "@ + decimal(
            self.unencoded_length as nat,
        ) + "\nBlob ID: "@ + self.blob_id.text()
    }

    /// Whether `out` is the report for people.
    pub open spec fn is_report(self, out: Seq<char>) -> bool {
        exists|mark: Seq<char>| is_success_mark(mark) && out == #[trigger] self.report(mark)
    }

    /// The document for programs.
    pub open spec fn document(self) -> JsonDoc {
        JsonDoc::Object(
            seq![
                ("blobId"@, JsonDoc::Text(self.blob_id.text())),
                ("file"@, JsonDoc::Text(self.file)),
                ("unencodedLength"@, JsonDoc::Number(self.unencoded_length)),
            ],
        )
    }
}

impl BlobIdOutput {
    /// The output for the blob in `file`.
    pub fn new(file: &str, blob_id: BlobId, unencoded_length: u64) -> (r: BlobIdOutput)
        ensures
            r@ == (BlobIdOutputView { blob_id, file: file@, unencoded_length }),
    {
        BlobIdOutput { blob_id, file: String::from_str(file), unencoded_length }
    }

    /// The report for people, opened by `mark`.
    pub fn report(&self, mark: &str) -> (r: String)
        ensures
            r@ == self@.report(mark@),
    {
        let mut out = String::from_str(mark);
        out.append(" Blob encoded successfully: ");
        out.append(self.file.as_str());
        out.append(".\nUnencoded size: ");
        push_decimal(&mut out, self.unencoded_length);
        out.append("\nBlob ID: ");
        out.append(self.blob_id.to_text().as_str());
        assert(out@ =~= self@.report(mark@));
        out
    }

    /// The report for people: [`BlobIdOutput::report`] opened by the mark
    /// of a success.
    pub fn to_text(&self) -> (r: String)
        ensures
            self@.is_report(r@),
    {
        let mark = success();
        let r = self.report(mark.as_str());
        assert(is_success_mark(mark@) && r@ == self@.report(mark@));
        r
    }

    /// The document for programs.
    pub fn to_json(&self) -> (r: JsonValue)
        ensures
            r@ == self@.document(),
    {
        let mut members: Vec<(String, JsonValue)> = Vec::new();
        members.push(JsonValue::member("blobId", JsonValue::Text(self.blob_id.to_text())));
        members.push(JsonValue::member("file", JsonValue::text(self.file.as_str())));
        members.push(JsonValue::member("unencodedLength", JsonValue::Number(self.unencoded_length)));
        let r = JsonValue::object(members);
        assert(r@->Object_0 =~= self@.document()->Object_0);
        r
    }
}

/// The word for a stage in a document.
pub open spec fn stage_key(status: BlobCertificationStatus) -> Seq<char> {
    match status {
        BlobCertificationStatus::Registered => "registered"@,
        BlobCertificationStatus::Certified => "certified"@,
        BlobCertificationStatus::Invalid => "invalid"@,
    }
}

/// What stands for a status in a document: the word `nonexistent`, or an
/// object with the one member `existent` that holds the facts.
pub open spec fn status_doc(status: BlobStatusView) -> JsonDoc {
    match status {
        BlobStatusView::Nonexistent => JsonDoc::Text("nonexistent"@),
        BlobStatusView::Existent { end_epoch, status, status_event } => JsonDoc::Object(
            seq![
                (
                    "existent"@,
                    JsonDoc::Object(
                        seq![
                            ("endEpoch"@, JsonDoc::Number(end_epoch)),
                            ("status"@, JsonDoc::Text(stage_key(status))),
                            ("statusEvent"@, event_doc(status_event)),
                        ],
                    ),
                ),
            ],
        ),
    }
}

impl BlobStatusOutputView {
    /// How the blob is named: by its identifier, and by the file where it
    /// was given as one.
    pub open spec fn label(self) -> Seq<char> {
        match self.file {
            Some(file) => self.blob_id.text() + " (file: "@ + file + ")"@,
            None => self.blob_id.text(),
        }
    }

    /// The report for people, with the stage written as `stage`.
    pub open spec fn report(self, stage: Seq<char>) -> Seq<char> {
        match self.status {
            BlobStatusView::Nonexistent => "Blob ID "@ + self.label()
                + " is not stored on Walrus."@,
            BlobStatusView::Existent { end_epoch, status, status_event } => "Status for blob ID "@
                + self.label() + ": "@ + stage + "\nEnd epoch: "@ + decimal(end_epoch as nat)
                + "\nRelated event: "@ + event_text(status_event),
        }
    }

    /// Whether `out` is the report for people: the report with the stage
    /// in bold.
    pub open spec fn is_report(self, out: Seq<char>) -> bool {
        match self.status {
            BlobStatusView::Nonexistent => out == self.report(Seq::empty()),
            BlobStatusView::Existent { status, .. } => exists|stage: Seq<char>|
                shows(stage, stage_name(status), "1"@) && out == #[trigger] self.report(stage),
        }
    }

    /// The members of the document: the identifier, the file where there
    /// is one, and the status.
    pub open spec fn members(self) -> Seq<(Seq<char>, JsonDoc)> {
        seq![("blobId"@, JsonDoc::Text(self.blob_id.text()))] + (match self.file {
            Some(file) => seq![("file"@, JsonDoc::Text(file))],
            None => Seq::empty(),
        }) + seq![("status"@, status_doc(self.status))]
    }

    /// The document for programs.
    pub open spec fn document(self) -> JsonDoc {
        JsonDoc::Object(self.members())
    }
}

impl BlobCertificationStatus {
    /// The word for this stage in a document.
    pub fn key(&self) -> (r: &'static str)
        ensures
            r@ == stage_key(*self),
    {
        match self {
            BlobCertificationStatus::Registered => "registered",
            BlobCertificationStatus::Certified => "certified",
            BlobCertificationStatus::Invalid => "invalid",
        }
    }
}

/// The words for the stages hold no escape sequence.
proof fn lemma_stage_names_plain(status: BlobCertificationStatus)
    ensures
        is_plain(stage_name(status)),
{
    reveal_strlit("Registered");
    reveal_strlit("Certified");
    reveal_strlit("Invalid");
}

impl BlobStatus {
    /// What stands for this status in a document.
    pub fn to_json(&self) -> (r: JsonValue)
        ensures
            r@ == status_doc(self@),
    {
        match self {
            BlobStatus::Nonexistent => JsonValue::text("nonexistent"),
            BlobStatus::Existent { end_epoch, status, status_event } => {
                let mut fields: Vec<(String, JsonValue)> = Vec::new();
                fields.push(JsonValue::member("endEpoch", JsonValue::Number(*end_epoch)));
                fields.push(JsonValue::member("status", JsonValue::text(status.key())));
                fields.push(JsonValue::member("statusEvent", status_event.to_json()));
                proof {
                    lemma_member_view(fields);
                    assert(JsonValue::Object(fields)@->Object_0 =~= status_doc(
                        self@,
                    )->Object_0[0].1->Object_0);
                }
                tagged("existent", fields)
            },
        }
    }
}

impl BlobStatusOutput {
    fn label(&self) -> (r: String)
        ensures
            r@ == self@.label(),
    {
        let mut out = self.blob_id.to_text();
        match &self.file {
            Some(file) => {
                out.append(" (file: ");
                out.append(file.as_str());
                out.append(")");
                assert(out@ =~= self@.label());
            },
            None => {},
        }
        out
    }

    /// The report for people, with the stage written as `stage`.
    pub fn report(&self, stage: &str) -> (r: String)
        ensures
            r@ == self@.report(stage@),
    {
        let label = self.label();
        match &self.status {
            BlobStatus::Nonexistent => {
                let mut out = String::from_str("Blob ID ");
                out.append(label.as_str());
                out.append(" is not stored on Walrus.");
                assert(out@ =~= self@.report(stage@));
                out
            },
            BlobStatus::Existent { end_epoch, status, status_event } => {
                let mut out = String::from_str("Status for blob ID ");
                out.append(label.as_str());
                out.append(": ");
                out.append(stage);
                out.append("\nEnd epoch: ");
                push_decimal(&mut out, *end_epoch);
                out.append("\nRelated event: ");
                out.append(status_event.format().as_str());
                assert(out@ =~= self@.report(stage@));
                out
            },
        }
    }

    /// The report for people: [`BlobStatusOutput::report`] with the stage
    /// in bold.
    pub fn to_text(&self) -> (r: String)
        ensures
            self@.is_report(r@),
    {
        match &self.status {
            BlobStatus::Nonexistent => {
                let r = self.report("");
                assert(r@ =~= self@.report(Seq::empty()));
                r
            },
            BlobStatus::Existent { status, .. } => {
                proof {
                    lemma_stage_names_plain(*status);
                }
                let stage = bold(status.name());
                let r = self.report(stage.as_str());
                assert(shows(stage@, stage_name(*status), "1"@) && r@ == self@.report(stage@));
                r
            },
        }
    }

    /// The document for programs.
    pub fn to_json(&self) -> (r: JsonValue)
        ensures
            r@ == self@.document(),
    {
        let mut members: Vec<(String, JsonValue)> = Vec::new();
        members.push(JsonValue::member("blobId", JsonValue::Text(self.blob_id.to_text())));
        match &self.file {
            Some(file) => {
                members.push(JsonValue::member("file", JsonValue::text(file.as_str())));
            },
            None => {},
        }
        members.push(JsonValue::member("status", self.status.to_json()));
        let r = JsonValue::object(members);
        assert(r@->Object_0 =~= self@.members());
        r
    }
}

/// The encoded size that is reported for a new blob depends on nothing
/// but the size of the blob and the number of shards, and is larger than
/// the blob.
pub proof fn lemma_reported_size_is_determined(a: StoreOutputView, b: StoreOutputView)
    requires
        a.n_shards >= 1,
        a.n_shards == b.n_shards,
        a.result matches BlobStoreResultView::NewlyCreated(blob_a)
            && b.result matches BlobStoreResultView::NewlyCreated(blob_b) && blob_a.size
            == blob_b.size,
    ensures
        a.encoded_size() == b.encoded_size(),
        a.encoded_size() == encoded_blob_length(a.n_shards, a.result->NewlyCreated_0.size),
        a.encoded_size() matches Some(size) ==> size > a.result->NewlyCreated_0.size,
{
    lemma_encoded_length_exceeds(a.n_shards, a.result->NewlyCreated_0.size);
}

/// Where the price could not be looked up, a new blob is reported at a
/// cost of zero, and as a success like any other.
pub proof fn lemma_failed_lookup_costs_nothing(output: StoreOutputView)
    requires
        output.result is NewlyCreated,
        output.encoded_size() is Some,
        output.price_per_unit_size == price_or_zero(None),
    ensures
        output.cost() == Some(0int),
        output.n_shards >= 1 ==> output.wf(),
        output.is_success(),
        forall|mark: Seq<char>| output.takes_mark(mark) <==> is_success_mark(mark),
{
    lemma_free_at_price_zero(output.n_shards, output.result->NewlyCreated_0.size);
}

/// The document of a store says all that its report says: outputs with
/// the same document have the same report.
pub proof fn lemma_store_renderings_agree(a: StoreOutputView, b: StoreOutputView, mark: Seq<char>)
    requires
        a.document() == b.document(),
    ensures
        a.report(mark) == b.report(mark),
        a.is_success() == b.is_success(),
{
    reveal_strlit("alreadyCertified");
    reveal_strlit("newlyCreated");
    reveal_strlit("markedInvalid");
    let da = a.document()->Object_0;
    let db = b.document()->Object_0;
    assert(da[0] == db[0]);
    let ra = a.result_doc()->Object_0;
    let rb = b.result_doc()->Object_0;
    assert(ra[0] == rb[0]);
    assert("alreadyCertified"@.len() != "newlyCreated"@.len());
    assert("alreadyCertified"@.len() != "markedInvalid"@.len());
    assert("newlyCreated"@.len() != "markedInvalid"@.len());
    let fa = ra[0].1->Object_0;
    let fb = rb[0].1->Object_0;
    match a.result {
        BlobStoreResultView::AlreadyCertified { event, .. } => {
            let other = b.result->AlreadyCertified_event;
            assert(fa[0] == fb[0] && fa[1] == fb[1] && fa[2] == fb[2]);
            assert(event_doc(event)->Object_0[0] == event_doc(other)->Object_0[0]);
            assert(event_doc(event)->Object_0[1] == event_doc(other)->Object_0[1]);
        },
        BlobStoreResultView::NewlyCreated(blob) => {
            let other = b.result->NewlyCreated_0;
            assert(fa[0] == fb[0] && fa[1] == fb[1] && fa[2] == fb[2]);
            let ba = blob_object_doc(blob)->Object_0;
            let bb = blob_object_doc(other)->Object_0;
            assert(ba[0] == bb[0] && ba[1] == bb[1] && ba[2] == bb[2]);
        },
        BlobStoreResultView::MarkedInvalid { event, .. } => {
            let other = b.result->MarkedInvalid_event;
            assert(fa[0] == fb[0] && fa[1] == fb[1]);
            assert(event_doc(event)->Object_0[0] == event_doc(other)->Object_0[0]);
            assert(event_doc(event)->Object_0[1] == event_doc(other)->Object_0[1]);
        },
    }
}

/// The document of a read says all that its report says.
pub proof fn lemma_read_renderings_agree(a: ReadOutputView, b: ReadOutputView, mark: Seq<char>)
    requires
        a.document() == b.document(),
    ensures
        a.report(mark) == b.report(mark),
{
    reveal_strlit("out");
    reveal_strlit("blobId");
    let ma = a.members();
    let mb = b.members();
    assert(ma[0] == mb[0]);
    assert(ma[1] == mb[1]);
    assert("out"@.len() != "blobId"@.len());
}

/// The document of a read holds the bytes of the blob exactly when the
/// blob did not go to a file, and the path exactly when it did. Bytes that
/// are left out are not there at all, and no bytes at all are still there.
pub proof fn lemma_read_document_holds_bytes(output: ReadOutputView)
    ensures
        member(output.document(), "blob"@) == match output.out {
            Some(_) => None,
            None => Some(JsonDoc::Text(base64_padded(output.blob))),
        },
        member(output.document(), "out"@) == match output.out {
            Some(path) => Some(JsonDoc::Text(path)),
            None => None,
        },
        member(output.document(), "blobId"@) == Some(JsonDoc::Text(output.blob_id.text())),
{
    reveal_strlit("out");
    reveal_strlit("blobId");
    reveal_strlit("blob");
    assert("out"@.len() != "blobId"@.len());
    assert("out"@.len() != "blob"@.len());
    assert("blob"@.len() != "blobId"@.len());
    let members = output.members();
    match output.out {
        Some(_) => {
            lemma_lookup_at(members, "out"@, 0);
            lemma_lookup_at(members, "blobId"@, 1);
            lemma_lookup_absent(members, "blob"@);
        },
        None => {
            lemma_lookup_at(members, "blobId"@, 0);
            lemma_lookup_at(members, "blob"@, 1);
            lemma_lookup_absent(members, "out"@);
        },
    }
}

/// The document of a computed identifier says all that its report says.
pub proof fn lemma_blob_id_renderings_agree(
    a: BlobIdOutputView,
    b: BlobIdOutputView,
    mark: Seq<char>,
)
    requires
        a.document() == b.document(),
    ensures
        a.report(mark) == b.report(mark),
{
    let ma = a.document()->Object_0;
    let mb = b.document()->Object_0;
    assert(ma[0] == mb[0] && ma[1] == mb[1] && ma[2] == mb[2]);
}

/// The document of a status says all that its report says.
pub proof fn lemma_blob_status_renderings_agree(
    a: BlobStatusOutputView,
    b: BlobStatusOutputView,
    stage: Seq<char>,
)
    requires
        a.document() == b.document(),
    ensures
        a.report(stage) == b.report(stage),
        a.status is Existent ==> b.status is Existent && a.status->Existent_status
            == b.status->Existent_status,
{
    reveal_strlit("blobId");
    reveal_strlit("file");
    reveal_strlit("status");
    reveal_strlit("registered");
    reveal_strlit("certified");
    reveal_strlit("invalid");
    let ma = a.members();
    let mb = b.members();
    assert(ma[0] == mb[0]);
    assert(ma[1] == mb[1]);
    assert("file"@.len() != "status"@.len());
    if a.file is Some {
        assert(ma[2] == mb[2]);
    }
    assert(status_doc(a.status) == status_doc(b.status));
    if let BlobStatusView::Existent { status_event, .. } = a.status {
        let other = b.status->Existent_status_event;
        let fa = status_doc(a.status)->Object_0[0].1->Object_0;
        let fb = status_doc(b.status)->Object_0[0].1->Object_0;
        assert(status_doc(a.status)->Object_0[0] == status_doc(b.status)->Object_0[0]);
        assert(fa[0] == fb[0] && fa[1] == fb[1] && fa[2] == fb[2]);
        assert(event_doc(status_event)->Object_0[0] == event_doc(other)->Object_0[0]);
        assert(event_doc(status_event)->Object_0[1] == event_doc(other)->Object_0[1]);
        assert("registered"@.len() != "certified"@.len());
        assert("registered"@.len() != "invalid"@.len());
        assert("certified"@.len() != "invalid"@.len());
    }
}

/// What can be written out as the result of an operation.
pub trait Render {
    /// Whether the value can be written out at all.
    spec fn renderable(&self) -> bool;

    /// Whether `out` is the report of the value for people.
    spec fn is_report(&self, out: Seq<char>) -> bool;

    /// The document of the value for programs.
    spec fn document(&self) -> JsonDoc;

    /// The report for people.
    fn render_text(&self) -> (r: String)
        requires
            self.renderable(),
        ensures
            self.is_report(r@),
    ;

    /// The document for programs.
    fn render_json(&self) -> (r: JsonValue)
        requires
            self.renderable(),
        ensures
            r@ == self.document(),
    ;
}

impl Render for StoreOutput {
    open spec fn renderable(&self) -> bool {
        self@.wf()
    }

    open spec fn is_report(&self, out: Seq<char>) -> bool {
        self@.is_report(out)
    }

    open spec fn document(&self) -> JsonDoc {
        self@.document()
    }

    fn render_text(&self) -> (r: String) {
        self.to_text()
    }

    fn render_json(&self) -> (r: JsonValue) {
        self.to_json()
    }
}

impl Render for ReadOutput {
    open spec fn renderable(&self) -> bool {
        true
    }

    open spec fn is_report(&self, out: Seq<char>) -> bool {
        self@.is_report(out)
    }

    open spec fn document(&self) -> JsonDoc {
        self@.document()
    }

    fn render_text(&self) -> (r: String) {
        self.to_text()
    }

    fn render_json(&self) -> (r: JsonValue) {
        self.to_json()
    }
}

impl Render for BlobIdOutput {
    open spec fn renderable(&self) -> bool {
        true
    }

    open spec fn is_report(&self, out: Seq<char>) -> bool {
        self@.is_report(out)
    }

    open spec fn document(&self) -> JsonDoc {
        self@.document()
    }

    fn render_text(&self) -> (r: String) {
        self.to_text()
    }

    fn render_json(&self) -> (r: JsonValue) {
        self.to_json()
    }
}

impl Render for BlobStatusOutput {
    open spec fn renderable(&self) -> bool {
        true
    }

    open spec fn is_report(&self, out: Seq<char>) -> bool {
        self@.is_report(out)
    }

    open spec fn document(&self) -> JsonDoc {
        self@.document()
    }

    fn render_text(&self) -> (r: String) {
        self.to_text()
    }

    fn render_json(&self) -> (r: JsonValue) {
        self.to_json()
    }
}

/// Writes out the result of an operation: as the compact text of its
/// document where `json` is set, as its report for people where not.
pub fn output_string<T: Render>(output: &T, json: bool) -> (r: String)
    requires
        output.renderable(),
    ensures
        json ==> r@ == json_text(output.document()),
        !json ==> output.is_report(r@),
{
    if json {
        output.render_json().to_text()
    } else {
        output.render_text()
    }
}

} // verus!
