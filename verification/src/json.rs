//! JSON documents as values of the library's own, how they are looked into,
//! and the compact text they are printed as.

use vstd::prelude::*;
use crate::text::{decimal, push_decimal, same_text};

verus! {

/// A JSON document.
#[derive(Debug, PartialEq, Eq)]
pub enum JsonValue {
    Null,
    Bool(bool),
    /// A whole number from zero up to the largest `u64`.
    Number(u64),
    /// Any other number, kept as the literal it is written as.
    OtherNumber(String),
    Text(String),
    Array(Vec<JsonValue>),
    /// The members of an object in the order in which they stand.
    Object(Vec<(String, JsonValue)>),
}

/// The mathematical content of a [`JsonValue`].
pub enum JsonDoc {
    Null,
    Bool(bool),
    Number(u64),
    OtherNumber(Seq<char>),
    Text(Seq<char>),
    Array(Seq<JsonDoc>),
    Object(Seq<(Seq<char>, JsonDoc)>),
}

/// The content of the first `n` of `items`.
pub open spec fn docs_of(items: Seq<JsonValue>, n: nat) -> Seq<JsonDoc>
    decreases items, n,
{
    if n == 0 || n > items.len() {
        Seq::empty()
    } else {
        docs_of(items, (n - 1) as nat).push(doc_of(items[n - 1]))
    }
}

/// The content of the first `n` of `members`.
pub open spec fn members_of(members: Seq<(String, JsonValue)>, n: nat) -> Seq<(Seq<char>, JsonDoc)>
    decreases members, n,
{
    if n == 0 || n > members.len() {
        Seq::empty()
    } else {
        members_of(members, (n - 1) as nat).push((members[n - 1].0@, doc_of(members[n - 1].1)))
    }
}

/// The content of a value.
pub open spec fn doc_of(value: JsonValue) -> JsonDoc
    decreases value, 0nat,
{
    match value {
        JsonValue::Null => JsonDoc::Null,
        JsonValue::Bool(b) => JsonDoc::Bool(b),
        JsonValue::Number(n) => JsonDoc::Number(n),
        JsonValue::OtherNumber(literal) => JsonDoc::OtherNumber(literal@),
        JsonValue::Text(text) => JsonDoc::Text(text@),
        JsonValue::Array(items) => JsonDoc::Array(docs_of(items@, items@.len())),
        JsonValue::Object(members) => JsonDoc::Object(members_of(members@, members@.len())),
    }
}

impl View for JsonValue {
    type V = JsonDoc;

    open spec fn view(&self) -> JsonDoc {
        doc_of(*self)
    }
}

/// The content of a run of items is the content of each, in order.
proof fn lemma_docs_of(items: Seq<JsonValue>, n: nat)
    requires
        n <= items.len(),
    ensures
        docs_of(items, n).len() == n,
        forall|i: int| 0 <= i < n ==> #[trigger] docs_of(items, n)[i] == items[i]@,
    decreases n,
{
    if n > 0 {
        lemma_docs_of(items, (n - 1) as nat);
    }
}

/// The content of a run of members is the name and content of each, in order.
proof fn lemma_members_of(members: Seq<(String, JsonValue)>, n: nat)
    requires
        n <= members.len(),
    ensures
        members_of(members, n).len() == n,
        forall|i: int|
            0 <= i < n ==> #[trigger] members_of(members, n)[i] == (members[i].0@, members[i].1@),
    decreases n,
{
    if n > 0 {
        lemma_members_of(members, (n - 1) as nat);
    }
}

/// The value of the first member called `name` among `members`.
pub open spec fn lookup(members: Seq<(Seq<char>, JsonDoc)>, name: Seq<char>) -> Option<JsonDoc>
    decreases members.len(),
{
    if members.len() == 0 {
        None
    } else if members[0].0 == name {
        Some(members[0].1)
    } else {
        lookup(members.drop_first(), name)
    }
}

/// The member called `name` of a document: there is one only in an object
/// that has a member of that name.
pub open spec fn member(doc: JsonDoc, name: Seq<char>) -> Option<JsonDoc> {
    match doc {
        JsonDoc::Object(members) => lookup(members, name),
        _ => None,
    }
}

/// What `serde_json` parses a text as, where it parses it at all.
pub uninterp spec fn parsed_json(text: Seq<char>) -> Option<JsonDoc>;

/// The document that a parsed `serde_json::Value` holds.
pub uninterp spec fn value_model(value: serde_json::Value) -> JsonDoc;

/// The lower-case hexadecimal digit for a value below sixteen.
pub open spec fn hex_digit(d: int) -> char
    recommends
        0 <= d < 16,
{
    if d < 10 {
        (0x30 + d) as char
    } else {
        (0x61 + (d - 10)) as char
    }
}

/// A character as it stands inside a JSON string. The double quote and
/// the backslash get a backslash in front. Of the characters below the
/// space, backspace, tab, line feed, form feed and carriage return are
/// written with their letter, the others as `\u00` and two hexadecimal
/// digits. Every other character stands for itself.
pub open spec fn escaped(c: char) -> Seq<char> {
    if c == '"' {
        seq!['\\', '"']
    } else if c == '\\' {
        seq!['\\', '\\']
    } else if c == '\u{8}' {
        seq!['\\', 'b']
    } else if c == '\t' {
        seq!['\\', 't']
    } else if c == '\n' {
        seq!['\\', 'n']
    } else if c == '\u{c}' {
        seq!['\\', 'f']
    } else if c == '\r' {
        seq!['\\', 'r']
    } else if (c as int) < 0x20 {
        seq!['\\', 'u', '0', '0', hex_digit(c as int / 16), hex_digit(c as int % 16)]
    } else {
        seq![c]
    }
}

/// The characters of a text, each as it stands inside a JSON string.
pub open spec fn escaped_text(text: Seq<char>) -> Seq<char>
    decreases text.len(),
{
    if text.len() == 0 {
        Seq::empty()
    } else {
        escaped_text(text.drop_last()) + escaped(text.last())
    }
}

/// Whether a character stands for itself inside a JSON string.
pub open spec fn needs_no_escape(c: char) -> bool {
    c != '"' && c != '\\' && (c as int) >= 0x20
}

/// A text as a JSON string: in double quotes, with escapes.
pub open spec fn quoted(text: Seq<char>) -> Seq<char> {
    seq!['"'] + escaped_text(text) + seq!['"']
}

/// A text without a double quote, a backslash or a character below the
/// space is written as it is, between double quotes.
pub proof fn lemma_quoted_plain(text: Seq<char>)
    requires
        forall|i: int| 0 <= i < text.len() ==> needs_no_escape(#[trigger] text[i]),
    ensures
        escaped_text(text) == text,
        quoted(text) == seq!['"'] + text + seq!['"'],
    decreases text.len(),
{
    if text.len() > 0 {
        let front = text.drop_last();
        assert forall|i: int| 0 <= i < front.len() implies needs_no_escape(
            #[trigger] front[i],
        ) by {
            assert(front[i] == text[i]);
        }
        lemma_quoted_plain(front);
        assert(needs_no_escape(text[text.len() - 1]));
        assert(escaped(text.last()) =~= seq![text.last()]);
        assert(front + seq![text.last()] =~= text);
    } else {
        assert(escaped_text(text) =~= text);
    }
}

/// The first `n` of `items`, each as compact text, with commas between.
pub open spec fn items_text(items: Seq<JsonDoc>, n: nat) -> Seq<char>
    decreases items, n,
{
    if n == 0 || n > items.len() {
        Seq::empty()
    } else if n == 1 {
        json_text(items[0])
    } else {
        items_text(items, (n - 1) as nat) + ","@ + json_text(items[n - 1])
    }
}

/// The first `n` of `members`, each as a quoted name, a colon and the
/// value as compact text, with commas between.
pub open spec fn members_text(members: Seq<(Seq<char>, JsonDoc)>, n: nat) -> Seq<char>
    decreases members, n,
{
    if n == 0 || n > members.len() {
        Seq::empty()
    } else if n == 1 {
        quoted(members[0].0) + ":"@ + json_text(members[0].1)
    } else {
        members_text(members, (n - 1) as nat) + ","@ + quoted(members[n - 1].0) + ":"@
            + json_text(members[n - 1].1)
    }
}

/// A document as compact JSON text: no space between tokens, members in
/// the order in which they stand.
pub open spec fn json_text(doc: JsonDoc) -> Seq<char>
    decreases doc, 0nat,
{
    match doc {
        JsonDoc::Null => "null"@,
        JsonDoc::Bool(b) => if b {
            "true"@
        } else {
            "false"@
        },
        JsonDoc::Number(n) => decimal(n as nat),
        JsonDoc::OtherNumber(literal) => literal,
        JsonDoc::Text(text) => quoted(text),
        JsonDoc::Array(items) => "["@ + items_text(items, items.len()) + "]"@,
        JsonDoc::Object(members) => "{"@ + members_text(members, members.len()) + "}"@,
    }
}

/// `serde_json::Value`, the document that `serde_json` parses a text
/// into. Nothing is known of what one holds but through [`value_model`].
#[verifier::external_type_specification]
#[verifier::external_body]
pub struct ExValue(serde_json::Value);

/// `serde_json::Error`, the reason for which `serde_json` refuses a text.
/// Nothing is known of what one holds.
#[verifier::external_type_specification]
#[verifier::external_body]
pub struct ExParseError(serde_json::Error);

/// `serde_json::from_str` at `serde_json::Value`: the text parsed as one
/// JSON document, or the error where it is none. The document that is
/// handed back is the one that [`parsed_json`] names for the text.
#[verifier::external_body]
fn parse_value(text: &str) -> (r: Result<serde_json::Value, serde_json::Error>)
    ensures
        r matches Ok(value) ==> parsed_json(text@) == Some(value_model(value)),
        r is Err ==> parsed_json(text@) is None,
{
    serde_json::from_str::<serde_json::Value>(text)
}

/// One level of a `serde_json::Value`: what kind of value it is, and what
/// it holds as plain values, with the values inside an array or an object
/// still as `serde_json` has them.
enum Node<'a> {
    Null,
    Bool(bool),
    /// A number as `u64`, where it is one, and as the literal it is
    /// written as.
    Number(Option<u64>, String),
    Text(String),
    Array(&'a Vec<serde_json::Value>),
    Object(Vec<(&'a String, &'a serde_json::Value)>),
}

/// The documents that a run of values hold.
spec fn value_models(values: Seq<serde_json::Value>) -> Seq<JsonDoc> {
    Seq::new(values.len(), |i: int| value_model(values[i]))
}

/// The names and documents that a run of members hold.
spec fn member_models(members: Seq<(&String, &serde_json::Value)>) -> Seq<
    (Seq<char>, JsonDoc),
> {
    Seq::new(members.len(), |i: int| (members[i].0@, value_model(*members[i].1)))
}

/// The document that one level of a value stands for.
spec fn node_doc(node: Node<'_>) -> JsonDoc {
    match node {
        Node::Null => JsonDoc::Null,
        Node::Bool(b) => JsonDoc::Bool(b),
        Node::Number(Some(n), _) => JsonDoc::Number(n),
        Node::Number(None, literal) => JsonDoc::OtherNumber(literal@),
        Node::Text(text) => JsonDoc::Text(text@),
        Node::Array(items) => JsonDoc::Array(value_models(items@)),
        Node::Object(members) => JsonDoc::Object(member_models(members@)),
    }
}

/// Takes a `serde_json::Value` apart, one arm for each of its variants. A
/// number is handed out as what `serde_json::Number::as_u64` gives and as
/// what its `Display` writes, an object as its members in the order of
/// `serde_json::Map::iter`. The document that the value holds is the one
/// that the parts stand for.
#[verifier::external_body]
fn unfold(value: &serde_json::Value) -> (r: Node<'_>)
    ensures
        value_model(*value) == node_doc(r),
{
    match value {
        serde_json::Value::Null => Node::Null,
        serde_json::Value::Bool(b) => Node::Bool(*b),
        serde_json::Value::Number(n) => Node::Number(n.as_u64(), n.to_string()),
        serde_json::Value::String(s) => Node::Text(s.clone()),
        serde_json::Value::Array(a) => Node::Array(a),
        serde_json::Value::Object(m) => Node::Object(m.iter().collect()),
    }
}

/// Copies a parsed value into a [`JsonValue`].
fn lift(value: &serde_json::Value) -> (r: JsonValue)
    ensures
        r@ == value_model(*value),
    decreases value_model(*value),
{
    match unfold(value) {
        Node::Null => JsonValue::Null,
        Node::Bool(b) => JsonValue::Bool(b),
        Node::Number(Some(n), _) => JsonValue::Number(n),
        Node::Number(None, literal) => JsonValue::OtherNumber(literal),
        Node::Text(text) => JsonValue::Text(text),
        Node::Array(items) => {
            let ghost models = value_models(items@);
            let mut lifted: Vec<JsonValue> = Vec::new();
            let mut i: usize = 0;
            while i < items.len()
                invariant
                    i <= items@.len(),
                    value_model(*value) == JsonDoc::Array(models),
                    models == value_models(items@),
                    lifted@.len() == i,
                    forall|k: int| 0 <= k < i ==> (#[trigger] lifted@[k])@ == models[k],
                decreases items@.len() - i,
            {
                assert(models[i as int] == value_model(items@[i as int]));
                assert(decreases_to!(value_model(*value) => value_model(*value)->Array_0));
                assert(decreases_to!(models => models[i as int]));
                lifted.push(lift(&items[i]));
                i += 1;
            }
            proof {
                lemma_item_view(lifted);
                assert(JsonValue::Array(lifted)@->Array_0 =~= models);
            }
            JsonValue::Array(lifted)
        },
        Node::Object(members) => {
            let ghost models = member_models(members@);
            let mut lifted: Vec<(String, JsonValue)> = Vec::new();
            let mut i: usize = 0;
            while i < members.len()
                invariant
                    i <= members@.len(),
                    value_model(*value) == JsonDoc::Object(models),
                    models == member_models(members@),
                    lifted@.len() == i,
                    forall|k: int|
                        0 <= k < i ==> (#[trigger] lifted@[k]).0@ == models[k].0 && lifted@[k].1@
                            == models[k].1,
                decreases members@.len() - i,
            {
                assert(models[i as int] == (
                    members@[i as int].0@,
                    value_model(*members@[i as int].1),
                ));
                assert(decreases_to!(value_model(*value) => value_model(*value)->Object_0));
                assert(decreases_to!(models => models[i as int]));
                assert(decreases_to!(models[i as int] => models[i as int].1));
                let name = members[i].0.clone();
                let inner = lift(members[i].1);
                lifted.push((name, inner));
                i += 1;
            }
            proof {
                lemma_member_view(lifted);
                assert(JsonValue::Object(lifted)@->Object_0 =~= models);
            }
            JsonValue::Object(lifted)
        },
    }
}

/// `serde_json::to_string` at `str`: the text as a JSON string, that is
/// between double quotes and with the escapes that [`escaped`] lists.
/// Writing a `str` cannot fail.
#[verifier::external_body]
fn quote(text: &str) -> (r: String)
    ensures
        r@ == quoted(text@),
{
    match serde_json::to_string(text) {
        Ok(quoted) => quoted,
        Err(_) => String::new(),
    }
}

/// The content of an object has the name and content of each member.
pub proof fn lemma_member_view(members: Vec<(String, JsonValue)>)
    ensures
        JsonValue::Object(members)@ matches JsonDoc::Object(m) && m.len() == members@.len()
            && forall|i: int|
            0 <= i < m.len() ==> #[trigger] m[i] == (members@[i].0@, members@[i].1@),
{
    lemma_members_of(members@, members@.len());
}

/// The content of an array has the content of each item.
proof fn lemma_item_view(items: Vec<JsonValue>)
    ensures
        JsonValue::Array(items)@ matches JsonDoc::Array(s) && s.len() == items@.len() && forall|
            i: int,
        | 0 <= i < s.len() ==> #[trigger] s[i] == items@[i]@,
{
    lemma_docs_of(items@, items@.len());
}

/// Where the first member called `name` stands, its value is what a lookup
/// of `name` gives.
pub proof fn lemma_lookup_at(members: Seq<(Seq<char>, JsonDoc)>, name: Seq<char>, i: int)
    requires
        0 <= i < members.len(),
        members[i].0 == name,
        forall|j: int| 0 <= j < i ==> (#[trigger] members[j]).0 != name,
    ensures
        lookup(members, name) == Some(members[i].1),
    decreases i,
{
    if i > 0 {
        let rest = members.drop_first();
        assert(members[0].0 != name);
        assert forall|j: int| 0 <= j < i - 1 implies (#[trigger] rest[j]).0 != name by {
            assert(rest[j] == members[j + 1]);
        }
        lemma_lookup_at(rest, name, i - 1);
    }
}

/// Where no member is called `name`, a lookup of `name` gives nothing.
pub proof fn lemma_lookup_absent(members: Seq<(Seq<char>, JsonDoc)>, name: Seq<char>)
    requires
        forall|j: int| 0 <= j < members.len() ==> (#[trigger] members[j]).0 != name,
    ensures
        lookup(members, name) is None,
    decreases members.len(),
{
    if members.len() > 0 {
        let rest = members.drop_first();
        assert(members[0].0 != name);
        assert forall|j: int| 0 <= j < rest.len() implies (#[trigger] rest[j]).0 != name by {
            assert(rest[j] == members[j + 1]);
        }
        lemma_lookup_absent(rest, name);
    }
}

/// The value that stands for a text that may be absent: `null` for none.
pub open spec fn optional_text_doc(text: Option<Seq<char>>) -> JsonDoc {
    match text {
        Some(text) => JsonDoc::Text(text),
        None => JsonDoc::Null,
    }
}

impl JsonValue {
    /// An object with the given members, in their order.
    pub fn object(members: Vec<(String, JsonValue)>) -> (r: JsonValue)
        ensures
            r@ matches JsonDoc::Object(m) && m.len() == members@.len() && forall|i: int|
                0 <= i < m.len() ==> #[trigger] m[i] == (members@[i].0@, members@[i].1@),
    {
        proof {
            lemma_member_view(members);
        }
        JsonValue::Object(members)
    }

    /// A member for an object: a name and the value that stands beside it.
    pub fn member(name: &str, value: JsonValue) -> (r: (String, JsonValue))
        ensures
            r.0@ == name@,
            r.1 == value,
    {
        (String::from_str(name), value)
    }

    /// A string.
    pub fn text(text: &str) -> (r: JsonValue)
        ensures
            r@ == JsonDoc::Text(text@),
    {
        JsonValue::Text(String::from_str(text))
    }

    /// The value that stands for a text that may be absent.
    pub fn optional_text(text: &Option<String>) -> (r: JsonValue)
        ensures
            r@ == optional_text_doc(
                match *text {
                    Some(t) => Some(t@),
                    None => None,
                },
            ),
    {
        match text {
            Some(text) => JsonValue::Text(text.clone()),
            None => JsonValue::Null,
        }
    }

    /// Parses `text` as one JSON document.
    pub fn parse(text: &str) -> (r: Option<JsonValue>)
        ensures
            r matches Some(doc) ==> parsed_json(text@) == Some(doc@),
            r is None ==> parsed_json(text@) is None,
    {
        match parse_value(text) {
            Ok(value) => Some(lift(&value)),
            Err(_) => None,
        }
    }

    /// The member called `name`, if this is an object that has one; of
    /// several members of that name the first.
    pub fn get(&self, name: &str) -> (r: Option<&JsonValue>)
        ensures
            r matches Some(value) ==> member(self@, name@) == Some(value@),
            r is None ==> member(self@, name@) is None,
    {
        match self {
            JsonValue::Object(members) => {
                let ghost all = self@->Object_0;
                proof {
                    lemma_member_view(*members);
                    assert(all.skip(0) =~= all);
                }
                let mut i: usize = 0;
                while i < members.len()
                    invariant
                        i <= members@.len(),
                        self@ == JsonDoc::Object(all),
                        all.len() == members@.len(),
                        forall|k: int|
                            0 <= k < all.len() ==> #[trigger] all[k] == (
                                members@[k].0@,
                                members@[k].1@,
                            ),
                        lookup(all, name@) == lookup(all.skip(i as int), name@),
                    decreases members@.len() - i,
                {
                    proof {
                        assert(all.skip(i as int)[0] == all[i as int]);
                        assert(all.skip(i as int).drop_first() =~= all.skip(i as int + 1));
                    }
                    if same_text(members[i].0.as_str(), name) {
                        return Some(&members[i].1);
                    }
                    i += 1;
                }
                None
            },
            _ => None,
        }
    }

    /// This document as compact JSON text.
    pub fn to_text(&self) -> (r: String)
        ensures
            r@ == json_text(self@),
    {
        let mut out = String::new();
        self.write_text(&mut out);
        assert(out@ =~= json_text(self@));
        out
    }

    /// Appends this document as compact JSON text to `out`.
    pub fn write_text(&self, out: &mut String)
        ensures
            final(out)@ == old(out)@ + json_text(self@),
        decreases self,
    {
        match self {
            JsonValue::Null => {
                out.append("null");
            },
            JsonValue::Bool(b) => {
                if *b {
                    out.append("true");
                } else {
                    out.append("false");
                }
            },
            JsonValue::Number(n) => {
                push_decimal(out, *n);
            },
            JsonValue::OtherNumber(literal) => {
                out.append(literal.as_str());
            },
            JsonValue::Text(text) => {
                let q = quote(text.as_str());
                out.append(q.as_str());
            },
            JsonValue::Array(items) => {
                let ghost all = self@->Array_0;
                proof {
                    lemma_item_view(*items);
                }
                out.append("[");
                assert(out@ =~= old(out)@ + "["@ + items_text(all, 0));
                let mut i: usize = 0;
                while i < items.len()
                    invariant
                        i <= items@.len(),
                        *self == JsonValue::Array(*items),
                        self@ == JsonDoc::Array(all),
                        all.len() == items@.len(),
                        forall|k: int| 0 <= k < all.len() ==> #[trigger] all[k] == items@[k]@,
                        out@ == old(out)@ + "["@ + items_text(all, i as nat),
                    decreases items@.len() - i,
                {
                    if i > 0 {
                        out.append(",");
                    }
                    items[i].write_text(out);
                    i += 1;
                    assert(out@ =~= old(out)@ + "["@ + items_text(all, i as nat));
                }
                out.append("]");
                assert(out@ =~= old(out)@ + json_text(self@));
            },
            JsonValue::Object(members) => {
                let ghost all = self@->Object_0;
                proof {
                    lemma_member_view(*members);
                }
                out.append("{");
                assert(out@ =~= old(out)@ + "{"@ + members_text(all, 0));
                let mut i: usize = 0;
                while i < members.len()
                    invariant
                        i <= members@.len(),
                        *self == JsonValue::Object(*members),
                        self@ == JsonDoc::Object(all),
                        all.len() == members@.len(),
                        forall|k: int|
                            0 <= k < all.len() ==> #[trigger] all[k] == (
                                members@[k].0@,
                                members@[k].1@,
                            ),
                        out@ == old(out)@ + "{"@ + members_text(all, i as nat),
                    decreases members@.len() - i,
                {
                    if i > 0 {
                        out.append(",");
                    }
                    let q = quote(members[i].0.as_str());
                    out.append(q.as_str());
                    out.append(":");
                    members[i].1.write_text(out);
                    i += 1;
                    assert(out@ =~= old(out)@ + "{"@ + members_text(all, i as nat));
                }
                out.append("}");
                assert(out@ =~= old(out)@ + json_text(self@));
            },
        }
    }
}

} // verus!
