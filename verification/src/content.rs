//! One conversational turn: a role and an ordered list of parts, and the wire
//! form in which binary parts travel as base64 text.

use vstd::prelude::*;
use vstd::string::StringExecFns;
use crate::error::{GeminiError, GeminiErrorKind};
use base64::Engine;

verus! {

/// Who speaks in a turn.
#[derive(Debug, Clone, Copy, PartialEq, Eq)]
pub enum Role {
    User,
    Model,
}

/// The atomic unit of content: text, or inline binary data with its MIME type.
#[derive(Debug, PartialEq, Eq)]
pub enum Part {
    Text(String),
    Data { data: Vec<u8>, mime_type: String },
}

/// What a `Part` holds.
pub enum PartView {
    Text(Seq<char>),
    Data { data: Seq<u8>, mime_type: Seq<char> },
}

impl View for Part {
    type V = PartView;

    open spec fn view(&self) -> PartView {
        match *self {
            Part::Text(text) => PartView::Text(text@),
            Part::Data { data, mime_type } => PartView::Data { data: data@, mime_type: mime_type@ },
        }
    }
}

impl Clone for Part {
    fn clone(&self) -> (r: Part)
        ensures
            r@ == self@,
    {
        match self {
            Part::Text(text) => Part::Text(text.clone()),
            Part::Data { data, mime_type } => Part::Data {
                data: data.clone(),
                mime_type: mime_type.clone(),
            },
        }
    }
}

impl Part {
    /// A text part holding the characters of `value`.
    pub fn text(value: &str) -> (part: Part)
        ensures
            part@ == PartView::Text(value@),
    {
        Part::Text(value.to_owned())
    }
}

impl From<String> for Part {
    fn from(value: String) -> (part: Part) {
        Part::Text(value)
    }
}

impl vstd::std_specs::convert::FromSpecImpl<String> for Part {
    open spec fn obeys_from_spec() -> bool {
        true
    }

    open spec fn from_spec(value: String) -> Part {
        Part::Text(value)
    }
}

impl<'a> From<&'a str> for Part {
    fn from(value: &'a str) -> (part: Part)
        ensures
            part@ == PartView::Text(value@),
    {
        Part::text(value)
    }
}

/// The text part is known by its view alone, so `from`'s own postcondition
/// states it and `from_spec` binds nothing.
impl<'a> vstd::std_specs::convert::FromSpecImpl<&'a str> for Part {
    open spec fn obeys_from_spec() -> bool {
        false
    }

    open spec fn from_spec(value: &'a str) -> Part {
        Part::Text(choose|text: String| text@ == value@)
    }
}

/// The views of a sequence of parts, in order.
pub open spec fn part_views(parts: Seq<Part>) -> Seq<PartView> {
    parts.map_values(|p: Part| p@)
}

/// One turn of conversation.
#[derive(Debug, PartialEq, Eq)]
pub struct Content {
    pub role: Role,
    pub parts: Vec<Part>,
}

/// What a `Content` holds.
pub struct ContentView {
    pub role: Role,
    pub parts: Seq<PartView>,
}

impl View for Content {
    type V = ContentView;

    open spec fn view(&self) -> ContentView {
        ContentView { role: self.role, parts: part_views(self.parts@) }
    }
}

impl Clone for Content {
    fn clone(&self) -> (r: Content)
        ensures
            r@ == self@,
    {
        let parts = self.parts.clone();
        assert(part_views(parts@) =~= part_views(self.parts@));
        Content { role: self.role, parts }
    }
}

impl From<Part> for Content {
    /// A user turn with the single part `value`.
    fn from(value: Part) -> (content: Content)
        ensures
            content@ == (ContentView { role: Role::User, parts: seq![value@] }),
    {
        Content::user(value)
    }
}

/// The turn is known by its view alone, so `from`'s own postcondition
/// states it and `from_spec` binds nothing.
impl vstd::std_specs::convert::FromSpecImpl<Part> for Content {
    open spec fn obeys_from_spec() -> bool {
        false
    }

    open spec fn from_spec(value: Part) -> Content {
        choose|content: Content| content@ == (ContentView { role: Role::User, parts: seq![value@] })
    }
}

impl<'a> From<&'a str> for Content {
    /// A user turn with `value` as its single text part.
    fn from(value: &'a str) -> (content: Content)
        ensures
            content@ == (ContentView { role: Role::User, parts: seq![PartView::Text(value@)] }),
    {
        Content::user(Part::text(value))
    }
}

/// The turn is known by its view alone, so `from`'s own postcondition
/// states it and `from_spec` binds nothing.
impl<'a> vstd::std_specs::convert::FromSpecImpl<&'a str> for Content {
    open spec fn obeys_from_spec() -> bool {
        false
    }

    open spec fn from_spec(value: &'a str) -> Content {
        choose|content: Content|
            content@ == (ContentView { role: Role::User, parts: seq![PartView::Text(value@)] })
    }
}

impl Content {
    /// A user turn with the single part `value`.
    pub fn user(value: Part) -> (content: Content)
        ensures
            content.role == Role::User,
            content.parts@ == seq![value],
            content@ == (ContentView { role: Role::User, parts: seq![value@] }),
            content@.sendable(),
    {
        let mut parts: Vec<Part> = Vec::new();
        parts.push(value);
        assert(part_views(parts@) =~= seq![value@]);
        Content { role: Role::User, parts }
    }

    /// A model turn with the single part `value`.
    pub fn model(value: Part) -> (content: Content)
        ensures
            content.role == Role::Model,
            content.parts@ == seq![value],
            content@ == (ContentView { role: Role::Model, parts: seq![value@] }),
            content@.sendable(),
    {
        let mut parts: Vec<Part> = Vec::new();
        parts.push(value);
        assert(part_views(parts@) =~= seq![value@]);
        Content { role: Role::Model, parts }
    }
}

/// The views of a sequence of turns, in order.
pub open spec fn content_views(contents: Seq<Content>) -> Seq<ContentView> {
    contents.map_values(|c: Content| c@)
}

/// Copies a list of turns.
pub(crate) fn clone_contents(contents: &Vec<Content>) -> (copy: Vec<Content>)
    ensures
        content_views(copy@) == content_views(contents@),
{
    contents.clone()
}

/// The standard-alphabet, padded base64 text of a byte string.
pub uninterp spec fn base64_encoding(bytes: Seq<u8>) -> Seq<char>;

/// The bytes that a standard-alphabet, padded base64 text stands for, if it
/// is well formed.
pub uninterp spec fn base64_decoding(text: Seq<char>) -> Option<Seq<u8>>;

/// Whether the base64 text of `len` bytes still fits in one allocation.
pub open spec fn encodable(len: nat) -> bool {
    4 * ((len + 2) / 3) <= isize::MAX
}

/// `base64::Engine::encode` on `base64::engine::general_purpose::STANDARD`.
/// The text depends on the bytes alone, and decoding it with the same engine
/// gives the bytes back. The bound keeps the size of the output buffer, four
/// characters for every three bytes, within what can be allocated.
#[verifier::external_body]
fn standard_encode(bytes: &[u8]) -> (text: String)
    requires
        encodable(bytes@.len()),
    ensures
        text@ == base64_encoding(bytes@),
        base64_decoding(text@) == Some(bytes@),
{
    base64::engine::general_purpose::STANDARD.encode(bytes)
}

/// `base64::Engine::decode` on `base64::engine::general_purpose::STANDARD`.
/// Whether it succeeds, and with which bytes, depends on the text alone.
#[verifier::external_body]
fn standard_decode(text: &str) -> (r: Result<Vec<u8>, base64::DecodeError>)
    ensures
        match r {
            Ok(bytes) => base64_decoding(text@) == Some(bytes@),
            Err(_) => base64_decoding(text@) is None,
        },
{
    base64::engine::general_purpose::STANDARD.decode(text)
}

/// An error of `base64::Engine::decode`.
#[verifier::external_type_specification]
#[verifier::external_body]
pub struct ExDecodeError(base64::DecodeError);

/// The `Display` text of a `base64::DecodeError`. Nothing is claimed of it.
#[verifier::external_body]
fn decode_error_text(err: &base64::DecodeError) -> (text: String) {
    err.to_string()
}

/// Encodes binary data as the base64 text that stands for it on the wire.
pub fn encode_data(bytes: &[u8]) -> (text: String)
    requires
        encodable(bytes@.len()),
    ensures
        text@ == base64_encoding(bytes@),
        base64_decoding(text@) == Some(bytes@),
{
    standard_encode(bytes)
}

/// Decodes the base64 text of a binary part. Text that is not well-formed
/// base64 is an error of kind `Other`.
pub fn decode_data(text: &str) -> (r: Result<Vec<u8>, GeminiError>)
    ensures
        match r {
            Ok(bytes) => base64_decoding(text@) == Some(bytes@),
            Err(err) => base64_decoding(text@) is None && err.kind == GeminiErrorKind::Other,
        },
{
    match standard_decode(text) {
        Ok(bytes) => Ok(bytes),
        Err(err) => {
            let detail = decode_error_text(&err);
            Err(GeminiError::message(detail.as_str()))
        },
    }
}

/// A part as it travels: binary data is base64 text.
#[derive(Debug, PartialEq, Eq)]
pub enum WirePart {
    Text(String),
    InlineData { data: String, mime_type: String },
}

/// What a `WirePart` holds.
pub enum WirePartView {
    Text(Seq<char>),
    InlineData { data: Seq<char>, mime_type: Seq<char> },
}

impl View for WirePart {
    type V = WirePartView;

    open spec fn view(&self) -> WirePartView {
        match *self {
            WirePart::Text(text) => WirePartView::Text(text@),
            WirePart::InlineData { data, mime_type } => WirePartView::InlineData {
                data: data@,
                mime_type: mime_type@,
            },
        }
    }
}

/// A turn as it travels.
#[derive(Debug, PartialEq, Eq)]
pub struct WireContent {
    pub role: Role,
    pub parts: Vec<WirePart>,
}

/// What a `WireContent` holds.
pub struct WireContentView {
    pub role: Role,
    pub parts: Seq<WirePartView>,
}

/// The views of a sequence of wire parts, in order.
pub open spec fn wire_part_views(parts: Seq<WirePart>) -> Seq<WirePartView> {
    parts.map_values(|p: WirePart| p@)
}

impl View for WireContent {
    type V = WireContentView;

    open spec fn view(&self) -> WireContentView {
        WireContentView { role: self.role, parts: wire_part_views(self.parts@) }
    }
}

impl PartView {
    /// Whether the part can be put on the wire: text always, binary data
    /// when its base64 text fits in one allocation.
    pub open spec fn encodable(self) -> bool {
        match self {
            PartView::Text(_) => true,
            PartView::Data { data, .. } => encodable(data.len()),
        }
    }

    /// The wire form of the part: text as it is, binary data as base64 text
    /// under the same MIME type.
    pub open spec fn wire(self) -> WirePartView {
        match self {
            PartView::Text(text) => WirePartView::Text(text),
            PartView::Data { data, mime_type } => WirePartView::InlineData {
                data: base64_encoding(data),
                mime_type,
            },
        }
    }
}

impl WirePartView {
    /// The part that the wire form stands for, if its data is well-formed
    /// base64.
    pub open spec fn part(self) -> Option<PartView> {
        match self {
            WirePartView::Text(text) => Some(PartView::Text(text)),
            WirePartView::InlineData { data, mime_type } => match base64_decoding(data) {
                Some(bytes) => Some(PartView::Data { data: bytes, mime_type }),
                None => None,
            },
        }
    }
}

impl ContentView {
    /// Whether the turn can be sent to the server: it has at least one part.
    pub open spec fn sendable(self) -> bool {
        self.parts.len() > 0
    }

    /// Whether every part can be put on the wire.
    pub open spec fn encodable(self) -> bool {
        forall|i: int| 0 <= i < self.parts.len() ==> (#[trigger] self.parts[i]).encodable()
    }

    /// The wire form of the turn: the same role, each part in its wire form.
    pub open spec fn wire(self) -> WireContentView {
        WireContentView { role: self.role, parts: self.parts.map_values(|p: PartView| p.wire()) }
    }
}

impl WireContentView {
    /// Whether every part stands for a part.
    pub open spec fn decodable(self) -> bool {
        forall|i: int| 0 <= i < self.parts.len() ==> (#[trigger] self.parts[i]).part() is Some
    }

    /// The turn that the wire form stands for, if every part decodes.
    pub open spec fn content(self) -> Option<ContentView> {
        if self.decodable() {
            Some(
                ContentView {
                    role: self.role,
                    parts: self.parts.map_values(|w: WirePartView| w.part().unwrap()),
                },
            )
        } else {
            None
        }
    }
}

/// The most bytes whose base64 text fits in one allocation.
pub open spec fn encodable_limit() -> nat {
    3 * (isize::MAX as nat / 4)
}

/// A byte string is encodable exactly when it is no longer than the limit.
pub proof fn lemma_encodable_limit(len: nat)
    ensures
        encodable(len) <==> len <= encodable_limit(),
{
}

impl Part {
    /// Whether the part can be put on the wire.
    pub fn is_encodable(&self) -> (r: bool)
        ensures
            r == self@.encodable(),
    {
        match self {
            Part::Text(_) => true,
            Part::Data { data, .. } => {
                proof {
                    lemma_encodable_limit(data@.len());
                }
                data.len() <= 3 * (isize::MAX as usize / 4)
            },
        }
    }

    /// Puts the part in its wire form. Decoding the result gives the part
    /// back: the same bytes under the same MIME type.
    pub fn to_wire(&self) -> (wire: WirePart)
        requires
            self@.encodable(),
        ensures
            wire@ == self@.wire(),
            wire@.part() == Some(self@),
    {
        match self {
            Part::Text(text) => WirePart::Text(text.clone()),
            Part::Data { data, mime_type } => WirePart::InlineData {
                data: encode_data(data.as_slice()),
                mime_type: mime_type.clone(),
            },
        }
    }

    /// Reads a part from its wire form. Fails, with kind `Other`, exactly
    /// when the data is not well-formed base64.
    pub fn from_wire(wire: &WirePart) -> (r: Result<Part, GeminiError>)
        ensures
            match r {
                Ok(part) => wire@.part() == Some(part@),
                Err(err) => wire@.part() is None && err.kind == GeminiErrorKind::Other,
            },
    {
        match wire {
            WirePart::Text(text) => Ok(Part::Text(text.clone())),
            WirePart::InlineData { data, mime_type } => match decode_data(data.as_str()) {
                Ok(bytes) => Ok(Part::Data { data: bytes, mime_type: mime_type.clone() }),
                Err(err) => Err(err),
            },
        }
    }
}

impl Content {
    /// Whether every part of the turn can be put on the wire.
    pub fn is_encodable(&self) -> (r: bool)
        ensures
            r == self@.encodable(),
    {
        let mut i: usize = 0;
        while i < self.parts.len()
            invariant
                i <= self.parts.len(),
                forall|j: int| 0 <= j < i ==> (#[trigger] self@.parts[j]).encodable(),
            decreases self.parts.len() - i,
        {
            assert(self@.parts[i as int] == self.parts@[i as int]@);
            if !self.parts[i].is_encodable() {
                return false;
            }
            i += 1;
        }
        true
    }

    /// Puts the turn in its wire form. Decoding the result gives the turn
    /// back, part by part.
    pub fn to_wire(&self) -> (wire: WireContent)
        requires
            self@.encodable(),
        ensures
            wire@ == self@.wire(),
            wire@.content() == Some(self@),
    {
        let mut parts: Vec<WirePart> = Vec::new();
        let mut i: usize = 0;
        while i < self.parts.len()
            invariant
                i <= self.parts.len(),
                self@.encodable(),
                parts@.len() == i,
                forall|j: int|
                    0 <= j < i ==> (#[trigger] parts@[j])@ == self@.parts[j].wire()
                        && parts@[j]@.part() == Some(self@.parts[j]),
            decreases self.parts.len() - i,
        {
            assert(self@.parts[i as int] == self.parts@[i as int]@);
            let wire = self.parts[i].to_wire();
            parts.push(wire);
            i += 1;
        }
        let wire = WireContent { role: self.role, parts };
        assert(wire@.parts =~= self@.wire().parts);
        assert(wire@.content().unwrap().parts =~= self@.parts);
        wire
    }

    /// Reads a turn from its wire form. Fails, with kind `Other`, exactly
    /// when some part's data is not well-formed base64.
    pub fn from_wire(wire: &WireContent) -> (r: Result<Content, GeminiError>)
        ensures
            match r {
                Ok(content) => wire@.content() == Some(content@),
                Err(err) => wire@.content() is None && err.kind == GeminiErrorKind::Other,
            },
    {
        let mut parts: Vec<Part> = Vec::new();
        let mut i: usize = 0;
        while i < wire.parts.len()
            invariant
                i <= wire.parts.len(),
                parts@.len() == i,
                forall|j: int|
                    0 <= j < i ==> wire@.parts[j].part() == Some((#[trigger] parts@[j])@),
            decreases wire.parts.len() - i,
        {
            assert(wire@.parts[i as int] == wire.parts@[i as int]@);
            match Part::from_wire(&wire.parts[i]) {
                Ok(part) => {
                    parts.push(part);
                },
                Err(err) => {
                    return Err(err);
                },
            }
            i += 1;
        }
        let content = Content { role: wire.role, parts };
        assert forall|j: int| 0 <= j < wire@.parts.len() implies (#[trigger] wire@.parts[j]).part()
            == Some(content.parts@[j]@) by {}
        assert(wire@.content().unwrap().parts =~= content@.parts);
        Ok(content)
    }
}

} // verus!
