//! The boundary forms of text, metadata and events, and the conversions
//! between them and the native forms.

use vstd::prelude::*;
use vstd::utf8::{
    decode_utf8, encode_utf8, encode_utf8_decode_utf8, encode_utf8_valid_utf8, valid_utf8,
};
use vstd::std_specs::convert::{FromSpec, FromSpecImpl};
use crate::event::{opt_text, EventMetadata, EventModel, LogEvent, MetadataModel};
use crate::level::LogLevel;

verus! {

/// The line number that stands for "line unknown" on the boundary.
pub const UNKNOWN_LINE: i64 = -1;

/// A borrowed piece of text, or the null view that stands for no text at
/// all. The borrow ends with the source text: a view cannot outlive it.
#[derive(Clone, Copy, Debug)]
pub struct RustStr<'a> {
    text: Option<&'a str>,
}

impl<'a> View for RustStr<'a> {
    type V = Option<Seq<char>>;

    closed spec fn view(&self) -> Option<Seq<char>> {
        opt_text(self.text)
    }
}

impl<'a> From<&'a str> for RustStr<'a> {
    /// A view of a present text, which may be empty and is then still not
    /// null.
    fn from(s: &'a str) -> (view: RustStr<'a>)
        ensures
            view@ == Some(s@),
    {
        RustStr { text: Some(s) }
    }
}

impl<'a> FromSpecImpl<&'a str> for RustStr<'a> {
    open spec fn obeys_from_spec() -> bool {
        true
    }

    closed spec fn from_spec(s: &'a str) -> RustStr<'a> {
        RustStr { text: Some(s) }
    }
}

impl<'a> From<Option<&'a str>> for RustStr<'a> {
    /// A view of an optional text: the null view where there is none.
    fn from(o: Option<&'a str>) -> (view: RustStr<'a>)
        ensures
            view@ == opt_text(o),
    {
        RustStr { text: o }
    }
}

impl<'a> FromSpecImpl<Option<&'a str>> for RustStr<'a> {
    open spec fn obeys_from_spec() -> bool {
        true
    }

    closed spec fn from_spec(o: Option<&'a str>) -> RustStr<'a> {
        RustStr { text: o }
    }
}

/// What a run of bytes that may be absent denotes.
pub open spec fn opt_bytes(bytes: Option<&[u8]>) -> Option<Seq<u8>> {
    match bytes {
        None => None,
        Some(b) => Some(b@),
    }
}

/// The text that a run of bytes spells, by `core::str::from_utf8`: `Some`
/// exactly for bytes that are valid UTF-8, and then a text whose UTF-8
/// form is those bytes. Not proved: the contract is the one that the
/// documentation of that function gives.
#[verifier::external_body]
fn text_of_bytes<'a>(bytes: &'a [u8]) -> (text: Option<&'a str>)
    ensures
        text is Some <==> valid_utf8(bytes@),
        text matches Some(s) ==> encode_utf8(s@) == bytes@,
{
    match core::str::from_utf8(bytes) {
        Ok(s) => Some(s),
        Err(_) => None,
    }
}

impl<'a> RustStr<'a> {
    /// The checked way to a view, for bytes whose origin is not trusted:
    /// the null view for no bytes, a view of the text that the bytes spell
    /// where they are valid UTF-8, and `None` where they are not.
    pub fn checked(bytes: Option<&'a [u8]>) -> (view: Option<RustStr<'a>>)
        ensures
            view is Some <==> (bytes matches Some(b) ==> valid_utf8(b@)),
            view matches Some(v) ==> v@ == match bytes {
                None => None,
                Some(b) => Some(decode_utf8(b@)),
            },
    {
        match bytes {
            None => Some(RustStr { text: None }),
            Some(b) => match text_of_bytes(b) {
                None => None,
                Some(s) => {
                    proof {
                        encode_utf8_decode_utf8(s@);
                    }
                    Some(RustStr { text: Some(s) })
                },
            },
        }
    }

    /// The bytes that the view spans: the UTF-8 form of its text.
    pub fn as_bytes(&self) -> (bytes: Option<&'a [u8]>)
        ensures
            opt_bytes(bytes) == match self@ {
                None => None,
                Some(text) => Some(encode_utf8(text)),
            },
    {
        match self.text {
            None => None,
            Some(s) => Some(s.as_bytes()),
        }
    }

    /// Whether this is the null view.
    pub fn is_null(&self) -> (null: bool)
        ensures
            null == (self@ is None),
    {
        self.text.is_none()
    }

    /// The text behind a view that is not null.
    pub fn to_str(&self) -> (s: &'a str)
        requires
            self@ is Some,
        ensures
            Some(s@) == self@,
    {
        self.text.unwrap()
    }

    /// The text behind the view, or `None` for the null view.
    pub fn to_opt_str(&self) -> (o: Option<&'a str>)
        ensures
            opt_text(o) == self@,
    {
        self.text
    }

    /// The number of bytes that the view spans: those of the UTF-8 form of
    /// its text, and none for the null view.
    pub open spec fn spec_len(&self) -> nat {
        match self@ {
            None => 0,
            Some(text) => encode_utf8(text).len(),
        }
    }

    /// The number of bytes that the view spans.
    pub fn len(&self) -> (n: usize)
        ensures
            n == self.spec_len(),
    {
        match self.text {
            None => 0,
            Some(s) => s.as_bytes().len(),
        }
    }
}

/// An owned, formatted text on its way across the boundary. The value
/// cannot be copied: whoever holds it is the one owner of the buffer, and
/// the buffer is given back exactly once, by `into_string` or when the
/// value goes out of scope.
#[derive(Debug)]
pub struct RustString {
    text: String,
}

impl View for RustString {
    type V = Seq<char>;

    closed spec fn view(&self) -> Seq<char> {
        self.text@
    }
}

impl From<String> for RustString {
    /// Takes over a native string, buffer and all.
    fn from(s: String) -> (owned: RustString)
        ensures
            owned@ == s@,
    {
        RustString { text: s }
    }
}

impl FromSpecImpl<String> for RustString {
    open spec fn obeys_from_spec() -> bool {
        true
    }

    closed spec fn from_spec(s: String) -> RustString {
        RustString { text: s }
    }
}

impl RustString {
    /// The text, borrowed for as long as the owner is.
    pub fn to_str(&self) -> (s: &str)
        ensures
            s@ == self@,
    {
        self.text.as_str()
    }

    /// Gives the buffer back as a native string and ends the owner.
    pub fn into_string(self) -> (s: String)
        ensures
            s@ == self@,
    {
        self.text
    }

    /// The number of bytes of the text.
    pub fn len(&self) -> (n: usize)
        ensures
            n == encode_utf8(self@).len(),
    {
        self.text.as_str().as_bytes().len()
    }
}

/// The line number in boundary form: the line itself, or `UNKNOWN_LINE`.
pub open spec fn line_to_wire(line: Option<u32>) -> i64 {
    match line {
        None => UNKNOWN_LINE,
        Some(n) => n as i64,
    }
}

/// Whether a boundary line number is one that `line_to_wire` gives.
pub open spec fn line_is_valid(line: i64) -> bool {
    line == UNKNOWN_LINE || 0 <= line <= u32::MAX
}

/// The line that a boundary line number stands for. A number that is
/// neither `UNKNOWN_LINE` nor a `u32` is cut down to its low 32 bits.
pub open spec fn line_from_wire(line: i64) -> Option<u32> {
    if line == UNKNOWN_LINE {
        None
    } else {
        Some(line as u32)
    }
}

/// Puts an optional line number into boundary form.
pub fn encode_line(line: Option<u32>) -> (wire: i64)
    ensures
        wire == line_to_wire(line),
        line_is_valid(wire),
{
    match line {
        None => UNKNOWN_LINE,
        Some(n) => n as i64,
    }
}

/// Reads a boundary line number.
pub fn decode_line(wire: i64) -> (line: Option<u32>)
    ensures
        line == line_from_wire(wire),
        line is None <==> wire == UNKNOWN_LINE,
{
    if wire == UNKNOWN_LINE {
        None
    } else {
        Some(
            #[verifier::truncate]
            (wire as u32),
        )
    }
}

/// Boundary form of an event's metadata. The target of a well-formed
/// value is not null.
#[derive(Clone, Copy, Debug)]
pub struct ExternCMetadata<'a> {
    pub level: LogLevel,
    pub target: RustStr<'a>,
}

/// What an `ExternCMetadata` denotes.
pub struct WireMetadataModel {
    pub level: LogLevel,
    pub target: Option<Seq<char>>,
}

impl<'a> View for ExternCMetadata<'a> {
    type V = WireMetadataModel;

    open spec fn view(&self) -> WireMetadataModel {
        WireMetadataModel { level: self.level, target: self.target@ }
    }
}

/// Boundary form of an event. It owns its message and borrows the rest.
#[derive(Debug)]
pub struct ExternCRecord<'a> {
    pub metadata: ExternCMetadata<'a>,
    /// The message, formatted before the crossing.
    pub message: RustString,
    /// Null where the event names no module.
    pub module: RustStr<'a>,
    /// Null where the event names no file.
    pub file: RustStr<'a>,
    /// `UNKNOWN_LINE` where the event has no line, else a `u32`.
    pub line: i64,
}

/// What an `ExternCRecord` denotes.
pub struct WireModel {
    pub level: LogLevel,
    pub target: Option<Seq<char>>,
    pub message: Seq<char>,
    pub module: Option<Seq<char>>,
    pub file: Option<Seq<char>>,
    pub line: i64,
}

impl<'a> View for ExternCRecord<'a> {
    type V = WireModel;

    open spec fn view(&self) -> WireModel {
        WireModel {
            level: self.metadata.level,
            target: self.metadata.target@,
            message: self.message@,
            module: self.module@,
            file: self.file@,
            line: self.line,
        }
    }
}

/// The boundary form of metadata.
pub open spec fn encode_metadata(m: MetadataModel) -> WireMetadataModel {
    WireMetadataModel { level: m.level, target: Some(m.target) }
}

/// The metadata that a boundary form with a target stands for.
pub open spec fn decode_metadata(w: WireMetadataModel) -> MetadataModel
    recommends
        w.target is Some,
{
    MetadataModel { level: w.level, target: w.target->0 }
}

/// The boundary form of an event.
pub open spec fn encode_event(e: EventModel) -> WireModel {
    WireModel {
        level: e.level,
        target: Some(e.target),
        message: e.message,
        module: e.module,
        file: e.file,
        line: line_to_wire(e.line),
    }
}

/// Whether a boundary form is one that `encode_event` gives: it has a
/// target, and its line is `UNKNOWN_LINE` or a `u32`.
pub open spec fn wire_is_valid(w: WireModel) -> bool {
    w.target is Some && line_is_valid(w.line)
}

/// The event that a boundary form with a target stands for.
pub open spec fn decode_event(w: WireModel) -> EventModel
    recommends
        w.target is Some,
{
    EventModel {
        level: w.level,
        target: w.target->0,
        message: w.message,
        module: w.module,
        file: w.file,
        line: line_from_wire(w.line),
    }
}

impl<'a, 'b> From<&'b EventMetadata<'a>> for ExternCMetadata<'a> {
    /// Puts metadata into boundary form.
    fn from(m: &'b EventMetadata<'a>) -> (wire: ExternCMetadata<'a>)
        ensures
            wire@ == encode_metadata(m@),
    {
        ExternCMetadata { level: m.level, target: RustStr::from(m.target) }
    }
}

impl<'a, 'b> FromSpecImpl<&'b EventMetadata<'a>> for ExternCMetadata<'a> {
    open spec fn obeys_from_spec() -> bool {
        true
    }

    open spec fn from_spec(m: &'b EventMetadata<'a>) -> ExternCMetadata<'a> {
        ExternCMetadata { level: m.level, target: <RustStr<'a> as FromSpec<&'a str>>::from_spec(m.target) }
    }
}

impl<'a> ExternCMetadata<'a> {
    /// Reads the metadata back. The target must not be null.
    pub fn as_metadata(&self) -> (m: EventMetadata<'a>)
        requires
            self@.target is Some,
        ensures
            m@ == decode_metadata(self@),
    {
        EventMetadata { level: self.level, target: self.target.to_str() }
    }
}

impl<'a> ExternCRecord<'a> {
    /// Puts an event into boundary form. The message gets a buffer of its
    /// own, which the new value owns; target, module and file are borrowed
    /// from where the event borrowed them.
    pub fn from(r: &LogEvent<'a>) -> (wire: ExternCRecord<'a>)
        ensures
            wire@ == encode_event(r@),
            wire_is_valid(wire@),
    {
        ExternCRecord {
            metadata: ExternCMetadata::from(&r.metadata),
            message: RustString::from(r.message.to_owned()),
            module: RustStr::from(r.module),
            file: RustStr::from(r.file),
            line: encode_line(r.line),
        }
    }

    /// Reads the event back. The target must not be null. The message of
    /// the event is borrowed from this value, which keeps the buffer.
    pub fn as_record<'b>(&'b self) -> (r: LogEvent<'b>)
        requires
            self@.target is Some,
        ensures
            r@ == decode_event(self@),
    {
        LogEvent {
            metadata: self.metadata.as_metadata(),
            message: self.message.to_str(),
            module: self.module.to_opt_str(),
            file: self.file.to_opt_str(),
            line: decode_line(self.line),
        }
    }

    /// Ends the boundary form and hands its message buffer to the caller,
    /// who is from then on the one to release it.
    pub fn into_message(self) -> (message: String)
        ensures
            message@ == self@.message,
    {
        self.message.into_string()
    }
}

/// An event that is put into boundary form and read back is the event
/// that went in: level, target, message, module, file and line, with an
/// absent module, file or line still absent and an empty text still
/// present. The boundary form is valid.
pub proof fn lemma_event_round_trip(e: EventModel)
    ensures
        wire_is_valid(encode_event(e)),
        decode_event(encode_event(e)) == e,
{
    match e.line {
        None => {},
        Some(n) => {
            assert(line_from_wire(n as i64) == Some(n));
        },
    }
}

/// A valid boundary form that is read and put into boundary form again is
/// unchanged, so no two valid boundary forms stand for the same event.
pub proof fn lemma_wire_round_trip(w: WireModel)
    requires
        wire_is_valid(w),
    ensures
        encode_event(decode_event(w)) == w,
{
    if w.line != UNKNOWN_LINE {
        assert((w.line as u32) as i64 == w.line);
    }
}

/// Metadata that is put into boundary form and read back is unchanged.
pub proof fn lemma_metadata_round_trip(m: MetadataModel)
    ensures
        encode_metadata(m).target is Some,
        decode_metadata(encode_metadata(m)) == m,
{
}

/// A line number survives the boundary, and so does its absence.
pub proof fn lemma_line_round_trip(line: Option<u32>)
    ensures
        line_is_valid(line_to_wire(line)),
        line_from_wire(line_to_wire(line)) == line,
{
}

/// A view made of an optional text gives that text back: nothing where
/// there was none, and a present text, empty or not, where there was one.
pub proof fn lemma_view_round_trip(text: Option<&str>, view: RustStr, back: Option<&str>)
    requires
        view@ == opt_text(text),
        opt_text(back) == view@,
    ensures
        back is None <==> text is None,
        text is Some ==> back->0@ == text->0@,
{
}

/// The bytes of a view, checked, give a view of the same text again, and
/// the null view gives the null view: the checked way refuses nothing
/// that a view can hold.
pub proof fn lemma_checked_accepts_views(view: RustStr)
    ensures
        view@ matches Some(text) ==> valid_utf8(encode_utf8(text)) && decode_utf8(
            encode_utf8(text),
        ) == text,
{
    if let Some(text) = view@ {
        encode_utf8_valid_utf8(text);
        encode_utf8_decode_utf8(text);
    }
}

/// The null view and a view of an empty text are different views and
/// different values.
pub proof fn lemma_null_is_not_empty(null: RustStr, empty: RustStr)
    requires
        null@ is None,
        empty@ == Some(Seq::<char>::empty()),
    ensures
        null@ != empty@,
        null != empty,
{
}

} // verus!
