//! What the clipboard held at one instant, and its form on the wire.

use vstd::prelude::*;
use vstd::string::*;
use vstd::std_specs::cmp::PartialEqSpecImpl;
use crate::codec::{json_escape, json_escaped, json_string, quote_json};
use crate::picture::{encode_image, image_payload, RawImage};

verus! {

/// The kind of content a snapshot carries.
#[derive(Clone, Copy, Debug, PartialEq, Eq, Structural)]
pub enum ContentType {
    Text,
    Image,
    Empty,
}

/// A snapshot as a value: its kind and the characters of its payload.
pub struct SnapshotView {
    pub content_type: ContentType,
    pub payload: Seq<char>,
}

/// Clipboard content at one point in time. The payload is the text itself,
/// the encoded picture, or empty.
#[derive(Debug)]
pub struct ClipboardSnapshot {
    pub content_type: ContentType,
    pub payload: String,
}

impl View for ClipboardSnapshot {
    type V = SnapshotView;

    open spec fn view(&self) -> SnapshotView {
        SnapshotView { content_type: self.content_type, payload: self.payload@ }
    }
}

impl PartialEq for ClipboardSnapshot {
    /// Two snapshots are equal exactly if kind and payload are both equal.
    fn eq(&self, other: &Self) -> (equal: bool) {
        self.content_type == other.content_type && self.payload == other.payload
    }
}

impl PartialEqSpecImpl for ClipboardSnapshot {
    open spec fn obeys_eq_spec() -> bool {
        true
    }

    open spec fn eq_spec(&self, other: &Self) -> bool {
        self.content_type == other.content_type && self.payload@ == other.payload@
    }
}

/// The name of a kind on the wire.
pub open spec fn kind_name(content_type: ContentType) -> Seq<char> {
    match content_type {
        ContentType::Text => "text"@,
        ContentType::Image => "image"@,
        ContentType::Empty => "empty"@,
    }
}

/// One broadcast message: a JSON object with the member `type`, then the
/// member `data`, whose value `quoted` is a finished JSON string literal.
pub open spec fn framed(content_type: ContentType, quoted: Seq<char>) -> Seq<char> {
    "{\"type\":\""@ + kind_name(content_type) + "\",\"data\":"@ + quoted + "}"@
}

/// The message that announces `snapshot`.
pub open spec fn wire_form(snapshot: SnapshotView) -> Seq<char> {
    framed(snapshot.content_type, json_string(snapshot.payload))
}

/// What one reading of the clipboard amounts to. Text wins over a picture;
/// a picture that cannot be encoded makes the reading fail; a clipboard
/// with neither is empty.
pub open spec fn reading_of(
    text: Option<Seq<char>>,
    image: Option<(usize, usize, Seq<u8>)>,
) -> Option<SnapshotView> {
    match (text, image) {
        (Some(t), _) => Some(SnapshotView { content_type: ContentType::Text, payload: t }),
        (None, Some(i)) => match image_payload(i.0, i.1, i.2) {
            Some(p) => Some(SnapshotView { content_type: ContentType::Image, payload: p }),
            None => None,
        },
        (None, None) => Some(
            SnapshotView { content_type: ContentType::Empty, payload: Seq::empty() },
        ),
    }
}

/// The view of an optional snapshot.
pub open spec fn view_of(snapshot: Option<ClipboardSnapshot>) -> Option<SnapshotView> {
    match snapshot {
        Some(s) => Some(s@),
        None => None,
    }
}

/// The view of an optional picture.
pub open spec fn picture_of(image: Option<RawImage>) -> Option<(usize, usize, Seq<u8>)> {
    match image {
        Some(i) => Some((i.width, i.height, i.bytes@)),
        None => None,
    }
}

/// The view of an optional text.
pub open spec fn text_of(text: Option<String>) -> Option<Seq<char>> {
    match text {
        Some(t) => Some(t@),
        None => None,
    }
}

impl ContentType {
    /// The name of this kind on the wire.
    pub fn name(self) -> (name: &'static str)
        ensures
            name@ == kind_name(self),
    {
        match self {
            ContentType::Text => "text",
            ContentType::Image => "image",
            ContentType::Empty => "empty",
        }
    }
}

impl ClipboardSnapshot {
    /// A snapshot of text.
    pub fn text(payload: String) -> (snapshot: Self)
        ensures
            snapshot@ == (SnapshotView { content_type: ContentType::Text, payload: payload@ }),
    {
        ClipboardSnapshot { content_type: ContentType::Text, payload }
    }

    /// A snapshot of a picture that has been encoded already.
    pub fn image(payload: String) -> (snapshot: Self)
        ensures
            snapshot@ == (SnapshotView { content_type: ContentType::Image, payload: payload@ }),
    {
        ClipboardSnapshot { content_type: ContentType::Image, payload }
    }

    /// The snapshot of a clipboard that holds neither text nor a picture.
    pub fn empty() -> (snapshot: Self)
        ensures
            snapshot@ == (SnapshotView { content_type: ContentType::Empty, payload: Seq::empty() }),
    {
        ClipboardSnapshot { content_type: ContentType::Empty, payload: String::new() }
    }

    /// The message that announces this snapshot to the clients.
    pub fn to_message(&self) -> (message: String)
        ensures
            message@ == wire_form(self@),
    {
        let quoted = quote_json(self.payload.as_str());
        frame_message(self.content_type, quoted.as_str())
    }
}

/// Text in which no character needs an escape is its own contents as a
/// JSON string literal: the literal is the text between quotation marks.
pub proof fn law_plain_text_is_quoted_as_it_stands(text: Seq<char>)
    requires
        forall|i: int| 0 <= i < text.len() ==> json_escape(#[trigger] text[i]) == seq![text[i]],
    ensures
        json_escaped(text) == text,
        json_string(text) == seq!['"'] + text + seq!['"'],
    decreases text.len(),
{
    if text.len() > 0 {
        law_plain_text_is_quoted_as_it_stands(text.drop_last());
        assert(text.drop_last() + seq![text.last()] =~= text);
    }
}

/// Puts a message together from a kind and the JSON string literal of the
/// payload.
pub fn frame_message(content_type: ContentType, quoted: &str) -> (message: String)
    ensures
        message@ == framed(content_type, quoted@),
{
    let mut message = String::from_str("{\"type\":\"");
    message.append(content_type.name());
    message.append("\",\"data\":");
    message.append(quoted);
    message.append("}");
    message
}

/// Makes the snapshot of one reading from what the clipboard gave: its
/// text if it had any, else its picture if it had one. `None` where the
/// picture cannot be encoded.
pub fn get_clipboard_content(text: Option<String>, image: Option<RawImage>) -> (snapshot: Option<
    ClipboardSnapshot,
>)
    ensures
        view_of(snapshot) == reading_of(text_of(text), picture_of(image)),
{
    match text {
        Some(t) => Some(ClipboardSnapshot::text(t)),
        None => match image {
            Some(i) => match encode_image(i) {
                Some(p) => Some(ClipboardSnapshot::image(p)),
                None => None,
            },
            None => Some(ClipboardSnapshot::empty()),
        },
    }
}

} // verus!
