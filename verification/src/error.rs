//! The ways in which decoding a callback identifier fails.

use crate::keys::KeysToTemporalAction;
use vstd::prelude::*;

verus! {

/// Why an encoded string could not be decoded. Each failure carries the piece
/// of the input that caused it.
#[derive(Debug, PartialEq, Eq)]
pub enum DecodeError {
    /// The string holds no section delimiter, so no version tag can be read.
    MalformedVersion,
    /// The text before the first section delimiter names no encoder version.
    UnknownVersion(String),
    /// A token between pair delimiters holds no key delimiter.
    MalformedPair(String),
    /// The key of a pair is not a field code of the version.
    UnknownKey(String),
    /// No pair gives the kind of the interaction.
    MissingEventKind,
    /// The kind that the string gives names no interaction.
    UnknownEventKind(String),
    /// A field that the interaction cannot do without has no pair.
    MissingRequiredField(KeysToTemporalAction),
}

/// A [`DecodeError`] with its texts as sequences of characters.
pub enum DecodeErrorView {
    MalformedVersion,
    UnknownVersion(Seq<char>),
    MalformedPair(Seq<char>),
    UnknownKey(Seq<char>),
    MissingEventKind,
    UnknownEventKind(Seq<char>),
    MissingRequiredField(KeysToTemporalAction),
}

impl View for DecodeError {
    type V = DecodeErrorView;

    open spec fn view(&self) -> DecodeErrorView {
        match self {
            DecodeError::MalformedVersion => DecodeErrorView::MalformedVersion,
            DecodeError::UnknownVersion(tag) => DecodeErrorView::UnknownVersion(tag@),
            DecodeError::MalformedPair(token) => DecodeErrorView::MalformedPair(token@),
            DecodeError::UnknownKey(code) => DecodeErrorView::UnknownKey(code@),
            DecodeError::MissingEventKind => DecodeErrorView::MissingEventKind,
            DecodeError::UnknownEventKind(kind) => DecodeErrorView::UnknownEventKind(kind@),
            DecodeError::MissingRequiredField(key) => DecodeErrorView::MissingRequiredField(*key),
        }
    }
}

/// The shape of an encoded string, for the message of a malformed one.
pub const ENCODER_HELP_MSG: &'static str =
    "Encoder string format: version~temporal_key:temporal_value~user_data";

impl DecodeErrorView {
    /// The error in words.
    pub open spec fn message(self) -> Seq<char> {
        match self {
            DecodeErrorView::MalformedVersion => "Malformed version in encoder string: "@
                + ENCODER_HELP_MSG@,
            DecodeErrorView::UnknownVersion(tag) => "invalid version string: "@ + tag,
            DecodeErrorView::MalformedPair(token) => "not a formatted kv pair: "@ + token,
            DecodeErrorView::UnknownKey(code) => "not a temporal key: "@ + code,
            DecodeErrorView::MissingEventKind => "temporal event type not supplied in callback_id"@,
            DecodeErrorView::UnknownEventKind(kind) => "not a temporal event type: "@ + kind,
            DecodeErrorView::MissingRequiredField(key) => "temporal key `"@ + key.code() + "` ("@
                + key.field() + ") not supplied in callback_id"@,
        }
    }
}

impl DecodeError {
    /// The error in words, with the piece of the input that caused it.
    pub fn message(&self) -> (r: String)
        ensures
            r@ == self@.message(),
    {
        match self {
            DecodeError::MalformedVersion => {
                let mut r = "Malformed version in encoder string: ".to_owned();
                r.append(ENCODER_HELP_MSG);
                r
            },
            DecodeError::UnknownVersion(tag) => {
                let mut r = "invalid version string: ".to_owned();
                r.append(tag.as_str());
                r
            },
            DecodeError::MalformedPair(token) => {
                let mut r = "not a formatted kv pair: ".to_owned();
                r.append(token.as_str());
                r
            },
            DecodeError::UnknownKey(code) => {
                let mut r = "not a temporal key: ".to_owned();
                r.append(code.as_str());
                r
            },
            DecodeError::MissingEventKind => {
                "temporal event type not supplied in callback_id".to_owned()
            },
            DecodeError::UnknownEventKind(kind) => {
                let mut r = "not a temporal event type: ".to_owned();
                r.append(kind.as_str());
                r
            },
            DecodeError::MissingRequiredField(key) => {
                let mut r = "temporal key `".to_owned();
                r.append(key.as_str());
                r.append("` (");
                r.append(key.field_name());
                r.append(") not supplied in callback_id");
                r
            },
        }
    }
}

} // verus!
