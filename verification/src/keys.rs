//! The field codes of encoder version `A`.
//!
//! Every pair of an encoded string starts with one of these codes. The order of
//! [`KeysToTemporalAction::all`] is the order in which an encoder writes them.

use crate::error::{DecodeError, DecodeErrorView};
use std::collections::HashMap;
use vstd::prelude::*;

verus! {

/// Separates the key of a pair from its value.
pub const TEMPORAL_KEY_DELIMITER: char = ':';

/// A field code.
#[derive(Debug, Clone, Copy, PartialEq, Eq, Hash, Structural)]
pub enum KeysToTemporalAction {
    /// Kind of the interaction.
    E,
    /// Workflow id.
    W,
    /// Namespace.
    N,
    /// Task queue.
    T,
    /// Workflow type, the name of the workflow function.
    Y,
    /// Run id.
    R,
    /// Signal name.
    S,
    /// Query type.
    Q,
    /// Query arguments.
    U,
}

impl KeysToTemporalAction {
    /// Every code, in the order in which they are written.
    pub open spec fn all() -> Seq<KeysToTemporalAction> {
        seq![
            KeysToTemporalAction::E,
            KeysToTemporalAction::W,
            KeysToTemporalAction::N,
            KeysToTemporalAction::T,
            KeysToTemporalAction::Y,
            KeysToTemporalAction::R,
            KeysToTemporalAction::S,
            KeysToTemporalAction::Q,
            KeysToTemporalAction::U,
        ]
    }

    /// The character that stands for the code.
    pub open spec fn letter(self) -> char {
        match self {
            KeysToTemporalAction::E => 'E',
            KeysToTemporalAction::W => 'W',
            KeysToTemporalAction::N => 'N',
            KeysToTemporalAction::T => 'T',
            KeysToTemporalAction::Y => 'Y',
            KeysToTemporalAction::R => 'R',
            KeysToTemporalAction::S => 'S',
            KeysToTemporalAction::Q => 'Q',
            KeysToTemporalAction::U => 'U',
        }
    }

    /// The code as it is written in an encoded string.
    pub open spec fn code(self) -> Seq<char> {
        seq![self.letter()]
    }

    /// The code that `text` spells, if it spells one.
    pub open spec fn with_code(text: Seq<char>) -> Option<KeysToTemporalAction> {
        if text.len() != 1 {
            None
        } else if text[0] == 'E' {
            Some(KeysToTemporalAction::E)
        } else if text[0] == 'W' {
            Some(KeysToTemporalAction::W)
        } else if text[0] == 'N' {
            Some(KeysToTemporalAction::N)
        } else if text[0] == 'T' {
            Some(KeysToTemporalAction::T)
        } else if text[0] == 'Y' {
            Some(KeysToTemporalAction::Y)
        } else if text[0] == 'R' {
            Some(KeysToTemporalAction::R)
        } else if text[0] == 'S' {
            Some(KeysToTemporalAction::S)
        } else if text[0] == 'Q' {
            Some(KeysToTemporalAction::Q)
        } else if text[0] == 'U' {
            Some(KeysToTemporalAction::U)
        } else {
            None
        }
    }

    /// The name of the field that the code stands for.
    pub open spec fn field(self) -> Seq<char> {
        match self {
            KeysToTemporalAction::E => "event_kind"@,
            KeysToTemporalAction::W => "workflow_id"@,
            KeysToTemporalAction::N => "namespace"@,
            KeysToTemporalAction::T => "task_queue"@,
            KeysToTemporalAction::Y => "workflow_type"@,
            KeysToTemporalAction::R => "run_id"@,
            KeysToTemporalAction::S => "signal_name"@,
            KeysToTemporalAction::Q => "query_type"@,
            KeysToTemporalAction::U => "query_args"@,
        }
    }

    /// A pair as it is written: the code, the key delimiter, the value.
    pub open spec fn pair(self, value: Seq<char>) -> Seq<char> {
        self.code() + seq![TEMPORAL_KEY_DELIMITER] + value
    }

    /// Every code, in the order in which they are written.
    pub fn iter() -> (r: Vec<KeysToTemporalAction>)
        ensures
            r@ == Self::all(),
    {
        let r = vec![
            KeysToTemporalAction::E,
            KeysToTemporalAction::W,
            KeysToTemporalAction::N,
            KeysToTemporalAction::T,
            KeysToTemporalAction::Y,
            KeysToTemporalAction::R,
            KeysToTemporalAction::S,
            KeysToTemporalAction::Q,
            KeysToTemporalAction::U,
        ];
        assert(r@ =~= Self::all());
        r
    }

    /// The code as it is written in an encoded string.
    pub fn as_str(&self) -> (r: &'static str)
        ensures
            r@ == self.code(),
    {
        proof {
            reveal_strlit("E");
            reveal_strlit("W");
            reveal_strlit("N");
            reveal_strlit("T");
            reveal_strlit("Y");
            reveal_strlit("R");
            reveal_strlit("S");
            reveal_strlit("Q");
            reveal_strlit("U");
        }
        let r = match self {
            KeysToTemporalAction::E => "E",
            KeysToTemporalAction::W => "W",
            KeysToTemporalAction::N => "N",
            KeysToTemporalAction::T => "T",
            KeysToTemporalAction::Y => "Y",
            KeysToTemporalAction::R => "R",
            KeysToTemporalAction::S => "S",
            KeysToTemporalAction::Q => "Q",
            KeysToTemporalAction::U => "U",
        };
        assert(r@ =~= self.code());
        r
    }

    /// The code as an owned string.
    pub fn to_string(&self) -> (r: String)
        ensures
            r@ == self.code(),
    {
        self.as_str().to_owned()
    }

    /// The name of the field that the code stands for.
    pub fn field_name(&self) -> (r: &'static str)
        ensures
            r@ == self.field(),
    {
        match self {
            KeysToTemporalAction::E => "event_kind",
            KeysToTemporalAction::W => "workflow_id",
            KeysToTemporalAction::N => "namespace",
            KeysToTemporalAction::T => "task_queue",
            KeysToTemporalAction::Y => "workflow_type",
            KeysToTemporalAction::R => "run_id",
            KeysToTemporalAction::S => "signal_name",
            KeysToTemporalAction::Q => "query_type",
            KeysToTemporalAction::U => "query_args",
        }
    }

    /// Reads a code. Any text but the nine codes is refused, and the error
    /// hands the text back.
    pub fn from_str(text: &str) -> (r: Result<KeysToTemporalAction, DecodeError>)
        ensures
            match r {
                Ok(key) => Self::with_code(text@) == Some(key),
                Err(e) => Self::with_code(text@) is None && e@ == DecodeErrorView::UnknownKey(
                    text@,
                ),
            },
    {
        if text.unicode_len() != 1 {
            return Err(DecodeError::UnknownKey(text.to_owned()));
        }
        let c = text.get_char(0);
        if c == 'E' {
            Ok(KeysToTemporalAction::E)
        } else if c == 'W' {
            Ok(KeysToTemporalAction::W)
        } else if c == 'N' {
            Ok(KeysToTemporalAction::N)
        } else if c == 'T' {
            Ok(KeysToTemporalAction::T)
        } else if c == 'Y' {
            Ok(KeysToTemporalAction::Y)
        } else if c == 'R' {
            Ok(KeysToTemporalAction::R)
        } else if c == 'S' {
            Ok(KeysToTemporalAction::S)
        } else if c == 'Q' {
            Ok(KeysToTemporalAction::Q)
        } else if c == 'U' {
            Ok(KeysToTemporalAction::U)
        } else {
            Err(DecodeError::UnknownKey(text.to_owned()))
        }
    }

    /// Writes the pair of this code and `value`.
    pub fn to_kv(&self, value: &str) -> (r: String)
        ensures
            r@ == self.pair(value@),
    {
        proof {
            reveal_strlit(":");
        }
        let mut r = self.to_string();
        r.append(":");
        r.append(value);
        assert(r@ =~= self.pair(value@));
        r
    }
}

impl KeysToTemporalAction {
    /// The key under which [`EncoderMap`] keeps the value of this code.
    pub open spec fn slot(self) -> u8 {
        match self {
            KeysToTemporalAction::E => 0,
            KeysToTemporalAction::W => 1,
            KeysToTemporalAction::N => 2,
            KeysToTemporalAction::T => 3,
            KeysToTemporalAction::Y => 4,
            KeysToTemporalAction::R => 5,
            KeysToTemporalAction::S => 6,
            KeysToTemporalAction::Q => 7,
            KeysToTemporalAction::U => 8,
        }
    }

    fn slot_number(&self) -> (r: u8)
        ensures
            r == self.slot(),
    {
        match self {
            KeysToTemporalAction::E => 0,
            KeysToTemporalAction::W => 1,
            KeysToTemporalAction::N => 2,
            KeysToTemporalAction::T => 3,
            KeysToTemporalAction::Y => 4,
            KeysToTemporalAction::R => 5,
            KeysToTemporalAction::S => 6,
            KeysToTemporalAction::Q => 7,
            KeysToTemporalAction::U => 8,
        }
    }

    /// Takes the value of this code out of `encoder_map`. A code without a
    /// value is reported as a missing required field, and the map stays as it was.
    pub fn get_value<'a>(&self, encoder_map: &mut EncoderMap<'a>) -> (r: Result<
        &'a str,
        DecodeError,
    >)
        ensures
            final(encoder_map)@ == old(encoder_map)@.remove(*self),
            match r {
                Ok(value) => old(encoder_map)@.contains_key(*self) && value@ == old(
                    encoder_map,
                )@[*self],
                Err(e) => !old(encoder_map)@.contains_key(*self) && e
                    == DecodeError::MissingRequiredField(*self),
            },
    {
        match encoder_map.remove(*self) {
            Some(value) => Ok(value),
            None => Err(DecodeError::MissingRequiredField(*self)),
        }
    }
}

/// The values read from an encoded string, by field code.
pub struct EncoderMap<'a> {
    values: HashMap<u8, &'a str>,
}

impl<'a> View for EncoderMap<'a> {
    type V = Map<KeysToTemporalAction, Seq<char>>;

    closed spec fn view(&self) -> Map<KeysToTemporalAction, Seq<char>> {
        Map::new(
            |key: KeysToTemporalAction| self.values@.contains_key(key.slot()),
            |key: KeysToTemporalAction| self.values@[key.slot()]@,
        )
    }
}

impl<'a> EncoderMap<'a> {
    /// A map without values.
    pub fn new() -> (r: EncoderMap<'a>)
        ensures
            r@ == Map::<KeysToTemporalAction, Seq<char>>::empty(),
    {
        let r = EncoderMap { values: HashMap::new() };
        assert(r@ =~= Map::<KeysToTemporalAction, Seq<char>>::empty());
        r
    }

    /// Gives `key` the value `value`, in place of any value it had.
    pub fn insert(&mut self, key: KeysToTemporalAction, value: &'a str)
        ensures
            final(self)@ == old(self)@.insert(key, value@),
    {
        self.values.insert(key.slot_number(), value);
        assert(self@ =~= old(self)@.insert(key, value@));
    }

    /// Takes the value of `key` out of the map.
    pub fn remove(&mut self, key: KeysToTemporalAction) -> (r: Option<&'a str>)
        ensures
            final(self)@ == old(self)@.remove(key),
            match r {
                Some(value) => old(self)@.contains_key(key) && value@ == old(self)@[key],
                None => !old(self)@.contains_key(key),
            },
    {
        let slot = key.slot_number();
        let r = self.values.remove(&slot);
        assert(self@ =~= old(self)@.remove(key));
        r
    }
}

/// Reading a code back gives the code that was written, and no two codes are
/// written alike.
pub proof fn code_identifies_key(key: KeysToTemporalAction, text: Seq<char>)
    ensures
        KeysToTemporalAction::with_code(key.code()) == Some(key),
        KeysToTemporalAction::with_code(text) == Some(key) ==> text == key.code(),
{
    if KeysToTemporalAction::with_code(text) == Some(key) {
        assert(text =~= key.code());
    }
}

/// Every code stands in [`KeysToTemporalAction::all`], and only once.
pub proof fn all_lists_every_key_once(key: KeysToTemporalAction)
    ensures
        KeysToTemporalAction::all().contains(key),
        KeysToTemporalAction::all().no_duplicates(),
        KeysToTemporalAction::all().len() == 9,
{
    let all = KeysToTemporalAction::all();
    match key {
        KeysToTemporalAction::E => assert(all[0] == key),
        KeysToTemporalAction::W => assert(all[1] == key),
        KeysToTemporalAction::N => assert(all[2] == key),
        KeysToTemporalAction::T => assert(all[3] == key),
        KeysToTemporalAction::Y => assert(all[4] == key),
        KeysToTemporalAction::R => assert(all[5] == key),
        KeysToTemporalAction::S => assert(all[6] == key),
        KeysToTemporalAction::Q => assert(all[7] == key),
        KeysToTemporalAction::U => assert(all[8] == key),
    }
}

} // verus!
