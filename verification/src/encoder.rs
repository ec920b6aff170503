//! The encoder versions, and what each writes and reads.
//!
//! An encoded string is a version tag, a section delimiter, and pairs that are
//! separated by the pair delimiter:
//!
//! ```text
//! A~E:Signal,W:some-workflow-id,N:my-namespace,T:my-taskqueue,R:some-run-id,S:my_signal_name
//! ```
//!
//! A caller may append a second section delimiter and data of its own; decoding
//! leaves that section alone. Values are written as they are: a value that holds
//! a delimiter is the caller's mistake and does not decode to what was encoded.

use crate::error::{DecodeError, DecodeErrorView};
use crate::interaction::{
    text_of, text_or_empty, ExecuteTemporalWorkflow, ExecuteWorkflowView, InteractionView,
    QueryTemporal, QueryView, SignalTemporal, SignalView, TemporalInteraction,
    TemporalInteractionDiscriminants,
};
use crate::keys::{EncoderMap, KeysToTemporalAction, TEMPORAL_KEY_DELIMITER};
use crate::text::{
    cut_at_first, join, joined, pieces, slice_texts, split, split_once, string_texts,
};
use vstd::prelude::*;

verus! {

/// Separates the pairs of an encoded string.
pub const SLACK_INFO_DELIMITER: char = ',';

/// Separates the version tag from the pairs, and the pairs from the caller's data.
pub const ENCODER_SECTION_DELIMITER: char = '~';

/// An encoder version. Each version has a tag, and reads only what it wrote.
#[derive(Debug, Clone, Copy, PartialEq, Eq, Hash, Structural)]
pub enum Encoder {
    A,
}

impl Default for Encoder {
    fn default() -> (r: Encoder)
        ensures
            r == Encoder::A,
    {
        Encoder::A
    }
}

impl Encoder {
    /// Every version.
    pub open spec fn all() -> Seq<Encoder> {
        seq![Encoder::A]
    }

    /// The tag that an encoded string of this version starts with.
    pub open spec fn tag(self) -> Seq<char> {
        match self {
            Encoder::A => seq!['A'],
        }
    }

    /// The version with the tag `text`, if there is one.
    pub open spec fn with_tag(text: Seq<char>) -> Option<Encoder> {
        if text == seq!['A'] {
            Some(Encoder::A)
        } else {
            None
        }
    }

    /// Every version.
    pub fn iter() -> (r: Vec<Encoder>)
        ensures
            r@ == Self::all(),
    {
        let r = vec![Encoder::A];
        assert(r@ =~= Self::all());
        r
    }

    /// The tag of the version.
    pub fn as_str(&self) -> (r: &'static str)
        ensures
            r@ == self.tag(),
    {
        proof {
            reveal_strlit("A");
        }
        let r = match self {
            Encoder::A => "A",
        };
        assert(r@ =~= self.tag());
        r
    }

    /// The tag of the version as an owned string.
    pub fn to_string(&self) -> (r: String)
        ensures
            r@ == self.tag(),
    {
        self.as_str().to_owned()
    }

    /// Reads a version tag. Any other text is refused, and the error hands the
    /// text back.
    pub fn from_str(text: &str) -> (r: Result<Encoder, DecodeError>)
        ensures
            match r {
                Ok(version) => Self::with_tag(text@) == Some(version),
                Err(e) => Self::with_tag(text@) is None && e@ == DecodeErrorView::UnknownVersion(
                    text@,
                ),
            },
    {
        if text.unicode_len() == 1 && text.get_char(0) == 'A' {
            assert(text@ =~= seq!['A']);
            Ok(Encoder::A)
        } else {
            Err(DecodeError::UnknownVersion(text.to_owned()))
        }
    }
}

/// The version of an encoded string and what follows its tag.
pub open spec fn version_and_payload(encoded: Seq<char>) -> Result<
    (Encoder, Seq<char>),
    DecodeErrorView,
> {
    match cut_at_first(encoded, ENCODER_SECTION_DELIMITER) {
        None => Err(DecodeErrorView::MalformedVersion),
        Some((tag, payload)) => match Encoder::with_tag(tag) {
            Some(version) => Ok((version, payload)),
            None => Err(DecodeErrorView::UnknownVersion(tag)),
        },
    }
}

impl Encoder {
    /// Splits an encoded string into its version and what follows the tag.
    ///
    /// Fails with `MalformedVersion` when the string holds no section delimiter,
    /// and with `UnknownVersion` when the text before the first one is no tag.
    pub fn from_encoded_str(encoded: &str) -> (r: Result<(Encoder, &str), DecodeError>)
        ensures
            match r {
                Ok((version, payload)) => version_and_payload(encoded@) == Ok::<
                    (Encoder, Seq<char>),
                    DecodeErrorView,
                >((version, payload@)),
                Err(e) => version_and_payload(encoded@) == Err::<
                    (Encoder, Seq<char>),
                    DecodeErrorView,
                >(e@),
            },
    {
        match split_once(encoded, ENCODER_SECTION_DELIMITER) {
            None => Err(DecodeError::MalformedVersion),
            Some((tag, payload)) => match Encoder::from_str(tag) {
                Ok(version) => Ok((version, payload)),
                Err(e) => Err(e),
            },
        }
    }
}

/// A field code with the value written for it.
pub type Field = (KeysToTemporalAction, Seq<char>);

/// The fields as pairs, each as it is written.
pub open spec fn written(fields: Seq<Field>) -> Seq<Seq<char>> {
    fields.map_values(|field: Field| field.0.pair(field.1))
}

/// The string of `version` that holds `fields` in their order.
pub open spec fn encoded_fields(version: Encoder, fields: Seq<Field>) -> Seq<char> {
    match version {
        Encoder::A => version.tag() + seq![ENCODER_SECTION_DELIMITER] + joined(
            written(fields),
            seq![SLACK_INFO_DELIMITER],
        ),
    }
}

impl InteractionView {
    /// The fields of the command in the order in which they are written: the
    /// kind, the workflow id, the namespace, the task queue, and then what only
    /// commands of the kind have. An absent workflow id or run id is written as
    /// the empty text; arguments are not written at all.
    pub open spec fn layout(self) -> Seq<Field> {
        match self {
            InteractionView::Execute(action) => seq![
                (KeysToTemporalAction::E, TemporalInteractionDiscriminants::Execute.name()),
                (KeysToTemporalAction::W, action.workflow_id),
                (KeysToTemporalAction::N, action.namespace),
                (KeysToTemporalAction::T, action.task_queue),
                (KeysToTemporalAction::Y, action.workflow_type),
            ],
            InteractionView::Signal(action) => seq![
                (KeysToTemporalAction::E, TemporalInteractionDiscriminants::Signal.name()),
                (KeysToTemporalAction::W, text_or_empty(action.workflow_id)),
                (KeysToTemporalAction::N, action.namespace),
                (KeysToTemporalAction::T, action.task_queue),
                (KeysToTemporalAction::R, text_or_empty(action.run_id)),
                (KeysToTemporalAction::S, action.signal_name),
            ],
            InteractionView::Query(action) => seq![
                (KeysToTemporalAction::E, TemporalInteractionDiscriminants::Query.name()),
                (KeysToTemporalAction::W, text_or_empty(action.workflow_id)),
                (KeysToTemporalAction::N, action.namespace),
                (KeysToTemporalAction::T, action.task_queue),
                (KeysToTemporalAction::R, text_or_empty(action.run_id)),
                (KeysToTemporalAction::Q, action.query_type),
            ],
        }
    }

    /// The value that is written for `key` after the pair of the kind, `None`
    /// where the kind of the command leaves the key out.
    pub open spec fn written_value(self, key: KeysToTemporalAction) -> Option<Seq<char>> {
        match self {
            InteractionView::Execute(action) => match key {
                KeysToTemporalAction::W => Some(action.workflow_id),
                KeysToTemporalAction::N => Some(action.namespace),
                KeysToTemporalAction::T => Some(action.task_queue),
                KeysToTemporalAction::Y => Some(action.workflow_type),
                _ => None,
            },
            InteractionView::Signal(action) => match key {
                KeysToTemporalAction::W => Some(text_or_empty(action.workflow_id)),
                KeysToTemporalAction::N => Some(action.namespace),
                KeysToTemporalAction::T => Some(action.task_queue),
                KeysToTemporalAction::R => Some(text_or_empty(action.run_id)),
                KeysToTemporalAction::S => Some(action.signal_name),
                _ => None,
            },
            InteractionView::Query(action) => match key {
                KeysToTemporalAction::W => Some(text_or_empty(action.workflow_id)),
                KeysToTemporalAction::N => Some(action.namespace),
                KeysToTemporalAction::T => Some(action.task_queue),
                KeysToTemporalAction::R => Some(text_or_empty(action.run_id)),
                KeysToTemporalAction::Q => Some(action.query_type),
                _ => None,
            },
        }
    }

    /// The fields that are written for `keys` after the pair of the kind, in
    /// the order of `keys`.
    pub open spec fn written_fields(self, keys: Seq<KeysToTemporalAction>) -> Seq<Field>
        decreases keys.len(),
    {
        if keys.len() == 0 {
            Seq::empty()
        } else {
            let before = self.written_fields(keys.drop_last());
            match self.written_value(keys.last()) {
                Some(value) => before.push((keys.last(), value)),
                None => before,
            }
        }
    }
}

/// Whether `c` is one of the three characters that structure an encoded string.
pub open spec fn is_delimiter(c: char) -> bool {
    c == SLACK_INFO_DELIMITER || c == TEMPORAL_KEY_DELIMITER || c == ENCODER_SECTION_DELIMITER
}

/// Whether `text` holds no delimiter.
pub open spec fn delimiter_free(text: Seq<char>) -> bool {
    forall|i: int| 0 <= i < text.len() ==> !is_delimiter(#[trigger] text[i])
}

impl InteractionView {
    /// Whether no text that is written for the command holds a delimiter. Only
    /// such a command can be read back from its encoded string.
    pub open spec fn delimiter_free(self) -> bool {
        forall|i: int| 0 <= i < self.layout().len() ==> delimiter_free(#[trigger] self.layout()[i].1)
    }
}

/// Whether `text` holds no delimiter.
pub fn is_delimiter_free(text: &str) -> (r: bool)
    ensures
        r == delimiter_free(text@),
{
    for c in it: text.chars()
        invariant
            it.seq() == text@,
            forall|j: int| 0 <= j < it.index() ==> !is_delimiter(#[trigger] text@[j]),
    {
        if c == SLACK_INFO_DELIMITER || c == TEMPORAL_KEY_DELIMITER || c
            == ENCODER_SECTION_DELIMITER {
            assert(is_delimiter(text@[it.index()]));
            return false;
        }
    }
    true
}

/// Whether `text`, if there is one, holds no delimiter.
fn is_delimiter_free_or_absent(text: &Option<String>) -> (r: bool)
    ensures
        r == delimiter_free(text_or_empty(text_of(*text))),
{
    match text {
        Some(text) => is_delimiter_free(text.as_str()),
        None => true,
    }
}

impl TemporalInteraction {
    /// Whether no text that is written for the command holds a delimiter.
    ///
    /// Encoding does not ask for this, and writes a value with a delimiter as
    /// it is. A caller who wants the encoded string to decode to the command
    /// asks here first.
    pub fn is_delimiter_free(&self) -> (r: bool)
        ensures
            r == self@.delimiter_free(),
    {
        let ghost layout = self@.layout();
        proof {
            reveal_strlit("Execute");
            reveal_strlit("Signal");
            reveal_strlit("Query");
            assert(delimiter_free(layout[0].1));
        }
        let r = match self {
            TemporalInteraction::Execute(action) => {
                is_delimiter_free(action.workflow_id.as_str()) && is_delimiter_free(
                    action.namespace.as_str(),
                ) && is_delimiter_free(action.task_queue.as_str()) && is_delimiter_free(
                    action.workflow_type.as_str(),
                )
            },
            TemporalInteraction::Signal(action) => {
                is_delimiter_free_or_absent(&action.workflow_id) && is_delimiter_free(
                    action.namespace.as_str(),
                ) && is_delimiter_free(action.task_queue.as_str()) && is_delimiter_free_or_absent(
                    &action.run_id,
                ) && is_delimiter_free(action.signal_name.as_str())
            },
            TemporalInteraction::Query(action) => {
                is_delimiter_free_or_absent(&action.workflow_id) && is_delimiter_free(
                    action.namespace.as_str(),
                ) && is_delimiter_free(action.task_queue.as_str()) && is_delimiter_free_or_absent(
                    &action.run_id,
                ) && is_delimiter_free(action.query_type.as_str())
            },
        };
        proof {
            if self@.delimiter_free() {
                assert(delimiter_free(layout[1].1));
                assert(delimiter_free(layout[2].1));
                assert(delimiter_free(layout[3].1));
                assert(delimiter_free(layout[4].1));
                if layout.len() > 5 {
                    assert(delimiter_free(layout[5].1));
                }
            }
        }
        r
    }
}

/// The encoded string of `command` in `version`.
pub open spec fn encode_spec(version: Encoder, command: InteractionView) -> Seq<char> {
    encoded_fields(version, command.layout())
}

/// The order of the field codes is the order of the layout: after the kind,
/// the fields of a command stand as their codes stand in
/// [`KeysToTemporalAction::all`].
pub proof fn layout_follows_registry(command: InteractionView)
    ensures
        command.layout() == seq![(KeysToTemporalAction::E, command.kind().name())]
            + command.written_fields(KeysToTemporalAction::all()),
{
    reveal_with_fuel(InteractionView::written_fields, 10);
    assert(command.layout() =~= seq![(KeysToTemporalAction::E, command.kind().name())]
        + command.written_fields(KeysToTemporalAction::all()));
}

impl TemporalInteraction {
    /// The value that is written for `key`, if the kind of the command has it
    /// written.
    fn written_value(&self, key: KeysToTemporalAction) -> (r: Option<String>)
        ensures
            text_of(r) == self@.written_value(key),
    {
        match self {
            TemporalInteraction::Execute(action) => match key {
                KeysToTemporalAction::W => Some(self.workflow_id()),
                KeysToTemporalAction::N => Some(self.namespace()),
                KeysToTemporalAction::T => Some(self.task_queue()),
                KeysToTemporalAction::Y => Some(action.workflow_type.clone()),
                _ => None,
            },
            TemporalInteraction::Signal(action) => match key {
                KeysToTemporalAction::W => Some(self.workflow_id()),
                KeysToTemporalAction::N => Some(self.namespace()),
                KeysToTemporalAction::T => Some(self.task_queue()),
                KeysToTemporalAction::R => Some(action.run_id()),
                KeysToTemporalAction::S => Some(action.signal_name.clone()),
                _ => None,
            },
            TemporalInteraction::Query(action) => match key {
                KeysToTemporalAction::W => Some(self.workflow_id()),
                KeysToTemporalAction::N => Some(self.namespace()),
                KeysToTemporalAction::T => Some(self.task_queue()),
                KeysToTemporalAction::R => Some(action.run_id()),
                KeysToTemporalAction::Q => Some(action.query_type.clone()),
                _ => None,
            },
        }
    }

    /// The encoded string of the command in the default version.
    pub fn to_slack_string(self) -> (r: String)
        ensures
            r@ == encode_spec(Encoder::A, self@),
    {
        Encoder::A.encode(self)
    }
}

impl Encoder {
    /// Writes `temporal_interaction` as an encoded string of this version.
    ///
    /// The kind comes first, then the fields of the command in the order of
    /// [`KeysToTemporalAction::all`]. This never fails.
    pub fn encode(&self, temporal_interaction: TemporalInteraction) -> (r: String)
        ensures
            r@ == encode_spec(*self, temporal_interaction@),
    {
        match self {
            Encoder::A => {
                let ghost command = temporal_interaction@;
                let ghost kind_field = (KeysToTemporalAction::E, command.kind().name());
                let mut kv_pairs: Vec<String> = Vec::new();
                let kind = temporal_interaction.to_type_string();
                kv_pairs.push(KeysToTemporalAction::E.to_kv(kind.as_str()));
                assert(string_texts(kv_pairs@) == written(seq![kind_field]));
                let keys = KeysToTemporalAction::iter();
                let mut i: usize = 0;
                assert(command.written_fields(keys@.take(0)) == Seq::<Field>::empty());
                while i < keys.len()
                    invariant
                        i <= keys.len(),
                        keys@ == KeysToTemporalAction::all(),
                        command == temporal_interaction@,
                        kind_field == (KeysToTemporalAction::E, command.kind().name()),
                        string_texts(kv_pairs@) == written(
                            seq![kind_field] + command.written_fields(keys@.take(i as int)),
                        ),
                    decreases keys.len() - i,
                {
                    let key = keys[i];
                    let ghost before = seq![kind_field] + command.written_fields(
                        keys@.take(i as int),
                    );
                    proof {
                        assert(keys@.take(i + 1).drop_last() == keys@.take(i as int));
                        assert(keys@.take(i + 1).last() == key);
                    }
                    match temporal_interaction.written_value(key) {
                        Some(value) => {
                            let pair = key.to_kv(value.as_str());
                            proof {
                                assert(string_texts(kv_pairs@.push(pair)) == string_texts(
                                    kv_pairs@,
                                ).push(pair@));
                                assert(written(before.push((key, value@))) == written(before).push(
                                    pair@,
                                ));
                                assert(before.push((key, value@)) == seq![kind_field]
                                    + command.written_fields(keys@.take(i + 1)));
                            }
                            kv_pairs.push(pair);
                        },
                        None => {},
                    }
                    i = i + 1;
                }
                proof {
                    assert(keys@.take(keys.len() as int) == keys@);
                    layout_follows_registry(command);
                    reveal_strlit(",");
                    reveal_strlit("~");
                    assert(","@ == seq![SLACK_INFO_DELIMITER]);
                    assert("~"@ == seq![ENCODER_SECTION_DELIMITER]);
                }
                let pairs = join(&kv_pairs, ",");
                let mut r = self.to_string();
                r.append("~");
                r.append(pairs.as_str());
                r
            },
        }
    }
}

/// The pairs section of what follows the version tag: the text up to the next
/// section delimiter, or all of it when there is none.
pub open spec fn routing_section(payload: Seq<char>) -> Seq<char> {
    match cut_at_first(payload, ENCODER_SECTION_DELIMITER) {
        Some((routing, _)) => routing,
        None => payload,
    }
}

/// Each token cut at its first key delimiter. The first token without one
/// fails the whole with `MalformedPair`.
pub open spec fn raw_pairs(tokens: Seq<Seq<char>>) -> Result<
    Seq<(Seq<char>, Seq<char>)>,
    DecodeErrorView,
>
    decreases tokens.len(),
{
    if tokens.len() == 0 {
        Ok(Seq::empty())
    } else {
        match raw_pairs(tokens.drop_last()) {
            Err(e) => Err(e),
            Ok(before) => match cut_at_first(tokens.last(), TEMPORAL_KEY_DELIMITER) {
                Some(pair) => Ok(before.push(pair)),
                None => Err(DecodeErrorView::MalformedPair(tokens.last())),
            },
        }
    }
}

/// The value of each field code in `pairs`; of two pairs with one code the
/// later counts. The first key that is no field code fails the whole with
/// `UnknownKey`.
pub open spec fn field_values(pairs: Seq<(Seq<char>, Seq<char>)>) -> Result<
    Map<KeysToTemporalAction, Seq<char>>,
    DecodeErrorView,
>
    decreases pairs.len(),
{
    if pairs.len() == 0 {
        Ok(Map::empty())
    } else {
        match field_values(pairs.drop_last()) {
            Err(e) => Err(e),
            Ok(before) => match KeysToTemporalAction::with_code(pairs.last().0) {
                Some(key) => Ok(before.insert(key, pairs.last().1)),
                None => Err(DecodeErrorView::UnknownKey(pairs.last().0)),
            },
        }
    }
}

/// The value of an optional field.
pub open spec fn optional_value(
    fields: Map<KeysToTemporalAction, Seq<char>>,
    key: KeysToTemporalAction,
) -> Option<Seq<char>> {
    if fields.contains_key(key) {
        Some(fields[key])
    } else {
        None
    }
}

/// The command that `fields` describe, without arguments.
///
/// The kind is read first, then the namespace and the task queue, then what
/// the kind asks for; the first of these that is missing is the error.
pub open spec fn command_of(fields: Map<KeysToTemporalAction, Seq<char>>) -> Result<
    InteractionView,
    DecodeErrorView,
> {
    if !fields.contains_key(KeysToTemporalAction::E) {
        Err(DecodeErrorView::MissingEventKind)
    } else {
        match TemporalInteractionDiscriminants::with_name(fields[KeysToTemporalAction::E]) {
            None => Err(DecodeErrorView::UnknownEventKind(fields[KeysToTemporalAction::E])),
            Some(kind) => if !fields.contains_key(KeysToTemporalAction::N) {
                Err(DecodeErrorView::MissingRequiredField(KeysToTemporalAction::N))
            } else if !fields.contains_key(KeysToTemporalAction::T) {
                Err(DecodeErrorView::MissingRequiredField(KeysToTemporalAction::T))
            } else {
                let namespace = fields[KeysToTemporalAction::N];
                let task_queue = fields[KeysToTemporalAction::T];
                match kind {
                    TemporalInteractionDiscriminants::Execute => if !fields.contains_key(
                        KeysToTemporalAction::W,
                    ) {
                        Err(DecodeErrorView::MissingRequiredField(KeysToTemporalAction::W))
                    } else if !fields.contains_key(KeysToTemporalAction::Y) {
                        Err(DecodeErrorView::MissingRequiredField(KeysToTemporalAction::Y))
                    } else {
                        Ok(
                            InteractionView::Execute(
                                ExecuteWorkflowView {
                                    namespace,
                                    task_queue,
                                    workflow_id: fields[KeysToTemporalAction::W],
                                    workflow_type: fields[KeysToTemporalAction::Y],
                                    args: None,
                                },
                            ),
                        )
                    },
                    TemporalInteractionDiscriminants::Signal => if !fields.contains_key(
                        KeysToTemporalAction::S,
                    ) {
                        Err(DecodeErrorView::MissingRequiredField(KeysToTemporalAction::S))
                    } else {
                        Ok(
                            InteractionView::Signal(
                                SignalView {
                                    namespace,
                                    task_queue,
                                    workflow_id: optional_value(fields, KeysToTemporalAction::W),
                                    run_id: optional_value(fields, KeysToTemporalAction::R),
                                    signal_name: fields[KeysToTemporalAction::S],
                                    input: None,
                                    identity: None,
                                    request_id: None,
                                    control: None,
                                },
                            ),
                        )
                    },
                    TemporalInteractionDiscriminants::Query => if !fields.contains_key(
                        KeysToTemporalAction::Q,
                    ) {
                        Err(DecodeErrorView::MissingRequiredField(KeysToTemporalAction::Q))
                    } else {
                        Ok(
                            InteractionView::Query(
                                QueryView {
                                    namespace,
                                    task_queue,
                                    workflow_id: optional_value(fields, KeysToTemporalAction::W),
                                    run_id: optional_value(fields, KeysToTemporalAction::R),
                                    query_type: fields[KeysToTemporalAction::Q],
                                    query_args: None,
                                },
                            ),
                        )
                    },
                }
            },
        }
    }
}

/// What the pairs section `routing` of a string of `version` decodes to.
pub open spec fn decode_routing(version: Encoder, routing: Seq<char>) -> Result<
    InteractionView,
    DecodeErrorView,
> {
    match version {
        Encoder::A => match raw_pairs(pieces(routing, SLACK_INFO_DELIMITER)) {
            Err(e) => Err(e),
            Ok(pairs) => match field_values(pairs) {
                Err(e) => Err(e),
                Ok(fields) => command_of(fields),
            },
        },
    }
}

/// What `encoded` decodes to: the command it describes, or the first thing
/// that is wrong with it.
pub open spec fn decode_spec(encoded: Seq<char>) -> Result<InteractionView, DecodeErrorView> {
    match version_and_payload(encoded) {
        Err(e) => Err(e),
        Ok((version, payload)) => decode_routing(version, routing_section(payload)),
    }
}

/// The result of a decoding, with the command or the error as its view.
pub open spec fn outcome(r: Result<TemporalInteraction, DecodeError>) -> Result<
    InteractionView,
    DecodeErrorView,
> {
    match r {
        Ok(command) => Ok(command@),
        Err(e) => Err(e@),
    }
}

/// The texts of a sequence of key and value slices.
pub open spec fn pair_texts(v: Seq<(&str, &str)>) -> Seq<(Seq<char>, Seq<char>)> {
    v.map_values(|p: (&str, &str)| (p.0@, p.1@))
}

/// Once a token without a key delimiter is met, more tokens do not change the error.
proof fn lemma_raw_pairs_error_stays(tokens: Seq<Seq<char>>, n: int)
    requires
        0 <= n <= tokens.len(),
        raw_pairs(tokens.take(n)) is Err,
    ensures
        raw_pairs(tokens) == raw_pairs(tokens.take(n)),
    decreases tokens.len(),
{
    if n == tokens.len() {
        assert(tokens.take(n) == tokens);
    } else {
        assert(tokens.drop_last().take(n) == tokens.take(n));
        lemma_raw_pairs_error_stays(tokens.drop_last(), n);
    }
}

/// Once a key that is no field code is met, more pairs do not change the error.
proof fn lemma_field_values_error_stays(pairs: Seq<(Seq<char>, Seq<char>)>, n: int)
    requires
        0 <= n <= pairs.len(),
        field_values(pairs.take(n)) is Err,
    ensures
        field_values(pairs) == field_values(pairs.take(n)),
    decreases pairs.len(),
{
    if n == pairs.len() {
        assert(pairs.take(n) == pairs);
    } else {
        assert(pairs.drop_last().take(n) == pairs.take(n));
        lemma_field_values_error_stays(pairs.drop_last(), n);
    }
}

/// Cuts every token at its first key delimiter.
fn cut_pairs<'a>(tokens: &Vec<&'a str>) -> (r: Result<Vec<(&'a str, &'a str)>, DecodeError>)
    ensures
        match r {
            Ok(pairs) => raw_pairs(slice_texts(tokens@)) == Ok::<
                Seq<(Seq<char>, Seq<char>)>,
                DecodeErrorView,
            >(pair_texts(pairs@)),
            Err(e) => raw_pairs(slice_texts(tokens@)) == Err::<
                Seq<(Seq<char>, Seq<char>)>,
                DecodeErrorView,
            >(e@),
        },
{
    let ghost texts = slice_texts(tokens@);
    let mut kv_pairs: Vec<(&'a str, &'a str)> = Vec::new();
    let mut i: usize = 0;
    assert(texts.take(0) == Seq::<Seq<char>>::empty());
    assert(pair_texts(kv_pairs@) == Seq::<(Seq<char>, Seq<char>)>::empty());
    while i < tokens.len()
        invariant
            i <= tokens.len(),
            texts == slice_texts(tokens@),
            raw_pairs(texts.take(i as int)) == Ok::<Seq<(Seq<char>, Seq<char>)>, DecodeErrorView>(
                pair_texts(kv_pairs@),
            ),
        decreases tokens.len() - i,
    {
        let token = tokens[i];
        proof {
            assert(texts.take(i + 1).drop_last() == texts.take(i as int));
            assert(texts.take(i + 1).last() == token@);
        }
        match split_once(token, TEMPORAL_KEY_DELIMITER) {
            Some(pair) => {
                proof {
                    assert(pair_texts(kv_pairs@.push(pair)) == pair_texts(kv_pairs@).push(
                        (pair.0@, pair.1@),
                    ));
                }
                kv_pairs.push(pair);
            },
            None => {
                proof {
                    lemma_raw_pairs_error_stays(texts, i + 1);
                }
                return Err(DecodeError::MalformedPair(token.to_owned()));
            },
        }
        i = i + 1;
    }
    proof {
        assert(texts.take(tokens.len() as int) == texts);
    }
    Ok(kv_pairs)
}

/// Reads the key of every pair and collects the values by key.
fn collect_fields<'a>(kv_pairs: &Vec<(&'a str, &'a str)>) -> (r: Result<
    EncoderMap<'a>,
    DecodeError,
>)
    ensures
        match r {
            Ok(fields) => field_values(pair_texts(kv_pairs@)) == Ok::<
                Map<KeysToTemporalAction, Seq<char>>,
                DecodeErrorView,
            >(fields@),
            Err(e) => field_values(pair_texts(kv_pairs@)) == Err::<
                Map<KeysToTemporalAction, Seq<char>>,
                DecodeErrorView,
            >(e@),
        },
{
    let ghost texts = pair_texts(kv_pairs@);
    let mut encoder_map = EncoderMap::new();
    let mut i: usize = 0;
    assert(texts.take(0) == Seq::<(Seq<char>, Seq<char>)>::empty());
    while i < kv_pairs.len()
        invariant
            i <= kv_pairs.len(),
            texts == pair_texts(kv_pairs@),
            field_values(texts.take(i as int)) == Ok::<
                Map<KeysToTemporalAction, Seq<char>>,
                DecodeErrorView,
            >(encoder_map@),
        decreases kv_pairs.len() - i,
    {
        let (k, v) = kv_pairs[i];
        proof {
            assert(texts.take(i + 1).drop_last() == texts.take(i as int));
            assert(texts.take(i + 1).last() == (k@, v@));
        }
        match KeysToTemporalAction::from_str(k) {
            Ok(key) => {
                encoder_map.insert(key, v);
            },
            Err(e) => {
                proof {
                    lemma_field_values_error_stays(texts, i + 1);
                }
                return Err(e);
            },
        }
        i = i + 1;
    }
    proof {
        assert(texts.take(kv_pairs.len() as int) == texts);
    }
    Ok(encoder_map)
}

/// Takes the value of an optional field out of `encoder_map`.
fn take_optional<'a>(key: KeysToTemporalAction, encoder_map: &mut EncoderMap<'a>) -> (r: Option<
    String,
>)
    ensures
        final(encoder_map)@ == old(encoder_map)@.remove(key),
        text_of(r) == optional_value(old(encoder_map)@, key),
{
    match key.get_value(encoder_map) {
        Ok(value) => Some(value.to_owned()),
        Err(_) => None,
    }
}

/// Takes the value of a required field out of `encoder_map`.
fn take_required<'a>(key: KeysToTemporalAction, encoder_map: &mut EncoderMap<'a>) -> (r: Result<
    String,
    DecodeError,
>)
    ensures
        final(encoder_map)@ == old(encoder_map)@.remove(key),
        match r {
            Ok(value) => old(encoder_map)@.contains_key(key) && value@ == old(encoder_map)@[key],
            Err(e) => !old(encoder_map)@.contains_key(key) && e
                == DecodeError::MissingRequiredField(key),
        },
{
    match key.get_value(encoder_map) {
        Ok(value) => Ok(value.to_owned()),
        Err(e) => Err(e),
    }
}

impl Encoder {
    /// Reads an encoded string back into the command that it describes.
    ///
    /// The version tag selects the reader. Whatever follows a second section
    /// delimiter belongs to the caller and is not read. The command comes back
    /// without arguments: they were never written.
    ///
    /// The errors, in the order in which they are looked for:
    /// `MalformedVersion`, `UnknownVersion`, `MalformedPair` for the first token
    /// without a key delimiter, `UnknownKey` for the first key that is no field
    /// code, `MissingEventKind`, `UnknownEventKind`, and `MissingRequiredField`
    /// for the namespace, the task queue and what the kind asks for.
    pub fn decode(encoded_str: &str) -> (r: Result<TemporalInteraction, DecodeError>)
        ensures
            outcome(r) == decode_spec(encoded_str@),
    {
        let (encoder_version, payload) = Self::from_encoded_str(encoded_str)?;
        match encoder_version {
            Encoder::A => {
                let routing = match split_once(payload, ENCODER_SECTION_DELIMITER) {
                    Some((routing, _user_data)) => routing,
                    None => payload,
                };
                let tokens = split(routing, SLACK_INFO_DELIMITER);
                let kv_pairs = cut_pairs(&tokens)?;
                let mut encoder_map = collect_fields(&kv_pairs)?;
                let ghost fields = encoder_map@;
                assert(decode_spec(encoded_str@) == command_of(fields));

                let kind_text = match encoder_map.remove(KeysToTemporalAction::E) {
                    Some(text) => text,
                    None => {
                        return Err(DecodeError::MissingEventKind);
                    },
                };
                let kind = TemporalInteractionDiscriminants::from_str(kind_text)?;
                let namespace = take_required(KeysToTemporalAction::N, &mut encoder_map)?;
                let task_queue = take_required(KeysToTemporalAction::T, &mut encoder_map)?;

                let command = match kind {
                    TemporalInteractionDiscriminants::Execute => {
                        let workflow_id = take_required(KeysToTemporalAction::W, &mut encoder_map)?;
                        let workflow_type = take_required(
                            KeysToTemporalAction::Y,
                            &mut encoder_map,
                        )?;
                        TemporalInteraction::Execute(
                            ExecuteTemporalWorkflow {
                                namespace,
                                task_queue,
                                workflow_id,
                                workflow_type,
                                args: None,
                            },
                        )
                    },
                    TemporalInteractionDiscriminants::Signal => {
                        let workflow_id = take_optional(KeysToTemporalAction::W, &mut encoder_map);
                        let run_id = take_optional(KeysToTemporalAction::R, &mut encoder_map);
                        let signal_name = take_required(KeysToTemporalAction::S, &mut encoder_map)?;
                        TemporalInteraction::Signal(
                            SignalTemporal {
                                namespace,
                                task_queue,
                                workflow_id,
                                run_id,
                                signal_name,
                                input: None,
                                identity: None,
                                request_id: None,
                                control: None,
                            },
                        )
                    },
                    TemporalInteractionDiscriminants::Query => {
                        let workflow_id = take_optional(KeysToTemporalAction::W, &mut encoder_map);
                        let run_id = take_optional(KeysToTemporalAction::R, &mut encoder_map);
                        let query_type = take_required(KeysToTemporalAction::Q, &mut encoder_map)?;
                        TemporalInteraction::Query(
                            QueryTemporal {
                                namespace,
                                task_queue,
                                workflow_id,
                                run_id,
                                query_type,
                                query_args: None,
                            },
                        )
                    },
                };
                Ok(command)
            },
        }
    }
}

} // verus!
