//! What writing and reading have to do with each other.
//!
//! The proofs here speak of [`encode_spec`] and [`decode_spec`], which are what
//! [`Encoder::encode`](crate::encoder::Encoder::encode) and
//! [`Encoder::decode`](crate::encoder::Encoder::decode) compute.

use crate::encoder::{
    command_of, decode_routing, decode_spec, delimiter_free, encode_spec, encoded_fields,
    field_values, is_delimiter, raw_pairs, routing_section, written, Encoder, Field,
    ENCODER_SECTION_DELIMITER, SLACK_INFO_DELIMITER,
};
use crate::error::DecodeErrorView;
use crate::interaction::{
    name_identifies_kind, text_or_empty, ExecuteWorkflowView, InteractionView, QueryView,
    SignalView, TemporalInteractionDiscriminants,
};
use crate::keys::{code_identifies_key, KeysToTemporalAction, TEMPORAL_KEY_DELIMITER};
use crate::text::{
    cut_at_first, joined, lemma_cut_at_separator, lemma_joined_lacks, lemma_joined_len,
    lemma_pieces_of_joined, lemma_uncut, pieces, total_len,
};
use vstd::prelude::*;

verus! {

/// Whether a value can be written without breaking the string around it: it
/// holds neither the pair delimiter nor the section delimiter.
pub open spec fn keeps_its_place(value: Seq<char>) -> bool {
    !value.contains(SLACK_INFO_DELIMITER) && !value.contains(ENCODER_SECTION_DELIMITER)
}

/// The fields as pairs of texts, each as it is read before its key is looked up.
pub open spec fn coded(fields: Seq<Field>) -> Seq<(Seq<char>, Seq<char>)> {
    fields.map_values(|field: Field| (field.0.code(), field.1))
}

/// The value of each code in `fields`; of two fields with one code the later counts.
pub open spec fn values_by_key(fields: Seq<Field>) -> Map<KeysToTemporalAction, Seq<char>>
    decreases fields.len(),
{
    if fields.len() == 0 {
        Map::empty()
    } else {
        values_by_key(fields.drop_last()).insert(fields.last().0, fields.last().1)
    }
}

/// Whether a command of `kind` cannot be read without a value for `key`.
pub open spec fn is_required(kind: TemporalInteractionDiscriminants, key: KeysToTemporalAction)
    -> bool {
    ||| key == KeysToTemporalAction::N
    ||| key == KeysToTemporalAction::T
    ||| match kind {
        TemporalInteractionDiscriminants::Execute => key == KeysToTemporalAction::W || key
            == KeysToTemporalAction::Y,
        TemporalInteractionDiscriminants::Signal => key == KeysToTemporalAction::S,
        TemporalInteractionDiscriminants::Query => key == KeysToTemporalAction::Q,
    }
}

impl InteractionView {
    /// The layout of a signal or of a query without the pairs of the workflow
    /// id and of the run id.
    pub open spec fn layout_without_ids(self) -> Seq<Field> {
        self.layout().remove(4).remove(1)
    }

    /// The command as it comes back from its encoded string: without arguments,
    /// without what a signal holds beyond its name, and with an absent workflow
    /// id or run id read as the empty text that was written for it.
    pub open spec fn as_decoded(self) -> InteractionView {
        match self {
            InteractionView::Execute(action) => InteractionView::Execute(
                ExecuteWorkflowView { args: None, ..action },
            ),
            InteractionView::Signal(action) => InteractionView::Signal(
                SignalView {
                    workflow_id: Some(text_or_empty(action.workflow_id)),
                    run_id: Some(text_or_empty(action.run_id)),
                    input: None,
                    identity: None,
                    request_id: None,
                    control: None,
                    ..action
                },
            ),
            InteractionView::Query(action) => InteractionView::Query(
                QueryView {
                    workflow_id: Some(text_or_empty(action.workflow_id)),
                    run_id: Some(text_or_empty(action.run_id)),
                    query_args: None,
                    ..action
                },
            ),
        }
    }

    /// The command as it comes back from [`Self::layout_without_ids`].
    pub open spec fn as_decoded_without_ids(self) -> InteractionView {
        match self.as_decoded() {
            InteractionView::Execute(action) => InteractionView::Execute(action),
            InteractionView::Signal(action) => InteractionView::Signal(
                SignalView { workflow_id: None, run_id: None, ..action },
            ),
            InteractionView::Query(action) => InteractionView::Query(
                QueryView { workflow_id: None, run_id: None, ..action },
            ),
        }
    }

    /// Whether the arguments are all that writing the command leaves out: a
    /// signal or a query names its workflow and its run, and a signal holds no
    /// identity, request id or control.
    pub open spec fn fully_written(self) -> bool {
        match self {
            InteractionView::Execute(_) => true,
            InteractionView::Signal(action) => {
                &&& action.workflow_id is Some
                &&& action.run_id is Some
                &&& action.identity is None
                &&& action.request_id is None
                &&& action.control is None
            },
            InteractionView::Query(action) => action.workflow_id is Some && action.run_id is Some,
        }
    }
}

/// A text without delimiters keeps its place.
proof fn lemma_delimiter_free_keeps_its_place(value: Seq<char>)
    requires
        delimiter_free(value),
    ensures
        keeps_its_place(value),
{
    if value.contains(SLACK_INFO_DELIMITER) {
        let i = choose|i: int| 0 <= i < value.len() && value[i] == SLACK_INFO_DELIMITER;
        assert(is_delimiter(value[i]));
    }
    if value.contains(ENCODER_SECTION_DELIMITER) {
        let i = choose|i: int| 0 <= i < value.len() && value[i] == ENCODER_SECTION_DELIMITER;
        assert(is_delimiter(value[i]));
    }
}

/// Every value that is written for a delimiter-free command keeps its place.
proof fn lemma_layout_keeps_its_place(command: InteractionView)
    requires
        command.delimiter_free(),
    ensures
        forall|i: int|
            0 <= i < command.layout().len() ==> keeps_its_place(#[trigger] command.layout()[i].1),
{
    assert forall|i: int| 0 <= i < command.layout().len() implies keeps_its_place(
        #[trigger] command.layout()[i].1,
    ) by {
        lemma_delimiter_free_keeps_its_place(command.layout()[i].1);
    }
}

/// A text of one character holds no other character.
proof fn lemma_single_lacks(only: char, c: char)
    requires
        only != c,
    ensures
        !seq![only].contains(c),
{
    if seq![only].contains(c) {
        let j = choose|j: int| 0 <= j < seq![only].len() && seq![only][j] == c;
        assert(false);
    }
}

/// No version tag holds a section delimiter.
proof fn lemma_tag_lacks_section_delimiter(version: Encoder)
    ensures
        !version.tag().contains(ENCODER_SECTION_DELIMITER),
{
    match version {
        Encoder::A => lemma_single_lacks('A', ENCODER_SECTION_DELIMITER),
    }
}

/// A written pair holds `c` only if `c` is the letter of the code, the key
/// delimiter, or in the value.
proof fn lemma_pair_lacks(field: Field, c: char)
    requires
        !field.1.contains(c),
        c != TEMPORAL_KEY_DELIMITER,
        c != field.0.letter(),
    ensures
        !field.0.pair(field.1).contains(c),
{
    let pair = field.0.pair(field.1);
    if pair.contains(c) {
        let j = choose|j: int| 0 <= j < pair.len() && pair[j] == c;
        if j >= 2 {
            assert(field.1[j - 2] == c);
        }
    }
}

/// Where the values keep their place, no written pair holds a pair delimiter
/// or a section delimiter, and neither do the pairs joined.
proof fn lemma_pairs_keep_their_place(fields: Seq<Field>)
    requires
        forall|i: int| 0 <= i < fields.len() ==> keeps_its_place(#[trigger] fields[i].1),
    ensures
        forall|i: int|
            0 <= i < fields.len() ==> !(#[trigger] written(fields)[i]).contains(
                SLACK_INFO_DELIMITER,
            ),
        !joined(written(fields), seq![SLACK_INFO_DELIMITER]).contains(ENCODER_SECTION_DELIMITER),
{
    let pairs = written(fields);
    assert forall|i: int| 0 <= i < pairs.len() implies !(#[trigger] pairs[i]).contains(
        ENCODER_SECTION_DELIMITER,
    ) && !pairs[i].contains(SLACK_INFO_DELIMITER) by {
        assert(keeps_its_place(fields[i].1));
        lemma_pair_lacks(fields[i], ENCODER_SECTION_DELIMITER);
        lemma_pair_lacks(fields[i], SLACK_INFO_DELIMITER);
    }
    lemma_single_lacks(SLACK_INFO_DELIMITER, ENCODER_SECTION_DELIMITER);
    lemma_joined_lacks(pairs, seq![SLACK_INFO_DELIMITER], ENCODER_SECTION_DELIMITER);
}

/// Written pairs are cut back into the code and the value of each field.
proof fn lemma_raw_pairs_of_written(fields: Seq<Field>)
    ensures
        raw_pairs(written(fields)) == Ok::<Seq<(Seq<char>, Seq<char>)>, DecodeErrorView>(
            coded(fields),
        ),
    decreases fields.len(),
{
    if fields.len() == 0 {
        assert(coded(fields) =~= Seq::empty());
    } else {
        let last = fields.last();
        lemma_raw_pairs_of_written(fields.drop_last());
        assert(written(fields).drop_last() =~= written(fields.drop_last()));
        assert(written(fields).last() == last.0.code() + seq![TEMPORAL_KEY_DELIMITER] + last.1);
        lemma_single_lacks(last.0.letter(), TEMPORAL_KEY_DELIMITER);
        lemma_cut_at_separator(last.0.code(), TEMPORAL_KEY_DELIMITER, last.1);
        assert(coded(fields) =~= coded(fields.drop_last()).push((last.0.code(), last.1)));
    }
}

/// The codes of written fields are read back as the keys that wrote them.
proof fn lemma_field_values_of_coded(fields: Seq<Field>)
    ensures
        field_values(coded(fields)) == Ok::<Map<KeysToTemporalAction, Seq<char>>, DecodeErrorView>(
            values_by_key(fields),
        ),
    decreases fields.len(),
{
    if fields.len() > 0 {
        let last = fields.last();
        lemma_field_values_of_coded(fields.drop_last());
        assert(coded(fields).drop_last() =~= coded(fields.drop_last()));
        assert(coded(fields).last() == (last.0.code(), last.1));
        code_identifies_key(last.0, last.0.code());
    }
}

/// A field in front keeps its value where no later field has its code.
proof fn lemma_value_of_leading_field(first: Field, fields: Seq<Field>)
    requires
        forall|i: int| 0 <= i < fields.len() ==> (#[trigger] fields[i]).0 != first.0,
    ensures
        values_by_key(seq![first] + fields).contains_key(first.0),
        values_by_key(seq![first] + fields)[first.0] == first.1,
    decreases fields.len(),
{
    let all = seq![first] + fields;
    if fields.len() == 0 {
        assert(all.drop_last() =~= Seq::<Field>::empty());
        assert(all.last() == first);
    } else {
        assert(all.drop_last() =~= seq![first] + fields.drop_last());
        assert(all.last() == fields.last());
        assert forall|i: int| 0 <= i < fields.drop_last().len() implies (
        #[trigger] fields.drop_last()[i]).0 != first.0 by {
            assert(fields.drop_last()[i] == fields[i]);
        }
        lemma_value_of_leading_field(first, fields.drop_last());
    }
}

/// Cutting tokens fails with `MalformedPair` or not at all.
proof fn lemma_raw_pairs_errors(tokens: Seq<Seq<char>>)
    ensures
        raw_pairs(tokens) matches Err(e) ==> e is MalformedPair,
    decreases tokens.len(),
{
    if tokens.len() > 0 {
        lemma_raw_pairs_errors(tokens.drop_last());
    }
}

/// Looking up keys fails with `UnknownKey` or not at all.
proof fn lemma_field_values_errors(pairs: Seq<(Seq<char>, Seq<char>)>)
    ensures
        field_values(pairs) matches Err(e) ==> e is UnknownKey,
    decreases pairs.len(),
{
    if pairs.len() > 0 {
        lemma_field_values_errors(pairs.drop_last());
    }
}

/// A string that holds written fields decodes to the command that the fields
/// describe, or to what the fields lack for one, whatever their order and
/// number. The values must keep their place.
pub proof fn decoding_written_fields(version: Encoder, fields: Seq<Field>)
    requires
        fields.len() >= 1,
        forall|i: int| 0 <= i < fields.len() ==> keeps_its_place(#[trigger] fields[i].1),
    ensures
        decode_spec(encoded_fields(version, fields)) == command_of(values_by_key(fields)),
{
    let pairs = written(fields);
    let body = joined(pairs, seq![SLACK_INFO_DELIMITER]);
    lemma_pairs_keep_their_place(fields);
    lemma_tag_lacks_section_delimiter(version);
    lemma_cut_at_separator(version.tag(), ENCODER_SECTION_DELIMITER, body);
    lemma_uncut(body, ENCODER_SECTION_DELIMITER);
    lemma_pieces_of_joined(pairs, SLACK_INFO_DELIMITER);
    lemma_raw_pairs_of_written(fields);
    lemma_field_values_of_coded(fields);
    assert(decode_routing(version, routing_section(body)) == command_of(values_by_key(fields)));
}

/// What follows a second section delimiter has no part in what is decoded.
pub proof fn user_data_is_ignored(version: Encoder, fields: Seq<Field>, user_data: Seq<char>)
    requires
        fields.len() >= 1,
        forall|i: int| 0 <= i < fields.len() ==> keeps_its_place(#[trigger] fields[i].1),
    ensures
        decode_spec(
            encoded_fields(version, fields) + seq![ENCODER_SECTION_DELIMITER] + user_data,
        ) == decode_spec(encoded_fields(version, fields)),
{
    let body = joined(written(fields), seq![SLACK_INFO_DELIMITER]);
    let payload = body + seq![ENCODER_SECTION_DELIMITER] + user_data;
    lemma_pairs_keep_their_place(fields);
    lemma_tag_lacks_section_delimiter(version);
    // with and without the caller's data, the tag is cut off at the first section delimiter
    lemma_cut_at_separator(version.tag(), ENCODER_SECTION_DELIMITER, body);
    lemma_cut_at_separator(version.tag(), ENCODER_SECTION_DELIMITER, payload);
    assert(encoded_fields(version, fields) + seq![ENCODER_SECTION_DELIMITER] + user_data
        =~= version.tag() + seq![ENCODER_SECTION_DELIMITER] + payload);
    // and the pairs are the same section
    lemma_cut_at_separator(body, ENCODER_SECTION_DELIMITER, user_data);
    lemma_uncut(body, ENCODER_SECTION_DELIMITER);
    assert(routing_section(payload) == routing_section(body));
}

/// Decoding what was encoded gives the command back as far as it was written:
/// for every command that holds no delimiter, in every version.
pub proof fn decode_of_encode(version: Encoder, command: InteractionView)
    requires
        command.delimiter_free(),
    ensures
        decode_spec(encode_spec(version, command)) == Ok::<InteractionView, DecodeErrorView>(
            command.as_decoded(),
        ),
{
    lemma_layout_keeps_its_place(command);
    decoding_written_fields(version, command.layout());
    name_identifies_kind(command.kind(), command.kind().name());
    reveal_with_fuel(values_by_key, 7);
}

/// A command without arguments that is fully written and holds no delimiter
/// is decoded, from its encoded string in any version, as itself.
pub proof fn round_trip(version: Encoder, command: InteractionView)
    requires
        command.delimiter_free(),
        command.fully_written(),
        command.args() is None,
    ensures
        decode_spec(encode_spec(version, command)) == Ok::<InteractionView, DecodeErrorView>(
            command,
        ),
{
    decode_of_encode(version, command);
}

/// A command that is fully written and holds no delimiter is decoded, from
/// its encoded string in any version, as itself without its arguments.
pub proof fn arguments_are_stripped(version: Encoder, command: InteractionView)
    requires
        command.delimiter_free(),
        command.fully_written(),
    ensures
        decode_spec(encode_spec(version, command)) == Ok::<InteractionView, DecodeErrorView>(
            command.with_args(None),
        ),
{
    decode_of_encode(version, command);
}

/// The arguments of a command have no part in its encoded string.
pub proof fn arguments_are_not_written(
    version: Encoder,
    command: InteractionView,
    args: Option<Seq<serde_json::Value>>,
)
    ensures
        encode_spec(version, command.with_args(args)) == encode_spec(version, command),
{
    assert(command.with_args(args).layout() =~= command.layout());
}

/// The encoded string is a function of the version and of the fields in the
/// layout of the command: commands with the same fields are written alike,
/// character by character.
pub proof fn encoding_is_determined(version: Encoder, a: InteractionView, b: InteractionView)
    requires
        a.layout() == b.layout(),
    ensures
        encode_spec(version, a) == encode_spec(version, b),
{
}

/// A string whose tag is the tag of no version is refused as a whole with
/// `UnknownVersion`, whatever follows the tag.
pub proof fn unknown_version_is_rejected(tag: Seq<char>, payload: Seq<char>)
    requires
        !tag.contains(ENCODER_SECTION_DELIMITER),
        forall|version: Encoder| #[trigger] version.tag() != tag,
    ensures
        decode_spec(tag + seq![ENCODER_SECTION_DELIMITER] + payload) == Err::<
            InteractionView,
            DecodeErrorView,
        >(DecodeErrorView::UnknownVersion(tag)),
{
    lemma_cut_at_separator(tag, ENCODER_SECTION_DELIMITER, payload);
    assert(Encoder::A.tag() != tag);
}

/// A string without a section delimiter is refused with `MalformedVersion`,
/// and no other string is.
pub proof fn malformed_version_means_no_section(encoded: Seq<char>)
    ensures
        decode_spec(encoded) == Err::<InteractionView, DecodeErrorView>(
            DecodeErrorView::MalformedVersion,
        ) <==> !encoded.contains(ENCODER_SECTION_DELIMITER),
{
    encoded.index_of_first_ensures(ENCODER_SECTION_DELIMITER);
    if let Some((tag, payload)) = cut_at_first(encoded, ENCODER_SECTION_DELIMITER) {
        if Encoder::with_tag(tag) is Some {
            let tokens = pieces(routing_section(payload), SLACK_INFO_DELIMITER);
            lemma_raw_pairs_errors(tokens);
            if let Ok(pairs) = raw_pairs(tokens) {
                lemma_field_values_errors(pairs);
            }
        }
    }
}

/// Take the pair of a required field out of the encoded string of a command,
/// and the string is refused with `MissingRequiredField` for that field.
pub proof fn missing_required_field_is_reported(
    version: Encoder,
    command: InteractionView,
    i: int,
)
    requires
        command.delimiter_free(),
        0 <= i < command.layout().len(),
        is_required(command.kind(), command.layout()[i].0),
    ensures
        decode_spec(encoded_fields(version, command.layout().remove(i))) == Err::<
            InteractionView,
            DecodeErrorView,
        >(DecodeErrorView::MissingRequiredField(command.layout()[i].0)),
{
    let layout = command.layout();
    let rest = layout.remove(i);
    lemma_layout_keeps_its_place(command);
    assert forall|j: int| 0 <= j < rest.len() implies keeps_its_place(#[trigger] rest[j].1) by {
        if j < i {
            assert(rest[j] == layout[j]);
        } else {
            assert(rest[j] == layout[j + 1]);
        }
    }
    decoding_written_fields(version, rest);
    name_identifies_kind(command.kind(), command.kind().name());
    reveal_with_fuel(values_by_key, 7);
    assert(rest =~= layout.subrange(0, i) + layout.subrange(i + 1, layout.len() as int));
}

/// Take the pair of the kind out of the encoded string of a command, and the
/// string is refused with `MissingEventKind`.
pub proof fn missing_kind_is_reported(version: Encoder, command: InteractionView)
    requires
        command.delimiter_free(),
    ensures
        decode_spec(encoded_fields(version, command.layout().remove(0))) == Err::<
            InteractionView,
            DecodeErrorView,
        >(DecodeErrorView::MissingEventKind),
{
    let layout = command.layout();
    let rest = layout.remove(0);
    lemma_layout_keeps_its_place(command);
    assert forall|j: int| 0 <= j < rest.len() implies keeps_its_place(#[trigger] rest[j].1) by {
        assert(rest[j] == layout[j + 1]);
    }
    decoding_written_fields(version, rest);
    reveal_with_fuel(values_by_key, 7);
}

/// A kind that names no interaction is refused with `UnknownEventKind`,
/// whatever else the string holds.
pub proof fn unknown_kind_is_reported(version: Encoder, fields: Seq<Field>, kind: Seq<char>)
    requires
        keeps_its_place(kind),
        forall|i: int| 0 <= i < fields.len() ==> keeps_its_place(#[trigger] fields[i].1),
        forall|i: int| 0 <= i < fields.len() ==> (#[trigger] fields[i]).0 != KeysToTemporalAction::E,
        TemporalInteractionDiscriminants::with_name(kind) is None,
    ensures
        decode_spec(encoded_fields(version, seq![(KeysToTemporalAction::E, kind)] + fields))
            == Err::<InteractionView, DecodeErrorView>(DecodeErrorView::UnknownEventKind(kind)),
{
    let all = seq![(KeysToTemporalAction::E, kind)] + fields;
    assert forall|i: int| 0 <= i < all.len() implies keeps_its_place(#[trigger] all[i].1) by {
        if i > 0 {
            assert(all[i] == fields[i - 1]);
        }
    }
    decoding_written_fields(version, all);
    lemma_value_of_leading_field((KeysToTemporalAction::E, kind), fields);
}

/// The encoded string of a signal or of a query without the pairs of the
/// workflow id and of the run id is no error: it decodes to the command with
/// both absent.
pub proof fn absent_ids_are_read_as_absent(version: Encoder, command: InteractionView)
    requires
        command.delimiter_free(),
        command is Signal || command is Query,
    ensures
        decode_spec(encoded_fields(version, command.layout_without_ids())) == Ok::<
            InteractionView,
            DecodeErrorView,
        >(command.as_decoded_without_ids()),
{
    let layout = command.layout();
    let rest = command.layout_without_ids();
    lemma_layout_keeps_its_place(command);
    assert(rest =~= seq![layout[0], layout[2], layout[3], layout[5]]);
    assert forall|j: int| 0 <= j < rest.len() implies keeps_its_place(#[trigger] rest[j].1) by {
        assert(keeps_its_place(layout[0].1));
        assert(keeps_its_place(layout[2].1));
        assert(keeps_its_place(layout[3].1));
        assert(keeps_its_place(layout[5].1));
    }
    decoding_written_fields(version, rest);
    name_identifies_kind(command.kind(), command.kind().name());
    reveal_with_fuel(values_by_key, 7);
}

impl InteractionView {
    /// The number of characters of the values that are written for the
    /// command, the name of its kind apart.
    pub open spec fn written_len(self) -> nat {
        match self {
            InteractionView::Execute(action) => action.workflow_id.len() + action.namespace.len()
                + action.task_queue.len() + action.workflow_type.len(),
            InteractionView::Signal(action) => text_or_empty(action.workflow_id).len()
                + action.namespace.len() + action.task_queue.len() + text_or_empty(
                action.run_id,
            ).len() + action.signal_name.len(),
            InteractionView::Query(action) => text_or_empty(action.workflow_id).len()
                + action.namespace.len() + action.task_queue.len() + text_or_empty(
                action.run_id,
            ).len() + action.query_type.len(),
        }
    }

    /// The number of characters that the encoded string spends on the tag, the
    /// delimiters, the codes and the name of the kind.
    pub open spec fn overhead(self) -> nat {
        match self {
            InteractionView::Execute(_) => 23,
            InteractionView::Signal(_) => 25,
            InteractionView::Query(_) => 24,
        }
    }
}

/// How much of a callback identifier a command takes: its values, and a fixed
/// number of characters that depends on its kind alone.
pub proof fn encoded_length(version: Encoder, command: InteractionView)
    ensures
        encode_spec(version, command).len() == command.overhead() + command.written_len(),
{
    let pairs = written(command.layout());
    lemma_joined_len(pairs, SLACK_INFO_DELIMITER);
    reveal_with_fuel(total_len, 7);
    reveal_strlit("Execute");
    reveal_strlit("Signal");
    reveal_strlit("Query");
}

} // verus!
