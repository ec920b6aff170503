//! Where a webhook event keeps the callback identifier that it brings back.

use crate::interaction::text_of;
use crate::text::string_texts;
use vstd::prelude::*;

verus! {

/// The part of an interaction event that may hold a callback identifier, by
/// the kind of the event.
#[derive(Debug, PartialEq, Eq)]
pub enum CallbackIdSource {
    /// A block action: the identifiers of its actions, in their order.
    BlockActions(Option<Vec<String>>),
    /// A submitted dialog: its callback identifier.
    DialogSubmission(Option<String>),
    /// A message action: its callback identifier.
    MessageAction(String),
    Shortcut,
    /// A submitted view: the callback identifier of the view.
    ViewSubmission(Option<String>),
    /// A closed view: the callback identifier of the view.
    ViewClosed(Option<String>),
}

/// Why an event brings no callback identifier.
#[derive(Debug, Clone, Copy, PartialEq, Eq, Structural)]
pub enum MissingCallbackId {
    /// A block action without a list of actions.
    NoActions,
    /// A block action with an empty list of actions.
    EmptyActions,
    /// A dialog without a callback identifier.
    NoDialogCallbackId,
    /// A shortcut: none is read from it.
    Shortcut,
    /// A view without a callback identifier.
    NoViewCallbackId,
}

/// View of [`CallbackIdSource`].
pub enum CallbackIdSourceView {
    BlockActions(Option<Seq<Seq<char>>>),
    DialogSubmission(Option<Seq<char>>),
    MessageAction(Seq<char>),
    Shortcut,
    ViewSubmission(Option<Seq<char>>),
    ViewClosed(Option<Seq<char>>),
}

impl View for CallbackIdSource {
    type V = CallbackIdSourceView;

    open spec fn view(&self) -> CallbackIdSourceView {
        match self {
            CallbackIdSource::BlockActions(action_ids) => CallbackIdSourceView::BlockActions(
                match action_ids {
                    Some(ids) => Some(string_texts(ids@)),
                    None => None,
                },
            ),
            CallbackIdSource::DialogSubmission(callback_id) => CallbackIdSourceView::DialogSubmission(
                text_of(*callback_id),
            ),
            CallbackIdSource::MessageAction(callback_id) => CallbackIdSourceView::MessageAction(
                callback_id@,
            ),
            CallbackIdSource::Shortcut => CallbackIdSourceView::Shortcut,
            CallbackIdSource::ViewSubmission(callback_id) => CallbackIdSourceView::ViewSubmission(
                text_of(*callback_id),
            ),
            CallbackIdSource::ViewClosed(callback_id) => CallbackIdSourceView::ViewClosed(
                text_of(*callback_id),
            ),
        }
    }
}

impl CallbackIdSourceView {
    /// The callback identifier of the event: the identifier of the first
    /// action of a block action, the callback identifier of a dialog, of a
    /// message action or of a view.
    pub open spec fn callback_id(self) -> Result<Seq<char>, MissingCallbackId> {
        match self {
            CallbackIdSourceView::BlockActions(action_ids) => match action_ids {
                None => Err(MissingCallbackId::NoActions),
                Some(ids) => if ids.len() == 0 {
                    Err(MissingCallbackId::EmptyActions)
                } else {
                    Ok(ids[0])
                },
            },
            CallbackIdSourceView::DialogSubmission(callback_id) => match callback_id {
                Some(id) => Ok(id),
                None => Err(MissingCallbackId::NoDialogCallbackId),
            },
            CallbackIdSourceView::MessageAction(callback_id) => Ok(callback_id),
            CallbackIdSourceView::Shortcut => Err(MissingCallbackId::Shortcut),
            CallbackIdSourceView::ViewSubmission(callback_id) => match callback_id {
                Some(id) => Ok(id),
                None => Err(MissingCallbackId::NoViewCallbackId),
            },
            CallbackIdSourceView::ViewClosed(callback_id) => match callback_id {
                Some(id) => Ok(id),
                None => Err(MissingCallbackId::NoViewCallbackId),
            },
        }
    }
}

/// The result of [`get_callback_id_from_slack_interaction_event`], with the
/// identifier as text.
pub open spec fn found(r: Result<String, MissingCallbackId>) -> Result<
    Seq<char>,
    MissingCallbackId,
> {
    match r {
        Ok(id) => Ok(id@),
        Err(e) => Err(e),
    }
}

/// Picks the callback identifier out of an interaction event.
pub fn get_callback_id_from_slack_interaction_event(slack_event: CallbackIdSource) -> (r: Result<
    String,
    MissingCallbackId,
>)
    ensures
        found(r) == slack_event@.callback_id(),
{
    match slack_event {
        CallbackIdSource::BlockActions(action_ids) => match action_ids {
            None => Err(MissingCallbackId::NoActions),
            Some(ids) => if ids.len() == 0 {
                Err(MissingCallbackId::EmptyActions)
            } else {
                Ok(ids[0].clone())
            },
        },
        CallbackIdSource::DialogSubmission(callback_id) => match callback_id {
            Some(id) => Ok(id),
            None => Err(MissingCallbackId::NoDialogCallbackId),
        },
        CallbackIdSource::MessageAction(callback_id) => Ok(callback_id),
        CallbackIdSource::Shortcut => Err(MissingCallbackId::Shortcut),
        CallbackIdSource::ViewSubmission(callback_id) => match callback_id {
            Some(id) => Ok(id),
            None => Err(MissingCallbackId::NoViewCallbackId),
        },
        CallbackIdSource::ViewClosed(callback_id) => match callback_id {
            Some(id) => Ok(id),
            None => Err(MissingCallbackId::NoViewCallbackId),
        },
    }
}

impl MissingCallbackId {
    /// The reason in words.
    pub open spec fn text(self) -> Seq<char> {
        match self {
            MissingCallbackId::NoActions => "No actions in block action event"@,
            MissingCallbackId::EmptyActions => "Actions vector is empty, from block actions event"@,
            MissingCallbackId::NoDialogCallbackId => "callback id not provided in dialog"@,
            MissingCallbackId::Shortcut => "no callback id is read from a shortcut"@,
            MissingCallbackId::NoViewCallbackId => "callback_id not provided to view submission"@,
        }
    }

    /// The reason in words.
    pub fn message(&self) -> (r: &'static str)
        ensures
            r@ == self.text(),
    {
        match self {
            MissingCallbackId::NoActions => "No actions in block action event",
            MissingCallbackId::EmptyActions => "Actions vector is empty, from block actions event",
            MissingCallbackId::NoDialogCallbackId => "callback id not provided in dialog",
            MissingCallbackId::Shortcut => "no callback id is read from a shortcut",
            MissingCallbackId::NoViewCallbackId => "callback_id not provided to view submission",
        }
    }
}

} // verus!
