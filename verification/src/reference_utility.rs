//! References from one record to another (`CKReference`).
use vstd::prelude::*;

use crate::payload::CKReferencePayload;
use crate::record::{record_id_payload_view, CKRecordID, RecordIdView};

verus! {

/// Mirrors `CKReferenceAction`.
#[derive(Debug, Clone, Copy, PartialEq, Eq, Hash, Structural)]
#[non_exhaustive]
pub enum CKReferenceAction {
    /// Mirrors `CKReferenceAction.none`.
    NoAction,
    /// Mirrors `CKReferenceAction.deleteSelf`.
    DeleteSelf,
    /// A raw value that this crate does not name.
    Unknown(u64),
}

/// The action that a raw `CKReferenceAction` value stands for.
pub open spec fn reference_action_from_raw(raw: u64) -> CKReferenceAction {
    if raw == 0 {
        CKReferenceAction::NoAction
    } else if raw == 1 {
        CKReferenceAction::DeleteSelf
    } else {
        CKReferenceAction::Unknown(raw)
    }
}

/// The raw value of an action.
pub open spec fn reference_action_to_raw(action: CKReferenceAction) -> u64 {
    match action {
        CKReferenceAction::NoAction => 0,
        CKReferenceAction::DeleteSelf => 1,
        CKReferenceAction::Unknown(raw) => raw,
    }
}

/// An action that is not an `Unknown` wrapping the raw value of a named action.
pub open spec fn reference_action_is_canonical(action: CKReferenceAction) -> bool {
    match action {
        CKReferenceAction::Unknown(raw) => raw != 0 && raw != 1,
        _ => true,
    }
}

impl CKReferenceAction {
    /// The action for a raw value; values without a name stay `Unknown`.
    pub fn from_raw(raw: u64) -> (r: Self)
        ensures
            r == reference_action_from_raw(raw),
    {
        match raw {
            0 => Self::NoAction,
            1 => Self::DeleteSelf,
            other => Self::Unknown(other),
        }
    }

    /// The raw value of the action.
    pub fn to_raw(self) -> (r: u64)
        ensures
            r == reference_action_to_raw(self),
    {
        match self {
            Self::NoAction => 0,
            Self::DeleteSelf => 1,
            Self::Unknown(raw) => raw,
        }
    }
}

/// Converting a raw value to an action and back gives the raw value again.
pub proof fn lemma_reference_action_raw_round_trip(raw: u64)
    ensures
        reference_action_to_raw(reference_action_from_raw(raw)) == raw,
{
}

/// The action follows the `CKReferenceAction` raw values: 0 is none, 1 delete
/// self; every other value is kept as unknown. Distinct raw values give distinct
/// actions.
pub proof fn lemma_reference_action_raw_values(raw: u64, other: u64)
    ensures
        (raw == 0) <==> reference_action_from_raw(raw) == CKReferenceAction::NoAction,
        (raw == 1) <==> reference_action_from_raw(raw) == CKReferenceAction::DeleteSelf,
        (raw > 1) <==> reference_action_from_raw(raw) == CKReferenceAction::Unknown(raw),
        reference_action_to_raw(CKReferenceAction::NoAction) == 0,
        reference_action_to_raw(CKReferenceAction::DeleteSelf) == 1,
        reference_action_from_raw(raw) == reference_action_from_raw(other) ==> raw == other,
{
}

/// Converting a canonical action to its raw value and back gives the action again.
pub proof fn lemma_reference_action_round_trip(action: CKReferenceAction)
    requires
        reference_action_is_canonical(action),
    ensures
        reference_action_from_raw(reference_action_to_raw(action)) == action,
{
}

/// The abstract content of a reference.
pub struct ReferenceView {
    pub record_id: RecordIdView,
    pub action: CKReferenceAction,
}

/// The abstract content of a reference payload: the target and the raw action.
pub struct ReferencePayloadView {
    pub record_id: RecordIdView,
    pub action: u64,
}

pub open spec fn reference_payload_view(p: CKReferencePayload) -> ReferencePayloadView {
    ReferencePayloadView { record_id: record_id_payload_view(p.record_id), action: p.action }
}

/// The payload that a reference becomes.
pub open spec fn reference_to_payload_view(r: ReferenceView) -> ReferencePayloadView {
    ReferencePayloadView { record_id: r.record_id, action: reference_action_to_raw(r.action) }
}

/// The reference that a payload stands for.
pub open spec fn reference_from_payload_view(p: ReferencePayloadView) -> ReferenceView {
    ReferenceView { record_id: p.record_id, action: reference_action_from_raw(p.action) }
}

/// Wraps `CKReference`.
#[derive(Debug, PartialEq, Eq, Hash)]
pub struct CKReference {
    record_id: CKRecordID,
    action: CKReferenceAction,
}

impl View for CKReference {
    type V = ReferenceView;

    closed spec fn view(&self) -> ReferenceView {
        ReferenceView { record_id: self.record_id@, action: self.action }
    }
}

impl Clone for CKReference {
    fn clone(&self) -> (r: Self)
        ensures
            r@ == self@,
    {
        CKReference { record_id: self.record_id.clone(), action: self.action }
    }
}

impl CKReference {
    /// Creates a wrapper mirroring `CKReference`.
    pub fn new(record_id: CKRecordID, action: CKReferenceAction) -> (r: Self)
        ensures
            r@ == (ReferenceView { record_id: record_id@, action }),
    {
        Self { record_id, action }
    }

    /// Mirrors `CKReference.recordID`.
    pub fn record_id(&self) -> (r: &CKRecordID)
        ensures
            r@ == self@.record_id,
    {
        &self.record_id
    }

    /// Mirrors `CKReference.action`.
    pub fn action(&self) -> (r: CKReferenceAction)
        ensures
            r == self@.action,
    {
        self.action
    }

    /// Mirrors `CKReference.parent`: a reference with no action.
    pub fn parent(record_id: CKRecordID) -> (r: Self)
        ensures
            r@ == (ReferenceView { record_id: record_id@, action: CKReferenceAction::NoAction }),
    {
        Self::new(record_id, CKReferenceAction::NoAction)
    }

    /// Mirrors `CKReference.deleteSelf`: a reference that deletes its owner with the target.
    pub fn delete_self(record_id: CKRecordID) -> (r: Self)
        ensures
            r@ == (ReferenceView { record_id: record_id@, action: CKReferenceAction::DeleteSelf }),
    {
        Self::new(record_id, CKReferenceAction::DeleteSelf)
    }

    /// Whether two references are equal.
    pub fn same_as(&self, other: &CKReference) -> (r: bool)
        ensures
            r == (self@ == other@),
    {
        self.record_id.same_as(&other.record_id) && self.action == other.action
    }

    /// The reference that a bridge payload stands for.
    pub fn from_payload(payload: CKReferencePayload) -> (r: Self)
        ensures
            r@ == reference_from_payload_view(reference_payload_view(payload)),
    {
        Self::new(CKRecordID::from_payload(payload.record_id), CKReferenceAction::from_raw(payload.action))
    }

    /// The bridge payload of the reference.
    pub fn to_payload(&self) -> (r: CKReferencePayload)
        ensures
            reference_payload_view(r) == reference_to_payload_view(self@),
    {
        CKReferencePayload { record_id: self.record_id.to_payload(), action: self.action.to_raw() }
    }
}

} // verus!
