//! Converting lists of bridge payloads into values and back, in order.
use vstd::prelude::*;

use crate::error::{CloudKitError, ErrorView};
use crate::payload::{
    CKRecordIDPayload, CKRecordPayload, CKRecordZoneIDPayload, CKRecordZonePayload,
    CKServerChangeTokenPayload, ErrorPayload,
};
use crate::record::{
    record_from_payload_view, record_id_payload_view, record_payload_matches, zone_from_payload_view,
    zone_id_payload_view, CKRecord, CKRecordID, CKRecordZone, CKRecordZoneID, RecordIdView,
    RecordView, RecordZoneIdView, RecordZoneView,
};
use crate::server_change_token::CKServerChangeToken;
use crate::sync_engine::views_of;

verus! {

/// The error that an optional error payload stands for.
pub open spec fn error_payload_option_view(p: Option<ErrorPayload>) -> Option<ErrorView> {
    match p {
        Some(e) => Some(ErrorView {
            domain: e.domain@,
            code: e.code,
            message: e.message@,
            retry_after_seconds: e.retry_after_seconds,
        }),
        None => None,
    }
}

/// The error of an optional error payload.
pub fn error_option_from_payload(p: Option<ErrorPayload>) -> (r: Option<CloudKitError>)
    ensures
        crate::sync_engine::error_option_view(r) == error_payload_option_view(p),
{
    match p {
        Some(e) => Some(CloudKitError::from_payload(e)),
        None => None,
    }
}

/// The records that payloads stand for, in order.
pub open spec fn records_from_payloads_view(p: Seq<CKRecordPayload>) -> Seq<RecordView> {
    Seq::new(p.len(), |i: int| record_from_payload_view(p[i]))
}

/// Converts record payloads, in order.
pub fn records_from_payloads(payloads: Vec<CKRecordPayload>) -> (r: Vec<CKRecord>)
    ensures
        views_of(r@) == records_from_payloads_view(payloads@),
{
    let ghost all = payloads@;
    let mut rest = payloads;
    let mut out: Vec<CKRecord> = Vec::new();
    while rest.len() > 0
        invariant
            out@.len() + rest@.len() == all.len(),
            rest@ == all.skip(out@.len() as int),
            forall|j: int| 0 <= j < out@.len() ==>
                #[trigger] out@[j]@ == record_from_payload_view(all[j]),
        decreases rest@.len(),
    {
        let ghost k: int = out@.len() as int;
        let p = rest.remove(0);
        assert(p == all[k]);
        out.push(CKRecord::from_payload(p));
        assert(rest@ =~= all.skip(k + 1));
    }
    assert(views_of(out@) =~= records_from_payloads_view(all));
    out
}

/// Copies a list of records.
pub fn copy_records(records: &Vec<CKRecord>) -> (r: Vec<CKRecord>)
    ensures
        views_of(r@) == views_of(records@),
{
    let mut out: Vec<CKRecord> = Vec::new();
    let mut i: usize = 0;
    while i < records.len()
        invariant
            i <= records@.len(),
            out@.len() == i,
            forall|j: int| 0 <= j < i ==> #[trigger] out@[j]@ == records@[j]@,
        decreases records@.len() - i,
    {
        out.push(records[i].clone());
        i = i + 1;
    }
    assert(views_of(out@) =~= views_of(records@));
    out
}

/// Converts records to payloads, in order.
pub fn records_to_payloads(records: &Vec<CKRecord>) -> (r: Vec<CKRecordPayload>)
    ensures
        r@.len() == records@.len(),
        forall|i: int| 0 <= i < r@.len() ==> record_payload_matches(records@[i]@, #[trigger] r@[i]),
{
    let mut out: Vec<CKRecordPayload> = Vec::new();
    let mut i: usize = 0;
    while i < records.len()
        invariant
            i <= records@.len(),
            out@.len() == i,
            forall|j: int| 0 <= j < i ==> record_payload_matches(records@[j]@, #[trigger] out@[j]),
        decreases records@.len() - i,
    {
        out.push(records[i].to_payload());
        i = i + 1;
    }
    out
}

/// The record identifiers that payloads stand for, in order.
pub open spec fn record_ids_from_payloads_view(p: Seq<CKRecordIDPayload>) -> Seq<RecordIdView> {
    Seq::new(p.len(), |i: int| record_id_payload_view(p[i]))
}

/// Converts record identifier payloads, in order.
pub fn record_ids_from_payloads(payloads: Vec<CKRecordIDPayload>) -> (r: Vec<CKRecordID>)
    ensures
        views_of(r@) == record_ids_from_payloads_view(payloads@),
{
    let ghost all = payloads@;
    let mut rest = payloads;
    let mut out: Vec<CKRecordID> = Vec::new();
    while rest.len() > 0
        invariant
            out@.len() + rest@.len() == all.len(),
            rest@ == all.skip(out@.len() as int),
            forall|j: int| 0 <= j < out@.len() ==> #[trigger] out@[j]@ == record_id_payload_view(all[j]),
        decreases rest@.len(),
    {
        let ghost k: int = out@.len() as int;
        let p = rest.remove(0);
        assert(p == all[k]);
        out.push(CKRecordID::from_payload(p));
        assert(rest@ =~= all.skip(k + 1));
    }
    assert(views_of(out@) =~= record_ids_from_payloads_view(all));
    out
}

/// Converts record identifiers to payloads, in order.
pub fn record_ids_to_payloads(ids: &Vec<CKRecordID>) -> (r: Vec<CKRecordIDPayload>)
    ensures
        record_ids_from_payloads_view(r@) == views_of(ids@),
{
    let mut out: Vec<CKRecordIDPayload> = Vec::new();
    let mut i: usize = 0;
    while i < ids.len()
        invariant
            i <= ids@.len(),
            out@.len() == i,
            forall|j: int| 0 <= j < i ==> record_id_payload_view(#[trigger] out@[j]) == ids@[j]@,
        decreases ids@.len() - i,
    {
        out.push(ids[i].to_payload());
        i = i + 1;
    }
    assert(record_ids_from_payloads_view(out@) =~= views_of(ids@));
    out
}

/// The zone identifiers that payloads stand for, in order.
pub open spec fn zone_ids_from_payloads_view(p: Seq<CKRecordZoneIDPayload>) -> Seq<RecordZoneIdView> {
    Seq::new(p.len(), |i: int| zone_id_payload_view(p[i]))
}

/// Converts zone identifier payloads, in order.
pub fn zone_ids_from_payloads(payloads: Vec<CKRecordZoneIDPayload>) -> (r: Vec<CKRecordZoneID>)
    ensures
        views_of(r@) == zone_ids_from_payloads_view(payloads@),
{
    let ghost all = payloads@;
    let mut rest = payloads;
    let mut out: Vec<CKRecordZoneID> = Vec::new();
    while rest.len() > 0
        invariant
            out@.len() + rest@.len() == all.len(),
            rest@ == all.skip(out@.len() as int),
            forall|j: int| 0 <= j < out@.len() ==> #[trigger] out@[j]@ == zone_id_payload_view(all[j]),
        decreases rest@.len(),
    {
        let ghost k: int = out@.len() as int;
        let p = rest.remove(0);
        assert(p == all[k]);
        out.push(CKRecordZoneID::from_payload(p));
        assert(rest@ =~= all.skip(k + 1));
    }
    assert(views_of(out@) =~= zone_ids_from_payloads_view(all));
    out
}

/// The zones that payloads stand for, in order.
pub open spec fn zones_from_payloads_view(p: Seq<CKRecordZonePayload>) -> Seq<RecordZoneView> {
    Seq::new(p.len(), |i: int| zone_from_payload_view(p[i]))
}

/// Converts record zone payloads, in order.
pub fn record_zones_from_payloads(payloads: Vec<CKRecordZonePayload>) -> (r: Vec<CKRecordZone>)
    ensures
        views_of(r@) == zones_from_payloads_view(payloads@),
{
    let ghost all = payloads@;
    let mut rest = payloads;
    let mut out: Vec<CKRecordZone> = Vec::new();
    while rest.len() > 0
        invariant
            out@.len() + rest@.len() == all.len(),
            rest@ == all.skip(out@.len() as int),
            forall|j: int| 0 <= j < out@.len() ==> #[trigger] out@[j]@ == zone_from_payload_view(all[j]),
        decreases rest@.len(),
    {
        let ghost k: int = out@.len() as int;
        let p = rest.remove(0);
        assert(p == all[k]);
        out.push(CKRecordZone::from_payload(p));
        assert(rest@ =~= all.skip(k + 1));
    }
    assert(views_of(out@) =~= zones_from_payloads_view(all));
    out
}

/// The archived bytes of server change token payloads, in order.
pub open spec fn tokens_from_payloads_view(p: Seq<CKServerChangeTokenPayload>) -> Seq<Seq<u8>> {
    Seq::new(p.len(), |i: int| p[i].archived_data@)
}

/// Converts server change token payloads, in order.
pub fn tokens_from_payloads(payloads: Vec<CKServerChangeTokenPayload>) -> (r: Vec<CKServerChangeToken>)
    ensures
        views_of(r@) == tokens_from_payloads_view(payloads@),
{
    let ghost all = payloads@;
    let mut rest = payloads;
    let mut out: Vec<CKServerChangeToken> = Vec::new();
    while rest.len() > 0
        invariant
            out@.len() + rest@.len() == all.len(),
            rest@ == all.skip(out@.len() as int),
            forall|j: int| 0 <= j < out@.len() ==> #[trigger] out@[j]@ == all[j].archived_data@,
        decreases rest@.len(),
    {
        let ghost k: int = out@.len() as int;
        let p = rest.remove(0);
        assert(p == all[k]);
        out.push(CKServerChangeToken::from_payload(p));
        assert(rest@ =~= all.skip(k + 1));
    }
    assert(views_of(out@) =~= tokens_from_payloads_view(all));
    out
}

/// The server change token of an optional payload.
pub fn token_option_from_payload(p: Option<CKServerChangeTokenPayload>) -> (r: Option<CKServerChangeToken>)
    ensures
        r is Some <==> p is Some,
        r is Some ==> r->0@ == p->0.archived_data@,
{
    match p {
        Some(t) => Some(CKServerChangeToken::from_payload(t)),
        None => None,
    }
}

} // verus!
