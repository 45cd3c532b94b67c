//! Fetched results: query results with their cursor, per-record results, and
//! the changes fetched for a database or its zones.
use vstd::prelude::*;

use crate::copying::{copy_all, copy_option, option_view, CopyView};

use crate::convert::{
    error_option_from_payload, error_payload_option_view, record_ids_from_payloads_view,
    records_from_payloads, records_from_payloads_view, token_option_from_payload,
    tokens_from_payloads, tokens_from_payloads_view, zone_ids_from_payloads,
    zone_ids_from_payloads_view,
};
use crate::error::{CloudKitError, ErrorView};
use crate::operation::{matches_from_payloads, match_result_payload_view, QueryMatchResult, RecordOutcomeView};
use crate::payload::{
    CKDeletedRecordPayload, CKFetchDatabaseChangesResultPayload, CKFetchRecordZoneChangesResultPayload,
    CKFetchRecordZoneResultPayload, CKFetchedQueryResultsPayload, CKQueryCursorPayload,
    CKRecordResultPayload,
};
use crate::record::{
    bytes_option_view, copy_bytes, record_id_payload_view, CKRecord, CKRecordID, CKRecordZoneID,
    RecordIdView, RecordView, RecordZoneIdView, zone_id_payload_view,
};
use crate::server_change_token::CKServerChangeToken;
use crate::share::{record_option_view, record_payload_option_view};
use crate::sync_engine::{error_option_view, views_of};

verus! {

/// Mirrors `CKQueryOperation.Cursor`; its view is the archived bytes.
#[derive(Debug, PartialEq, Eq, Hash)]
pub struct CKQueryCursor {
    archived_data: Vec<u8>,
}

impl View for CKQueryCursor {
    type V = Seq<u8>;

    closed spec fn view(&self) -> Seq<u8> {
        self.archived_data@
    }
}

impl Clone for CKQueryCursor {
    fn clone(&self) -> (r: Self)
        ensures
            r@ == self@,
    {
        CKQueryCursor { archived_data: copy_bytes(&self.archived_data) }
    }
}

impl CKQueryCursor {
    /// The cursor that these archived bytes encode.
    pub fn from_archived_data(archived_data: Vec<u8>) -> (r: Self)
        ensures
            r@ == archived_data@,
    {
        Self { archived_data }
    }

    /// The archived bytes of the cursor.
    pub fn archived_data(&self) -> (r: &[u8])
        ensures
            r@ == self@,
    {
        self.archived_data.as_slice()
    }

    /// The cursor that a bridge payload stands for.
    pub fn from_payload(payload: CKQueryCursorPayload) -> (r: Self)
        ensures
            r@ == payload.archived_data@,
    {
        Self::from_archived_data(payload.archived_data)
    }
}

pub open spec fn cursor_option_view(c: Option<CKQueryCursor>) -> Option<Seq<u8>> {
    match c {
        Some(x) => Some(x@),
        None => None,
    }
}

pub open spec fn token_option_view(t: Option<CKServerChangeToken>) -> Option<Seq<u8>> {
    match t {
        Some(x) => Some(x@),
        None => None,
    }
}

pub open spec fn token_payload_option_view(t: Option<crate::payload::CKServerChangeTokenPayload>) -> Option<Seq<u8>> {
    match t {
        Some(x) => Some(x.archived_data@),
        None => None,
    }
}

/// Query results: the records, one outcome per match, and a cursor when more remain.
#[derive(Debug, PartialEq)]
pub struct CKFetchedQueryResults {
    pub records: Vec<CKRecord>,
    pub matches: Vec<QueryMatchResult>,
    pub cursor: Option<CKQueryCursor>,
    pub operation_error: Option<CloudKitError>,
}

impl Clone for CKFetchedQueryResults {
    fn clone(&self) -> (r: Self)
        ensures
            r@ == self@,
    {
        CKFetchedQueryResults {
            records: copy_all(&self.records),
            matches: copy_all(&self.matches),
            cursor: copy_option(&self.cursor),
            operation_error: copy_option(&self.operation_error),
        }
    }
}


/// The abstract content of fetched query results.
pub struct FetchedQueryResultsView {
    pub records: Seq<RecordView>,
    pub matches: Seq<RecordOutcomeView>,
    pub cursor: Option<Seq<u8>>,
    pub operation_error: Option<ErrorView>,
}

impl View for CKFetchedQueryResults {
    type V = FetchedQueryResultsView;

    open spec fn view(&self) -> FetchedQueryResultsView {
        FetchedQueryResultsView {
            records: views_of(self.records@),
            matches: views_of(self.matches@),
            cursor: cursor_option_view(self.cursor),
            operation_error: error_option_view(self.operation_error),
        }
    }
}

/// The results that a bridge payload stands for.
pub open spec fn fetched_query_results_payload_view(p: CKFetchedQueryResultsPayload) -> FetchedQueryResultsView {
    FetchedQueryResultsView {
        records: records_from_payloads_view(p.records@),
        matches: Seq::new(p.matches@.len(), |i: int| match_result_payload_view(p.matches@[i])),
        cursor: match p.cursor {
            Some(c) => Some(c.archived_data@),
            None => None,
        },
        operation_error: error_payload_option_view(p.operation_error),
    }
}

impl CKFetchedQueryResults {
    /// The results that a bridge payload stands for, list for list.
    pub fn from_payload(payload: CKFetchedQueryResultsPayload) -> (r: Self)
        ensures
            r@ == fetched_query_results_payload_view(payload),
    {
        let cursor = match payload.cursor {
            Some(c) => Some(CKQueryCursor::from_payload(c)),
            None => None,
        };
        Self {
            records: records_from_payloads(payload.records),
            matches: matches_from_payloads(payload.matches),
            cursor,
            operation_error: error_option_from_payload(payload.operation_error),
        }
    }
}

/// The outcome of fetching one record.
#[derive(Debug, PartialEq)]
pub struct CKRecordResult {
    pub record_id: CKRecordID,
    pub record: Option<CKRecord>,
    pub error: Option<CloudKitError>,
}

impl Clone for CKRecordResult {
    fn clone(&self) -> (r: Self)
        ensures
            r@ == self@,
    {
        CKRecordResult {
            record_id: self.record_id.copy_view(),
            record: copy_option(&self.record),
            error: copy_option(&self.error),
        }
    }
}


impl View for CKRecordResult {
    type V = RecordOutcomeView;

    open spec fn view(&self) -> RecordOutcomeView {
        RecordOutcomeView {
            record_id: self.record_id@,
            record: record_option_view(self.record),
            error: error_option_view(self.error),
        }
    }
}

impl CKRecordResult {
    /// The outcome that a bridge payload stands for.
    pub fn from_payload(payload: CKRecordResultPayload) -> (r: Self)
        ensures
            r@ == (RecordOutcomeView {
                record_id: record_id_payload_view(payload.record_id),
                record: record_payload_option_view(payload.record),
                error: error_payload_option_view(payload.error),
            }),
    {
        let record = match payload.record {
            Some(x) => Some(CKRecord::from_payload(x)),
            None => None,
        };
        Self {
            record_id: CKRecordID::from_payload(payload.record_id),
            record,
            error: error_option_from_payload(payload.error),
        }
    }
}

/// The outcome of fetching several records.
#[derive(Debug, PartialEq)]
pub struct CKFetchRecordsResult {
    pub records: Vec<CKRecord>,
    pub results: Vec<CKRecordResult>,
    pub operation_error: Option<CloudKitError>,
}

impl Clone for CKFetchRecordsResult {
    fn clone(&self) -> (r: Self)
        ensures
            views_of(r.records@) == views_of(self.records@),
            views_of(r.results@) == views_of(self.results@),
            option_view(r.operation_error) == option_view(self.operation_error),
    {
        CKFetchRecordsResult {
            records: copy_all(&self.records),
            results: copy_all(&self.results),
            operation_error: copy_option(&self.operation_error),
        }
    }
}


/// A record deleted on the server, with its type.
#[derive(Debug, PartialEq)]
pub struct CKDeletedRecord {
    pub record_id: CKRecordID,
    pub record_type: String,
}

impl Clone for CKDeletedRecord {
    fn clone(&self) -> (r: Self)
        ensures
            r@ == self@,
    {
        CKDeletedRecord {
            record_id: self.record_id.copy_view(),
            record_type: self.record_type.clone(),
        }
    }
}


/// The abstract content of a deleted record.
pub struct DeletedRecordView {
    pub record_id: RecordIdView,
    pub record_type: Seq<char>,
}

impl View for CKDeletedRecord {
    type V = DeletedRecordView;

    open spec fn view(&self) -> DeletedRecordView {
        DeletedRecordView { record_id: self.record_id@, record_type: self.record_type@ }
    }
}

pub open spec fn deleted_record_payload_view(p: CKDeletedRecordPayload) -> DeletedRecordView {
    DeletedRecordView { record_id: record_id_payload_view(p.record_id), record_type: p.record_type@ }
}

impl CKDeletedRecord {
    /// The deletion that a bridge payload stands for.
    pub fn from_payload(payload: CKDeletedRecordPayload) -> (r: Self)
        ensures
            r@ == deleted_record_payload_view(payload),
    {
        Self { record_id: CKRecordID::from_payload(payload.record_id), record_type: payload.record_type }
    }
}

/// Changes fetched for a database.
#[derive(Debug, PartialEq)]
pub struct CKFetchDatabaseChangesResult {
    pub changed_zone_ids: Vec<CKRecordZoneID>,
    pub deleted_zone_ids: Vec<CKRecordZoneID>,
    pub purged_zone_ids: Vec<CKRecordZoneID>,
    pub encrypted_data_reset_zone_ids: Vec<CKRecordZoneID>,
    pub updated_server_change_tokens: Vec<CKServerChangeToken>,
    pub server_change_token: Option<CKServerChangeToken>,
    pub more_coming: bool,
    pub operation_error: Option<CloudKitError>,
}

impl Clone for CKFetchDatabaseChangesResult {
    fn clone(&self) -> (r: Self)
        ensures
            r@ == self@,
    {
        CKFetchDatabaseChangesResult {
            changed_zone_ids: copy_all(&self.changed_zone_ids),
            deleted_zone_ids: copy_all(&self.deleted_zone_ids),
            purged_zone_ids: copy_all(&self.purged_zone_ids),
            encrypted_data_reset_zone_ids: copy_all(&self.encrypted_data_reset_zone_ids),
            updated_server_change_tokens: copy_all(&self.updated_server_change_tokens),
            server_change_token: copy_option(&self.server_change_token),
            more_coming: self.more_coming,
            operation_error: copy_option(&self.operation_error),
        }
    }
}


/// The abstract content of fetched database changes.
pub struct DatabaseChangesView {
    pub changed_zone_ids: Seq<RecordZoneIdView>,
    pub deleted_zone_ids: Seq<RecordZoneIdView>,
    pub purged_zone_ids: Seq<RecordZoneIdView>,
    pub encrypted_data_reset_zone_ids: Seq<RecordZoneIdView>,
    pub updated_server_change_tokens: Seq<Seq<u8>>,
    pub server_change_token: Option<Seq<u8>>,
    pub more_coming: bool,
    pub operation_error: Option<ErrorView>,
}

impl View for CKFetchDatabaseChangesResult {
    type V = DatabaseChangesView;

    open spec fn view(&self) -> DatabaseChangesView {
        DatabaseChangesView {
            changed_zone_ids: views_of(self.changed_zone_ids@),
            deleted_zone_ids: views_of(self.deleted_zone_ids@),
            purged_zone_ids: views_of(self.purged_zone_ids@),
            encrypted_data_reset_zone_ids: views_of(self.encrypted_data_reset_zone_ids@),
            updated_server_change_tokens: views_of(self.updated_server_change_tokens@),
            server_change_token: token_option_view(self.server_change_token),
            more_coming: self.more_coming,
            operation_error: error_option_view(self.operation_error),
        }
    }
}

/// The changes that a bridge payload stands for.
pub open spec fn database_changes_payload_view(p: CKFetchDatabaseChangesResultPayload) -> DatabaseChangesView {
    DatabaseChangesView {
        changed_zone_ids: zone_ids_from_payloads_view(p.changed_zone_ids@),
        deleted_zone_ids: zone_ids_from_payloads_view(p.deleted_zone_ids@),
        purged_zone_ids: zone_ids_from_payloads_view(p.purged_zone_ids@),
        encrypted_data_reset_zone_ids: zone_ids_from_payloads_view(p.encrypted_data_reset_zone_ids@),
        updated_server_change_tokens: tokens_from_payloads_view(p.updated_server_change_tokens@),
        server_change_token: token_payload_option_view(p.server_change_token),
        more_coming: p.more_coming,
        operation_error: error_payload_option_view(p.operation_error),
    }
}

impl CKFetchDatabaseChangesResult {
    /// The changes that a bridge payload stands for, list for list.
    pub fn from_payload(payload: CKFetchDatabaseChangesResultPayload) -> (r: Self)
        ensures
            r@ == database_changes_payload_view(payload),
    {
        Self {
            changed_zone_ids: zone_ids_from_payloads(payload.changed_zone_ids),
            deleted_zone_ids: zone_ids_from_payloads(payload.deleted_zone_ids),
            purged_zone_ids: zone_ids_from_payloads(payload.purged_zone_ids),
            encrypted_data_reset_zone_ids: zone_ids_from_payloads(payload.encrypted_data_reset_zone_ids),
            updated_server_change_tokens: tokens_from_payloads(payload.updated_server_change_tokens),
            server_change_token: token_option_from_payload(payload.server_change_token),
            more_coming: payload.more_coming,
            operation_error: error_option_from_payload(payload.operation_error),
        }
    }
}

/// Changes fetched for one zone.
#[derive(Debug, PartialEq)]
pub struct CKFetchRecordZoneResult {
    pub zone_id: CKRecordZoneID,
    pub changed_records: Vec<CKRecord>,
    pub deleted_records: Vec<CKDeletedRecord>,
    pub updated_server_change_tokens: Vec<CKServerChangeToken>,
    pub server_change_token: Option<CKServerChangeToken>,
    pub client_change_token_data: Option<Vec<u8>>,
    pub more_coming: bool,
    pub zone_error: Option<CloudKitError>,
}

impl Clone for CKFetchRecordZoneResult {
    fn clone(&self) -> (r: Self)
        ensures
            r@ == self@,
    {
        CKFetchRecordZoneResult {
            zone_id: self.zone_id.copy_view(),
            changed_records: copy_all(&self.changed_records),
            deleted_records: copy_all(&self.deleted_records),
            updated_server_change_tokens: copy_all(&self.updated_server_change_tokens),
            server_change_token: copy_option(&self.server_change_token),
            client_change_token_data: copy_option(&self.client_change_token_data),
            more_coming: self.more_coming,
            zone_error: copy_option(&self.zone_error),
        }
    }
}


/// The abstract content of the changes fetched for one zone.
pub struct ZoneChangesView {
    pub zone_id: RecordZoneIdView,
    pub changed_records: Seq<RecordView>,
    pub deleted_records: Seq<DeletedRecordView>,
    pub updated_server_change_tokens: Seq<Seq<u8>>,
    pub server_change_token: Option<Seq<u8>>,
    pub client_change_token_data: Option<Seq<u8>>,
    pub more_coming: bool,
    pub zone_error: Option<ErrorView>,
}

impl View for CKFetchRecordZoneResult {
    type V = ZoneChangesView;

    open spec fn view(&self) -> ZoneChangesView {
        ZoneChangesView {
            zone_id: self.zone_id@,
            changed_records: views_of(self.changed_records@),
            deleted_records: views_of(self.deleted_records@),
            updated_server_change_tokens: views_of(self.updated_server_change_tokens@),
            server_change_token: token_option_view(self.server_change_token),
            client_change_token_data: bytes_option_view(self.client_change_token_data),
            more_coming: self.more_coming,
            zone_error: error_option_view(self.zone_error),
        }
    }
}

/// The zone changes that a bridge payload stands for.
pub open spec fn zone_changes_payload_view(p: CKFetchRecordZoneResultPayload) -> ZoneChangesView {
    ZoneChangesView {
        zone_id: zone_id_payload_view(p.zone_id),
        changed_records: records_from_payloads_view(p.changed_records@),
        deleted_records: Seq::new(p.deleted_records@.len(), |i: int| deleted_record_payload_view(p.deleted_records@[i])),
        updated_server_change_tokens: tokens_from_payloads_view(p.updated_server_change_tokens@),
        server_change_token: token_payload_option_view(p.server_change_token),
        client_change_token_data: bytes_option_view(p.client_change_token_data),
        more_coming: p.more_coming,
        zone_error: error_payload_option_view(p.zone_error),
    }
}

fn deleted_records_from_payloads(payloads: Vec<CKDeletedRecordPayload>) -> (r: Vec<CKDeletedRecord>)
    ensures
        views_of(r@) == Seq::new(payloads@.len(), |i: int| deleted_record_payload_view(payloads@[i])),
{
    let ghost all = payloads@;
    let mut rest = payloads;
    let mut out: Vec<CKDeletedRecord> = Vec::new();
    while rest.len() > 0
        invariant
            out@.len() + rest@.len() == all.len(),
            rest@ == all.skip(out@.len() as int),
            forall|j: int| 0 <= j < out@.len() ==> #[trigger] out@[j]@ == deleted_record_payload_view(all[j]),
        decreases rest@.len(),
    {
        let ghost k: int = out@.len() as int;
        let p = rest.remove(0);
        assert(p == all[k]);
        out.push(CKDeletedRecord::from_payload(p));
        assert(rest@ =~= all.skip(k + 1));
    }
    assert(views_of(out@) =~= Seq::new(all.len(), |i: int| deleted_record_payload_view(all[i])));
    out
}

impl CKFetchRecordZoneResult {
    /// The zone changes that a bridge payload stands for, list for list.
    pub fn from_payload(payload: CKFetchRecordZoneResultPayload) -> (r: Self)
        ensures
            r@ == zone_changes_payload_view(payload),
    {
        Self {
            zone_id: CKRecordZoneID::from_payload(payload.zone_id),
            changed_records: records_from_payloads(payload.changed_records),
            deleted_records: deleted_records_from_payloads(payload.deleted_records),
            updated_server_change_tokens: tokens_from_payloads(payload.updated_server_change_tokens),
            server_change_token: token_option_from_payload(payload.server_change_token),
            client_change_token_data: payload.client_change_token_data,
            more_coming: payload.more_coming,
            zone_error: error_option_from_payload(payload.zone_error),
        }
    }
}

/// Changes fetched for several zones.
#[derive(Debug, PartialEq)]
pub struct CKFetchRecordZoneChangesResult {
    pub zones: Vec<CKFetchRecordZoneResult>,
    pub operation_error: Option<CloudKitError>,
}

impl Clone for CKFetchRecordZoneChangesResult {
    fn clone(&self) -> (r: Self)
        ensures
            r@ == self@,
    {
        CKFetchRecordZoneChangesResult {
            zones: copy_all(&self.zones),
            operation_error: copy_option(&self.operation_error),
        }
    }
}


/// The abstract content of changes fetched for several zones.
pub struct RecordZoneChangesView {
    pub zones: Seq<ZoneChangesView>,
    pub operation_error: Option<ErrorView>,
}

impl View for CKFetchRecordZoneChangesResult {
    type V = RecordZoneChangesView;

    open spec fn view(&self) -> RecordZoneChangesView {
        RecordZoneChangesView { zones: views_of(self.zones@), operation_error: error_option_view(self.operation_error) }
    }
}

/// The changes that a bridge payload stands for.
pub open spec fn record_zone_changes_payload_view(p: CKFetchRecordZoneChangesResultPayload) -> RecordZoneChangesView {
    RecordZoneChangesView {
        zones: Seq::new(p.zones@.len(), |i: int| zone_changes_payload_view(p.zones@[i])),
        operation_error: error_payload_option_view(p.operation_error),
    }
}

impl CKFetchRecordZoneChangesResult {
    /// The changes that a bridge payload stands for, zone for zone.
    pub fn from_payload(payload: CKFetchRecordZoneChangesResultPayload) -> (r: Self)
        ensures
            r@ == record_zone_changes_payload_view(payload),
    {
        let ghost all = payload.zones@;
        let mut rest = payload.zones;
        let mut zones: Vec<CKFetchRecordZoneResult> = Vec::new();
        while rest.len() > 0
            invariant
                zones@.len() + rest@.len() == all.len(),
                rest@ == all.skip(zones@.len() as int),
                forall|j: int| 0 <= j < zones@.len() ==> #[trigger] zones@[j]@ == zone_changes_payload_view(all[j]),
            decreases rest@.len(),
        {
            let ghost k: int = zones@.len() as int;
            let p = rest.remove(0);
            assert(p == all[k]);
            zones.push(CKFetchRecordZoneResult::from_payload(p));
            assert(rest@ =~= all.skip(k + 1));
        }
        assert(views_of(zones@) =~= Seq::new(all.len(), |i: int| zone_changes_payload_view(all[i])));
        Self { zones, operation_error: error_option_from_payload(payload.operation_error) }
    }
}

} // verus!
