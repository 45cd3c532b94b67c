//! Record operations: modifying records and running queries, the requests they
//! send to the bridge and the results they read back.
use vstd::prelude::*;

use crate::copying::{copy_all, copy_option, CopyView};

use crate::convert::{
    copy_records,
    error_option_from_payload, error_payload_option_view, record_ids_from_payloads,
    record_ids_from_payloads_view, record_ids_to_payloads, records_from_payloads,
    records_from_payloads_view, records_to_payloads,
};
use crate::error::{CloudKitError, ErrorView};
use crate::payload::{
    CKModifyRecordsOperationPayload, CKModifyRecordsResultPayload, CKQueryMatchResultPayload,
    CKQueryOperationPayload, CKQueryOperationResultPayload, CKRecordDeleteResultPayload,
    CKRecordSaveResultPayload,
};
use crate::query::{query_payload_view, CKQuery, QueryView};
use crate::record::{
    record_id_payload_view, record_payload_matches, zone_id_payload_view, CKRecord, CKRecordID,
    CKRecordZoneID, RecordIdView, RecordView, RecordZoneIdView,
};
use crate::share::{record_option_view, record_payload_option_view};
use crate::subscription::zone_id_option_view;
use crate::sync_engine::{error_option_view, vec_copy, views_of};
use crate::text::{copy_opt_texts, opt_texts_view};

verus! {

/// Mirrors `CKModifyRecordsOperation.RecordSavePolicy`.
#[derive(Debug, Clone, Copy, PartialEq, Eq, Hash, Structural)]
pub enum CKRecordSavePolicy {
    IfServerRecordUnchanged,
    ChangedKeys,
    AllKeys,
}

pub open spec fn save_policy_to_raw(policy: CKRecordSavePolicy) -> i32 {
    match policy {
        CKRecordSavePolicy::IfServerRecordUnchanged => 0,
        CKRecordSavePolicy::ChangedKeys => 1,
        CKRecordSavePolicy::AllKeys => 2,
    }
}

impl CKRecordSavePolicy {
    /// The raw `RecordSavePolicy` value.
    pub fn to_raw(self) -> (r: i32)
        ensures
            r == save_policy_to_raw(self),
    {
        match self {
            Self::IfServerRecordUnchanged => 0,
            Self::ChangedKeys => 1,
            Self::AllKeys => 2,
        }
    }
}

/// The save policies have the `RecordSavePolicy` raw values: 0 saves only if the
/// server record is unchanged, 1 saves the changed keys, 2 all keys.
pub proof fn lemma_save_policy_raw_values()
    ensures
        save_policy_to_raw(CKRecordSavePolicy::IfServerRecordUnchanged) == 0,
        save_policy_to_raw(CKRecordSavePolicy::ChangedKeys) == 1,
        save_policy_to_raw(CKRecordSavePolicy::AllKeys) == 2,
{
}

// ---------------------------------------------------------------------------
// Per-record results
// ---------------------------------------------------------------------------

/// The outcome of saving one record.
#[derive(Debug, PartialEq)]
pub struct CKRecordSaveResult {
    pub record_id: CKRecordID,
    pub record: Option<CKRecord>,
    pub error: Option<CloudKitError>,
}

impl Clone for CKRecordSaveResult {
    fn clone(&self) -> (r: Self)
        ensures
            r@ == self@,
    {
        CKRecordSaveResult {
            record_id: self.record_id.copy_view(),
            record: copy_option(&self.record),
            error: copy_option(&self.error),
        }
    }
}


/// The outcome of deleting one record.
#[derive(Debug, PartialEq)]
pub struct CKRecordDeleteResult {
    pub record_id: CKRecordID,
    pub error: Option<CloudKitError>,
}

impl Clone for CKRecordDeleteResult {
    fn clone(&self) -> (r: Self)
        ensures
            r@ == self@,
    {
        CKRecordDeleteResult {
            record_id: self.record_id.copy_view(),
            error: copy_option(&self.error),
        }
    }
}


/// The outcome of one query match.
#[derive(Debug, PartialEq)]
pub struct QueryMatchResult {
    pub record_id: CKRecordID,
    pub record: Option<CKRecord>,
    pub error: Option<CloudKitError>,
}

impl Clone for QueryMatchResult {
    fn clone(&self) -> (r: Self)
        ensures
            r@ == self@,
    {
        QueryMatchResult {
            record_id: self.record_id.copy_view(),
            record: copy_option(&self.record),
            error: copy_option(&self.error),
        }
    }
}


/// The abstract content of a per-record outcome: the identifier, the record
/// if there is one, and the error if there is one.
pub struct RecordOutcomeView {
    pub record_id: RecordIdView,
    pub record: Option<RecordView>,
    pub error: Option<ErrorView>,
}

/// The abstract content of a deletion outcome.
pub struct DeleteOutcomeView {
    pub record_id: RecordIdView,
    pub error: Option<ErrorView>,
}

impl View for CKRecordSaveResult {
    type V = RecordOutcomeView;

    open spec fn view(&self) -> RecordOutcomeView {
        RecordOutcomeView {
            record_id: self.record_id@,
            record: record_option_view(self.record),
            error: error_option_view(self.error),
        }
    }
}

impl View for CKRecordDeleteResult {
    type V = DeleteOutcomeView;

    open spec fn view(&self) -> DeleteOutcomeView {
        DeleteOutcomeView { record_id: self.record_id@, error: error_option_view(self.error) }
    }
}

impl View for QueryMatchResult {
    type V = RecordOutcomeView;

    open spec fn view(&self) -> RecordOutcomeView {
        RecordOutcomeView {
            record_id: self.record_id@,
            record: record_option_view(self.record),
            error: error_option_view(self.error),
        }
    }
}

pub open spec fn save_result_payload_view(p: CKRecordSaveResultPayload) -> RecordOutcomeView {
    RecordOutcomeView {
        record_id: record_id_payload_view(p.record_id),
        record: record_payload_option_view(p.record),
        error: error_payload_option_view(p.error),
    }
}

pub open spec fn delete_result_payload_view(p: CKRecordDeleteResultPayload) -> DeleteOutcomeView {
    DeleteOutcomeView { record_id: record_id_payload_view(p.record_id), error: error_payload_option_view(p.error) }
}

pub open spec fn match_result_payload_view(p: CKQueryMatchResultPayload) -> RecordOutcomeView {
    RecordOutcomeView {
        record_id: record_id_payload_view(p.record_id),
        record: record_payload_option_view(p.record),
        error: error_payload_option_view(p.error),
    }
}

fn record_option_from_payload(p: Option<crate::payload::CKRecordPayload>) -> (r: Option<CKRecord>)
    ensures
        record_option_view(r) == record_payload_option_view(p),
{
    match p {
        Some(x) => Some(CKRecord::from_payload(x)),
        None => None,
    }
}

impl CKRecordSaveResult {
    /// The outcome that a bridge payload stands for.
    pub fn from_payload(payload: CKRecordSaveResultPayload) -> (r: Self)
        ensures
            r@ == save_result_payload_view(payload),
    {
        Self {
            record_id: CKRecordID::from_payload(payload.record_id),
            record: record_option_from_payload(payload.record),
            error: error_option_from_payload(payload.error),
        }
    }
}

impl CKRecordDeleteResult {
    /// The outcome that a bridge payload stands for.
    pub fn from_payload(payload: CKRecordDeleteResultPayload) -> (r: Self)
        ensures
            r@ == delete_result_payload_view(payload),
    {
        Self { record_id: CKRecordID::from_payload(payload.record_id), error: error_option_from_payload(payload.error) }
    }
}

impl QueryMatchResult {
    /// The outcome that a bridge payload stands for.
    pub fn from_payload(payload: CKQueryMatchResultPayload) -> (r: Self)
        ensures
            r@ == match_result_payload_view(payload),
    {
        Self {
            record_id: CKRecordID::from_payload(payload.record_id),
            record: record_option_from_payload(payload.record),
            error: error_option_from_payload(payload.error),
        }
    }
}

/// Converts query match payloads, in order.
pub fn matches_from_payloads(payloads: Vec<CKQueryMatchResultPayload>) -> (r: Vec<QueryMatchResult>)
    ensures
        views_of(r@) == Seq::new(payloads@.len(), |i: int| match_result_payload_view(payloads@[i])),
{
    let ghost all = payloads@;
    let mut rest = payloads;
    let mut out: Vec<QueryMatchResult> = Vec::new();
    while rest.len() > 0
        invariant
            out@.len() + rest@.len() == all.len(),
            rest@ == all.skip(out@.len() as int),
            forall|j: int| 0 <= j < out@.len() ==> #[trigger] out@[j]@ == match_result_payload_view(all[j]),
        decreases rest@.len(),
    {
        let ghost k: int = out@.len() as int;
        let p = rest.remove(0);
        assert(p == all[k]);
        out.push(QueryMatchResult::from_payload(p));
        assert(rest@ =~= all.skip(k + 1));
    }
    assert(views_of(out@) =~= Seq::new(all.len(), |i: int| match_result_payload_view(all[i])));
    out
}

fn save_results_from_payloads(payloads: Vec<CKRecordSaveResultPayload>) -> (r: Vec<CKRecordSaveResult>)
    ensures
        views_of(r@) == Seq::new(payloads@.len(), |i: int| save_result_payload_view(payloads@[i])),
{
    let ghost all = payloads@;
    let mut rest = payloads;
    let mut out: Vec<CKRecordSaveResult> = Vec::new();
    while rest.len() > 0
        invariant
            out@.len() + rest@.len() == all.len(),
            rest@ == all.skip(out@.len() as int),
            forall|j: int| 0 <= j < out@.len() ==> #[trigger] out@[j]@ == save_result_payload_view(all[j]),
        decreases rest@.len(),
    {
        let ghost k: int = out@.len() as int;
        let p = rest.remove(0);
        assert(p == all[k]);
        out.push(CKRecordSaveResult::from_payload(p));
        assert(rest@ =~= all.skip(k + 1));
    }
    assert(views_of(out@) =~= Seq::new(all.len(), |i: int| save_result_payload_view(all[i])));
    out
}

fn delete_results_from_payloads(payloads: Vec<CKRecordDeleteResultPayload>) -> (r: Vec<CKRecordDeleteResult>)
    ensures
        views_of(r@) == Seq::new(payloads@.len(), |i: int| delete_result_payload_view(payloads@[i])),
{
    let ghost all = payloads@;
    let mut rest = payloads;
    let mut out: Vec<CKRecordDeleteResult> = Vec::new();
    while rest.len() > 0
        invariant
            out@.len() + rest@.len() == all.len(),
            rest@ == all.skip(out@.len() as int),
            forall|j: int| 0 <= j < out@.len() ==> #[trigger] out@[j]@ == delete_result_payload_view(all[j]),
        decreases rest@.len(),
    {
        let ghost k: int = out@.len() as int;
        let p = rest.remove(0);
        assert(p == all[k]);
        out.push(CKRecordDeleteResult::from_payload(p));
        assert(rest@ =~= all.skip(k + 1));
    }
    assert(views_of(out@) =~= Seq::new(all.len(), |i: int| delete_result_payload_view(all[i])));
    out
}

// ---------------------------------------------------------------------------
// Operation results
// ---------------------------------------------------------------------------

/// The outcome of a modify-records operation.
#[derive(Debug, PartialEq)]
pub struct ModifyRecordsResult {
    pub saved_records: Vec<CKRecord>,
    pub deleted_record_ids: Vec<CKRecordID>,
    pub save_results: Vec<CKRecordSaveResult>,
    pub delete_results: Vec<CKRecordDeleteResult>,
    pub operation_error: Option<CloudKitError>,
}

impl Clone for ModifyRecordsResult {
    fn clone(&self) -> (r: Self)
        ensures
            r@ == self@,
    {
        ModifyRecordsResult {
            saved_records: copy_all(&self.saved_records),
            deleted_record_ids: copy_all(&self.deleted_record_ids),
            save_results: copy_all(&self.save_results),
            delete_results: copy_all(&self.delete_results),
            operation_error: copy_option(&self.operation_error),
        }
    }
}


/// The abstract content of a modify-records outcome.
pub struct ModifyRecordsResultView {
    pub saved_records: Seq<RecordView>,
    pub deleted_record_ids: Seq<RecordIdView>,
    pub save_results: Seq<RecordOutcomeView>,
    pub delete_results: Seq<DeleteOutcomeView>,
    pub operation_error: Option<ErrorView>,
}

impl View for ModifyRecordsResult {
    type V = ModifyRecordsResultView;

    open spec fn view(&self) -> ModifyRecordsResultView {
        ModifyRecordsResultView {
            saved_records: views_of(self.saved_records@),
            deleted_record_ids: views_of(self.deleted_record_ids@),
            save_results: views_of(self.save_results@),
            delete_results: views_of(self.delete_results@),
            operation_error: error_option_view(self.operation_error),
        }
    }
}

/// The outcome that a modify-records result payload stands for.
pub open spec fn modify_records_result_payload_view(p: CKModifyRecordsResultPayload) -> ModifyRecordsResultView {
    ModifyRecordsResultView {
        saved_records: records_from_payloads_view(p.saved_records@),
        deleted_record_ids: record_ids_from_payloads_view(p.deleted_record_ids@),
        save_results: Seq::new(p.save_results@.len(), |i: int| save_result_payload_view(p.save_results@[i])),
        delete_results: Seq::new(p.delete_results@.len(), |i: int| delete_result_payload_view(p.delete_results@[i])),
        operation_error: error_payload_option_view(p.operation_error),
    }
}

impl ModifyRecordsResult {
    /// The outcome that a bridge payload stands for, list for list.
    pub fn from_payload(payload: CKModifyRecordsResultPayload) -> (r: Self)
        ensures
            r@ == modify_records_result_payload_view(payload),
    {
        Self {
            saved_records: records_from_payloads(payload.saved_records),
            deleted_record_ids: record_ids_from_payloads(payload.deleted_record_ids),
            save_results: save_results_from_payloads(payload.save_results),
            delete_results: delete_results_from_payloads(payload.delete_results),
            operation_error: error_option_from_payload(payload.operation_error),
        }
    }
}

/// The outcome of a query operation.
#[derive(Debug, PartialEq)]
pub struct QueryOperationResult {
    pub records: Vec<CKRecord>,
    pub matches: Vec<QueryMatchResult>,
    pub cursor_returned: bool,
    pub operation_error: Option<CloudKitError>,
}

impl Clone for QueryOperationResult {
    fn clone(&self) -> (r: Self)
        ensures
            r@ == self@,
    {
        QueryOperationResult {
            records: copy_all(&self.records),
            matches: copy_all(&self.matches),
            cursor_returned: self.cursor_returned,
            operation_error: copy_option(&self.operation_error),
        }
    }
}


/// The abstract content of a query outcome.
pub struct QueryOperationResultView {
    pub records: Seq<RecordView>,
    pub matches: Seq<RecordOutcomeView>,
    pub cursor_returned: bool,
    pub operation_error: Option<ErrorView>,
}

impl View for QueryOperationResult {
    type V = QueryOperationResultView;

    open spec fn view(&self) -> QueryOperationResultView {
        QueryOperationResultView {
            records: views_of(self.records@),
            matches: views_of(self.matches@),
            cursor_returned: self.cursor_returned,
            operation_error: error_option_view(self.operation_error),
        }
    }
}

/// The outcome that a query result payload stands for.
pub open spec fn query_operation_result_payload_view(p: CKQueryOperationResultPayload) -> QueryOperationResultView {
    QueryOperationResultView {
        records: records_from_payloads_view(p.records@),
        matches: Seq::new(p.matches@.len(), |i: int| match_result_payload_view(p.matches@[i])),
        cursor_returned: p.cursor_returned,
        operation_error: error_payload_option_view(p.operation_error),
    }
}

impl QueryOperationResult {
    /// The outcome that a bridge payload stands for, list for list.
    pub fn from_payload(payload: CKQueryOperationResultPayload) -> (r: Self)
        ensures
            r@ == query_operation_result_payload_view(payload),
    {
        Self {
            records: records_from_payloads(payload.records),
            matches: matches_from_payloads(payload.matches),
            cursor_returned: payload.cursor_returned,
            operation_error: error_option_from_payload(payload.operation_error),
        }
    }
}

// ---------------------------------------------------------------------------
// Modify-records operation
// ---------------------------------------------------------------------------

/// The abstract content of a modify-records operation.
pub struct ModifyRecordsOperationView {
    pub records_to_save: Seq<RecordView>,
    pub record_ids_to_delete: Seq<RecordIdView>,
    pub save_policy: CKRecordSavePolicy,
    pub atomic: bool,
}

/// Whether a request payload carries the operation: each record as its
/// payload, the identifiers, the raw save policy and atomicity.
pub open spec fn modify_records_request_matches(v: ModifyRecordsOperationView, p: CKModifyRecordsOperationPayload) -> bool {
    &&& p.records_to_save@.len() == v.records_to_save.len()
    &&& forall|i: int| 0 <= i < v.records_to_save.len() ==>
        record_payload_matches(#[trigger] v.records_to_save[i], p.records_to_save@[i])
    &&& record_ids_from_payloads_view(p.record_ids_to_delete@) == v.record_ids_to_delete
    &&& p.save_policy == save_policy_to_raw(v.save_policy)
    &&& p.atomic == v.atomic
}

/// Mirrors `CKModifyRecordsOperation`.
#[derive(Debug, PartialEq)]
pub struct CKModifyRecordsOperation {
    records_to_save: Vec<CKRecord>,
    record_ids_to_delete: Vec<CKRecordID>,
    save_policy: CKRecordSavePolicy,
    atomic: bool,
}

impl View for CKModifyRecordsOperation {
    type V = ModifyRecordsOperationView;

    closed spec fn view(&self) -> ModifyRecordsOperationView {
        ModifyRecordsOperationView {
            records_to_save: views_of(self.records_to_save@),
            record_ids_to_delete: views_of(self.record_ids_to_delete@),
            save_policy: self.save_policy,
            atomic: self.atomic,
        }
    }
}

impl Clone for CKModifyRecordsOperation {
    fn clone(&self) -> (r: Self)
        ensures
            r@ == self@,
    {
        CKModifyRecordsOperation {
            records_to_save: copy_records(&self.records_to_save),
            record_ids_to_delete: vec_copy(&self.record_ids_to_delete),
            save_policy: self.save_policy,
            atomic: self.atomic,
        }
    }
}

impl CKModifyRecordsOperation {
    /// An atomic operation saving and deleting the given records, saving only
    /// when the server record is unchanged.
    pub fn new(records_to_save: Vec<CKRecord>, record_ids_to_delete: Vec<CKRecordID>) -> (r: Self)
        ensures
            r@ == (ModifyRecordsOperationView {
                records_to_save: views_of(records_to_save@),
                record_ids_to_delete: views_of(record_ids_to_delete@),
                save_policy: CKRecordSavePolicy::IfServerRecordUnchanged,
                atomic: true,
            }),
    {
        Self { records_to_save, record_ids_to_delete, save_policy: CKRecordSavePolicy::IfServerRecordUnchanged, atomic: true }
    }

    /// Mirrors `recordsToSave`.
    pub fn records_to_save(&self) -> (r: &[CKRecord])
        ensures
            views_of(r@) == self@.records_to_save,
    {
        self.records_to_save.as_slice()
    }

    /// Mirrors `recordIDsToDelete`.
    pub fn record_ids_to_delete(&self) -> (r: &[CKRecordID])
        ensures
            views_of(r@) == self@.record_ids_to_delete,
    {
        self.record_ids_to_delete.as_slice()
    }

    /// Mirrors `savePolicy`.
    pub fn save_policy(&self) -> (r: CKRecordSavePolicy)
        ensures
            r == self@.save_policy,
    {
        self.save_policy
    }

    /// Mirrors `isAtomic`.
    pub fn atomic(&self) -> (r: bool)
        ensures
            r == self@.atomic,
    {
        self.atomic
    }

    /// The same operation with another save policy.
    pub fn with_save_policy(self, save_policy: CKRecordSavePolicy) -> (r: Self)
        ensures
            r@ == (ModifyRecordsOperationView { save_policy, ..self@ }),
    {
        Self { save_policy, ..self }
    }

    /// The same operation, atomic or not.
    pub fn with_atomic(self, atomic: bool) -> (r: Self)
        ensures
            r@ == (ModifyRecordsOperationView { atomic, ..self@ }),
    {
        Self { atomic, ..self }
    }

    /// The request the bridge is sent to run the operation.
    pub fn to_payload(&self) -> (r: CKModifyRecordsOperationPayload)
        ensures
            modify_records_request_matches(self@, r),
    {
        let records_to_save = records_to_payloads(&self.records_to_save);
        let r = CKModifyRecordsOperationPayload {
            records_to_save,
            record_ids_to_delete: record_ids_to_payloads(&self.record_ids_to_delete),
            save_policy: self.save_policy.to_raw(),
            atomic: self.atomic,
        };
        assert forall|i: int| 0 <= i < self@.records_to_save.len() implies
            record_payload_matches(#[trigger] self@.records_to_save[i], r.records_to_save@[i]) by {
            assert(self@.records_to_save[i] == self.records_to_save@[i]@);
        }
        r
    }
}

// ---------------------------------------------------------------------------
// Query operation
// ---------------------------------------------------------------------------

/// The abstract content of a query operation.
pub struct QueryOperationView {
    pub query: QueryView,
    pub zone_id: Option<RecordZoneIdView>,
    pub desired_keys: Option<Seq<Seq<char>>>,
    pub results_limit: Option<usize>,
}

/// Whether a request payload carries the query operation.
pub open spec fn query_request_matches(v: QueryOperationView, p: CKQueryOperationPayload) -> bool {
    &&& query_payload_view(p.query) == v.query
    &&& match p.zone_id {
        Some(z) => v.zone_id == Some(zone_id_payload_view(z)),
        None => v.zone_id is None,
    }
    &&& opt_texts_view(p.desired_keys) == v.desired_keys
    &&& p.results_limit == v.results_limit
}

/// Mirrors `CKQueryOperation`.
#[derive(Debug, PartialEq, Eq)]
pub struct CKQueryOperation {
    query: CKQuery,
    zone_id: Option<CKRecordZoneID>,
    desired_keys: Option<Vec<String>>,
    results_limit: Option<usize>,
}

impl Clone for CKQueryOperation {
    fn clone(&self) -> (r: Self)
        ensures
            r@ == self@,
    {
        CKQueryOperation {
            query: self.query.copy_view(),
            zone_id: copy_option(&self.zone_id),
            desired_keys: copy_opt_texts(&self.desired_keys),
            results_limit: self.results_limit,
        }
    }
}


impl View for CKQueryOperation {
    type V = QueryOperationView;

    closed spec fn view(&self) -> QueryOperationView {
        QueryOperationView {
            query: self.query@,
            zone_id: zone_id_option_view(self.zone_id),
            desired_keys: opt_texts_view(self.desired_keys),
            results_limit: self.results_limit,
        }
    }
}

impl CKQueryOperation {
    /// An operation running the query in every zone, for every key, without limit.
    pub fn new(query: CKQuery) -> (r: Self)
        ensures
            r@ == (QueryOperationView { query: query@, zone_id: None, desired_keys: None, results_limit: None }),
    {
        Self { query, zone_id: None, desired_keys: None, results_limit: None }
    }

    /// Mirrors `query`.
    pub fn query(&self) -> (r: &CKQuery)
        ensures
            r@ == self@.query,
    {
        &self.query
    }

    /// Mirrors `zoneID`.
    pub fn zone_id(&self) -> (r: Option<&CKRecordZoneID>)
        ensures
            r is Some <==> self@.zone_id is Some,
            r is Some ==> r->0@ == self@.zone_id->0,
    {
        match &self.zone_id {
            Some(z) => Some(z),
            None => None,
        }
    }

    /// Mirrors `desiredKeys`.
    pub fn desired_keys(&self) -> (r: Option<&[String]>)
        ensures
            r is Some <==> self@.desired_keys is Some,
            r is Some ==> crate::text::texts_view(r->0@) == self@.desired_keys->0,
    {
        match &self.desired_keys {
            Some(k) => Some(k.as_slice()),
            None => None,
        }
    }

    /// Mirrors `resultsLimit`.
    pub fn results_limit(&self) -> (r: Option<usize>)
        ensures
            r == self@.results_limit,
    {
        self.results_limit
    }

    /// The same operation restricted to one zone.
    pub fn with_zone_id(self, zone_id: CKRecordZoneID) -> (r: Self)
        ensures
            r@ == (QueryOperationView { zone_id: Some(zone_id@), ..self@ }),
    {
        Self { zone_id: Some(zone_id), ..self }
    }

    /// The same operation fetching only the given keys.
    pub fn with_desired_keys(self, desired_keys: Vec<String>) -> (r: Self)
        ensures
            r@ == (QueryOperationView { desired_keys: Some(crate::text::texts_view(desired_keys@)), ..self@ }),
    {
        Self { desired_keys: Some(desired_keys), ..self }
    }

    /// The same operation returning at most `results_limit` records.
    pub fn with_results_limit(self, results_limit: usize) -> (r: Self)
        ensures
            r@ == (QueryOperationView { results_limit: Some(results_limit), ..self@ }),
    {
        Self { results_limit: Some(results_limit), ..self }
    }

    /// The request the bridge is sent to run the operation.
    pub fn to_payload(&self) -> (r: CKQueryOperationPayload)
        ensures
            query_request_matches(self@, r),
    {
        let zone_id = match &self.zone_id {
            Some(z) => Some(z.to_payload()),
            None => None,
        };
        CKQueryOperationPayload {
            query: self.query.to_payload(),
            zone_id,
            desired_keys: copy_opt_texts(&self.desired_keys),
            results_limit: self.results_limit,
        }
    }
}

} // verus!
