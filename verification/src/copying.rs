//! Copying values by their views: a trait for the library's types whose clone
//! keeps the view, and copies of lists and optional values built on it.
use vstd::prelude::*;

use crate::record::{CKRecord, CKRecordID, CKRecordZoneID, CKRecordZone};
use crate::error::{CloudKitError};
use crate::server_change_token::{CKServerChangeToken};
use crate::fetched_results::{CKQueryCursor, CKFetchedQueryResults, CKRecordResult, CKDeletedRecord, CKFetchDatabaseChangesResult, CKFetchRecordZoneResult, CKFetchRecordZoneChangesResult};
use crate::subscription::{CKAnySubscription};
use crate::share::{CKShare, CKShareMetadata, CKShareParticipant};
use crate::user_identity::{CKUserIdentityLookupInfo, CKUserIdentity};
use crate::query::{CKQuery};
use crate::notification_info::{CKNotificationInfo};
use crate::operation::{CKRecordSaveResult, CKRecordDeleteResult, QueryMatchResult, ModifyRecordsResult, QueryOperationResult, CKQueryOperation};
use crate::operation_support::{CKRecordZoneFetchResult, CKSubscriptionFetchResult, CKSubscriptionSaveResult, CKSubscriptionDeleteResult, CKRecordZoneSaveResult, CKRecordZoneDeleteResult, CKShareParticipantFetchResult, CKShareMetadataFetchResult, CKAcceptShareResult, CKShareAccessRequestResult};
use crate::sync_engine::{CKSyncEngineStateSerialization, CKSyncEngineFetchChangesContext, CKSyncEngineSendChangesContext, CKSyncEngineFetchedRecordDeletion, CKSyncEngineFetchedZoneDeletion, CKSyncEngineFailedRecordSave, CKSyncEngineFailedZoneSave, CKSyncEngineFailedRecordDelete, CKSyncEngineFailedZoneDelete, CKSyncEngineStateUpdateEvent, CKSyncEngineAccountChangeEvent, CKSyncEngineFetchedDatabaseChangesEvent, CKSyncEngineFetchedRecordZoneChangesEvent, CKSyncEngineSentDatabaseChangesEvent, CKSyncEngineSentRecordZoneChangesEvent, CKSyncEngineWillFetchRecordZoneChangesEvent, CKSyncEngineDidFetchRecordZoneChangesEvent, CKSyncEngineWillFetchChangesEvent, CKSyncEngineDidFetchChangesEvent, CKSyncEngineWillSendChangesEvent, CKSyncEngineDidSendChangesEvent, CKSyncEngineEvent};
use crate::sync_engine::views_of;

verus! {

/// Values whose copy has the same view.
pub trait CopyView: View + Sized {
    /// A value with the same view.
    fn copy_view(&self) -> (r: Self)
        ensures
            r@ == self@;
}

/// The view of an optional value.
pub open spec fn option_view<T: View>(o: Option<T>) -> Option<T::V> {
    match o {
        Some(x) => Some(x@),
        None => None,
    }
}

/// Copies a list, each value by its view.
pub fn copy_all<T: CopyView>(v: &Vec<T>) -> (r: Vec<T>)
    ensures
        views_of(r@) == views_of(v@),
{
    let mut out: Vec<T> = Vec::new();
    let mut i: usize = 0;
    while i < v.len()
        invariant
            i <= v@.len(),
            out@.len() == i,
            forall|j: int| 0 <= j < i ==> #[trigger] out@[j]@ == v@[j]@,
        decreases v@.len() - i,
    {
        out.push(v[i].copy_view());
        i = i + 1;
    }
    assert(views_of(out@) =~= views_of(v@));
    out
}

/// Copies an optional value by its view.
pub fn copy_option<T: CopyView>(o: &Option<T>) -> (r: Option<T>)
    ensures
        option_view(r) == option_view(*o),
{
    match o {
        Some(x) => Some(x.copy_view()),
        None => None,
    }
}

impl CopyView for String {
    fn copy_view(&self) -> (r: Self) {
        self.clone()
    }
}

impl CopyView for Vec<u8> {
    fn copy_view(&self) -> (r: Self) {
        crate::record::copy_bytes(self)
    }
}

impl CopyView for CKRecord {
    fn copy_view(&self) -> (r: Self) {
        self.clone()
    }
}

impl CopyView for CKRecordID {
    fn copy_view(&self) -> (r: Self) {
        self.clone()
    }
}

impl CopyView for CKRecordZoneID {
    fn copy_view(&self) -> (r: Self) {
        self.clone()
    }
}

impl CopyView for CKRecordZone {
    fn copy_view(&self) -> (r: Self) {
        self.clone()
    }
}

impl CopyView for CloudKitError {
    fn copy_view(&self) -> (r: Self) {
        self.clone()
    }
}

impl CopyView for CKServerChangeToken {
    fn copy_view(&self) -> (r: Self) {
        self.clone()
    }
}

impl CopyView for CKQueryCursor {
    fn copy_view(&self) -> (r: Self) {
        self.clone()
    }
}

impl CopyView for CKFetchedQueryResults {
    fn copy_view(&self) -> (r: Self) {
        self.clone()
    }
}

impl CopyView for CKRecordResult {
    fn copy_view(&self) -> (r: Self) {
        self.clone()
    }
}

impl CopyView for CKDeletedRecord {
    fn copy_view(&self) -> (r: Self) {
        self.clone()
    }
}

impl CopyView for CKFetchDatabaseChangesResult {
    fn copy_view(&self) -> (r: Self) {
        self.clone()
    }
}

impl CopyView for CKFetchRecordZoneResult {
    fn copy_view(&self) -> (r: Self) {
        self.clone()
    }
}

impl CopyView for CKFetchRecordZoneChangesResult {
    fn copy_view(&self) -> (r: Self) {
        self.clone()
    }
}

impl CopyView for CKAnySubscription {
    fn copy_view(&self) -> (r: Self) {
        self.clone()
    }
}

impl CopyView for CKShare {
    fn copy_view(&self) -> (r: Self) {
        self.clone()
    }
}

impl CopyView for CKShareMetadata {
    fn copy_view(&self) -> (r: Self) {
        self.clone()
    }
}

impl CopyView for CKShareParticipant {
    fn copy_view(&self) -> (r: Self) {
        self.clone()
    }
}

impl CopyView for CKUserIdentityLookupInfo {
    fn copy_view(&self) -> (r: Self) {
        self.clone()
    }
}

impl CopyView for CKUserIdentity {
    fn copy_view(&self) -> (r: Self) {
        self.clone()
    }
}

impl CopyView for CKQuery {
    fn copy_view(&self) -> (r: Self) {
        self.clone()
    }
}

impl CopyView for CKNotificationInfo {
    fn copy_view(&self) -> (r: Self) {
        self.clone()
    }
}

impl CopyView for CKRecordSaveResult {
    fn copy_view(&self) -> (r: Self) {
        self.clone()
    }
}

impl CopyView for CKRecordDeleteResult {
    fn copy_view(&self) -> (r: Self) {
        self.clone()
    }
}

impl CopyView for QueryMatchResult {
    fn copy_view(&self) -> (r: Self) {
        self.clone()
    }
}

impl CopyView for ModifyRecordsResult {
    fn copy_view(&self) -> (r: Self) {
        self.clone()
    }
}

impl CopyView for QueryOperationResult {
    fn copy_view(&self) -> (r: Self) {
        self.clone()
    }
}

impl CopyView for CKQueryOperation {
    fn copy_view(&self) -> (r: Self) {
        self.clone()
    }
}

impl CopyView for CKRecordZoneFetchResult {
    fn copy_view(&self) -> (r: Self) {
        self.clone()
    }
}

impl CopyView for CKSubscriptionFetchResult {
    fn copy_view(&self) -> (r: Self) {
        self.clone()
    }
}

impl CopyView for CKSubscriptionSaveResult {
    fn copy_view(&self) -> (r: Self) {
        self.clone()
    }
}

impl CopyView for CKSubscriptionDeleteResult {
    fn copy_view(&self) -> (r: Self) {
        self.clone()
    }
}

impl CopyView for CKRecordZoneSaveResult {
    fn copy_view(&self) -> (r: Self) {
        self.clone()
    }
}

impl CopyView for CKRecordZoneDeleteResult {
    fn copy_view(&self) -> (r: Self) {
        self.clone()
    }
}

impl CopyView for CKShareParticipantFetchResult {
    fn copy_view(&self) -> (r: Self) {
        self.clone()
    }
}

impl CopyView for CKShareMetadataFetchResult {
    fn copy_view(&self) -> (r: Self) {
        self.clone()
    }
}

impl CopyView for CKAcceptShareResult {
    fn copy_view(&self) -> (r: Self) {
        self.clone()
    }
}

impl CopyView for CKShareAccessRequestResult {
    fn copy_view(&self) -> (r: Self) {
        self.clone()
    }
}

impl CopyView for CKSyncEngineStateSerialization {
    fn copy_view(&self) -> (r: Self) {
        self.clone()
    }
}

impl CopyView for CKSyncEngineFetchChangesContext {
    fn copy_view(&self) -> (r: Self) {
        self.clone()
    }
}

impl CopyView for CKSyncEngineSendChangesContext {
    fn copy_view(&self) -> (r: Self) {
        self.clone()
    }
}

impl CopyView for CKSyncEngineFetchedRecordDeletion {
    fn copy_view(&self) -> (r: Self) {
        self.clone()
    }
}

impl CopyView for CKSyncEngineFetchedZoneDeletion {
    fn copy_view(&self) -> (r: Self) {
        self.clone()
    }
}

impl CopyView for CKSyncEngineFailedRecordSave {
    fn copy_view(&self) -> (r: Self) {
        self.clone()
    }
}

impl CopyView for CKSyncEngineFailedZoneSave {
    fn copy_view(&self) -> (r: Self) {
        self.clone()
    }
}

impl CopyView for CKSyncEngineFailedRecordDelete {
    fn copy_view(&self) -> (r: Self) {
        self.clone()
    }
}

impl CopyView for CKSyncEngineFailedZoneDelete {
    fn copy_view(&self) -> (r: Self) {
        self.clone()
    }
}

impl CopyView for CKSyncEngineStateUpdateEvent {
    fn copy_view(&self) -> (r: Self) {
        self.clone()
    }
}

impl CopyView for CKSyncEngineAccountChangeEvent {
    fn copy_view(&self) -> (r: Self) {
        self.clone()
    }
}

impl CopyView for CKSyncEngineFetchedDatabaseChangesEvent {
    fn copy_view(&self) -> (r: Self) {
        self.clone()
    }
}

impl CopyView for CKSyncEngineFetchedRecordZoneChangesEvent {
    fn copy_view(&self) -> (r: Self) {
        self.clone()
    }
}

impl CopyView for CKSyncEngineSentDatabaseChangesEvent {
    fn copy_view(&self) -> (r: Self) {
        self.clone()
    }
}

impl CopyView for CKSyncEngineSentRecordZoneChangesEvent {
    fn copy_view(&self) -> (r: Self) {
        self.clone()
    }
}

impl CopyView for CKSyncEngineWillFetchRecordZoneChangesEvent {
    fn copy_view(&self) -> (r: Self) {
        self.clone()
    }
}

impl CopyView for CKSyncEngineDidFetchRecordZoneChangesEvent {
    fn copy_view(&self) -> (r: Self) {
        self.clone()
    }
}

impl CopyView for CKSyncEngineWillFetchChangesEvent {
    fn copy_view(&self) -> (r: Self) {
        self.clone()
    }
}

impl CopyView for CKSyncEngineDidFetchChangesEvent {
    fn copy_view(&self) -> (r: Self) {
        self.clone()
    }
}

impl CopyView for CKSyncEngineWillSendChangesEvent {
    fn copy_view(&self) -> (r: Self) {
        self.clone()
    }
}

impl CopyView for CKSyncEngineDidSendChangesEvent {
    fn copy_view(&self) -> (r: Self) {
        self.clone()
    }
}

impl CopyView for CKSyncEngineEvent {
    fn copy_view(&self) -> (r: Self) {
        self.clone()
    }
}

} // verus!
