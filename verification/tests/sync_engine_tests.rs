use cloudkit::error::CloudKitError;
use cloudkit::operation_support::CKOperationGroup;
use cloudkit::record::{CKRecordID, CKRecordZone, CKRecordZoneID};
use cloudkit::sync_engine::{
    fetch_changes_context, CKSyncEngineEvent, CKSyncEngineEventType, CKSyncEngineFetchChangesOptions,
    CKSyncEngineFetchChangesScope, CKSyncEnginePendingDatabaseChange, CKSyncEnginePendingDatabaseChangeType,
    CKSyncEnginePendingRecordZoneChange, CKSyncEnginePendingRecordZoneChangeType, CKSyncEnginePendingZoneDelete,
    CKSyncEnginePendingZoneSave, CKSyncEngineSendChangesScope, CKSyncEngineState, CKSyncEngineStateSerialization,
    CKSyncEngineStateUpdateEvent, CKSyncEngineDidFetchRecordZoneChangesEvent, CKSyncEngineSyncReason,
};

fn zone(name: &str) -> CKRecordZoneID {
    CKRecordZoneID::new(name, "__defaultOwner__")
}

#[test]
fn fetch_scope_includes_and_excludes_zones() {
    let everything = CKSyncEngineFetchChangesScope::new();
    assert!(everything.contains_zone_id(&zone("A")));
    let only_a = CKSyncEngineFetchChangesScope::with_zone_ids(vec![zone("A")]);
    assert!(only_a.contains_zone_id(&zone("A")));
    assert!(!only_a.contains_zone_id(&zone("B")));
    let excluded = only_a.clone().add_excluded_zone_id(zone("A"));
    assert!(!excluded.contains_zone_id(&zone("A")));
    let twice = CKSyncEngineFetchChangesScope::new().add_zone_id(zone("A")).add_zone_id(zone("A"));
    assert_eq!(twice.zone_ids().len(), 1);
}

#[test]
fn send_scope_checks_zone_and_record() {
    let record = CKRecordID::with_zone("r1", zone("A"));
    let other = CKRecordID::with_zone("r2", zone("A"));
    let scope = CKSyncEngineSendChangesScope::with_record_ids(vec![record.clone()]);
    assert!(scope.contains_record_id(&record));
    assert!(!scope.contains_record_id(&other));
    let excluded = CKSyncEngineSendChangesScope::new().add_excluded_zone_id(zone("A"));
    assert!(!excluded.contains_record_id(&record));
    assert!(CKSyncEngineSendChangesScope::default().contains_record_id(&other));
    let pending = CKSyncEnginePendingRecordZoneChange::new(record.clone(), CKSyncEnginePendingRecordZoneChangeType::SaveRecord);
    let pending_other = CKSyncEnginePendingRecordZoneChange::new(other.clone(), CKSyncEnginePendingRecordZoneChangeType::DeleteRecord);
    assert!(scope.contains_pending_record_zone_change(&pending));
    assert!(!scope.contains_pending_record_zone_change(&pending_other));
    assert!(!excluded.contains_pending_record_zone_change(&pending));
}

#[test]
fn state_adds_once_and_removes_exactly() {
    let mut state = CKSyncEngineState::new();
    let save = CKSyncEnginePendingRecordZoneChange::new(CKRecordID::new("a"), CKSyncEnginePendingRecordZoneChangeType::SaveRecord);
    let delete = CKSyncEnginePendingRecordZoneChange::new(CKRecordID::new("a"), CKSyncEnginePendingRecordZoneChangeType::DeleteRecord);
    state.add_pending_record_zone_change(save.clone());
    state.add_pending_record_zone_change(save.clone());
    state.add_pending_record_zone_change(delete.clone());
    assert_eq!(state.pending_record_zone_changes().len(), 2);
    state.remove_pending_record_zone_change(&CKRecordID::new("a"), CKSyncEnginePendingRecordZoneChangeType::SaveRecord);
    assert_eq!(state.pending_record_zone_changes(), &[delete]);

    let zone_save = CKSyncEnginePendingZoneSave::new(CKRecordZone::new("Z"));
    state.add_pending_database_change(zone_save.pending_change().clone());
    state.add_pending_database_change(CKSyncEnginePendingZoneDelete::new(zone("Z")).into_pending_change());
    assert_eq!(state.pending_database_changes().len(), 2);
    state.remove_pending_database_change(&zone("Z"), CKSyncEnginePendingDatabaseChangeType::DeleteZone);
    assert_eq!(
        state.pending_database_changes(),
        &[CKSyncEnginePendingDatabaseChange::new(zone("Z"), CKSyncEnginePendingDatabaseChangeType::SaveZone)]
    );

    state.add_zone_id_with_unfetched_server_changes(zone("Q"));
    state.add_zone_id_with_unfetched_server_changes(zone("Q"));
    assert_eq!(state.zone_ids_with_unfetched_server_changes().len(), 1);
    state.remove_zone_id_with_unfetched_server_changes(&zone("Q"));
    assert!(state.zone_ids_with_unfetched_server_changes().is_empty());
    state.set_has_pending_untracked_changes(true);
    assert!(state.has_pending_untracked_changes());
}

#[test]
fn adding_then_removing_restores_the_state() {
    let mut state = CKSyncEngineState::new();
    state.add_pending_record_zone_change(CKSyncEnginePendingRecordZoneChange::new(
        CKRecordID::new("keep"),
        CKSyncEnginePendingRecordZoneChangeType::SaveRecord,
    ));
    let before = state.clone();
    state.add_pending_record_zone_change(CKSyncEnginePendingRecordZoneChange::new(
        CKRecordID::new("tmp"),
        CKSyncEnginePendingRecordZoneChangeType::DeleteRecord,
    ));
    state.remove_pending_record_zone_change(&CKRecordID::new("tmp"), CKSyncEnginePendingRecordZoneChangeType::DeleteRecord);
    assert_eq!(state, before);
}

#[test]
fn fetch_context_falls_back_to_every_zone() {
    let context = fetch_changes_context(CKSyncEngineSyncReason::Manual, None);
    assert_eq!(context.reason(), CKSyncEngineSyncReason::Manual);
    assert!(context.options().scope().zone_ids().is_empty());
    let options = CKSyncEngineFetchChangesOptions::new(CKSyncEngineFetchChangesScope::with_zone_ids(vec![zone("A")]))
        .with_operation_group(CKOperationGroup::with_identifier("sync-group").with_name("sync-group"))
        .with_prioritized_zone_id(zone("A"))
        .with_prioritized_zone_id(zone("A"));
    let context = fetch_changes_context(CKSyncEngineSyncReason::Scheduled, Some(options));
    assert_eq!(context.options().prioritized_zone_ids().len(), 1);
    assert_eq!(context.options().operation_group().and_then(|g| g.name()), Some("sync-group"));
    assert_eq!(CKSyncEngineSyncReason::from_raw(5).to_raw(), 5);
}

#[test]
fn events_report_their_kind() {
    let event = CKSyncEngineEvent::from(CKSyncEngineStateUpdateEvent::new(CKSyncEngineStateSerialization::new(vec![4, 2])));
    assert_eq!(event.event_type(), CKSyncEngineEventType::StateUpdate);
    assert_eq!(event.as_state_update().map(|e| e.state_serialization().archived_data()), Some(&[4u8, 2][..]));
    assert!(event.as_account_change().is_none());
    let fetched: CKSyncEngineEvent = CKSyncEngineDidFetchRecordZoneChangesEvent::new(zone("A"))
        .with_error(CloudKitError::bridge(-2, "CloudKit bridge failure"))
        .into();
    assert_eq!(fetched.event_type(), CKSyncEngineEventType::DidFetchRecordZoneChanges);
    assert_eq!(
        fetched.as_did_fetch_record_zone_changes().and_then(|e| e.error()).map(|e| e.code),
        Some(-2)
    );
}
