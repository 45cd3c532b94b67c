use cloudkit::constants::CK_CURRENT_USER_DEFAULT_NAME;
use cloudkit::container::{CKContainer, CKDatabaseScope};
use cloudkit::error::CloudKitError;
use cloudkit::notification::{
    CKDatabaseNotification, CKNotification, CKNotificationID, CKNotificationType, CKQueryNotification,
    CKQueryNotificationReason, CKRecordZoneNotification,
};
use cloudkit::operation_support::{CKDatabaseOperation, CKFetchWebAuthTokenOperation, CKOperationGroup};
use cloudkit::payload::{
    CKRecordIDPayload, CKRecordPayload, CKRecordZoneIDPayload, CKShareParticipantPayload, CKSharePayload,
    CKUserIdentityPayload,
};
use cloudkit::record::{CKRecord, CKRecordID, CKRecordZone, CKRecordZoneID, RecordValue};
use cloudkit::share::{
    CKAllowedSharingOptions, CKShare, CKShareAccessRequester, CKShareBlockedIdentity, CKShareMetadata,
    CKShareParticipantAcceptanceStatus, CKShareParticipantPermission, CKShareParticipantRole, CKShareParticipantType,
    CKSharingParticipantAccessOption, CKSharingParticipantPermissionOption,
};
use cloudkit::sync_engine::{
    CKSyncEngineAccountChangeEvent, CKSyncEngineAccountChangeType, CKSyncEngineDidFetchChangesEvent,
    CKSyncEngineDidFetchRecordZoneChangesEvent, CKSyncEngineDidSendChangesEvent, CKSyncEngineEvent,
    CKSyncEngineEventType, CKSyncEngineFailedRecordDelete, CKSyncEngineFailedRecordSave, CKSyncEngineFailedZoneDelete,
    CKSyncEngineFailedZoneSave, CKSyncEngineFetchChangesContext, CKSyncEngineFetchChangesOptions,
    CKSyncEngineFetchChangesScope, CKSyncEngineFetchedDatabaseChangesEvent, CKSyncEngineFetchedRecordDeletion,
    CKSyncEngineFetchedRecordZoneChangesEvent, CKSyncEngineFetchedZoneDeletion, CKSyncEnginePendingRecordZoneChange,
    CKSyncEnginePendingRecordZoneChangeType, CKSyncEnginePendingZoneDelete, CKSyncEnginePendingZoneSave,
    CKSyncEngineRecordZoneChangeBatch, CKSyncEngineSendChangesContext, CKSyncEngineSendChangesOptions,
    CKSyncEngineSendChangesScope, CKSyncEngineSentDatabaseChangesEvent, CKSyncEngineSentRecordZoneChangesEvent,
    CKSyncEngineState, CKSyncEngineStateSerialization, CKSyncEngineStateUpdateEvent, CKSyncEngineSyncReason,
    CKSyncEngineWillFetchChangesEvent, CKSyncEngineWillFetchRecordZoneChangesEvent, CKSyncEngineWillSendChangesEvent,
    CKSyncEngineZoneDeletionReason,
};
use cloudkit::user_identity::{CKPersonNameComponents, CKUserIdentity, CKUserIdentityLookupInfo};

fn sample_zone_id() -> CKRecordZoneID {
    CKRecordZoneID::new("ExpandedSurfaceZone", CK_CURRENT_USER_DEFAULT_NAME)
}

fn sample_record_id() -> CKRecordID {
    CKRecordID::with_zone("expanded-surface-record", sample_zone_id())
}

fn sample_identity() -> CKUserIdentity {
    CKUserIdentity::new()
        .with_user_record_id(sample_record_id())
        .with_lookup_info(CKUserIdentityLookupInfo::with_email_address("tester@example.com"))
        .with_name_components(CKPersonNameComponents::new().with_given_name("Test"))
        .with_has_i_cloud_account(true)
        .with_contact_identifiers(vec!["tester@example.com".into()])
}

fn zone_payload() -> CKRecordZoneIDPayload {
    CKRecordZoneIDPayload { zone_name: "_defaultZone".into(), owner_name: "__defaultOwner__".into() }
}

fn record_payload(record_type: &str, name: &str) -> CKRecordPayload {
    CKRecordPayload {
        record_type: record_type.into(),
        record_id: CKRecordIDPayload { record_name: name.into(), zone_id: zone_payload() },
        fields: Vec::new(),
        encoded_system_fields: Vec::new(),
        record_change_tag: None,
        creator_user_record_id: None,
        creation_date: None,
        last_modified_user_record_id: None,
        modification_date: None,
        parent: None,
        share: None,
        changed_keys: Vec::new(),
        all_tokens: Vec::new(),
    }
}

fn owner_payload() -> CKShareParticipantPayload {
    CKShareParticipantPayload {
        archived_data: vec![7],
        user_identity: CKUserIdentityPayload {
            archived_data: vec![1],
            user_record_id: None,
            lookup_info: None,
            name_components: None,
            hasi_cloud_account: true,
            contact_identifiers: Vec::new(),
        },
        role: Some(1),
        permission: 3,
        acceptance_status: 2,
        participant_id: "owner".into(),
        is_approved_requester: None,
        date_added_to_share: None,
    }
}

/// The share that the bridge answers for a root record: its own share record,
/// and the current user as owner.
fn share_for_root(root: &CKRecord) -> CKShare {
    CKShare::from_payload(CKSharePayload {
        share_record: record_payload("cloudkit.share", "share-root"),
        root_record: Some(root.to_payload()),
        zone_id: zone_payload(),
        public_permission: 1,
        url: None,
        participants: vec![owner_payload()],
        owner: Some(owner_payload()),
        current_user_participant: Some(owner_payload()),
        title: None,
        thumbnail_image_data: None,
        share_type: None,
        allows_access_requests: None,
        is_zone_wide: false,
    })
}

fn sample_share_metadata() -> CKShareMetadata {
    let mut root_record = CKRecord::with_record_id("ExpandedSurfaceTask", CKRecordID::new("task"));
    root_record.set_object("title", RecordValue::String("ship v0.2.1".into()));
    let share = share_for_root(&root_record);
    let root_record_id = root_record.record_id().clone();
    CKShareMetadata::new("iCloud.example.expanded-surface", share, sample_identity())
        .with_hierarchical_root_record_id(root_record_id.clone())
        .with_participant_role(CKShareParticipantRole::Owner)
        .with_participant_status(CKShareParticipantAcceptanceStatus::Accepted)
        .with_participant_permission(CKShareParticipantPermission::ReadWrite)
        .with_root_record(root_record)
        .with_participant_type(CKShareParticipantType::Owner)
        .with_root_record_id(root_record_id)
}

#[test]
fn local_share_creation_exposes_share_record_and_owner_participant() {
    let mut root = CKRecord::with_record_id("ShareTests", CKRecordID::new("root"));
    root.set_object("title", RecordValue::String("share-root".into()));

    let share = share_for_root(&root);

    assert_eq!(share.share_record().record_type(), "cloudkit.share");
    assert!(!share.participants().is_empty());
}

#[test]
fn user_identity_lookup_info_and_share_owner_are_available() {
    let lookup = CKUserIdentityLookupInfo::with_email_address("developer@example.com");
    assert_eq!(lookup.email_address(), Some("developer@example.com"));

    let root = CKRecord::with_record_id("IdentityTests", CKRecordID::new("identity-root"));
    let share = share_for_root(&root);
    let owner = share.owner().expect("shares should expose an owner participant");
    assert!(owner.user_identity().has_i_cloud_account());
}

#[test]
fn notification_and_share_support_types_capture_local_state() {
    let zone_id = sample_zone_id();
    let record_id = sample_record_id();
    let identity = sample_identity();
    let lookup_info = CKUserIdentityLookupInfo::with_email_address("tester@example.com");

    let notification = CKNotification::new(CKNotificationType::Query)
        .with_notification_id(CKNotificationID::new(vec![1, 2, 3]))
        .with_container_identifier("iCloud.example.expanded-surface")
        .with_subscription_owner_user_record_id(record_id.clone())
        .with_pruned(true)
        .with_subscription_id("subscription-id");
    let query_notification = CKQueryNotification::new(CKQueryNotificationReason::RecordUpdated, CKDatabaseScope::Private)
        .with_notification(notification.clone())
        .with_record_id(record_id.clone())
        .with_record_field("title", RecordValue::String("updated".into()));
    let zone_notification = CKRecordZoneNotification::new(CKDatabaseScope::Shared)
        .with_notification(CKNotification::new(CKNotificationType::RecordZone))
        .with_record_zone_id(zone_id.clone());
    let database_notification = CKDatabaseNotification::new(CKDatabaseScope::Public)
        .with_notification(CKNotification::new(CKNotificationType::Database));

    let access_options =
        CKSharingParticipantAccessOption::anyone_with_link().union(CKSharingParticipantAccessOption::specified_recipients_only());
    let permission_options =
        CKSharingParticipantPermissionOption::read_only().union(CKSharingParticipantPermissionOption::read_write());
    let sharing_options = CKAllowedSharingOptions::new(permission_options, access_options);
    let requester = CKShareAccessRequester::new(identity.clone(), lookup_info.clone()).with_contact_display_name("Tester");
    let blocked_identity = CKShareBlockedIdentity::new(identity.clone()).with_contact_display_name("Blocked Tester");

    let metadata = sample_share_metadata();

    assert_eq!(notification.notification_type(), CKNotificationType::Query);
    assert_eq!(query_notification.query_notification_reason(), CKQueryNotificationReason::RecordUpdated);
    assert_eq!(query_notification.record_fields().len(), 1);
    assert_eq!(zone_notification.database_scope(), CKDatabaseScope::Shared);
    assert_eq!(database_notification.database_scope(), CKDatabaseScope::Public);
    assert!(sharing_options.allowed_participant_access_options().contains(CKSharingParticipantAccessOption::anyone_with_link()));
    assert!(sharing_options
        .allowed_participant_permission_options()
        .contains(CKSharingParticipantPermissionOption::read_write()));
    assert_eq!(requester.contact_display_name(), Some("Tester"));
    assert_eq!(blocked_identity.contact_display_name(), Some("Blocked Tester"));
    assert_eq!(metadata.container_identifier(), "iCloud.example.expanded-surface");
    assert_eq!(metadata.participant_type(), Some(CKShareParticipantType::Owner));
    assert_eq!(metadata.participant_status(), CKShareParticipantAcceptanceStatus::Accepted);
    assert_eq!(metadata.participant_permission(), CKShareParticipantPermission::ReadWrite);
    assert_eq!(metadata.share().owner().expect("share owner").participant_type(), CKShareParticipantType::Owner);
}

#[test]
fn sync_engine_surface_builds_state_batches_and_events() {
    let container = CKContainer::container("iCloud.example.expanded-surface");
    let database = container.private_cloud_database();
    let zone_id = sample_zone_id();
    let record_id = sample_record_id();
    let record_zone = CKRecordZone::new(zone_id.zone_name());
    let record = CKRecord::with_record_id("ExpandedSyncRecord", CKRecordID::new("sync-record"));
    let state_serialization = CKSyncEngineStateSerialization::new(vec![9, 8, 7]);

    let fetch_scope = CKSyncEngineFetchChangesScope::new()
        .add_zone_id(zone_id.clone())
        .add_excluded_zone_id(CKRecordZoneID::new("ExcludedZone", CK_CURRENT_USER_DEFAULT_NAME));
    let send_scope = CKSyncEngineSendChangesScope::new().add_zone_id(zone_id.clone()).add_record_id(record_id.clone());
    let group = CKOperationGroup::with_identifier("operation-group-1").with_name("sync-group");
    let fetch_options = CKSyncEngineFetchChangesOptions::new(fetch_scope.clone())
        .with_operation_group(group.clone())
        .with_prioritized_zone_id(zone_id.clone());
    let send_options = CKSyncEngineSendChangesOptions::new(send_scope.clone()).with_operation_group(group.clone());
    let fetch_context = CKSyncEngineFetchChangesContext::new(CKSyncEngineSyncReason::Manual, fetch_options.clone());
    let send_context = CKSyncEngineSendChangesContext::new(CKSyncEngineSyncReason::Scheduled, send_options.clone());

    let pending_record_save =
        CKSyncEnginePendingRecordZoneChange::new(record_id.clone(), CKSyncEnginePendingRecordZoneChangeType::SaveRecord);
    let pending_record_delete =
        CKSyncEnginePendingRecordZoneChange::new(record_id.clone(), CKSyncEnginePendingRecordZoneChangeType::DeleteRecord);
    let pending_zone_save = CKSyncEnginePendingZoneSave::new(record_zone.clone());
    let pending_zone_delete = CKSyncEnginePendingZoneDelete::new(zone_id.clone());

    let mut state = CKSyncEngineState::new();
    state.add_pending_record_zone_change(pending_record_save.clone());
    state.add_pending_record_zone_change(pending_record_delete.clone());
    state.add_pending_database_change(pending_zone_save.clone().into_pending_change());
    state.add_pending_database_change(pending_zone_delete.clone().into_pending_change());
    state.set_has_pending_untracked_changes(true);
    state.add_zone_id_with_unfetched_server_changes(zone_id.clone());

    let batch = CKSyncEngineRecordZoneChangeBatch::new(vec![record.clone()], vec![record_id.clone()], true)
        .with_atomic_by_zone(false);

    let missing_api_token: CloudKitError = CKFetchWebAuthTokenOperation::new(
        CKDatabaseOperation::with_identifier("operation-2").with_database(database),
    )
    .api_token_for_request()
    .expect_err("missing API token should fail before reaching CloudKit");
    let fetched_record_deletion = CKSyncEngineFetchedRecordDeletion::new(record_id.clone(), "ExpandedSyncRecord");
    let fetched_zone_deletion =
        CKSyncEngineFetchedZoneDeletion::new(zone_id.clone(), CKSyncEngineZoneDeletionReason::Deleted);
    let failed_record_save = CKSyncEngineFailedRecordSave::new(record.clone(), missing_api_token.clone());
    let failed_zone_save = CKSyncEngineFailedZoneSave::new(record_zone.clone(), missing_api_token.clone());
    let failed_record_delete = CKSyncEngineFailedRecordDelete::new(record_id.clone(), missing_api_token.clone());
    let failed_zone_delete = CKSyncEngineFailedZoneDelete::new(zone_id.clone(), missing_api_token.clone());

    let state_update = CKSyncEngineStateUpdateEvent::new(state_serialization.clone());
    let account_change = CKSyncEngineAccountChangeEvent::new(CKSyncEngineAccountChangeType::SignIn)
        .with_previous_user(sample_identity())
        .with_current_user(sample_identity());
    let fetched_db_changes =
        CKSyncEngineFetchedDatabaseChangesEvent::new(vec![record_zone.clone()], vec![fetched_zone_deletion.clone()]);
    let fetched_record_zone_changes =
        CKSyncEngineFetchedRecordZoneChangesEvent::new(vec![record.clone()], vec![fetched_record_deletion.clone()]);
    let sent_db_changes = CKSyncEngineSentDatabaseChangesEvent::new(
        vec![record_zone.clone()],
        vec![failed_zone_save.clone()],
        vec![zone_id.clone()],
        vec![failed_zone_delete.clone()],
    );
    let sent_record_zone_changes = CKSyncEngineSentRecordZoneChangesEvent::new(
        vec![record.clone()],
        vec![failed_record_save.clone()],
        vec![record_id.clone()],
        vec![failed_record_delete.clone()],
    );
    let will_fetch = CKSyncEngineWillFetchChangesEvent::new(fetch_context.clone());
    let will_fetch_zone = CKSyncEngineWillFetchRecordZoneChangesEvent::new(zone_id.clone());
    let did_fetch_zone = CKSyncEngineDidFetchRecordZoneChangesEvent::new(zone_id.clone()).with_error(missing_api_token.clone());
    let did_fetch = CKSyncEngineDidFetchChangesEvent::new(fetch_context.clone());
    let will_send = CKSyncEngineWillSendChangesEvent::new(send_context.clone());
    let did_send = CKSyncEngineDidSendChangesEvent::new(send_context.clone());

    let event: CKSyncEngineEvent = will_fetch.clone().into();
    let kinds: Vec<CKSyncEngineEventType> = vec![
        CKSyncEngineEvent::from(state_update.clone()).event_type(),
        CKSyncEngineEvent::from(will_fetch_zone.clone()).event_type(),
        CKSyncEngineEvent::from(did_fetch_zone.clone()).event_type(),
        CKSyncEngineEvent::from(did_fetch.clone()).event_type(),
        CKSyncEngineEvent::from(will_send.clone()).event_type(),
        CKSyncEngineEvent::from(did_send.clone()).event_type(),
    ];

    assert_eq!(fetch_scope.zone_ids().len(), 1);
    assert_eq!(send_scope.record_ids().len(), 1);
    assert_eq!(fetch_options.prioritized_zone_ids().len(), 1);
    assert!(send_options.scope().contains_record_id(&record_id));
    assert_eq!(state.pending_record_zone_changes().len(), 2);
    assert_eq!(state.pending_database_changes().len(), 2);
    assert!(state.has_pending_untracked_changes());
    assert_eq!(state.zone_ids_with_unfetched_server_changes().len(), 1);
    assert!(!batch.atomic_by_zone());
    assert_eq!(batch.record_ids_to_delete().len(), 1);
    assert_eq!(fetched_record_deletion.record_type(), "ExpandedSyncRecord");
    assert_eq!(fetched_zone_deletion.reason(), CKSyncEngineZoneDeletionReason::Deleted);
    assert_eq!(failed_record_save.record().record_type(), "ExpandedSyncRecord");
    assert_eq!(failed_zone_save.record_zone().zone_id().zone_name(), zone_id.zone_name());
    assert_eq!(state_update.state_serialization().archived_data(), &[9, 8, 7]);
    assert_eq!(account_change.change_type(), CKSyncEngineAccountChangeType::SignIn);
    assert_eq!(fetched_db_changes.modifications().len(), 1);
    assert_eq!(fetched_record_zone_changes.modifications().len(), 1);
    assert_eq!(sent_db_changes.failed_zone_saves().len(), 1);
    assert_eq!(sent_record_zone_changes.failed_record_saves().len(), 1);
    assert_eq!(event.event_type(), CKSyncEngineEventType::WillFetchChanges);
    assert!(kinds.contains(&CKSyncEngineEventType::WillSendChanges));
    assert!(kinds.contains(&CKSyncEngineEventType::StateUpdate));
}
