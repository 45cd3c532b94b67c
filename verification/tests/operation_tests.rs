use cloudkit::container::{CKContainer, CKDatabaseScope};
use cloudkit::fetched_results::{CKFetchDatabaseChangesResult, CKFetchedQueryResults, CKQueryCursor};
use cloudkit::operation::{CKModifyRecordsOperation, CKQueryOperation, CKRecordSavePolicy, ModifyRecordsResult};
use cloudkit::constants::CK_CURRENT_USER_DEFAULT_NAME;
use cloudkit::error::{CloudKitError, CloudKitErrorCode};
use cloudkit::operation_support::{
    numbered_identifier_text, CKAcceptSharesOperation, CKDatabaseOperation, CKFetchRecordZonesOperation,
    CKFetchShareMetadataOperation, CKFetchShareParticipantsOperation, CKFetchSubscriptionsOperation,
    CKFetchWebAuthTokenOperation, CKModifyRecordZonesOperation, CKModifySubscriptionsOperation, CKOperation, CKOperationConfiguration, CKOperationGroup,
    CKOperationGroupTransferSize, CKQualityOfService, CKShareRequestAccessOperation, ModifyRecordZonesResult,
};
use cloudkit::payload::{
    CKFetchDatabaseChangesResultPayload, CKFetchedQueryResultsPayload, CKModifyRecordsResultPayload,
    CKQueryCursorPayload, CKRecordDeleteResultPayload, CKRecordIDPayload, CKRecordZoneIDPayload,
    CKRecordPayload, CKServerChangeTokenPayload, CKSharePayload, ErrorPayload,
};
use cloudkit::query::CKQuery;
use cloudkit::subscription::CKDatabaseSubscription;
use cloudkit::record::{CKRecord, CKRecordID, CKRecordZone, CKRecordZoneID};
use cloudkit::share::{
    CKShare, CKShareMetadata, CKShareParticipantAcceptanceStatus, CKShareParticipantPermission, CKShareParticipantRole,
    CKShareParticipantType,
};
use cloudkit::user_identity::{CKUserIdentity, CKUserIdentityLookupInfo};

fn zone_payload(name: &str) -> CKRecordZoneIDPayload {
    CKRecordZoneIDPayload { zone_name: name.into(), owner_name: "__defaultOwner__".into() }
}

#[test]
fn operation_builders_capture_requested_state() {
    let modify = CKModifyRecordsOperation::new(
        vec![CKRecord::with_record_id("Task", CKRecordID::new("one"))],
        vec![CKRecordID::new("two")],
    )
    .with_save_policy(CKRecordSavePolicy::AllKeys)
    .with_atomic(false);
    assert_eq!(modify.records_to_save().len(), 1);
    assert_eq!(modify.save_policy(), CKRecordSavePolicy::AllKeys);
    assert!(!modify.atomic());
    let request = modify.to_payload();
    assert_eq!(request.save_policy, 2);
    assert_eq!(request.record_ids_to_delete[0].record_name, "two");
    assert!(!request.atomic);

    let query = CKQueryOperation::new(CKQuery::match_all("Task"))
        .with_zone_id(CKRecordZoneID::new("Zone", "__defaultOwner__"))
        .with_desired_keys(vec!["title".into()])
        .with_results_limit(25);
    assert_eq!(query.results_limit(), Some(25));
    let request = query.to_payload();
    assert_eq!(request.results_limit, Some(25));
    assert_eq!(request.zone_id.map(|z| z.zone_name), Some("Zone".to_string()));
    assert_eq!(request.query.record_type, "Task");
}

#[test]
fn modify_result_reads_every_list() {
    let payload = CKModifyRecordsResultPayload {
        saved_records: Vec::new(),
        deleted_record_ids: vec![CKRecordIDPayload { record_name: "gone".into(), zone_id: zone_payload("_defaultZone") }],
        save_results: Vec::new(),
        delete_results: vec![CKRecordDeleteResultPayload {
            record_id: CKRecordIDPayload { record_name: "stuck".into(), zone_id: zone_payload("_defaultZone") },
            error: Some(ErrorPayload { domain: "CKErrorDomain".into(), code: 11, message: "unknown".into(), retry_after_seconds: None }),
        }],
        operation_error: None,
    };
    let result = ModifyRecordsResult::from_payload(payload);
    assert_eq!(result.deleted_record_ids[0].record_name(), "gone");
    assert_eq!(result.delete_results[0].error.as_ref().map(|e| e.code), Some(11));
    assert!(result.operation_error.is_none());
}

#[test]
fn fetched_results_keep_cursor_and_tokens() {
    let results = CKFetchedQueryResults::from_payload(CKFetchedQueryResultsPayload {
        records: Vec::new(),
        matches: Vec::new(),
        cursor: Some(CKQueryCursorPayload { archived_data: vec![5, 6] }),
        operation_error: None,
    });
    assert_eq!(results.cursor, Some(CKQueryCursor::from_archived_data(vec![5, 6])));

    let changes = CKFetchDatabaseChangesResult::from_payload(CKFetchDatabaseChangesResultPayload {
        changed_zone_ids: vec![zone_payload("A"), zone_payload("B")],
        deleted_zone_ids: Vec::new(),
        purged_zone_ids: vec![zone_payload("C")],
        encrypted_data_reset_zone_ids: Vec::new(),
        updated_server_change_tokens: vec![CKServerChangeTokenPayload { archived_data: vec![1] }],
        server_change_token: Some(CKServerChangeTokenPayload { archived_data: vec![2] }),
        more_coming: true,
        operation_error: None,
    });
    let names: Vec<&str> = changes.changed_zone_ids.iter().map(|z| z.zone_name()).collect();
    assert_eq!(names, vec!["A", "B"]);
    assert_eq!(changes.purged_zone_ids[0].zone_name(), "C");
    assert_eq!(changes.server_change_token.as_ref().map(|t| t.archived_data()), Some(&[2u8][..]));
    assert!(changes.more_coming);
}

#[test]
fn operation_support_types_store_requested_configuration() {
    let container = CKContainer::container("iCloud.example.expanded-surface");
    let database = container.private_cloud_database();
    let zone_id = CKRecordZoneID::new("ExpandedSurfaceZone", CK_CURRENT_USER_DEFAULT_NAME);
    let zone = CKRecordZone::new(zone_id.zone_name());
    let share_metadata = sample_share_metadata();

    let configuration = CKOperationConfiguration::new()
        .with_container(container.clone())
        .with_quality_of_service(CKQualityOfService::Utility)
        .with_allows_cellular_access(false)
        .with_long_lived(true)
        .with_timeout_interval_for_request(5.0f64.to_bits())
        .with_timeout_interval_for_resource(10.0f64.to_bits());
    let group = CKOperationGroup::with_identifier(&numbered_identifier_text("operation-group", 1))
        .with_name("expanded-surface")
        .with_quantity(3)
        .with_expected_send_size(CKOperationGroupTransferSize::Kilobytes)
        .with_expected_receive_size(CKOperationGroupTransferSize::Megabytes);
    let mut operation = CKOperation::with_identifier(&numbered_identifier_text("operation", 2))
        .with_configuration(configuration.clone())
        .with_group(group.clone());
    operation.mark_long_lived_operation_was_persisted();

    let database_operation = CKDatabaseOperation::with_identifier(&numbered_identifier_text("operation", 3))
        .with_operation(operation.clone())
        .with_database(database.clone());
    let fetch_zones = CKFetchRecordZonesOperation::new(vec![zone_id.clone()], CKDatabaseOperation::with_identifier("operation-4"))
        .with_database_operation(database_operation.clone());
    let modify_zones = CKModifyRecordZonesOperation::new(
        vec![zone.clone()],
        vec![zone_id.clone()],
        CKDatabaseOperation::with_identifier("operation-5"),
    )
    .with_database_operation(database_operation.clone());
    let fetch_subscriptions =
        CKFetchSubscriptionsOperation::new(vec!["sub-id".into()], CKDatabaseOperation::with_identifier("operation-6"))
            .with_database_operation(database_operation.clone());
    let modify_subscriptions = CKModifySubscriptionsOperation::new(
        vec![CKDatabaseSubscription::new("sub-id").into()],
        vec!["old-sub-id".into()],
        CKDatabaseOperation::with_identifier("operation-12"),
    )
    .with_database_operation(database_operation.clone());
    let fetch_share_participants = CKFetchShareParticipantsOperation::new(CKOperation::with_identifier("operation-7"))
        .with_operation(operation.clone())
        .with_user_identity_lookup_infos(vec![CKUserIdentityLookupInfo::with_email_address("tester@example.com")]);
    let fetch_share_metadata = CKFetchShareMetadataOperation::new(CKOperation::with_identifier("operation-8"))
        .with_operation(operation.clone())
        .with_share_urls(vec!["https://example.com/share".into()])
        .with_should_fetch_root_record(true)
        .with_root_record_desired_keys(vec!["title".into()]);
    let accept_shares = CKAcceptSharesOperation::new(CKOperation::with_identifier("operation-9"))
        .with_operation(operation.clone())
        .with_share_metadatas(vec![share_metadata]);
    let request_share_access = CKShareRequestAccessOperation::new(CKOperation::with_identifier("operation-10"))
        .with_operation(operation.clone())
        .with_share_urls(vec!["https://example.com/share".into()]);

    let missing_api_token = CKFetchWebAuthTokenOperation::new(CKDatabaseOperation::with_identifier("operation-11"))
        .with_database_operation(database_operation)
        .api_token_for_request()
        .expect_err("missing API token should fail before reaching CloudKit");

    assert_eq!(configuration.quality_of_service(), CKQualityOfService::Utility);
    assert!(!configuration.allows_cellular_access());
    assert!(configuration.long_lived());
    assert_eq!(group.name(), Some("expanded-surface"));
    assert!(operation.long_lived_operation_was_persisted());
    assert_eq!(fetch_zones.record_zone_ids().expect("zone ids").len(), 1);
    assert_eq!(modify_zones.record_zones_to_save().len(), 1);
    assert_eq!(fetch_subscriptions.subscription_ids().expect("subscription ids").len(), 1);
    assert_eq!(modify_subscriptions.subscriptions_to_save().len(), 1);
    assert_eq!(fetch_share_participants.user_identity_lookup_infos().len(), 1);
    assert!(fetch_share_metadata.should_fetch_root_record());
    assert_eq!(accept_shares.share_metadatas().len(), 1);
    assert_eq!(request_share_access.share_urls().len(), 1);
    assert_eq!(missing_api_token.kind(), CloudKitErrorCode::BridgeInvalidArgument);
}

#[test]
fn configuration_defaults_and_identifiers() {
    let configuration = CKOperationConfiguration::new();
    assert_eq!(f64::from_bits(configuration.timeout_interval_for_request()), 60.0);
    assert_eq!(f64::from_bits(configuration.timeout_interval_for_resource()), 60.0 * 60.0 * 24.0 * 7.0);
    assert!(configuration.allows_cellular_access());
    assert_eq!(configuration.quality_of_service(), CKQualityOfService::Default);
    let group = CKOperationGroup::with_identifier("operation-group-37");
    assert_eq!(group.operation_group_id(), "operation-group-37");
    assert_eq!(group.expected_receive_size(), CKOperationGroupTransferSize::Unknown);
    let operation = CKOperation::with_identifier("operation-10").with_group(group.clone());
    assert!(!operation.long_lived_operation_was_persisted());
    assert_eq!(operation.group(), Some(&group));
    let container = CKContainer::container("iCloud.example");
    let database_operation = CKDatabaseOperation::with_identifier("operation-11")
        .with_database(container.database_with_scope(CKDatabaseScope::Private));
    assert_eq!(database_operation.database().map(|d| d.database_scope()), Some(CKDatabaseScope::Private));
    assert_eq!(numbered_identifier_text("operation", 37), "operation-37");
    assert_eq!(numbered_identifier_text("operation", u64::MAX), "operation-18446744073709551615");
    let all = CKFetchSubscriptionsOperation::fetch_all_subscriptions_operation(database_operation);
    assert!(all.subscription_ids().is_none());
}

fn sample_share_metadata() -> CKShareMetadata {
    let zone = || CKRecordZoneIDPayload { zone_name: "ExpandedSurfaceZone".into(), owner_name: "__defaultOwner__".into() };
    let record = |record_type: &str, name: &str| CKRecordPayload {
        record_type: record_type.into(),
        record_id: CKRecordIDPayload { record_name: name.into(), zone_id: zone() },
        fields: Vec::new(),
        encoded_system_fields: Vec::new(),
        record_change_tag: None,
        creator_user_record_id: None,
        creation_date: None,
        last_modified_user_record_id: None,
        modification_date: None,
        parent: None,
        share: None,
        changed_keys: Vec::new(),
        all_tokens: Vec::new(),
    };
    let share = CKShare::from_payload(CKSharePayload {
        share_record: record("cloudkit.share", "share-root"),
        root_record: Some(record("ExpandedSurfaceTask", "task")),
        zone_id: zone(),
        public_permission: 1,
        url: None,
        participants: Vec::new(),
        owner: None,
        current_user_participant: None,
        title: None,
        thumbnail_image_data: None,
        share_type: None,
        allows_access_requests: None,
        is_zone_wide: false,
    });
    CKShareMetadata::new("iCloud.example.expanded-surface", share, CKUserIdentity::new())
        .with_participant_role(CKShareParticipantRole::Owner)
        .with_participant_status(CKShareParticipantAcceptanceStatus::Accepted)
        .with_participant_permission(CKShareParticipantPermission::ReadWrite)
        .with_participant_type(CKShareParticipantType::Owner)
}

#[test]
fn modify_zones_outcome_keeps_order_and_failures() {
    let a = CKRecordZoneID::new("A", "__defaultOwner__");
    let b = CKRecordZoneID::new("B", "__defaultOwner__");
    let failure = CloudKitError::bridge(-2, "nope");
    let result = ModifyRecordZonesResult::from_outcomes(
        vec![(a.clone(), Ok(CKRecordZone::with_zone_id(a.clone()))), (b.clone(), Err(failure.clone()))],
        vec![(b.clone(), Err(failure.clone())), (a.clone(), Ok(a.clone()))],
    );
    assert_eq!(result.save_results.len(), 2);
    assert_eq!(result.save_results[0].zone_id, a);
    assert!(result.save_results[0].error.is_none());
    assert_eq!(result.save_results[1].zone_id, b);
    assert!(result.save_results[1].record_zone.is_none());
    assert_eq!(result.save_results[1].error, Some(failure.clone()));
    assert_eq!(result.saved_record_zones, vec![CKRecordZone::with_zone_id(a.clone())]);
    assert_eq!(result.delete_results.len(), 2);
    assert_eq!(result.delete_results[0].zone_id, b);
    assert!(result.delete_results[0].error.is_some());
    assert_eq!(result.deleted_record_zone_ids, vec![a.clone()]);
    assert!(result.operation_error.is_none());
}

#[test]
fn configuration_timeouts_compare_as_floats() {
    let zero = CKOperationConfiguration::new().with_timeout_interval_for_request(0.0f64.to_bits());
    let negative_zero = CKOperationConfiguration::new().with_timeout_interval_for_request((-0.0f64).to_bits());
    assert_eq!(zero, negative_zero);
    let nan = CKOperationConfiguration::new().with_timeout_interval_for_request(f64::NAN.to_bits());
    assert_ne!(nan, nan.clone());
    assert_ne!(zero, CKOperationConfiguration::new());
}
