use cloudkit::error::CloudKitError;
use cloudkit::operation_support::{CKDatabaseOperation, CKModifySubscriptionsOperation, ModifySubscriptionsResult};
use cloudkit::payload::CKSubscriptionPayloadKind;
use cloudkit::record::CKRecordZoneID;
use cloudkit::subscription::{
    CKAnySubscription, CKDatabaseSubscription, CKNotificationInfo, CKQuerySubscription, CKRecordZoneSubscription,
    CKSubscriptionType, QuerySubscriptionOptions,
};

#[test]
fn subscriptions_build_into_any_subscription() {
    let notification = CKNotificationInfo::new().with_alert_body("updated");
    let query = CKQuerySubscription::new("Task", "TRUEPREDICATE", "query-sub", QuerySubscriptionOptions::fires_on_record_update())
        .with_notification_info(notification.clone());
    let zone = CKRecordZoneSubscription::new(CKRecordZoneID::new("Tasks", "__defaultOwner__"), "zone-sub")
        .with_notification_info(notification.clone());
    let database = CKDatabaseSubscription::new("db-sub").with_notification_info(notification);

    let subscriptions = [CKAnySubscription::from(query), CKAnySubscription::from(zone), CKAnySubscription::from(database)];
    assert_eq!(subscriptions.len(), 3);
    assert_eq!(subscriptions[0].subscription_id(), "query-sub");
}

#[test]
fn subscription_payload_round_trip_keeps_each_kind() {
    let notification = CKNotificationInfo::new().with_alert_body("ping").with_content_available(false);
    let query = CKAnySubscription::from(
        CKQuerySubscription::new("Task", "done == 0", "q", QuerySubscriptionOptions::fires_once())
            .with_zone_id(CKRecordZoneID::new("Z", "o"))
            .with_notification_info(notification.clone()),
    );
    let zone = CKAnySubscription::from(
        CKRecordZoneSubscription::new(CKRecordZoneID::new("Z", "o"), "z").with_record_type("Task"),
    );
    let database = CKAnySubscription::from(CKDatabaseSubscription::new("d"));
    for subscription in [query, zone, database] {
        let payload = subscription.to_payload();
        assert_eq!(CKAnySubscription::from_payload(payload), subscription);
    }
    let payload = CKAnySubscription::from(CKDatabaseSubscription::new("d")).to_payload();
    assert_eq!(payload.kind, CKSubscriptionPayloadKind::Database);
    assert_eq!(payload.subscription_type, 3);
    assert!(payload.zone_id.is_none());
    assert!(payload.notification_info.map(|n| n.should_send_content_available).unwrap_or(false));
    assert_eq!(CKSubscriptionType::Query.to_raw(), 1);
}

#[test]
fn modify_subscriptions_outcome_keeps_order_and_failures() {
    let saved = CKAnySubscription::from(CKDatabaseSubscription::new("a"));
    let failure = CloudKitError::bridge(-2, "nope");
    let result = ModifySubscriptionsResult::from_outcomes(
        vec![("a".to_string(), Ok(saved.clone())), ("b".to_string(), Err(failure.clone()))],
        vec![("c".to_string(), Ok("c".to_string())), ("d".to_string(), Err(failure.clone()))],
    );
    assert_eq!(result.saved_subscriptions, vec![saved.clone()]);
    assert_eq!(result.save_results.len(), 2);
    assert_eq!(result.save_results[0].subscription_id, "a");
    assert_eq!(result.save_results[1].subscription_id, "b");
    assert_eq!(result.save_results[1].error, Some(failure.clone()));
    assert!(result.save_results[1].subscription.is_none());
    assert_eq!(result.deleted_subscription_ids, vec!["c".to_string()]);
    assert_eq!(result.delete_results[1].subscription_id, "d");
    assert!(result.delete_results[1].error.is_some());
    assert!(result.operation_error.is_none());

    let operation = CKModifySubscriptionsOperation::new(
        vec![CKDatabaseSubscription::new("sub-id").into()],
        vec!["old-sub-id".into()],
        CKDatabaseOperation::with_identifier("operation-1"),
    );
    assert_eq!(operation.subscriptions_to_save().len(), 1);
    assert_eq!(operation.subscription_ids_to_delete(), &["old-sub-id".to_string()][..]);
}
