use cloudkit::container::{AccountStatus, CKApplicationPermissionStatus, CKApplicationPermissions, CKContainer, CKDatabaseScope};
use cloudkit::notification::{
    CKDatabaseNotification, CKNotification, CKNotificationID, CKNotificationType, CKQueryNotification,
    CKQueryNotificationReason, CKRecordZoneNotification,
};
use cloudkit::query::{CKQuery, SortDescriptor};
use cloudkit::record::{CKRecordID, CKRecordZoneID, RecordValue};
use cloudkit::server_change_token::CKServerChangeToken;
use cloudkit::subscription::{
    CKNotificationInfo, CKQuerySubscription, CKRecordZoneSubscription, CKSubscription, CKSubscriptionType,
    QuerySubscriptionOptions,
};
use cloudkit::user_identity::{CKPersonNameComponents, CKUserIdentity, CKUserIdentityLookupInfo};

#[test]
fn server_change_token_preserves_archived_bytes() {
    let token = CKServerChangeToken::from_archived_data(vec![1_u8, 2, 3]);
    assert_eq!(token.archived_data(), &[1, 2, 3]);
    assert_eq!(CKServerChangeToken::from_payload(token.to_payload()), token);
}

#[test]
fn query_builder_keeps_sort_descriptors() {
    let query = CKQuery::match_all("Todo")
        .with_sort_descriptor(SortDescriptor::new("updatedAt", false))
        .with_sort_descriptor(SortDescriptor::new("title", true));

    assert_eq!(query.record_type(), "Todo");
    assert_eq!(query.sort_descriptors().len(), 2);
}

#[test]
fn query_payload_keeps_predicate_and_order() {
    let mut query = CKQuery::new("Todo", "done == 0");
    query.set_sort_descriptors(vec![SortDescriptor::new("b", true), SortDescriptor::new("a", false)]);
    let payload = query.to_payload();
    assert_eq!(payload.predicate_format, "done == 0");
    assert_eq!(payload.sort_descriptors.len(), 2);
    assert_eq!(payload.sort_descriptors[0].key, "b");
    assert!(!payload.sort_descriptors[1].ascending);
    assert_eq!(CKQuery::match_all("X").predicate_format(), "TRUEPREDICATE");
}

#[test]
fn subscriptions_keep_their_settings() {
    let notification = CKNotificationInfo::new().with_alert_body("updated");
    assert!(notification.should_send_content_available());
    let options = QuerySubscriptionOptions::fires_on_record_update().union(QuerySubscriptionOptions::fires_once());
    assert_eq!(options.bits(), 10);
    let query = CKQuerySubscription::new("Task", "TRUEPREDICATE", "query-sub", options)
        .with_notification_info(notification.clone())
        .with_zone_id(CKRecordZoneID::new("Tasks", "__defaultOwner__"));
    assert_eq!(query.base().subscription_id(), "query-sub");
    assert_eq!(query.base().subscription_type(), CKSubscriptionType::Query);
    assert_eq!(query.base().notification_info().alert_body(), Some("updated"));
    assert_eq!(query.zone_id().map(|z| z.zone_name()), Some("Tasks"));
    assert_eq!(query.options().bits(), 10);

    let zone = CKRecordZoneSubscription::new(CKRecordZoneID::new("Tasks", "__defaultOwner__"), "zone-sub")
        .with_record_type("Task");
    assert_eq!(zone.base().subscription_type(), CKSubscriptionType::RecordZone);
    assert_eq!(zone.record_type(), Some("Task"));

    let plain = CKSubscription::new("db-sub", CKSubscriptionType::Database);
    assert_eq!(plain.notification_info().alert_body(), None);
    let mut combined = QuerySubscriptionOptions::fires_on_record_creation();
    combined.insert(QuerySubscriptionOptions::fires_on_record_deletion());
    assert_eq!(combined.bits(), 5);
}

#[test]
fn user_identity_lookup_and_names() {
    let lookup = CKUserIdentityLookupInfo::with_email_address("developer@example.com");
    assert_eq!(lookup.email_address(), Some("developer@example.com"));
    assert_eq!(lookup.phone_number(), None);
    let names = CKPersonNameComponents::new().with_given_name("Ada").with_family_name("Lovelace");
    let identity = CKUserIdentity::new()
        .with_lookup_info(lookup.clone())
        .with_name_components(names.clone())
        .with_has_i_cloud_account(true)
        .with_contact_identifiers(vec!["c1".into()]);
    assert_eq!(identity.name_components().and_then(|n| n.given_name()), Some("Ada"));
    assert!(identity.has_i_cloud_account());
    let back = CKUserIdentity::from_payload(identity.to_payload());
    assert_eq!(back, identity);
    assert_eq!(CKUserIdentityLookupInfo::from_payload(lookup.to_payload()), lookup);
    assert_eq!(CKPersonNameComponents::from_payload(names.to_payload()), names);
}

#[test]
fn container_status_labels_and_databases() {
    assert_eq!(AccountStatus::from_raw(1), AccountStatus::Available);
    assert_eq!(AccountStatus::from_raw(4).to_string(), "temporarilyUnavailable");
    assert_eq!(AccountStatus::from_raw(-7).to_string(), "unknown(-7)");
    assert_eq!(CKApplicationPermissionStatus::from_raw(3).to_string(), "granted");
    assert_eq!(CKApplicationPermissionStatus::from_raw(12).to_string(), "unknown(12)");
    let permissions = CKApplicationPermissions::user_discoverability();
    assert!(permissions.contains(CKApplicationPermissions::user_discoverability()));
    assert!(CKApplicationPermissions::default().contains(CKApplicationPermissions::default()));
    let both = CKApplicationPermissions::default().union(permissions);
    assert!(both.contains(permissions));
    assert!(both.contains(CKApplicationPermissions::default()));
    assert_eq!(permissions.union(permissions), permissions);

    let container = CKContainer::container("iCloud.example.container");
    assert_eq!(container.container_identifier(), Some("iCloud.example.container"));
    let database = container.database_with_scope(CKDatabaseScope::Shared);
    assert_eq!(database.database_scope(), CKDatabaseScope::Shared);
    assert_eq!(database.container(), &container);
    assert_eq!(container.private_cloud_database().database_scope().to_raw(), 2);
    assert_eq!(CKContainer::default().container_identifier(), None);
}

#[test]
fn notifications_keep_their_fields() {
    let id = CKNotificationID::new(vec![9, 8]);
    let note = CKNotification::new(CKNotificationType::Query)
        .with_notification_id(id.clone())
        .with_container_identifier("iCloud.example")
        .with_subscription_id("subscription-id")
        .with_pruned(true);
    assert_eq!(note.notification_id().map(|n| n.archived_data()), Some(&[9u8, 8][..]));
    assert!(note.is_pruned());
    assert_eq!(CKNotificationType::from_raw(3), CKNotificationType::ReadNotification);
    assert_eq!(CKNotificationType::from_raw(11).to_raw(), 11);
    assert_eq!(CKQueryNotificationReason::RecordDeleted.to_raw(), 3);

    let query = CKQueryNotification::new(CKQueryNotificationReason::RecordUpdated, CKDatabaseScope::Private)
        .with_record_field("title", RecordValue::String("updated".into()))
        .with_record_field("count", RecordValue::Int(2))
        .with_record_field("title", RecordValue::String("again".into()))
        .with_record_id(CKRecordID::new("r"));
    let keys: Vec<&str> = query.record_fields().iter().map(|(k, _)| k.as_str()).collect();
    assert_eq!(keys, vec!["count", "title"]);
    assert_eq!(query.record_fields()[1].1, RecordValue::String("again".into()));
    assert_eq!(query.notification().notification_type(), CKNotificationType::Query);

    let zone = CKRecordZoneNotification::new(CKDatabaseScope::Shared).with_record_zone_id(CKRecordZoneID::default_zone());
    assert_eq!(zone.notification().notification_type(), CKNotificationType::RecordZone);
    let db = CKDatabaseNotification::new(CKDatabaseScope::Public);
    assert_eq!(db.notification().notification_type(), CKNotificationType::Database);
}
