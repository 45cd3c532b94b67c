use cloudkit::record::{
    CKAsset, CKRecord, CKRecordID, CKRecordZone, CKRecordZoneCapabilities, CKRecordZoneEncryptionScope,
    CKRecordKeyValueSetting, CKRecordZoneID, RecordValue, DEFAULT_OWNER_NAME, DEFAULT_ZONE_NAME,
};
use cloudkit::reference_utility::{CKReference, CKReferenceAction};

#[test]
fn record_set_get_remove_and_parent_reference() {
    let mut record = CKRecord::with_record_id("RecordTests", CKRecordID::new("record-tests"));
    let parent_id = CKRecordID::new("parent");

    record.set_object("name", RecordValue::String("hello".into()));
    record.set_object("enabled", RecordValue::Bool(true));
    record.set_parent_reference_from_record_id(parent_id.clone());

    assert_eq!(record.object("name"), Some(&RecordValue::String("hello".into())));
    assert_eq!(
        record.parent().map(|reference| reference.record_id().record_name()),
        Some(parent_id.record_name())
    );

    let removed = record.remove_object("enabled");
    assert_eq!(removed, Some(RecordValue::Bool(true)));
    assert!(record.changed_keys().contains(&"enabled".to_string()));
}

#[test]
fn record_id_keeps_record_and_zone_names() {
    let zone_id = CKRecordZoneID::new("ZoneA", "OwnerA");
    let record_id = CKRecordID::with_zone("RecordA", zone_id.clone());

    assert_eq!(record_id.record_name(), "RecordA");
    assert_eq!(record_id.zone_id(), &zone_id);
}

#[test]
fn zone_defaults_are_stable() {
    let zone = CKRecordZone::default_zone();
    assert_eq!(zone.zone_id().zone_name(), "_defaultZone");
    assert_eq!(zone.capabilities().bits(), 0);
}

#[test]
fn reference_helpers_keep_record_ids_and_actions() {
    let record_id = CKRecordID::new("parent");
    let delete_self = CKReference::delete_self(record_id.clone());
    let parent = CKReference::parent(record_id.clone());

    assert_eq!(delete_self.record_id(), &record_id);
    assert_eq!(delete_self.action(), CKReferenceAction::DeleteSelf);
    assert_eq!(parent.action(), CKReferenceAction::NoAction);
}

#[test]
fn asset_keeps_file_url() {
    let asset = CKAsset::new("/etc/hosts");
    assert_eq!(asset.file_url(), "/etc/hosts");
}

#[test]
fn setting_a_key_twice_keeps_the_last_value_and_one_changed_key() {
    let mut record = CKRecord::with_record_id("Task", CKRecordID::new("t1"));
    record.set_object("title", RecordValue::String("first".into()));
    record.set_object("title", RecordValue::String("second".into()));
    assert_eq!(record.object("title"), Some(&RecordValue::String("second".into())));
    assert_eq!(record.changed_keys(), &["title".to_string()]);
    assert_eq!(record.all_keys(), vec!["title".to_string()]);
}

#[test]
fn all_keys_come_back_sorted() {
    let mut record = CKRecord::with_record_id("Task", CKRecordID::new("t2"));
    record.set_object("zeta", RecordValue::Int(1));
    record.set_object("alpha", RecordValue::Int(2));
    record.set_object("mid", RecordValue::Int(3));
    assert_eq!(record.all_keys(), vec!["alpha".to_string(), "mid".to_string(), "zeta".to_string()]);
    assert_eq!(record.changed_keys(), &["zeta".to_string(), "alpha".to_string(), "mid".to_string()]);
}

#[test]
fn removing_a_missing_key_changes_nothing() {
    let mut record = CKRecord::with_record_id("Task", CKRecordID::new("t3"));
    assert_eq!(record.remove_object("absent"), None);
    assert!(record.changed_keys().is_empty());
}

#[test]
fn record_payload_round_trip_keeps_fields() {
    let mut record = CKRecord::with_record_id("Task", CKRecordID::new("t4"));
    record.set_object("count", RecordValue::Int(-7));
    record.set_object("ratio", RecordValue::Double(0.5f64.to_bits()));
    record.set_object("tags", RecordValue::Array(vec![RecordValue::String("a".into())]));
    record.set_parent_reference(CKReference::new(CKRecordID::new("p"), CKReferenceAction::DeleteSelf));
    let back = CKRecord::from_payload(record.to_payload());
    assert_eq!(back, record);
}

#[test]
fn unknown_reference_actions_keep_their_raw_value() {
    assert_eq!(CKReferenceAction::from_raw(0), CKReferenceAction::NoAction);
    assert_eq!(CKReferenceAction::from_raw(1), CKReferenceAction::DeleteSelf);
    assert_eq!(CKReferenceAction::from_raw(9), CKReferenceAction::Unknown(9));
    assert_eq!(CKReferenceAction::Unknown(9).to_raw(), 9);
}

#[test]
fn zone_identifiers_and_capabilities() {
    let zone_id = CKRecordZoneID::default_zone();
    assert_eq!(zone_id.zone_name(), DEFAULT_ZONE_NAME);
    assert_eq!(zone_id.owner_name(), DEFAULT_OWNER_NAME);
    let zone = CKRecordZone::new("Tasks");
    assert_eq!(zone.zone_id().owner_name(), "__defaultOwner__");
    assert_eq!(zone.encryption_scope(), Some(CKRecordZoneEncryptionScope::PerRecord));
    let caps = CKRecordZoneCapabilities::fetch_changes().union(CKRecordZoneCapabilities::atomic());
    assert_eq!(caps.bits(), 3);
    assert!(caps.contains(CKRecordZoneCapabilities::atomic()));
    assert!(!caps.contains(CKRecordZoneCapabilities::sharing()));
    assert_eq!(CKRecordZoneEncryptionScope::from_raw(5), CKRecordZoneEncryptionScope::Unknown(5));
}

#[test]
fn zone_payload_round_trip_keeps_zone() {
    let zone = CKRecordZone::new("Tasks");
    let payload = zone.to_payload();
    assert_eq!(payload.encryption_scope, Some(0));
    assert_eq!(payload.zone_id.zone_name, "Tasks");
    assert_eq!(CKRecordZone::from_payload(payload), zone);
    let odd = cloudkit::payload::CKRecordZonePayload {
        zone_id: cloudkit::payload::CKRecordZoneIDPayload { zone_name: "Z".into(), owner_name: "o".into() },
        capabilities: 5,
        share: None,
        encryption_scope: Some(7),
    };
    let read = CKRecordZone::from_payload(odd);
    assert_eq!(read.encryption_scope(), Some(CKRecordZoneEncryptionScope::Unknown(7)));
    assert_eq!(read.to_payload().encryption_scope, Some(7));
    assert_eq!(read.capabilities().bits(), 5);
}

#[test]
fn key_value_names_reach_the_same_fields() {
    let mut record = CKRecord::with_record_id("Task", CKRecordID::new("t"));
    record.set_object_for_key("title", RecordValue::String("ship".into()));
    record.set_object_for_keyed_subscript("done", RecordValue::Bool(false));
    assert_eq!(record.object_for_key("title"), Some(&RecordValue::String("ship".into())));
    assert_eq!(record.object_for_keyed_subscript("done"), Some(&RecordValue::Bool(false)));
    assert_eq!(CKRecordKeyValueSetting::all_keys(&record), vec!["done".to_string(), "title".to_string()]);
    assert_eq!(CKRecordKeyValueSetting::changed_keys(&record), &["title".to_string(), "done".to_string()][..]);
    assert_eq!(record.object_for_key("missing"), None);
}

#[test]
fn date_value_payload_names_only_the_date() {
    let payload = RecordValue::Date("2024-01-01T00:00:00Z".to_string()).to_payload();
    assert_eq!(payload.kind, cloudkit::payload::RecordValueKind::Date);
    assert_eq!(payload.date_value, Some("2024-01-01T00:00:00Z".to_string()));
    assert!(payload.string_value.is_none() && payload.int_value.is_none() && payload.double_value.is_none());
    assert!(payload.bool_value.is_none() && payload.bytes_value.is_none() && payload.asset_value.is_none());
    assert!(payload.reference_value.is_none() && payload.array_value.is_none());
    assert_eq!(RecordValue::from_payload(payload), RecordValue::Date("2024-01-01T00:00:00Z".to_string()));
}

#[test]
fn double_values_compare_as_floats() {
    assert_eq!(RecordValue::Double(0.0f64.to_bits()), RecordValue::Double((-0.0f64).to_bits()));
    assert_ne!(RecordValue::Double(f64::NAN.to_bits()), RecordValue::Double(f64::NAN.to_bits()));
    assert_eq!(RecordValue::Double(1.5f64.to_bits()), RecordValue::Double(1.5f64.to_bits()));
    assert_ne!(RecordValue::Double(1.5f64.to_bits()), RecordValue::Double(2.5f64.to_bits()));
    assert_eq!(
        RecordValue::Array(vec![RecordValue::Int(1), RecordValue::Double(0.0f64.to_bits())]),
        RecordValue::Array(vec![RecordValue::Int(1), RecordValue::Double((-0.0f64).to_bits())])
    );
    assert_ne!(RecordValue::Int(1), RecordValue::Bool(true));
    assert_ne!(RecordValue::Array(vec![RecordValue::Int(1)]), RecordValue::Array(vec![]));
}
