use cloudkit::payload::{
    CKRecordIDPayload, CKRecordPayload, CKRecordZoneIDPayload, CKShareParticipantPayload, CKSharePayload,
    CKUserIdentityPayload,
};
use cloudkit::record::CKRecordID;
use cloudkit::share::{
    CKAllowedSharingOptions, CKShare, CKShareMetadata, CKShareParticipant, CKShareParticipantAcceptanceStatus,
    CKShareParticipantPermission, CKShareParticipantRole, CKShareParticipantType, CKSharingParticipantAccessOption,
    CKSharingParticipantPermissionOption,
};
use cloudkit::user_identity::CKUserIdentity;

fn zone_payload() -> CKRecordZoneIDPayload {
    CKRecordZoneIDPayload { zone_name: "_defaultZone".into(), owner_name: "__defaultOwner__".into() }
}

fn record_payload(record_type: &str, name: &str) -> CKRecordPayload {
    CKRecordPayload {
        record_type: record_type.into(),
        record_id: CKRecordIDPayload { record_name: name.into(), zone_id: zone_payload() },
        fields: Vec::new(),
        encoded_system_fields: Vec::new(),
        record_change_tag: None,
        creator_user_record_id: None,
        creation_date: None,
        last_modified_user_record_id: None,
        modification_date: None,
        parent: None,
        share: None,
        changed_keys: Vec::new(),
        all_tokens: Vec::new(),
    }
}

fn identity_payload() -> CKUserIdentityPayload {
    CKUserIdentityPayload {
        archived_data: vec![1],
        user_record_id: None,
        lookup_info: None,
        name_components: None,
        hasi_cloud_account: true,
        contact_identifiers: Vec::new(),
    }
}

fn participant_payload(id: &str, role: Option<i32>) -> CKShareParticipantPayload {
    CKShareParticipantPayload {
        archived_data: vec![7],
        user_identity: identity_payload(),
        role,
        permission: 3,
        acceptance_status: 2,
        participant_id: id.into(),
        is_approved_requester: None,
        date_added_to_share: None,
    }
}

fn share_payload() -> CKSharePayload {
    CKSharePayload {
        share_record: record_payload("cloudkit.share", "share-root"),
        root_record: Some(record_payload("ShareTests", "root")),
        zone_id: zone_payload(),
        public_permission: 1,
        url: None,
        participants: vec![participant_payload("owner", Some(1)), participant_payload("guest", Some(3))],
        owner: Some(participant_payload("owner", Some(1))),
        current_user_participant: None,
        title: None,
        thumbnail_image_data: None,
        share_type: None,
        allows_access_requests: None,
        is_zone_wide: false,
    }
}

#[test]
fn participant_enums_keep_raw_values() {
    assert_eq!(CKShareParticipantPermission::from_raw(1), CKShareParticipantPermission::NoAccess);
    assert_eq!(CKShareParticipantPermission::from_raw(42).to_raw(), 42);
    assert_eq!(CKShareParticipantRole::from_raw(2), CKShareParticipantRole::Administrator);
    assert_eq!(CKShareParticipantAcceptanceStatus::from_raw(3), CKShareParticipantAcceptanceStatus::Removed);
    assert_eq!(CKShareParticipantType::from_raw(2), CKShareParticipantType::UnknownValue(2));
    assert_eq!(CKShareParticipantType::PublicUser.to_raw(), 4);
}

#[test]
fn participant_type_follows_role() {
    let owner = CKShareParticipant::from_payload(participant_payload("o", Some(1)));
    assert_eq!(owner.participant_type(), CKShareParticipantType::Owner);
    let admin = CKShareParticipant::from_payload(participant_payload("a", Some(2)));
    assert_eq!(admin.participant_type(), CKShareParticipantType::Unknown);
    let none = CKShareParticipant::from_payload(participant_payload("n", None));
    assert_eq!(none.participant_type(), CKShareParticipantType::Unknown);
    let odd = CKShareParticipant::from_payload(participant_payload("x", Some(17)));
    assert_eq!(odd.participant_type(), CKShareParticipantType::UnknownValue(17));
    assert_eq!(CKShareParticipant::from_payload(owner.to_payload()), owner);
}

#[test]
fn local_share_exposes_share_record_and_owner_participant() {
    let share = CKShare::from_payload(share_payload());
    assert_eq!(share.share_record().record_type(), "cloudkit.share");
    assert_eq!(share.root_record().map(|r| r.record_type()), Some("ShareTests"));
    assert_eq!(share.owner().map(|o| o.participant_id()), Some("owner"));
    assert_eq!(share.participants().len(), 2);
    assert_eq!(share.public_permission(), CKShareParticipantPermission::NoAccess);
    assert_eq!(CKShare::from_payload(share.to_payload()), share);
    assert_eq!(share.as_record().record_id().record_name(), "share-root");
}

#[test]
fn share_setters_and_participant_removal() {
    let mut share = CKShare::from_payload(share_payload());
    share.set_title("title");
    share.set_allows_access_requests(true);
    share.push_participant(CKShareParticipant::from_payload(participant_payload("guest", Some(4))));
    assert_eq!(share.participants().len(), 3);
    share.remove_participants_with_id("guest");
    let ids: Vec<&str> = share.participants().iter().map(|p| p.participant_id()).collect();
    assert_eq!(ids, vec!["owner"]);
    assert_eq!(share.title(), Some("title"));
    assert_eq!(share.allows_access_requests(), Some(true));
}

#[test]
fn metadata_takes_the_share_root() {
    let share = CKShare::from_payload(share_payload());
    let metadata = CKShareMetadata::new("iCloud.example.expanded-surface", share, CKUserIdentity::new());
    assert_eq!(metadata.root_record_id().map(|id| id.record_name()), Some("root"));
    assert_eq!(metadata.hierarchical_root_record_id().map(|id| id.record_name()), Some("root"));
    assert_eq!(metadata.participant_permission(), CKShareParticipantPermission::NoAccess);
    assert_eq!(metadata.participant_status(), CKShareParticipantAcceptanceStatus::Unknown);
    let moved = metadata.with_root_record_id(CKRecordID::new("other"));
    assert_eq!(moved.root_record_id().map(|id| id.record_name()), Some("other"));
    assert_eq!(CKShareMetadata::from_payload(moved.to_payload()), moved);
}

#[test]
fn sharing_options_any_holds_each_option() {
    let any = CKSharingParticipantAccessOption::any();
    assert_eq!(any.bits(), 3);
    assert!(any.contains(CKSharingParticipantAccessOption::anyone_with_link()));
    assert!(any.contains(CKSharingParticipantAccessOption::specified_recipients_only()));
    let perms = CKSharingParticipantPermissionOption::read_only().union(CKSharingParticipantPermissionOption::read_write());
    assert_eq!(perms, CKSharingParticipantPermissionOption::any());
    let standard = CKAllowedSharingOptions::standard();
    assert_eq!(standard, CKAllowedSharingOptions::default());
    assert_eq!(standard.allowed_participant_access_options().bits(), 3);
}
