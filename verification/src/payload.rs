//! The plain data exchanged with the native CloudKit bridge.
//!
//! Each payload mirrors one JSON document of the bridge, field for field; the
//! value types of this crate convert to and from them. Floating-point numbers
//! travel as their IEEE-754 bit patterns, and JSON objects keyed by name as
//! lists of `(name, value)` pairs.
use vstd::prelude::*;

verus! {

/// A CloudKit error as the bridge reports it.
#[derive(Debug, PartialEq)]
pub struct ErrorPayload {
    pub domain: String,
    pub code: i64,
    pub message: String,
    /// Bit pattern of the `f64` retry delay in seconds.
    pub retry_after_seconds: Option<u64>,
}

#[derive(Debug, PartialEq, Eq)]
pub struct CKRecordZoneIDPayload {
    pub zone_name: String,
    pub owner_name: String,
}

#[derive(Debug, PartialEq, Eq)]
pub struct CKRecordIDPayload {
    pub record_name: String,
    pub zone_id: CKRecordZoneIDPayload,
}

#[derive(Debug, PartialEq, Eq)]
pub struct CKReferencePayload {
    pub record_id: CKRecordIDPayload,
    pub action: u64,
}

#[derive(Debug, PartialEq, Eq)]
pub struct CKAssetPayload {
    pub file_url: String,
}

/// The tag that says which field of a record value payload is meaningful.
#[derive(Debug, Clone, Copy, PartialEq, Eq, Hash)]
pub enum RecordValueKind {
    String,
    Int,
    Double,
    Bool,
    Bytes,
    Date,
    Asset,
    Reference,
    Array,
}

#[derive(Debug, PartialEq)]
pub struct CKRecordValuePayload {
    pub kind: RecordValueKind,
    pub string_value: Option<String>,
    pub int_value: Option<i64>,
    /// Bit pattern of the `f64` value.
    pub double_value: Option<u64>,
    pub bool_value: Option<bool>,
    pub bytes_value: Option<Vec<u8>>,
    pub date_value: Option<String>,
    pub asset_value: Option<CKAssetPayload>,
    pub reference_value: Option<CKReferencePayload>,
    pub array_value: Option<Vec<CKRecordValuePayload>>,
}

#[derive(Debug, PartialEq)]
pub struct CKRecordPayload {
    pub record_type: String,
    pub record_id: CKRecordIDPayload,
    /// The record's fields, one entry per key.
    pub fields: Vec<(String, CKRecordValuePayload)>,
    pub encoded_system_fields: Vec<u8>,
    pub record_change_tag: Option<String>,
    pub creator_user_record_id: Option<CKRecordIDPayload>,
    pub creation_date: Option<String>,
    pub last_modified_user_record_id: Option<CKRecordIDPayload>,
    pub modification_date: Option<String>,
    pub parent: Option<CKReferencePayload>,
    pub share: Option<CKReferencePayload>,
    pub changed_keys: Vec<String>,
    pub all_tokens: Vec<String>,
}

#[derive(Debug, PartialEq, Eq)]
pub struct CKRecordZonePayload {
    pub zone_id: CKRecordZoneIDPayload,
    pub capabilities: u64,
    pub share: Option<CKReferencePayload>,
    pub encryption_scope: Option<i32>,
}

#[derive(Debug, PartialEq, Eq)]
pub struct SortDescriptorPayload {
    pub key: String,
    pub ascending: bool,
}

#[derive(Debug, PartialEq, Eq)]
pub struct CKQueryPayload {
    pub record_type: String,
    pub predicate_format: String,
    pub sort_descriptors: Vec<SortDescriptorPayload>,
}

#[derive(Debug, PartialEq, Eq)]
pub struct CKNotificationInfoPayload {
    pub alert_body: Option<String>,
    pub alert_localization_key: Option<String>,
    pub alert_localization_args: Option<Vec<String>>,
    pub title: Option<String>,
    pub title_localization_key: Option<String>,
    pub title_localization_args: Option<Vec<String>>,
    pub subtitle: Option<String>,
    pub subtitle_localization_key: Option<String>,
    pub subtitle_localization_args: Option<Vec<String>>,
    pub alert_action_localization_key: Option<String>,
    pub alert_launch_image: Option<String>,
    pub sound_name: Option<String>,
    pub desired_keys: Option<Vec<String>>,
    pub should_badge: bool,
    pub should_send_content_available: bool,
    pub should_send_mutable_content: bool,
    pub category: Option<String>,
    pub collapse_id_key: Option<String>,
}

/// Which kind of subscription a subscription payload holds.
#[derive(Debug, Clone, Copy, PartialEq, Eq, Structural)]
pub enum CKSubscriptionPayloadKind {
    Query,
    RecordZone,
    Database,
}

#[derive(Debug, PartialEq, Eq)]
pub struct CKSubscriptionPayload {
    pub kind: CKSubscriptionPayloadKind,
    pub subscription_id: String,
    pub subscription_type: i32,
    pub notification_info: Option<CKNotificationInfoPayload>,
    pub record_type: Option<String>,
    pub predicate_format: Option<String>,
    pub zone_id: Option<CKRecordZoneIDPayload>,
    pub query_subscription_options: Option<u64>,
}

#[derive(Debug, PartialEq, Eq)]
pub struct CKPersonNameComponentsPayload {
    pub name_prefix: Option<String>,
    pub given_name: Option<String>,
    pub middle_name: Option<String>,
    pub family_name: Option<String>,
    pub name_suffix: Option<String>,
    pub nickname: Option<String>,
}

#[derive(Debug, PartialEq, Eq)]
pub struct CKUserIdentityLookupInfoPayload {
    pub email_address: Option<String>,
    pub phone_number: Option<String>,
    pub user_record_id: Option<CKRecordIDPayload>,
}

#[derive(Debug, PartialEq, Eq)]
pub struct CKUserIdentityPayload {
    pub archived_data: Vec<u8>,
    pub user_record_id: Option<CKRecordIDPayload>,
    pub lookup_info: Option<CKUserIdentityLookupInfoPayload>,
    pub name_components: Option<CKPersonNameComponentsPayload>,
    pub hasi_cloud_account: bool,
    pub contact_identifiers: Vec<String>,
}

#[derive(Debug, PartialEq, Eq)]
pub struct CKShareParticipantPayload {
    pub archived_data: Vec<u8>,
    pub user_identity: CKUserIdentityPayload,
    pub role: Option<i32>,
    pub permission: i32,
    pub acceptance_status: i32,
    pub participant_id: String,
    pub is_approved_requester: Option<bool>,
    pub date_added_to_share: Option<String>,
}

#[derive(Debug, PartialEq)]
pub struct CKSharePayload {
    pub share_record: CKRecordPayload,
    pub root_record: Option<CKRecordPayload>,
    pub zone_id: CKRecordZoneIDPayload,
    pub public_permission: i32,
    pub url: Option<String>,
    pub participants: Vec<CKShareParticipantPayload>,
    pub owner: Option<CKShareParticipantPayload>,
    pub current_user_participant: Option<CKShareParticipantPayload>,
    pub title: Option<String>,
    pub thumbnail_image_data: Option<Vec<u8>>,
    pub share_type: Option<String>,
    pub allows_access_requests: Option<bool>,
    pub is_zone_wide: bool,
}

#[derive(Debug, PartialEq, Eq)]
pub struct CKServerChangeTokenPayload {
    pub archived_data: Vec<u8>,
}

#[derive(Debug, PartialEq, Eq)]
pub struct CKQueryCursorPayload {
    pub archived_data: Vec<u8>,
}

#[derive(Debug, PartialEq)]
pub struct CKQueryMatchResultPayload {
    pub record_id: CKRecordIDPayload,
    pub record: Option<CKRecordPayload>,
    pub error: Option<ErrorPayload>,
}

#[derive(Debug, PartialEq)]
pub struct CKFetchedQueryResultsPayload {
    pub records: Vec<CKRecordPayload>,
    pub matches: Vec<CKQueryMatchResultPayload>,
    pub cursor: Option<CKQueryCursorPayload>,
    pub operation_error: Option<ErrorPayload>,
}

#[derive(Debug, PartialEq)]
pub struct CKModifyRecordsOperationPayload {
    pub records_to_save: Vec<CKRecordPayload>,
    pub record_ids_to_delete: Vec<CKRecordIDPayload>,
    pub save_policy: i32,
    pub atomic: bool,
}

#[derive(Debug, PartialEq)]
pub struct CKRecordResultPayload {
    pub record_id: CKRecordIDPayload,
    pub record: Option<CKRecordPayload>,
    pub error: Option<ErrorPayload>,
}

#[derive(Debug, PartialEq)]
pub struct CKFetchRecordsResultPayload {
    pub records: Vec<CKRecordPayload>,
    pub results: Vec<CKRecordResultPayload>,
    pub operation_error: Option<ErrorPayload>,
}

#[derive(Debug, PartialEq)]
pub struct CKRecordSaveResultPayload {
    pub record_id: CKRecordIDPayload,
    pub record: Option<CKRecordPayload>,
    pub error: Option<ErrorPayload>,
}

#[derive(Debug, PartialEq)]
pub struct CKRecordDeleteResultPayload {
    pub record_id: CKRecordIDPayload,
    pub error: Option<ErrorPayload>,
}

#[derive(Debug, PartialEq)]
pub struct CKModifyRecordsResultPayload {
    pub saved_records: Vec<CKRecordPayload>,
    pub deleted_record_ids: Vec<CKRecordIDPayload>,
    pub save_results: Vec<CKRecordSaveResultPayload>,
    pub delete_results: Vec<CKRecordDeleteResultPayload>,
    pub operation_error: Option<ErrorPayload>,
}

#[derive(Debug, PartialEq, Eq)]
pub struct CKQueryOperationPayload {
    pub query: CKQueryPayload,
    pub zone_id: Option<CKRecordZoneIDPayload>,
    pub desired_keys: Option<Vec<String>>,
    pub results_limit: Option<usize>,
}

#[derive(Debug, PartialEq)]
pub struct CKQueryOperationResultPayload {
    pub records: Vec<CKRecordPayload>,
    pub matches: Vec<CKQueryMatchResultPayload>,
    pub cursor_returned: bool,
    pub operation_error: Option<ErrorPayload>,
}

#[derive(Debug, PartialEq, Eq)]
pub struct CKDeletedRecordPayload {
    pub record_id: CKRecordIDPayload,
    pub record_type: String,
}

#[derive(Debug, PartialEq)]
pub struct CKFetchDatabaseChangesResultPayload {
    pub changed_zone_ids: Vec<CKRecordZoneIDPayload>,
    pub deleted_zone_ids: Vec<CKRecordZoneIDPayload>,
    pub purged_zone_ids: Vec<CKRecordZoneIDPayload>,
    pub encrypted_data_reset_zone_ids: Vec<CKRecordZoneIDPayload>,
    pub updated_server_change_tokens: Vec<CKServerChangeTokenPayload>,
    pub server_change_token: Option<CKServerChangeTokenPayload>,
    pub more_coming: bool,
    pub operation_error: Option<ErrorPayload>,
}

#[derive(Debug, PartialEq)]
pub struct CKFetchRecordZoneResultPayload {
    pub zone_id: CKRecordZoneIDPayload,
    pub changed_records: Vec<CKRecordPayload>,
    pub deleted_records: Vec<CKDeletedRecordPayload>,
    pub updated_server_change_tokens: Vec<CKServerChangeTokenPayload>,
    pub server_change_token: Option<CKServerChangeTokenPayload>,
    pub client_change_token_data: Option<Vec<u8>>,
    pub more_coming: bool,
    pub zone_error: Option<ErrorPayload>,
}

#[derive(Debug, PartialEq)]
pub struct CKFetchRecordZoneChangesResultPayload {
    pub zones: Vec<CKFetchRecordZoneResultPayload>,
    pub operation_error: Option<ErrorPayload>,
}

#[derive(Debug, PartialEq)]
pub struct CKShareMetadataPayload {
    pub archived_data: Vec<u8>,
    pub container_identifier: String,
    pub share: CKSharePayload,
    pub hierarchical_root_record_id: Option<CKRecordIDPayload>,
    pub participant_role: Option<i32>,
    pub participant_status: i32,
    pub participant_permission: i32,
    pub owner_identity: CKUserIdentityPayload,
    pub root_record: Option<CKRecordPayload>,
    pub participant_type: Option<i32>,
    pub root_record_id: Option<CKRecordIDPayload>,
}

} // verus!
