//! Value-layer model of Apple's CloudKit framework: records, zones, references,
//! subscriptions, notifications, sharing, operations, sync-engine state and the
//! payloads exchanged with the native bridge, each with its contract.
pub mod bridge;
pub mod constants;
pub mod container;
pub mod convert;
pub mod copying;
pub mod error;
pub mod fetched_results;
pub mod keyed;
pub mod notification;
pub mod notification_info;
pub mod operation;
pub mod operation_support;
pub mod payload;
pub mod query;
pub mod record;
pub mod reference_utility;
pub mod server_change_token;
pub mod share;
pub mod subscription;
pub mod sync_engine;
pub mod text;
pub mod user_identity;

pub use constants::{
    CK_ACCOUNT_CHANGED_NOTIFICATION, CK_CURRENT_USER_DEFAULT_NAME, CK_ERROR_RETRY_AFTER_KEY, CK_ERROR_USER_DID_RESET_ENCRYPTED_DATA_KEY, CK_PARTIAL_ERRORS_BY_ITEM_ID_KEY, CK_RECORD_CHANGED_ERROR_ANCESTOR_RECORD_KEY, CK_RECORD_CHANGED_ERROR_CLIENT_RECORD_KEY, CK_RECORD_CHANGED_ERROR_SERVER_RECORD_KEY, CK_QUERY_OPERATION_MAXIMUM_RESULTS, CK_RECORD_CREATION_DATE_KEY, CK_RECORD_CREATOR_USER_RECORD_ID_KEY, CK_RECORD_LAST_MODIFIED_USER_RECORD_ID_KEY, CK_RECORD_MODIFICATION_DATE_KEY, CK_RECORD_PARENT_KEY, CK_RECORD_RECORD_ID_KEY, CK_RECORD_SHARE_KEY, CK_RECORD_TYPE_USER_RECORD, CK_RECORD_ZONE_DEFAULT_NAME, CK_RECORD_NAME_ZONE_WIDE_SHARE, CK_RECORD_TYPE_SHARE, CK_SHARE_THUMBNAIL_IMAGE_DATA_KEY, CK_SHARE_TITLE_KEY, CK_SHARE_TYPE_KEY,
};
pub use container::{
    AccountStatus, CKApplicationPermissionStatus, CKApplicationPermissions, CKContainer, CKDatabase,
    CKDatabaseScope,
};
pub use error::{CloudKitError, CloudKitErrorCode, CLOUDKIT_BRIDGE_ERROR_DOMAIN, CLOUDKIT_ERROR_DOMAIN};
pub use fetched_results::{
    CKDeletedRecord, CKFetchDatabaseChangesResult, CKFetchRecordZoneChangesResult, CKFetchRecordZoneResult,
    CKFetchRecordsResult, CKFetchedQueryResults, CKQueryCursor, CKRecordResult,
};
pub use notification::{
    CKDatabaseNotification, CKNotification, CKNotificationID, CKNotificationType, CKQueryNotification,
    CKQueryNotificationReason, CKRecordZoneNotification,
};
pub use notification_info::CKNotificationInfo;
pub use operation::{
    CKModifyRecordsOperation, CKQueryOperation, CKRecordDeleteResult, CKRecordSavePolicy, CKRecordSaveResult,
    ModifyRecordsResult, QueryMatchResult, QueryOperationResult,
};
pub use operation_support::{
    CKDatabaseOperation, CKFetchSubscriptionsOperation, CKFetchSubscriptionsResult, CKModifySubscriptionsOperation,
    CKOperation, CKOperationConfiguration, CKOperationGroup, CKOperationGroupTransferSize, CKQualityOfService,
    CKSubscriptionDeleteResult, CKSubscriptionFetchResult, CKSubscriptionSaveResult, ModifySubscriptionsResult,
};
pub use query::{CKQuery, SortDescriptor};
pub use record::{
    CKAsset, CKRecord, CKRecordID, CKRecordKeyValueSetting, CKRecordZone, CKRecordZoneCapabilities, CKRecordZoneEncryptionScope,
    CKRecordZoneID, RecordValue,
};
pub use reference_utility::{CKReference, CKReferenceAction};
pub use server_change_token::CKServerChangeToken;
pub use share::{
    CKAllowedSharingOptions, CKShare, CKShareAccessRequester, CKShareBlockedIdentity, CKShareMetadata,
    CKShareParticipant, CKShareParticipantAcceptanceStatus, CKShareParticipantPermission, CKShareParticipantRole,
    CKShareParticipantType, CKSharingParticipantAccessOption, CKSharingParticipantPermissionOption,
};
pub use subscription::{
    CKAnySubscription, CKDatabaseSubscription, CKQuerySubscription, CKRecordZoneSubscription, CKSubscription, CKSubscriptionType, QuerySubscriptionOptions,
};
pub use sync_engine::{
    CKSyncEngineAccountChangeEvent, CKSyncEngineAccountChangeType, CKSyncEngineDidFetchChangesEvent,
    CKSyncEngineDidFetchRecordZoneChangesEvent, CKSyncEngineDidSendChangesEvent, CKSyncEngineEvent,
    CKSyncEngineEventType, CKSyncEngineFailedRecordDelete, CKSyncEngineFailedRecordSave,
    CKSyncEngineFailedZoneDelete, CKSyncEngineFailedZoneSave, CKSyncEngineFetchChangesContext,
    CKSyncEngineFetchChangesOptions, CKSyncEngineFetchChangesScope, CKSyncEngineFetchedDatabaseChangesEvent,
    CKSyncEngineFetchedRecordDeletion, CKSyncEngineFetchedRecordZoneChangesEvent, CKSyncEngineFetchedZoneDeletion,
    CKSyncEnginePendingDatabaseChange, CKSyncEnginePendingDatabaseChangeType, CKSyncEnginePendingRecordZoneChange,
    CKSyncEnginePendingRecordZoneChangeType, CKSyncEnginePendingZoneDelete, CKSyncEnginePendingZoneSave,
    CKSyncEngineRecordZoneChangeBatch, CKSyncEngineSendChangesContext, CKSyncEngineSendChangesOptions,
    CKSyncEngineSendChangesScope, CKSyncEngineSentDatabaseChangesEvent, CKSyncEngineSentRecordZoneChangesEvent,
    CKSyncEngineState, CKSyncEngineStateSerialization, CKSyncEngineStateUpdateEvent, CKSyncEngineSyncReason,
    CKSyncEngineWillFetchChangesEvent, CKSyncEngineWillFetchRecordZoneChangesEvent, CKSyncEngineWillSendChangesEvent,
    CKSyncEngineZoneDeletionReason,
};
pub use user_identity::{CKPersonNameComponents, CKUserIdentity, CKUserIdentityLookupInfo};
