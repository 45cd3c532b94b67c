//! The names and values that the CloudKit framework exports as constants.
use vstd::prelude::*;

verus! {

/// `CKAccountChangedNotification`.
pub const CK_ACCOUNT_CHANGED_NOTIFICATION: &'static str = "CKAccountChangedNotification";
/// `CKCurrentUserDefaultName`: the owner name of the current user's zones.
pub const CK_CURRENT_USER_DEFAULT_NAME: &'static str = "__defaultOwner__";
/// `CKErrorRetryAfterKey`.
pub const CK_ERROR_RETRY_AFTER_KEY: &'static str = "CKRetryAfter";
/// `CKErrorUserDidResetEncryptedDataKey`.
pub const CK_ERROR_USER_DID_RESET_ENCRYPTED_DATA_KEY: &'static str = "CKUserDidResetEncryptedData";
/// `CKPartialErrorsByItemIDKey`.
pub const CK_PARTIAL_ERRORS_BY_ITEM_ID_KEY: &'static str = "CKPartialErrors";
/// `CKRecordChangedErrorAncestorRecordKey`.
pub const CK_RECORD_CHANGED_ERROR_ANCESTOR_RECORD_KEY: &'static str = "AncestorRecord";
/// `CKRecordChangedErrorClientRecordKey`.
pub const CK_RECORD_CHANGED_ERROR_CLIENT_RECORD_KEY: &'static str = "ClientRecord";
/// `CKRecordChangedErrorServerRecordKey`.
pub const CK_RECORD_CHANGED_ERROR_SERVER_RECORD_KEY: &'static str = "ServerRecord";
/// `CKQueryOperationMaximumResults`: no limit.
pub const CK_QUERY_OPERATION_MAXIMUM_RESULTS: usize = 0;
/// `CKRecordCreationDateKey`.
pub const CK_RECORD_CREATION_DATE_KEY: &'static str = "___createTime";
/// `CKRecordCreatorUserRecordIDKey`.
pub const CK_RECORD_CREATOR_USER_RECORD_ID_KEY: &'static str = "___createdBy";
/// `CKRecordLastModifiedUserRecordIDKey`.
pub const CK_RECORD_LAST_MODIFIED_USER_RECORD_ID_KEY: &'static str = "___modifiedBy";
/// `CKRecordModificationDateKey`.
pub const CK_RECORD_MODIFICATION_DATE_KEY: &'static str = "___modTime";
/// `CKRecordParentKey`.
pub const CK_RECORD_PARENT_KEY: &'static str = "___parent";
/// `CKRecordRecordIDKey`.
pub const CK_RECORD_RECORD_ID_KEY: &'static str = "___recordID";
/// `CKRecordShareKey`.
pub const CK_RECORD_SHARE_KEY: &'static str = "___share";
/// `CKRecordTypeUserRecord`.
pub const CK_RECORD_TYPE_USER_RECORD: &'static str = "Users";
/// `CKRecordZoneDefaultName`.
pub const CK_RECORD_ZONE_DEFAULT_NAME: &'static str = "_defaultZone";
/// `CKRecordNameZoneWideShare`.
pub const CK_RECORD_NAME_ZONE_WIDE_SHARE: &'static str = "cloudkit.zoneshare";
/// `CKRecordTypeShare`.
pub const CK_RECORD_TYPE_SHARE: &'static str = "cloudkit.share";
/// `CKShareThumbnailImageDataKey`.
pub const CK_SHARE_THUMBNAIL_IMAGE_DATA_KEY: &'static str = "cloudkit.thumbnailImageData";
/// `CKShareTitleKey`.
pub const CK_SHARE_TITLE_KEY: &'static str = "cloudkit.title";
/// `CKShareTypeKey`.
pub const CK_SHARE_TYPE_KEY: &'static str = "cloudkit.type";

} // verus!
