use cloudkit::container::{CKContainer, CKDatabaseScope};
use cloudkit::{
    CK_ACCOUNT_CHANGED_NOTIFICATION, CK_CURRENT_USER_DEFAULT_NAME, CK_ERROR_RETRY_AFTER_KEY, CK_ERROR_USER_DID_RESET_ENCRYPTED_DATA_KEY, CK_PARTIAL_ERRORS_BY_ITEM_ID_KEY, CK_RECORD_CHANGED_ERROR_ANCESTOR_RECORD_KEY, CK_RECORD_CHANGED_ERROR_CLIENT_RECORD_KEY, CK_RECORD_CHANGED_ERROR_SERVER_RECORD_KEY, CK_QUERY_OPERATION_MAXIMUM_RESULTS, CK_RECORD_CREATION_DATE_KEY, CK_RECORD_CREATOR_USER_RECORD_ID_KEY, CK_RECORD_LAST_MODIFIED_USER_RECORD_ID_KEY, CK_RECORD_MODIFICATION_DATE_KEY, CK_RECORD_PARENT_KEY, CK_RECORD_RECORD_ID_KEY, CK_RECORD_SHARE_KEY, CK_RECORD_TYPE_USER_RECORD, CK_RECORD_ZONE_DEFAULT_NAME, CK_RECORD_NAME_ZONE_WIDE_SHARE, CK_RECORD_TYPE_SHARE, CK_SHARE_THUMBNAIL_IMAGE_DATA_KEY, CK_SHARE_TITLE_KEY, CK_SHARE_TYPE_KEY,
};

#[test]
fn exported_constants_match_the_sdk_values() {
    assert_eq!(CK_ACCOUNT_CHANGED_NOTIFICATION, "CKAccountChangedNotification");
    assert_eq!(CK_CURRENT_USER_DEFAULT_NAME, "__defaultOwner__");
    assert_eq!(CK_ERROR_RETRY_AFTER_KEY, "CKRetryAfter");
    assert_eq!(CK_ERROR_USER_DID_RESET_ENCRYPTED_DATA_KEY, "CKUserDidResetEncryptedData");
    assert_eq!(CK_PARTIAL_ERRORS_BY_ITEM_ID_KEY, "CKPartialErrors");
    assert_eq!(CK_RECORD_CHANGED_ERROR_ANCESTOR_RECORD_KEY, "AncestorRecord");
    assert_eq!(CK_RECORD_CHANGED_ERROR_CLIENT_RECORD_KEY, "ClientRecord");
    assert_eq!(CK_RECORD_CHANGED_ERROR_SERVER_RECORD_KEY, "ServerRecord");
    assert_eq!(CK_QUERY_OPERATION_MAXIMUM_RESULTS, 0);
    assert_eq!(CK_RECORD_CREATION_DATE_KEY, "___createTime");
    assert_eq!(CK_RECORD_CREATOR_USER_RECORD_ID_KEY, "___createdBy");
    assert_eq!(CK_RECORD_LAST_MODIFIED_USER_RECORD_ID_KEY, "___modifiedBy");
    assert_eq!(CK_RECORD_MODIFICATION_DATE_KEY, "___modTime");
    assert_eq!(CK_RECORD_PARENT_KEY, "___parent");
    assert_eq!(CK_RECORD_RECORD_ID_KEY, "___recordID");
    assert_eq!(CK_RECORD_SHARE_KEY, "___share");
    assert_eq!(CK_RECORD_TYPE_USER_RECORD, "Users");
    assert_eq!(CK_RECORD_ZONE_DEFAULT_NAME, "_defaultZone");
    assert_eq!(CK_RECORD_NAME_ZONE_WIDE_SHARE, "cloudkit.zoneshare");
    assert_eq!(CK_RECORD_TYPE_SHARE, "cloudkit.share");
    assert_eq!(CK_SHARE_THUMBNAIL_IMAGE_DATA_KEY, "cloudkit.thumbnailImageData");
    assert_eq!(CK_SHARE_TITLE_KEY, "cloudkit.title");
    assert_eq!(CK_SHARE_TYPE_KEY, "cloudkit.type");
}

#[test]
fn database_with_scope_matches_requested_scope() {
    let container = CKContainer::container("iCloud.example.container");
    assert_eq!(container.database_with_scope(CKDatabaseScope::Shared).database_scope(), CKDatabaseScope::Shared);
}
