//! Push notifications: their identifiers, kinds and the query, record-zone and
//! database notifications built on them.
use vstd::prelude::*;

use crate::container::CKDatabaseScope;
use crate::keyed::{pairs_map, pairs_sorted};
use crate::record::{
    copy_bytes, copy_field_entries, copy_record_id_option, field_entries_view, insert_field_entry,
    record_id_option_view, CKRecordID, CKRecordZoneID, RecordIdView, RecordValue,
    RecordValueView, RecordZoneIdView,
};
use crate::subscription::zone_id_option_view;
use crate::text::{opt_text_view, owned};

verus! {

/// Mirrors `CKNotification.ID`; its view is the archived bytes.
#[derive(Debug, PartialEq, Eq, Hash)]
pub struct CKNotificationID {
    archived_data: Vec<u8>,
}

impl View for CKNotificationID {
    type V = Seq<u8>;

    closed spec fn view(&self) -> Seq<u8> {
        self.archived_data@
    }
}

impl Clone for CKNotificationID {
    fn clone(&self) -> (r: Self)
        ensures
            r@ == self@,
    {
        CKNotificationID { archived_data: copy_bytes(&self.archived_data) }
    }
}

impl Default for CKNotificationID {
    fn default() -> (r: Self)
        ensures
            r@ == Seq::<u8>::empty(),
    {
        Self { archived_data: Vec::new() }
    }
}

impl CKNotificationID {
    /// The identifier that these archived bytes encode.
    pub fn new(archived_data: Vec<u8>) -> (r: Self)
        ensures
            r@ == archived_data@,
    {
        Self { archived_data }
    }

    /// The archived bytes of the identifier.
    pub fn archived_data(&self) -> (r: &[u8])
        ensures
            r@ == self@,
    {
        self.archived_data.as_slice()
    }
}

/// Mirrors `CKNotification.NotificationType`.
#[derive(Debug, Clone, Copy, PartialEq, Eq, Hash, Structural)]
#[non_exhaustive]
pub enum CKNotificationType {
    Query,
    RecordZone,
    ReadNotification,
    Database,
    Unknown(i32),
}

pub open spec fn notification_type_from_raw(raw: i32) -> CKNotificationType {
    if raw == 1 {
        CKNotificationType::Query
    } else if raw == 2 {
        CKNotificationType::RecordZone
    } else if raw == 3 {
        CKNotificationType::ReadNotification
    } else if raw == 4 {
        CKNotificationType::Database
    } else {
        CKNotificationType::Unknown(raw)
    }
}

pub open spec fn notification_type_to_raw(t: CKNotificationType) -> i32 {
    match t {
        CKNotificationType::Query => 1,
        CKNotificationType::RecordZone => 2,
        CKNotificationType::ReadNotification => 3,
        CKNotificationType::Database => 4,
        CKNotificationType::Unknown(raw) => raw,
    }
}

impl CKNotificationType {
    /// The type for a raw value; values without a name stay `Unknown`.
    pub fn from_raw(raw: i32) -> (r: Self)
        ensures
            r == notification_type_from_raw(raw),
    {
        match raw {
            1 => Self::Query,
            2 => Self::RecordZone,
            3 => Self::ReadNotification,
            4 => Self::Database,
            other => Self::Unknown(other),
        }
    }

    /// The raw value of the type.
    pub fn to_raw(self) -> (r: i32)
        ensures
            r == notification_type_to_raw(self),
    {
        match self {
            Self::Query => 1,
            Self::RecordZone => 2,
            Self::ReadNotification => 3,
            Self::Database => 4,
            Self::Unknown(raw) => raw,
        }
    }
}

/// Mirrors `CKQueryNotification.Reason`.
#[derive(Debug, Clone, Copy, PartialEq, Eq, Hash, Structural)]
#[non_exhaustive]
pub enum CKQueryNotificationReason {
    RecordCreated,
    RecordUpdated,
    RecordDeleted,
    Unknown(i32),
}

pub open spec fn query_reason_from_raw(raw: i32) -> CKQueryNotificationReason {
    if raw == 1 {
        CKQueryNotificationReason::RecordCreated
    } else if raw == 2 {
        CKQueryNotificationReason::RecordUpdated
    } else if raw == 3 {
        CKQueryNotificationReason::RecordDeleted
    } else {
        CKQueryNotificationReason::Unknown(raw)
    }
}

pub open spec fn query_reason_to_raw(reason: CKQueryNotificationReason) -> i32 {
    match reason {
        CKQueryNotificationReason::RecordCreated => 1,
        CKQueryNotificationReason::RecordUpdated => 2,
        CKQueryNotificationReason::RecordDeleted => 3,
        CKQueryNotificationReason::Unknown(raw) => raw,
    }
}

impl CKQueryNotificationReason {
    /// The reason for a raw value; values without a name stay `Unknown`.
    pub fn from_raw(raw: i32) -> (r: Self)
        ensures
            r == query_reason_from_raw(raw),
    {
        match raw {
            1 => Self::RecordCreated,
            2 => Self::RecordUpdated,
            3 => Self::RecordDeleted,
            other => Self::Unknown(other),
        }
    }

    /// The raw value of the reason.
    pub fn to_raw(self) -> (r: i32)
        ensures
            r == query_reason_to_raw(self),
    {
        match self {
            Self::RecordCreated => 1,
            Self::RecordUpdated => 2,
            Self::RecordDeleted => 3,
            Self::Unknown(raw) => raw,
        }
    }
}

/// Reading a raw value and writing it back gives the same raw value; a named
/// value written and read back is itself.
pub proof fn lemma_notification_raw_round_trip(raw: i32, t: CKNotificationType, reason: CKQueryNotificationReason)
    ensures
        notification_type_to_raw(notification_type_from_raw(raw)) == raw,
        query_reason_to_raw(query_reason_from_raw(raw)) == raw,
        !(t is Unknown) ==> notification_type_from_raw(notification_type_to_raw(t)) == t,
        !(reason is Unknown) ==> query_reason_from_raw(query_reason_to_raw(reason)) == reason,
{
}

/// The notification type follows the framework's raw values: 1 is a query
/// notification, 2 a record-zone one, 3 a read notification, 4 a database one;
/// every other value is kept as unknown. Distinct raw values give distinct types.
pub proof fn lemma_notification_type_raw_values(raw: i32, other: i32)
    ensures
        (raw == 1) <==> notification_type_from_raw(raw) == CKNotificationType::Query,
        (raw == 2) <==> notification_type_from_raw(raw) == CKNotificationType::RecordZone,
        (raw == 3) <==> notification_type_from_raw(raw) == CKNotificationType::ReadNotification,
        (raw == 4) <==> notification_type_from_raw(raw) == CKNotificationType::Database,
        !(1 <= raw <= 4) <==> notification_type_from_raw(raw) == CKNotificationType::Unknown(raw),
        notification_type_to_raw(CKNotificationType::Query) == 1,
        notification_type_to_raw(CKNotificationType::RecordZone) == 2,
        notification_type_to_raw(CKNotificationType::ReadNotification) == 3,
        notification_type_to_raw(CKNotificationType::Database) == 4,
        notification_type_from_raw(raw) == notification_type_from_raw(other) ==> raw == other,
{
}

/// The query-notification reason follows the framework's raw values: 1 is a
/// created record, 2 an updated one, 3 a deleted one; every other value is kept
/// as unknown. Distinct raw values give distinct reasons.
pub proof fn lemma_query_reason_raw_values(raw: i32, other: i32)
    ensures
        (raw == 1) <==> query_reason_from_raw(raw) == CKQueryNotificationReason::RecordCreated,
        (raw == 2) <==> query_reason_from_raw(raw) == CKQueryNotificationReason::RecordUpdated,
        (raw == 3) <==> query_reason_from_raw(raw) == CKQueryNotificationReason::RecordDeleted,
        !(1 <= raw <= 3) <==> query_reason_from_raw(raw) == CKQueryNotificationReason::Unknown(raw),
        query_reason_to_raw(CKQueryNotificationReason::RecordCreated) == 1,
        query_reason_to_raw(CKQueryNotificationReason::RecordUpdated) == 2,
        query_reason_to_raw(CKQueryNotificationReason::RecordDeleted) == 3,
        query_reason_from_raw(raw) == query_reason_from_raw(other) ==> raw == other,
{
}

// ---------------------------------------------------------------------------
// Notifications
// ---------------------------------------------------------------------------

/// The abstract content of a notification.
pub struct NotificationView {
    pub notification_type: CKNotificationType,
    pub notification_id: Option<Seq<u8>>,
    pub container_identifier: Option<Seq<char>>,
    pub subscription_owner_user_record_id: Option<RecordIdView>,
    pub is_pruned: bool,
    pub subscription_id: Option<Seq<char>>,
}

/// A notification of the given type with nothing else set.
pub open spec fn fresh_notification_view(notification_type: CKNotificationType) -> NotificationView {
    NotificationView {
        notification_type,
        notification_id: None,
        container_identifier: None,
        subscription_owner_user_record_id: None,
        is_pruned: false,
        subscription_id: None,
    }
}

pub open spec fn notification_id_option_view(n: Option<CKNotificationID>) -> Option<Seq<u8>> {
    match n {
        Some(x) => Some(x@),
        None => None,
    }
}

/// Mirrors `CKNotification`.
#[derive(Debug, PartialEq, Eq)]
pub struct CKNotification {
    notification_type: CKNotificationType,
    notification_id: Option<CKNotificationID>,
    container_identifier: Option<String>,
    subscription_owner_user_record_id: Option<CKRecordID>,
    is_pruned: bool,
    subscription_id: Option<String>,
}

impl View for CKNotification {
    type V = NotificationView;

    closed spec fn view(&self) -> NotificationView {
        NotificationView {
            notification_type: self.notification_type,
            notification_id: notification_id_option_view(self.notification_id),
            container_identifier: opt_text_view(self.container_identifier),
            subscription_owner_user_record_id: record_id_option_view(self.subscription_owner_user_record_id),
            is_pruned: self.is_pruned,
            subscription_id: opt_text_view(self.subscription_id),
        }
    }
}

impl Clone for CKNotification {
    fn clone(&self) -> (r: Self)
        ensures
            r@ == self@,
    {
        let notification_id = match &self.notification_id {
            Some(x) => Some(x.clone()),
            None => None,
        };
        let container_identifier = match &self.container_identifier {
            Some(x) => Some(x.clone()),
            None => None,
        };
        let subscription_id = match &self.subscription_id {
            Some(x) => Some(x.clone()),
            None => None,
        };
        CKNotification {
            notification_type: self.notification_type,
            notification_id,
            container_identifier,
            subscription_owner_user_record_id: copy_record_id_option(&self.subscription_owner_user_record_id),
            is_pruned: self.is_pruned,
            subscription_id,
        }
    }
}

impl CKNotification {
    /// A notification of the given type with nothing else set.
    pub fn new(notification_type: CKNotificationType) -> (r: Self)
        ensures
            r@ == fresh_notification_view(notification_type),
    {
        Self {
            notification_type,
            notification_id: None,
            container_identifier: None,
            subscription_owner_user_record_id: None,
            is_pruned: false,
            subscription_id: None,
        }
    }

    /// Mirrors `notificationType`.
    pub fn notification_type(&self) -> (r: CKNotificationType)
        ensures
            r == self@.notification_type,
    {
        self.notification_type
    }

    /// Mirrors `notificationID`.
    pub fn notification_id(&self) -> (r: Option<&CKNotificationID>)
        ensures
            r is Some <==> self@.notification_id is Some,
            r is Some ==> r->0@ == self@.notification_id->0,
    {
        match &self.notification_id {
            Some(x) => Some(x),
            None => None,
        }
    }

    /// Mirrors `containerIdentifier`.
    pub fn container_identifier(&self) -> (r: Option<&str>)
        ensures
            r is Some <==> self@.container_identifier is Some,
            r is Some ==> r->0@ == self@.container_identifier->0,
    {
        match &self.container_identifier {
            Some(t) => Some(t.as_str()),
            None => None,
        }
    }

    /// Mirrors `subscriptionOwnerUserRecordID`.
    pub fn subscription_owner_user_record_id(&self) -> (r: Option<&CKRecordID>)
        ensures
            r is Some <==> self@.subscription_owner_user_record_id is Some,
            r is Some ==> r->0@ == self@.subscription_owner_user_record_id->0,
    {
        match &self.subscription_owner_user_record_id {
            Some(x) => Some(x),
            None => None,
        }
    }

    /// Mirrors `isPruned`.
    pub fn is_pruned(&self) -> (r: bool)
        ensures
            r == self@.is_pruned,
    {
        self.is_pruned
    }

    /// Mirrors `subscriptionID`.
    pub fn subscription_id(&self) -> (r: Option<&str>)
        ensures
            r is Some <==> self@.subscription_id is Some,
            r is Some ==> r->0@ == self@.subscription_id->0,
    {
        match &self.subscription_id {
            Some(t) => Some(t.as_str()),
            None => None,
        }
    }

    /// The same notification with its identifier set.
    pub fn with_notification_id(self, notification_id: CKNotificationID) -> (r: Self)
        ensures
            r@ == (NotificationView { notification_id: Some(notification_id@), ..self@ }),
    {
        Self { notification_id: Some(notification_id), ..self }
    }

    /// The same notification with its container identifier set.
    pub fn with_container_identifier(self, container_identifier: &str) -> (r: Self)
        ensures
            r@ == (NotificationView { container_identifier: Some(container_identifier@), ..self@ }),
    {
        Self { container_identifier: Some(owned(container_identifier)), ..self }
    }

    /// The same notification with the subscription owner set.
    pub fn with_subscription_owner_user_record_id(self, subscription_owner_user_record_id: CKRecordID) -> (r: Self)
        ensures
            r@ == (NotificationView {
                subscription_owner_user_record_id: Some(subscription_owner_user_record_id@),
                ..self@
            }),
    {
        Self { subscription_owner_user_record_id: Some(subscription_owner_user_record_id), ..self }
    }

    /// The same notification, pruned or not.
    pub fn with_pruned(self, is_pruned: bool) -> (r: Self)
        ensures
            r@ == (NotificationView { is_pruned, ..self@ }),
    {
        Self { is_pruned, ..self }
    }

    /// The same notification with its subscription identifier set.
    pub fn with_subscription_id(self, subscription_id: &str) -> (r: Self)
        ensures
            r@ == (NotificationView { subscription_id: Some(subscription_id@), ..self@ }),
    {
        Self { subscription_id: Some(owned(subscription_id)), ..self }
    }
}

// ---------------------------------------------------------------------------
// Query notifications
// ---------------------------------------------------------------------------

/// The abstract content of a query notification.
pub struct QueryNotificationView {
    pub notification: NotificationView,
    pub query_notification_reason: CKQueryNotificationReason,
    /// The record fields carried by the notification, by key.
    pub record_fields: Map<Seq<char>, RecordValueView>,
    pub record_id: Option<RecordIdView>,
    pub database_scope: CKDatabaseScope,
}

/// Mirrors `CKQueryNotification`.
#[derive(Debug, PartialEq)]
pub struct CKQueryNotification {
    notification: CKNotification,
    query_notification_reason: CKQueryNotificationReason,
    /// Field entries in increasing key order, one per key.
    record_fields: Vec<(String, RecordValue)>,
    record_id: Option<CKRecordID>,
    database_scope: CKDatabaseScope,
}

impl View for CKQueryNotification {
    type V = QueryNotificationView;

    closed spec fn view(&self) -> QueryNotificationView {
        QueryNotificationView {
            notification: self.notification@,
            query_notification_reason: self.query_notification_reason,
            record_fields: pairs_map(field_entries_view(self.record_fields@)),
            record_id: record_id_option_view(self.record_id),
            database_scope: self.database_scope,
        }
    }
}

impl Clone for CKQueryNotification {
    fn clone(&self) -> (r: Self)
        ensures
            r@ == self@,
    {
        proof { use_type_invariant(self); }
        let record_id = match &self.record_id {
            Some(x) => Some(x.clone()),
            None => None,
        };
        CKQueryNotification {
            notification: self.notification.clone(),
            query_notification_reason: self.query_notification_reason,
            record_fields: copy_field_entries(&self.record_fields),
            record_id,
            database_scope: self.database_scope,
        }
    }
}

impl CKQueryNotification {
    /// The field entries stay in increasing key order, one per key.
    #[verifier::type_invariant]
    spec fn fields_sorted(self) -> bool {
        pairs_sorted(field_entries_view(self.record_fields@))
    }

    /// A query notification for the given reason and database, with no fields.
    pub fn new(query_notification_reason: CKQueryNotificationReason, database_scope: CKDatabaseScope) -> (r: Self)
        ensures
            r@ == (QueryNotificationView {
                notification: fresh_notification_view(CKNotificationType::Query),
                query_notification_reason,
                record_fields: Map::empty(),
                record_id: None,
                database_scope,
            }),
    {
        let record_fields: Vec<(String, RecordValue)> = Vec::new();
        assert(field_entries_view(record_fields@) =~= Seq::empty());
        assert(pairs_map(field_entries_view(record_fields@)) =~= Map::<Seq<char>, RecordValueView>::empty());
        Self {
            notification: CKNotification::new(CKNotificationType::Query),
            query_notification_reason,
            record_fields,
            record_id: None,
            database_scope,
        }
    }

    /// The notification fields shared by every kind.
    pub fn notification(&self) -> (r: &CKNotification)
        ensures
            r@ == self@.notification,
    {
        &self.notification
    }

    /// Mirrors `queryNotificationReason`.
    pub fn query_notification_reason(&self) -> (r: CKQueryNotificationReason)
        ensures
            r == self@.query_notification_reason,
    {
        self.query_notification_reason
    }

    /// Mirrors `recordFields`: the entries in increasing key order, one per key.
    pub fn record_fields(&self) -> (r: &[(String, RecordValue)])
        ensures
            pairs_sorted(field_entries_view(r@)),
            pairs_map(field_entries_view(r@)) == self@.record_fields,
    {
        proof { use_type_invariant(self); }
        self.record_fields.as_slice()
    }

    /// Mirrors `recordID`.
    pub fn record_id(&self) -> (r: Option<&CKRecordID>)
        ensures
            r is Some <==> self@.record_id is Some,
            r is Some ==> r->0@ == self@.record_id->0,
    {
        match &self.record_id {
            Some(x) => Some(x),
            None => None,
        }
    }

    /// Mirrors `databaseScope`.
    pub fn database_scope(&self) -> (r: CKDatabaseScope)
        ensures
            r == self@.database_scope,
    {
        self.database_scope
    }

    /// The same notification with other shared notification fields.
    pub fn with_notification(self, notification: CKNotification) -> (r: Self)
        ensures
            r@ == (QueryNotificationView { notification: notification@, ..self@ }),
    {
        proof { use_type_invariant(&self); }
        Self { notification, ..self }
    }

    /// The same notification with `value` stored under `key`, replacing any
    /// value the key had.
    pub fn with_record_field(self, key: &str, value: RecordValue) -> (r: Self)
        ensures
            r@ == (QueryNotificationView { record_fields: self@.record_fields.insert(key@, value@), ..self@ }),
    {
        proof { use_type_invariant(&self); }
        let CKQueryNotification { notification, query_notification_reason, record_fields, record_id, database_scope } = self;
        let mut record_fields = record_fields;
        insert_field_entry(&mut record_fields, key, value);
        Self { notification, query_notification_reason, record_fields, record_id, database_scope }
    }

    /// The same notification with the record identifier set.
    pub fn with_record_id(self, record_id: CKRecordID) -> (r: Self)
        ensures
            r@ == (QueryNotificationView { record_id: Some(record_id@), ..self@ }),
    {
        proof { use_type_invariant(&self); }
        Self { record_id: Some(record_id), ..self }
    }
}

// ---------------------------------------------------------------------------
// Record-zone and database notifications
// ---------------------------------------------------------------------------

/// The abstract content of a record-zone notification.
pub struct RecordZoneNotificationView {
    pub notification: NotificationView,
    pub record_zone_id: Option<RecordZoneIdView>,
    pub database_scope: CKDatabaseScope,
}

/// Mirrors `CKRecordZoneNotification`.
#[derive(Debug, PartialEq, Eq)]
pub struct CKRecordZoneNotification {
    notification: CKNotification,
    record_zone_id: Option<CKRecordZoneID>,
    database_scope: CKDatabaseScope,
}

impl View for CKRecordZoneNotification {
    type V = RecordZoneNotificationView;

    closed spec fn view(&self) -> RecordZoneNotificationView {
        RecordZoneNotificationView {
            notification: self.notification@,
            record_zone_id: zone_id_option_view(self.record_zone_id),
            database_scope: self.database_scope,
        }
    }
}

impl Clone for CKRecordZoneNotification {
    fn clone(&self) -> (r: Self)
        ensures
            r@ == self@,
    {
        let record_zone_id = match &self.record_zone_id {
            Some(z) => Some(z.clone()),
            None => None,
        };
        CKRecordZoneNotification {
            notification: self.notification.clone(),
            record_zone_id,
            database_scope: self.database_scope,
        }
    }
}

impl CKRecordZoneNotification {
    /// A record-zone notification for the given database, with no zone set.
    pub fn new(database_scope: CKDatabaseScope) -> (r: Self)
        ensures
            r@ == (RecordZoneNotificationView {
                notification: fresh_notification_view(CKNotificationType::RecordZone),
                record_zone_id: None,
                database_scope,
            }),
    {
        Self { notification: CKNotification::new(CKNotificationType::RecordZone), record_zone_id: None, database_scope }
    }

    /// The notification fields shared by every kind.
    pub fn notification(&self) -> (r: &CKNotification)
        ensures
            r@ == self@.notification,
    {
        &self.notification
    }

    /// Mirrors `recordZoneID`.
    pub fn record_zone_id(&self) -> (r: Option<&CKRecordZoneID>)
        ensures
            r is Some <==> self@.record_zone_id is Some,
            r is Some ==> r->0@ == self@.record_zone_id->0,
    {
        match &self.record_zone_id {
            Some(z) => Some(z),
            None => None,
        }
    }

    /// Mirrors `databaseScope`.
    pub fn database_scope(&self) -> (r: CKDatabaseScope)
        ensures
            r == self@.database_scope,
    {
        self.database_scope
    }

    /// The same notification with other shared notification fields.
    pub fn with_notification(self, notification: CKNotification) -> (r: Self)
        ensures
            r@ == (RecordZoneNotificationView { notification: notification@, ..self@ }),
    {
        Self { notification, ..self }
    }

    /// The same notification with the zone set.
    pub fn with_record_zone_id(self, record_zone_id: CKRecordZoneID) -> (r: Self)
        ensures
            r@ == (RecordZoneNotificationView { record_zone_id: Some(record_zone_id@), ..self@ }),
    {
        Self { record_zone_id: Some(record_zone_id), ..self }
    }
}

/// The abstract content of a database notification.
pub struct DatabaseNotificationView {
    pub notification: NotificationView,
    pub database_scope: CKDatabaseScope,
}

/// Mirrors `CKDatabaseNotification`.
#[derive(Debug, PartialEq, Eq)]
pub struct CKDatabaseNotification {
    notification: CKNotification,
    database_scope: CKDatabaseScope,
}

impl View for CKDatabaseNotification {
    type V = DatabaseNotificationView;

    closed spec fn view(&self) -> DatabaseNotificationView {
        DatabaseNotificationView { notification: self.notification@, database_scope: self.database_scope }
    }
}

impl Clone for CKDatabaseNotification {
    fn clone(&self) -> (r: Self)
        ensures
            r@ == self@,
    {
        CKDatabaseNotification { notification: self.notification.clone(), database_scope: self.database_scope }
    }
}

impl CKDatabaseNotification {
    /// A database notification for the given database.
    pub fn new(database_scope: CKDatabaseScope) -> (r: Self)
        ensures
            r@ == (DatabaseNotificationView {
                notification: fresh_notification_view(CKNotificationType::Database),
                database_scope,
            }),
    {
        Self { notification: CKNotification::new(CKNotificationType::Database), database_scope }
    }

    /// The notification fields shared by every kind.
    pub fn notification(&self) -> (r: &CKNotification)
        ensures
            r@ == self@.notification,
    {
        &self.notification
    }

    /// Mirrors `databaseScope`.
    pub fn database_scope(&self) -> (r: CKDatabaseScope)
        ensures
            r == self@.database_scope,
    {
        self.database_scope
    }

    /// The same notification with other shared notification fields.
    pub fn with_notification(self, notification: CKNotification) -> (r: Self)
        ensures
            r@ == (DatabaseNotificationView { notification: notification@, ..self@ }),
    {
        Self { notification, ..self }
    }
}

} // verus!
