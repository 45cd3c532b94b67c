//! Subscriptions: query, record-zone and database subscriptions with their
//! firing options and the notification settings they carry.
use vstd::prelude::*;

use crate::notification_info::{default_notification_info_view, notification_info_payload_view, NotificationInfoView};
use crate::payload::{CKNotificationInfoPayload, CKSubscriptionPayload, CKSubscriptionPayloadKind, CKRecordZoneIDPayload};
use crate::record::{default_zone_id_view, zone_id_payload_view, CKRecordZoneID, RecordZoneIdView};
use crate::text::{copy_opt_text, opt_text_view, owned};

verus! {

/// Mirrors `CKSubscription.SubscriptionType`.
#[derive(Debug, Clone, Copy, PartialEq, Eq, Hash, Structural)]
#[non_exhaustive]
pub enum CKSubscriptionType {
    Query,
    RecordZone,
    Database,
}

/// The raw value of a subscription kind (`CKSubscription.SubscriptionType.rawValue`).
pub open spec fn subscription_type_to_raw(t: CKSubscriptionType) -> i32 {
    match t {
        CKSubscriptionType::Query => 1,
        CKSubscriptionType::RecordZone => 2,
        CKSubscriptionType::Database => 3,
    }
}

impl CKSubscriptionType {
    /// The raw value of the kind.
    pub fn to_raw(self) -> (r: i32)
        ensures
            r == subscription_type_to_raw(self),
    {
        match self {
            Self::Query => 1,
            Self::RecordZone => 2,
            Self::Database => 3,
        }
    }
}

/// The subscription kinds have the `CKSubscription.SubscriptionType` raw values:
/// 1 query, 2 record zone, 3 database.
pub proof fn lemma_subscription_type_raw_values()
    ensures
        subscription_type_to_raw(CKSubscriptionType::Query) == 1,
        subscription_type_to_raw(CKSubscriptionType::RecordZone) == 2,
        subscription_type_to_raw(CKSubscriptionType::Database) == 3,
{
}

// ---------------------------------------------------------------------------
// Notification settings carried by a subscription
// ---------------------------------------------------------------------------

/// The abstract content of a subscription's notification settings.
pub struct SubscriptionNotificationView {
    pub alert_body: Option<Seq<char>>,
    pub should_send_content_available: bool,
}

/// The settings of a new subscription: no alert text, content-available delivery on.
pub open spec fn default_subscription_notification_view() -> SubscriptionNotificationView {
    SubscriptionNotificationView { alert_body: None, should_send_content_available: true }
}

/// The notification settings of a subscription.
#[derive(Debug, PartialEq, Eq, Hash)]
pub struct CKNotificationInfo {
    alert_body: Option<String>,
    should_send_content_available: bool,
}

impl View for CKNotificationInfo {
    type V = SubscriptionNotificationView;

    closed spec fn view(&self) -> SubscriptionNotificationView {
        SubscriptionNotificationView {
            alert_body: opt_text_view(self.alert_body),
            should_send_content_available: self.should_send_content_available,
        }
    }
}

impl Clone for CKNotificationInfo {
    fn clone(&self) -> (r: Self)
        ensures
            r@ == self@,
    {
        let alert_body = match &self.alert_body {
            Some(t) => Some(t.clone()),
            None => None,
        };
        CKNotificationInfo { alert_body, should_send_content_available: self.should_send_content_available }
    }
}

impl Default for CKNotificationInfo {
    fn default() -> (r: Self)
        ensures
            r@ == default_subscription_notification_view(),
    {
        Self { alert_body: None, should_send_content_available: true }
    }
}

impl CKNotificationInfo {
    /// Settings with nothing set and content-available delivery on.
    pub fn new() -> (r: Self)
        ensures
            r@ == default_subscription_notification_view(),
    {
        Self::default()
    }

    /// The alert text, if set.
    pub fn alert_body(&self) -> (r: Option<&str>)
        ensures
            r is Some <==> self@.alert_body is Some,
            r is Some ==> r->0@ == self@.alert_body->0,
    {
        match &self.alert_body {
            Some(t) => Some(t.as_str()),
            None => None,
        }
    }

    /// Whether the notification wakes the app for background content.
    pub fn should_send_content_available(&self) -> (r: bool)
        ensures
            r == self@.should_send_content_available,
    {
        self.should_send_content_available
    }

    /// The same settings with the alert text set.
    pub fn with_alert_body(self, alert_body: &str) -> (r: Self)
        ensures
            r@ == (SubscriptionNotificationView { alert_body: Some(alert_body@), ..self@ }),
    {
        Self { alert_body: Some(owned(alert_body)), should_send_content_available: self.should_send_content_available }
    }

    /// The same settings with content-available delivery switched.
    pub fn with_content_available(self, should_send_content_available: bool) -> (r: Self)
        ensures
            r@ == (SubscriptionNotificationView { should_send_content_available, ..self@ }),
    {
        Self { alert_body: self.alert_body, should_send_content_available }
    }

    /// The bridge payload of the settings: the alert text and content-available
    /// delivery, every other notification setting at its default.
    pub fn to_payload(&self) -> (r: CKNotificationInfoPayload)
        ensures
            notification_info_payload_view(r) == subscription_notification_payload_view(self@),
    {
        CKNotificationInfoPayload {
            alert_body: copy_opt_text(&self.alert_body),
            alert_localization_key: None,
            alert_localization_args: None,
            title: None,
            title_localization_key: None,
            title_localization_args: None,
            subtitle: None,
            subtitle_localization_key: None,
            subtitle_localization_args: None,
            alert_action_localization_key: None,
            alert_launch_image: None,
            sound_name: None,
            desired_keys: None,
            should_badge: false,
            should_send_content_available: self.should_send_content_available,
            should_send_mutable_content: false,
            category: None,
            collapse_id_key: None,
        }
    }

    /// The settings a bridge payload carries for a subscription: its alert text
    /// and content-available delivery.
    pub fn from_payload(payload: CKNotificationInfoPayload) -> (r: Self)
        ensures
            r@ == subscription_notification_from_payload_view(payload),
    {
        Self { alert_body: payload.alert_body, should_send_content_available: payload.should_send_content_available }
    }
}

/// The notification settings that a subscription's settings give in a payload.
pub open spec fn subscription_notification_payload_view(v: SubscriptionNotificationView) -> NotificationInfoView {
    NotificationInfoView {
        alert_body: v.alert_body,
        should_send_content_available: v.should_send_content_available,
        ..default_notification_info_view()
    }
}

/// The subscription settings that a notification payload stands for.
pub open spec fn subscription_notification_from_payload_view(p: CKNotificationInfoPayload) -> SubscriptionNotificationView {
    SubscriptionNotificationView {
        alert_body: opt_text_view(p.alert_body),
        should_send_content_available: p.should_send_content_available,
    }
}

// ---------------------------------------------------------------------------
// Query subscription options
// ---------------------------------------------------------------------------

/// Mirrors `CKQuerySubscription.Options`, a set of flag bits.
#[derive(Debug, Clone, Copy, PartialEq, Eq, Hash)]
pub struct QuerySubscriptionOptions(u64);

impl View for QuerySubscriptionOptions {
    type V = u64;

    closed spec fn view(&self) -> u64 {
        self.0
    }
}

impl Default for QuerySubscriptionOptions {
    fn default() -> (r: Self)
        ensures
            r@ == 0,
    {
        Self(0)
    }
}

impl QuerySubscriptionOptions {
    /// Mirrors `firesOnRecordCreation`.
    pub fn fires_on_record_creation() -> (r: Self)
        ensures
            r@ == 1,
    {
        Self(1)
    }

    /// Mirrors `firesOnRecordUpdate`.
    pub fn fires_on_record_update() -> (r: Self)
        ensures
            r@ == 2,
    {
        Self(2)
    }

    /// Mirrors `firesOnRecordDeletion`.
    pub fn fires_on_record_deletion() -> (r: Self)
        ensures
            r@ == 4,
    {
        Self(4)
    }

    /// Mirrors `firesOnce`.
    pub fn fires_once() -> (r: Self)
        ensures
            r@ == 8,
    {
        Self(8)
    }

    /// The flag bits.
    pub fn bits(self) -> (r: u64)
        ensures
            r == self@,
    {
        self.0
    }

    /// The options set in either operand (`|`).
    pub fn union(self, other: Self) -> (r: Self)
        ensures
            r@ == self@ | other@,
    {
        Self(self.0 | other.0)
    }

    /// Adds the options of `other` to these (`|=`).
    pub fn insert(&mut self, other: Self)
        ensures
            final(self)@ == old(self)@ | other@,
    {
        self.0 = self.0 | other.0;
    }
}

// ---------------------------------------------------------------------------
// Subscriptions
// ---------------------------------------------------------------------------

/// The abstract content of a subscription.
pub struct SubscriptionView {
    pub subscription_id: Seq<char>,
    pub subscription_type: CKSubscriptionType,
    pub notification_info: SubscriptionNotificationView,
}

/// Mirrors `CKSubscription`.
#[derive(Debug, PartialEq, Eq, Hash)]
pub struct CKSubscription {
    subscription_id: String,
    subscription_type: CKSubscriptionType,
    notification_info: CKNotificationInfo,
}

impl View for CKSubscription {
    type V = SubscriptionView;

    closed spec fn view(&self) -> SubscriptionView {
        SubscriptionView {
            subscription_id: self.subscription_id@,
            subscription_type: self.subscription_type,
            notification_info: self.notification_info@,
        }
    }
}

impl Clone for CKSubscription {
    fn clone(&self) -> (r: Self)
        ensures
            r@ == self@,
    {
        CKSubscription {
            subscription_id: self.subscription_id.clone(),
            subscription_type: self.subscription_type,
            notification_info: self.notification_info.clone(),
        }
    }
}

impl CKSubscription {
    /// A subscription of the given kind with default notification settings.
    pub fn new(subscription_id: &str, subscription_type: CKSubscriptionType) -> (r: Self)
        ensures
            r@ == (SubscriptionView {
                subscription_id: subscription_id@,
                subscription_type,
                notification_info: default_subscription_notification_view(),
            }),
    {
        Self { subscription_id: owned(subscription_id), subscription_type, notification_info: CKNotificationInfo::default() }
    }

    /// Mirrors `CKSubscription.subscriptionID`.
    pub fn subscription_id(&self) -> (r: &str)
        ensures
            r@ == self@.subscription_id,
    {
        self.subscription_id.as_str()
    }

    /// Mirrors `CKSubscription.subscriptionType`.
    pub fn subscription_type(&self) -> (r: CKSubscriptionType)
        ensures
            r == self@.subscription_type,
    {
        self.subscription_type
    }

    /// Mirrors `CKSubscription.notificationInfo`.
    pub fn notification_info(&self) -> (r: &CKNotificationInfo)
        ensures
            r@ == self@.notification_info,
    {
        &self.notification_info
    }

    /// The same subscription with other notification settings.
    pub fn with_notification_info(self, notification_info: CKNotificationInfo) -> (r: Self)
        ensures
            r@ == (SubscriptionView { notification_info: notification_info@, ..self@ }),
    {
        Self { subscription_id: self.subscription_id, subscription_type: self.subscription_type, notification_info }
    }
}

/// The abstract content of a query subscription.
pub struct QuerySubscriptionView {
    pub base: SubscriptionView,
    pub record_type: Seq<char>,
    pub predicate_format: Seq<char>,
    pub zone_id: Option<RecordZoneIdView>,
    pub options: u64,
}

/// The view of an optional zone identifier.
pub open spec fn zone_id_option_view(z: Option<CKRecordZoneID>) -> Option<RecordZoneIdView> {
    match z {
        Some(id) => Some(id@),
        None => None,
    }
}

/// Mirrors `CKQuerySubscription`.
#[derive(Debug, PartialEq, Eq, Hash)]
pub struct CKQuerySubscription {
    base: CKSubscription,
    record_type: String,
    predicate_format: String,
    zone_id: Option<CKRecordZoneID>,
    options: QuerySubscriptionOptions,
}

impl View for CKQuerySubscription {
    type V = QuerySubscriptionView;

    closed spec fn view(&self) -> QuerySubscriptionView {
        QuerySubscriptionView {
            base: self.base@,
            record_type: self.record_type@,
            predicate_format: self.predicate_format@,
            zone_id: zone_id_option_view(self.zone_id),
            options: self.options@,
        }
    }
}

impl Clone for CKQuerySubscription {
    fn clone(&self) -> (r: Self)
        ensures
            r@ == self@,
    {
        let zone_id = match &self.zone_id {
            Some(z) => Some(z.clone()),
            None => None,
        };
        CKQuerySubscription {
            base: self.base.clone(),
            record_type: self.record_type.clone(),
            predicate_format: self.predicate_format.clone(),
            zone_id,
            options: self.options,
        }
    }
}

impl CKQuerySubscription {
    /// A query subscription on records of `record_type` that match the predicate,
    /// in every zone, with default notification settings.
    pub fn new(
        record_type: &str,
        predicate_format: &str,
        subscription_id: &str,
        options: QuerySubscriptionOptions,
    ) -> (r: Self)
        ensures
            r@ == (QuerySubscriptionView {
                base: SubscriptionView {
                    subscription_id: subscription_id@,
                    subscription_type: CKSubscriptionType::Query,
                    notification_info: default_subscription_notification_view(),
                },
                record_type: record_type@,
                predicate_format: predicate_format@,
                zone_id: None,
                options: options@,
            }),
    {
        Self {
            base: CKSubscription::new(subscription_id, CKSubscriptionType::Query),
            record_type: owned(record_type),
            predicate_format: owned(predicate_format),
            zone_id: None,
            options,
        }
    }

    /// The subscription fields shared by every kind.
    pub fn base(&self) -> (r: &CKSubscription)
        ensures
            r@ == self@.base,
    {
        &self.base
    }

    /// Mirrors `CKQuerySubscription.recordType`.
    pub fn record_type(&self) -> (r: &str)
        ensures
            r@ == self@.record_type,
    {
        self.record_type.as_str()
    }

    /// Mirrors `CKQuerySubscription.predicate`.
    pub fn predicate_format(&self) -> (r: &str)
        ensures
            r@ == self@.predicate_format,
    {
        self.predicate_format.as_str()
    }

    /// Mirrors `CKQuerySubscription.zoneID`.
    pub fn zone_id(&self) -> (r: Option<&CKRecordZoneID>)
        ensures
            r is Some <==> self@.zone_id is Some,
            r is Some ==> r->0@ == self@.zone_id->0,
    {
        match &self.zone_id {
            Some(z) => Some(z),
            None => None,
        }
    }

    /// Mirrors `CKQuerySubscription.querySubscriptionOptions`.
    pub fn options(&self) -> (r: QuerySubscriptionOptions)
        ensures
            r@ == self@.options,
    {
        self.options
    }

    /// The same subscription restricted to one zone.
    pub fn with_zone_id(self, zone_id: CKRecordZoneID) -> (r: Self)
        ensures
            r@ == (QuerySubscriptionView { zone_id: Some(zone_id@), ..self@ }),
    {
        Self {
            base: self.base,
            record_type: self.record_type,
            predicate_format: self.predicate_format,
            zone_id: Some(zone_id),
            options: self.options,
        }
    }

    /// The same subscription with other notification settings.
    pub fn with_notification_info(self, notification_info: CKNotificationInfo) -> (r: Self)
        ensures
            r@ == (QuerySubscriptionView {
                base: SubscriptionView { notification_info: notification_info@, ..self@.base },
                ..self@
            }),
    {
        Self {
            base: self.base.with_notification_info(notification_info),
            record_type: self.record_type,
            predicate_format: self.predicate_format,
            zone_id: self.zone_id,
            options: self.options,
        }
    }
}

/// The abstract content of a record-zone subscription.
pub struct RecordZoneSubscriptionView {
    pub base: SubscriptionView,
    pub zone_id: RecordZoneIdView,
    pub record_type: Option<Seq<char>>,
}

/// Mirrors `CKRecordZoneSubscription`.
#[derive(Debug, PartialEq, Eq, Hash)]
pub struct CKRecordZoneSubscription {
    base: CKSubscription,
    zone_id: CKRecordZoneID,
    record_type: Option<String>,
}

impl View for CKRecordZoneSubscription {
    type V = RecordZoneSubscriptionView;

    closed spec fn view(&self) -> RecordZoneSubscriptionView {
        RecordZoneSubscriptionView {
            base: self.base@,
            zone_id: self.zone_id@,
            record_type: opt_text_view(self.record_type),
        }
    }
}

impl Clone for CKRecordZoneSubscription {
    fn clone(&self) -> (r: Self)
        ensures
            r@ == self@,
    {
        let record_type = match &self.record_type {
            Some(t) => Some(t.clone()),
            None => None,
        };
        CKRecordZoneSubscription { base: self.base.clone(), zone_id: self.zone_id.clone(), record_type }
    }
}

impl CKRecordZoneSubscription {
    /// A subscription to every change in one zone, with default notification settings.
    pub fn new(zone_id: CKRecordZoneID, subscription_id: &str) -> (r: Self)
        ensures
            r@ == (RecordZoneSubscriptionView {
                base: SubscriptionView {
                    subscription_id: subscription_id@,
                    subscription_type: CKSubscriptionType::RecordZone,
                    notification_info: default_subscription_notification_view(),
                },
                zone_id: zone_id@,
                record_type: None,
            }),
    {
        Self { base: CKSubscription::new(subscription_id, CKSubscriptionType::RecordZone), zone_id, record_type: None }
    }

    /// The subscription fields shared by every kind.
    pub fn base(&self) -> (r: &CKSubscription)
        ensures
            r@ == self@.base,
    {
        &self.base
    }

    /// Mirrors `CKRecordZoneSubscription.zoneID`.
    pub fn zone_id(&self) -> (r: &CKRecordZoneID)
        ensures
            r@ == self@.zone_id,
    {
        &self.zone_id
    }

    /// Mirrors `CKRecordZoneSubscription.recordType`.
    pub fn record_type(&self) -> (r: Option<&str>)
        ensures
            r is Some <==> self@.record_type is Some,
            r is Some ==> r->0@ == self@.record_type->0,
    {
        match &self.record_type {
            Some(t) => Some(t.as_str()),
            None => None,
        }
    }

    /// The same subscription restricted to records of one type.
    pub fn with_record_type(self, record_type: &str) -> (r: Self)
        ensures
            r@ == (RecordZoneSubscriptionView { record_type: Some(record_type@), ..self@ }),
    {
        Self { base: self.base, zone_id: self.zone_id, record_type: Some(owned(record_type)) }
    }

    /// The same subscription with other notification settings.
    pub fn with_notification_info(self, notification_info: CKNotificationInfo) -> (r: Self)
        ensures
            r@ == (RecordZoneSubscriptionView {
                base: SubscriptionView { notification_info: notification_info@, ..self@.base },
                ..self@
            }),
    {
        Self { base: self.base.with_notification_info(notification_info), zone_id: self.zone_id, record_type: self.record_type }
    }
}

// ---------------------------------------------------------------------------
// Database subscriptions and subscriptions of any kind
// ---------------------------------------------------------------------------

/// The abstract content of a database subscription.
pub struct DatabaseSubscriptionView {
    pub base: SubscriptionView,
}

/// Mirrors `CKDatabaseSubscription`.
#[derive(Debug, PartialEq, Eq, Hash)]
pub struct CKDatabaseSubscription {
    base: CKSubscription,
}

impl View for CKDatabaseSubscription {
    type V = DatabaseSubscriptionView;

    closed spec fn view(&self) -> DatabaseSubscriptionView {
        DatabaseSubscriptionView { base: self.base@ }
    }
}

impl Clone for CKDatabaseSubscription {
    fn clone(&self) -> (r: Self)
        ensures
            r@ == self@,
    {
        CKDatabaseSubscription { base: self.base.clone() }
    }
}

impl CKDatabaseSubscription {
    /// A subscription to every change in the database, with default notification settings.
    pub fn new(subscription_id: &str) -> (r: Self)
        ensures
            r@ == (DatabaseSubscriptionView {
                base: SubscriptionView {
                    subscription_id: subscription_id@,
                    subscription_type: CKSubscriptionType::Database,
                    notification_info: default_subscription_notification_view(),
                },
            }),
    {
        Self { base: CKSubscription::new(subscription_id, CKSubscriptionType::Database) }
    }

    /// The subscription fields shared by every kind.
    pub fn base(&self) -> (r: &CKSubscription)
        ensures
            r@ == self@.base,
    {
        &self.base
    }

    /// The same subscription with other notification settings.
    pub fn with_notification_info(self, notification_info: CKNotificationInfo) -> (r: Self)
        ensures
            r@ == (DatabaseSubscriptionView { base: SubscriptionView { notification_info: notification_info@, ..self@.base } }),
    {
        Self { base: self.base.with_notification_info(notification_info) }
    }
}

/// The abstract content of a subscription of any kind.
pub enum AnySubscriptionView {
    Query(QuerySubscriptionView),
    RecordZone(RecordZoneSubscriptionView),
    Database(DatabaseSubscriptionView),
}

impl AnySubscriptionView {
    /// The fields shared by every kind.
    pub open spec fn base(self) -> SubscriptionView {
        match self {
            AnySubscriptionView::Query(q) => q.base,
            AnySubscriptionView::RecordZone(z) => z.base,
            AnySubscriptionView::Database(d) => d.base,
        }
    }

    /// The identifier of the subscription.
    pub open spec fn subscription_id(self) -> Seq<char> {
        self.base().subscription_id
    }
}

/// A subscription of any kind, as the database stores and returns it.
#[derive(Debug, PartialEq, Eq, Hash)]
pub enum CKAnySubscription {
    Query(CKQuerySubscription),
    RecordZone(CKRecordZoneSubscription),
    Database(CKDatabaseSubscription),
}

impl View for CKAnySubscription {
    type V = AnySubscriptionView;

    open spec fn view(&self) -> AnySubscriptionView {
        match self {
            CKAnySubscription::Query(q) => AnySubscriptionView::Query(q@),
            CKAnySubscription::RecordZone(z) => AnySubscriptionView::RecordZone(z@),
            CKAnySubscription::Database(d) => AnySubscriptionView::Database(d@),
        }
    }
}

impl Clone for CKAnySubscription {
    fn clone(&self) -> (r: Self)
        ensures
            r@ == self@,
    {
        match self {
            CKAnySubscription::Query(q) => CKAnySubscription::Query(q.clone()),
            CKAnySubscription::RecordZone(z) => CKAnySubscription::RecordZone(z.clone()),
            CKAnySubscription::Database(d) => CKAnySubscription::Database(d.clone()),
        }
    }
}

impl From<CKQuerySubscription> for CKAnySubscription {
    fn from(subscription: CKQuerySubscription) -> (r: Self)
        ensures
            r@ == AnySubscriptionView::Query(subscription@),
    {
        CKAnySubscription::Query(subscription)
    }
}

impl vstd::std_specs::convert::FromSpecImpl<CKQuerySubscription> for CKAnySubscription {
    open spec fn obeys_from_spec() -> bool {
        true
    }

    open spec fn from_spec(subscription: CKQuerySubscription) -> Self {
        CKAnySubscription::Query(subscription)
    }
}

impl From<CKRecordZoneSubscription> for CKAnySubscription {
    fn from(subscription: CKRecordZoneSubscription) -> (r: Self)
        ensures
            r@ == AnySubscriptionView::RecordZone(subscription@),
    {
        CKAnySubscription::RecordZone(subscription)
    }
}

impl vstd::std_specs::convert::FromSpecImpl<CKRecordZoneSubscription> for CKAnySubscription {
    open spec fn obeys_from_spec() -> bool {
        true
    }

    open spec fn from_spec(subscription: CKRecordZoneSubscription) -> Self {
        CKAnySubscription::RecordZone(subscription)
    }
}

impl From<CKDatabaseSubscription> for CKAnySubscription {
    fn from(subscription: CKDatabaseSubscription) -> (r: Self)
        ensures
            r@ == AnySubscriptionView::Database(subscription@),
    {
        CKAnySubscription::Database(subscription)
    }
}

impl vstd::std_specs::convert::FromSpecImpl<CKDatabaseSubscription> for CKAnySubscription {
    open spec fn obeys_from_spec() -> bool {
        true
    }

    open spec fn from_spec(subscription: CKDatabaseSubscription) -> Self {
        CKAnySubscription::Database(subscription)
    }
}

/// The zone identifier payload of an optional zone identifier view.
pub open spec fn zone_id_payload_option_view(p: Option<CKRecordZoneIDPayload>) -> Option<RecordZoneIdView> {
    match p {
        Some(z) => Some(zone_id_payload_view(z)),
        None => None,
    }
}

/// What `CKAnySubscription::to_payload` gives: the kind, the identifier, the
/// raw subscription type and the notification settings, and the fields of the
/// kind (record type, predicate, zone and options for a query subscription;
/// zone and optional record type for a zone subscription; nothing more for a
/// database subscription).
pub open spec fn subscription_payload_matches(v: AnySubscriptionView, p: CKSubscriptionPayload) -> bool {
    &&& p.subscription_id@ == v.subscription_id()
    &&& p.subscription_type == subscription_type_to_raw(v.base().subscription_type)
    &&& p.notification_info matches Some(n)
    &&& notification_info_payload_view(p.notification_info->0) == subscription_notification_payload_view(v.base().notification_info)
    &&& match v {
        AnySubscriptionView::Query(q) => {
            &&& p.kind == CKSubscriptionPayloadKind::Query
            &&& opt_text_view(p.record_type) == Some(q.record_type)
            &&& opt_text_view(p.predicate_format) == Some(q.predicate_format)
            &&& zone_id_payload_option_view(p.zone_id) == q.zone_id
            &&& p.query_subscription_options == Some(q.options)
        },
        AnySubscriptionView::RecordZone(z) => {
            &&& p.kind == CKSubscriptionPayloadKind::RecordZone
            &&& opt_text_view(p.record_type) == z.record_type
            &&& p.predicate_format is None
            &&& zone_id_payload_option_view(p.zone_id) == Some(z.zone_id)
            &&& p.query_subscription_options is None
        },
        AnySubscriptionView::Database(_) => {
            &&& p.kind == CKSubscriptionPayloadKind::Database
            &&& p.record_type is None
            &&& p.predicate_format is None
            &&& p.zone_id is None
            &&& p.query_subscription_options is None
        },
    }
}

/// The text of an optional payload string, empty when absent.
pub open spec fn text_or_empty(s: Option<String>) -> Seq<char> {
    match s {
        Some(t) => t@,
        None => Seq::empty(),
    }
}

/// The subscription that a bridge payload stands for: the kind decides the
/// variant and its subscription type; absent settings are the defaults, an
/// absent record type or predicate is empty, absent options are none, and a
/// zone subscription without a zone is on the default zone.
pub open spec fn subscription_from_payload_view(p: CKSubscriptionPayload) -> AnySubscriptionView {
    let notification_info = match p.notification_info {
        Some(n) => subscription_notification_from_payload_view(n),
        None => default_subscription_notification_view(),
    };
    match p.kind {
        CKSubscriptionPayloadKind::Query => AnySubscriptionView::Query(
            QuerySubscriptionView {
                base: SubscriptionView {
                    subscription_id: p.subscription_id@,
                    subscription_type: CKSubscriptionType::Query,
                    notification_info,
                },
                record_type: text_or_empty(p.record_type),
                predicate_format: text_or_empty(p.predicate_format),
                zone_id: zone_id_payload_option_view(p.zone_id),
                options: match p.query_subscription_options {
                    Some(bits) => bits,
                    None => 0,
                },
            },
        ),
        CKSubscriptionPayloadKind::RecordZone => AnySubscriptionView::RecordZone(
            RecordZoneSubscriptionView {
                base: SubscriptionView {
                    subscription_id: p.subscription_id@,
                    subscription_type: CKSubscriptionType::RecordZone,
                    notification_info,
                },
                zone_id: match p.zone_id {
                    Some(z) => zone_id_payload_view(z),
                    None => default_zone_id_view(),
                },
                record_type: opt_text_view(p.record_type),
            },
        ),
        CKSubscriptionPayloadKind::Database => AnySubscriptionView::Database(
            DatabaseSubscriptionView {
                base: SubscriptionView {
                    subscription_id: p.subscription_id@,
                    subscription_type: CKSubscriptionType::Database,
                    notification_info,
                },
            },
        ),
    }
}

fn text_or_empty_owned(s: Option<String>) -> (r: String)
    ensures
        r@ == text_or_empty(s),
{
    match s {
        Some(t) => t,
        None => String::new(),
    }
}

fn settings_from_payload(p: Option<CKNotificationInfoPayload>) -> (r: CKNotificationInfo)
    ensures
        r@ == match p {
            Some(n) => subscription_notification_from_payload_view(n),
            None => default_subscription_notification_view(),
        },
{
    match p {
        Some(n) => CKNotificationInfo::from_payload(n),
        None => CKNotificationInfo::new(),
    }
}

impl CKAnySubscription {
    /// Mirrors `CKSubscription.subscriptionID`.
    pub fn subscription_id(&self) -> (r: &str)
        ensures
            r@ == self@.subscription_id(),
    {
        match self {
            CKAnySubscription::Query(q) => q.base().subscription_id(),
            CKAnySubscription::RecordZone(z) => z.base().subscription_id(),
            CKAnySubscription::Database(d) => d.base().subscription_id(),
        }
    }

    /// The fields shared by every kind.
    pub fn base(&self) -> (r: &CKSubscription)
        ensures
            r@ == self@.base(),
    {
        match self {
            CKAnySubscription::Query(q) => q.base(),
            CKAnySubscription::RecordZone(z) => z.base(),
            CKAnySubscription::Database(d) => d.base(),
        }
    }

    /// The bridge payload of the subscription.
    pub fn to_payload(&self) -> (r: CKSubscriptionPayload)
        ensures
            subscription_payload_matches(self@, r),
    {
        let base = self.base();
        let subscription_id = base.subscription_id.clone();
        let subscription_type = base.subscription_type.to_raw();
        let notification_info = Some(base.notification_info.to_payload());
        match self {
            CKAnySubscription::Query(q) => CKSubscriptionPayload {
                kind: CKSubscriptionPayloadKind::Query,
                subscription_id,
                subscription_type,
                notification_info,
                record_type: Some(q.record_type.clone()),
                predicate_format: Some(q.predicate_format.clone()),
                zone_id: match &q.zone_id {
                    Some(z) => Some(z.to_payload()),
                    None => None,
                },
                query_subscription_options: Some(q.options.bits()),
            },
            CKAnySubscription::RecordZone(z) => CKSubscriptionPayload {
                kind: CKSubscriptionPayloadKind::RecordZone,
                subscription_id,
                subscription_type,
                notification_info,
                record_type: copy_opt_text(&z.record_type),
                predicate_format: None,
                zone_id: Some(z.zone_id.to_payload()),
                query_subscription_options: None,
            },
            CKAnySubscription::Database(_) => CKSubscriptionPayload {
                kind: CKSubscriptionPayloadKind::Database,
                subscription_id,
                subscription_type,
                notification_info,
                record_type: None,
                predicate_format: None,
                zone_id: None,
                query_subscription_options: None,
            },
        }
    }

    /// The subscription that a bridge payload stands for.
    pub fn from_payload(payload: CKSubscriptionPayload) -> (r: Self)
        ensures
            r@ == subscription_from_payload_view(payload),
    {
        let CKSubscriptionPayload {
            kind,
            subscription_id,
            subscription_type: _,
            notification_info,
            record_type,
            predicate_format,
            zone_id,
            query_subscription_options,
        } = payload;
        let notification_info = settings_from_payload(notification_info);
        match kind {
            CKSubscriptionPayloadKind::Query => CKAnySubscription::Query(CKQuerySubscription {
                base: CKSubscription { subscription_id, subscription_type: CKSubscriptionType::Query, notification_info },
                record_type: text_or_empty_owned(record_type),
                predicate_format: text_or_empty_owned(predicate_format),
                zone_id: match zone_id {
                    Some(z) => Some(CKRecordZoneID::from_payload(z)),
                    None => None,
                },
                options: QuerySubscriptionOptions(match query_subscription_options {
                    Some(bits) => bits,
                    None => 0,
                }),
            }),
            CKSubscriptionPayloadKind::RecordZone => CKAnySubscription::RecordZone(CKRecordZoneSubscription {
                base: CKSubscription { subscription_id, subscription_type: CKSubscriptionType::RecordZone, notification_info },
                zone_id: match zone_id {
                    Some(z) => CKRecordZoneID::from_payload(z),
                    None => CKRecordZoneID::default_zone(),
                },
                record_type,
            }),
            CKSubscriptionPayloadKind::Database => CKAnySubscription::Database(CKDatabaseSubscription {
                base: CKSubscription { subscription_id, subscription_type: CKSubscriptionType::Database, notification_info },
            }),
        }
    }
}

/// A subscription read back from its own payload is the same subscription.
pub proof fn lemma_subscription_payload_round_trip(v: AnySubscriptionView, p: CKSubscriptionPayload)
    requires
        subscription_payload_matches(v, p),
        v.base().subscription_type == match v {
            AnySubscriptionView::Query(_) => CKSubscriptionType::Query,
            AnySubscriptionView::RecordZone(_) => CKSubscriptionType::RecordZone,
            AnySubscriptionView::Database(_) => CKSubscriptionType::Database,
        },
    ensures
        subscription_from_payload_view(p) == v,
{
}

} // verus!
