//! Operation plumbing: configurations, groups, operations and database
//! operations, with the identifiers they are given.
//!
//! Timeouts are `f64` seconds in the framework; here they travel as their
//! IEEE-754 bit patterns. Fresh operation and group identifiers come from a
//! process-wide counter outside this crate and are handed in.
use vstd::prelude::*;

use crate::copying::{copy_all, copy_option, option_view, CopyView};

use crate::container::{CKContainer, CKDatabase, DatabaseView};
use crate::error::{float_bits_eq, float_bits_equal, CloudKitError, ErrorView};
use crate::record::{CKRecordZone, CKRecordZoneID, RecordZoneIdView, RecordZoneView};
use crate::share::{
    participant_option_view, CKShare, CKShareMetadata, CKShareParticipant, ParticipantView,
    ShareMetadataView, ShareView,
};
use crate::subscription::{AnySubscriptionView, CKAnySubscription};
use crate::sync_engine::{error_option_view, views_of};
use crate::user_identity::{CKUserIdentityLookupInfo, LookupInfoView};
use crate::text::{append_digits, append_text, text_eq, decimal_text, opt_text_view, opt_texts_view, owned, texts_view};

verus! {

/// Bit pattern of `60.0`, the default request timeout in seconds.
pub const DEFAULT_REQUEST_TIMEOUT_BITS: u64 = 0x404e000000000000;
/// Bit pattern of `604800.0` (one week), the default resource timeout in seconds.
pub const DEFAULT_RESOURCE_TIMEOUT_BITS: u64 = 0x4122750000000000;

/// The identifier `"{prefix}-{n}"` that the `n`-th fresh identifier with this prefix gets.
pub open spec fn numbered_identifier(prefix: Seq<char>, n: u64) -> Seq<char> {
    prefix + "-"@ + decimal_text(n as int)
}

/// Builds the identifier `"{prefix}-{n}"`.
pub fn numbered_identifier_text(prefix: &str, n: u64) -> (r: String)
    ensures
        r@ == numbered_identifier(prefix@, n),
{
    let mut out = owned(prefix);
    append_text(&mut out, "-");
    append_digits(&mut out, n);
    out
}

/// Mirrors `CKOperation.QualityOfService`.
#[derive(Debug, Clone, Copy, PartialEq, Eq, Hash, Structural)]
pub enum CKQualityOfService {
    UserInteractive,
    UserInitiated,
    Default,
    Utility,
    Background,
}

/// The abstract content of an operation configuration.
pub struct ConfigurationView {
    pub container: Option<Option<Seq<char>>>,
    pub quality_of_service: CKQualityOfService,
    pub allows_cellular_access: bool,
    pub long_lived: bool,
    pub timeout_interval_for_request: u64,
    pub timeout_interval_for_resource: u64,
}

/// A fresh configuration: no container, default service quality, cellular
/// access allowed, not long-lived, a one-minute request and one-week resource timeout.
pub open spec fn default_configuration_view() -> ConfigurationView {
    ConfigurationView {
        container: None,
        quality_of_service: CKQualityOfService::Default,
        allows_cellular_access: true,
        long_lived: false,
        timeout_interval_for_request: DEFAULT_REQUEST_TIMEOUT_BITS,
        timeout_interval_for_resource: DEFAULT_RESOURCE_TIMEOUT_BITS,
    }
}

/// Mirrors `CKOperation.Configuration`.
#[derive(Debug)]
pub struct CKOperationConfiguration {
    container: Option<CKContainer>,
    quality_of_service: CKQualityOfService,
    allows_cellular_access: bool,
    long_lived: bool,
    timeout_interval_for_request: u64,
    timeout_interval_for_resource: u64,
}

pub open spec fn container_option_view(c: Option<CKContainer>) -> Option<Option<Seq<char>>> {
    match c {
        Some(x) => Some(x@),
        None => None,
    }
}

fn same_container(a: &Option<CKContainer>, b: &Option<CKContainer>) -> (r: bool)
    ensures
        r == (container_option_view(*a) == container_option_view(*b)),
{
    match (a, b) {
        (Some(x), Some(y)) => match (x.container_identifier(), y.container_identifier()) {
            (Some(p), Some(q)) => text_eq(p, q),
            (None, None) => true,
            _ => false,
        },
        (None, None) => true,
        _ => false,
    }
}

impl PartialEq for CKOperationConfiguration {
    fn eq(&self, other: &Self) -> (r: bool) {
        same_container(&self.container, &other.container)
            && self.quality_of_service == other.quality_of_service
            && self.allows_cellular_access == other.allows_cellular_access
            && self.long_lived == other.long_lived
            && float_bits_equal(self.timeout_interval_for_request, other.timeout_interval_for_request)
            && float_bits_equal(self.timeout_interval_for_resource, other.timeout_interval_for_resource)
    }
}

impl vstd::std_specs::cmp::PartialEqSpecImpl for CKOperationConfiguration {
    open spec fn obeys_eq_spec() -> bool {
        true
    }

    /// Equal as the framework's configurations compare: the same container,
    /// service level and flags, and timeouts equal as `f64` values.
    open spec fn eq_spec(&self, other: &Self) -> bool {
        &&& self@.container == other@.container
        &&& self@.quality_of_service == other@.quality_of_service
        &&& self@.allows_cellular_access == other@.allows_cellular_access
        &&& self@.long_lived == other@.long_lived
        &&& float_bits_eq(self@.timeout_interval_for_request, other@.timeout_interval_for_request)
        &&& float_bits_eq(self@.timeout_interval_for_resource, other@.timeout_interval_for_resource)
    }
}

impl View for CKOperationConfiguration {
    type V = ConfigurationView;

    closed spec fn view(&self) -> ConfigurationView {
        ConfigurationView {
            container: container_option_view(self.container),
            quality_of_service: self.quality_of_service,
            allows_cellular_access: self.allows_cellular_access,
            long_lived: self.long_lived,
            timeout_interval_for_request: self.timeout_interval_for_request,
            timeout_interval_for_resource: self.timeout_interval_for_resource,
        }
    }
}

impl Clone for CKOperationConfiguration {
    fn clone(&self) -> (r: Self)
        ensures
            r@ == self@,
    {
        let container = match &self.container {
            Some(c) => Some(c.clone()),
            None => None,
        };
        CKOperationConfiguration {
            container,
            quality_of_service: self.quality_of_service,
            allows_cellular_access: self.allows_cellular_access,
            long_lived: self.long_lived,
            timeout_interval_for_request: self.timeout_interval_for_request,
            timeout_interval_for_resource: self.timeout_interval_for_resource,
        }
    }
}

impl Default for CKOperationConfiguration {
    fn default() -> (r: Self)
        ensures
            r@ == default_configuration_view(),
    {
        Self::new()
    }
}

impl CKOperationConfiguration {
    /// A fresh configuration with the framework's defaults.
    pub fn new() -> (r: Self)
        ensures
            r@ == default_configuration_view(),
    {
        Self {
            container: None,
            quality_of_service: CKQualityOfService::Default,
            allows_cellular_access: true,
            long_lived: false,
            timeout_interval_for_request: DEFAULT_REQUEST_TIMEOUT_BITS,
            timeout_interval_for_resource: DEFAULT_RESOURCE_TIMEOUT_BITS,
        }
    }

    /// Mirrors `container`.
    pub fn container(&self) -> (r: Option<&CKContainer>)
        ensures
            r is Some <==> self@.container is Some,
            r is Some ==> r->0@ == self@.container->0,
    {
        match &self.container {
            Some(c) => Some(c),
            None => None,
        }
    }

    /// Mirrors `qualityOfService`.
    pub fn quality_of_service(&self) -> (r: CKQualityOfService)
        ensures
            r == self@.quality_of_service,
    {
        self.quality_of_service
    }

    /// Mirrors `allowsCellularAccess`.
    pub fn allows_cellular_access(&self) -> (r: bool)
        ensures
            r == self@.allows_cellular_access,
    {
        self.allows_cellular_access
    }

    /// Mirrors `isLongLived`.
    pub fn long_lived(&self) -> (r: bool)
        ensures
            r == self@.long_lived,
    {
        self.long_lived
    }

    /// Mirrors `timeoutIntervalForRequest`, as the bit pattern of the seconds.
    pub fn timeout_interval_for_request(&self) -> (r: u64)
        ensures
            r == self@.timeout_interval_for_request,
    {
        self.timeout_interval_for_request
    }

    /// Mirrors `timeoutIntervalForResource`, as the bit pattern of the seconds.
    pub fn timeout_interval_for_resource(&self) -> (r: u64)
        ensures
            r == self@.timeout_interval_for_resource,
    {
        self.timeout_interval_for_resource
    }

    /// The same configuration with the container set.
    pub fn with_container(self, container: CKContainer) -> (r: Self)
        ensures
            r@ == (ConfigurationView { container: Some(container@), ..self@ }),
    {
        Self { container: Some(container), ..self }
    }

    /// The same configuration with another quality of service.
    pub fn with_quality_of_service(self, quality_of_service: CKQualityOfService) -> (r: Self)
        ensures
            r@ == (ConfigurationView { quality_of_service, ..self@ }),
    {
        Self { quality_of_service, ..self }
    }

    /// The same configuration with cellular access allowed or not.
    pub fn with_allows_cellular_access(self, allows_cellular_access: bool) -> (r: Self)
        ensures
            r@ == (ConfigurationView { allows_cellular_access, ..self@ }),
    {
        Self { allows_cellular_access, ..self }
    }

    /// The same configuration, long-lived or not.
    pub fn with_long_lived(self, long_lived: bool) -> (r: Self)
        ensures
            r@ == (ConfigurationView { long_lived, ..self@ }),
    {
        Self { long_lived, ..self }
    }

    /// The same configuration with another request timeout (bit pattern of the seconds).
    pub fn with_timeout_interval_for_request(self, timeout_interval_for_request: u64) -> (r: Self)
        ensures
            r@ == (ConfigurationView { timeout_interval_for_request, ..self@ }),
    {
        Self { timeout_interval_for_request, ..self }
    }

    /// The same configuration with another resource timeout (bit pattern of the seconds).
    pub fn with_timeout_interval_for_resource(self, timeout_interval_for_resource: u64) -> (r: Self)
        ensures
            r@ == (ConfigurationView { timeout_interval_for_resource, ..self@ }),
    {
        Self { timeout_interval_for_resource, ..self }
    }
}

/// Mirrors `CKOperationGroup.TransferSize`.
#[derive(Debug, Clone, Copy, PartialEq, Eq, Hash, Structural)]
pub enum CKOperationGroupTransferSize {
    Unknown,
    Kilobytes,
    Megabytes,
    TensOfMegabytes,
    HundredsOfMegabytes,
    Gigabytes,
    TensOfGigabytes,
    HundredsOfGigabytes,
}

/// The abstract content of an operation group.
pub struct OperationGroupView {
    pub operation_group_id: Seq<char>,
    pub default_configuration: ConfigurationView,
    pub name: Option<Seq<char>>,
    pub quantity: usize,
    pub expected_send_size: CKOperationGroupTransferSize,
    pub expected_receive_size: CKOperationGroupTransferSize,
}

/// A fresh group with the given identifier: default configuration, no name,
/// no quantity and unknown transfer sizes.
pub open spec fn fresh_group_view(operation_group_id: Seq<char>) -> OperationGroupView {
    OperationGroupView {
        operation_group_id,
        default_configuration: default_configuration_view(),
        name: None,
        quantity: 0,
        expected_send_size: CKOperationGroupTransferSize::Unknown,
        expected_receive_size: CKOperationGroupTransferSize::Unknown,
    }
}

/// Mirrors `CKOperationGroup`.
#[derive(Debug, PartialEq)]
pub struct CKOperationGroup {
    operation_group_id: String,
    default_configuration: CKOperationConfiguration,
    name: Option<String>,
    quantity: usize,
    expected_send_size: CKOperationGroupTransferSize,
    expected_receive_size: CKOperationGroupTransferSize,
}

impl View for CKOperationGroup {
    type V = OperationGroupView;

    closed spec fn view(&self) -> OperationGroupView {
        OperationGroupView {
            operation_group_id: self.operation_group_id@,
            default_configuration: self.default_configuration@,
            name: opt_text_view(self.name),
            quantity: self.quantity,
            expected_send_size: self.expected_send_size,
            expected_receive_size: self.expected_receive_size,
        }
    }
}

impl Clone for CKOperationGroup {
    fn clone(&self) -> (r: Self)
        ensures
            r@ == self@,
    {
        let name = match &self.name {
            Some(t) => Some(t.clone()),
            None => None,
        };
        CKOperationGroup {
            operation_group_id: self.operation_group_id.clone(),
            default_configuration: self.default_configuration.clone(),
            name,
            quantity: self.quantity,
            expected_send_size: self.expected_send_size,
            expected_receive_size: self.expected_receive_size,
        }
    }
}

impl CKOperationGroup {
    /// A fresh group carrying the given identifier.
    pub fn with_identifier(operation_group_id: &str) -> (r: Self)
        ensures
            r@ == fresh_group_view(operation_group_id@),
    {
        Self {
            operation_group_id: owned(operation_group_id),
            default_configuration: CKOperationConfiguration::default(),
            name: None,
            quantity: 0,
            expected_send_size: CKOperationGroupTransferSize::Unknown,
            expected_receive_size: CKOperationGroupTransferSize::Unknown,
        }
    }

    /// Mirrors `operationGroupID`.
    pub fn operation_group_id(&self) -> (r: &str)
        ensures
            r@ == self@.operation_group_id,
    {
        self.operation_group_id.as_str()
    }

    /// Mirrors `defaultConfiguration`.
    pub fn default_configuration(&self) -> (r: &CKOperationConfiguration)
        ensures
            r@ == self@.default_configuration,
    {
        &self.default_configuration
    }

    /// Mirrors `name`.
    pub fn name(&self) -> (r: Option<&str>)
        ensures
            r is Some <==> self@.name is Some,
            r is Some ==> r->0@ == self@.name->0,
    {
        match &self.name {
            Some(t) => Some(t.as_str()),
            None => None,
        }
    }

    /// Mirrors `quantity`.
    pub fn quantity(&self) -> (r: usize)
        ensures
            r == self@.quantity,
    {
        self.quantity
    }

    /// Mirrors `expectedSendSize`.
    pub fn expected_send_size(&self) -> (r: CKOperationGroupTransferSize)
        ensures
            r == self@.expected_send_size,
    {
        self.expected_send_size
    }

    /// Mirrors `expectedReceiveSize`.
    pub fn expected_receive_size(&self) -> (r: CKOperationGroupTransferSize)
        ensures
            r == self@.expected_receive_size,
    {
        self.expected_receive_size
    }

    /// The same group with another default configuration.
    pub fn with_default_configuration(self, default_configuration: CKOperationConfiguration) -> (r: Self)
        ensures
            r@ == (OperationGroupView { default_configuration: default_configuration@, ..self@ }),
    {
        Self { default_configuration, ..self }
    }

    /// The same group with a name.
    pub fn with_name(self, name: &str) -> (r: Self)
        ensures
            r@ == (OperationGroupView { name: Some(name@), ..self@ }),
    {
        Self { name: Some(owned(name)), ..self }
    }

    /// The same group with another quantity.
    pub fn with_quantity(self, quantity: usize) -> (r: Self)
        ensures
            r@ == (OperationGroupView { quantity, ..self@ }),
    {
        Self { quantity, ..self }
    }

    /// The same group with another expected send size.
    pub fn with_expected_send_size(self, expected_send_size: CKOperationGroupTransferSize) -> (r: Self)
        ensures
            r@ == (OperationGroupView { expected_send_size, ..self@ }),
    {
        Self { expected_send_size, ..self }
    }

    /// The same group with another expected receive size.
    pub fn with_expected_receive_size(self, expected_receive_size: CKOperationGroupTransferSize) -> (r: Self)
        ensures
            r@ == (OperationGroupView { expected_receive_size, ..self@ }),
    {
        Self { expected_receive_size, ..self }
    }
}

/// The abstract content of an operation.
pub struct OperationView {
    pub configuration: ConfigurationView,
    pub group: Option<OperationGroupView>,
    pub operation_id: Seq<char>,
    pub long_lived_operation_was_persisted: bool,
}

/// A fresh operation with the given identifier: default configuration, no group, not persisted.
pub open spec fn fresh_operation_view(operation_id: Seq<char>) -> OperationView {
    OperationView {
        configuration: default_configuration_view(),
        group: None,
        operation_id,
        long_lived_operation_was_persisted: false,
    }
}

pub open spec fn group_option_view(g: Option<CKOperationGroup>) -> Option<OperationGroupView> {
    match g {
        Some(x) => Some(x@),
        None => None,
    }
}

/// Mirrors `CKOperation`.
#[derive(Debug, PartialEq)]
pub struct CKOperation {
    configuration: CKOperationConfiguration,
    group: Option<CKOperationGroup>,
    operation_id: String,
    long_lived_operation_was_persisted: bool,
}

impl View for CKOperation {
    type V = OperationView;

    closed spec fn view(&self) -> OperationView {
        OperationView {
            configuration: self.configuration@,
            group: group_option_view(self.group),
            operation_id: self.operation_id@,
            long_lived_operation_was_persisted: self.long_lived_operation_was_persisted,
        }
    }
}

/// Copies an optional operation group.
pub fn copy_group_option(g: &Option<CKOperationGroup>) -> (r: Option<CKOperationGroup>)
    ensures
        group_option_view(r) == group_option_view(*g),
{
    match g {
        Some(x) => Some(x.clone()),
        None => None,
    }
}

impl Clone for CKOperation {
    fn clone(&self) -> (r: Self)
        ensures
            r@ == self@,
    {
        CKOperation {
            configuration: self.configuration.clone(),
            group: copy_group_option(&self.group),
            operation_id: self.operation_id.clone(),
            long_lived_operation_was_persisted: self.long_lived_operation_was_persisted,
        }
    }
}

impl CKOperation {
    /// A fresh operation carrying the given identifier.
    pub fn with_identifier(operation_id: &str) -> (r: Self)
        ensures
            r@ == fresh_operation_view(operation_id@),
    {
        Self {
            configuration: CKOperationConfiguration::default(),
            group: None,
            operation_id: owned(operation_id),
            long_lived_operation_was_persisted: false,
        }
    }

    /// Mirrors `configuration`.
    pub fn configuration(&self) -> (r: &CKOperationConfiguration)
        ensures
            r@ == self@.configuration,
    {
        &self.configuration
    }

    /// Mirrors `group`.
    pub fn group(&self) -> (r: Option<&CKOperationGroup>)
        ensures
            r is Some <==> self@.group is Some,
            r is Some ==> r->0@ == self@.group->0,
    {
        match &self.group {
            Some(g) => Some(g),
            None => None,
        }
    }

    /// Mirrors `operationID`.
    pub fn operation_id(&self) -> (r: &str)
        ensures
            r@ == self@.operation_id,
    {
        self.operation_id.as_str()
    }

    /// Mirrors `longLivedOperationWasPersistedBlock` having run.
    pub fn long_lived_operation_was_persisted(&self) -> (r: bool)
        ensures
            r == self@.long_lived_operation_was_persisted,
    {
        self.long_lived_operation_was_persisted
    }

    /// The same operation with another configuration.
    pub fn with_configuration(self, configuration: CKOperationConfiguration) -> (r: Self)
        ensures
            r@ == (OperationView { configuration: configuration@, ..self@ }),
    {
        Self { configuration, ..self }
    }

    /// The same operation in a group.
    pub fn with_group(self, group: CKOperationGroup) -> (r: Self)
        ensures
            r@ == (OperationView { group: Some(group@), ..self@ }),
    {
        Self { group: Some(group), ..self }
    }

    /// Records that the long-lived operation was persisted.
    pub fn mark_long_lived_operation_was_persisted(&mut self)
        ensures
            final(self)@ == (OperationView { long_lived_operation_was_persisted: true, ..old(self)@ }),
    {
        self.long_lived_operation_was_persisted = true;
    }
}

/// The abstract content of a database operation.
pub struct DatabaseOperationView {
    pub operation: OperationView,
    pub database: Option<DatabaseView>,
}

pub open spec fn database_option_view(d: Option<CKDatabase>) -> Option<DatabaseView> {
    match d {
        Some(x) => Some(x@),
        None => None,
    }
}

/// Mirrors `CKDatabaseOperation`.
#[derive(Debug, PartialEq)]
pub struct CKDatabaseOperation {
    operation: CKOperation,
    database: Option<CKDatabase>,
}

impl View for CKDatabaseOperation {
    type V = DatabaseOperationView;

    closed spec fn view(&self) -> DatabaseOperationView {
        DatabaseOperationView { operation: self.operation@, database: database_option_view(self.database) }
    }
}

impl Clone for CKDatabaseOperation {
    fn clone(&self) -> (r: Self)
        ensures
            r@ == self@,
    {
        let database = match &self.database {
            Some(d) => Some(d.clone()),
            None => None,
        };
        CKDatabaseOperation { operation: self.operation.clone(), database }
    }
}

impl CKDatabaseOperation {
    /// A database operation around a fresh operation with the given identifier, with no database.
    pub fn with_identifier(operation_id: &str) -> (r: Self)
        ensures
            r@ == (DatabaseOperationView { operation: fresh_operation_view(operation_id@), database: None }),
    {
        Self { operation: CKOperation::with_identifier(operation_id), database: None }
    }

    /// The underlying operation.
    pub fn operation(&self) -> (r: &CKOperation)
        ensures
            r@ == self@.operation,
    {
        &self.operation
    }

    /// Mirrors `database`.
    pub fn database(&self) -> (r: Option<&CKDatabase>)
        ensures
            r is Some <==> self@.database is Some,
            r is Some ==> r->0@ == self@.database->0,
    {
        match &self.database {
            Some(d) => Some(d),
            None => None,
        }
    }

    /// The same database operation around another operation.
    pub fn with_operation(self, operation: CKOperation) -> (r: Self)
        ensures
            r@ == (DatabaseOperationView { operation: operation@, ..self@ }),
    {
        Self { operation, ..self }
    }

    /// The same database operation aimed at `database`; the operation's
    /// configuration takes the database's container.
    pub fn with_database(self, database: CKDatabase) -> (r: Self)
        ensures
            r@ == (DatabaseOperationView {
                operation: OperationView {
                    configuration: ConfigurationView {
                        container: Some(database@.container),
                        ..self@.operation.configuration
                    },
                    ..self@.operation
                },
                database: Some(database@),
            }),
    {
        let configuration = self.operation.configuration().clone().with_container(database.container().clone());
        let operation = self.operation.with_configuration(configuration);
        Self { operation, database: Some(database) }
    }
}

// ---------------------------------------------------------------------------
// Record-zone operations
// ---------------------------------------------------------------------------

/// The abstract content of a per-zone outcome.
pub struct ZoneOutcomeView {
    pub zone_id: RecordZoneIdView,
    pub record_zone: Option<RecordZoneView>,
    pub error: Option<ErrorView>,
}

pub open spec fn zone_option_view(z: Option<CKRecordZone>) -> Option<RecordZoneView> {
    match z {
        Some(x) => Some(x@),
        None => None,
    }
}

/// The outcome of fetching one zone.
#[derive(Debug, PartialEq)]
pub struct CKRecordZoneFetchResult {
    pub zone_id: CKRecordZoneID,
    pub record_zone: Option<CKRecordZone>,
    pub error: Option<CloudKitError>,
}

impl Clone for CKRecordZoneFetchResult {
    fn clone(&self) -> (r: Self)
        ensures
            r@ == self@,
    {
        CKRecordZoneFetchResult {
            zone_id: self.zone_id.copy_view(),
            record_zone: copy_option(&self.record_zone),
            error: copy_option(&self.error),
        }
    }
}


impl View for CKRecordZoneFetchResult {
    type V = ZoneOutcomeView;

    open spec fn view(&self) -> ZoneOutcomeView {
        ZoneOutcomeView { zone_id: self.zone_id@, record_zone: zone_option_view(self.record_zone), error: error_option_view(self.error) }
    }
}

/// The outcome of a fetch-record-zones operation.
#[derive(Debug, PartialEq)]
pub struct CKFetchRecordZonesResult {
    pub record_zones: Vec<CKRecordZone>,
    pub results: Vec<CKRecordZoneFetchResult>,
    pub operation_error: Option<CloudKitError>,
}

impl Clone for CKFetchRecordZonesResult {
    fn clone(&self) -> (r: Self)
        ensures
            views_of(r.record_zones@) == views_of(self.record_zones@),
            views_of(r.results@) == views_of(self.results@),
            option_view(r.operation_error) == option_view(self.operation_error),
    {
        CKFetchRecordZonesResult {
            record_zones: copy_all(&self.record_zones),
            results: copy_all(&self.results),
            operation_error: copy_option(&self.operation_error),
        }
    }
}


/// The outcome a fetch of `zone_id` contributes: the zone on success, the error otherwise.
pub open spec fn zone_fetch_outcome(zone_id: RecordZoneIdView, outcome: Result<RecordZoneView, ErrorView>) -> ZoneOutcomeView {
    match outcome {
        Ok(zone) => ZoneOutcomeView { zone_id, record_zone: Some(zone), error: None },
        Err(e) => ZoneOutcomeView { zone_id, record_zone: None, error: Some(e) },
    }
}

pub open spec fn zone_result_view(r: Result<CKRecordZone, CloudKitError>) -> Result<RecordZoneView, ErrorView> {
    match r {
        Ok(z) => Ok(z@),
        Err(e) => Err(e@),
    }
}

impl CKFetchRecordZonesResult {
    /// No zones fetched yet, no operation error.
    pub fn new() -> (r: Self)
        ensures
            r.record_zones@.len() == 0,
            r.results@.len() == 0,
            r.operation_error is None,
    {
        Self { record_zones: Vec::new(), results: Vec::new(), operation_error: None }
    }

    /// Takes in the outcome of fetching the zone `zone_id`: a fetched zone joins
    /// the zones, and every outcome joins the results under the requested identifier.
    pub fn record_fetch(&mut self, zone_id: CKRecordZoneID, outcome: Result<CKRecordZone, CloudKitError>)
        ensures
            views_of(final(self).results@) == views_of(old(self).results@).push(
                zone_fetch_outcome(zone_id@, zone_result_view(outcome)),
            ),
            views_of(final(self).record_zones@) == match outcome {
                Ok(zone) => views_of(old(self).record_zones@).push(zone@),
                Err(_) => views_of(old(self).record_zones@),
            },
            final(self).operation_error == old(self).operation_error,
    {
        let ghost zones_before = self.record_zones@;
        let ghost results_before = self.results@;
        match outcome {
            Ok(record_zone) => {
                self.record_zones.push(record_zone.clone());
                self.results.push(CKRecordZoneFetchResult { zone_id, record_zone: Some(record_zone), error: None });
                assert(views_of(self.record_zones@) =~= views_of(zones_before).push(self.record_zones@.last()@));
            },
            Err(error) => {
                self.results.push(CKRecordZoneFetchResult { zone_id, record_zone: None, error: Some(error) });
                assert(views_of(self.record_zones@) =~= views_of(zones_before));
            },
        }
        assert(views_of(self.results@) =~= views_of(results_before).push(self.results@.last()@));
    }

    /// Takes in one zone of a fetch of every zone: it joins the zones and the
    /// results, under its own identifier.
    pub fn record_listed_zone(&mut self, record_zone: CKRecordZone)
        ensures
            views_of(final(self).results@) == views_of(old(self).results@).push(
                ZoneOutcomeView { zone_id: record_zone@.zone_id, record_zone: Some(record_zone@), error: None },
            ),
            views_of(final(self).record_zones@) == views_of(old(self).record_zones@).push(record_zone@),
            final(self).operation_error == old(self).operation_error,
    {
        let ghost zones_before = self.record_zones@;
        let ghost results_before = self.results@;
        let zone_id = record_zone.zone_id().clone();
        self.results.push(CKRecordZoneFetchResult { zone_id, record_zone: Some(record_zone.clone()), error: None });
        self.record_zones.push(record_zone);
        assert(views_of(self.record_zones@) =~= views_of(zones_before).push(self.record_zones@.last()@));
        assert(views_of(self.results@) =~= views_of(results_before).push(self.results@.last()@));
    }
}

/// The abstract content of a fetch-record-zones operation: which zones, or all of them.
pub struct FetchRecordZonesOperationView {
    pub database_operation: DatabaseOperationView,
    pub record_zone_ids: Option<Seq<RecordZoneIdView>>,
}

/// Mirrors `CKFetchRecordZonesOperation`.
#[derive(Debug, PartialEq)]
pub struct CKFetchRecordZonesOperation {
    database_operation: CKDatabaseOperation,
    record_zone_ids: Option<Vec<CKRecordZoneID>>,
}

impl View for CKFetchRecordZonesOperation {
    type V = FetchRecordZonesOperationView;

    closed spec fn view(&self) -> FetchRecordZonesOperationView {
        FetchRecordZonesOperationView {
            database_operation: self.database_operation@,
            record_zone_ids: match self.record_zone_ids {
                Some(ids) => Some(views_of(ids@)),
                None => None,
            },
        }
    }
}

impl CKFetchRecordZonesOperation {
    /// Mirrors `fetchAllRecordZonesOperation()`, around the given database operation.
    pub fn fetch_all_record_zones_operation(database_operation: CKDatabaseOperation) -> (r: Self)
        ensures
            r@ == (FetchRecordZonesOperationView { database_operation: database_operation@, record_zone_ids: None }),
    {
        Self { database_operation, record_zone_ids: None }
    }

    /// An operation fetching the given zones, around the given database operation.
    pub fn new(record_zone_ids: Vec<CKRecordZoneID>, database_operation: CKDatabaseOperation) -> (r: Self)
        ensures
            r@ == (FetchRecordZonesOperationView {
                database_operation: database_operation@,
                record_zone_ids: Some(views_of(record_zone_ids@)),
            }),
    {
        Self { database_operation, record_zone_ids: Some(record_zone_ids) }
    }

    /// Mirrors `databaseOperation`.
    pub fn database_operation(&self) -> (r: &CKDatabaseOperation)
        ensures
            r@ == self@.database_operation,
    {
        &self.database_operation
    }

    /// Mirrors `recordZoneIDs`; absent for a fetch of every zone.
    pub fn record_zone_ids(&self) -> (r: Option<&[CKRecordZoneID]>)
        ensures
            r is Some <==> self@.record_zone_ids is Some,
            r is Some ==> views_of(r->0@) == self@.record_zone_ids->0,
    {
        match &self.record_zone_ids {
            Some(ids) => Some(ids.as_slice()),
            None => None,
        }
    }

    /// The same operation around another database operation.
    pub fn with_database_operation(self, database_operation: CKDatabaseOperation) -> (r: Self)
        ensures
            r@ == (FetchRecordZonesOperationView { database_operation: database_operation@, ..self@ }),
    {
        Self { database_operation, record_zone_ids: self.record_zone_ids }
    }
}

/// The abstract content of a fetch-subscriptions operation: which
/// subscriptions, or all of them.
pub struct FetchSubscriptionsOperationView {
    pub database_operation: DatabaseOperationView,
    pub subscription_ids: Option<Seq<Seq<char>>>,
}

/// Mirrors `CKFetchSubscriptionsOperation`.
#[derive(Debug, PartialEq)]
pub struct CKFetchSubscriptionsOperation {
    database_operation: CKDatabaseOperation,
    subscription_ids: Option<Vec<String>>,
}

impl View for CKFetchSubscriptionsOperation {
    type V = FetchSubscriptionsOperationView;

    closed spec fn view(&self) -> FetchSubscriptionsOperationView {
        FetchSubscriptionsOperationView {
            database_operation: self.database_operation@,
            subscription_ids: match self.subscription_ids {
                Some(ids) => Some(texts_view(ids@)),
                None => None,
            },
        }
    }
}

impl CKFetchSubscriptionsOperation {
    /// Mirrors `fetchAllSubscriptionsOperation()`, around the given database operation.
    pub fn fetch_all_subscriptions_operation(database_operation: CKDatabaseOperation) -> (r: Self)
        ensures
            r@ == (FetchSubscriptionsOperationView { database_operation: database_operation@, subscription_ids: None }),
    {
        Self { database_operation, subscription_ids: None }
    }

    /// An operation fetching the given subscriptions, around the given database operation.
    pub fn new(subscription_ids: Vec<String>, database_operation: CKDatabaseOperation) -> (r: Self)
        ensures
            r@ == (FetchSubscriptionsOperationView {
                database_operation: database_operation@,
                subscription_ids: Some(texts_view(subscription_ids@)),
            }),
    {
        Self { database_operation, subscription_ids: Some(subscription_ids) }
    }

    /// Mirrors `databaseOperation`.
    pub fn database_operation(&self) -> (r: &CKDatabaseOperation)
        ensures
            r@ == self@.database_operation,
    {
        &self.database_operation
    }

    /// Mirrors `subscriptionIDs`; absent for a fetch of every subscription.
    pub fn subscription_ids(&self) -> (r: Option<&[String]>)
        ensures
            r is Some <==> self@.subscription_ids is Some,
            r is Some ==> texts_view(r->0@) == self@.subscription_ids->0,
    {
        match &self.subscription_ids {
            Some(ids) => Some(ids.as_slice()),
            None => None,
        }
    }

    /// The same operation around another database operation.
    pub fn with_database_operation(self, database_operation: CKDatabaseOperation) -> (r: Self)
        ensures
            r@ == (FetchSubscriptionsOperationView { database_operation: database_operation@, ..self@ }),
    {
        Self { database_operation, subscription_ids: self.subscription_ids }
    }
}

// ---------------------------------------------------------------------------
// Subscription operations
// ---------------------------------------------------------------------------

/// The abstract content of a per-subscription outcome.
pub struct SubscriptionOutcomeView {
    pub subscription_id: Seq<char>,
    pub subscription: Option<AnySubscriptionView>,
    pub error: Option<ErrorView>,
}

pub open spec fn subscription_option_view(s: Option<CKAnySubscription>) -> Option<AnySubscriptionView> {
    match s {
        Some(x) => Some(x@),
        None => None,
    }
}

pub open spec fn subscription_result_view(r: Result<CKAnySubscription, CloudKitError>) -> Result<AnySubscriptionView, ErrorView> {
    match r {
        Ok(s) => Ok(s@),
        Err(e) => Err(e@),
    }
}

pub open spec fn text_result_view(r: Result<String, CloudKitError>) -> Result<Seq<char>, ErrorView> {
    match r {
        Ok(s) => Ok(s@),
        Err(e) => Err(e@),
    }
}

/// What fetching the subscription `requested` reports: the subscription or the
/// error, under the requested identifier.
pub open spec fn subscription_fetch_outcome(requested: Seq<char>, outcome: Result<AnySubscriptionView, ErrorView>) -> SubscriptionOutcomeView {
    match outcome {
        Ok(s) => SubscriptionOutcomeView { subscription_id: requested, subscription: Some(s), error: None },
        Err(e) => SubscriptionOutcomeView { subscription_id: requested, subscription: None, error: Some(e) },
    }
}

/// What saving a subscription requested under `requested` reports: the saved
/// subscription under its own identifier, or the error under the requested one.
pub open spec fn subscription_save_outcome(requested: Seq<char>, outcome: Result<AnySubscriptionView, ErrorView>) -> SubscriptionOutcomeView {
    match outcome {
        Ok(s) => SubscriptionOutcomeView { subscription_id: s.subscription_id(), subscription: Some(s), error: None },
        Err(e) => SubscriptionOutcomeView { subscription_id: requested, subscription: None, error: Some(e) },
    }
}

/// The outcome of fetching one subscription.
#[derive(Debug, PartialEq)]
pub struct CKSubscriptionFetchResult {
    pub subscription_id: String,
    pub subscription: Option<CKAnySubscription>,
    pub error: Option<CloudKitError>,
}

impl Clone for CKSubscriptionFetchResult {
    fn clone(&self) -> (r: Self)
        ensures
            r@ == self@,
    {
        CKSubscriptionFetchResult {
            subscription_id: self.subscription_id.clone(),
            subscription: copy_option(&self.subscription),
            error: copy_option(&self.error),
        }
    }
}


impl View for CKSubscriptionFetchResult {
    type V = SubscriptionOutcomeView;

    open spec fn view(&self) -> SubscriptionOutcomeView {
        SubscriptionOutcomeView {
            subscription_id: self.subscription_id@,
            subscription: subscription_option_view(self.subscription),
            error: error_option_view(self.error),
        }
    }
}

/// The outcome of a fetch-subscriptions operation.
#[derive(Debug, PartialEq)]
pub struct CKFetchSubscriptionsResult {
    pub subscriptions: Vec<CKAnySubscription>,
    pub results: Vec<CKSubscriptionFetchResult>,
    pub operation_error: Option<CloudKitError>,
}

impl Clone for CKFetchSubscriptionsResult {
    fn clone(&self) -> (r: Self)
        ensures
            views_of(r.subscriptions@) == views_of(self.subscriptions@),
            views_of(r.results@) == views_of(self.results@),
            option_view(r.operation_error) == option_view(self.operation_error),
    {
        CKFetchSubscriptionsResult {
            subscriptions: copy_all(&self.subscriptions),
            results: copy_all(&self.results),
            operation_error: copy_option(&self.operation_error),
        }
    }
}


impl CKFetchSubscriptionsResult {
    /// No subscriptions fetched yet, no operation error.
    pub fn new() -> (r: Self)
        ensures
            r.subscriptions@.len() == 0,
            r.results@.len() == 0,
            r.operation_error is None,
    {
        Self { subscriptions: Vec::new(), results: Vec::new(), operation_error: None }
    }

    /// Takes in the outcome of fetching the subscription `subscription_id`: a
    /// fetched subscription joins the subscriptions, and every outcome joins the
    /// results under the requested identifier.
    pub fn record_fetch(&mut self, subscription_id: &str, outcome: Result<CKAnySubscription, CloudKitError>)
        ensures
            views_of(final(self).results@) == views_of(old(self).results@).push(
                subscription_fetch_outcome(subscription_id@, subscription_result_view(outcome)),
            ),
            views_of(final(self).subscriptions@) == match outcome {
                Ok(s) => views_of(old(self).subscriptions@).push(s@),
                Err(_) => views_of(old(self).subscriptions@),
            },
            final(self).operation_error == old(self).operation_error,
    {
        let ghost subscriptions_before = self.subscriptions@;
        let ghost results_before = self.results@;
        match outcome {
            Ok(subscription) => {
                self.subscriptions.push(subscription.clone());
                self.results.push(CKSubscriptionFetchResult {
                    subscription_id: owned(subscription_id),
                    subscription: Some(subscription),
                    error: None,
                });
                assert(views_of(self.subscriptions@) =~= views_of(subscriptions_before).push(self.subscriptions@.last()@));
            },
            Err(error) => {
                self.results.push(CKSubscriptionFetchResult { subscription_id: owned(subscription_id), subscription: None, error: Some(error) });
                assert(views_of(self.subscriptions@) =~= views_of(subscriptions_before));
            },
        }
        assert(views_of(self.results@) =~= views_of(results_before).push(self.results@.last()@));
    }

    /// Takes in one subscription of a fetch of every subscription: it joins the
    /// subscriptions and the results, under its own identifier.
    pub fn record_listed_subscription(&mut self, subscription: CKAnySubscription)
        ensures
            views_of(final(self).results@) == views_of(old(self).results@).push(
                SubscriptionOutcomeView { subscription_id: subscription@.subscription_id(), subscription: Some(subscription@), error: None },
            ),
            views_of(final(self).subscriptions@) == views_of(old(self).subscriptions@).push(subscription@),
            final(self).operation_error == old(self).operation_error,
    {
        let ghost subscriptions_before = self.subscriptions@;
        let ghost results_before = self.results@;
        let subscription_id = owned(subscription.subscription_id());
        self.results.push(CKSubscriptionFetchResult { subscription_id, subscription: Some(subscription.clone()), error: None });
        self.subscriptions.push(subscription);
        assert(views_of(self.subscriptions@) =~= views_of(subscriptions_before).push(self.subscriptions@.last()@));
        assert(views_of(self.results@) =~= views_of(results_before).push(self.results@.last()@));
    }
}

/// The outcome of saving one subscription.
#[derive(Debug, PartialEq)]
pub struct CKSubscriptionSaveResult {
    pub subscription_id: String,
    pub subscription: Option<CKAnySubscription>,
    pub error: Option<CloudKitError>,
}

impl Clone for CKSubscriptionSaveResult {
    fn clone(&self) -> (r: Self)
        ensures
            r@ == self@,
    {
        CKSubscriptionSaveResult {
            subscription_id: self.subscription_id.clone(),
            subscription: copy_option(&self.subscription),
            error: copy_option(&self.error),
        }
    }
}


impl View for CKSubscriptionSaveResult {
    type V = SubscriptionOutcomeView;

    open spec fn view(&self) -> SubscriptionOutcomeView {
        SubscriptionOutcomeView {
            subscription_id: self.subscription_id@,
            subscription: subscription_option_view(self.subscription),
            error: error_option_view(self.error),
        }
    }
}

/// The abstract content of a subscription deletion outcome.
pub struct SubscriptionDeleteOutcomeView {
    pub subscription_id: Seq<char>,
    pub error: Option<ErrorView>,
}

/// What deleting the subscription `requested` reports: the deleted identifier,
/// or the error under the requested one.
pub open spec fn subscription_delete_outcome(requested: Seq<char>, outcome: Result<Seq<char>, ErrorView>) -> SubscriptionDeleteOutcomeView {
    match outcome {
        Ok(id) => SubscriptionDeleteOutcomeView { subscription_id: id, error: None },
        Err(e) => SubscriptionDeleteOutcomeView { subscription_id: requested, error: Some(e) },
    }
}

/// The outcome of deleting one subscription.
#[derive(Debug, PartialEq)]
pub struct CKSubscriptionDeleteResult {
    pub subscription_id: String,
    pub error: Option<CloudKitError>,
}

impl Clone for CKSubscriptionDeleteResult {
    fn clone(&self) -> (r: Self)
        ensures
            r@ == self@,
    {
        CKSubscriptionDeleteResult {
            subscription_id: self.subscription_id.clone(),
            error: copy_option(&self.error),
        }
    }
}


impl View for CKSubscriptionDeleteResult {
    type V = SubscriptionDeleteOutcomeView;

    open spec fn view(&self) -> SubscriptionDeleteOutcomeView {
        SubscriptionDeleteOutcomeView { subscription_id: self.subscription_id@, error: error_option_view(self.error) }
    }
}

/// The subscriptions of the successful saves, in order.
pub open spec fn saved_subscriptions(outcomes: Seq<Result<AnySubscriptionView, ErrorView>>) -> Seq<AnySubscriptionView>
    decreases outcomes.len(),
{
    if outcomes.len() == 0 {
        Seq::empty()
    } else {
        match outcomes.last() {
            Ok(s) => saved_subscriptions(outcomes.drop_last()).push(s),
            Err(_) => saved_subscriptions(outcomes.drop_last()),
        }
    }
}

/// The identifiers of the successful deletions, in order.
pub open spec fn deleted_subscription_ids(outcomes: Seq<Result<Seq<char>, ErrorView>>) -> Seq<Seq<char>>
    decreases outcomes.len(),
{
    if outcomes.len() == 0 {
        Seq::empty()
    } else {
        match outcomes.last() {
            Ok(id) => deleted_subscription_ids(outcomes.drop_last()).push(id),
            Err(_) => deleted_subscription_ids(outcomes.drop_last()),
        }
    }
}

/// The save answers of a list of (requested identifier, answer) pairs.
pub open spec fn subscription_save_answers(saves: Seq<(String, Result<CKAnySubscription, CloudKitError>)>) -> Seq<Result<AnySubscriptionView, ErrorView>> {
    Seq::new(saves.len(), |i: int| subscription_result_view(saves[i].1))
}

/// The deletion answers of a list of (requested identifier, answer) pairs.
pub open spec fn subscription_delete_answers(deletes: Seq<(String, Result<String, CloudKitError>)>) -> Seq<Result<Seq<char>, ErrorView>> {
    Seq::new(deletes.len(), |i: int| text_result_view(deletes[i].1))
}

/// The outcome of a modify-subscriptions operation.
#[derive(Debug, PartialEq)]
pub struct ModifySubscriptionsResult {
    pub saved_subscriptions: Vec<CKAnySubscription>,
    pub deleted_subscription_ids: Vec<String>,
    pub save_results: Vec<CKSubscriptionSaveResult>,
    pub delete_results: Vec<CKSubscriptionDeleteResult>,
    pub operation_error: Option<CloudKitError>,
}

impl Clone for ModifySubscriptionsResult {
    fn clone(&self) -> (r: Self)
        ensures
            views_of(r.saved_subscriptions@) == views_of(self.saved_subscriptions@),
            views_of(r.deleted_subscription_ids@) == views_of(self.deleted_subscription_ids@),
            views_of(r.save_results@) == views_of(self.save_results@),
            views_of(r.delete_results@) == views_of(self.delete_results@),
            option_view(r.operation_error) == option_view(self.operation_error),
    {
        ModifySubscriptionsResult {
            saved_subscriptions: copy_all(&self.saved_subscriptions),
            deleted_subscription_ids: copy_all(&self.deleted_subscription_ids),
            save_results: copy_all(&self.save_results),
            delete_results: copy_all(&self.delete_results),
            operation_error: copy_option(&self.operation_error),
        }
    }
}


impl ModifySubscriptionsResult {
    /// Nothing saved or deleted yet, no operation error.
    pub fn new() -> (r: Self)
        ensures
            r.saved_subscriptions@.len() == 0,
            r.deleted_subscription_ids@.len() == 0,
            r.save_results@.len() == 0,
            r.delete_results@.len() == 0,
            r.operation_error is None,
    {
        Self {
            saved_subscriptions: Vec::new(),
            deleted_subscription_ids: Vec::new(),
            save_results: Vec::new(),
            delete_results: Vec::new(),
            operation_error: None,
        }
    }

    /// Takes in the outcome of saving a subscription requested under
    /// `requested_id`: a saved subscription joins the saved ones and is reported
    /// under its own identifier; a failure is reported under the requested one.
    pub fn record_save(&mut self, requested_id: &str, outcome: Result<CKAnySubscription, CloudKitError>)
        ensures
            views_of(final(self).save_results@) == views_of(old(self).save_results@).push(
                subscription_save_outcome(requested_id@, subscription_result_view(outcome)),
            ),
            views_of(final(self).saved_subscriptions@) == match outcome {
                Ok(s) => views_of(old(self).saved_subscriptions@).push(s@),
                Err(_) => views_of(old(self).saved_subscriptions@),
            },
            final(self).deleted_subscription_ids@ == old(self).deleted_subscription_ids@,
            final(self).delete_results@ == old(self).delete_results@,
            final(self).operation_error == old(self).operation_error,
    {
        let ghost saved_before = self.saved_subscriptions@;
        let ghost results_before = self.save_results@;
        match outcome {
            Ok(saved) => {
                self.saved_subscriptions.push(saved.clone());
                let subscription_id = owned(saved.subscription_id());
                self.save_results.push(CKSubscriptionSaveResult { subscription_id, subscription: Some(saved), error: None });
                assert(views_of(self.saved_subscriptions@) =~= views_of(saved_before).push(self.saved_subscriptions@.last()@));
            },
            Err(error) => {
                self.save_results.push(CKSubscriptionSaveResult { subscription_id: owned(requested_id), subscription: None, error: Some(error) });
                assert(views_of(self.saved_subscriptions@) =~= views_of(saved_before));
            },
        }
        assert(views_of(self.save_results@) =~= views_of(results_before).push(self.save_results@.last()@));
    }

    /// Takes in the outcome of deleting the subscription `requested_id`: a
    /// deleted identifier joins the deleted ones and is reported; a failure is
    /// reported under the requested identifier.
    pub fn record_delete(&mut self, requested_id: &str, outcome: Result<String, CloudKitError>)
        ensures
            views_of(final(self).delete_results@) == views_of(old(self).delete_results@).push(
                subscription_delete_outcome(requested_id@, text_result_view(outcome)),
            ),
            views_of(final(self).deleted_subscription_ids@) == match outcome {
                Ok(id) => views_of(old(self).deleted_subscription_ids@).push(id@),
                Err(_) => views_of(old(self).deleted_subscription_ids@),
            },
            final(self).saved_subscriptions@ == old(self).saved_subscriptions@,
            final(self).save_results@ == old(self).save_results@,
            final(self).operation_error == old(self).operation_error,
    {
        let ghost deleted_before = self.deleted_subscription_ids@;
        let ghost results_before = self.delete_results@;
        match outcome {
            Ok(deleted) => {
                self.deleted_subscription_ids.push(deleted.clone());
                self.delete_results.push(CKSubscriptionDeleteResult { subscription_id: deleted, error: None });
                assert(views_of(self.deleted_subscription_ids@) =~= views_of(deleted_before).push(self.deleted_subscription_ids@.last()@));
            },
            Err(error) => {
                self.delete_results.push(CKSubscriptionDeleteResult { subscription_id: owned(requested_id), error: Some(error) });
                assert(views_of(self.deleted_subscription_ids@) =~= views_of(deleted_before));
            },
        }
        assert(views_of(self.delete_results@) =~= views_of(results_before).push(self.delete_results@.last()@));
    }

    /// The outcome of a whole modify-subscriptions operation, from the answer to
    /// each save and each deletion in the order the operation asked for them:
    /// one save result and one delete result per request, in that order; a
    /// result carries an error exactly when its request failed, and then the
    /// requested identifier; the saved subscriptions and deleted identifiers are
    /// those of the successful requests, in order; no operation error.
    pub fn from_outcomes(
        saves: Vec<(String, Result<CKAnySubscription, CloudKitError>)>,
        deletes: Vec<(String, Result<String, CloudKitError>)>,
    ) -> (r: Self)
        ensures
            views_of(r.save_results@) == Seq::new(
                saves@.len(),
                |i: int| subscription_save_outcome(saves@[i].0@, subscription_result_view(saves@[i].1)),
            ),
            views_of(r.saved_subscriptions@) == saved_subscriptions(subscription_save_answers(saves@)),
            views_of(r.delete_results@) == Seq::new(
                deletes@.len(),
                |i: int| subscription_delete_outcome(deletes@[i].0@, text_result_view(deletes@[i].1)),
            ),
            views_of(r.deleted_subscription_ids@) == deleted_subscription_ids(subscription_delete_answers(deletes@)),
            r.operation_error is None,
    {
        let ghost all_saves = saves@;
        let ghost all_deletes = deletes@;
        let mut result = Self::new();
        let mut rest = saves;
        let save_count: usize = rest.len();
        let mut k: usize = 0;
        assert(views_of(result.saved_subscriptions@) =~= saved_subscriptions(subscription_save_answers(all_saves).take(0)));
        assert(views_of(result.save_results@) =~= Seq::<SubscriptionOutcomeView>::empty());
        while rest.len() > 0
            invariant
                k + rest@.len() == all_saves.len(),
                all_saves.len() == save_count,
                rest@ == all_saves.skip(k as int),
                views_of(result.save_results@) == Seq::new(
                    k as nat,
                    |i: int| subscription_save_outcome(all_saves[i].0@, subscription_result_view(all_saves[i].1)),
                ),
                views_of(result.saved_subscriptions@) == saved_subscriptions(subscription_save_answers(all_saves).take(k as int)),
                result.deleted_subscription_ids@.len() == 0,
                result.delete_results@.len() == 0,
                result.operation_error is None,
            decreases rest@.len(),
        {
            let (requested, outcome) = rest.remove(0);
            assert((requested, outcome) == all_saves[k as int]);
            result.record_save(requested.as_str(), outcome);
            proof {
                let answers = subscription_save_answers(all_saves);
                assert(answers.take(k + 1).drop_last() =~= answers.take(k as int));
                assert(answers.take(k + 1).last() == answers[k as int]);
                assert(views_of(result.save_results@) =~= Seq::new(
                    (k + 1) as nat,
                    |i: int| subscription_save_outcome(all_saves[i].0@, subscription_result_view(all_saves[i].1)),
                ));
            }
            k = k + 1;
            assert(rest@ =~= all_saves.skip(k as int));
        }
        assert(subscription_save_answers(all_saves).take(k as int) =~= subscription_save_answers(all_saves));
        let mut rest = deletes;
        let delete_count: usize = rest.len();
        let mut k: usize = 0;
        assert(views_of(result.deleted_subscription_ids@) =~= deleted_subscription_ids(subscription_delete_answers(all_deletes).take(0)));
        assert(views_of(result.delete_results@) =~= Seq::<SubscriptionDeleteOutcomeView>::empty());
        while rest.len() > 0
            invariant
                k + rest@.len() == all_deletes.len(),
                all_deletes.len() == delete_count,
                rest@ == all_deletes.skip(k as int),
                views_of(result.delete_results@) == Seq::new(
                    k as nat,
                    |i: int| subscription_delete_outcome(all_deletes[i].0@, text_result_view(all_deletes[i].1)),
                ),
                views_of(result.deleted_subscription_ids@) == deleted_subscription_ids(subscription_delete_answers(all_deletes).take(k as int)),
                views_of(result.save_results@) == Seq::new(
                    all_saves.len(),
                    |i: int| subscription_save_outcome(all_saves[i].0@, subscription_result_view(all_saves[i].1)),
                ),
                views_of(result.saved_subscriptions@) == saved_subscriptions(subscription_save_answers(all_saves)),
                result.operation_error is None,
            decreases rest@.len(),
        {
            let (requested, outcome) = rest.remove(0);
            assert((requested, outcome) == all_deletes[k as int]);
            result.record_delete(requested.as_str(), outcome);
            proof {
                let answers = subscription_delete_answers(all_deletes);
                assert(answers.take(k + 1).drop_last() =~= answers.take(k as int));
                assert(answers.take(k + 1).last() == answers[k as int]);
                assert(views_of(result.delete_results@) =~= Seq::new(
                    (k + 1) as nat,
                    |i: int| subscription_delete_outcome(all_deletes[i].0@, text_result_view(all_deletes[i].1)),
                ));
            }
            k = k + 1;
            assert(rest@ =~= all_deletes.skip(k as int));
        }
        assert(subscription_delete_answers(all_deletes).take(k as int) =~= subscription_delete_answers(all_deletes));
        result
    }
}

/// The abstract content of a modify-subscriptions operation.
pub struct ModifySubscriptionsOperationView {
    pub database_operation: DatabaseOperationView,
    pub subscriptions_to_save: Seq<AnySubscriptionView>,
    pub subscription_ids_to_delete: Seq<Seq<char>>,
}

/// Mirrors `CKModifySubscriptionsOperation`.
#[derive(Debug, PartialEq)]
pub struct CKModifySubscriptionsOperation {
    database_operation: CKDatabaseOperation,
    subscriptions_to_save: Vec<CKAnySubscription>,
    subscription_ids_to_delete: Vec<String>,
}

impl View for CKModifySubscriptionsOperation {
    type V = ModifySubscriptionsOperationView;

    closed spec fn view(&self) -> ModifySubscriptionsOperationView {
        ModifySubscriptionsOperationView {
            database_operation: self.database_operation@,
            subscriptions_to_save: views_of(self.subscriptions_to_save@),
            subscription_ids_to_delete: views_of(self.subscription_ids_to_delete@),
        }
    }
}

impl CKModifySubscriptionsOperation {
    /// An operation saving and deleting the given subscriptions, around the given database operation.
    pub fn new(
        subscriptions_to_save: Vec<CKAnySubscription>,
        subscription_ids_to_delete: Vec<String>,
        database_operation: CKDatabaseOperation,
    ) -> (r: Self)
        ensures
            r@ == (ModifySubscriptionsOperationView {
                database_operation: database_operation@,
                subscriptions_to_save: views_of(subscriptions_to_save@),
                subscription_ids_to_delete: views_of(subscription_ids_to_delete@),
            }),
    {
        Self { database_operation, subscriptions_to_save, subscription_ids_to_delete }
    }

    /// Mirrors `databaseOperation`.
    pub fn database_operation(&self) -> (r: &CKDatabaseOperation)
        ensures
            r@ == self@.database_operation,
    {
        &self.database_operation
    }

    /// Mirrors `subscriptionsToSave`.
    pub fn subscriptions_to_save(&self) -> (r: &[CKAnySubscription])
        ensures
            views_of(r@) == self@.subscriptions_to_save,
    {
        self.subscriptions_to_save.as_slice()
    }

    /// Mirrors `subscriptionIDsToDelete`.
    pub fn subscription_ids_to_delete(&self) -> (r: &[String])
        ensures
            views_of(r@) == self@.subscription_ids_to_delete,
    {
        self.subscription_ids_to_delete.as_slice()
    }

    /// The same operation around another database operation.
    pub fn with_database_operation(self, database_operation: CKDatabaseOperation) -> (r: Self)
        ensures
            r@ == (ModifySubscriptionsOperationView { database_operation: database_operation@, ..self@ }),
    {
        Self {
            database_operation,
            subscriptions_to_save: self.subscriptions_to_save,
            subscription_ids_to_delete: self.subscription_ids_to_delete,
        }
    }
}

/// The outcome of saving one zone.
#[derive(Debug, PartialEq)]
pub struct CKRecordZoneSaveResult {
    pub zone_id: CKRecordZoneID,
    pub record_zone: Option<CKRecordZone>,
    pub error: Option<CloudKitError>,
}

impl Clone for CKRecordZoneSaveResult {
    fn clone(&self) -> (r: Self)
        ensures
            r@ == self@,
    {
        CKRecordZoneSaveResult {
            zone_id: self.zone_id.copy_view(),
            record_zone: copy_option(&self.record_zone),
            error: copy_option(&self.error),
        }
    }
}


impl View for CKRecordZoneSaveResult {
    type V = ZoneOutcomeView;

    open spec fn view(&self) -> ZoneOutcomeView {
        ZoneOutcomeView { zone_id: self.zone_id@, record_zone: zone_option_view(self.record_zone), error: error_option_view(self.error) }
    }
}

/// The abstract content of a zone deletion outcome.
pub struct ZoneDeleteOutcomeView {
    pub zone_id: RecordZoneIdView,
    pub error: Option<ErrorView>,
}

/// The outcome of deleting one zone.
#[derive(Debug, PartialEq)]
pub struct CKRecordZoneDeleteResult {
    pub zone_id: CKRecordZoneID,
    pub error: Option<CloudKitError>,
}

impl Clone for CKRecordZoneDeleteResult {
    fn clone(&self) -> (r: Self)
        ensures
            r@ == self@,
    {
        CKRecordZoneDeleteResult {
            zone_id: self.zone_id.copy_view(),
            error: copy_option(&self.error),
        }
    }
}


impl View for CKRecordZoneDeleteResult {
    type V = ZoneDeleteOutcomeView;

    open spec fn view(&self) -> ZoneDeleteOutcomeView {
        ZoneDeleteOutcomeView { zone_id: self.zone_id@, error: error_option_view(self.error) }
    }
}

/// The outcome of a modify-record-zones operation.
#[derive(Debug, PartialEq)]
pub struct ModifyRecordZonesResult {
    pub saved_record_zones: Vec<CKRecordZone>,
    pub deleted_record_zone_ids: Vec<CKRecordZoneID>,
    pub save_results: Vec<CKRecordZoneSaveResult>,
    pub delete_results: Vec<CKRecordZoneDeleteResult>,
    pub operation_error: Option<CloudKitError>,
}

impl Clone for ModifyRecordZonesResult {
    fn clone(&self) -> (r: Self)
        ensures
            views_of(r.saved_record_zones@) == views_of(self.saved_record_zones@),
            views_of(r.deleted_record_zone_ids@) == views_of(self.deleted_record_zone_ids@),
            views_of(r.save_results@) == views_of(self.save_results@),
            views_of(r.delete_results@) == views_of(self.delete_results@),
            option_view(r.operation_error) == option_view(self.operation_error),
    {
        ModifyRecordZonesResult {
            saved_record_zones: copy_all(&self.saved_record_zones),
            deleted_record_zone_ids: copy_all(&self.deleted_record_zone_ids),
            save_results: copy_all(&self.save_results),
            delete_results: copy_all(&self.delete_results),
            operation_error: copy_option(&self.operation_error),
        }
    }
}


impl ModifyRecordZonesResult {
    /// Nothing saved or deleted yet, no operation error.
    pub fn new() -> (r: Self)
        ensures
            r.saved_record_zones@.len() == 0,
            r.deleted_record_zone_ids@.len() == 0,
            r.save_results@.len() == 0,
            r.delete_results@.len() == 0,
            r.operation_error is None,
    {
        Self {
            saved_record_zones: Vec::new(),
            deleted_record_zone_ids: Vec::new(),
            save_results: Vec::new(),
            delete_results: Vec::new(),
            operation_error: None,
        }
    }

    /// Takes in the outcome of saving a zone with identifier `requested`: a saved
    /// zone joins the saved zones and is reported under its own identifier; a
    /// failure is reported under the requested one.
    pub fn record_save(&mut self, requested: CKRecordZoneID, outcome: Result<CKRecordZone, CloudKitError>)
        ensures
            views_of(final(self).save_results@) == views_of(old(self).save_results@).push(match outcome {
                Ok(zone) => ZoneOutcomeView { zone_id: zone@.zone_id, record_zone: Some(zone@), error: None },
                Err(e) => ZoneOutcomeView { zone_id: requested@, record_zone: None, error: Some(e@) },
            }),
            views_of(final(self).saved_record_zones@) == match outcome {
                Ok(zone) => views_of(old(self).saved_record_zones@).push(zone@),
                Err(_) => views_of(old(self).saved_record_zones@),
            },
            final(self).deleted_record_zone_ids@ == old(self).deleted_record_zone_ids@,
            final(self).delete_results@ == old(self).delete_results@,
            final(self).operation_error == old(self).operation_error,
    {
        let ghost saved_before = self.saved_record_zones@;
        let ghost results_before = self.save_results@;
        match outcome {
            Ok(saved) => {
                self.saved_record_zones.push(saved.clone());
                let zone_id = saved.zone_id().clone();
                self.save_results.push(CKRecordZoneSaveResult { zone_id, record_zone: Some(saved), error: None });
                assert(views_of(self.saved_record_zones@) =~= views_of(saved_before).push(self.saved_record_zones@.last()@));
            },
            Err(error) => {
                self.save_results.push(CKRecordZoneSaveResult { zone_id: requested, record_zone: None, error: Some(error) });
                assert(views_of(self.saved_record_zones@) =~= views_of(saved_before));
            },
        }
        assert(views_of(self.save_results@) =~= views_of(results_before).push(self.save_results@.last()@));
    }

    /// Takes in the outcome of deleting the zone `requested`: a deleted zone's
    /// identifier joins the deleted ones and is reported; a failure is reported
    /// under the requested identifier.
    pub fn record_delete(&mut self, requested: CKRecordZoneID, outcome: Result<CKRecordZoneID, CloudKitError>)
        ensures
            views_of(final(self).delete_results@) == views_of(old(self).delete_results@).push(match outcome {
                Ok(id) => ZoneDeleteOutcomeView { zone_id: id@, error: None },
                Err(e) => ZoneDeleteOutcomeView { zone_id: requested@, error: Some(e@) },
            }),
            views_of(final(self).deleted_record_zone_ids@) == match outcome {
                Ok(id) => views_of(old(self).deleted_record_zone_ids@).push(id@),
                Err(_) => views_of(old(self).deleted_record_zone_ids@),
            },
            final(self).saved_record_zones@ == old(self).saved_record_zones@,
            final(self).save_results@ == old(self).save_results@,
            final(self).operation_error == old(self).operation_error,
    {
        let ghost deleted_before = self.deleted_record_zone_ids@;
        let ghost results_before = self.delete_results@;
        match outcome {
            Ok(deleted) => {
                self.deleted_record_zone_ids.push(deleted.clone());
                self.delete_results.push(CKRecordZoneDeleteResult { zone_id: deleted, error: None });
                assert(views_of(self.deleted_record_zone_ids@) =~= views_of(deleted_before).push(self.deleted_record_zone_ids@.last()@));
            },
            Err(error) => {
                self.delete_results.push(CKRecordZoneDeleteResult { zone_id: requested, error: Some(error) });
                assert(views_of(self.deleted_record_zone_ids@) =~= views_of(deleted_before));
            },
        }
        assert(views_of(self.delete_results@) =~= views_of(results_before).push(self.delete_results@.last()@));
    }
}

/// What saving a zone requested under `requested` reports: the saved zone
/// under its own identifier, or the error under the requested one.
pub open spec fn zone_save_outcome(requested: RecordZoneIdView, outcome: Result<RecordZoneView, ErrorView>) -> ZoneOutcomeView {
    match outcome {
        Ok(zone) => ZoneOutcomeView { zone_id: zone.zone_id, record_zone: Some(zone), error: None },
        Err(e) => ZoneOutcomeView { zone_id: requested, record_zone: None, error: Some(e) },
    }
}

/// What deleting the zone `requested` reports: the deleted identifier, or the
/// error under the requested one.
pub open spec fn zone_delete_outcome(requested: RecordZoneIdView, outcome: Result<RecordZoneIdView, ErrorView>) -> ZoneDeleteOutcomeView {
    match outcome {
        Ok(id) => ZoneDeleteOutcomeView { zone_id: id, error: None },
        Err(e) => ZoneDeleteOutcomeView { zone_id: requested, error: Some(e) },
    }
}

/// The zones of the successful saves, in order.
pub open spec fn saved_zones(outcomes: Seq<Result<RecordZoneView, ErrorView>>) -> Seq<RecordZoneView>
    decreases outcomes.len(),
{
    if outcomes.len() == 0 {
        Seq::empty()
    } else {
        match outcomes.last() {
            Ok(zone) => saved_zones(outcomes.drop_last()).push(zone),
            Err(_) => saved_zones(outcomes.drop_last()),
        }
    }
}

/// The identifiers of the successful deletions, in order.
pub open spec fn deleted_zone_ids(outcomes: Seq<Result<RecordZoneIdView, ErrorView>>) -> Seq<RecordZoneIdView>
    decreases outcomes.len(),
{
    if outcomes.len() == 0 {
        Seq::empty()
    } else {
        match outcomes.last() {
            Ok(id) => deleted_zone_ids(outcomes.drop_last()).push(id),
            Err(_) => deleted_zone_ids(outcomes.drop_last()),
        }
    }
}

pub open spec fn zone_id_result_view(r: Result<CKRecordZoneID, CloudKitError>) -> Result<RecordZoneIdView, ErrorView> {
    match r {
        Ok(id) => Ok(id@),
        Err(e) => Err(e@),
    }
}

/// The save outcomes of a list of (requested identifier, answer) pairs.
pub open spec fn zone_save_answers(saves: Seq<(CKRecordZoneID, Result<CKRecordZone, CloudKitError>)>) -> Seq<Result<RecordZoneView, ErrorView>> {
    Seq::new(saves.len(), |i: int| zone_result_view(saves[i].1))
}

/// The deletion outcomes of a list of (requested identifier, answer) pairs.
pub open spec fn zone_delete_answers(deletes: Seq<(CKRecordZoneID, Result<CKRecordZoneID, CloudKitError>)>) -> Seq<Result<RecordZoneIdView, ErrorView>> {
    Seq::new(deletes.len(), |i: int| zone_id_result_view(deletes[i].1))
}

impl ModifyRecordZonesResult {
    /// The outcome of a whole modify-record-zones operation, from the answer to
    /// each save and each deletion in the order the operation asked for them:
    /// one save result and one delete result per request, in that order; a
    /// result carries an error exactly when its request failed, and then the
    /// requested identifier and no zone; the saved zones and deleted identifiers
    /// are those of the successful requests, in order; no operation error.
    pub fn from_outcomes(
        saves: Vec<(CKRecordZoneID, Result<CKRecordZone, CloudKitError>)>,
        deletes: Vec<(CKRecordZoneID, Result<CKRecordZoneID, CloudKitError>)>,
    ) -> (r: Self)
        ensures
            views_of(r.save_results@) == Seq::new(
                saves@.len(),
                |i: int| zone_save_outcome(saves@[i].0@, zone_result_view(saves@[i].1)),
            ),
            views_of(r.saved_record_zones@) == saved_zones(zone_save_answers(saves@)),
            views_of(r.delete_results@) == Seq::new(
                deletes@.len(),
                |i: int| zone_delete_outcome(deletes@[i].0@, zone_id_result_view(deletes@[i].1)),
            ),
            views_of(r.deleted_record_zone_ids@) == deleted_zone_ids(zone_delete_answers(deletes@)),
            r.operation_error is None,
    {
        let ghost all_saves = saves@;
        let ghost all_deletes = deletes@;
        let mut result = Self::new();
        let mut rest = saves;
        let save_count: usize = rest.len();
        let mut k: usize = 0;
        assert(views_of(result.saved_record_zones@) =~= saved_zones(zone_save_answers(all_saves).take(0)));
        assert(views_of(result.save_results@) =~= Seq::<ZoneOutcomeView>::empty());
        while rest.len() > 0
            invariant
                k + rest@.len() == all_saves.len(),
                all_saves.len() == save_count,
                rest@ == all_saves.skip(k as int),
                views_of(result.save_results@) == Seq::new(
                    k as nat,
                    |i: int| zone_save_outcome(all_saves[i].0@, zone_result_view(all_saves[i].1)),
                ),
                views_of(result.saved_record_zones@) == saved_zones(zone_save_answers(all_saves).take(k as int)),
                result.deleted_record_zone_ids@.len() == 0,
                result.delete_results@.len() == 0,
                result.operation_error is None,
            decreases rest@.len(),
        {
            let (requested, outcome) = rest.remove(0);
            assert((requested, outcome) == all_saves[k as int]);
            result.record_save(requested, outcome);
            proof {
                let answers = zone_save_answers(all_saves);
                assert(answers.take(k + 1).drop_last() =~= answers.take(k as int));
                assert(answers.take(k + 1).last() == answers[k as int]);
                assert(views_of(result.save_results@) =~= Seq::new(
                    (k + 1) as nat,
                    |i: int| zone_save_outcome(all_saves[i].0@, zone_result_view(all_saves[i].1)),
                ));
            }
            k = k + 1;
            assert(rest@ =~= all_saves.skip(k as int));
        }
        assert(zone_save_answers(all_saves).take(k as int) =~= zone_save_answers(all_saves));
        let mut rest = deletes;
        let delete_count: usize = rest.len();
        let mut k: usize = 0;
        assert(views_of(result.deleted_record_zone_ids@) =~= deleted_zone_ids(zone_delete_answers(all_deletes).take(0)));
        assert(views_of(result.delete_results@) =~= Seq::<ZoneDeleteOutcomeView>::empty());
        while rest.len() > 0
            invariant
                k + rest@.len() == all_deletes.len(),
                all_deletes.len() == delete_count,
                rest@ == all_deletes.skip(k as int),
                views_of(result.delete_results@) == Seq::new(
                    k as nat,
                    |i: int| zone_delete_outcome(all_deletes[i].0@, zone_id_result_view(all_deletes[i].1)),
                ),
                views_of(result.deleted_record_zone_ids@) == deleted_zone_ids(zone_delete_answers(all_deletes).take(k as int)),
                views_of(result.save_results@) == Seq::new(
                    all_saves.len(),
                    |i: int| zone_save_outcome(all_saves[i].0@, zone_result_view(all_saves[i].1)),
                ),
                views_of(result.saved_record_zones@) == saved_zones(zone_save_answers(all_saves)),
                result.operation_error is None,
            decreases rest@.len(),
        {
            let (requested, outcome) = rest.remove(0);
            assert((requested, outcome) == all_deletes[k as int]);
            result.record_delete(requested, outcome);
            proof {
                let answers = zone_delete_answers(all_deletes);
                assert(answers.take(k + 1).drop_last() =~= answers.take(k as int));
                assert(answers.take(k + 1).last() == answers[k as int]);
                assert(views_of(result.delete_results@) =~= Seq::new(
                    (k + 1) as nat,
                    |i: int| zone_delete_outcome(all_deletes[i].0@, zone_id_result_view(all_deletes[i].1)),
                ));
            }
            k = k + 1;
            assert(rest@ =~= all_deletes.skip(k as int));
        }
        assert(zone_delete_answers(all_deletes).take(k as int) =~= zone_delete_answers(all_deletes));
        result
    }
}

/// The abstract content of a modify-record-zones operation.
pub struct ModifyRecordZonesOperationView {
    pub database_operation: DatabaseOperationView,
    pub record_zones_to_save: Seq<RecordZoneView>,
    pub record_zone_ids_to_delete: Seq<RecordZoneIdView>,
}

/// Mirrors `CKModifyRecordZonesOperation`.
#[derive(Debug, PartialEq)]
pub struct CKModifyRecordZonesOperation {
    database_operation: CKDatabaseOperation,
    record_zones_to_save: Vec<CKRecordZone>,
    record_zone_ids_to_delete: Vec<CKRecordZoneID>,
}

impl View for CKModifyRecordZonesOperation {
    type V = ModifyRecordZonesOperationView;

    closed spec fn view(&self) -> ModifyRecordZonesOperationView {
        ModifyRecordZonesOperationView {
            database_operation: self.database_operation@,
            record_zones_to_save: views_of(self.record_zones_to_save@),
            record_zone_ids_to_delete: views_of(self.record_zone_ids_to_delete@),
        }
    }
}

impl CKModifyRecordZonesOperation {
    /// An operation saving and deleting the given zones, around the given database operation.
    pub fn new(
        record_zones_to_save: Vec<CKRecordZone>,
        record_zone_ids_to_delete: Vec<CKRecordZoneID>,
        database_operation: CKDatabaseOperation,
    ) -> (r: Self)
        ensures
            r@ == (ModifyRecordZonesOperationView {
                database_operation: database_operation@,
                record_zones_to_save: views_of(record_zones_to_save@),
                record_zone_ids_to_delete: views_of(record_zone_ids_to_delete@),
            }),
    {
        Self { database_operation, record_zones_to_save, record_zone_ids_to_delete }
    }

    /// Mirrors `databaseOperation`.
    pub fn database_operation(&self) -> (r: &CKDatabaseOperation)
        ensures
            r@ == self@.database_operation,
    {
        &self.database_operation
    }

    /// Mirrors `recordZonesToSave`.
    pub fn record_zones_to_save(&self) -> (r: &[CKRecordZone])
        ensures
            views_of(r@) == self@.record_zones_to_save,
    {
        self.record_zones_to_save.as_slice()
    }

    /// Mirrors `recordZoneIDsToDelete`.
    pub fn record_zone_ids_to_delete(&self) -> (r: &[CKRecordZoneID])
        ensures
            views_of(r@) == self@.record_zone_ids_to_delete,
    {
        self.record_zone_ids_to_delete.as_slice()
    }

    /// The same operation around another database operation.
    pub fn with_database_operation(self, database_operation: CKDatabaseOperation) -> (r: Self)
        ensures
            r@ == (ModifyRecordZonesOperationView { database_operation: database_operation@, ..self@ }),
    {
        Self { database_operation, ..self }
    }
}

// ---------------------------------------------------------------------------
// Web authentication tokens
// ---------------------------------------------------------------------------

/// The message when a web-auth-token operation has no API token.
pub const MISSING_API_TOKEN_MESSAGE: &'static str = "CKFetchWebAuthTokenOperation requires an API token";

/// The abstract content of a web-auth-token operation.
pub struct FetchWebAuthTokenOperationView {
    pub database_operation: DatabaseOperationView,
    pub api_token: Option<Seq<char>>,
}

/// Mirrors `CKFetchWebAuthTokenOperation`.
#[derive(Debug, PartialEq)]
pub struct CKFetchWebAuthTokenOperation {
    database_operation: CKDatabaseOperation,
    api_token: Option<String>,
}

impl View for CKFetchWebAuthTokenOperation {
    type V = FetchWebAuthTokenOperationView;

    closed spec fn view(&self) -> FetchWebAuthTokenOperationView {
        FetchWebAuthTokenOperationView { database_operation: self.database_operation@, api_token: opt_text_view(self.api_token) }
    }
}

impl CKFetchWebAuthTokenOperation {
    /// An operation without an API token, around the given database operation.
    pub fn new(database_operation: CKDatabaseOperation) -> (r: Self)
        ensures
            r@ == (FetchWebAuthTokenOperationView { database_operation: database_operation@, api_token: None }),
    {
        Self { database_operation, api_token: None }
    }

    /// Mirrors `databaseOperation`.
    pub fn database_operation(&self) -> (r: &CKDatabaseOperation)
        ensures
            r@ == self@.database_operation,
    {
        &self.database_operation
    }

    /// Mirrors `apiToken`.
    pub fn api_token(&self) -> (r: Option<&str>)
        ensures
            r is Some <==> self@.api_token is Some,
            r is Some ==> r->0@ == self@.api_token->0,
    {
        match &self.api_token {
            Some(t) => Some(t.as_str()),
            None => None,
        }
    }

    /// The same operation around another database operation.
    pub fn with_database_operation(self, database_operation: CKDatabaseOperation) -> (r: Self)
        ensures
            r@ == (FetchWebAuthTokenOperationView { database_operation: database_operation@, ..self@ }),
    {
        Self { database_operation, api_token: self.api_token }
    }

    /// The same operation with an API token.
    pub fn with_api_token(self, api_token: &str) -> (r: Self)
        ensures
            r@ == (FetchWebAuthTokenOperationView { api_token: Some(api_token@), ..self@ }),
    {
        Self { database_operation: self.database_operation, api_token: Some(owned(api_token)) }
    }

    /// The API token to send, or the error of an operation that has none.
    pub fn api_token_for_request(&self) -> (r: Result<&str, CloudKitError>)
        ensures
            self@.api_token matches Some(t) ==> (r matches Ok(s) && s@ == t),
            self@.api_token is None ==> (r matches Err(e) && e@ == crate::bridge::bridge_error_view(
                -1i64,
                MISSING_API_TOKEN_MESSAGE@,
            )),
    {
        match &self.api_token {
            Some(t) => Ok(t.as_str()),
            None => Err(CloudKitError::bridge(-1, MISSING_API_TOKEN_MESSAGE)),
        }
    }
}

// ---------------------------------------------------------------------------
// Share operations
// ---------------------------------------------------------------------------

/// The abstract content of a participant lookup outcome.
pub struct ParticipantOutcomeView {
    pub lookup_info: LookupInfoView,
    pub participant: Option<ParticipantView>,
    pub error: Option<ErrorView>,
}

/// The outcome of looking up one participant.
#[derive(Debug, PartialEq)]
pub struct CKShareParticipantFetchResult {
    pub lookup_info: CKUserIdentityLookupInfo,
    pub participant: Option<CKShareParticipant>,
    pub error: Option<CloudKitError>,
}

impl Clone for CKShareParticipantFetchResult {
    fn clone(&self) -> (r: Self)
        ensures
            r@ == self@,
    {
        CKShareParticipantFetchResult {
            lookup_info: self.lookup_info.copy_view(),
            participant: copy_option(&self.participant),
            error: copy_option(&self.error),
        }
    }
}


impl View for CKShareParticipantFetchResult {
    type V = ParticipantOutcomeView;

    open spec fn view(&self) -> ParticipantOutcomeView {
        ParticipantOutcomeView {
            lookup_info: self.lookup_info@,
            participant: participant_option_view(self.participant),
            error: error_option_view(self.error),
        }
    }
}

/// The outcome of a fetch-share-participants operation.
#[derive(Debug, PartialEq)]
pub struct CKFetchShareParticipantsResult {
    pub participants: Vec<CKShareParticipant>,
    pub results: Vec<CKShareParticipantFetchResult>,
    pub operation_error: Option<CloudKitError>,
}

impl Clone for CKFetchShareParticipantsResult {
    fn clone(&self) -> (r: Self)
        ensures
            views_of(r.participants@) == views_of(self.participants@),
            views_of(r.results@) == views_of(self.results@),
            option_view(r.operation_error) == option_view(self.operation_error),
    {
        CKFetchShareParticipantsResult {
            participants: copy_all(&self.participants),
            results: copy_all(&self.results),
            operation_error: copy_option(&self.operation_error),
        }
    }
}


impl CKFetchShareParticipantsResult {
    /// Nothing looked up yet, no operation error.
    pub fn new() -> (r: Self)
        ensures
            r.participants@.len() == 0,
            r.results@.len() == 0,
            r.operation_error is None,
    {
        Self { participants: Vec::new(), results: Vec::new(), operation_error: None }
    }

    /// Takes in the outcome of one lookup: a found participant joins the
    /// participants, and every outcome joins the results with its lookup information.
    pub fn record_lookup(&mut self, lookup_info: CKUserIdentityLookupInfo, outcome: Result<CKShareParticipant, CloudKitError>)
        ensures
            views_of(final(self).results@) == views_of(old(self).results@).push(match outcome {
                Ok(p) => ParticipantOutcomeView { lookup_info: lookup_info@, participant: Some(p@), error: None },
                Err(e) => ParticipantOutcomeView { lookup_info: lookup_info@, participant: None, error: Some(e@) },
            }),
            views_of(final(self).participants@) == match outcome {
                Ok(p) => views_of(old(self).participants@).push(p@),
                Err(_) => views_of(old(self).participants@),
            },
            final(self).operation_error == old(self).operation_error,
    {
        let ghost found_before = self.participants@;
        let ghost results_before = self.results@;
        match outcome {
            Ok(participant) => {
                self.participants.push(participant.clone());
                self.results.push(CKShareParticipantFetchResult { lookup_info, participant: Some(participant), error: None });
                assert(views_of(self.participants@) =~= views_of(found_before).push(self.participants@.last()@));
            },
            Err(error) => {
                self.results.push(CKShareParticipantFetchResult { lookup_info, participant: None, error: Some(error) });
                assert(views_of(self.participants@) =~= views_of(found_before));
            },
        }
        assert(views_of(self.results@) =~= views_of(results_before).push(self.results@.last()@));
    }
}

/// The abstract content of a fetch-share-participants operation.
pub struct FetchShareParticipantsOperationView {
    pub operation: OperationView,
    pub user_identity_lookup_infos: Seq<LookupInfoView>,
}

/// Mirrors `CKFetchShareParticipantsOperation`.
#[derive(Debug, PartialEq)]
pub struct CKFetchShareParticipantsOperation {
    operation: CKOperation,
    user_identity_lookup_infos: Vec<CKUserIdentityLookupInfo>,
}

impl View for CKFetchShareParticipantsOperation {
    type V = FetchShareParticipantsOperationView;

    closed spec fn view(&self) -> FetchShareParticipantsOperationView {
        FetchShareParticipantsOperationView {
            operation: self.operation@,
            user_identity_lookup_infos: views_of(self.user_identity_lookup_infos@),
        }
    }
}

impl CKFetchShareParticipantsOperation {
    /// An operation with no lookups yet, around the given operation.
    pub fn new(operation: CKOperation) -> (r: Self)
        ensures
            r@ == (FetchShareParticipantsOperationView { operation: operation@, user_identity_lookup_infos: Seq::empty() }),
    {
        let r = Self { operation, user_identity_lookup_infos: Vec::new() };
        assert(views_of(r.user_identity_lookup_infos@) =~= Seq::<LookupInfoView>::empty());
        r
    }

    /// The underlying operation.
    pub fn operation(&self) -> (r: &CKOperation)
        ensures
            r@ == self@.operation,
    {
        &self.operation
    }

    /// Mirrors `userIdentityLookupInfos`.
    pub fn user_identity_lookup_infos(&self) -> (r: &[CKUserIdentityLookupInfo])
        ensures
            views_of(r@) == self@.user_identity_lookup_infos,
    {
        self.user_identity_lookup_infos.as_slice()
    }

    /// The same lookups around another operation.
    pub fn with_operation(self, operation: CKOperation) -> (r: Self)
        ensures
            r@ == (FetchShareParticipantsOperationView { operation: operation@, ..self@ }),
    {
        Self { operation, user_identity_lookup_infos: self.user_identity_lookup_infos }
    }

    /// The same operation with other lookups.
    pub fn with_user_identity_lookup_infos(self, user_identity_lookup_infos: Vec<CKUserIdentityLookupInfo>) -> (r: Self)
        ensures
            r@ == (FetchShareParticipantsOperationView { user_identity_lookup_infos: views_of(user_identity_lookup_infos@), ..self@ }),
    {
        Self { operation: self.operation, user_identity_lookup_infos }
    }
}

/// The abstract content of a share-metadata fetch outcome.
pub struct MetadataOutcomeView {
    pub share_url: Seq<char>,
    pub share_metadata: Option<ShareMetadataView>,
    pub error: Option<ErrorView>,
}

pub open spec fn metadata_option_view(m: Option<CKShareMetadata>) -> Option<ShareMetadataView> {
    match m {
        Some(x) => Some(x@),
        None => None,
    }
}

/// The outcome of fetching the metadata behind one share URL.
#[derive(Debug, PartialEq)]
pub struct CKShareMetadataFetchResult {
    pub share_url: String,
    pub share_metadata: Option<CKShareMetadata>,
    pub error: Option<CloudKitError>,
}

impl Clone for CKShareMetadataFetchResult {
    fn clone(&self) -> (r: Self)
        ensures
            r@ == self@,
    {
        CKShareMetadataFetchResult {
            share_url: self.share_url.clone(),
            share_metadata: copy_option(&self.share_metadata),
            error: copy_option(&self.error),
        }
    }
}


impl View for CKShareMetadataFetchResult {
    type V = MetadataOutcomeView;

    open spec fn view(&self) -> MetadataOutcomeView {
        MetadataOutcomeView {
            share_url: self.share_url@,
            share_metadata: metadata_option_view(self.share_metadata),
            error: error_option_view(self.error),
        }
    }
}

/// The outcome of a fetch-share-metadata operation.
#[derive(Debug, PartialEq)]
pub struct CKFetchShareMetadataResult {
    pub share_metadatas: Vec<CKShareMetadata>,
    pub results: Vec<CKShareMetadataFetchResult>,
    pub operation_error: Option<CloudKitError>,
}

impl Clone for CKFetchShareMetadataResult {
    fn clone(&self) -> (r: Self)
        ensures
            views_of(r.share_metadatas@) == views_of(self.share_metadatas@),
            views_of(r.results@) == views_of(self.results@),
            option_view(r.operation_error) == option_view(self.operation_error),
    {
        CKFetchShareMetadataResult {
            share_metadatas: copy_all(&self.share_metadatas),
            results: copy_all(&self.results),
            operation_error: copy_option(&self.operation_error),
        }
    }
}


impl CKFetchShareMetadataResult {
    /// Nothing fetched yet, no operation error.
    pub fn new() -> (r: Self)
        ensures
            r.share_metadatas@.len() == 0,
            r.results@.len() == 0,
            r.operation_error is None,
    {
        Self { share_metadatas: Vec::new(), results: Vec::new(), operation_error: None }
    }

    /// Takes in the outcome of fetching one URL's metadata: fetched metadata
    /// joins the metadata list, and every outcome joins the results with its URL.
    pub fn record_fetch(&mut self, share_url: &str, outcome: Result<CKShareMetadata, CloudKitError>)
        ensures
            views_of(final(self).results@) == views_of(old(self).results@).push(match outcome {
                Ok(m) => MetadataOutcomeView { share_url: share_url@, share_metadata: Some(m@), error: None },
                Err(e) => MetadataOutcomeView { share_url: share_url@, share_metadata: None, error: Some(e@) },
            }),
            views_of(final(self).share_metadatas@) == match outcome {
                Ok(m) => views_of(old(self).share_metadatas@).push(m@),
                Err(_) => views_of(old(self).share_metadatas@),
            },
            final(self).operation_error == old(self).operation_error,
    {
        let ghost found_before = self.share_metadatas@;
        let ghost results_before = self.results@;
        match outcome {
            Ok(metadata) => {
                self.share_metadatas.push(metadata.clone());
                self.results.push(CKShareMetadataFetchResult { share_url: owned(share_url), share_metadata: Some(metadata), error: None });
                assert(views_of(self.share_metadatas@) =~= views_of(found_before).push(self.share_metadatas@.last()@));
            },
            Err(error) => {
                self.results.push(CKShareMetadataFetchResult { share_url: owned(share_url), share_metadata: None, error: Some(error) });
                assert(views_of(self.share_metadatas@) =~= views_of(found_before));
            },
        }
        assert(views_of(self.results@) =~= views_of(results_before).push(self.results@.last()@));
    }
}

/// The abstract content of a fetch-share-metadata operation.
pub struct FetchShareMetadataOperationView {
    pub operation: OperationView,
    pub share_urls: Seq<Seq<char>>,
    pub should_fetch_root_record: bool,
    pub root_record_desired_keys: Option<Seq<Seq<char>>>,
}

/// Mirrors `CKFetchShareMetadataOperation`.
#[derive(Debug, PartialEq)]
pub struct CKFetchShareMetadataOperation {
    operation: CKOperation,
    share_urls: Vec<String>,
    should_fetch_root_record: bool,
    root_record_desired_keys: Option<Vec<String>>,
}

impl View for CKFetchShareMetadataOperation {
    type V = FetchShareMetadataOperationView;

    closed spec fn view(&self) -> FetchShareMetadataOperationView {
        FetchShareMetadataOperationView {
            operation: self.operation@,
            share_urls: texts_view(self.share_urls@),
            should_fetch_root_record: self.should_fetch_root_record,
            root_record_desired_keys: opt_texts_view(self.root_record_desired_keys),
        }
    }
}

impl CKFetchShareMetadataOperation {
    /// An operation with no URLs, not fetching root records, around the given operation.
    pub fn new(operation: CKOperation) -> (r: Self)
        ensures
            r@ == (FetchShareMetadataOperationView {
                operation: operation@,
                share_urls: Seq::empty(),
                should_fetch_root_record: false,
                root_record_desired_keys: None,
            }),
    {
        let r = Self { operation, share_urls: Vec::new(), should_fetch_root_record: false, root_record_desired_keys: None };
        assert(texts_view(r.share_urls@) =~= Seq::<Seq<char>>::empty());
        r
    }

    /// The underlying operation.
    pub fn operation(&self) -> (r: &CKOperation)
        ensures
            r@ == self@.operation,
    {
        &self.operation
    }

    /// Mirrors `shareURLs`.
    pub fn share_urls(&self) -> (r: &[String])
        ensures
            texts_view(r@) == self@.share_urls,
    {
        self.share_urls.as_slice()
    }

    /// Mirrors `shouldFetchRootRecord`.
    pub fn should_fetch_root_record(&self) -> (r: bool)
        ensures
            r == self@.should_fetch_root_record,
    {
        self.should_fetch_root_record
    }

    /// Mirrors `rootRecordDesiredKeys`.
    pub fn root_record_desired_keys(&self) -> (r: Option<&[String]>)
        ensures
            r is Some <==> self@.root_record_desired_keys is Some,
            r is Some ==> texts_view(r->0@) == self@.root_record_desired_keys->0,
    {
        match &self.root_record_desired_keys {
            Some(k) => Some(k.as_slice()),
            None => None,
        }
    }

    /// The same request around another operation.
    pub fn with_operation(self, operation: CKOperation) -> (r: Self)
        ensures
            r@ == (FetchShareMetadataOperationView { operation: operation@, ..self@ }),
    {
        Self { operation, ..self }
    }

    /// The same operation for other URLs.
    pub fn with_share_urls(self, share_urls: Vec<String>) -> (r: Self)
        ensures
            r@ == (FetchShareMetadataOperationView { share_urls: texts_view(share_urls@), ..self@ }),
    {
        Self { share_urls, ..self }
    }

    /// The same operation, fetching root records or not.
    pub fn with_should_fetch_root_record(self, should_fetch_root_record: bool) -> (r: Self)
        ensures
            r@ == (FetchShareMetadataOperationView { should_fetch_root_record, ..self@ }),
    {
        Self { should_fetch_root_record, ..self }
    }

    /// The same operation fetching only the given keys of root records.
    pub fn with_root_record_desired_keys(self, root_record_desired_keys: Vec<String>) -> (r: Self)
        ensures
            r@ == (FetchShareMetadataOperationView { root_record_desired_keys: Some(texts_view(root_record_desired_keys@)), ..self@ }),
    {
        Self { root_record_desired_keys: Some(root_record_desired_keys), ..self }
    }
}

/// The abstract content of a share acceptance outcome.
pub struct AcceptOutcomeView {
    pub share_metadata: ShareMetadataView,
    pub accepted_share: Option<ShareView>,
    pub error: Option<ErrorView>,
}

pub open spec fn share_option_view(s: Option<CKShare>) -> Option<ShareView> {
    match s {
        Some(x) => Some(x@),
        None => None,
    }
}

/// The outcome of accepting one share.
#[derive(Debug, PartialEq)]
pub struct CKAcceptShareResult {
    pub share_metadata: CKShareMetadata,
    pub accepted_share: Option<CKShare>,
    pub error: Option<CloudKitError>,
}

impl Clone for CKAcceptShareResult {
    fn clone(&self) -> (r: Self)
        ensures
            r@ == self@,
    {
        CKAcceptShareResult {
            share_metadata: self.share_metadata.copy_view(),
            accepted_share: copy_option(&self.accepted_share),
            error: copy_option(&self.error),
        }
    }
}


impl View for CKAcceptShareResult {
    type V = AcceptOutcomeView;

    open spec fn view(&self) -> AcceptOutcomeView {
        AcceptOutcomeView {
            share_metadata: self.share_metadata@,
            accepted_share: share_option_view(self.accepted_share),
            error: error_option_view(self.error),
        }
    }
}

/// The outcome of an accept-shares operation.
#[derive(Debug, PartialEq)]
pub struct CKAcceptSharesResult {
    pub accepted_shares: Vec<CKShare>,
    pub results: Vec<CKAcceptShareResult>,
    pub operation_error: Option<CloudKitError>,
}

impl Clone for CKAcceptSharesResult {
    fn clone(&self) -> (r: Self)
        ensures
            views_of(r.accepted_shares@) == views_of(self.accepted_shares@),
            views_of(r.results@) == views_of(self.results@),
            option_view(r.operation_error) == option_view(self.operation_error),
    {
        CKAcceptSharesResult {
            accepted_shares: copy_all(&self.accepted_shares),
            results: copy_all(&self.results),
            operation_error: copy_option(&self.operation_error),
        }
    }
}


impl CKAcceptSharesResult {
    /// Nothing accepted yet, no operation error.
    pub fn new() -> (r: Self)
        ensures
            r.accepted_shares@.len() == 0,
            r.results@.len() == 0,
            r.operation_error is None,
    {
        Self { accepted_shares: Vec::new(), results: Vec::new(), operation_error: None }
    }

    /// Takes in the outcome of accepting the share that `share_metadata`
    /// describes: an accepted share joins the accepted ones, and every outcome
    /// joins the results with its metadata.
    pub fn record_acceptance(&mut self, share_metadata: CKShareMetadata, outcome: Result<CKShare, CloudKitError>)
        ensures
            views_of(final(self).results@) == views_of(old(self).results@).push(match outcome {
                Ok(s) => AcceptOutcomeView { share_metadata: share_metadata@, accepted_share: Some(s@), error: None },
                Err(e) => AcceptOutcomeView { share_metadata: share_metadata@, accepted_share: None, error: Some(e@) },
            }),
            views_of(final(self).accepted_shares@) == match outcome {
                Ok(s) => views_of(old(self).accepted_shares@).push(s@),
                Err(_) => views_of(old(self).accepted_shares@),
            },
            final(self).operation_error == old(self).operation_error,
    {
        let ghost accepted_before = self.accepted_shares@;
        let ghost results_before = self.results@;
        match outcome {
            Ok(share) => {
                self.accepted_shares.push(share.clone());
                self.results.push(CKAcceptShareResult { share_metadata, accepted_share: Some(share), error: None });
                assert(views_of(self.accepted_shares@) =~= views_of(accepted_before).push(self.accepted_shares@.last()@));
            },
            Err(error) => {
                self.results.push(CKAcceptShareResult { share_metadata, accepted_share: None, error: Some(error) });
                assert(views_of(self.accepted_shares@) =~= views_of(accepted_before));
            },
        }
        assert(views_of(self.results@) =~= views_of(results_before).push(self.results@.last()@));
    }
}

/// The abstract content of an accept-shares operation.
pub struct AcceptSharesOperationView {
    pub operation: OperationView,
    pub share_metadatas: Seq<ShareMetadataView>,
}

/// Mirrors `CKAcceptSharesOperation`.
#[derive(Debug, PartialEq)]
pub struct CKAcceptSharesOperation {
    operation: CKOperation,
    share_metadatas: Vec<CKShareMetadata>,
}

impl View for CKAcceptSharesOperation {
    type V = AcceptSharesOperationView;

    closed spec fn view(&self) -> AcceptSharesOperationView {
        AcceptSharesOperationView { operation: self.operation@, share_metadatas: views_of(self.share_metadatas@) }
    }
}

impl CKAcceptSharesOperation {
    /// An operation with no shares yet, around the given operation.
    pub fn new(operation: CKOperation) -> (r: Self)
        ensures
            r@ == (AcceptSharesOperationView { operation: operation@, share_metadatas: Seq::empty() }),
    {
        let r = Self { operation, share_metadatas: Vec::new() };
        assert(views_of(r.share_metadatas@) =~= Seq::<ShareMetadataView>::empty());
        r
    }

    /// The underlying operation.
    pub fn operation(&self) -> (r: &CKOperation)
        ensures
            r@ == self@.operation,
    {
        &self.operation
    }

    /// Mirrors `shareMetadatas`.
    pub fn share_metadatas(&self) -> (r: &[CKShareMetadata])
        ensures
            views_of(r@) == self@.share_metadatas,
    {
        self.share_metadatas.as_slice()
    }

    /// The same shares around another operation.
    pub fn with_operation(self, operation: CKOperation) -> (r: Self)
        ensures
            r@ == (AcceptSharesOperationView { operation: operation@, ..self@ }),
    {
        Self { operation, share_metadatas: self.share_metadatas }
    }

    /// The same operation for other shares.
    pub fn with_share_metadatas(self, share_metadatas: Vec<CKShareMetadata>) -> (r: Self)
        ensures
            r@ == (AcceptSharesOperationView { share_metadatas: views_of(share_metadatas@), ..self@ }),
    {
        Self { operation: self.operation, share_metadatas }
    }
}

/// The abstract content of an access-request outcome.
pub struct AccessRequestOutcomeView {
    pub share_url: Seq<char>,
    pub error: Option<ErrorView>,
}

/// The outcome of requesting access to one share.
#[derive(Debug, PartialEq)]
pub struct CKShareAccessRequestResult {
    pub share_url: String,
    pub error: Option<CloudKitError>,
}

impl Clone for CKShareAccessRequestResult {
    fn clone(&self) -> (r: Self)
        ensures
            r@ == self@,
    {
        CKShareAccessRequestResult {
            share_url: self.share_url.clone(),
            error: copy_option(&self.error),
        }
    }
}


impl View for CKShareAccessRequestResult {
    type V = AccessRequestOutcomeView;

    open spec fn view(&self) -> AccessRequestOutcomeView {
        AccessRequestOutcomeView { share_url: self.share_url@, error: error_option_view(self.error) }
    }
}

/// The outcome of a share-request-access operation.
#[derive(Debug, PartialEq)]
pub struct CKShareRequestAccessResult {
    pub results: Vec<CKShareAccessRequestResult>,
    pub operation_error: Option<CloudKitError>,
}

impl Clone for CKShareRequestAccessResult {
    fn clone(&self) -> (r: Self)
        ensures
            views_of(r.results@) == views_of(self.results@),
            option_view(r.operation_error) == option_view(self.operation_error),
    {
        CKShareRequestAccessResult {
            results: copy_all(&self.results),
            operation_error: copy_option(&self.operation_error),
        }
    }
}


impl CKShareRequestAccessResult {
    /// Nothing requested yet, no operation error.
    pub fn new() -> (r: Self)
        ensures
            r.results@.len() == 0,
            r.operation_error is None,
    {
        Self { results: Vec::new(), operation_error: None }
    }

    /// Takes in the outcome of one request: the URL with its error, if any.
    pub fn record_request(&mut self, share_url: &str, error: Option<CloudKitError>)
        ensures
            views_of(final(self).results@) == views_of(old(self).results@).push(
                AccessRequestOutcomeView { share_url: share_url@, error: error_option_view(error) },
            ),
            final(self).operation_error == old(self).operation_error,
    {
        let ghost results_before = self.results@;
        self.results.push(CKShareAccessRequestResult { share_url: owned(share_url), error });
        assert(views_of(self.results@) =~= views_of(results_before).push(self.results@.last()@));
    }
}

/// The abstract content of a share-request-access operation.
pub struct ShareRequestAccessOperationView {
    pub operation: OperationView,
    pub share_urls: Seq<Seq<char>>,
}

/// Mirrors `CKShareRequestAccessOperation`.
#[derive(Debug, PartialEq)]
pub struct CKShareRequestAccessOperation {
    operation: CKOperation,
    share_urls: Vec<String>,
}

impl View for CKShareRequestAccessOperation {
    type V = ShareRequestAccessOperationView;

    closed spec fn view(&self) -> ShareRequestAccessOperationView {
        ShareRequestAccessOperationView { operation: self.operation@, share_urls: texts_view(self.share_urls@) }
    }
}

impl CKShareRequestAccessOperation {
    /// An operation with no URLs yet, around the given operation.
    pub fn new(operation: CKOperation) -> (r: Self)
        ensures
            r@ == (ShareRequestAccessOperationView { operation: operation@, share_urls: Seq::empty() }),
    {
        let r = Self { operation, share_urls: Vec::new() };
        assert(texts_view(r.share_urls@) =~= Seq::<Seq<char>>::empty());
        r
    }

    /// The underlying operation.
    pub fn operation(&self) -> (r: &CKOperation)
        ensures
            r@ == self@.operation,
    {
        &self.operation
    }

    /// Mirrors `shareURLs`.
    pub fn share_urls(&self) -> (r: &[String])
        ensures
            texts_view(r@) == self@.share_urls,
    {
        self.share_urls.as_slice()
    }

    /// The same URLs around another operation.
    pub fn with_operation(self, operation: CKOperation) -> (r: Self)
        ensures
            r@ == (ShareRequestAccessOperationView { operation: operation@, ..self@ }),
    {
        Self { operation, share_urls: self.share_urls }
    }

    /// The same operation for other URLs.
    pub fn with_share_urls(self, share_urls: Vec<String>) -> (r: Self)
        ensures
            r@ == (ShareRequestAccessOperationView { share_urls: texts_view(share_urls@), ..self@ }),
    {
        Self { operation: self.operation, share_urls }
    }
}

} // verus!
