//! Containers, their databases, account status and application permissions.
use vstd::prelude::*;

use crate::text::{append_decimal, append_text, decimal_text, opt_text_view, owned};

verus! {

// ---------------------------------------------------------------------------
// Account status
// ---------------------------------------------------------------------------

/// Mirrors `CKAccountStatus`.
#[derive(Debug, Clone, Copy, PartialEq, Eq, Hash, Structural)]
#[non_exhaustive]
pub enum AccountStatus {
    CouldNotDetermine,
    Available,
    Restricted,
    NoAccount,
    TemporarilyUnavailable,
    Unknown(i32),
}

pub open spec fn account_status_from_raw(raw: i32) -> AccountStatus {
    if raw == 0 {
        AccountStatus::CouldNotDetermine
    } else if raw == 1 {
        AccountStatus::Available
    } else if raw == 2 {
        AccountStatus::Restricted
    } else if raw == 3 {
        AccountStatus::NoAccount
    } else if raw == 4 {
        AccountStatus::TemporarilyUnavailable
    } else {
        AccountStatus::Unknown(raw)
    }
}

/// The text of an enum value without a name: `unknown(` and the raw value, then `)`.
pub open spec fn unknown_label(raw: i32) -> Seq<char> {
    "unknown("@ + decimal_text(raw as int) + ")"@
}

/// The label of an account status, as `Display` writes it.
pub open spec fn account_status_label(status: AccountStatus) -> Seq<char> {
    match status {
        AccountStatus::CouldNotDetermine => "couldNotDetermine"@,
        AccountStatus::Available => "available"@,
        AccountStatus::Restricted => "restricted"@,
        AccountStatus::NoAccount => "noAccount"@,
        AccountStatus::TemporarilyUnavailable => "temporarilyUnavailable"@,
        AccountStatus::Unknown(raw) => unknown_label(raw),
    }
}

fn unknown_text(raw: i32) -> (r: String)
    ensures
        r@ == unknown_label(raw),
{
    let mut out = owned("unknown(");
    append_decimal(&mut out, raw as i64);
    append_text(&mut out, ")");
    out
}

impl AccountStatus {
    /// The status for a raw `CKAccountStatus` value; values without a name stay `Unknown`.
    pub fn from_raw(raw: i32) -> (r: Self)
        ensures
            r == account_status_from_raw(raw),
    {
        match raw {
            0 => Self::CouldNotDetermine,
            1 => Self::Available,
            2 => Self::Restricted,
            3 => Self::NoAccount,
            4 => Self::TemporarilyUnavailable,
            other => Self::Unknown(other),
        }
    }

    /// The status's label: its `CKAccountStatus` case name, or `unknown(raw)`.
    pub fn to_string(&self) -> (r: String)
        ensures
            r@ == account_status_label(*self),
    {
        match self {
            Self::CouldNotDetermine => owned("couldNotDetermine"),
            Self::Available => owned("available"),
            Self::Restricted => owned("restricted"),
            Self::NoAccount => owned("noAccount"),
            Self::TemporarilyUnavailable => owned("temporarilyUnavailable"),
            Self::Unknown(raw) => unknown_text(*raw),
        }
    }
}

// ---------------------------------------------------------------------------
// Application permissions
// ---------------------------------------------------------------------------

/// Mirrors `CKContainer.ApplicationPermissionStatus`.
#[derive(Debug, Clone, Copy, PartialEq, Eq, Hash, Structural)]
#[non_exhaustive]
pub enum CKApplicationPermissionStatus {
    InitialState,
    CouldNotComplete,
    Denied,
    Granted,
    Unknown(i32),
}

pub open spec fn permission_status_from_raw(raw: i32) -> CKApplicationPermissionStatus {
    if raw == 0 {
        CKApplicationPermissionStatus::InitialState
    } else if raw == 1 {
        CKApplicationPermissionStatus::CouldNotComplete
    } else if raw == 2 {
        CKApplicationPermissionStatus::Denied
    } else if raw == 3 {
        CKApplicationPermissionStatus::Granted
    } else {
        CKApplicationPermissionStatus::Unknown(raw)
    }
}

/// The label of a permission status, as `Display` writes it.
pub open spec fn permission_status_label(status: CKApplicationPermissionStatus) -> Seq<char> {
    match status {
        CKApplicationPermissionStatus::InitialState => "initialState"@,
        CKApplicationPermissionStatus::CouldNotComplete => "couldNotComplete"@,
        CKApplicationPermissionStatus::Denied => "denied"@,
        CKApplicationPermissionStatus::Granted => "granted"@,
        CKApplicationPermissionStatus::Unknown(raw) => unknown_label(raw),
    }
}

impl CKApplicationPermissionStatus {
    /// The status for a raw value; values without a name stay `Unknown`.
    pub fn from_raw(raw: i32) -> (r: Self)
        ensures
            r == permission_status_from_raw(raw),
    {
        match raw {
            0 => Self::InitialState,
            1 => Self::CouldNotComplete,
            2 => Self::Denied,
            3 => Self::Granted,
            other => Self::Unknown(other),
        }
    }

    /// The status's label: its case name, or `unknown(raw)`.
    pub fn to_string(&self) -> (r: String)
        ensures
            r@ == permission_status_label(*self),
    {
        match self {
            Self::InitialState => owned("initialState"),
            Self::CouldNotComplete => owned("couldNotComplete"),
            Self::Denied => owned("denied"),
            Self::Granted => owned("granted"),
            Self::Unknown(raw) => unknown_text(*raw),
        }
    }
}

/// The account status follows the `CKAccountStatus` raw values: 0 could not be
/// determined, 1 available, 2 restricted, 3 no account, 4 temporarily
/// unavailable; every other value is kept as unknown. Distinct raw values give
/// distinct statuses, and each status's label is its case name.
pub proof fn lemma_account_status_raw_values(raw: i32, other: i32)
    ensures
        (raw == 0) <==> account_status_from_raw(raw) == AccountStatus::CouldNotDetermine,
        (raw == 1) <==> account_status_from_raw(raw) == AccountStatus::Available,
        (raw == 2) <==> account_status_from_raw(raw) == AccountStatus::Restricted,
        (raw == 3) <==> account_status_from_raw(raw) == AccountStatus::NoAccount,
        (raw == 4) <==> account_status_from_raw(raw) == AccountStatus::TemporarilyUnavailable,
        !(0 <= raw <= 4) <==> account_status_from_raw(raw) == AccountStatus::Unknown(raw),
        account_status_from_raw(raw) == account_status_from_raw(other) ==> raw == other,
        account_status_label(AccountStatus::CouldNotDetermine) == "couldNotDetermine"@,
        account_status_label(AccountStatus::Available) == "available"@,
        account_status_label(AccountStatus::Restricted) == "restricted"@,
        account_status_label(AccountStatus::NoAccount) == "noAccount"@,
        account_status_label(AccountStatus::TemporarilyUnavailable) == "temporarilyUnavailable"@,
        account_status_label(AccountStatus::Unknown(raw)) == "unknown("@ + decimal_text(raw as int) + ")"@,
{
}

/// The application permission status follows the framework's raw values: 0 is the
/// initial state, 1 could not complete, 2 denied, 3 granted; every other value is
/// kept as unknown. Distinct raw values give distinct statuses, and each status's
/// label is its case name.
pub proof fn lemma_permission_status_raw_values(raw: i32, other: i32)
    ensures
        (raw == 0) <==> permission_status_from_raw(raw) == CKApplicationPermissionStatus::InitialState,
        (raw == 1) <==> permission_status_from_raw(raw) == CKApplicationPermissionStatus::CouldNotComplete,
        (raw == 2) <==> permission_status_from_raw(raw) == CKApplicationPermissionStatus::Denied,
        (raw == 3) <==> permission_status_from_raw(raw) == CKApplicationPermissionStatus::Granted,
        !(0 <= raw <= 3) <==> permission_status_from_raw(raw) == CKApplicationPermissionStatus::Unknown(raw),
        permission_status_from_raw(raw) == permission_status_from_raw(other) ==> raw == other,
        permission_status_label(CKApplicationPermissionStatus::InitialState) == "initialState"@,
        permission_status_label(CKApplicationPermissionStatus::CouldNotComplete) == "couldNotComplete"@,
        permission_status_label(CKApplicationPermissionStatus::Denied) == "denied"@,
        permission_status_label(CKApplicationPermissionStatus::Granted) == "granted"@,
        permission_status_label(CKApplicationPermissionStatus::Unknown(raw)) == "unknown("@ + decimal_text(raw as int) + ")"@,
{
}

/// Mirrors `CKContainer.ApplicationPermissions`, a set of flag bits.
#[derive(Debug, Clone, Copy, PartialEq, Eq, Hash)]
pub struct CKApplicationPermissions(u64);

impl View for CKApplicationPermissions {
    type V = u64;

    closed spec fn view(&self) -> u64 {
        self.0
    }
}

impl Default for CKApplicationPermissions {
    fn default() -> (r: Self)
        ensures
            r@ == 0,
    {
        Self(0)
    }
}

impl CKApplicationPermissions {
    /// Mirrors `userDiscoverability`.
    pub fn user_discoverability() -> (r: Self)
        ensures
            r@ == 1,
    {
        Self(1)
    }

    /// The flag bits.
    pub fn bits(self) -> (r: u64)
        ensures
            r == self@,
    {
        self.0
    }

    /// Whether every bit of `other` is set here.
    pub fn contains(self, other: Self) -> (r: bool)
        ensures
            r == (self@ & other@ == other@),
    {
        (self.0 & other.0) == other.0
    }

    /// The permissions set in either operand (`|`).
    pub fn union(self, other: Self) -> (r: Self)
        ensures
            r@ == self@ | other@,
    {
        Self(self.0 | other.0)
    }

    /// Adds the permissions of `other` to these (`|=`).
    pub fn insert(&mut self, other: Self)
        ensures
            final(self)@ == old(self)@ | other@,
    {
        self.0 = self.0 | other.0;
    }
}

/// For every option set of the library (permissions, subscription options,
/// zone capabilities, sharing options), whose view is its bits: a set contains
/// itself, a union contains each of its parts, and inserting a set into itself
/// changes nothing.
pub proof fn lemma_option_set_union(a: u64, b: u64)
    ensures
        a & a == a,
        (a | b) & a == a,
        (a | b) & b == b,
        a | a == a,
        a | b == b | a,
{
    assert(a & a == a) by (bit_vector);
    assert((a | b) & a == a) by (bit_vector);
    assert((a | b) & b == b) by (bit_vector);
    assert(a | a == a) by (bit_vector);
    assert(a | b == b | a) by (bit_vector);
}

// ---------------------------------------------------------------------------
// Containers and databases
// ---------------------------------------------------------------------------

/// Mirrors `CKDatabase.Scope`.
#[derive(Debug, Clone, Copy, PartialEq, Eq, Hash, Structural)]
pub enum CKDatabaseScope {
    Public,
    Private,
    Shared,
}

pub open spec fn database_scope_to_raw(scope: CKDatabaseScope) -> i32 {
    match scope {
        CKDatabaseScope::Public => 1,
        CKDatabaseScope::Private => 2,
        CKDatabaseScope::Shared => 3,
    }
}

impl CKDatabaseScope {
    /// The raw `CKDatabase.Scope` value.
    pub fn to_raw(self) -> (r: i32)
        ensures
            r == database_scope_to_raw(self),
    {
        match self {
            Self::Public => 1,
            Self::Private => 2,
            Self::Shared => 3,
        }
    }
}

/// The database scope's raw values are those of `CKDatabase.Scope`: 1 public,
/// 2 private, 3 shared.
pub proof fn lemma_database_scope_raw_values()
    ensures
        database_scope_to_raw(CKDatabaseScope::Public) == 1,
        database_scope_to_raw(CKDatabaseScope::Private) == 2,
        database_scope_to_raw(CKDatabaseScope::Shared) == 3,
{
}

/// Mirrors `CKContainer`; its view is the identifier, absent for the default container.
#[derive(Debug, PartialEq, Eq, Hash)]
pub struct CKContainer {
    identifier: Option<String>,
}

impl View for CKContainer {
    type V = Option<Seq<char>>;

    closed spec fn view(&self) -> Option<Seq<char>> {
        opt_text_view(self.identifier)
    }
}

impl Clone for CKContainer {
    fn clone(&self) -> (r: Self)
        ensures
            r@ == self@,
    {
        let identifier = match &self.identifier {
            Some(t) => Some(t.clone()),
            None => None,
        };
        CKContainer { identifier }
    }
}

impl Default for CKContainer {
    fn default() -> (r: Self)
        ensures
            r@ is None,
    {
        Self::new()
    }
}

/// The abstract content of a database handle.
pub struct DatabaseView {
    pub container: Option<Seq<char>>,
    pub database_scope: CKDatabaseScope,
}

/// Mirrors `CKDatabase`: a container and a scope.
#[derive(Debug, PartialEq, Eq, Hash)]
pub struct CKDatabase {
    container: CKContainer,
    database_scope: CKDatabaseScope,
}

impl View for CKDatabase {
    type V = DatabaseView;

    closed spec fn view(&self) -> DatabaseView {
        DatabaseView { container: self.container@, database_scope: self.database_scope }
    }
}

impl Clone for CKDatabase {
    fn clone(&self) -> (r: Self)
        ensures
            r@ == self@,
    {
        CKDatabase { container: self.container.clone(), database_scope: self.database_scope }
    }
}

impl CKDatabase {
    /// The database of `container` with the given scope.
    pub fn new(container: CKContainer, database_scope: CKDatabaseScope) -> (r: Self)
        ensures
            r@ == (DatabaseView { container: container@, database_scope }),
    {
        Self { container, database_scope }
    }

    /// Mirrors `CKDatabase.databaseScope`.
    pub fn database_scope(&self) -> (r: CKDatabaseScope)
        ensures
            r == self@.database_scope,
    {
        self.database_scope
    }

    /// The container the database belongs to.
    pub fn container(&self) -> (r: &CKContainer)
        ensures
            r@ == self@.container,
    {
        &self.container
    }
}

impl CKContainer {
    /// The default container of the app.
    pub fn new() -> (r: Self)
        ensures
            r@ is None,
    {
        Self { identifier: None }
    }

    /// Mirrors `CKContainer.default()`.
    pub fn default() -> (r: Self)
        ensures
            r@ is None,
    {
        Self::new()
    }

    /// Mirrors `CKContainer(identifier:)`.
    pub fn container(identifier: &str) -> (r: Self)
        ensures
            r@ == Some(identifier@),
    {
        Self { identifier: Some(owned(identifier)) }
    }

    /// Mirrors `containerIdentifier`; absent for the default container.
    pub fn container_identifier(&self) -> (r: Option<&str>)
        ensures
            r is Some <==> self@ is Some,
            r is Some ==> r->0@ == self@->0,
    {
        match &self.identifier {
            Some(t) => Some(t.as_str()),
            None => None,
        }
    }

    /// Mirrors `privateCloudDatabase`.
    pub fn private_cloud_database(&self) -> (r: CKDatabase)
        ensures
            r@ == (DatabaseView { container: self@, database_scope: CKDatabaseScope::Private }),
    {
        CKDatabase::new(self.clone(), CKDatabaseScope::Private)
    }

    /// Mirrors `publicCloudDatabase`.
    pub fn public_cloud_database(&self) -> (r: CKDatabase)
        ensures
            r@ == (DatabaseView { container: self@, database_scope: CKDatabaseScope::Public }),
    {
        CKDatabase::new(self.clone(), CKDatabaseScope::Public)
    }

    /// Mirrors `sharedCloudDatabase`.
    pub fn shared_cloud_database(&self) -> (r: CKDatabase)
        ensures
            r@ == (DatabaseView { container: self@, database_scope: CKDatabaseScope::Shared }),
    {
        CKDatabase::new(self.clone(), CKDatabaseScope::Shared)
    }

    /// Mirrors `database(with:)`.
    pub fn database_with_scope(&self, scope: CKDatabaseScope) -> (r: CKDatabase)
        ensures
            r@ == (DatabaseView { container: self@, database_scope: scope }),
    {
        CKDatabase::new(self.clone(), scope)
    }
}

} // verus!
