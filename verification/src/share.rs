//! Sharing: participants and their roles, permissions and acceptance, shares,
//! share metadata, sharing options and access requests.
use vstd::prelude::*;

use crate::payload::{
    CKRecordPayload, CKShareMetadataPayload, CKShareParticipantPayload, CKSharePayload,
};
use crate::record::{
    bytes_option_view, copy_bytes, copy_bytes_option, copy_record_id_option, copy_text_option,
    record_from_payload_view, record_id_option_from_payload, record_id_option_to_payload,
    record_id_option_view, record_id_payload_option_view, record_payload_matches,
    canonical_record, lemma_record_payload_round_trip,
    zone_id_payload_view, CKRecord, CKRecordID, CKRecordZoneID, RecordIdView, RecordView,
    RecordZoneIdView,
};
use crate::text::{opt_text_view, owned, text_eq};
use crate::user_identity::{
    user_identity_payload_view, CKUserIdentity, CKUserIdentityLookupInfo, LookupInfoView,
    UserIdentityView,
};

verus! {

// ---------------------------------------------------------------------------
// Acceptance status, permission, role and participant type
// ---------------------------------------------------------------------------

/// Mirrors `CKShare.ParticipantAcceptanceStatus`.
#[derive(Debug, Clone, Copy, PartialEq, Eq, Hash, Structural)]
#[non_exhaustive]
pub enum CKShareParticipantAcceptanceStatus {
    Unknown,
    Pending,
    Accepted,
    Removed,
    UnknownValue(i32),
}

pub open spec fn acceptance_status_from_raw(raw: i32) -> CKShareParticipantAcceptanceStatus {
    if raw == 0 {
        CKShareParticipantAcceptanceStatus::Unknown
    } else if raw == 1 {
        CKShareParticipantAcceptanceStatus::Pending
    } else if raw == 2 {
        CKShareParticipantAcceptanceStatus::Accepted
    } else if raw == 3 {
        CKShareParticipantAcceptanceStatus::Removed
    } else {
        CKShareParticipantAcceptanceStatus::UnknownValue(raw)
    }
}

pub open spec fn acceptance_status_to_raw(status: CKShareParticipantAcceptanceStatus) -> i32 {
    match status {
        CKShareParticipantAcceptanceStatus::Unknown => 0,
        CKShareParticipantAcceptanceStatus::Pending => 1,
        CKShareParticipantAcceptanceStatus::Accepted => 2,
        CKShareParticipantAcceptanceStatus::Removed => 3,
        CKShareParticipantAcceptanceStatus::UnknownValue(raw) => raw,
    }
}

impl CKShareParticipantAcceptanceStatus {
    /// The status for a raw value; values without a name stay `UnknownValue`.
    pub fn from_raw(raw: i32) -> (r: Self)
        ensures
            r == acceptance_status_from_raw(raw),
    {
        match raw {
            0 => Self::Unknown,
            1 => Self::Pending,
            2 => Self::Accepted,
            3 => Self::Removed,
            other => Self::UnknownValue(other),
        }
    }

    /// The raw value of the status.
    pub fn to_raw(self) -> (r: i32)
        ensures
            r == acceptance_status_to_raw(self),
    {
        match self {
            Self::Unknown => 0,
            Self::Pending => 1,
            Self::Accepted => 2,
            Self::Removed => 3,
            Self::UnknownValue(raw) => raw,
        }
    }
}

/// Mirrors `CKShare.ParticipantPermission`; `NoAccess` is the framework's `none`.
#[derive(Debug, Clone, Copy, PartialEq, Eq, Hash, Structural)]
#[non_exhaustive]
pub enum CKShareParticipantPermission {
    Unknown,
    NoAccess,
    ReadOnly,
    ReadWrite,
    UnknownValue(i32),
}

pub open spec fn permission_from_raw(raw: i32) -> CKShareParticipantPermission {
    if raw == 0 {
        CKShareParticipantPermission::Unknown
    } else if raw == 1 {
        CKShareParticipantPermission::NoAccess
    } else if raw == 2 {
        CKShareParticipantPermission::ReadOnly
    } else if raw == 3 {
        CKShareParticipantPermission::ReadWrite
    } else {
        CKShareParticipantPermission::UnknownValue(raw)
    }
}

pub open spec fn permission_to_raw(permission: CKShareParticipantPermission) -> i32 {
    match permission {
        CKShareParticipantPermission::Unknown => 0,
        CKShareParticipantPermission::NoAccess => 1,
        CKShareParticipantPermission::ReadOnly => 2,
        CKShareParticipantPermission::ReadWrite => 3,
        CKShareParticipantPermission::UnknownValue(raw) => raw,
    }
}

impl CKShareParticipantPermission {
    /// The permission for a raw value; values without a name stay `UnknownValue`.
    pub fn from_raw(raw: i32) -> (r: Self)
        ensures
            r == permission_from_raw(raw),
    {
        match raw {
            0 => Self::Unknown,
            1 => Self::NoAccess,
            2 => Self::ReadOnly,
            3 => Self::ReadWrite,
            other => Self::UnknownValue(other),
        }
    }

    /// The raw value of the permission.
    pub fn to_raw(self) -> (r: i32)
        ensures
            r == permission_to_raw(self),
    {
        match self {
            Self::Unknown => 0,
            Self::NoAccess => 1,
            Self::ReadOnly => 2,
            Self::ReadWrite => 3,
            Self::UnknownValue(raw) => raw,
        }
    }
}

/// Mirrors `CKShare.ParticipantRole`.
#[derive(Debug, Clone, Copy, PartialEq, Eq, Hash, Structural)]
#[non_exhaustive]
pub enum CKShareParticipantRole {
    Unknown,
    Owner,
    Administrator,
    PrivateUser,
    PublicUser,
    UnknownValue(i32),
}

pub open spec fn role_from_raw(raw: i32) -> CKShareParticipantRole {
    if raw == 0 {
        CKShareParticipantRole::Unknown
    } else if raw == 1 {
        CKShareParticipantRole::Owner
    } else if raw == 2 {
        CKShareParticipantRole::Administrator
    } else if raw == 3 {
        CKShareParticipantRole::PrivateUser
    } else if raw == 4 {
        CKShareParticipantRole::PublicUser
    } else {
        CKShareParticipantRole::UnknownValue(raw)
    }
}

pub open spec fn role_to_raw(role: CKShareParticipantRole) -> i32 {
    match role {
        CKShareParticipantRole::Unknown => 0,
        CKShareParticipantRole::Owner => 1,
        CKShareParticipantRole::Administrator => 2,
        CKShareParticipantRole::PrivateUser => 3,
        CKShareParticipantRole::PublicUser => 4,
        CKShareParticipantRole::UnknownValue(raw) => raw,
    }
}

impl CKShareParticipantRole {
    /// The role for a raw value; values without a name stay `UnknownValue`.
    pub fn from_raw(raw: i32) -> (r: Self)
        ensures
            r == role_from_raw(raw),
    {
        match raw {
            0 => Self::Unknown,
            1 => Self::Owner,
            2 => Self::Administrator,
            3 => Self::PrivateUser,
            4 => Self::PublicUser,
            other => Self::UnknownValue(other),
        }
    }

    /// The raw value of the role.
    pub fn to_raw(self) -> (r: i32)
        ensures
            r == role_to_raw(self),
    {
        match self {
            Self::Unknown => 0,
            Self::Owner => 1,
            Self::Administrator => 2,
            Self::PrivateUser => 3,
            Self::PublicUser => 4,
            Self::UnknownValue(raw) => raw,
        }
    }
}

/// Mirrors `CKShare.ParticipantType`, the older classification of participants.
#[derive(Debug, Clone, Copy, PartialEq, Eq, Hash, Structural)]
#[non_exhaustive]
pub enum CKShareParticipantType {
    Unknown,
    Owner,
    PrivateUser,
    PublicUser,
    UnknownValue(i32),
}

pub open spec fn participant_type_from_raw(raw: i32) -> CKShareParticipantType {
    if raw == 0 {
        CKShareParticipantType::Unknown
    } else if raw == 1 {
        CKShareParticipantType::Owner
    } else if raw == 3 {
        CKShareParticipantType::PrivateUser
    } else if raw == 4 {
        CKShareParticipantType::PublicUser
    } else {
        CKShareParticipantType::UnknownValue(raw)
    }
}

pub open spec fn participant_type_to_raw(t: CKShareParticipantType) -> i32 {
    match t {
        CKShareParticipantType::Unknown => 0,
        CKShareParticipantType::Owner => 1,
        CKShareParticipantType::PrivateUser => 3,
        CKShareParticipantType::PublicUser => 4,
        CKShareParticipantType::UnknownValue(raw) => raw,
    }
}

/// The participant type that a role implies: the same classification where one
/// exists, `Unknown` for administrators and for participants without a role.
pub open spec fn participant_type_of_role(role: Option<CKShareParticipantRole>) -> CKShareParticipantType {
    match role {
        Some(CKShareParticipantRole::Owner) => CKShareParticipantType::Owner,
        Some(CKShareParticipantRole::PrivateUser) => CKShareParticipantType::PrivateUser,
        Some(CKShareParticipantRole::PublicUser) => CKShareParticipantType::PublicUser,
        Some(CKShareParticipantRole::UnknownValue(raw)) => CKShareParticipantType::UnknownValue(raw),
        _ => CKShareParticipantType::Unknown,
    }
}

impl CKShareParticipantType {
    /// The type for a raw value; values without a name stay `UnknownValue`.
    pub fn from_raw(raw: i32) -> (r: Self)
        ensures
            r == participant_type_from_raw(raw),
    {
        match raw {
            0 => Self::Unknown,
            1 => Self::Owner,
            3 => Self::PrivateUser,
            4 => Self::PublicUser,
            other => Self::UnknownValue(other),
        }
    }

    /// The raw value of the type.
    pub fn to_raw(self) -> (r: i32)
        ensures
            r == participant_type_to_raw(self),
    {
        match self {
            Self::Unknown => 0,
            Self::Owner => 1,
            Self::PrivateUser => 3,
            Self::PublicUser => 4,
            Self::UnknownValue(raw) => raw,
        }
    }
}

/// Reading a raw value and writing it back gives the same raw value, for every
/// status, permission, role and participant type.
pub proof fn lemma_share_raw_values_round_trip(raw: i32)
    ensures
        acceptance_status_to_raw(acceptance_status_from_raw(raw)) == raw,
        permission_to_raw(permission_from_raw(raw)) == raw,
        role_to_raw(role_from_raw(raw)) == raw,
        participant_type_to_raw(participant_type_from_raw(raw)) == raw,
{
}

/// The acceptance status follows the framework's raw values: 0 is unknown, 1
/// pending, 2 accepted, 3 removed; every other value is kept as an unknown value.
/// Distinct raw values give distinct statuses.
pub proof fn lemma_acceptance_status_raw_values(raw: i32, other: i32)
    ensures
        (raw == 0) <==> acceptance_status_from_raw(raw) == CKShareParticipantAcceptanceStatus::Unknown,
        (raw == 1) <==> acceptance_status_from_raw(raw) == CKShareParticipantAcceptanceStatus::Pending,
        (raw == 2) <==> acceptance_status_from_raw(raw) == CKShareParticipantAcceptanceStatus::Accepted,
        (raw == 3) <==> acceptance_status_from_raw(raw) == CKShareParticipantAcceptanceStatus::Removed,
        !(0 <= raw <= 3) <==> acceptance_status_from_raw(raw)
            == CKShareParticipantAcceptanceStatus::UnknownValue(raw),
        acceptance_status_to_raw(CKShareParticipantAcceptanceStatus::Unknown) == 0,
        acceptance_status_to_raw(CKShareParticipantAcceptanceStatus::Pending) == 1,
        acceptance_status_to_raw(CKShareParticipantAcceptanceStatus::Accepted) == 2,
        acceptance_status_to_raw(CKShareParticipantAcceptanceStatus::Removed) == 3,
        acceptance_status_from_raw(raw) == acceptance_status_from_raw(other) ==> raw == other,
{
}

/// The permission follows the framework's raw values: 0 is unknown, 1 no access
/// (the framework's `none`), 2 read-only, 3 read-write; every other value is kept
/// as an unknown value. Distinct raw values give distinct permissions.
pub proof fn lemma_permission_raw_values(raw: i32, other: i32)
    ensures
        (raw == 0) <==> permission_from_raw(raw) == CKShareParticipantPermission::Unknown,
        (raw == 1) <==> permission_from_raw(raw) == CKShareParticipantPermission::NoAccess,
        (raw == 2) <==> permission_from_raw(raw) == CKShareParticipantPermission::ReadOnly,
        (raw == 3) <==> permission_from_raw(raw) == CKShareParticipantPermission::ReadWrite,
        !(0 <= raw <= 3) <==> permission_from_raw(raw) == CKShareParticipantPermission::UnknownValue(raw),
        permission_to_raw(CKShareParticipantPermission::Unknown) == 0,
        permission_to_raw(CKShareParticipantPermission::NoAccess) == 1,
        permission_to_raw(CKShareParticipantPermission::ReadOnly) == 2,
        permission_to_raw(CKShareParticipantPermission::ReadWrite) == 3,
        permission_from_raw(raw) == permission_from_raw(other) ==> raw == other,
{
}

/// The role follows the framework's raw values: 0 is unknown, 1 owner, 2
/// administrator, 3 private user, 4 public user; every other value is kept as an
/// unknown value. Distinct raw values give distinct roles.
pub proof fn lemma_role_raw_values(raw: i32, other: i32)
    ensures
        (raw == 0) <==> role_from_raw(raw) == CKShareParticipantRole::Unknown,
        (raw == 1) <==> role_from_raw(raw) == CKShareParticipantRole::Owner,
        (raw == 2) <==> role_from_raw(raw) == CKShareParticipantRole::Administrator,
        (raw == 3) <==> role_from_raw(raw) == CKShareParticipantRole::PrivateUser,
        (raw == 4) <==> role_from_raw(raw) == CKShareParticipantRole::PublicUser,
        !(0 <= raw <= 4) <==> role_from_raw(raw) == CKShareParticipantRole::UnknownValue(raw),
        role_to_raw(CKShareParticipantRole::Unknown) == 0,
        role_to_raw(CKShareParticipantRole::Owner) == 1,
        role_to_raw(CKShareParticipantRole::Administrator) == 2,
        role_to_raw(CKShareParticipantRole::PrivateUser) == 3,
        role_to_raw(CKShareParticipantRole::PublicUser) == 4,
        role_from_raw(raw) == role_from_raw(other) ==> raw == other,
{
}

/// The participant type follows the framework's raw values: 0 is unknown, 1
/// owner, 3 private user, 4 public user; every other value (2 among them) is
/// kept as an unknown value. Distinct raw values give distinct types.
pub proof fn lemma_participant_type_raw_values(raw: i32, other: i32)
    ensures
        (raw == 0) <==> participant_type_from_raw(raw) == CKShareParticipantType::Unknown,
        (raw == 1) <==> participant_type_from_raw(raw) == CKShareParticipantType::Owner,
        (raw == 3) <==> participant_type_from_raw(raw) == CKShareParticipantType::PrivateUser,
        (raw == 4) <==> participant_type_from_raw(raw) == CKShareParticipantType::PublicUser,
        !(raw == 0 || raw == 1 || raw == 3 || raw == 4) <==> participant_type_from_raw(raw)
            == CKShareParticipantType::UnknownValue(raw),
        participant_type_to_raw(CKShareParticipantType::Unknown) == 0,
        participant_type_to_raw(CKShareParticipantType::Owner) == 1,
        participant_type_to_raw(CKShareParticipantType::PrivateUser) == 3,
        participant_type_to_raw(CKShareParticipantType::PublicUser) == 4,
        participant_type_from_raw(raw) == participant_type_from_raw(other) ==> raw == other,
{
}

/// A participant's type, written as a raw value, is its role's raw value, for
/// every role but `Administrator` (which has no participant type).
pub proof fn lemma_participant_type_follows_role(role: CKShareParticipantRole)
    requires
        role != CKShareParticipantRole::Administrator,
        role matches CKShareParticipantRole::UnknownValue(raw) ==> !(0 <= raw <= 4),
    ensures
        participant_type_to_raw(participant_type_of_role(Some(role))) == role_to_raw(role),
        participant_type_from_raw(role_to_raw(role)) == participant_type_of_role(Some(role)),
{
}

// ---------------------------------------------------------------------------
// Sharing options
// ---------------------------------------------------------------------------

/// Mirrors `CKSharingParticipantAccessOption`, a set of flag bits.
#[derive(Debug, Clone, Copy, PartialEq, Eq, Hash)]
pub struct CKSharingParticipantAccessOption(u64);

impl View for CKSharingParticipantAccessOption {
    type V = u64;

    closed spec fn view(&self) -> u64 {
        self.0
    }
}

impl Default for CKSharingParticipantAccessOption {
    fn default() -> (r: Self)
        ensures
            r@ == 0,
    {
        Self(0)
    }
}

impl CKSharingParticipantAccessOption {
    /// Mirrors `anyoneWithLink`.
    pub fn anyone_with_link() -> (r: Self)
        ensures
            r@ == 1,
    {
        Self(1)
    }

    /// Mirrors `specifiedRecipientsOnly`.
    pub fn specified_recipients_only() -> (r: Self)
        ensures
            r@ == 2,
    {
        Self(2)
    }

    /// Mirrors `any`: every access option.
    pub fn any() -> (r: Self)
        ensures
            r@ == 3,
    {
        Self(3)
    }

    /// The flag bits.
    pub fn bits(self) -> (r: u64)
        ensures
            r == self@,
    {
        self.0
    }

    /// Whether every bit of `other` is set here.
    pub fn contains(self, other: Self) -> (r: bool)
        ensures
            r == (self@ & other@ == other@),
    {
        (self.0 & other.0) == other.0
    }

    /// The options set in either operand (`|`).
    pub fn union(self, other: Self) -> (r: Self)
        ensures
            r@ == self@ | other@,
    {
        Self(self.0 | other.0)
    }

    /// Adds the options of `other` to these (`|=`).
    pub fn insert(&mut self, other: Self)
        ensures
            final(self)@ == old(self)@ | other@,
    {
        self.0 = self.0 | other.0;
    }
}

/// Mirrors `CKSharingParticipantPermissionOption`, a set of flag bits.
#[derive(Debug, Clone, Copy, PartialEq, Eq, Hash)]
pub struct CKSharingParticipantPermissionOption(u64);

impl View for CKSharingParticipantPermissionOption {
    type V = u64;

    closed spec fn view(&self) -> u64 {
        self.0
    }
}

impl Default for CKSharingParticipantPermissionOption {
    fn default() -> (r: Self)
        ensures
            r@ == 0,
    {
        Self(0)
    }
}

impl CKSharingParticipantPermissionOption {
    /// Mirrors `readOnly`.
    pub fn read_only() -> (r: Self)
        ensures
            r@ == 1,
    {
        Self(1)
    }

    /// Mirrors `readWrite`.
    pub fn read_write() -> (r: Self)
        ensures
            r@ == 2,
    {
        Self(2)
    }

    /// Mirrors `any`: every permission option.
    pub fn any() -> (r: Self)
        ensures
            r@ == 3,
    {
        Self(3)
    }

    /// The flag bits.
    pub fn bits(self) -> (r: u64)
        ensures
            r == self@,
    {
        self.0
    }

    /// Whether every bit of `other` is set here.
    pub fn contains(self, other: Self) -> (r: bool)
        ensures
            r == (self@ & other@ == other@),
    {
        (self.0 & other.0) == other.0
    }

    /// The options set in either operand (`|`).
    pub fn union(self, other: Self) -> (r: Self)
        ensures
            r@ == self@ | other@,
    {
        Self(self.0 | other.0)
    }

    /// Adds the options of `other` to these (`|=`).
    pub fn insert(&mut self, other: Self)
        ensures
            final(self)@ == old(self)@ | other@,
    {
        self.0 = self.0 | other.0;
    }
}

/// `any` is the union of the two named options of each kind, and holds each of them.
pub proof fn lemma_any_sharing_options()
    ensures
        (1u64 | 2u64) == 3u64,
        (3u64 & 1u64) == 1u64,
        (3u64 & 2u64) == 2u64,
{
    assert((1u64 | 2u64) == 3u64) by (bit_vector);
    assert((3u64 & 1u64) == 1u64) by (bit_vector);
    assert((3u64 & 2u64) == 2u64) by (bit_vector);
}

/// The abstract content of allowed sharing options: permission bits, then access bits.
pub struct AllowedSharingOptionsView {
    pub permission_options: u64,
    pub access_options: u64,
}

/// Mirrors `CKAllowedSharingOptions`.
#[derive(Debug, Clone, Copy, PartialEq, Eq, Hash)]
pub struct CKAllowedSharingOptions {
    allowed_participant_permission_options: CKSharingParticipantPermissionOption,
    allowed_participant_access_options: CKSharingParticipantAccessOption,
}

impl View for CKAllowedSharingOptions {
    type V = AllowedSharingOptionsView;

    closed spec fn view(&self) -> AllowedSharingOptionsView {
        AllowedSharingOptionsView {
            permission_options: self.allowed_participant_permission_options@,
            access_options: self.allowed_participant_access_options@,
        }
    }
}

impl CKAllowedSharingOptions {
    /// Options allowing the given permissions and access kinds.
    pub fn new(
        allowed_participant_permission_options: CKSharingParticipantPermissionOption,
        allowed_participant_access_options: CKSharingParticipantAccessOption,
    ) -> (r: Self)
        ensures
            r@ == (AllowedSharingOptionsView {
                permission_options: allowed_participant_permission_options@,
                access_options: allowed_participant_access_options@,
            }),
    {
        Self { allowed_participant_permission_options, allowed_participant_access_options }
    }

    /// Mirrors `CKAllowedSharingOptions.standard`: every permission and every access kind.
    pub fn standard() -> (r: Self)
        ensures
            r@ == (AllowedSharingOptionsView { permission_options: 3, access_options: 3 }),
    {
        Self::new(CKSharingParticipantPermissionOption::any(), CKSharingParticipantAccessOption::any())
    }

    /// Mirrors `allowedParticipantPermissionOptions`.
    pub fn allowed_participant_permission_options(&self) -> (r: CKSharingParticipantPermissionOption)
        ensures
            r@ == self@.permission_options,
    {
        self.allowed_participant_permission_options
    }

    /// Mirrors `allowedParticipantAccessOptions`.
    pub fn allowed_participant_access_options(&self) -> (r: CKSharingParticipantAccessOption)
        ensures
            r@ == self@.access_options,
    {
        self.allowed_participant_access_options
    }
}

impl Default for CKAllowedSharingOptions {
    fn default() -> (r: Self)
        ensures
            r@ == (AllowedSharingOptionsView { permission_options: 3, access_options: 3 }),
    {
        Self::standard()
    }
}

// ---------------------------------------------------------------------------
// Access requesters and blocked identities
// ---------------------------------------------------------------------------

/// The abstract content of an access requester.
pub struct AccessRequesterView {
    pub user_identity: UserIdentityView,
    pub participant_lookup_info: LookupInfoView,
    pub contact_display_name: Option<Seq<char>>,
}

/// Mirrors `CKShareAccessRequester`.
#[derive(Debug, PartialEq, Eq)]
pub struct CKShareAccessRequester {
    user_identity: CKUserIdentity,
    participant_lookup_info: CKUserIdentityLookupInfo,
    contact_display_name: Option<String>,
}

impl View for CKShareAccessRequester {
    type V = AccessRequesterView;

    closed spec fn view(&self) -> AccessRequesterView {
        AccessRequesterView {
            user_identity: self.user_identity@,
            participant_lookup_info: self.participant_lookup_info@,
            contact_display_name: opt_text_view(self.contact_display_name),
        }
    }
}

impl Clone for CKShareAccessRequester {
    fn clone(&self) -> (r: Self)
        ensures
            r@ == self@,
    {
        CKShareAccessRequester {
            user_identity: self.user_identity.clone(),
            participant_lookup_info: self.participant_lookup_info.clone(),
            contact_display_name: copy_text_option(&self.contact_display_name),
        }
    }
}

impl CKShareAccessRequester {
    /// A requester without a contact display name.
    pub fn new(user_identity: CKUserIdentity, participant_lookup_info: CKUserIdentityLookupInfo) -> (r: Self)
        ensures
            r@ == (AccessRequesterView {
                user_identity: user_identity@,
                participant_lookup_info: participant_lookup_info@,
                contact_display_name: None,
            }),
    {
        Self { user_identity, participant_lookup_info, contact_display_name: None }
    }

    /// Mirrors `userIdentity`.
    pub fn user_identity(&self) -> (r: &CKUserIdentity)
        ensures
            r@ == self@.user_identity,
    {
        &self.user_identity
    }

    /// Mirrors `participantLookupInfo`.
    pub fn participant_lookup_info(&self) -> (r: &CKUserIdentityLookupInfo)
        ensures
            r@ == self@.participant_lookup_info,
    {
        &self.participant_lookup_info
    }

    /// Mirrors `contactDisplayName`.
    pub fn contact_display_name(&self) -> (r: Option<&str>)
        ensures
            r is Some <==> self@.contact_display_name is Some,
            r is Some ==> r->0@ == self@.contact_display_name->0,
    {
        match &self.contact_display_name {
            Some(t) => Some(t.as_str()),
            None => None,
        }
    }

    /// The same requester with a contact display name.
    pub fn with_contact_display_name(self, contact_display_name: &str) -> (r: Self)
        ensures
            r@ == (AccessRequesterView { contact_display_name: Some(contact_display_name@), ..self@ }),
    {
        Self { contact_display_name: Some(owned(contact_display_name)), ..self }
    }
}

/// The abstract content of a blocked identity.
pub struct BlockedIdentityView {
    pub user_identity: UserIdentityView,
    pub contact_display_name: Option<Seq<char>>,
}

/// Mirrors `CKShareBlockedIdentity`.
#[derive(Debug, PartialEq, Eq)]
pub struct CKShareBlockedIdentity {
    user_identity: CKUserIdentity,
    contact_display_name: Option<String>,
}

impl View for CKShareBlockedIdentity {
    type V = BlockedIdentityView;

    closed spec fn view(&self) -> BlockedIdentityView {
        BlockedIdentityView {
            user_identity: self.user_identity@,
            contact_display_name: opt_text_view(self.contact_display_name),
        }
    }
}

impl Clone for CKShareBlockedIdentity {
    fn clone(&self) -> (r: Self)
        ensures
            r@ == self@,
    {
        CKShareBlockedIdentity {
            user_identity: self.user_identity.clone(),
            contact_display_name: copy_text_option(&self.contact_display_name),
        }
    }
}

impl CKShareBlockedIdentity {
    /// A blocked identity without a contact display name.
    pub fn new(user_identity: CKUserIdentity) -> (r: Self)
        ensures
            r@ == (BlockedIdentityView { user_identity: user_identity@, contact_display_name: None }),
    {
        Self { user_identity, contact_display_name: None }
    }

    /// Mirrors `userIdentity`.
    pub fn user_identity(&self) -> (r: &CKUserIdentity)
        ensures
            r@ == self@.user_identity,
    {
        &self.user_identity
    }

    /// Mirrors `contactDisplayName`.
    pub fn contact_display_name(&self) -> (r: Option<&str>)
        ensures
            r is Some <==> self@.contact_display_name is Some,
            r is Some ==> r->0@ == self@.contact_display_name->0,
    {
        match &self.contact_display_name {
            Some(t) => Some(t.as_str()),
            None => None,
        }
    }

    /// The same blocked identity with a contact display name.
    pub fn with_contact_display_name(self, contact_display_name: &str) -> (r: Self)
        ensures
            r@ == (BlockedIdentityView { contact_display_name: Some(contact_display_name@), ..self@ }),
    {
        Self { contact_display_name: Some(owned(contact_display_name)), ..self }
    }
}

// ---------------------------------------------------------------------------
// Participants
// ---------------------------------------------------------------------------

/// The abstract content of a share participant.
pub struct ParticipantView {
    pub archived_data: Seq<u8>,
    pub user_identity: UserIdentityView,
    pub role: Option<CKShareParticipantRole>,
    pub permission: CKShareParticipantPermission,
    pub acceptance_status: CKShareParticipantAcceptanceStatus,
    pub participant_id: Seq<char>,
    pub is_approved_requester: Option<bool>,
    pub date_added_to_share: Option<Seq<char>>,
}

pub open spec fn role_option_from_raw(raw: Option<i32>) -> Option<CKShareParticipantRole> {
    match raw {
        Some(r) => Some(role_from_raw(r)),
        None => None,
    }
}

pub open spec fn role_option_to_raw(role: Option<CKShareParticipantRole>) -> Option<i32> {
    match role {
        Some(r) => Some(role_to_raw(r)),
        None => None,
    }
}

/// The participant that a bridge payload stands for.
pub open spec fn participant_from_payload_view(p: CKShareParticipantPayload) -> ParticipantView {
    ParticipantView {
        archived_data: p.archived_data@,
        user_identity: user_identity_payload_view(p.user_identity),
        role: role_option_from_raw(p.role),
        permission: permission_from_raw(p.permission),
        acceptance_status: acceptance_status_from_raw(p.acceptance_status),
        participant_id: p.participant_id@,
        is_approved_requester: p.is_approved_requester,
        date_added_to_share: opt_text_view(p.date_added_to_share),
    }
}

/// Whether a payload carries every attribute of the participant, each enum as its raw value.
pub open spec fn participant_payload_matches(v: ParticipantView, p: CKShareParticipantPayload) -> bool {
    &&& p.archived_data@ == v.archived_data
    &&& user_identity_payload_view(p.user_identity) == v.user_identity
    &&& p.role == role_option_to_raw(v.role)
    &&& p.permission == permission_to_raw(v.permission)
    &&& p.acceptance_status == acceptance_status_to_raw(v.acceptance_status)
    &&& p.participant_id@ == v.participant_id
    &&& p.is_approved_requester == v.is_approved_requester
    &&& opt_text_view(p.date_added_to_share) == v.date_added_to_share
}

/// The participant with each enum value in the form that reading its raw value gives.
pub open spec fn canonical_participant(v: ParticipantView) -> ParticipantView {
    ParticipantView {
        role: role_option_from_raw(role_option_to_raw(v.role)),
        permission: permission_from_raw(permission_to_raw(v.permission)),
        acceptance_status: acceptance_status_from_raw(acceptance_status_to_raw(v.acceptance_status)),
        ..v
    }
}

/// A participant survives the trip through its payload, up to the canonical
/// form of its enum values.
pub proof fn lemma_participant_payload_round_trip(v: ParticipantView, p: CKShareParticipantPayload)
    requires
        participant_payload_matches(v, p),
    ensures
        participant_from_payload_view(p) == canonical_participant(v),
{
}

/// Mirrors `CKShare.Participant`.
#[derive(Debug, PartialEq, Eq)]
pub struct CKShareParticipant {
    archived_data: Vec<u8>,
    user_identity: CKUserIdentity,
    role: Option<CKShareParticipantRole>,
    permission: CKShareParticipantPermission,
    acceptance_status: CKShareParticipantAcceptanceStatus,
    participant_id: String,
    is_approved_requester: Option<bool>,
    date_added_to_share: Option<String>,
}

impl View for CKShareParticipant {
    type V = ParticipantView;

    closed spec fn view(&self) -> ParticipantView {
        ParticipantView {
            archived_data: self.archived_data@,
            user_identity: self.user_identity@,
            role: self.role,
            permission: self.permission,
            acceptance_status: self.acceptance_status,
            participant_id: self.participant_id@,
            is_approved_requester: self.is_approved_requester,
            date_added_to_share: opt_text_view(self.date_added_to_share),
        }
    }
}

impl Clone for CKShareParticipant {
    fn clone(&self) -> (r: Self)
        ensures
            r@ == self@,
    {
        CKShareParticipant {
            archived_data: copy_bytes(&self.archived_data),
            user_identity: self.user_identity.clone(),
            role: self.role,
            permission: self.permission,
            acceptance_status: self.acceptance_status,
            participant_id: self.participant_id.clone(),
            is_approved_requester: self.is_approved_requester,
            date_added_to_share: copy_text_option(&self.date_added_to_share),
        }
    }
}

impl CKShareParticipant {
    /// The archived form of the participant.
    pub fn archived_data(&self) -> (r: &[u8])
        ensures
            r@ == self@.archived_data,
    {
        self.archived_data.as_slice()
    }

    /// Mirrors `userIdentity`.
    pub fn user_identity(&self) -> (r: &CKUserIdentity)
        ensures
            r@ == self@.user_identity,
    {
        &self.user_identity
    }

    /// Mirrors `role`.
    pub fn role(&self) -> (r: Option<CKShareParticipantRole>)
        ensures
            r == self@.role,
    {
        self.role
    }

    /// Mirrors `permission`.
    pub fn permission(&self) -> (r: CKShareParticipantPermission)
        ensures
            r == self@.permission,
    {
        self.permission
    }

    /// Mirrors `acceptanceStatus`.
    pub fn acceptance_status(&self) -> (r: CKShareParticipantAcceptanceStatus)
        ensures
            r == self@.acceptance_status,
    {
        self.acceptance_status
    }

    /// Mirrors `participantID`.
    pub fn participant_id(&self) -> (r: &str)
        ensures
            r@ == self@.participant_id,
    {
        self.participant_id.as_str()
    }

    /// Mirrors `isApprovedRequester`.
    pub fn is_approved_requester(&self) -> (r: Option<bool>)
        ensures
            r == self@.is_approved_requester,
    {
        self.is_approved_requester
    }

    /// Mirrors `dateAddedToShare`.
    pub fn date_added_to_share(&self) -> (r: Option<&str>)
        ensures
            r is Some <==> self@.date_added_to_share is Some,
            r is Some ==> r->0@ == self@.date_added_to_share->0,
    {
        match &self.date_added_to_share {
            Some(t) => Some(t.as_str()),
            None => None,
        }
    }

    /// Mirrors `type`: the participant type that the role implies.
    pub fn participant_type(&self) -> (r: CKShareParticipantType)
        ensures
            r == participant_type_of_role(self@.role),
    {
        match self.role {
            Some(CKShareParticipantRole::Owner) => CKShareParticipantType::Owner,
            Some(CKShareParticipantRole::PrivateUser) => CKShareParticipantType::PrivateUser,
            Some(CKShareParticipantRole::PublicUser) => CKShareParticipantType::PublicUser,
            Some(CKShareParticipantRole::UnknownValue(raw)) => CKShareParticipantType::UnknownValue(raw),
            _ => CKShareParticipantType::Unknown,
        }
    }

    /// The participant that a bridge payload stands for.
    pub fn from_payload(payload: CKShareParticipantPayload) -> (r: Self)
        ensures
            r@ == participant_from_payload_view(payload),
    {
        let role = match payload.role {
            Some(raw) => Some(CKShareParticipantRole::from_raw(raw)),
            None => None,
        };
        Self {
            archived_data: payload.archived_data,
            user_identity: CKUserIdentity::from_payload(payload.user_identity),
            role,
            permission: CKShareParticipantPermission::from_raw(payload.permission),
            acceptance_status: CKShareParticipantAcceptanceStatus::from_raw(payload.acceptance_status),
            participant_id: payload.participant_id,
            is_approved_requester: payload.is_approved_requester,
            date_added_to_share: payload.date_added_to_share,
        }
    }

    /// The bridge payload of the participant.
    pub fn to_payload(&self) -> (r: CKShareParticipantPayload)
        ensures
            participant_payload_matches(self@, r),
    {
        let role = match self.role {
            Some(role) => Some(role.to_raw()),
            None => None,
        };
        CKShareParticipantPayload {
            archived_data: copy_bytes(&self.archived_data),
            user_identity: self.user_identity.to_payload(),
            role,
            permission: self.permission.to_raw(),
            acceptance_status: self.acceptance_status.to_raw(),
            participant_id: self.participant_id.clone(),
            is_approved_requester: self.is_approved_requester,
            date_added_to_share: copy_text_option(&self.date_added_to_share),
        }
    }
}

/// The views of a list of participants.
pub open spec fn participants_view(s: Seq<CKShareParticipant>) -> Seq<ParticipantView> {
    Seq::new(s.len(), |i: int| s[i]@)
}

pub open spec fn participant_option_view(p: Option<CKShareParticipant>) -> Option<ParticipantView> {
    match p {
        Some(x) => Some(x@),
        None => None,
    }
}

pub open spec fn participant_payload_option_view(p: Option<CKShareParticipantPayload>) -> Option<ParticipantView> {
    match p {
        Some(x) => Some(participant_from_payload_view(x)),
        None => None,
    }
}

pub open spec fn participant_option_matches(v: Option<ParticipantView>, p: Option<CKShareParticipantPayload>) -> bool {
    match (v, p) {
        (Some(a), Some(b)) => participant_payload_matches(a, b),
        (None, None) => true,
        _ => false,
    }
}

fn copy_participant_option(p: &Option<CKShareParticipant>) -> (r: Option<CKShareParticipant>)
    ensures
        participant_option_view(r) == participant_option_view(*p),
{
    match p {
        Some(x) => Some(x.clone()),
        None => None,
    }
}

fn participant_option_from_payload(p: Option<CKShareParticipantPayload>) -> (r: Option<CKShareParticipant>)
    ensures
        participant_option_view(r) == participant_payload_option_view(p),
{
    match p {
        Some(x) => Some(CKShareParticipant::from_payload(x)),
        None => None,
    }
}

fn participant_option_to_payload(p: &Option<CKShareParticipant>) -> (r: Option<CKShareParticipantPayload>)
    ensures
        participant_option_matches(participant_option_view(*p), r),
{
    match p {
        Some(x) => Some(x.to_payload()),
        None => None,
    }
}

/// Copies a list of participants.
pub fn copy_participants(v: &Vec<CKShareParticipant>) -> (r: Vec<CKShareParticipant>)
    ensures
        participants_view(r@) == participants_view(v@),
{
    let mut out: Vec<CKShareParticipant> = Vec::new();
    let mut i: usize = 0;
    while i < v.len()
        invariant
            i <= v@.len(),
            out@.len() == i,
            forall|j: int| 0 <= j < i ==> #[trigger] out@[j]@ == v@[j]@,
        decreases v@.len() - i,
    {
        out.push(v[i].clone());
        i = i + 1;
    }
    assert(participants_view(out@) =~= participants_view(v@));
    out
}


// ---------------------------------------------------------------------------
// Shares
// ---------------------------------------------------------------------------

/// The abstract content of a share.
pub struct ShareView {
    pub share_record: RecordView,
    pub root_record: Option<RecordView>,
    pub zone_id: RecordZoneIdView,
    pub public_permission: CKShareParticipantPermission,
    pub url: Option<Seq<char>>,
    pub participants: Seq<ParticipantView>,
    pub owner: Option<ParticipantView>,
    pub current_user_participant: Option<ParticipantView>,
    pub title: Option<Seq<char>>,
    pub thumbnail_image_data: Option<Seq<u8>>,
    pub share_type: Option<Seq<char>>,
    pub allows_access_requests: Option<bool>,
    pub is_zone_wide: bool,
}

pub open spec fn record_option_view(r: Option<CKRecord>) -> Option<RecordView> {
    match r {
        Some(x) => Some(x@),
        None => None,
    }
}

pub open spec fn record_payload_option_view(p: Option<CKRecordPayload>) -> Option<RecordView> {
    match p {
        Some(x) => Some(record_from_payload_view(x)),
        None => None,
    }
}

pub open spec fn record_option_matches(v: Option<RecordView>, p: Option<CKRecordPayload>) -> bool {
    match (v, p) {
        (Some(a), Some(b)) => record_payload_matches(a, b),
        (None, None) => true,
        _ => false,
    }
}

/// The share that a bridge payload stands for.
pub open spec fn share_from_payload_view(p: CKSharePayload) -> ShareView {
    ShareView {
        share_record: record_from_payload_view(p.share_record),
        root_record: record_payload_option_view(p.root_record),
        zone_id: zone_id_payload_view(p.zone_id),
        public_permission: permission_from_raw(p.public_permission),
        url: opt_text_view(p.url),
        participants: Seq::new(p.participants@.len(), |i: int| participant_from_payload_view(p.participants@[i])),
        owner: participant_payload_option_view(p.owner),
        current_user_participant: participant_payload_option_view(p.current_user_participant),
        title: opt_text_view(p.title),
        thumbnail_image_data: bytes_option_view(p.thumbnail_image_data),
        share_type: opt_text_view(p.share_type),
        allows_access_requests: p.allows_access_requests,
        is_zone_wide: p.is_zone_wide,
    }
}

/// Whether a payload carries every attribute of the share: the records as
/// record payloads, the participants in order, each enum as its raw value.
pub open spec fn share_payload_matches(v: ShareView, p: CKSharePayload) -> bool {
    &&& record_payload_matches(v.share_record, p.share_record)
    &&& record_option_matches(v.root_record, p.root_record)
    &&& zone_id_payload_view(p.zone_id) == v.zone_id
    &&& p.public_permission == permission_to_raw(v.public_permission)
    &&& opt_text_view(p.url) == v.url
    &&& p.participants@.len() == v.participants.len()
    &&& forall|i: int| 0 <= i < v.participants.len() ==>
        participant_payload_matches(#[trigger] v.participants[i], p.participants@[i])
    &&& participant_option_matches(v.owner, p.owner)
    &&& participant_option_matches(v.current_user_participant, p.current_user_participant)
    &&& opt_text_view(p.title) == v.title
    &&& bytes_option_view(p.thumbnail_image_data) == v.thumbnail_image_data
    &&& opt_text_view(p.share_type) == v.share_type
    &&& p.allows_access_requests == v.allows_access_requests
    &&& p.is_zone_wide == v.is_zone_wide
}

/// The participant list with every entry whose identifier is `participant_id` left out.
pub open spec fn without_participant(s: Seq<ParticipantView>, participant_id: Seq<char>) -> Seq<ParticipantView> {
    s.filter(keeps_participant(participant_id))
}

/// Whether a participant stays when those with `participant_id` are removed.
pub open spec fn keeps_participant(participant_id: Seq<char>) -> spec_fn(ParticipantView) -> bool {
    |p: ParticipantView| p.participant_id != participant_id
}

/// Mirrors `CKShare`.
#[derive(Debug, PartialEq)]
pub struct CKShare {
    share_record: CKRecord,
    root_record: Option<CKRecord>,
    zone_id: CKRecordZoneID,
    public_permission: CKShareParticipantPermission,
    url: Option<String>,
    participants: Vec<CKShareParticipant>,
    owner: Option<CKShareParticipant>,
    current_user_participant: Option<CKShareParticipant>,
    title: Option<String>,
    thumbnail_image_data: Option<Vec<u8>>,
    share_type: Option<String>,
    allows_access_requests: Option<bool>,
    is_zone_wide: bool,
}

impl View for CKShare {
    type V = ShareView;

    closed spec fn view(&self) -> ShareView {
        ShareView {
            share_record: self.share_record@,
            root_record: record_option_view(self.root_record),
            zone_id: self.zone_id@,
            public_permission: self.public_permission,
            url: opt_text_view(self.url),
            participants: participants_view(self.participants@),
            owner: participant_option_view(self.owner),
            current_user_participant: participant_option_view(self.current_user_participant),
            title: opt_text_view(self.title),
            thumbnail_image_data: bytes_option_view(self.thumbnail_image_data),
            share_type: opt_text_view(self.share_type),
            allows_access_requests: self.allows_access_requests,
            is_zone_wide: self.is_zone_wide,
        }
    }
}

fn copy_record_option(r: &Option<CKRecord>) -> (c: Option<CKRecord>)
    ensures
        record_option_view(c) == record_option_view(*r),
{
    match r {
        Some(x) => Some(x.clone()),
        None => None,
    }
}

fn record_option_from_payload(p: Option<CKRecordPayload>) -> (r: Option<CKRecord>)
    ensures
        record_option_view(r) == record_payload_option_view(p),
{
    match p {
        Some(x) => Some(CKRecord::from_payload(x)),
        None => None,
    }
}

fn record_option_to_payload(r: &Option<CKRecord>) -> (p: Option<CKRecordPayload>)
    ensures
        record_option_matches(record_option_view(*r), p),
{
    match r {
        Some(x) => Some(x.to_payload()),
        None => None,
    }
}

impl CKShare {

    /// Mirrors the share's own record.
    pub fn share_record(&self) -> (r: &CKRecord)
        ensures
            r@ == self@.share_record,
    {
        &self.share_record
    }

    /// The record the share was created for, if it is not zone-wide.
    pub fn root_record(&self) -> (r: Option<&CKRecord>)
        ensures
            r is Some <==> self@.root_record is Some,
            r matches Some(x) ==> x@ == self@.root_record->0,
    {
        match &self.root_record {
            Some(x) => Some(x),
            None => None,
        }
    }

    /// The zone of the share.
    pub fn zone_id(&self) -> (r: &CKRecordZoneID)
        ensures
            r@ == self@.zone_id,
    {
        &self.zone_id
    }

    /// Mirrors `publicPermission`.
    pub fn public_permission(&self) -> (r: CKShareParticipantPermission)
        ensures
            r == self@.public_permission,
    {
        self.public_permission
    }

    /// Mirrors `url`.
    pub fn url(&self) -> (r: Option<&str>)
        ensures
            r is Some <==> self@.url is Some,
            r is Some ==> r->0@ == self@.url->0,
    {
        match &self.url {
            Some(t) => Some(t.as_str()),
            None => None,
        }
    }

    /// Mirrors `participants`.
    pub fn participants(&self) -> (r: &[CKShareParticipant])
        ensures
            participants_view(r@) == self@.participants,
    {
        self.participants.as_slice()
    }

    /// Mirrors `owner`.
    pub fn owner(&self) -> (r: Option<&CKShareParticipant>)
        ensures
            r is Some <==> self@.owner is Some,
            r is Some ==> r->0@ == self@.owner->0,
    {
        match &self.owner {
            Some(p) => Some(p),
            None => None,
        }
    }

    /// Mirrors `currentUserParticipant`.
    pub fn current_user_participant(&self) -> (r: Option<&CKShareParticipant>)
        ensures
            r is Some <==> self@.current_user_participant is Some,
            r is Some ==> r->0@ == self@.current_user_participant->0,
    {
        match &self.current_user_participant {
            Some(p) => Some(p),
            None => None,
        }
    }

    /// The share's title (`CKShare.SystemFieldKey.title`).
    pub fn title(&self) -> (r: Option<&str>)
        ensures
            r is Some <==> self@.title is Some,
            r is Some ==> r->0@ == self@.title->0,
    {
        match &self.title {
            Some(t) => Some(t.as_str()),
            None => None,
        }
    }

    /// The share's thumbnail image (`CKShare.SystemFieldKey.thumbnailImageData`).
    pub fn thumbnail_image_data(&self) -> (r: Option<&[u8]>)
        ensures
            r is Some <==> self@.thumbnail_image_data is Some,
            r is Some ==> r->0@ == self@.thumbnail_image_data->0,
    {
        match &self.thumbnail_image_data {
            Some(t) => Some(t.as_slice()),
            None => None,
        }
    }

    /// The share's type (`CKShare.SystemFieldKey.shareType`).
    pub fn share_type(&self) -> (r: Option<&str>)
        ensures
            r is Some <==> self@.share_type is Some,
            r is Some ==> r->0@ == self@.share_type->0,
    {
        match &self.share_type {
            Some(t) => Some(t.as_str()),
            None => None,
        }
    }

    /// Mirrors `allowsAccessRequests`.
    pub fn allows_access_requests(&self) -> (r: Option<bool>)
        ensures
            r == self@.allows_access_requests,
    {
        self.allows_access_requests
    }

    /// Whether the share covers a whole zone.
    pub fn is_zone_wide(&self) -> (r: bool)
        ensures
            r == self@.is_zone_wide,
    {
        self.is_zone_wide
    }

    /// The share as a record: a copy of its own record.
    pub fn as_record(&self) -> (r: CKRecord)
        ensures
            r@ == self@.share_record,
    {
        self.share_record.clone()
    }

    /// Sets the public permission, before the bridge normalizes the share.
    pub fn set_public_permission(&mut self, public_permission: CKShareParticipantPermission)
        ensures
            final(self)@ == (ShareView { public_permission, ..old(self)@ }),
    {
        self.public_permission = public_permission;
    }

    /// Sets the title, before the bridge normalizes the share.
    pub fn set_title(&mut self, title: &str)
        ensures
            final(self)@ == (ShareView { title: Some(title@), ..old(self)@ }),
    {
        self.title = Some(owned(title));
    }

    /// Sets the thumbnail image, before the bridge normalizes the share.
    pub fn set_thumbnail_image_data(&mut self, thumbnail_image_data: Vec<u8>)
        ensures
            final(self)@ == (ShareView { thumbnail_image_data: Some(thumbnail_image_data@), ..old(self)@ }),
    {
        self.thumbnail_image_data = Some(thumbnail_image_data);
    }

    /// Sets the share type, before the bridge normalizes the share.
    pub fn set_share_type(&mut self, share_type: &str)
        ensures
            final(self)@ == (ShareView { share_type: Some(share_type@), ..old(self)@ }),
    {
        self.share_type = Some(owned(share_type));
    }

    /// Sets whether access requests are allowed, before the bridge normalizes the share.
    pub fn set_allows_access_requests(&mut self, allows_access_requests: bool)
        ensures
            final(self)@ == (ShareView { allows_access_requests: Some(allows_access_requests), ..old(self)@ }),
    {
        self.allows_access_requests = Some(allows_access_requests);
    }

    /// Appends a participant, before the bridge normalizes the share.
    pub fn push_participant(&mut self, participant: CKShareParticipant)
        ensures
            final(self)@ == (ShareView { participants: old(self)@.participants.push(participant@), ..old(self)@ }),
    {
        let mut participants: Vec<CKShareParticipant> = Vec::new();
        std::mem::swap(&mut participants, &mut self.participants);
        let ghost before = participants@;
        participants.push(participant);
        assert(participants_view(participants@) =~= participants_view(before).push(participant@));
        self.participants = participants;
    }

    /// Removes every participant with the given identifier, keeping the others in
    /// order, before the bridge normalizes the share.
    pub fn remove_participants_with_id(&mut self, participant_id: &str)
        ensures
            final(self)@ == (ShareView {
                participants: without_participant(old(self)@.participants, participant_id@),
                ..old(self)@
            }),
    {
        let mut participants: Vec<CKShareParticipant> = Vec::new();
        std::mem::swap(&mut participants, &mut self.participants);
        let ghost all = participants_view(participants@);
        let mut kept: Vec<CKShareParticipant> = Vec::new();
        let mut i: usize = 0;
        proof {
            reveal(Seq::filter);
            assert(all.take(0) =~= Seq::<ParticipantView>::empty());
        }
        while i < participants.len()
            invariant
                i <= participants@.len(),
                all == participants_view(participants@),
                participants_view(kept@) == without_participant(all.take(i as int), participant_id@),
            decreases participants@.len() - i,
        {
            let keep = !text_eq(participants[i].participant_id(), participant_id);
            proof {
                assert(all.take(i + 1) =~= all.take(i as int).push(all[i as int]));
                all.take(i as int).lemma_filter_push(all[i as int], keeps_participant(participant_id@));
                assert(participants@[i as int]@ == all[i as int]);
            }
            if keep {
                let ghost before = kept@;
                kept.push(participants[i].clone());
                assert(participants_view(kept@) =~= participants_view(before).push(all[i as int]));
            }
            i = i + 1;
        }
        assert(all.take(participants@.len() as int) =~= all);
        self.participants = kept;
    }

    /// The share that a bridge payload stands for.
    pub fn from_payload(payload: CKSharePayload) -> (r: Self)
        ensures
            r@ == share_from_payload_view(payload),
    {
        let ghost input = payload;
        let CKSharePayload {
            share_record,
            root_record,
            zone_id,
            public_permission,
            url,
            participants,
            owner,
            current_user_participant,
            title,
            thumbnail_image_data,
            share_type,
            allows_access_requests,
            is_zone_wide,
        } = payload;
        let converted = participants_from_payloads(participants);
        let r = Self {
            share_record: CKRecord::from_payload(share_record),
            root_record: record_option_from_payload(root_record),
            zone_id: CKRecordZoneID::from_payload(zone_id),
            public_permission: CKShareParticipantPermission::from_raw(public_permission),
            url,
            participants: converted,
            owner: participant_option_from_payload(owner),
            current_user_participant: participant_option_from_payload(current_user_participant),
            title,
            thumbnail_image_data,
            share_type,
            allows_access_requests,
            is_zone_wide,
        };
        assert(participants_view(r.participants@) =~= share_from_payload_view(input).participants);
        r
    }

    /// The bridge payload of the share.
    pub fn to_payload(&self) -> (r: CKSharePayload)
        ensures
            share_payload_matches(self@, r),
    {
        let mut participants: Vec<CKShareParticipantPayload> = Vec::new();
        let mut i: usize = 0;
        while i < self.participants.len()
            invariant
                i <= self.participants@.len(),
                participants@.len() == i,
                forall|j: int| 0 <= j < i ==>
                    participant_payload_matches(self.participants@[j]@, #[trigger] participants@[j]),
            decreases self.participants@.len() - i,
        {
            participants.push(self.participants[i].to_payload());
            i = i + 1;
        }
        let r = CKSharePayload {
            share_record: self.share_record.to_payload(),
            root_record: record_option_to_payload(&self.root_record),
            zone_id: self.zone_id.to_payload(),
            public_permission: self.public_permission.to_raw(),
            url: copy_text_option(&self.url),
            participants,
            owner: participant_option_to_payload(&self.owner),
            current_user_participant: participant_option_to_payload(&self.current_user_participant),
            title: copy_text_option(&self.title),
            thumbnail_image_data: copy_bytes_option(&self.thumbnail_image_data),
            share_type: copy_text_option(&self.share_type),
            allows_access_requests: self.allows_access_requests,
            is_zone_wide: self.is_zone_wide,
        };
        assert forall|j: int| 0 <= j < self@.participants.len() implies
            participant_payload_matches(#[trigger] self@.participants[j], r.participants@[j]) by {
            assert(self@.participants[j] == self.participants@[j]@);
        }
        r
    }
}

/// Converts a list of participant payloads, in order.
fn participants_from_payloads(payloads: Vec<CKShareParticipantPayload>) -> (r: Vec<CKShareParticipant>)
    ensures
        participants_view(r@) == Seq::new(payloads@.len(), |i: int| participant_from_payload_view(payloads@[i])),
{
    let ghost all = payloads@;
    let mut rest = payloads;
    let mut converted: Vec<CKShareParticipant> = Vec::new();
    while rest.len() > 0
        invariant
            converted@.len() + rest@.len() == all.len(),
            rest@ == all.skip(converted@.len() as int),
            forall|j: int| 0 <= j < converted@.len() ==>
                #[trigger] converted@[j]@ == participant_from_payload_view(all[j]),
        decreases rest@.len(),
    {
        let ghost k: int = converted@.len() as int;
        let p = rest.remove(0);
        assert(p == all[k]);
        converted.push(CKShareParticipant::from_payload(p));
        assert(rest@ =~= all.skip(k + 1));
    }
    assert(participants_view(converted@) =~= Seq::new(all.len(), |i: int| participant_from_payload_view(all[i])));
    converted
}

// ---------------------------------------------------------------------------
// Share metadata
// ---------------------------------------------------------------------------

/// The abstract content of share metadata.
pub struct ShareMetadataView {
    pub archived_data: Seq<u8>,
    pub container_identifier: Seq<char>,
    pub share: ShareView,
    pub hierarchical_root_record_id: Option<RecordIdView>,
    pub participant_role: Option<CKShareParticipantRole>,
    pub participant_status: CKShareParticipantAcceptanceStatus,
    pub participant_permission: CKShareParticipantPermission,
    pub owner_identity: UserIdentityView,
    pub root_record: Option<RecordView>,
    pub participant_type: Option<CKShareParticipantType>,
    pub root_record_id: Option<RecordIdView>,
}

/// The identifier of an optional record.
pub open spec fn record_option_id(r: Option<RecordView>) -> Option<RecordIdView> {
    match r {
        Some(x) => Some(x.record_id),
        None => None,
    }
}

/// Metadata as first built for a share: the share's root record (and its
/// identifier, also as the hierarchical root), no role or type, acceptance
/// unknown and no access.
pub open spec fn fresh_metadata_view(
    container_identifier: Seq<char>,
    share: ShareView,
    owner_identity: UserIdentityView,
) -> ShareMetadataView {
    ShareMetadataView {
        archived_data: Seq::empty(),
        container_identifier,
        share,
        hierarchical_root_record_id: record_option_id(share.root_record),
        participant_role: None,
        participant_status: CKShareParticipantAcceptanceStatus::Unknown,
        participant_permission: CKShareParticipantPermission::NoAccess,
        owner_identity,
        root_record: share.root_record,
        participant_type: None,
        root_record_id: record_option_id(share.root_record),
    }
}

pub open spec fn participant_type_option_from_raw(raw: Option<i32>) -> Option<CKShareParticipantType> {
    match raw {
        Some(r) => Some(participant_type_from_raw(r)),
        None => None,
    }
}

pub open spec fn participant_type_option_to_raw(t: Option<CKShareParticipantType>) -> Option<i32> {
    match t {
        Some(x) => Some(participant_type_to_raw(x)),
        None => None,
    }
}

/// The metadata that a bridge payload stands for.
pub open spec fn metadata_from_payload_view(p: CKShareMetadataPayload) -> ShareMetadataView {
    ShareMetadataView {
        archived_data: p.archived_data@,
        container_identifier: p.container_identifier@,
        share: share_from_payload_view(p.share),
        hierarchical_root_record_id: record_id_payload_option_view(p.hierarchical_root_record_id),
        participant_role: role_option_from_raw(p.participant_role),
        participant_status: acceptance_status_from_raw(p.participant_status),
        participant_permission: permission_from_raw(p.participant_permission),
        owner_identity: user_identity_payload_view(p.owner_identity),
        root_record: record_payload_option_view(p.root_record),
        participant_type: participant_type_option_from_raw(p.participant_type),
        root_record_id: record_id_payload_option_view(p.root_record_id),
    }
}

/// Whether a payload carries every attribute of the metadata, each enum as its raw value.
pub open spec fn metadata_payload_matches(v: ShareMetadataView, p: CKShareMetadataPayload) -> bool {
    &&& p.archived_data@ == v.archived_data
    &&& p.container_identifier@ == v.container_identifier
    &&& share_payload_matches(v.share, p.share)
    &&& record_id_payload_option_view(p.hierarchical_root_record_id) == v.hierarchical_root_record_id
    &&& p.participant_role == role_option_to_raw(v.participant_role)
    &&& p.participant_status == acceptance_status_to_raw(v.participant_status)
    &&& p.participant_permission == permission_to_raw(v.participant_permission)
    &&& user_identity_payload_view(p.owner_identity) == v.owner_identity
    &&& record_option_matches(v.root_record, p.root_record)
    &&& p.participant_type == participant_type_option_to_raw(v.participant_type)
    &&& record_id_payload_option_view(p.root_record_id) == v.root_record_id
}

/// Mirrors `CKShare.Metadata`.
#[derive(Debug, PartialEq)]
pub struct CKShareMetadata {
    archived_data: Vec<u8>,
    container_identifier: String,
    share: CKShare,
    hierarchical_root_record_id: Option<CKRecordID>,
    participant_role: Option<CKShareParticipantRole>,
    participant_status: CKShareParticipantAcceptanceStatus,
    participant_permission: CKShareParticipantPermission,
    owner_identity: CKUserIdentity,
    root_record: Option<CKRecord>,
    participant_type: Option<CKShareParticipantType>,
    root_record_id: Option<CKRecordID>,
}

impl View for CKShareMetadata {
    type V = ShareMetadataView;

    closed spec fn view(&self) -> ShareMetadataView {
        ShareMetadataView {
            archived_data: self.archived_data@,
            container_identifier: self.container_identifier@,
            share: self.share@,
            hierarchical_root_record_id: record_id_option_view(self.hierarchical_root_record_id),
            participant_role: self.participant_role,
            participant_status: self.participant_status,
            participant_permission: self.participant_permission,
            owner_identity: self.owner_identity@,
            root_record: record_option_view(self.root_record),
            participant_type: self.participant_type,
            root_record_id: record_id_option_view(self.root_record_id),
        }
    }
}

fn record_id_of(r: &Option<CKRecord>) -> (id: Option<CKRecordID>)
    ensures
        record_id_option_view(id) == record_option_id(record_option_view(*r)),
{
    match r {
        Some(x) => Some(x.record_id().clone()),
        None => None,
    }
}

impl CKShareMetadata {

    /// Metadata for a share, taking the share's root record as the root.
    pub fn new(container_identifier: &str, share: CKShare, owner_identity: CKUserIdentity) -> (r: Self)
        ensures
            r@ == fresh_metadata_view(container_identifier@, share@, owner_identity@),
    {
        let root_record = match share.root_record() {
            Some(x) => Some(x.clone()),
            None => None,
        };
        let root_record_id = record_id_of(&root_record);
        let hierarchical_root_record_id = copy_record_id_option(&root_record_id);
        Self {
            archived_data: Vec::new(),
            container_identifier: owned(container_identifier),
            share,
            hierarchical_root_record_id,
            participant_role: None,
            participant_status: CKShareParticipantAcceptanceStatus::Unknown,
            participant_permission: CKShareParticipantPermission::NoAccess,
            owner_identity,
            root_record,
            participant_type: None,
            root_record_id,
        }
    }

    /// The archived form of the metadata.
    pub fn archived_data(&self) -> (r: &[u8])
        ensures
            r@ == self@.archived_data,
    {
        self.archived_data.as_slice()
    }

    /// Mirrors `containerIdentifier`.
    pub fn container_identifier(&self) -> (r: &str)
        ensures
            r@ == self@.container_identifier,
    {
        self.container_identifier.as_str()
    }

    /// Mirrors `share`.
    pub fn share(&self) -> (r: &CKShare)
        ensures
            r@ == self@.share,
    {
        &self.share
    }

    /// Mirrors `hierarchicalRootRecordID`.
    pub fn hierarchical_root_record_id(&self) -> (r: Option<&CKRecordID>)
        ensures
            r is Some <==> self@.hierarchical_root_record_id is Some,
            r is Some ==> r->0@ == self@.hierarchical_root_record_id->0,
    {
        match &self.hierarchical_root_record_id {
            Some(x) => Some(x),
            None => None,
        }
    }

    /// Mirrors `participantRole`.
    pub fn participant_role(&self) -> (r: Option<CKShareParticipantRole>)
        ensures
            r == self@.participant_role,
    {
        self.participant_role
    }

    /// Mirrors `participantStatus`.
    pub fn participant_status(&self) -> (r: CKShareParticipantAcceptanceStatus)
        ensures
            r == self@.participant_status,
    {
        self.participant_status
    }

    /// Mirrors `participantPermission`.
    pub fn participant_permission(&self) -> (r: CKShareParticipantPermission)
        ensures
            r == self@.participant_permission,
    {
        self.participant_permission
    }

    /// Mirrors `ownerIdentity`.
    pub fn owner_identity(&self) -> (r: &CKUserIdentity)
        ensures
            r@ == self@.owner_identity,
    {
        &self.owner_identity
    }

    /// Mirrors `rootRecord`.
    pub fn root_record(&self) -> (r: Option<&CKRecord>)
        ensures
            r is Some <==> self@.root_record is Some,
            r matches Some(x) ==> x@ == self@.root_record->0,
    {
        match &self.root_record {
            Some(x) => Some(x),
            None => None,
        }
    }

    /// Mirrors `participantType`.
    pub fn participant_type(&self) -> (r: Option<CKShareParticipantType>)
        ensures
            r == self@.participant_type,
    {
        self.participant_type
    }

    /// Mirrors `rootRecordID`.
    pub fn root_record_id(&self) -> (r: Option<&CKRecordID>)
        ensures
            r is Some <==> self@.root_record_id is Some,
            r is Some ==> r->0@ == self@.root_record_id->0,
    {
        match &self.root_record_id {
            Some(x) => Some(x),
            None => None,
        }
    }

    /// The same metadata with other archived data.
    pub fn with_archived_data(self, archived_data: Vec<u8>) -> (r: Self)
        ensures
            r@ == (ShareMetadataView { archived_data: archived_data@, ..self@ }),
    {
        Self { archived_data, ..self }
    }

    /// The same metadata with the hierarchical root record identifier set.
    pub fn with_hierarchical_root_record_id(self, hierarchical_root_record_id: CKRecordID) -> (r: Self)
        ensures
            r@ == (ShareMetadataView { hierarchical_root_record_id: Some(hierarchical_root_record_id@), ..self@ }),
    {
        Self { hierarchical_root_record_id: Some(hierarchical_root_record_id), ..self }
    }

    /// The same metadata with the participant role set.
    pub fn with_participant_role(self, participant_role: CKShareParticipantRole) -> (r: Self)
        ensures
            r@ == (ShareMetadataView { participant_role: Some(participant_role), ..self@ }),
    {
        Self { participant_role: Some(participant_role), ..self }
    }

    /// The same metadata with the participant status set.
    pub fn with_participant_status(self, participant_status: CKShareParticipantAcceptanceStatus) -> (r: Self)
        ensures
            r@ == (ShareMetadataView { participant_status, ..self@ }),
    {
        Self { participant_status, ..self }
    }

    /// The same metadata with the participant permission set.
    pub fn with_participant_permission(self, participant_permission: CKShareParticipantPermission) -> (r: Self)
        ensures
            r@ == (ShareMetadataView { participant_permission, ..self@ }),
    {
        Self { participant_permission, ..self }
    }

    /// The same metadata with another root record; the root record identifier
    /// follows it.
    pub fn with_root_record(self, root_record: CKRecord) -> (r: Self)
        ensures
            r@ == (ShareMetadataView {
                root_record: Some(root_record@),
                root_record_id: Some(root_record@.record_id),
                ..self@
            }),
    {
        let root_record_id = root_record.record_id().clone();
        Self { root_record_id: Some(root_record_id), root_record: Some(root_record), ..self }
    }

    /// The same metadata with the participant type set.
    pub fn with_participant_type(self, participant_type: CKShareParticipantType) -> (r: Self)
        ensures
            r@ == (ShareMetadataView { participant_type: Some(participant_type), ..self@ }),
    {
        Self { participant_type: Some(participant_type), ..self }
    }

    /// The same metadata with the root record identifier set.
    pub fn with_root_record_id(self, root_record_id: CKRecordID) -> (r: Self)
        ensures
            r@ == (ShareMetadataView { root_record_id: Some(root_record_id@), ..self@ }),
    {
        Self { root_record_id: Some(root_record_id), ..self }
    }

    /// The metadata that a bridge payload stands for.
    pub fn from_payload(payload: CKShareMetadataPayload) -> (r: Self)
        ensures
            r@ == metadata_from_payload_view(payload),
    {
        let participant_role = match payload.participant_role {
            Some(raw) => Some(CKShareParticipantRole::from_raw(raw)),
            None => None,
        };
        let participant_type = match payload.participant_type {
            Some(raw) => Some(CKShareParticipantType::from_raw(raw)),
            None => None,
        };
        Self {
            archived_data: payload.archived_data,
            container_identifier: payload.container_identifier,
            share: CKShare::from_payload(payload.share),
            hierarchical_root_record_id: record_id_option_from_payload(payload.hierarchical_root_record_id),
            participant_role,
            participant_status: CKShareParticipantAcceptanceStatus::from_raw(payload.participant_status),
            participant_permission: CKShareParticipantPermission::from_raw(payload.participant_permission),
            owner_identity: CKUserIdentity::from_payload(payload.owner_identity),
            root_record: record_option_from_payload(payload.root_record),
            participant_type,
            root_record_id: record_id_option_from_payload(payload.root_record_id),
        }
    }

    /// The bridge payload of the metadata.
    pub fn to_payload(&self) -> (r: CKShareMetadataPayload)
        ensures
            metadata_payload_matches(self@, r),
    {
        let participant_role = match self.participant_role {
            Some(role) => Some(role.to_raw()),
            None => None,
        };
        let participant_type = match self.participant_type {
            Some(t) => Some(t.to_raw()),
            None => None,
        };
        CKShareMetadataPayload {
            archived_data: copy_bytes(&self.archived_data),
            container_identifier: self.container_identifier.clone(),
            share: self.share.to_payload(),
            hierarchical_root_record_id: record_id_option_to_payload(&self.hierarchical_root_record_id),
            participant_role,
            participant_status: self.participant_status.to_raw(),
            participant_permission: self.participant_permission.to_raw(),
            owner_identity: self.owner_identity.to_payload(),
            root_record: record_option_to_payload(&self.root_record),
            participant_type,
            root_record_id: record_id_option_to_payload(&self.root_record_id),
        }
    }
}

// ---------------------------------------------------------------------------
// Copies and payload laws
// ---------------------------------------------------------------------------

impl Clone for CKShare {
    fn clone(&self) -> (r: Self)
        ensures
            r@ == self@,
    {
        CKShare {
            share_record: self.share_record.clone(),
            root_record: copy_record_option(&self.root_record),
            zone_id: self.zone_id.clone(),
            public_permission: self.public_permission,
            url: copy_text_option(&self.url),
            participants: copy_participants(&self.participants),
            owner: copy_participant_option(&self.owner),
            current_user_participant: copy_participant_option(&self.current_user_participant),
            title: copy_text_option(&self.title),
            thumbnail_image_data: copy_bytes_option(&self.thumbnail_image_data),
            share_type: copy_text_option(&self.share_type),
            allows_access_requests: self.allows_access_requests,
            is_zone_wide: self.is_zone_wide,
        }
    }
}

impl Clone for CKShareMetadata {
    fn clone(&self) -> (r: Self)
        ensures
            r@ == self@,
    {
        CKShareMetadata {
            archived_data: copy_bytes(&self.archived_data),
            container_identifier: self.container_identifier.clone(),
            share: self.share.clone(),
            hierarchical_root_record_id: copy_record_id_option(&self.hierarchical_root_record_id),
            participant_role: self.participant_role,
            participant_status: self.participant_status,
            participant_permission: self.participant_permission,
            owner_identity: self.owner_identity.clone(),
            root_record: copy_record_option(&self.root_record),
            participant_type: self.participant_type,
            root_record_id: copy_record_id_option(&self.root_record_id),
        }
    }
}

pub open spec fn canonical_participant_option(p: Option<ParticipantView>) -> Option<ParticipantView> {
    match p {
        Some(x) => Some(canonical_participant(x)),
        None => None,
    }
}

/// The share with its records, participants and permission in the canonical
/// form that reading their payloads gives.
pub open spec fn canonical_share(v: ShareView) -> ShareView {
    ShareView {
        share_record: canonical_record(v.share_record),
        root_record: match v.root_record {
            Some(r) => Some(canonical_record(r)),
            None => None,
        },
        public_permission: permission_from_raw(permission_to_raw(v.public_permission)),
        participants: Seq::new(v.participants.len(), |i: int| canonical_participant(v.participants[i])),
        owner: canonical_participant_option(v.owner),
        current_user_participant: canonical_participant_option(v.current_user_participant),
        ..v
    }
}

/// A share survives the trip through its payload, up to the canonical form of
/// its enum values.
pub proof fn lemma_share_payload_round_trip(v: ShareView, p: CKSharePayload)
    requires
        v.share_record.fields.dom().finite(),
        v.root_record matches Some(r) ==> r.fields.dom().finite(),
        share_payload_matches(v, p),
    ensures
        share_from_payload_view(p) == canonical_share(v),
{
    lemma_record_payload_round_trip(v.share_record, p.share_record);
    if v.root_record is Some {
        lemma_record_payload_round_trip(v.root_record->0, p.root_record->0);
    }
    let back = share_from_payload_view(p);
    let canon = canonical_share(v);
    assert(back.participants =~= canon.participants);
    assert(back.root_record == canon.root_record);
    assert(back.owner == canon.owner);
    assert(back.current_user_participant == canon.current_user_participant);
}

/// The metadata with its share, root record and enum values in the canonical
/// form that reading their payloads gives.
pub open spec fn canonical_metadata(v: ShareMetadataView) -> ShareMetadataView {
    ShareMetadataView {
        share: canonical_share(v.share),
        participant_role: role_option_from_raw(role_option_to_raw(v.participant_role)),
        participant_status: acceptance_status_from_raw(acceptance_status_to_raw(v.participant_status)),
        participant_permission: permission_from_raw(permission_to_raw(v.participant_permission)),
        root_record: match v.root_record {
            Some(r) => Some(canonical_record(r)),
            None => None,
        },
        participant_type: participant_type_option_from_raw(participant_type_option_to_raw(v.participant_type)),
        ..v
    }
}

/// Share metadata survives the trip through its payload, up to the canonical
/// form of its records and enum values.
pub proof fn lemma_share_metadata_payload_round_trip(v: ShareMetadataView, p: CKShareMetadataPayload)
    requires
        v.share.share_record.fields.dom().finite(),
        v.share.root_record matches Some(r) ==> r.fields.dom().finite(),
        v.root_record matches Some(r) ==> r.fields.dom().finite(),
        metadata_payload_matches(v, p),
    ensures
        metadata_from_payload_view(p) == canonical_metadata(v),
{
    lemma_share_payload_round_trip(v.share, p.share);
    if v.root_record is Some {
        lemma_record_payload_round_trip(v.root_record->0, p.root_record->0);
    }
    let back = metadata_from_payload_view(p);
    let canon = canonical_metadata(v);
    assert(back.root_record == canon.root_record);
    assert(back.participant_role == canon.participant_role);
    assert(back.participant_type == canon.participant_type);
}

} // verus!
