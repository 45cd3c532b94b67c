//! User identities: name components, the information used to look a user up,
//! and the identity itself.
use vstd::prelude::*;

use crate::payload::{
    CKPersonNameComponentsPayload, CKUserIdentityLookupInfoPayload,
    CKUserIdentityPayload,
};
use crate::record::{
    copy_bytes, copy_record_id_option, record_id_option_from_payload, record_id_option_to_payload,
    record_id_option_view, record_id_payload_option_view, CKRecordID, RecordIdView,
};
use crate::text::{copy_opt_text, copy_texts, opt_text_view, owned, texts_view};

verus! {

// ---------------------------------------------------------------------------
// Name components
// ---------------------------------------------------------------------------

/// The abstract content of a person's name components.
pub struct PersonNameView {
    pub name_prefix: Option<Seq<char>>,
    pub given_name: Option<Seq<char>>,
    pub middle_name: Option<Seq<char>>,
    pub family_name: Option<Seq<char>>,
    pub name_suffix: Option<Seq<char>>,
    pub nickname: Option<Seq<char>>,
}

/// Name components with nothing set.
pub open spec fn empty_person_name_view() -> PersonNameView {
    PersonNameView {
        name_prefix: None,
        given_name: None,
        middle_name: None,
        family_name: None,
        name_suffix: None,
        nickname: None,
    }
}

pub open spec fn person_name_payload_view(p: CKPersonNameComponentsPayload) -> PersonNameView {
    PersonNameView {
        name_prefix: opt_text_view(p.name_prefix),
        given_name: opt_text_view(p.given_name),
        middle_name: opt_text_view(p.middle_name),
        family_name: opt_text_view(p.family_name),
        name_suffix: opt_text_view(p.name_suffix),
        nickname: opt_text_view(p.nickname),
    }
}

/// Mirrors `CKPersonNameComponents`.
#[derive(Debug, PartialEq, Eq, Hash)]
pub struct CKPersonNameComponents {
    name_prefix: Option<String>,
    given_name: Option<String>,
    middle_name: Option<String>,
    family_name: Option<String>,
    name_suffix: Option<String>,
    nickname: Option<String>,
}

impl View for CKPersonNameComponents {
    type V = PersonNameView;

    closed spec fn view(&self) -> PersonNameView {
        PersonNameView {
            name_prefix: opt_text_view(self.name_prefix),
            given_name: opt_text_view(self.given_name),
            middle_name: opt_text_view(self.middle_name),
            family_name: opt_text_view(self.family_name),
            name_suffix: opt_text_view(self.name_suffix),
            nickname: opt_text_view(self.nickname),
        }
    }
}

impl Clone for CKPersonNameComponents {
    fn clone(&self) -> (r: Self)
        ensures
            r@ == self@,
    {
        CKPersonNameComponents {
            name_prefix: copy_opt_text(&self.name_prefix),
            given_name: copy_opt_text(&self.given_name),
            middle_name: copy_opt_text(&self.middle_name),
            family_name: copy_opt_text(&self.family_name),
            name_suffix: copy_opt_text(&self.name_suffix),
            nickname: copy_opt_text(&self.nickname),
        }
    }
}

impl Default for CKPersonNameComponents {
    fn default() -> (r: Self)
        ensures
            r@ == empty_person_name_view(),
    {
        Self {
            name_prefix: None,
            given_name: None,
            middle_name: None,
            family_name: None,
            name_suffix: None,
            nickname: None,
        }
    }
}

fn borrow_text(s: &Option<String>) -> (r: Option<&str>)
    ensures
        r is Some <==> s is Some,
        r is Some ==> r->0@ == s->0@,
{
    match s {
        Some(t) => Some(t.as_str()),
        None => None,
    }
}

impl CKPersonNameComponents {
    /// Name components with nothing set.
    pub fn new() -> (r: Self)
        ensures
            r@ == empty_person_name_view(),
    {
        Self::default()
    }

    /// Mirrors `namePrefix`.
    pub fn name_prefix(&self) -> (r: Option<&str>)
        ensures
            r is Some <==> self@.name_prefix is Some,
            r is Some ==> r->0@ == self@.name_prefix->0,
    {
        borrow_text(&self.name_prefix)
    }

    /// Mirrors `givenName`.
    pub fn given_name(&self) -> (r: Option<&str>)
        ensures
            r is Some <==> self@.given_name is Some,
            r is Some ==> r->0@ == self@.given_name->0,
    {
        borrow_text(&self.given_name)
    }

    /// Mirrors `middleName`.
    pub fn middle_name(&self) -> (r: Option<&str>)
        ensures
            r is Some <==> self@.middle_name is Some,
            r is Some ==> r->0@ == self@.middle_name->0,
    {
        borrow_text(&self.middle_name)
    }

    /// Mirrors `familyName`.
    pub fn family_name(&self) -> (r: Option<&str>)
        ensures
            r is Some <==> self@.family_name is Some,
            r is Some ==> r->0@ == self@.family_name->0,
    {
        borrow_text(&self.family_name)
    }

    /// Mirrors `nameSuffix`.
    pub fn name_suffix(&self) -> (r: Option<&str>)
        ensures
            r is Some <==> self@.name_suffix is Some,
            r is Some ==> r->0@ == self@.name_suffix->0,
    {
        borrow_text(&self.name_suffix)
    }

    /// Mirrors `nickname`.
    pub fn nickname(&self) -> (r: Option<&str>)
        ensures
            r is Some <==> self@.nickname is Some,
            r is Some ==> r->0@ == self@.nickname->0,
    {
        borrow_text(&self.nickname)
    }

    /// The same components with the name prefix set.
    pub fn with_name_prefix(self, value: &str) -> (r: Self)
        ensures
            r@ == (PersonNameView { name_prefix: Some(value@), ..self@ }),
    {
        Self { name_prefix: Some(owned(value)), ..self }
    }

    /// The same components with the given name set.
    pub fn with_given_name(self, value: &str) -> (r: Self)
        ensures
            r@ == (PersonNameView { given_name: Some(value@), ..self@ }),
    {
        Self { given_name: Some(owned(value)), ..self }
    }

    /// The same components with the middle name set.
    pub fn with_middle_name(self, value: &str) -> (r: Self)
        ensures
            r@ == (PersonNameView { middle_name: Some(value@), ..self@ }),
    {
        Self { middle_name: Some(owned(value)), ..self }
    }

    /// The same components with the family name set.
    pub fn with_family_name(self, value: &str) -> (r: Self)
        ensures
            r@ == (PersonNameView { family_name: Some(value@), ..self@ }),
    {
        Self { family_name: Some(owned(value)), ..self }
    }

    /// The same components with the name suffix set.
    pub fn with_name_suffix(self, value: &str) -> (r: Self)
        ensures
            r@ == (PersonNameView { name_suffix: Some(value@), ..self@ }),
    {
        Self { name_suffix: Some(owned(value)), ..self }
    }

    /// The same components with the nickname set.
    pub fn with_nickname(self, value: &str) -> (r: Self)
        ensures
            r@ == (PersonNameView { nickname: Some(value@), ..self@ }),
    {
        Self { nickname: Some(owned(value)), ..self }
    }

    /// The name components that a bridge payload stands for.
    pub fn from_payload(payload: CKPersonNameComponentsPayload) -> (r: Self)
        ensures
            r@ == person_name_payload_view(payload),
    {
        Self {
            name_prefix: payload.name_prefix,
            given_name: payload.given_name,
            middle_name: payload.middle_name,
            family_name: payload.family_name,
            name_suffix: payload.name_suffix,
            nickname: payload.nickname,
        }
    }

    /// The bridge payload of the name components.
    pub fn to_payload(&self) -> (r: CKPersonNameComponentsPayload)
        ensures
            person_name_payload_view(r) == self@,
    {
        CKPersonNameComponentsPayload {
            name_prefix: copy_opt_text(&self.name_prefix),
            given_name: copy_opt_text(&self.given_name),
            middle_name: copy_opt_text(&self.middle_name),
            family_name: copy_opt_text(&self.family_name),
            name_suffix: copy_opt_text(&self.name_suffix),
            nickname: copy_opt_text(&self.nickname),
        }
    }
}

// ---------------------------------------------------------------------------
// Lookup information
// ---------------------------------------------------------------------------

/// The abstract content of user lookup information.
pub struct LookupInfoView {
    pub email_address: Option<Seq<char>>,
    pub phone_number: Option<Seq<char>>,
    pub user_record_id: Option<RecordIdView>,
}

pub open spec fn lookup_info_payload_view(p: CKUserIdentityLookupInfoPayload) -> LookupInfoView {
    LookupInfoView {
        email_address: opt_text_view(p.email_address),
        phone_number: opt_text_view(p.phone_number),
        user_record_id: record_id_payload_option_view(p.user_record_id),
    }
}

/// Mirrors `CKUserIdentity.LookupInfo`.
#[derive(Debug, PartialEq, Eq, Hash)]
pub struct CKUserIdentityLookupInfo {
    email_address: Option<String>,
    phone_number: Option<String>,
    user_record_id: Option<CKRecordID>,
}

impl View for CKUserIdentityLookupInfo {
    type V = LookupInfoView;

    closed spec fn view(&self) -> LookupInfoView {
        LookupInfoView {
            email_address: opt_text_view(self.email_address),
            phone_number: opt_text_view(self.phone_number),
            user_record_id: record_id_option_view(self.user_record_id),
        }
    }
}

impl Clone for CKUserIdentityLookupInfo {
    fn clone(&self) -> (r: Self)
        ensures
            r@ == self@,
    {
        CKUserIdentityLookupInfo {
            email_address: copy_opt_text(&self.email_address),
            phone_number: copy_opt_text(&self.phone_number),
            user_record_id: copy_record_id_option(&self.user_record_id),
        }
    }
}

impl CKUserIdentityLookupInfo {
    /// Lookup by email address.
    pub fn with_email_address(email_address: &str) -> (r: Self)
        ensures
            r@ == (LookupInfoView { email_address: Some(email_address@), phone_number: None, user_record_id: None }),
    {
        Self { email_address: Some(owned(email_address)), phone_number: None, user_record_id: None }
    }

    /// Lookup by phone number.
    pub fn with_phone_number(phone_number: &str) -> (r: Self)
        ensures
            r@ == (LookupInfoView { email_address: None, phone_number: Some(phone_number@), user_record_id: None }),
    {
        Self { email_address: None, phone_number: Some(owned(phone_number)), user_record_id: None }
    }

    /// Lookup by user record identifier.
    pub fn with_user_record_id(user_record_id: CKRecordID) -> (r: Self)
        ensures
            r@ == (LookupInfoView { email_address: None, phone_number: None, user_record_id: Some(user_record_id@) }),
    {
        Self { email_address: None, phone_number: None, user_record_id: Some(user_record_id) }
    }

    /// Mirrors `emailAddress`.
    pub fn email_address(&self) -> (r: Option<&str>)
        ensures
            r is Some <==> self@.email_address is Some,
            r is Some ==> r->0@ == self@.email_address->0,
    {
        borrow_text(&self.email_address)
    }

    /// Mirrors `phoneNumber`.
    pub fn phone_number(&self) -> (r: Option<&str>)
        ensures
            r is Some <==> self@.phone_number is Some,
            r is Some ==> r->0@ == self@.phone_number->0,
    {
        borrow_text(&self.phone_number)
    }

    /// Mirrors `userRecordID`.
    pub fn user_record_id(&self) -> (r: Option<&CKRecordID>)
        ensures
            r is Some <==> self@.user_record_id is Some,
            r is Some ==> r->0@ == self@.user_record_id->0,
    {
        match &self.user_record_id {
            Some(id) => Some(id),
            None => None,
        }
    }

    /// The lookup information that a bridge payload stands for.
    pub fn from_payload(payload: CKUserIdentityLookupInfoPayload) -> (r: Self)
        ensures
            r@ == lookup_info_payload_view(payload),
    {
        Self {
            email_address: payload.email_address,
            phone_number: payload.phone_number,
            user_record_id: record_id_option_from_payload(payload.user_record_id),
        }
    }

    /// The bridge payload of the lookup information.
    pub fn to_payload(&self) -> (r: CKUserIdentityLookupInfoPayload)
        ensures
            lookup_info_payload_view(r) == self@,
    {
        CKUserIdentityLookupInfoPayload {
            email_address: copy_opt_text(&self.email_address),
            phone_number: copy_opt_text(&self.phone_number),
            user_record_id: record_id_option_to_payload(&self.user_record_id),
        }
    }
}

// ---------------------------------------------------------------------------
// User identities
// ---------------------------------------------------------------------------

/// The abstract content of a user identity.
pub struct UserIdentityView {
    pub archived_data: Seq<u8>,
    pub user_record_id: Option<RecordIdView>,
    pub lookup_info: Option<LookupInfoView>,
    pub name_components: Option<PersonNameView>,
    pub has_i_cloud_account: bool,
    pub contact_identifiers: Seq<Seq<char>>,
}

/// An identity with nothing known about the user.
pub open spec fn empty_user_identity_view() -> UserIdentityView {
    UserIdentityView {
        archived_data: Seq::empty(),
        user_record_id: None,
        lookup_info: None,
        name_components: None,
        has_i_cloud_account: false,
        contact_identifiers: Seq::empty(),
    }
}

pub open spec fn lookup_info_option_view(l: Option<CKUserIdentityLookupInfo>) -> Option<LookupInfoView> {
    match l {
        Some(x) => Some(x@),
        None => None,
    }
}

pub open spec fn person_name_option_view(n: Option<CKPersonNameComponents>) -> Option<PersonNameView> {
    match n {
        Some(x) => Some(x@),
        None => None,
    }
}

pub open spec fn user_identity_payload_view(p: CKUserIdentityPayload) -> UserIdentityView {
    UserIdentityView {
        archived_data: p.archived_data@,
        user_record_id: record_id_payload_option_view(p.user_record_id),
        lookup_info: match p.lookup_info {
            Some(l) => Some(lookup_info_payload_view(l)),
            None => None,
        },
        name_components: match p.name_components {
            Some(n) => Some(person_name_payload_view(n)),
            None => None,
        },
        has_i_cloud_account: p.hasi_cloud_account,
        contact_identifiers: texts_view(p.contact_identifiers@),
    }
}

/// Mirrors `CKUserIdentity`.
#[derive(Debug, PartialEq, Eq)]
pub struct CKUserIdentity {
    archived_data: Vec<u8>,
    user_record_id: Option<CKRecordID>,
    lookup_info: Option<CKUserIdentityLookupInfo>,
    name_components: Option<CKPersonNameComponents>,
    hasi_cloud_account: bool,
    contact_identifiers: Vec<String>,
}

impl View for CKUserIdentity {
    type V = UserIdentityView;

    closed spec fn view(&self) -> UserIdentityView {
        UserIdentityView {
            archived_data: self.archived_data@,
            user_record_id: record_id_option_view(self.user_record_id),
            lookup_info: lookup_info_option_view(self.lookup_info),
            name_components: person_name_option_view(self.name_components),
            has_i_cloud_account: self.hasi_cloud_account,
            contact_identifiers: texts_view(self.contact_identifiers@),
        }
    }
}

impl Clone for CKUserIdentity {
    fn clone(&self) -> (r: Self)
        ensures
            r@ == self@,
    {
        let lookup_info = match &self.lookup_info {
            Some(l) => Some(l.clone()),
            None => None,
        };
        let name_components = match &self.name_components {
            Some(n) => Some(n.clone()),
            None => None,
        };
        CKUserIdentity {
            archived_data: copy_bytes(&self.archived_data),
            user_record_id: copy_record_id_option(&self.user_record_id),
            lookup_info,
            name_components,
            hasi_cloud_account: self.hasi_cloud_account,
            contact_identifiers: copy_texts(&self.contact_identifiers),
        }
    }
}

impl Default for CKUserIdentity {
    fn default() -> (r: Self)
        ensures
            r@ == empty_user_identity_view(),
    {
        let r = Self {
            archived_data: Vec::new(),
            user_record_id: None,
            lookup_info: None,
            name_components: None,
            hasi_cloud_account: false,
            contact_identifiers: Vec::new(),
        };
        assert(texts_view(r.contact_identifiers@) =~= Seq::empty());
        r
    }
}

impl CKUserIdentity {
    /// An identity with nothing known about the user.
    pub fn new() -> (r: Self)
        ensures
            r@ == empty_user_identity_view(),
    {
        Self::default()
    }

    /// The archived form of the identity.
    pub fn archived_data(&self) -> (r: &[u8])
        ensures
            r@ == self@.archived_data,
    {
        self.archived_data.as_slice()
    }

    /// The same identity with other archived data.
    pub fn with_archived_data(self, archived_data: Vec<u8>) -> (r: Self)
        ensures
            r@ == (UserIdentityView { archived_data: archived_data@, ..self@ }),
    {
        Self { archived_data, ..self }
    }

    /// The same identity with the user record identifier set.
    pub fn with_user_record_id(self, user_record_id: CKRecordID) -> (r: Self)
        ensures
            r@ == (UserIdentityView { user_record_id: Some(user_record_id@), ..self@ }),
    {
        Self { user_record_id: Some(user_record_id), ..self }
    }

    /// The same identity with the lookup information set.
    pub fn with_lookup_info(self, lookup_info: CKUserIdentityLookupInfo) -> (r: Self)
        ensures
            r@ == (UserIdentityView { lookup_info: Some(lookup_info@), ..self@ }),
    {
        Self { lookup_info: Some(lookup_info), ..self }
    }

    /// The same identity with the name components set.
    pub fn with_name_components(self, name_components: CKPersonNameComponents) -> (r: Self)
        ensures
            r@ == (UserIdentityView { name_components: Some(name_components@), ..self@ }),
    {
        Self { name_components: Some(name_components), ..self }
    }

    /// The same identity with the iCloud-account flag set.
    pub fn with_has_i_cloud_account(self, has_i_cloud_account: bool) -> (r: Self)
        ensures
            r@ == (UserIdentityView { has_i_cloud_account, ..self@ }),
    {
        Self { hasi_cloud_account: has_i_cloud_account, ..self }
    }

    /// The same identity with other contact identifiers.
    pub fn with_contact_identifiers(self, contact_identifiers: Vec<String>) -> (r: Self)
        ensures
            r@ == (UserIdentityView { contact_identifiers: texts_view(contact_identifiers@), ..self@ }),
    {
        Self { contact_identifiers, ..self }
    }

    /// Mirrors `userRecordID`.
    pub fn user_record_id(&self) -> (r: Option<&CKRecordID>)
        ensures
            r is Some <==> self@.user_record_id is Some,
            r is Some ==> r->0@ == self@.user_record_id->0,
    {
        match &self.user_record_id {
            Some(id) => Some(id),
            None => None,
        }
    }

    /// Mirrors `lookupInfo`.
    pub fn lookup_info(&self) -> (r: Option<&CKUserIdentityLookupInfo>)
        ensures
            r is Some <==> self@.lookup_info is Some,
            r is Some ==> r->0@ == self@.lookup_info->0,
    {
        match &self.lookup_info {
            Some(l) => Some(l),
            None => None,
        }
    }

    /// Mirrors `nameComponents`.
    pub fn name_components(&self) -> (r: Option<&CKPersonNameComponents>)
        ensures
            r is Some <==> self@.name_components is Some,
            r is Some ==> r->0@ == self@.name_components->0,
    {
        match &self.name_components {
            Some(n) => Some(n),
            None => None,
        }
    }

    /// Mirrors `hasiCloudAccount`.
    pub fn has_i_cloud_account(&self) -> (r: bool)
        ensures
            r == self@.has_i_cloud_account,
    {
        self.hasi_cloud_account
    }

    /// Mirrors `contactIdentifiers`.
    pub fn contact_identifiers(&self) -> (r: &[String])
        ensures
            texts_view(r@) == self@.contact_identifiers,
    {
        self.contact_identifiers.as_slice()
    }

    /// The identity that a bridge payload stands for.
    pub fn from_payload(payload: CKUserIdentityPayload) -> (r: Self)
        ensures
            r@ == user_identity_payload_view(payload),
    {
        let lookup_info = match payload.lookup_info {
            Some(l) => Some(CKUserIdentityLookupInfo::from_payload(l)),
            None => None,
        };
        let name_components = match payload.name_components {
            Some(n) => Some(CKPersonNameComponents::from_payload(n)),
            None => None,
        };
        Self {
            archived_data: payload.archived_data,
            user_record_id: record_id_option_from_payload(payload.user_record_id),
            lookup_info,
            name_components,
            hasi_cloud_account: payload.hasi_cloud_account,
            contact_identifiers: payload.contact_identifiers,
        }
    }

    /// The bridge payload of the identity.
    pub fn to_payload(&self) -> (r: CKUserIdentityPayload)
        ensures
            user_identity_payload_view(r) == self@,
    {
        let lookup_info = match &self.lookup_info {
            Some(l) => Some(l.to_payload()),
            None => None,
        };
        let name_components = match &self.name_components {
            Some(n) => Some(n.to_payload()),
            None => None,
        };
        CKUserIdentityPayload {
            archived_data: copy_bytes(&self.archived_data),
            user_record_id: record_id_option_to_payload(&self.user_record_id),
            lookup_info,
            name_components,
            hasi_cloud_account: self.hasi_cloud_account,
            contact_identifiers: copy_texts(&self.contact_identifiers),
        }
    }
}

} // verus!
