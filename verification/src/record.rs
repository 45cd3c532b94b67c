//! Records and the values around them: zone and record identifiers, assets,
//! field values, record zones and the records themselves.
use vstd::prelude::*;

use crate::payload::{
    CKAssetPayload, CKRecordIDPayload, CKRecordPayload, CKRecordValuePayload,
    CKRecordZoneIDPayload, CKRecordZonePayload, CKReferencePayload, RecordValueKind,
};
use crate::reference_utility::{
    reference_action_from_raw, reference_action_is_canonical, reference_action_to_raw,
    reference_payload_view, CKReference, CKReferenceAction, ReferencePayloadView, ReferenceView,
};
use crate::keyed::{
    lemma_pairs_fold_sorted, lemma_pairs_insert, lemma_pairs_map_finite, lemma_pairs_map_at, lemma_pairs_remove,
    lemma_pairs_update, lemma_slot, lemma_slot_absent, pairs_fold, pairs_map, pairs_sorted, slot_ok,
};
use crate::error::{float_bits_eq, float_bits_equal};
use crate::text::{
    copy_texts, owned, push_text_unique, push_unique_text, text_eq, text_lt, texts_sorted,
    texts_view,
};

verus! {

/// The name of the default record zone.
pub const DEFAULT_ZONE_NAME: &'static str = "_defaultZone";
/// The owner name of zones that the current user owns.
pub const DEFAULT_OWNER_NAME: &'static str = "__defaultOwner__";

// ---------------------------------------------------------------------------
// Zone capabilities and encryption scope
// ---------------------------------------------------------------------------

/// Mirrors `CKRecordZone.Capabilities`, a set of flag bits.
#[derive(Debug, Clone, Copy, PartialEq, Eq, Hash)]
pub struct CKRecordZoneCapabilities(u64);

impl View for CKRecordZoneCapabilities {
    type V = u64;

    closed spec fn view(&self) -> u64 {
        self.0
    }
}

impl CKRecordZoneCapabilities {
    /// Mirrors `fetchChanges`.
    pub fn fetch_changes() -> (r: Self)
        ensures
            r@ == 1,
    {
        Self(1)
    }

    /// Mirrors `atomic`.
    pub fn atomic() -> (r: Self)
        ensures
            r@ == 2,
    {
        Self(2)
    }

    /// Mirrors `sharing`.
    pub fn sharing() -> (r: Self)
        ensures
            r@ == 4,
    {
        Self(4)
    }

    /// Mirrors `zoneWideSharing`.
    pub fn zone_wide_sharing() -> (r: Self)
        ensures
            r@ == 8,
    {
        Self(8)
    }

    /// The capability set with exactly these bits.
    pub fn new(bits: u64) -> (r: Self)
        ensures
            r@ == bits,
    {
        Self(bits)
    }

    /// The flag bits.
    pub fn bits(self) -> (r: u64)
        ensures
            r == self@,
    {
        self.0
    }

    /// Whether every bit of `other` is set here.
    pub fn contains(self, other: Self) -> (r: bool)
        ensures
            r == (self@ & other@ == other@),
    {
        (self.0 & other.0) == other.0
    }

    /// The union of two capability sets.
    pub fn union(self, other: Self) -> (r: Self)
        ensures
            r@ == self@ | other@,
    {
        Self(self.0 | other.0)
    }
}

impl Default for CKRecordZoneCapabilities {
    fn default() -> (r: Self)
        ensures
            r@ == 0,
    {
        Self(0)
    }
}

/// Mirrors `CKRecordZone.EncryptionScope`.
#[derive(Debug, Clone, Copy, PartialEq, Eq, Hash, Structural)]
#[non_exhaustive]
pub enum CKRecordZoneEncryptionScope {
    PerRecord,
    PerZone,
    Unknown(i32),
}

pub open spec fn encryption_scope_from_raw(raw: i32) -> CKRecordZoneEncryptionScope {
    if raw == 0 {
        CKRecordZoneEncryptionScope::PerRecord
    } else if raw == 1 {
        CKRecordZoneEncryptionScope::PerZone
    } else {
        CKRecordZoneEncryptionScope::Unknown(raw)
    }
}

pub open spec fn encryption_scope_to_raw(scope: CKRecordZoneEncryptionScope) -> i32 {
    match scope {
        CKRecordZoneEncryptionScope::PerRecord => 0,
        CKRecordZoneEncryptionScope::PerZone => 1,
        CKRecordZoneEncryptionScope::Unknown(raw) => raw,
    }
}

impl CKRecordZoneEncryptionScope {
    /// The scope for a raw value; values without a name stay `Unknown`.
    pub fn from_raw(raw: i32) -> (r: Self)
        ensures
            r == encryption_scope_from_raw(raw),
    {
        match raw {
            0 => Self::PerRecord,
            1 => Self::PerZone,
            other => Self::Unknown(other),
        }
    }

    /// The raw value of the scope.
    pub fn to_raw(self) -> (r: i32)
        ensures
            r == encryption_scope_to_raw(self),
    {
        match self {
            Self::PerRecord => 0,
            Self::PerZone => 1,
            Self::Unknown(raw) => raw,
        }
    }
}

/// The encryption scope follows the framework's raw values: 0 is per record,
/// 1 per zone; every other value is kept as unknown. Distinct raw values give
/// distinct scopes.
pub proof fn lemma_encryption_scope_raw_values(raw: i32, other: i32)
    ensures
        (raw == 0) <==> encryption_scope_from_raw(raw) == CKRecordZoneEncryptionScope::PerRecord,
        (raw == 1) <==> encryption_scope_from_raw(raw) == CKRecordZoneEncryptionScope::PerZone,
        !(0 <= raw <= 1) <==> encryption_scope_from_raw(raw) == CKRecordZoneEncryptionScope::Unknown(raw),
        encryption_scope_to_raw(CKRecordZoneEncryptionScope::PerRecord) == 0,
        encryption_scope_to_raw(CKRecordZoneEncryptionScope::PerZone) == 1,
        encryption_scope_from_raw(raw) == encryption_scope_from_raw(other) ==> raw == other,
{
}

// ---------------------------------------------------------------------------
// Zone and record identifiers
// ---------------------------------------------------------------------------

/// The abstract content of a record zone identifier.
pub struct RecordZoneIdView {
    pub zone_name: Seq<char>,
    pub owner_name: Seq<char>,
}

/// The identifier of the current user's default zone.
pub open spec fn default_zone_id_view() -> RecordZoneIdView {
    RecordZoneIdView { zone_name: DEFAULT_ZONE_NAME@, owner_name: DEFAULT_OWNER_NAME@ }
}

pub open spec fn zone_id_payload_view(p: CKRecordZoneIDPayload) -> RecordZoneIdView {
    RecordZoneIdView { zone_name: p.zone_name@, owner_name: p.owner_name@ }
}

/// Mirrors `CKRecordZone.ID`.
#[derive(Debug, PartialEq, Eq, Hash)]
pub struct CKRecordZoneID {
    zone_name: String,
    owner_name: String,
}

impl View for CKRecordZoneID {
    type V = RecordZoneIdView;

    closed spec fn view(&self) -> RecordZoneIdView {
        RecordZoneIdView { zone_name: self.zone_name@, owner_name: self.owner_name@ }
    }
}

impl Clone for CKRecordZoneID {
    fn clone(&self) -> (r: Self)
        ensures
            r@ == self@,
    {
        CKRecordZoneID { zone_name: self.zone_name.clone(), owner_name: self.owner_name.clone() }
    }
}

impl CKRecordZoneID {
    /// A zone identifier with the given zone and owner names.
    pub fn new(zone_name: &str, owner_name: &str) -> (r: Self)
        ensures
            r@ == (RecordZoneIdView { zone_name: zone_name@, owner_name: owner_name@ }),
    {
        Self { zone_name: owned(zone_name), owner_name: owned(owner_name) }
    }

    /// The identifier of the current user's default zone.
    pub fn default_zone() -> (r: Self)
        ensures
            r@ == default_zone_id_view(),
    {
        Self::new(DEFAULT_ZONE_NAME, DEFAULT_OWNER_NAME)
    }

    /// Mirrors `CKRecordZone.ID.zoneName`.
    pub fn zone_name(&self) -> (r: &str)
        ensures
            r@ == self@.zone_name,
    {
        self.zone_name.as_str()
    }

    /// Mirrors `CKRecordZone.ID.ownerName`.
    pub fn owner_name(&self) -> (r: &str)
        ensures
            r@ == self@.owner_name,
    {
        self.owner_name.as_str()
    }

    /// Whether two zone identifiers are equal.
    pub fn same_as(&self, other: &CKRecordZoneID) -> (r: bool)
        ensures
            r == (self@ == other@),
    {
        self.zone_name == other.zone_name && self.owner_name == other.owner_name
    }

    /// The zone identifier that a bridge payload stands for.
    pub fn from_payload(payload: CKRecordZoneIDPayload) -> (r: Self)
        ensures
            r@ == zone_id_payload_view(payload),
    {
        Self { zone_name: payload.zone_name, owner_name: payload.owner_name }
    }

    /// The bridge payload of the zone identifier.
    pub fn to_payload(&self) -> (r: CKRecordZoneIDPayload)
        ensures
            zone_id_payload_view(r) == self@,
    {
        CKRecordZoneIDPayload { zone_name: self.zone_name.clone(), owner_name: self.owner_name.clone() }
    }
}

/// The abstract content of a record identifier.
pub struct RecordIdView {
    pub record_name: Seq<char>,
    pub zone_id: RecordZoneIdView,
}

pub open spec fn record_id_payload_view(p: CKRecordIDPayload) -> RecordIdView {
    RecordIdView { record_name: p.record_name@, zone_id: zone_id_payload_view(p.zone_id) }
}

/// Mirrors `CKRecord.ID`.
#[derive(Debug, PartialEq, Eq, Hash)]
pub struct CKRecordID {
    record_name: String,
    zone_id: CKRecordZoneID,
}

impl View for CKRecordID {
    type V = RecordIdView;

    closed spec fn view(&self) -> RecordIdView {
        RecordIdView { record_name: self.record_name@, zone_id: self.zone_id@ }
    }
}

impl Clone for CKRecordID {
    fn clone(&self) -> (r: Self)
        ensures
            r@ == self@,
    {
        CKRecordID { record_name: self.record_name.clone(), zone_id: self.zone_id.clone() }
    }
}

impl CKRecordID {
    /// A record identifier in the default zone.
    pub fn new(record_name: &str) -> (r: Self)
        ensures
            r@ == (RecordIdView { record_name: record_name@, zone_id: default_zone_id_view() }),
    {
        Self::with_zone(record_name, CKRecordZoneID::default_zone())
    }

    /// A record identifier in the given zone.
    pub fn with_zone(record_name: &str, zone_id: CKRecordZoneID) -> (r: Self)
        ensures
            r@ == (RecordIdView { record_name: record_name@, zone_id: zone_id@ }),
    {
        Self { record_name: owned(record_name), zone_id }
    }

    /// Mirrors `CKRecord.ID.recordName`.
    pub fn record_name(&self) -> (r: &str)
        ensures
            r@ == self@.record_name,
    {
        self.record_name.as_str()
    }

    /// Mirrors `CKRecord.ID.zoneID`.
    pub fn zone_id(&self) -> (r: &CKRecordZoneID)
        ensures
            r@ == self@.zone_id,
    {
        &self.zone_id
    }

    /// Whether two record identifiers are equal.
    pub fn same_as(&self, other: &CKRecordID) -> (r: bool)
        ensures
            r == (self@ == other@),
    {
        self.record_name == other.record_name && self.zone_id.same_as(&other.zone_id)
    }

    /// The record identifier that a bridge payload stands for.
    pub fn from_payload(payload: CKRecordIDPayload) -> (r: Self)
        ensures
            r@ == record_id_payload_view(payload),
    {
        Self { record_name: payload.record_name, zone_id: CKRecordZoneID::from_payload(payload.zone_id) }
    }

    /// The bridge payload of the record identifier.
    pub fn to_payload(&self) -> (r: CKRecordIDPayload)
        ensures
            record_id_payload_view(r) == self@,
    {
        CKRecordIDPayload { record_name: self.record_name.clone(), zone_id: self.zone_id.to_payload() }
    }
}

// ---------------------------------------------------------------------------
// Assets
// ---------------------------------------------------------------------------

/// The abstract content of an asset: the location of its file.
pub struct AssetView {
    pub file_url: Seq<char>,
}

/// Mirrors `CKAsset`.
#[derive(Debug, PartialEq, Eq, Hash)]
pub struct CKAsset {
    file_url: String,
}

impl View for CKAsset {
    type V = AssetView;

    closed spec fn view(&self) -> AssetView {
        AssetView { file_url: self.file_url@ }
    }
}

impl Clone for CKAsset {
    fn clone(&self) -> (r: Self)
        ensures
            r@ == self@,
    {
        CKAsset { file_url: self.file_url.clone() }
    }
}

impl CKAsset {
    /// An asset backed by the file at `path`.
    pub fn new(path: &str) -> (r: Self)
        ensures
            r@ == (AssetView { file_url: path@ }),
    {
        Self { file_url: owned(path) }
    }

    /// Mirrors `CKAsset.fileURL`.
    pub fn file_url(&self) -> (r: &str)
        ensures
            r@ == self@.file_url,
    {
        self.file_url.as_str()
    }

    /// The asset that a bridge payload stands for.
    pub fn from_payload(payload: CKAssetPayload) -> (r: Self)
        ensures
            r@ == (AssetView { file_url: payload.file_url@ }),
    {
        Self { file_url: payload.file_url }
    }

    /// The bridge payload of the asset.
    pub fn to_payload(&self) -> (r: CKAssetPayload)
        ensures
            r.file_url@ == self@.file_url,
    {
        CKAssetPayload { file_url: self.file_url.clone() }
    }
}

// ---------------------------------------------------------------------------
// Field values
// ---------------------------------------------------------------------------

/// The value of a record field.
#[derive(Debug)]
#[non_exhaustive]
pub enum RecordValue {
    String(String),
    Int(i64),
    /// A floating-point value, held as the bit pattern of its `f64`.
    Double(u64),
    Bool(bool),
    Bytes(Vec<u8>),
    Date(String),
    Asset(CKAsset),
    Reference(CKReference),
    Array(Vec<RecordValue>),
}

/// The abstract content of a field value.
pub enum RecordValueView {
    String(Seq<char>),
    Int(i64),
    Double(u64),
    Bool(bool),
    Bytes(Seq<u8>),
    Date(Seq<char>),
    Asset(AssetView),
    Reference(ReferenceView),
    Array(Seq<RecordValueView>),
}

/// The view of a field value: each variant keeps its content, strings and
/// bytes by their views.
pub open spec fn record_value_view(v: RecordValue) -> RecordValueView
    decreases v,
{
    match v {
        RecordValue::String(s) => RecordValueView::String(s@),
        RecordValue::Int(i) => RecordValueView::Int(i),
        RecordValue::Double(bits) => RecordValueView::Double(bits),
        RecordValue::Bool(b) => RecordValueView::Bool(b),
        RecordValue::Bytes(bytes) => RecordValueView::Bytes(bytes@),
        RecordValue::Date(s) => RecordValueView::Date(s@),
        RecordValue::Asset(a) => RecordValueView::Asset(a@),
        RecordValue::Reference(r) => RecordValueView::Reference(r@),
        RecordValue::Array(items) => RecordValueView::Array(
            Seq::new(
                items@.len(),
                |i: int|
                    if 0 <= i < items@.len() {
                        record_value_view(items@[i])
                    } else {
                        RecordValueView::Bool(false)
                    },
            ),
        ),
    }
}

impl View for RecordValue {
    type V = RecordValueView;

    open spec fn view(&self) -> RecordValueView {
        record_value_view(*self)
    }
}

/// Whether two field values are equal as `==` compares them: each variant by
/// its content, a `Double` as `f64` compares (zeros of either sign equal, a NaN
/// equal to nothing), an array element by element.
pub open spec fn value_view_eq(a: RecordValueView, b: RecordValueView) -> bool
    decreases a,
{
    match (a, b) {
        (RecordValueView::String(x), RecordValueView::String(y)) => x == y,
        (RecordValueView::Int(x), RecordValueView::Int(y)) => x == y,
        (RecordValueView::Double(x), RecordValueView::Double(y)) => float_bits_eq(x, y),
        (RecordValueView::Bool(x), RecordValueView::Bool(y)) => x == y,
        (RecordValueView::Bytes(x), RecordValueView::Bytes(y)) => x == y,
        (RecordValueView::Date(x), RecordValueView::Date(y)) => x == y,
        (RecordValueView::Asset(x), RecordValueView::Asset(y)) => x == y,
        (RecordValueView::Reference(x), RecordValueView::Reference(y)) => x == y,
        (RecordValueView::Array(x), RecordValueView::Array(y)) => {
            &&& x.len() == y.len()
            &&& forall|i: int| 0 <= i < x.len() ==> value_view_eq(#[trigger] x[i], y[i])
        },
        _ => false,
    }
}

fn bytes_equal(a: &Vec<u8>, b: &Vec<u8>) -> (r: bool)
    ensures
        r == (a@ == b@),
{
    if a.len() != b.len() {
        return false;
    }
    let mut i: usize = 0;
    while i < a.len()
        invariant
            i <= a@.len(),
            a@.len() == b@.len(),
            forall|j: int| 0 <= j < i ==> a@[j] == b@[j],
        decreases a@.len() - i,
    {
        if a[i] != b[i] {
            return false;
        }
        i = i + 1;
    }
    assert(a@ =~= b@);
    true
}

/// Compares two field values as `==` does (see `value_view_eq`).
pub fn values_equal(a: &RecordValue, b: &RecordValue) -> (r: bool)
    ensures
        r == value_view_eq(a@, b@),
    decreases a,
{
    match a {
        RecordValue::String(x) => match b {
            RecordValue::String(y) => text_eq(x.as_str(), y.as_str()),
            _ => false,
        },
        RecordValue::Int(x) => match b {
            RecordValue::Int(y) => *x == *y,
            _ => false,
        },
        RecordValue::Double(x) => match b {
            RecordValue::Double(y) => {
                let r = float_bits_equal(*x, *y);
                assert(a@ == RecordValueView::Double(*x) && b@ == RecordValueView::Double(*y));
                r
            },
            _ => false,
        },
        RecordValue::Bool(x) => match b {
            RecordValue::Bool(y) => *x == *y,
            _ => false,
        },
        RecordValue::Bytes(x) => match b {
            RecordValue::Bytes(y) => bytes_equal(x, y),
            _ => false,
        },
        RecordValue::Date(x) => match b {
            RecordValue::Date(y) => text_eq(x.as_str(), y.as_str()),
            _ => false,
        },
        RecordValue::Asset(x) => match b {
            RecordValue::Asset(y) => text_eq(x.file_url(), y.file_url()),
            _ => false,
        },
        RecordValue::Reference(x) => match b {
            RecordValue::Reference(y) => x.record_id().same_as(y.record_id()) && x.action() == y.action(),
            _ => false,
        },
        RecordValue::Array(x) => match b {
            RecordValue::Array(y) => {
                if x.len() != y.len() {
                    return false;
                }
                proof {
                    assert(a@->Array_0.len() == x@.len());
                    assert forall|k: int| 0 <= k < x@.len() implies #[trigger] a@->Array_0[k] == x@[k]@ by {}
                    assert forall|k: int| 0 <= k < y@.len() implies #[trigger] b@->Array_0[k] == y@[k]@ by {}
                }
                let mut i: usize = 0;
                while i < x.len()
                    invariant
                        i <= x@.len(),
                        x@.len() == y@.len(),
                        a@ is Array && b@ is Array,
                        a@->Array_0.len() == x@.len(),
                        b@->Array_0.len() == y@.len(),
                        forall|k: int| 0 <= k < x@.len() ==> #[trigger] a@->Array_0[k] == x@[k]@,
                        forall|k: int| 0 <= k < y@.len() ==> #[trigger] b@->Array_0[k] == y@[k]@,
                        *a == RecordValue::Array(*x),
                        forall|j: int| 0 <= j < i ==> value_view_eq(#[trigger] x@[j]@, y@[j]@),
                    decreases x@.len() - i,
                {
                    proof {
                        assert(decreases_to!(*a => *x));
                        assert(decreases_to!(*x => x@));
                        assert(decreases_to!(x@ => x@[i as int]));
                    }
                    if !values_equal(&x[i], &y[i]) {
                        proof {
                            assert(a@->Array_0[i as int] == x@[i as int]@);
                            assert(b@->Array_0[i as int] == y@[i as int]@);
                        }
                        return false;
                    }
                    i = i + 1;
                }
                proof {
                    assert forall|j: int| 0 <= j < a@->Array_0.len() implies value_view_eq(
                        #[trigger] a@->Array_0[j],
                        b@->Array_0[j],
                    ) by {
                        assert(a@->Array_0[j] == x@[j]@);
                        assert(b@->Array_0[j] == y@[j]@);
                    }
                }
                true
            },
            _ => false,
        },
    }
}

impl PartialEq for RecordValue {
    fn eq(&self, other: &Self) -> (r: bool) {
        values_equal(self, other)
    }
}

impl vstd::std_specs::cmp::PartialEqSpecImpl for RecordValue {
    open spec fn obeys_eq_spec() -> bool {
        true
    }

    open spec fn eq_spec(&self, other: &Self) -> bool {
        value_view_eq(self@, other@)
    }
}

impl From<String> for RecordValue {
    fn from(value: String) -> (r: Self)
        ensures
            r@ == RecordValueView::String(value@),
    {
        RecordValue::String(value)
    }
}

impl vstd::std_specs::convert::FromSpecImpl<String> for RecordValue {
    open spec fn obeys_from_spec() -> bool {
        true
    }

    open spec fn from_spec(value: String) -> Self {
        RecordValue::String(value)
    }
}

impl From<bool> for RecordValue {
    fn from(value: bool) -> (r: Self)
        ensures
            r@ == RecordValueView::Bool(value),
    {
        RecordValue::Bool(value)
    }
}

impl vstd::std_specs::convert::FromSpecImpl<bool> for RecordValue {
    open spec fn obeys_from_spec() -> bool {
        true
    }

    open spec fn from_spec(value: bool) -> Self {
        RecordValue::Bool(value)
    }
}

impl From<i64> for RecordValue {
    fn from(value: i64) -> (r: Self)
        ensures
            r@ == RecordValueView::Int(value),
    {
        RecordValue::Int(value)
    }
}

impl vstd::std_specs::convert::FromSpecImpl<i64> for RecordValue {
    open spec fn obeys_from_spec() -> bool {
        true
    }

    open spec fn from_spec(value: i64) -> Self {
        RecordValue::Int(value)
    }
}

impl From<i32> for RecordValue {
    fn from(value: i32) -> (r: Self)
        ensures
            r@ == RecordValueView::Int(value as i64),
    {
        RecordValue::Int(value as i64)
    }
}

impl vstd::std_specs::convert::FromSpecImpl<i32> for RecordValue {
    open spec fn obeys_from_spec() -> bool {
        true
    }

    open spec fn from_spec(value: i32) -> Self {
        RecordValue::Int(value as i64)
    }
}

impl From<Vec<u8>> for RecordValue {
    fn from(value: Vec<u8>) -> (r: Self)
        ensures
            r@ == RecordValueView::Bytes(value@),
    {
        RecordValue::Bytes(value)
    }
}

impl vstd::std_specs::convert::FromSpecImpl<Vec<u8>> for RecordValue {
    open spec fn obeys_from_spec() -> bool {
        true
    }

    open spec fn from_spec(value: Vec<u8>) -> Self {
        RecordValue::Bytes(value)
    }
}

impl From<CKAsset> for RecordValue {
    fn from(value: CKAsset) -> (r: Self)
        ensures
            r@ == RecordValueView::Asset(value@),
    {
        RecordValue::Asset(value)
    }
}

impl vstd::std_specs::convert::FromSpecImpl<CKAsset> for RecordValue {
    open spec fn obeys_from_spec() -> bool {
        true
    }

    open spec fn from_spec(value: CKAsset) -> Self {
        RecordValue::Asset(value)
    }
}

impl From<CKReference> for RecordValue {
    fn from(value: CKReference) -> (r: Self)
        ensures
            r@ == RecordValueView::Reference(value@),
    {
        RecordValue::Reference(value)
    }
}

impl vstd::std_specs::convert::FromSpecImpl<CKReference> for RecordValue {
    open spec fn obeys_from_spec() -> bool {
        true
    }

    open spec fn from_spec(value: CKReference) -> Self {
        RecordValue::Reference(value)
    }
}

impl From<Vec<RecordValue>> for RecordValue {
    fn from(value: Vec<RecordValue>) -> (r: Self)
        ensures
            r@ == RecordValueView::Array(crate::sync_engine::views_of(value@)),
    {
        let ghost items = value@;
        let r = RecordValue::Array(value);
        proof {
            let v = record_value_view(r);
            assert(v is Array);
            let s = v->Array_0;
            assert(s.len() == items.len());
            assert forall|i: int| 0 <= i < items.len() implies s[i] == crate::sync_engine::views_of(items)[i] by {
                assert(items[i]@ == record_value_view(items[i]));
            }
            assert(s =~= crate::sync_engine::views_of(items));
        }
        r
    }
}

impl vstd::std_specs::convert::FromSpecImpl<Vec<RecordValue>> for RecordValue {
    open spec fn obeys_from_spec() -> bool {
        true
    }

    open spec fn from_spec(value: Vec<RecordValue>) -> Self {
        RecordValue::Array(value)
    }
}

/// The abstract content of a field value payload.
pub struct RecordValuePayloadView {
    pub kind: RecordValueKind,
    pub string_value: Option<Seq<char>>,
    pub int_value: Option<i64>,
    pub double_value: Option<u64>,
    pub bool_value: Option<bool>,
    pub bytes_value: Option<Seq<u8>>,
    pub date_value: Option<Seq<char>>,
    pub asset_value: Option<Seq<char>>,
    pub reference_value: Option<ReferencePayloadView>,
    pub array_value: Option<Seq<RecordValuePayloadView>>,
}

pub open spec fn text_option_view(s: Option<String>) -> Option<Seq<char>> {
    match s {
        Some(t) => Some(t@),
        None => None,
    }
}

pub open spec fn bytes_option_view(s: Option<Vec<u8>>) -> Option<Seq<u8>> {
    match s {
        Some(t) => Some(t@),
        None => None,
    }
}

pub open spec fn record_value_payload_view(p: CKRecordValuePayload) -> RecordValuePayloadView
    decreases p,
{
    RecordValuePayloadView {
        kind: p.kind,
        string_value: text_option_view(p.string_value),
        int_value: p.int_value,
        double_value: p.double_value,
        bool_value: p.bool_value,
        bytes_value: bytes_option_view(p.bytes_value),
        date_value: text_option_view(p.date_value),
        asset_value: match p.asset_value {
            Some(a) => Some(a.file_url@),
            None => None,
        },
        reference_value: match p.reference_value {
            Some(r) => Some(reference_payload_view(r)),
            None => None,
        },
        array_value: match p.array_value {
            Some(items) => Some(
                Seq::new(
                    items@.len(),
                    |i: int|
                        if 0 <= i < items@.len() {
                            record_value_payload_view(items@[i])
                        } else {
                            empty_value_payload_view(RecordValueKind::Bool)
                        },
                ),
            ),
            None => None,
        },
    }
}

/// A payload of the given kind with every value field absent.
pub open spec fn empty_value_payload_view(kind: RecordValueKind) -> RecordValuePayloadView {
    RecordValuePayloadView {
        kind,
        string_value: None,
        int_value: None,
        double_value: None,
        bool_value: None,
        bytes_value: None,
        date_value: None,
        asset_value: None,
        reference_value: None,
        array_value: None,
    }
}

/// The payload that a field value becomes: its kind, and the one field of that kind.
pub open spec fn value_to_payload_view(v: RecordValueView) -> RecordValuePayloadView
    decreases v,
{
    match v {
        RecordValueView::String(s) => RecordValuePayloadView {
            string_value: Some(s),
            ..empty_value_payload_view(RecordValueKind::String)
        },
        RecordValueView::Int(i) => RecordValuePayloadView {
            int_value: Some(i),
            ..empty_value_payload_view(RecordValueKind::Int)
        },
        RecordValueView::Double(bits) => RecordValuePayloadView {
            double_value: Some(bits),
            ..empty_value_payload_view(RecordValueKind::Double)
        },
        RecordValueView::Bool(b) => RecordValuePayloadView {
            bool_value: Some(b),
            ..empty_value_payload_view(RecordValueKind::Bool)
        },
        RecordValueView::Bytes(bytes) => RecordValuePayloadView {
            bytes_value: Some(bytes),
            ..empty_value_payload_view(RecordValueKind::Bytes)
        },
        RecordValueView::Date(s) => RecordValuePayloadView {
            date_value: Some(s),
            ..empty_value_payload_view(RecordValueKind::Date)
        },
        RecordValueView::Asset(a) => RecordValuePayloadView {
            asset_value: Some(a.file_url),
            ..empty_value_payload_view(RecordValueKind::Asset)
        },
        RecordValueView::Reference(r) => RecordValuePayloadView {
            reference_value: Some(
                ReferencePayloadView { record_id: r.record_id, action: reference_action_to_raw(r.action) },
            ),
            ..empty_value_payload_view(RecordValueKind::Reference)
        },
        RecordValueView::Array(items) => RecordValuePayloadView {
            array_value: Some(
                Seq::new(
                    items.len(),
                    |i: int|
                        if 0 <= i < items.len() {
                            value_to_payload_view(items[i])
                        } else {
                            empty_value_payload_view(RecordValueKind::Bool)
                        },
                ),
            ),
            ..empty_value_payload_view(RecordValueKind::Array)
        },
    }
}

/// The reference that stands in for a reference payload without a target: a
/// reference with no action to a nameless record in the default zone.
pub open spec fn missing_reference_view() -> ReferenceView {
    ReferenceView {
        record_id: RecordIdView { record_name: Seq::empty(), zone_id: default_zone_id_view() },
        action: CKReferenceAction::NoAction,
    }
}

/// The field value that a payload stands for: the field of its kind, or the
/// default of that kind (empty text or bytes, zero, `false`, an empty array)
/// where the field is absent.
pub open spec fn value_from_payload_view(p: RecordValuePayloadView) -> RecordValueView
    decreases p,
{
    match p.kind {
        RecordValueKind::String => RecordValueView::String(
            match p.string_value {
                Some(s) => s,
                None => Seq::empty(),
            },
        ),
        RecordValueKind::Int => RecordValueView::Int(
            match p.int_value {
                Some(i) => i,
                None => 0,
            },
        ),
        RecordValueKind::Double => RecordValueView::Double(
            match p.double_value {
                Some(bits) => bits,
                None => 0,
            },
        ),
        RecordValueKind::Bool => RecordValueView::Bool(
            match p.bool_value {
                Some(b) => b,
                None => false,
            },
        ),
        RecordValueKind::Bytes => RecordValueView::Bytes(
            match p.bytes_value {
                Some(b) => b,
                None => Seq::empty(),
            },
        ),
        RecordValueKind::Date => RecordValueView::Date(
            match p.date_value {
                Some(s) => s,
                None => Seq::empty(),
            },
        ),
        RecordValueKind::Asset => RecordValueView::Asset(
            AssetView {
                file_url: match p.asset_value {
                    Some(u) => u,
                    None => Seq::empty(),
                },
            },
        ),
        RecordValueKind::Reference => RecordValueView::Reference(
            match p.reference_value {
                Some(r) => ReferenceView {
                    record_id: r.record_id,
                    action: reference_action_from_raw(r.action),
                },
                None => missing_reference_view(),
            },
        ),
        RecordValueKind::Array => RecordValueView::Array(
            match p.array_value {
                Some(items) => Seq::new(
                    items.len(),
                    |i: int|
                        if 0 <= i < items.len() {
                            value_from_payload_view(items[i])
                        } else {
                            RecordValueView::Bool(false)
                        },
                ),
                None => Seq::empty(),
            },
        ),
    }
}

/// The value with every reference action replaced by the action that its raw
/// value names (an `Unknown` wrapping the raw value of a named action becomes
/// that named action).
pub open spec fn canonical_value(v: RecordValueView) -> RecordValueView
    decreases v,
{
    match v {
        RecordValueView::Reference(r) => RecordValueView::Reference(
            ReferenceView {
                record_id: r.record_id,
                action: reference_action_from_raw(reference_action_to_raw(r.action)),
            },
        ),
        RecordValueView::Array(items) => RecordValueView::Array(
            Seq::new(
                items.len(),
                |i: int|
                    if 0 <= i < items.len() {
                        canonical_value(items[i])
                    } else {
                        RecordValueView::Bool(false)
                    },
            ),
        ),
        _ => v,
    }
}

/// A field value survives the trip through its payload, up to the canonical
/// form of its reference actions.
pub proof fn lemma_record_value_payload_round_trip(v: RecordValueView)
    ensures
        value_from_payload_view(value_to_payload_view(v)) == canonical_value(v),
    decreases v,
{
    match v {
        RecordValueView::Array(items) => {
            let back = value_from_payload_view(value_to_payload_view(v));
            let canon = canonical_value(v);
            match back {
                RecordValueView::Array(back_items) => {
                    match canon {
                        RecordValueView::Array(canon_items) => {
                            assert(back_items.len() == canon_items.len());
                            assert forall|i: int| 0 <= i < back_items.len() implies back_items[i]
                                == canon_items[i] by {
                                lemma_record_value_payload_round_trip(items[i]);
                            }
                            assert(back_items =~= canon_items);
                        },
                        _ => {},
                    }
                },
                _ => {},
            }
        },
        _ => {},
    }
}

/// A scalar field value becomes a payload of its own kind that carries the value
/// itself in that kind's field: a `Bool(b)` carries `b` in `bool_value`, an
/// `Int(i)` carries `i` in `int_value`, and so on; a boolean payload holds no
/// other field. A reference carries its target and its action's raw value, and
/// an array carries the payload of each item, in order.
pub proof fn lemma_value_payload_carries_value(
    s: Seq<char>,
    i: i64,
    bits: u64,
    b: bool,
    bytes: Seq<u8>,
    date: Seq<char>,
    url: Seq<char>,
    reference: ReferenceView,
    items: Seq<RecordValueView>,
)
    ensures
        value_to_payload_view(RecordValueView::String(s)).kind is String,
        value_to_payload_view(RecordValueView::String(s)).string_value == Some(s),
        value_to_payload_view(RecordValueView::Int(i)).kind is Int,
        value_to_payload_view(RecordValueView::Int(i)).int_value == Some(i),
        value_to_payload_view(RecordValueView::Double(bits)).kind is Double,
        value_to_payload_view(RecordValueView::Double(bits)).double_value == Some(bits),
        value_to_payload_view(RecordValueView::Bool(b)).kind is Bool,
        value_to_payload_view(RecordValueView::Bool(b)).bool_value == Some(b),
        value_to_payload_view(RecordValueView::Bool(b)).string_value is None,
        value_to_payload_view(RecordValueView::Bool(b)).int_value is None,
        value_to_payload_view(RecordValueView::Bool(b)).double_value is None,
        value_to_payload_view(RecordValueView::Bool(b)).bytes_value is None,
        value_to_payload_view(RecordValueView::Bool(b)).date_value is None,
        value_to_payload_view(RecordValueView::Bool(b)).asset_value is None,
        value_to_payload_view(RecordValueView::Bool(b)).reference_value is None,
        value_to_payload_view(RecordValueView::Bool(b)).array_value is None,
        value_to_payload_view(RecordValueView::Bytes(bytes)).kind is Bytes,
        value_to_payload_view(RecordValueView::Bytes(bytes)).bytes_value == Some(bytes),
        value_to_payload_view(RecordValueView::Date(date)).kind is Date,
        value_to_payload_view(RecordValueView::Date(date)).date_value == Some(date),
        value_to_payload_view(RecordValueView::Asset(AssetView { file_url: url })).kind is Asset,
        value_to_payload_view(RecordValueView::Asset(AssetView { file_url: url })).asset_value == Some(url),
        value_to_payload_view(RecordValueView::Reference(reference)).kind is Reference,
        value_to_payload_view(RecordValueView::Reference(reference)).reference_value == Some(
            ReferencePayloadView { record_id: reference.record_id, action: reference_action_to_raw(reference.action) },
        ),
        value_to_payload_view(RecordValueView::Array(items)).kind is Array,
        value_to_payload_view(RecordValueView::Array(items)).array_value is Some,
        value_to_payload_view(RecordValueView::Array(items)).array_value->0.len() == items.len(),
        forall|k: int| 0 <= k < items.len() ==> #[trigger] value_to_payload_view(RecordValueView::Array(items)).array_value->0[k]
            == value_to_payload_view(items[k]),
{
}

/// A payload reads as the value in the field of its kind: a boolean payload with
/// `bool_value` `Some(b)` is `Bool(b)`, and one without it is `Bool(false)`;
/// likewise the other scalar kinds, which read a missing field as zero or empty.
pub proof fn lemma_value_from_payload_reads_field(p: RecordValuePayloadView)
    ensures
        p.kind is Bool && p.bool_value is Some ==> value_from_payload_view(p)
            == RecordValueView::Bool(p.bool_value->0),
        p.kind is Bool && p.bool_value is None ==> value_from_payload_view(p) == RecordValueView::Bool(false),
        p.kind is String && p.string_value is Some ==> value_from_payload_view(p)
            == RecordValueView::String(p.string_value->0),
        p.kind is String && p.string_value is None ==> value_from_payload_view(p)
            == RecordValueView::String(Seq::empty()),
        p.kind is Int && p.int_value is Some ==> value_from_payload_view(p) == RecordValueView::Int(p.int_value->0),
        p.kind is Int && p.int_value is None ==> value_from_payload_view(p) == RecordValueView::Int(0),
        p.kind is Double && p.double_value is Some ==> value_from_payload_view(p)
            == RecordValueView::Double(p.double_value->0),
        p.kind is Double && p.double_value is None ==> value_from_payload_view(p) == RecordValueView::Double(0),
        p.kind is Bytes && p.bytes_value is Some ==> value_from_payload_view(p)
            == RecordValueView::Bytes(p.bytes_value->0),
        p.kind is Bytes && p.bytes_value is None ==> value_from_payload_view(p)
            == RecordValueView::Bytes(Seq::empty()),
        p.kind is Date && p.date_value is Some ==> value_from_payload_view(p)
            == RecordValueView::Date(p.date_value->0),
        p.kind is Date && p.date_value is None ==> value_from_payload_view(p)
            == RecordValueView::Date(Seq::empty()),
        p.kind is Asset && p.asset_value is Some ==> value_from_payload_view(p)
            == RecordValueView::Asset(AssetView { file_url: p.asset_value->0 }),
{
}

impl Clone for RecordValue {
    fn clone(&self) -> (r: Self)
        ensures
            r@ == self@,
        decreases self,
    {
        match self {
            RecordValue::String(s) => RecordValue::String(s.clone()),
            RecordValue::Int(i) => RecordValue::Int(*i),
            RecordValue::Double(bits) => RecordValue::Double(*bits),
            RecordValue::Bool(b) => RecordValue::Bool(*b),
            RecordValue::Bytes(bytes) => RecordValue::Bytes(copy_bytes(bytes)),
            RecordValue::Date(s) => RecordValue::Date(s.clone()),
            RecordValue::Asset(a) => RecordValue::Asset(a.clone()),
            RecordValue::Reference(r) => RecordValue::Reference(r.clone()),
            RecordValue::Array(items) => {
                let mut out: Vec<RecordValue> = Vec::new();
                let mut i: usize = 0;
                #[verifier::loop_isolation(false)]
                while i < items.len()
                    invariant
                        i <= items@.len(),
                        out@.len() == i,
                        forall|j: int| 0 <= j < i ==> #[trigger] out@[j]@ == items@[j]@,
                    decreases items@.len() - i,
                {
                    proof {
                        assert(decreases_to!(*self => items@[i as int]));
                    }
                    let item = items[i].clone();
                    out.push(item);
                    i = i + 1;
                }
                let r = RecordValue::Array(out);
                assert(r@ == self@) by {
                    match r@ {
                        RecordValueView::Array(s) => {
                            match self@ {
                                RecordValueView::Array(t) => {
                                    assert(s.len() == t.len());
                                    assert forall|j: int| 0 <= j < s.len() implies s[j] == t[j] by {
                                        assert(s[j] == out@[j]@);
                                        assert(t[j] == items@[j]@);
                                    }
                                    assert(s =~= t);
                                },
                                _ => {},
                            }
                        },
                        _ => {},
                    }
                }
                r
            },
        }
    }
}

/// Copies a byte vector.
pub fn copy_bytes(bytes: &Vec<u8>) -> (r: Vec<u8>)
    ensures
        r@ == bytes@,
{
    let mut out: Vec<u8> = Vec::new();
    let mut i: usize = 0;
    while i < bytes.len()
        invariant
            i <= bytes@.len(),
            out@ == bytes@.take(i as int),
        decreases bytes@.len() - i,
    {
        out.push(bytes[i]);
        i = i + 1;
        assert(out@ =~= bytes@.take(i as int));
    }
    assert(bytes@.take(bytes@.len() as int) =~= bytes@);
    out
}

/// Copies an optional string.
pub fn copy_text_option(s: &Option<String>) -> (r: Option<String>)
    ensures
        text_option_view(r) == text_option_view(*s),
{
    match s {
        Some(t) => Some(t.clone()),
        None => None,
    }
}

/// Copies an optional byte vector.
pub fn copy_bytes_option(s: &Option<Vec<u8>>) -> (r: Option<Vec<u8>>)
    ensures
        bytes_option_view(r) == bytes_option_view(*s),
{
    match s {
        Some(t) => Some(copy_bytes(t)),
        None => None,
    }
}

impl RecordValue {
    /// The bridge payload of the value: its kind and the one field of that kind.
    pub fn to_payload(&self) -> (r: CKRecordValuePayload)
        ensures
            record_value_payload_view(r) == value_to_payload_view(self@),
        decreases self,
    {
        let mut p = CKRecordValuePayload {
            kind: RecordValueKind::Bool,
            string_value: None,
            int_value: None,
            double_value: None,
            bool_value: None,
            bytes_value: None,
            date_value: None,
            asset_value: None,
            reference_value: None,
            array_value: None,
        };
        match self {
            Self::String(value) => {
                p.kind = RecordValueKind::String;
                p.string_value = Some(value.clone());
            },
            Self::Int(value) => {
                p.kind = RecordValueKind::Int;
                p.int_value = Some(*value);
            },
            Self::Double(value) => {
                p.kind = RecordValueKind::Double;
                p.double_value = Some(*value);
            },
            Self::Bool(value) => {
                p.kind = RecordValueKind::Bool;
                p.bool_value = Some(*value);
            },
            Self::Bytes(value) => {
                p.kind = RecordValueKind::Bytes;
                p.bytes_value = Some(copy_bytes(value));
            },
            Self::Date(value) => {
                p.kind = RecordValueKind::Date;
                p.date_value = Some(value.clone());
            },
            Self::Asset(asset) => {
                p.kind = RecordValueKind::Asset;
                p.asset_value = Some(asset.to_payload());
            },
            Self::Reference(reference) => {
                p.kind = RecordValueKind::Reference;
                p.reference_value = Some(reference.to_payload());
            },
            Self::Array(values) => {
                let mut out: Vec<CKRecordValuePayload> = Vec::new();
                let mut i: usize = 0;
                #[verifier::loop_isolation(false)]
                while i < values.len()
                    invariant
                        i <= values@.len(),
                        out@.len() == i,
                        forall|j: int|
                            0 <= j < i ==> #[trigger] record_value_payload_view(out@[j])
                                == value_to_payload_view(values@[j]@),
                    decreases values@.len() - i,
                {
                    proof {
                        assert(decreases_to!(*self => values@[i as int]));
                    }
                    let item = values[i].to_payload();
                    out.push(item);
                    i = i + 1;
                }
                p.kind = RecordValueKind::Array;
                p.array_value = Some(out);
                proof {
                    let pv = record_value_payload_view(p);
                    let target = value_to_payload_view(self@);
                    let a = pv.array_value->0;
                    let b = target.array_value->0;
                    assert(a.len() == b.len());
                    assert forall|j: int| 0 <= j < a.len() implies a[j] == b[j] by {
                        assert(a[j] == record_value_payload_view(out@[j]));
                    }
                    assert(a =~= b);
                }
            },
        }
        p
    }

    /// The value that a bridge payload stands for: the field of its kind, or
    /// that kind's default where the field is absent.
    pub fn from_payload(payload: CKRecordValuePayload) -> (r: Self)
        ensures
            r@ == value_from_payload_view(record_value_payload_view(payload)),
    {
        Self::from_payload_ref(&payload)
    }

    fn from_payload_ref(payload: &CKRecordValuePayload) -> (r: Self)
        ensures
            r@ == value_from_payload_view(record_value_payload_view(*payload)),
        decreases payload,
    {
        match payload.kind {
            RecordValueKind::String => {
                let text = match &payload.string_value {
                    Some(v) => v.clone(),
                    None => String::new(),
                };
                proof {
                    let pv = record_value_payload_view(*payload);
                    assert(pv.kind == RecordValueKind::String);
                    assert(text@ == match pv.string_value {
                        Some(t) => t,
                        None => Seq::<char>::empty(),
                    });
                }
                Self::String(text)
            },
            RecordValueKind::Int => Self::Int(
                match payload.int_value {
                    Some(v) => v,
                    None => 0,
                },
            ),
            RecordValueKind::Double => Self::Double(
                match payload.double_value {
                    Some(v) => v,
                    None => 0,
                },
            ),
            RecordValueKind::Bool => Self::Bool(
                match payload.bool_value {
                    Some(v) => v,
                    None => false,
                },
            ),
            RecordValueKind::Bytes => Self::Bytes(
                match &payload.bytes_value {
                    Some(v) => copy_bytes(v),
                    None => Vec::new(),
                },
            ),
            RecordValueKind::Date => Self::Date(
                match &payload.date_value {
                    Some(v) => v.clone(),
                    None => String::new(),
                },
            ),
            RecordValueKind::Asset => Self::Asset(
                match &payload.asset_value {
                    Some(a) => CKAsset::new(a.file_url.as_str()),
                    None => CKAsset { file_url: String::new() },
                },
            ),
            RecordValueKind::Reference => Self::Reference(
                match &payload.reference_value {
                    Some(r) => CKReference::new(
                        CKRecordID::with_zone(
                            r.record_id.record_name.as_str(),
                            CKRecordZoneID::new(
                                r.record_id.zone_id.zone_name.as_str(),
                                r.record_id.zone_id.owner_name.as_str(),
                            ),
                        ),
                        CKReferenceAction::from_raw(r.action),
                    ),
                    None => CKReference::new(
                        CKRecordID { record_name: String::new(), zone_id: CKRecordZoneID::default_zone() },
                        CKReferenceAction::NoAction,
                    ),
                },
            ),
            RecordValueKind::Array => {
                let mut out: Vec<RecordValue> = Vec::new();
                match &payload.array_value {
                    Some(items) => {
                        let mut i: usize = 0;
                        #[verifier::loop_isolation(false)]
                        while i < items.len()
                            invariant
                                i <= items@.len(),
                                out@.len() == i,
                                forall|j: int|
                                    0 <= j < i ==> #[trigger] out@[j]@ == value_from_payload_view(
                                        record_value_payload_view(items@[j]),
                                    ),
                            decreases items@.len() - i,
                        {
                            proof {
                                assert(decreases_to!(*payload => items@[i as int]));
                            }
                            let item = Self::from_payload_ref(&items[i]);
                            out.push(item);
                            i = i + 1;
                        }
                    },
                    None => {},
                }
                let r = Self::Array(out);
                proof {
                    let a = match r@ {
                        RecordValueView::Array(x) => x,
                        _ => Seq::empty(),
                    };
                    let b = match value_from_payload_view(record_value_payload_view(*payload)) {
                        RecordValueView::Array(x) => x,
                        _ => Seq::empty(),
                    };
                    assert(a.len() == b.len());
                    assert forall|j: int| 0 <= j < a.len() implies a[j] == b[j] by {
                        assert(a[j] == out@[j]@);
                    }
                    assert(a =~= b);
                }
                r
            },
        }
    }
}

// ---------------------------------------------------------------------------
// Record zones
// ---------------------------------------------------------------------------

pub open spec fn reference_option_view(r: Option<CKReference>) -> Option<ReferenceView> {
    match r {
        Some(x) => Some(x@),
        None => None,
    }
}

pub open spec fn reference_payload_option_view(r: Option<CKReferencePayload>) -> Option<ReferencePayloadView> {
    match r {
        Some(x) => Some(reference_payload_view(x)),
        None => None,
    }
}

pub open spec fn reference_option_to_payload_view(r: Option<ReferenceView>) -> Option<ReferencePayloadView> {
    match r {
        Some(x) => Some(crate::reference_utility::reference_to_payload_view(x)),
        None => None,
    }
}

pub open spec fn reference_option_from_payload_view(r: Option<ReferencePayloadView>) -> Option<ReferenceView> {
    match r {
        Some(x) => Some(crate::reference_utility::reference_from_payload_view(x)),
        None => None,
    }
}

/// Copies an optional reference.
pub fn copy_reference_option(r: &Option<CKReference>) -> (c: Option<CKReference>)
    ensures
        reference_option_view(c) == reference_option_view(*r),
{
    match r {
        Some(x) => Some(x.clone()),
        None => None,
    }
}

fn reference_option_to_payload(r: &Option<CKReference>) -> (p: Option<CKReferencePayload>)
    ensures
        reference_payload_option_view(p) == reference_option_to_payload_view(reference_option_view(*r)),
{
    match r {
        Some(x) => Some(x.to_payload()),
        None => None,
    }
}

fn reference_option_from_payload(p: Option<CKReferencePayload>) -> (r: Option<CKReference>)
    ensures
        reference_option_view(r) == reference_option_from_payload_view(reference_payload_option_view(p)),
{
    match p {
        Some(x) => Some(CKReference::from_payload(x)),
        None => None,
    }
}

/// The abstract content of a record zone.
pub struct RecordZoneView {
    pub zone_id: RecordZoneIdView,
    pub capabilities: u64,
    pub share: Option<ReferenceView>,
    pub encryption_scope: Option<CKRecordZoneEncryptionScope>,
}

/// The zone that a bridge payload stands for.
pub open spec fn zone_from_payload_view(payload: CKRecordZonePayload) -> RecordZoneView {
    RecordZoneView {
        zone_id: zone_id_payload_view(payload.zone_id),
        capabilities: payload.capabilities,
        share: reference_option_from_payload_view(reference_payload_option_view(payload.share)),
        encryption_scope: match payload.encryption_scope {
            Some(raw) => Some(encryption_scope_from_raw(raw)),
            None => None,
        },
    }
}

/// What `CKRecordZone::to_payload` gives: every attribute carried over, the
/// share's action and the encryption scope as raw values.
pub open spec fn zone_payload_matches(z: RecordZoneView, p: CKRecordZonePayload) -> bool {
    &&& zone_id_payload_view(p.zone_id) == z.zone_id
    &&& p.capabilities == z.capabilities
    &&& reference_payload_option_view(p.share) == reference_option_to_payload_view(z.share)
    &&& p.encryption_scope == match z.encryption_scope {
        Some(scope) => Some(encryption_scope_to_raw(scope)),
        None => None,
    }
}

/// The zone with its share's action and its encryption scope in the canonical
/// form that reading their raw values gives.
pub open spec fn canonical_zone(z: RecordZoneView) -> RecordZoneView {
    RecordZoneView {
        share: match z.share {
            Some(x) => Some(
                ReferenceView {
                    record_id: x.record_id,
                    action: reference_action_from_raw(reference_action_to_raw(x.action)),
                },
            ),
            None => None,
        },
        encryption_scope: match z.encryption_scope {
            Some(scope) => Some(encryption_scope_from_raw(encryption_scope_to_raw(scope))),
            None => None,
        },
        ..z
    }
}

/// A zone survives the trip through its payload, up to the canonical form of
/// its share action and encryption scope.
pub proof fn lemma_zone_payload_round_trip(z: RecordZoneView, p: CKRecordZonePayload)
    requires
        zone_payload_matches(z, p),
    ensures
        zone_from_payload_view(p) == canonical_zone(z),
{
}

/// Mirrors `CKRecordZone`.
#[derive(Debug, PartialEq, Eq, Hash)]
pub struct CKRecordZone {
    zone_id: CKRecordZoneID,
    capabilities: CKRecordZoneCapabilities,
    share: Option<CKReference>,
    encryption_scope: Option<CKRecordZoneEncryptionScope>,
}

impl View for CKRecordZone {
    type V = RecordZoneView;

    closed spec fn view(&self) -> RecordZoneView {
        RecordZoneView {
            zone_id: self.zone_id@,
            capabilities: self.capabilities@,
            share: reference_option_view(self.share),
            encryption_scope: self.encryption_scope,
        }
    }
}

/// A fresh zone: no capabilities, no share, per-record encryption.
pub open spec fn fresh_zone_view(zone_id: RecordZoneIdView) -> RecordZoneView {
    RecordZoneView {
        zone_id,
        capabilities: 0,
        share: None,
        encryption_scope: Some(CKRecordZoneEncryptionScope::PerRecord),
    }
}

impl Clone for CKRecordZone {
    fn clone(&self) -> (r: Self)
        ensures
            r@ == self@,
    {
        CKRecordZone {
            zone_id: self.zone_id.clone(),
            capabilities: self.capabilities,
            share: copy_reference_option(&self.share),
            encryption_scope: self.encryption_scope,
        }
    }
}

impl CKRecordZone {
    /// A zone with the given name owned by the current user.
    pub fn new(zone_name: &str) -> (r: Self)
        ensures
            r@ == fresh_zone_view(RecordZoneIdView { zone_name: zone_name@, owner_name: DEFAULT_OWNER_NAME@ }),
    {
        Self::with_zone_id(CKRecordZoneID::new(zone_name, DEFAULT_OWNER_NAME))
    }

    /// A zone with the given identifier.
    pub fn with_zone_id(zone_id: CKRecordZoneID) -> (r: Self)
        ensures
            r@ == fresh_zone_view(zone_id@),
    {
        Self {
            zone_id,
            capabilities: CKRecordZoneCapabilities::new(0),
            share: None,
            encryption_scope: Some(CKRecordZoneEncryptionScope::PerRecord),
        }
    }

    /// The current user's default zone.
    pub fn default_zone() -> (r: Self)
        ensures
            r@ == fresh_zone_view(default_zone_id_view()),
    {
        Self::with_zone_id(CKRecordZoneID::default_zone())
    }

    /// Mirrors `CKRecordZone.zoneID`.
    pub fn zone_id(&self) -> (r: &CKRecordZoneID)
        ensures
            r@ == self@.zone_id,
    {
        &self.zone_id
    }

    /// Mirrors `CKRecordZone.capabilities`.
    pub fn capabilities(&self) -> (r: CKRecordZoneCapabilities)
        ensures
            r@ == self@.capabilities,
    {
        self.capabilities
    }

    /// Mirrors `CKRecordZone.share`.
    pub fn share(&self) -> (r: Option<&CKReference>)
        ensures
            r is Some <==> self@.share is Some,
            r is Some ==> r->0@ == self@.share->0,
    {
        self.share.as_ref()
    }

    /// Mirrors `CKRecordZone.encryptionScope`.
    pub fn encryption_scope(&self) -> (r: Option<CKRecordZoneEncryptionScope>)
        ensures
            r == self@.encryption_scope,
    {
        self.encryption_scope
    }

    /// The zone that a bridge payload stands for.
    pub fn from_payload(payload: CKRecordZonePayload) -> (r: Self)
        ensures
            r@ == zone_from_payload_view(payload),
    {
        Self {
            zone_id: CKRecordZoneID::from_payload(payload.zone_id),
            capabilities: CKRecordZoneCapabilities::new(payload.capabilities),
            share: reference_option_from_payload(payload.share),
            encryption_scope: match payload.encryption_scope {
                Some(raw) => Some(CKRecordZoneEncryptionScope::from_raw(raw)),
                None => None,
            },
        }
    }

    /// The bridge payload of the zone.
    pub fn to_payload(&self) -> (r: CKRecordZonePayload)
        ensures
            zone_payload_matches(self@, r),
    {
        CKRecordZonePayload {
            zone_id: self.zone_id.to_payload(),
            capabilities: self.capabilities.bits(),
            share: reference_option_to_payload(&self.share),
            encryption_scope: match self.encryption_scope {
                Some(scope) => Some(scope.to_raw()),
                None => None,
            },
        }
    }
}

// ---------------------------------------------------------------------------
// Records
// ---------------------------------------------------------------------------

pub open spec fn record_id_option_view(r: Option<CKRecordID>) -> Option<RecordIdView> {
    match r {
        Some(x) => Some(x@),
        None => None,
    }
}

pub open spec fn record_id_payload_option_view(r: Option<CKRecordIDPayload>) -> Option<RecordIdView> {
    match r {
        Some(x) => Some(record_id_payload_view(x)),
        None => None,
    }
}

/// Copies an optional record identifier.
pub fn copy_record_id_option(r: &Option<CKRecordID>) -> (c: Option<CKRecordID>)
    ensures
        record_id_option_view(c) == record_id_option_view(*r),
{
    match r {
        Some(x) => Some(x.clone()),
        None => None,
    }
}

pub fn record_id_option_to_payload(r: &Option<CKRecordID>) -> (p: Option<CKRecordIDPayload>)
    ensures
        record_id_payload_option_view(p) == record_id_option_view(*r),
{
    match r {
        Some(x) => Some(x.to_payload()),
        None => None,
    }
}

pub fn record_id_option_from_payload(p: Option<CKRecordIDPayload>) -> (r: Option<CKRecordID>)
    ensures
        record_id_option_view(r) == record_id_payload_option_view(p),
{
    match p {
        Some(x) => Some(CKRecordID::from_payload(x)),
        None => None,
    }
}

/// The abstract content of a record.
pub struct RecordView {
    pub record_type: Seq<char>,
    pub record_id: RecordIdView,
    /// The field values by key.
    pub fields: Map<Seq<char>, RecordValueView>,
    pub encoded_system_fields: Seq<u8>,
    pub record_change_tag: Option<Seq<char>>,
    pub creator_user_record_id: Option<RecordIdView>,
    pub creation_date: Option<Seq<char>>,
    pub last_modified_user_record_id: Option<RecordIdView>,
    pub modification_date: Option<Seq<char>>,
    pub parent: Option<ReferenceView>,
    pub share: Option<ReferenceView>,
    /// The keys set or removed since the record was built, in the order first touched.
    pub changed_keys: Seq<Seq<char>>,
    pub all_tokens: Seq<Seq<char>>,
}

/// The field entries of a record as key/value views.
pub open spec fn field_entries_view(e: Seq<(String, RecordValue)>) -> Seq<(Seq<char>, RecordValueView)> {
    Seq::new(e.len(), |i: int| (e[i].0@, e[i].1@))
}

/// Copies a list of field entries.
pub fn copy_field_entries(entries: &Vec<(String, RecordValue)>) -> (r: Vec<(String, RecordValue)>)
    ensures
        field_entries_view(r@) == field_entries_view(entries@),
{
    let mut fields: Vec<(String, RecordValue)> = Vec::new();
    let mut i: usize = 0;
    while i < entries.len()
        invariant
            i <= entries@.len(),
            fields@.len() == i,
            forall|j: int|
                0 <= j < i ==> (#[trigger] fields@[j]).0@ == entries@[j].0@ && fields@[j].1@
                    == entries@[j].1@,
        decreases entries@.len() - i,
    {
        let entry = (entries[i].0.clone(), entries[i].1.clone());
        fields.push(entry);
        i = i + 1;
    }
    assert(field_entries_view(fields@) =~= field_entries_view(entries@));
    fields
}

/// The slot of `key` among field entries kept in increasing key order: where
/// it is, or where it would go.
pub(crate) fn find_field_entry(fields: &Vec<(String, RecordValue)>, key: &str) -> (r: (usize, bool))
    requires
        pairs_sorted(field_entries_view(fields@)),
    ensures
        slot_ok(field_entries_view(fields@), key@, r.0 as int, r.1),
{
    let ghost e = field_entries_view(fields@);
    let mut i: usize = 0;
    while i < fields.len() && text_lt(fields[i].0.as_str(), key)
        invariant
            i <= fields@.len(),
            e == field_entries_view(fields@),
            forall|j: int| 0 <= j < i ==> text_less_at(e, j, key@),
        decreases fields@.len() - i,
    {
        i = i + 1;
    }
    proof {
        assert forall|j: int| 0 <= j < i implies crate::text::text_less(#[trigger] e[j].0, key@) by {
            assert(text_less_at(e, j, key@));
        }
        lemma_slot(e, key@, i as int);
    }
    let found = i < fields.len() && text_eq(fields[i].0.as_str(), key);
    (i, found)
}

/// Stores `value` under `key` in field entries kept in increasing key order,
/// replacing the entry with that key or inserting one in its place.
pub(crate) fn insert_field_entry(fields: &mut Vec<(String, RecordValue)>, key: &str, value: RecordValue)
    requires
        pairs_sorted(field_entries_view(old(fields)@)),
    ensures
        pairs_sorted(field_entries_view(final(fields)@)),
        pairs_map(field_entries_view(final(fields)@)) == pairs_map(field_entries_view(old(fields)@)).insert(key@, value@),
{
    let (p, found) = find_field_entry(fields, key);
    let ghost e = field_entries_view(fields@);
    let ghost vv = value@;
    let entry = (owned(key), value);
    if found {
        fields.set(p, entry);
        proof {
            assert(field_entries_view(fields@) =~= e.update(p as int, (e[p as int].0, vv)));
            lemma_pairs_update(e, p as int, vv);
        }
    } else {
        fields.insert(p, entry);
        proof {
            assert(field_entries_view(fields@) =~= e.insert(p as int, (key@, vv)));
            lemma_pairs_insert(e, p as int, key@, vv);
        }
    }
}

/// Takes out the entry at `p`; the others keep their order.
fn remove_field_entry(fields: &mut Vec<(String, RecordValue)>, p: usize) -> (r: RecordValue)
    requires
        pairs_sorted(field_entries_view(old(fields)@)),
        p < old(fields)@.len(),
    ensures
        pairs_sorted(field_entries_view(final(fields)@)),
        field_entries_view(final(fields)@) == field_entries_view(old(fields)@).remove(p as int),
        r@ == old(fields)@[p as int].1@,
{
    let ghost e = field_entries_view(fields@);
    let (_k, v) = fields.remove(p);
    proof {
        assert(field_entries_view(fields@) =~= e.remove(p as int));
        lemma_pairs_remove(e, p as int);
    }
    v
}

/// Mirrors `CKRecord`.
#[derive(Debug, PartialEq)]
pub struct CKRecord {
    record_type: String,
    record_id: CKRecordID,
    /// Field entries in increasing key order, one per key.
    fields: Vec<(String, RecordValue)>,
    encoded_system_fields: Vec<u8>,
    record_change_tag: Option<String>,
    creator_user_record_id: Option<CKRecordID>,
    creation_date: Option<String>,
    last_modified_user_record_id: Option<CKRecordID>,
    modification_date: Option<String>,
    parent: Option<CKReference>,
    share: Option<CKReference>,
    changed_keys: Vec<String>,
    all_tokens: Vec<String>,
}

impl View for CKRecord {
    type V = RecordView;

    closed spec fn view(&self) -> RecordView {
        RecordView {
            record_type: self.record_type@,
            record_id: self.record_id@,
            fields: pairs_map(field_entries_view(self.fields@)),
            encoded_system_fields: self.encoded_system_fields@,
            record_change_tag: text_option_view(self.record_change_tag),
            creator_user_record_id: record_id_option_view(self.creator_user_record_id),
            creation_date: text_option_view(self.creation_date),
            last_modified_user_record_id: record_id_option_view(self.last_modified_user_record_id),
            modification_date: text_option_view(self.modification_date),
            parent: reference_option_view(self.parent),
            share: reference_option_view(self.share),
            changed_keys: texts_view(self.changed_keys@),
            all_tokens: texts_view(self.all_tokens@),
        }
    }
}

/// A record as freshly built: the given type and identifier, nothing else.
pub open spec fn fresh_record_view(record_type: Seq<char>, record_id: RecordIdView) -> RecordView {
    RecordView {
        record_type,
        record_id,
        fields: Map::empty(),
        encoded_system_fields: Seq::empty(),
        record_change_tag: None,
        creator_user_record_id: None,
        creation_date: None,
        last_modified_user_record_id: None,
        modification_date: None,
        parent: None,
        share: None,
        changed_keys: Seq::empty(),
        all_tokens: Seq::empty(),
    }
}

impl CKRecord {
    /// The record keeps one entry per key, in increasing key order.
    #[verifier::type_invariant]
    spec fn well_formed(self) -> bool {
        pairs_sorted(field_entries_view(self.fields@))
    }

    /// A record of the given type with the given identifier.
    pub fn with_record_id(record_type: &str, record_id: CKRecordID) -> (r: Self)
        ensures
            r@ == fresh_record_view(record_type@, record_id@),
    {
        let r = Self {
            record_type: owned(record_type),
            record_id,
            fields: Vec::new(),
            encoded_system_fields: Vec::new(),
            record_change_tag: None,
            creator_user_record_id: None,
            creation_date: None,
            last_modified_user_record_id: None,
            modification_date: None,
            parent: None,
            share: None,
            changed_keys: Vec::new(),
            all_tokens: Vec::new(),
        };
        assert(pairs_map(field_entries_view(r.fields@)) =~= Map::<Seq<char>, RecordValueView>::empty());
        assert(texts_view(r.changed_keys@) =~= Seq::<Seq<char>>::empty());
        assert(texts_view(r.all_tokens@) =~= Seq::<Seq<char>>::empty());
        r
    }

    /// A record of the given type in the given zone, with an empty record name.
    pub fn with_zone(record_type: &str, zone_id: CKRecordZoneID) -> (r: Self)
        ensures
            r@ == fresh_record_view(
                record_type@,
                RecordIdView { record_name: Seq::empty(), zone_id: zone_id@ },
            ),
    {
        Self::with_record_id(record_type, CKRecordID { record_name: String::new(), zone_id })
    }

    /// Mirrors `CKRecord.recordType`.
    pub fn record_type(&self) -> (r: &str)
        ensures
            r@ == self@.record_type,
    {
        self.record_type.as_str()
    }

    /// Mirrors `CKRecord.recordID`.
    pub fn record_id(&self) -> (r: &CKRecordID)
        ensures
            r@ == self@.record_id,
    {
        &self.record_id
    }

    /// Mirrors `CKRecord.recordChangeTag`.
    pub fn record_change_tag(&self) -> (r: Option<&str>)
        ensures
            r is Some <==> self@.record_change_tag is Some,
            r is Some ==> r->0@ == self@.record_change_tag->0,
    {
        match &self.record_change_tag {
            Some(t) => Some(t.as_str()),
            None => None,
        }
    }

    /// Mirrors `CKRecord.creatorUserRecordID`.
    pub fn creator_user_record_id(&self) -> (r: Option<&CKRecordID>)
        ensures
            r is Some <==> self@.creator_user_record_id is Some,
            r is Some ==> r->0@ == self@.creator_user_record_id->0,
    {
        self.creator_user_record_id.as_ref()
    }

    /// Mirrors `CKRecord.creationDate`.
    pub fn creation_date(&self) -> (r: Option<&str>)
        ensures
            r is Some <==> self@.creation_date is Some,
            r is Some ==> r->0@ == self@.creation_date->0,
    {
        match &self.creation_date {
            Some(t) => Some(t.as_str()),
            None => None,
        }
    }

    /// Mirrors `CKRecord.lastModifiedUserRecordID`.
    pub fn last_modified_user_record_id(&self) -> (r: Option<&CKRecordID>)
        ensures
            r is Some <==> self@.last_modified_user_record_id is Some,
            r is Some ==> r->0@ == self@.last_modified_user_record_id->0,
    {
        self.last_modified_user_record_id.as_ref()
    }

    /// Mirrors `CKRecord.modificationDate`.
    pub fn modification_date(&self) -> (r: Option<&str>)
        ensures
            r is Some <==> self@.modification_date is Some,
            r is Some ==> r->0@ == self@.modification_date->0,
    {
        match &self.modification_date {
            Some(t) => Some(t.as_str()),
            None => None,
        }
    }

    /// Mirrors `CKRecord.parent`.
    pub fn parent(&self) -> (r: Option<&CKReference>)
        ensures
            r is Some <==> self@.parent is Some,
            r is Some ==> r->0@ == self@.parent->0,
    {
        self.parent.as_ref()
    }

    /// Mirrors `CKRecord.share`.
    pub fn share(&self) -> (r: Option<&CKReference>)
        ensures
            r is Some <==> self@.share is Some,
            r is Some ==> r->0@ == self@.share->0,
    {
        self.share.as_ref()
    }

    /// Mirrors `CKRecord.changedKeys()`.
    pub fn changed_keys(&self) -> (r: &[String])
        ensures
            texts_view(r@) == self@.changed_keys,
    {
        self.changed_keys.as_slice()
    }

    /// Mirrors `CKRecord.allTokens()`.
    pub fn all_tokens(&self) -> (r: &[String])
        ensures
            texts_view(r@) == self@.all_tokens,
    {
        self.all_tokens.as_slice()
    }

    /// Mirrors `CKRecord.encodedSystemFields`.
    pub fn encoded_system_fields(&self) -> (r: &[u8])
        ensures
            r@ == self@.encoded_system_fields,
    {
        self.encoded_system_fields.as_slice()
    }

    /// The slot of `key` among the field entries.
    fn find_field(&self, key: &str) -> (r: (usize, bool))
        ensures
            pairs_sorted(field_entries_view(self.fields@)),
            slot_ok(field_entries_view(self.fields@), key@, r.0 as int, r.1),
    {
        proof { use_type_invariant(self); }
        find_field_entry(&self.fields, key)
    }

    /// Mirrors `CKRecord.object(forKey:)`.
    pub fn object(&self, key: &str) -> (r: Option<&RecordValue>)
        ensures
            r is Some <==> self@.fields.contains_key(key@),
            r is Some ==> r->0@ == self@.fields[key@],
    {
        let (p, found) = self.find_field(key);
        proof {
            let e = field_entries_view(self.fields@);
            if found {
                lemma_pairs_map_at(e, p as int);
            } else {
                lemma_slot_absent(e, key@, p as int);
            }
        }
        if found {
            Some(&self.fields[p].1)
        } else {
            None
        }
    }

    fn mark_changed_key(&mut self, key: &str)
        ensures
            final(self)@ == (RecordView {
                changed_keys: push_unique_text(old(self)@.changed_keys, key@),
                ..old(self)@
            }),
            final(self).fields@ == old(self).fields@,
    {
        proof { use_type_invariant(&*self); }
        let mut keys: Vec<String> = Vec::new();
        std::mem::swap(&mut keys, &mut self.changed_keys);
        push_text_unique(&mut keys, key);
        self.changed_keys = keys;
    }

    /// Mirrors `CKRecord.setObject(_:forKey:)`: stores the value under the key
    /// and records the key as changed.
    pub fn set_object(&mut self, key: &str, value: RecordValue)
        ensures
            final(self)@ == (RecordView {
                fields: old(self)@.fields.insert(key@, value@),
                changed_keys: push_unique_text(old(self)@.changed_keys, key@),
                ..old(self)@
            }),
    {
        self.insert_field(key, value);
        self.mark_changed_key(key);
    }

    fn insert_field(&mut self, key: &str, value: RecordValue)
        ensures
            final(self)@ == (RecordView { fields: old(self)@.fields.insert(key@, value@), ..old(self)@ }),
    {
        proof { use_type_invariant(&*self); }
        let mut fields: Vec<(String, RecordValue)> = Vec::new();
        std::mem::swap(&mut fields, &mut self.fields);
        insert_field_entry(&mut fields, key, value);
        self.fields = fields;
    }

    /// Mirrors `CKRecord.setObject(nil, forKey:)`: removes the value under the
    /// key and, when there was one, records the key as changed.
    pub fn remove_object(&mut self, key: &str) -> (r: Option<RecordValue>)
        ensures
            r is Some <==> old(self)@.fields.contains_key(key@),
            r is Some ==> r->0@ == old(self)@.fields[key@],
            final(self)@ == (RecordView {
                fields: old(self)@.fields.remove(key@),
                changed_keys: if r is Some {
                    push_unique_text(old(self)@.changed_keys, key@)
                } else {
                    old(self)@.changed_keys
                },
                ..old(self)@
            }),
    {
        let (p, found) = self.find_field(key);
        let ghost e = field_entries_view(self.fields@);
        if found {
            proof {
                lemma_pairs_map_at(e, p as int);
                lemma_pairs_remove(e, p as int);
            }
            let mut fields: Vec<(String, RecordValue)> = Vec::new();
            std::mem::swap(&mut fields, &mut self.fields);
            let v = remove_field_entry(&mut fields, p);
            self.fields = fields;
            self.mark_changed_key(key);
            Some(v)
        } else {
            proof {
                lemma_slot_absent(e, key@, p as int);
                assert(pairs_map(e).remove(key@) =~= pairs_map(e));
            }
            None
        }
    }

    /// The keys that hold a value, in increasing key order.
    pub fn all_keys(&self) -> (r: Vec<String>)
        ensures
            texts_sorted(texts_view(r@)),
            texts_view(r@).to_set() == self@.fields.dom(),
    {
        proof { use_type_invariant(self); }
        let ghost e = field_entries_view(self.fields@);
        let mut out: Vec<String> = Vec::new();
        let mut i: usize = 0;
        while i < self.fields.len()
            invariant
                i <= self.fields@.len(),
                e == field_entries_view(self.fields@),
                out@.len() == i,
                forall|j: int| 0 <= j < i ==> #[trigger] out@[j]@ == e[j].0,
            decreases self.fields@.len() - i,
        {
            out.push(self.fields[i].0.clone());
            i = i + 1;
        }
        proof {
            let t = texts_view(out@);
            assert forall|a: int, b: int| 0 <= a < b < t.len() implies crate::text::text_less(
                #[trigger] t[a],
                #[trigger] t[b],
            ) by {
                assert(t[a] == e[a].0 && t[b] == e[b].0);
            }
            assert forall|k: Seq<char>| t.to_set().contains(k) <==> pairs_map(e).dom().contains(k) by {
                if t.to_set().contains(k) {
                    let j = choose|j: int| 0 <= j < t.len() && t[j] == k;
                    assert(e[j].0 == k);
                }
                if pairs_map(e).dom().contains(k) {
                    let j = choose|j: int| 0 <= j < e.len() && e[j].0 == k;
                    assert(t[j] == k);
                }
            }
            assert(t.to_set() =~= pairs_map(e).dom());
        }
        out
    }

    /// Mirrors `CKRecord.parent = reference`.
    pub fn set_parent_reference(&mut self, reference: CKReference)
        ensures
            final(self)@ == (RecordView { parent: Some(reference@), ..old(self)@ }),
    {
        proof { use_type_invariant(&*self); }
        self.parent = Some(reference);
    }

    /// Makes `parent_record` the parent, through a reference with no action.
    pub fn set_parent_reference_from_record(&mut self, parent_record: &CKRecord)
        ensures
            final(self)@ == (RecordView {
                parent: Some(ReferenceView { record_id: parent_record@.record_id, action: CKReferenceAction::NoAction }),
                ..old(self)@
            }),
    {
        self.set_parent_reference(CKReference::new(parent_record.record_id().clone(), CKReferenceAction::NoAction));
    }

    /// Makes the record with this identifier the parent, through a reference with no action.
    pub fn set_parent_reference_from_record_id(&mut self, parent_record_id: CKRecordID)
        ensures
            final(self)@ == (RecordView {
                parent: Some(ReferenceView { record_id: parent_record_id@, action: CKReferenceAction::NoAction }),
                ..old(self)@
            }),
    {
        self.set_parent_reference(CKReference::new(parent_record_id, CKReferenceAction::NoAction));
    }

    /// Removes the parent reference.
    pub fn clear_parent_reference(&mut self)
        ensures
            final(self)@ == (RecordView { parent: None, ..old(self)@ }),
    {
        proof { use_type_invariant(&*self); }
        self.parent = None;
    }
}

/// Mirrors the key-value access that `CKRecord` offers under its
/// Objective-C names.
pub trait CKRecordKeyValueSetting {
    /// Mirrors `object(forKey:)`.
    fn object_for_key(&self, key: &str) -> Option<&RecordValue>;

    /// Mirrors `setObject(_:forKey:)`.
    fn set_object_for_key(&mut self, key: &str, value: RecordValue);

    /// Mirrors `objectForKeyedSubscript(_:)`.
    fn object_for_keyed_subscript(&self, key: &str) -> Option<&RecordValue>;

    /// Mirrors `setObject(_:forKeyedSubscript:)`.
    fn set_object_for_keyed_subscript(&mut self, key: &str, value: RecordValue);

    /// Mirrors `allKeys()`.
    fn all_keys(&self) -> Vec<String>;

    /// Mirrors `changedKeys()`.
    fn changed_keys(&self) -> &[String];
}

impl CKRecordKeyValueSetting for CKRecord {
    fn object_for_key(&self, key: &str) -> (r: Option<&RecordValue>)
        ensures
            r is Some <==> self@.fields.contains_key(key@),
            r is Some ==> r->0@ == self@.fields[key@],
    {
        CKRecord::object(self, key)
    }

    fn set_object_for_key(&mut self, key: &str, value: RecordValue)
        ensures
            final(self)@ == (RecordView {
                fields: old(self)@.fields.insert(key@, value@),
                changed_keys: push_unique_text(old(self)@.changed_keys, key@),
                ..old(self)@
            }),
    {
        CKRecord::set_object(self, key, value)
    }

    fn object_for_keyed_subscript(&self, key: &str) -> (r: Option<&RecordValue>)
        ensures
            r is Some <==> self@.fields.contains_key(key@),
            r is Some ==> r->0@ == self@.fields[key@],
    {
        CKRecord::object(self, key)
    }

    fn set_object_for_keyed_subscript(&mut self, key: &str, value: RecordValue)
        ensures
            final(self)@ == (RecordView {
                fields: old(self)@.fields.insert(key@, value@),
                changed_keys: push_unique_text(old(self)@.changed_keys, key@),
                ..old(self)@
            }),
    {
        CKRecord::set_object(self, key, value)
    }

    fn all_keys(&self) -> (r: Vec<String>)
        ensures
            texts_sorted(texts_view(r@)),
            texts_view(r@).to_set() == self@.fields.dom(),
    {
        CKRecord::all_keys(self)
    }

    fn changed_keys(&self) -> (r: &[String])
        ensures
            texts_view(r@) == self@.changed_keys,
    {
        CKRecord::changed_keys(self)
    }
}

/// Whether the entry at `j` has a key less than `k` (the scan's loop fact).
pub open spec fn text_less_at(e: Seq<(Seq<char>, RecordValueView)>, j: int, k: Seq<char>) -> bool {
    crate::text::text_less(e[j].0, k)
}

/// The key/payload-view entries of a record payload.
pub open spec fn payload_entries_view(e: Seq<(String, CKRecordValuePayload)>) -> Seq<(Seq<char>, RecordValuePayloadView)> {
    Seq::new(e.len(), |i: int| (e[i].0@, record_value_payload_view(e[i].1)))
}

/// The key/value entries that a record payload's fields stand for, in payload order.
pub open spec fn payload_entries_values(e: Seq<(String, CKRecordValuePayload)>) -> Seq<(Seq<char>, RecordValueView)> {
    Seq::new(e.len(), |i: int| (e[i].0@, value_from_payload_view(record_value_payload_view(e[i].1))))
}

/// What `CKRecord::to_payload` gives: every attribute carried over, and the
/// fields in increasing key order, each value as its payload.
pub open spec fn record_payload_matches(rec: RecordView, p: CKRecordPayload) -> bool {
    &&& p.record_type@ == rec.record_type
    &&& record_id_payload_view(p.record_id) == rec.record_id
    &&& pairs_sorted(payload_entries_view(p.fields@))
    &&& pairs_map(payload_entries_view(p.fields@)) == rec.fields.map_values(
        |v: RecordValueView| value_to_payload_view(v),
    )
    &&& p.encoded_system_fields@ == rec.encoded_system_fields
    &&& text_option_view(p.record_change_tag) == rec.record_change_tag
    &&& record_id_payload_option_view(p.creator_user_record_id) == rec.creator_user_record_id
    &&& text_option_view(p.creation_date) == rec.creation_date
    &&& record_id_payload_option_view(p.last_modified_user_record_id) == rec.last_modified_user_record_id
    &&& text_option_view(p.modification_date) == rec.modification_date
    &&& reference_payload_option_view(p.parent) == reference_option_to_payload_view(rec.parent)
    &&& reference_payload_option_view(p.share) == reference_option_to_payload_view(rec.share)
    &&& texts_view(p.changed_keys@) == rec.changed_keys
    &&& texts_view(p.all_tokens@) == rec.all_tokens
}

/// The record that a payload stands for; entries with the same key are applied
/// in order, the last one winning.
pub open spec fn record_from_payload_view(p: CKRecordPayload) -> RecordView {
    RecordView {
        record_type: p.record_type@,
        record_id: record_id_payload_view(p.record_id),
        fields: pairs_fold(payload_entries_values(p.fields@)),
        encoded_system_fields: p.encoded_system_fields@,
        record_change_tag: text_option_view(p.record_change_tag),
        creator_user_record_id: record_id_payload_option_view(p.creator_user_record_id),
        creation_date: text_option_view(p.creation_date),
        last_modified_user_record_id: record_id_payload_option_view(p.last_modified_user_record_id),
        modification_date: text_option_view(p.modification_date),
        parent: reference_option_from_payload_view(reference_payload_option_view(p.parent)),
        share: reference_option_from_payload_view(reference_payload_option_view(p.share)),
        changed_keys: texts_view(p.changed_keys@),
        all_tokens: texts_view(p.all_tokens@),
    }
}

pub open spec fn canonical_reference_option(r: Option<ReferenceView>) -> Option<ReferenceView> {
    match r {
        Some(x) => Some(
            ReferenceView {
                record_id: x.record_id,
                action: reference_action_from_raw(reference_action_to_raw(x.action)),
            },
        ),
        None => None,
    }
}

/// The record with every reference action in canonical form.
pub open spec fn canonical_record(rec: RecordView) -> RecordView {
    RecordView {
        fields: rec.fields.map_values(|v: RecordValueView| canonical_value(v)),
        parent: canonical_reference_option(rec.parent),
        share: canonical_reference_option(rec.share),
        ..rec
    }
}

/// A record survives the trip through its payload, up to the canonical form
/// of its reference actions.
pub proof fn lemma_record_payload_round_trip(rec: RecordView, p: CKRecordPayload)
    requires
        rec.fields.dom().finite(),
        record_payload_matches(rec, p),
    ensures
        record_from_payload_view(p) == canonical_record(rec),
{
    let pe = payload_entries_view(p.fields@);
    let ve = payload_entries_values(p.fields@);
    assert forall|a: int, b: int| 0 <= a < b < ve.len() implies crate::text::text_less(
        #[trigger] ve[a].0,
        #[trigger] ve[b].0,
    ) by {
        assert(ve[a].0 == pe[a].0 && ve[b].0 == pe[b].0);
    }
    lemma_pairs_fold_sorted(ve);
    let target = rec.fields.map_values(|v: RecordValueView| canonical_value(v));
    let pm = pairs_map(pe);
    assert forall|k: Seq<char>| pairs_map(ve).contains_key(k) <==> target.contains_key(k) by {
        if pairs_map(ve).contains_key(k) {
            let i = choose|i: int| 0 <= i < ve.len() && ve[i].0 == k;
            assert(pe[i].0 == k);
            assert(pm.contains_key(k));
        }
        if target.contains_key(k) {
            assert(pm.contains_key(k));
            let i = choose|i: int| 0 <= i < pe.len() && pe[i].0 == k;
            assert(ve[i].0 == k);
        }
    }
    assert forall|k: Seq<char>| pairs_map(ve).contains_key(k) implies pairs_map(ve)[k] == target[k] by {
        let i = choose|i: int| 0 <= i < ve.len() && ve[i].0 == k;
        assert(pe[i].0 == k);
        lemma_pairs_map_at(ve, i);
        lemma_pairs_map_at(pe, i);
        assert(pm[k] == value_to_payload_view(rec.fields[k]));
        lemma_record_value_payload_round_trip(rec.fields[k]);
    }
    assert(pairs_map(ve) =~= target);
    let back = record_from_payload_view(p);
    let canon = canonical_record(rec);
    assert(back.parent == canon.parent);
    assert(back.share == canon.share);
    assert(back.fields == canon.fields);
}

impl Clone for CKRecord {
    fn clone(&self) -> (r: Self)
        ensures
            r@ == self@,
    {
        proof { use_type_invariant(self); }
        let fields = copy_field_entries(&self.fields);
        let changed_keys = copy_texts(&self.changed_keys);
        let all_tokens = copy_texts(&self.all_tokens);
        CKRecord {
            record_type: self.record_type.clone(),
            record_id: self.record_id.clone(),
            fields,
            encoded_system_fields: copy_bytes(&self.encoded_system_fields),
            record_change_tag: copy_text_option(&self.record_change_tag),
            creator_user_record_id: copy_record_id_option(&self.creator_user_record_id),
            creation_date: copy_text_option(&self.creation_date),
            last_modified_user_record_id: copy_record_id_option(&self.last_modified_user_record_id),
            modification_date: copy_text_option(&self.modification_date),
            parent: copy_reference_option(&self.parent),
            share: copy_reference_option(&self.share),
            changed_keys,
            all_tokens,
        }
    }
}

impl CKRecord {
    /// The bridge payload of the record.
    pub fn to_payload(&self) -> (r: CKRecordPayload)
        ensures
            record_payload_matches(self@, r),
            self@.fields.dom().finite(),
    {
        proof {
            use_type_invariant(self);
            lemma_record_fields_finite(self);
        }
        let ghost e = field_entries_view(self.fields@);
        let mut fields: Vec<(String, CKRecordValuePayload)> = Vec::new();
        let mut i: usize = 0;
        while i < self.fields.len()
            invariant
                i <= self.fields@.len(),
                e == field_entries_view(self.fields@),
                fields@.len() == i,
                forall|j: int|
                    0 <= j < i ==> (#[trigger] fields@[j]).0@ == e[j].0 && record_value_payload_view(
                        fields@[j].1,
                    ) == value_to_payload_view(e[j].1),
            decreases self.fields@.len() - i,
        {
            let entry = (self.fields[i].0.clone(), self.fields[i].1.to_payload());
            fields.push(entry);
            i = i + 1;
        }
        proof {
            let pe = payload_entries_view(fields@);
            assert forall|a: int, b: int| 0 <= a < b < pe.len() implies crate::text::text_less(
                #[trigger] pe[a].0,
                #[trigger] pe[b].0,
            ) by {
                assert(pe[a].0 == e[a].0 && pe[b].0 == e[b].0);
            }
            let target = pairs_map(e).map_values(|v: RecordValueView| value_to_payload_view(v));
            assert forall|k: Seq<char>| pairs_map(pe).contains_key(k) <==> target.contains_key(k) by {
                if pairs_map(pe).contains_key(k) {
                    let j = choose|j: int| 0 <= j < pe.len() && pe[j].0 == k;
                    assert(e[j].0 == k);
                }
                if target.contains_key(k) {
                    let j = choose|j: int| 0 <= j < e.len() && e[j].0 == k;
                    assert(pe[j].0 == k);
                }
            }
            assert forall|k: Seq<char>| pairs_map(pe).contains_key(k) implies pairs_map(pe)[k] == target[k] by {
                let j = choose|j: int| 0 <= j < pe.len() && pe[j].0 == k;
                assert(e[j].0 == k);
                lemma_pairs_map_at(pe, j);
                lemma_pairs_map_at(e, j);
            }
            assert(pairs_map(pe) =~= target);
        }
        CKRecordPayload {
            record_type: self.record_type.clone(),
            record_id: self.record_id.to_payload(),
            fields,
            encoded_system_fields: copy_bytes(&self.encoded_system_fields),
            record_change_tag: copy_text_option(&self.record_change_tag),
            creator_user_record_id: record_id_option_to_payload(&self.creator_user_record_id),
            creation_date: copy_text_option(&self.creation_date),
            last_modified_user_record_id: record_id_option_to_payload(&self.last_modified_user_record_id),
            modification_date: copy_text_option(&self.modification_date),
            parent: reference_option_to_payload(&self.parent),
            share: reference_option_to_payload(&self.share),
            changed_keys: copy_texts(&self.changed_keys),
            all_tokens: copy_texts(&self.all_tokens),
        }
    }

    /// The record that a bridge payload stands for.
    pub fn from_payload(payload: CKRecordPayload) -> (r: Self)
        ensures
            r@ == record_from_payload_view(payload),
    {
        let ghost input = payload;
        let CKRecordPayload {
            record_type,
            record_id,
            fields,
            encoded_system_fields,
            record_change_tag,
            creator_user_record_id,
            creation_date,
            last_modified_user_record_id,
            modification_date,
            parent,
            share,
            changed_keys,
            all_tokens,
        } = payload;
        let mut record = CKRecord {
            record_type,
            record_id: CKRecordID::from_payload(record_id),
            fields: Vec::new(),
            encoded_system_fields,
            record_change_tag,
            creator_user_record_id: record_id_option_from_payload(creator_user_record_id),
            creation_date,
            last_modified_user_record_id: record_id_option_from_payload(last_modified_user_record_id),
            modification_date,
            parent: reference_option_from_payload(parent),
            share: reference_option_from_payload(share),
            changed_keys,
            all_tokens,
        };
        let ghost ve = payload_entries_values(fields@);
        assert(pairs_map(field_entries_view(record.fields@)) =~= pairs_fold(ve.take(0)));
        let mut i: usize = 0;
        while i < fields.len()
            invariant
                i <= fields@.len(),
                ve == payload_entries_values(fields@),
                record@ == (RecordView { fields: pairs_fold(ve.take(i as int)), ..record_from_payload_view(input) }),
            decreases fields@.len() - i,
        {
            let value = RecordValue::from_payload_ref(&fields[i].1);
            record.insert_field(fields[i].0.as_str(), value);
            proof {
                assert(ve.take(i + 1).drop_last() =~= ve.take(i as int));
                assert(ve.take(i + 1).last() == ve[i as int]);
            }
            i = i + 1;
        }
        assert(ve.take(fields@.len() as int) =~= ve);
        record
    }
}

/// A record holds finitely many fields.
pub proof fn lemma_record_fields_finite(rec: &CKRecord)
    ensures
        rec@.fields.dom().finite(),
{
    lemma_pairs_map_finite(field_entries_view(rec.fields@));
}

/// A value stored under a key is what the key then reads back; the other keys
/// keep their values; removing the key afterwards leaves the fields as removing
/// it alone would; and the key is counted as changed once, however often it is set.
pub proof fn lemma_record_fields_write_then_read(
    fields: Map<Seq<char>, RecordValueView>,
    changed_keys: Seq<Seq<char>>,
    key: Seq<char>,
    value: RecordValueView,
    other: Seq<char>,
)
    ensures
        fields.insert(key, value).contains_key(key),
        fields.insert(key, value)[key] == value,
        other != key ==> (fields.insert(key, value).contains_key(other) == fields.contains_key(other)),
        other != key && fields.contains_key(other) ==> fields.insert(key, value)[other] == fields[other],
        fields.insert(key, value).remove(key) == fields.remove(key),
        !fields.remove(key).contains_key(key),
        push_unique_text(push_unique_text(changed_keys, key), key) == push_unique_text(changed_keys, key),
        push_unique_text(changed_keys, key).contains(key),
{
    assert(fields.insert(key, value).remove(key) =~= fields.remove(key));
    if !changed_keys.contains(key) {
        assert(changed_keys.push(key)[changed_keys.len() as int] == key);
    }
}

/// The list of changed keys never names a key twice: marking a key keeps a
/// list without repeats free of repeats.
pub proof fn lemma_changed_keys_stay_distinct(changed_keys: Seq<Seq<char>>, key: Seq<char>)
    requires
        changed_keys.no_duplicates(),
    ensures
        push_unique_text(changed_keys, key).no_duplicates(),
{
    crate::sync_engine::lemma_push_unique_no_duplicates(changed_keys, key);
}

} // verus!
