//! The sync engine's values: fetch and send scopes and options, pending
//! changes, the engine's local state, change batches and the events it reports.
use vstd::prelude::*;

use crate::copying::{copy_all, copy_option, CopyView};

use crate::error::{CloudKitError, ErrorView};
use crate::operation_support::{group_option_view, copy_group_option, CKOperationGroup, OperationGroupView};
use crate::record::{
    CKRecord, CKRecordID, CKRecordZone, CKRecordZoneID, RecordIdView, RecordView, RecordZoneIdView,
    RecordZoneView,
};
use crate::text::owned;
use crate::user_identity::{CKUserIdentity, UserIdentityView};

verus! {

// ---------------------------------------------------------------------------
// Lists without repeats
// ---------------------------------------------------------------------------

/// Values that can be compared and copied by their views.
pub trait ViewEq: View + Sized {
    /// Whether the two values have the same view.
    fn view_eq(&self, other: &Self) -> (r: bool)
        ensures
            r == (self@ == other@);

    /// A value with the same view.
    fn view_copy(&self) -> (r: Self)
        ensures
            r@ == self@;
}

impl ViewEq for CKRecordZoneID {
    fn view_eq(&self, other: &Self) -> (r: bool) {
        self.same_as(other)
    }

    fn view_copy(&self) -> (r: Self) {
        self.clone()
    }
}

impl ViewEq for CKRecordID {
    fn view_eq(&self, other: &Self) -> (r: bool) {
        self.same_as(other)
    }

    fn view_copy(&self) -> (r: Self) {
        self.clone()
    }
}

/// The views of the values of a list.
pub open spec fn views_of<T: View>(s: Seq<T>) -> Seq<T::V> {
    Seq::new(s.len(), |i: int| s[i]@)
}

/// The list with `x` appended unless it already holds it.
pub open spec fn push_unique<A>(s: Seq<A>, x: A) -> Seq<A> {
    if s.contains(x) {
        s
    } else {
        s.push(x)
    }
}

/// Whether a value differs from `x`.
pub open spec fn differs_from<A>(x: A) -> spec_fn(A) -> bool {
    |y: A| y != x
}

/// The list without the entries equal to `x`, the others kept in order.
pub open spec fn without<A>(s: Seq<A>, x: A) -> Seq<A> {
    s.filter(differs_from(x))
}

/// Whether `v` holds a value with the view of `x`.
pub fn vec_contains<T: ViewEq>(v: &Vec<T>, x: &T) -> (r: bool)
    ensures
        r == views_of(v@).contains(x@),
{
    let mut i: usize = 0;
    while i < v.len()
        invariant
            i <= v@.len(),
            forall|j: int| 0 <= j < i ==> (#[trigger] v@[j])@ != x@,
        decreases v@.len() - i,
    {
        if v[i].view_eq(x) {
            assert(views_of(v@)[i as int] == x@);
            return true;
        }
        i = i + 1;
    }
    proof {
        if views_of(v@).contains(x@) {
            let j = choose|j: int| 0 <= j < views_of(v@).len() && views_of(v@)[j] == x@;
            assert(v@[j]@ == x@);
        }
    }
    false
}

/// Appends `x` to `v` unless `v` already holds a value with its view.
pub fn vec_push_unique<T: ViewEq>(v: &mut Vec<T>, x: T)
    ensures
        views_of(final(v)@) == push_unique(views_of(old(v)@), x@),
{
    if !vec_contains(v, &x) {
        let ghost before = v@;
        v.push(x);
        assert(views_of(v@) =~= views_of(before).push(x@));
    }
}

/// Removes from `v` every value with the view of `x`, keeping the others in order.
pub fn vec_remove_equal<T: ViewEq>(v: &mut Vec<T>, x: &T)
    ensures
        views_of(final(v)@) == without(views_of(old(v)@), x@),
{
    let ghost all = views_of(v@);
    let mut kept: Vec<T> = Vec::new();
    let mut i: usize = 0;
    proof {
        reveal(Seq::filter);
        assert(all.take(0) =~= Seq::<T::V>::empty());
        assert(views_of(kept@) =~= Seq::<T::V>::empty());
    }
    while i < v.len()
        invariant
            i <= v@.len(),
            all == views_of(v@),
            views_of(kept@) == without(all.take(i as int), x@),
        decreases v@.len() - i,
    {
        let same = v[i].view_eq(x);
        proof {
            assert(all.take(i + 1) =~= all.take(i as int).push(all[i as int]));
            all.take(i as int).lemma_filter_push(all[i as int], differs_from(x@));
        }
        if !same {
            let ghost before = kept@;
            kept.push(v[i].view_copy());
            assert(views_of(kept@) =~= views_of(before).push(all[i as int]));
        }
        i = i + 1;
    }
    assert(all.take(v@.len() as int) =~= all);
    *v = kept;
}

/// Copies a list value by value.
pub fn vec_copy<T: ViewEq>(v: &Vec<T>) -> (r: Vec<T>)
    ensures
        views_of(r@) == views_of(v@),
{
    let mut out: Vec<T> = Vec::new();
    let mut i: usize = 0;
    while i < v.len()
        invariant
            i <= v@.len(),
            out@.len() == i,
            forall|j: int| 0 <= j < i ==> #[trigger] out@[j]@ == v@[j]@,
        decreases v@.len() - i,
    {
        out.push(v[i].view_copy());
        i = i + 1;
    }
    assert(views_of(out@) =~= views_of(v@));
    out
}

/// Adding a value that is already there changes nothing: adding twice is adding once.
pub proof fn lemma_push_unique_idempotent<A>(s: Seq<A>, x: A)
    ensures
        push_unique(push_unique(s, x), x) == push_unique(s, x),
        push_unique(s, x).contains(x),
{
    if !s.contains(x) {
        assert(s.push(x)[s.len() as int] == x);
    }
}

/// A list without repeats keeps none after a value is added.
pub proof fn lemma_push_unique_no_duplicates<A>(s: Seq<A>, x: A)
    requires
        s.no_duplicates(),
    ensures
        push_unique(s, x).no_duplicates(),
{
    if !s.contains(x) {
        let t = s.push(x);
        assert forall|i: int, j: int| 0 <= i < t.len() && 0 <= j < t.len() && i != j implies t[i] != t[j] by {
            if i == s.len() as int {
                assert(s[j] == t[j]);
            } else if j == s.len() as int {
                assert(s[i] == t[i]);
            }
        }
    }
}

/// Leaving values out of a list without repeats keeps it without repeats.
pub proof fn lemma_filter_no_duplicates<A>(s: Seq<A>, p: spec_fn(A) -> bool)
    requires
        s.no_duplicates(),
    ensures
        s.filter(p).no_duplicates(),
    decreases s.len(),
{
    reveal(Seq::filter);
    if s.len() > 0 {
        let rest = s.drop_last();
        let last = s.last();
        assert(rest.no_duplicates()) by {
            assert forall|i: int, j: int| 0 <= i < rest.len() && 0 <= j < rest.len() && i != j implies rest[i] != rest[j] by {
                assert(rest[i] == s[i] && rest[j] == s[j]);
            }
        }
        lemma_filter_no_duplicates(rest, p);
        if p(last) {
            let f = rest.filter(p);
            if f.contains(last) {
                rest.lemma_filter_contains_rev(p, last);
                let k = choose|k: int| 0 <= k < rest.len() && rest[k] == last;
                assert(s[k] == s[s.len() - 1]);
            }
            lemma_push_unique_no_duplicates(f, last);
        }
    }
}

/// Values that all pass the filter all stay.
pub proof fn lemma_filter_keeps_all<A>(s: Seq<A>, p: spec_fn(A) -> bool)
    requires
        forall|i: int| 0 <= i < s.len() ==> p(#[trigger] s[i]),
    ensures
        s.filter(p) == s,
    decreases s.len(),
{
    reveal(Seq::filter);
    if s.len() > 0 {
        let rest = s.drop_last();
        assert forall|i: int| 0 <= i < rest.len() implies p(#[trigger] rest[i]) by {
            assert(rest[i] == s[i]);
        }
        lemma_filter_keeps_all(rest, p);
        assert(s.filter(p) =~= s);
    }
}

/// Removing a value after adding it gives what removing it alone gives; on a
/// list that did not hold the value, that is the list itself.
pub proof fn lemma_add_then_remove<A>(s: Seq<A>, x: A)
    ensures
        without(push_unique(s, x), x) == without(s, x),
        !s.contains(x) ==> without(push_unique(s, x), x) == s,
        !without(s, x).contains(x),
{
    if !s.contains(x) {
        s.lemma_filter_push(x, differs_from(x));
        assert forall|i: int| 0 <= i < s.len() implies (differs_from(x))(#[trigger] s[i]) by {
            assert(s.contains(s[i]));
        }
        lemma_filter_keeps_all(s, differs_from(x));
    }
    if without(s, x).contains(x) {
        let k = choose|k: int| 0 <= k < without(s, x).len() && without(s, x)[k] == x;
        s.lemma_filter_pred(differs_from(x), k);
    }
}

// ---------------------------------------------------------------------------
// Sync reasons and state serialization
// ---------------------------------------------------------------------------

/// Mirrors `CKSyncEngine.SyncReason`.
#[derive(Debug, Clone, Copy, PartialEq, Eq, Hash, Structural)]
#[non_exhaustive]
pub enum CKSyncEngineSyncReason {
    Scheduled,
    Manual,
    Unknown(i32),
}

pub open spec fn sync_reason_from_raw(raw: i32) -> CKSyncEngineSyncReason {
    if raw == 0 {
        CKSyncEngineSyncReason::Scheduled
    } else if raw == 1 {
        CKSyncEngineSyncReason::Manual
    } else {
        CKSyncEngineSyncReason::Unknown(raw)
    }
}

pub open spec fn sync_reason_to_raw(reason: CKSyncEngineSyncReason) -> i32 {
    match reason {
        CKSyncEngineSyncReason::Scheduled => 0,
        CKSyncEngineSyncReason::Manual => 1,
        CKSyncEngineSyncReason::Unknown(raw) => raw,
    }
}

impl CKSyncEngineSyncReason {
    /// The reason for a raw value; values without a name stay `Unknown`.
    pub fn from_raw(raw: i32) -> (r: Self)
        ensures
            r == sync_reason_from_raw(raw),
    {
        match raw {
            0 => Self::Scheduled,
            1 => Self::Manual,
            other => Self::Unknown(other),
        }
    }

    /// The raw value of the reason.
    pub fn to_raw(self) -> (r: i32)
        ensures
            r == sync_reason_to_raw(self),
    {
        match self {
            Self::Scheduled => 0,
            Self::Manual => 1,
            Self::Unknown(raw) => raw,
        }
    }
}

/// Mirrors `CKSyncEngine.State.Serialization`; its view is the archived bytes.
#[derive(Debug, PartialEq, Eq, Hash)]
pub struct CKSyncEngineStateSerialization {
    archived_data: Vec<u8>,
}

impl View for CKSyncEngineStateSerialization {
    type V = Seq<u8>;

    closed spec fn view(&self) -> Seq<u8> {
        self.archived_data@
    }
}

impl Clone for CKSyncEngineStateSerialization {
    fn clone(&self) -> (r: Self)
        ensures
            r@ == self@,
    {
        CKSyncEngineStateSerialization { archived_data: crate::record::copy_bytes(&self.archived_data) }
    }
}

impl Default for CKSyncEngineStateSerialization {
    fn default() -> (r: Self)
        ensures
            r@ == Seq::<u8>::empty(),
    {
        Self { archived_data: Vec::new() }
    }
}

impl CKSyncEngineStateSerialization {
    /// The serialization holding these archived bytes.
    pub fn new(archived_data: Vec<u8>) -> (r: Self)
        ensures
            r@ == archived_data@,
    {
        Self { archived_data }
    }

    /// The archived bytes.
    pub fn archived_data(&self) -> (r: &[u8])
        ensures
            r@ == self@,
    {
        self.archived_data.as_slice()
    }
}

// ---------------------------------------------------------------------------
// Scopes
// ---------------------------------------------------------------------------

/// Whether a scope with these zone lists covers `zone_id`: no zone list or a
/// list that names it, and no exclusion of it.
pub open spec fn zones_cover(zone_ids: Seq<RecordZoneIdView>, excluded: Seq<RecordZoneIdView>, zone_id: RecordZoneIdView) -> bool {
    (zone_ids.len() == 0 || zone_ids.contains(zone_id)) && !excluded.contains(zone_id)
}

/// The abstract content of a fetch scope.
pub struct FetchScopeView {
    pub zone_ids: Seq<RecordZoneIdView>,
    pub excluded_zone_ids: Seq<RecordZoneIdView>,
}

/// Mirrors `CKSyncEngine.FetchChangesOptions.Scope`.
#[derive(Debug, PartialEq, Eq, Hash)]
pub struct CKSyncEngineFetchChangesScope {
    zone_ids: Vec<CKRecordZoneID>,
    excluded_zone_ids: Vec<CKRecordZoneID>,
}

impl View for CKSyncEngineFetchChangesScope {
    type V = FetchScopeView;

    closed spec fn view(&self) -> FetchScopeView {
        FetchScopeView { zone_ids: views_of(self.zone_ids@), excluded_zone_ids: views_of(self.excluded_zone_ids@) }
    }
}

impl Clone for CKSyncEngineFetchChangesScope {
    fn clone(&self) -> (r: Self)
        ensures
            r@ == self@,
    {
        CKSyncEngineFetchChangesScope { zone_ids: vec_copy(&self.zone_ids), excluded_zone_ids: vec_copy(&self.excluded_zone_ids) }
    }
}

impl Default for CKSyncEngineFetchChangesScope {
    fn default() -> (r: Self)
        ensures
            r@ == (FetchScopeView { zone_ids: Seq::empty(), excluded_zone_ids: Seq::empty() }),
    {
        Self::new()
    }
}

/// Whether `v` holds `x`, by view.
fn zone_listed(v: &Vec<CKRecordZoneID>, x: &CKRecordZoneID) -> (r: bool)
    ensures
        r == views_of(v@).contains(x@),
{
    vec_contains(v, x)
}

impl CKSyncEngineFetchChangesScope {
    /// The scope of every zone.
    pub fn new() -> (r: Self)
        ensures
            r@ == (FetchScopeView { zone_ids: Seq::empty(), excluded_zone_ids: Seq::empty() }),
    {
        let r = Self { zone_ids: Vec::new(), excluded_zone_ids: Vec::new() };
        assert(views_of(r.zone_ids@) =~= Seq::<RecordZoneIdView>::empty());
        assert(views_of(r.excluded_zone_ids@) =~= Seq::<RecordZoneIdView>::empty());
        r
    }

    /// The scope of the given zones.
    pub fn with_zone_ids(zone_ids: Vec<CKRecordZoneID>) -> (r: Self)
        ensures
            r@ == (FetchScopeView { zone_ids: views_of(zone_ids@), excluded_zone_ids: Seq::empty() }),
    {
        let r = Self { zone_ids, excluded_zone_ids: Vec::new() };
        assert(views_of(r.excluded_zone_ids@) =~= Seq::<RecordZoneIdView>::empty());
        r
    }

    /// The scope of every zone but the given ones.
    pub fn with_excluded_zone_ids(excluded_zone_ids: Vec<CKRecordZoneID>) -> (r: Self)
        ensures
            r@ == (FetchScopeView { zone_ids: Seq::empty(), excluded_zone_ids: views_of(excluded_zone_ids@) }),
    {
        let r = Self { zone_ids: Vec::new(), excluded_zone_ids };
        assert(views_of(r.zone_ids@) =~= Seq::<RecordZoneIdView>::empty());
        r
    }

    /// Mirrors `zoneIDs`.
    pub fn zone_ids(&self) -> (r: &[CKRecordZoneID])
        ensures
            views_of(r@) == self@.zone_ids,
    {
        self.zone_ids.as_slice()
    }

    /// Mirrors `excludedZoneIDs`.
    pub fn excluded_zone_ids(&self) -> (r: &[CKRecordZoneID])
        ensures
            views_of(r@) == self@.excluded_zone_ids,
    {
        self.excluded_zone_ids.as_slice()
    }

    /// The same scope with one more zone, unless it is already named.
    pub fn add_zone_id(self, zone_id: CKRecordZoneID) -> (r: Self)
        ensures
            r@ == (FetchScopeView { zone_ids: push_unique(self@.zone_ids, zone_id@), ..self@ }),
    {
        let mut zone_ids = self.zone_ids;
        vec_push_unique(&mut zone_ids, zone_id);
        Self { zone_ids, excluded_zone_ids: self.excluded_zone_ids }
    }

    /// The same scope with one more excluded zone, unless it is already excluded.
    pub fn add_excluded_zone_id(self, zone_id: CKRecordZoneID) -> (r: Self)
        ensures
            r@ == (FetchScopeView { excluded_zone_ids: push_unique(self@.excluded_zone_ids, zone_id@), ..self@ }),
    {
        let mut excluded_zone_ids = self.excluded_zone_ids;
        vec_push_unique(&mut excluded_zone_ids, zone_id);
        Self { zone_ids: self.zone_ids, excluded_zone_ids }
    }

    /// Mirrors `contains(_:)` for a zone.
    pub fn contains_zone_id(&self, zone_id: &CKRecordZoneID) -> (r: bool)
        ensures
            r == zones_cover(self@.zone_ids, self@.excluded_zone_ids, zone_id@),
    {
        let included = self.zone_ids.len() == 0 || zone_listed(&self.zone_ids, zone_id);
        included && !zone_listed(&self.excluded_zone_ids, zone_id)
    }
}

/// The abstract content of a send scope.
pub struct SendScopeView {
    pub zone_ids: Seq<RecordZoneIdView>,
    pub excluded_zone_ids: Seq<RecordZoneIdView>,
    pub record_ids: Seq<RecordIdView>,
}

/// Whether a send scope covers `record_id`: its zone is covered, and there is
/// no record list or one that names it.
pub open spec fn send_scope_covers_record(scope: SendScopeView, record_id: RecordIdView) -> bool {
    &&& zones_cover(scope.zone_ids, scope.excluded_zone_ids, record_id.zone_id)
    &&& (scope.record_ids.len() == 0 || scope.record_ids.contains(record_id))
}

/// The send scope of every zone and record.
pub open spec fn everything_send_scope() -> SendScopeView {
    SendScopeView { zone_ids: Seq::empty(), excluded_zone_ids: Seq::empty(), record_ids: Seq::empty() }
}

/// Mirrors `CKSyncEngine.SendChangesOptions.Scope`.
#[derive(Debug, PartialEq, Eq, Hash)]
pub struct CKSyncEngineSendChangesScope {
    zone_ids: Vec<CKRecordZoneID>,
    excluded_zone_ids: Vec<CKRecordZoneID>,
    record_ids: Vec<CKRecordID>,
}

impl View for CKSyncEngineSendChangesScope {
    type V = SendScopeView;

    closed spec fn view(&self) -> SendScopeView {
        SendScopeView {
            zone_ids: views_of(self.zone_ids@),
            excluded_zone_ids: views_of(self.excluded_zone_ids@),
            record_ids: views_of(self.record_ids@),
        }
    }
}

impl Clone for CKSyncEngineSendChangesScope {
    fn clone(&self) -> (r: Self)
        ensures
            r@ == self@,
    {
        CKSyncEngineSendChangesScope {
            zone_ids: vec_copy(&self.zone_ids),
            excluded_zone_ids: vec_copy(&self.excluded_zone_ids),
            record_ids: vec_copy(&self.record_ids),
        }
    }
}

impl Default for CKSyncEngineSendChangesScope {
    fn default() -> (r: Self)
        ensures
            r@ == everything_send_scope(),
    {
        Self::new()
    }
}

impl CKSyncEngineSendChangesScope {
    /// The scope of every zone and record.
    pub fn new() -> (r: Self)
        ensures
            r@ == everything_send_scope(),
    {
        let r = Self { zone_ids: Vec::new(), excluded_zone_ids: Vec::new(), record_ids: Vec::new() };
        assert(views_of(r.zone_ids@) =~= Seq::<RecordZoneIdView>::empty());
        assert(views_of(r.excluded_zone_ids@) =~= Seq::<RecordZoneIdView>::empty());
        assert(views_of(r.record_ids@) =~= Seq::<RecordIdView>::empty());
        r
    }

    /// The scope of the given zones.
    pub fn with_zone_ids(zone_ids: Vec<CKRecordZoneID>) -> (r: Self)
        ensures
            r@ == (SendScopeView { zone_ids: views_of(zone_ids@), ..everything_send_scope() }),
    {
        let r = Self { zone_ids, excluded_zone_ids: Vec::new(), record_ids: Vec::new() };
        assert(views_of(r.excluded_zone_ids@) =~= Seq::<RecordZoneIdView>::empty());
        assert(views_of(r.record_ids@) =~= Seq::<RecordIdView>::empty());
        r
    }

    /// The scope of every zone but the given ones.
    pub fn with_excluded_zone_ids(excluded_zone_ids: Vec<CKRecordZoneID>) -> (r: Self)
        ensures
            r@ == (SendScopeView { excluded_zone_ids: views_of(excluded_zone_ids@), ..everything_send_scope() }),
    {
        let r = Self { zone_ids: Vec::new(), excluded_zone_ids, record_ids: Vec::new() };
        assert(views_of(r.zone_ids@) =~= Seq::<RecordZoneIdView>::empty());
        assert(views_of(r.record_ids@) =~= Seq::<RecordIdView>::empty());
        r
    }

    /// The scope of the given records.
    pub fn with_record_ids(record_ids: Vec<CKRecordID>) -> (r: Self)
        ensures
            r@ == (SendScopeView { record_ids: views_of(record_ids@), ..everything_send_scope() }),
    {
        let r = Self { zone_ids: Vec::new(), excluded_zone_ids: Vec::new(), record_ids };
        assert(views_of(r.zone_ids@) =~= Seq::<RecordZoneIdView>::empty());
        assert(views_of(r.excluded_zone_ids@) =~= Seq::<RecordZoneIdView>::empty());
        r
    }

    /// Mirrors `zoneIDs`.
    pub fn zone_ids(&self) -> (r: &[CKRecordZoneID])
        ensures
            views_of(r@) == self@.zone_ids,
    {
        self.zone_ids.as_slice()
    }

    /// Mirrors `excludedZoneIDs`.
    pub fn excluded_zone_ids(&self) -> (r: &[CKRecordZoneID])
        ensures
            views_of(r@) == self@.excluded_zone_ids,
    {
        self.excluded_zone_ids.as_slice()
    }

    /// Mirrors `recordIDs`.
    pub fn record_ids(&self) -> (r: &[CKRecordID])
        ensures
            views_of(r@) == self@.record_ids,
    {
        self.record_ids.as_slice()
    }

    /// The same scope with one more zone, unless it is already named.
    pub fn add_zone_id(self, zone_id: CKRecordZoneID) -> (r: Self)
        ensures
            r@ == (SendScopeView { zone_ids: push_unique(self@.zone_ids, zone_id@), ..self@ }),
    {
        let mut zone_ids = self.zone_ids;
        vec_push_unique(&mut zone_ids, zone_id);
        Self { zone_ids, excluded_zone_ids: self.excluded_zone_ids, record_ids: self.record_ids }
    }

    /// The same scope with one more excluded zone, unless it is already excluded.
    pub fn add_excluded_zone_id(self, zone_id: CKRecordZoneID) -> (r: Self)
        ensures
            r@ == (SendScopeView { excluded_zone_ids: push_unique(self@.excluded_zone_ids, zone_id@), ..self@ }),
    {
        let mut excluded_zone_ids = self.excluded_zone_ids;
        vec_push_unique(&mut excluded_zone_ids, zone_id);
        Self { zone_ids: self.zone_ids, excluded_zone_ids, record_ids: self.record_ids }
    }

    /// The same scope with one more record, unless it is already named.
    pub fn add_record_id(self, record_id: CKRecordID) -> (r: Self)
        ensures
            r@ == (SendScopeView { record_ids: push_unique(self@.record_ids, record_id@), ..self@ }),
    {
        let mut record_ids = self.record_ids;
        vec_push_unique(&mut record_ids, record_id);
        Self { zone_ids: self.zone_ids, excluded_zone_ids: self.excluded_zone_ids, record_ids }
    }

    /// Mirrors `contains(_:)` for a zone.
    pub fn contains_zone_id(&self, zone_id: &CKRecordZoneID) -> (r: bool)
        ensures
            r == zones_cover(self@.zone_ids, self@.excluded_zone_ids, zone_id@),
    {
        let included = self.zone_ids.len() == 0 || zone_listed(&self.zone_ids, zone_id);
        included && !zone_listed(&self.excluded_zone_ids, zone_id)
    }

    /// Mirrors `contains(_:)` for a record.
    pub fn contains_record_id(&self, record_id: &CKRecordID) -> (r: bool)
        ensures
            r == send_scope_covers_record(self@, record_id@),
    {
        let zone_match = self.contains_zone_id(record_id.zone_id());
        let record_match = self.record_ids.len() == 0 || vec_contains(&self.record_ids, record_id);
        zone_match && record_match
    }

    /// Whether the scope covers the record that a pending change is about.
    pub fn contains_pending_record_zone_change(&self, pending_change: &CKSyncEnginePendingRecordZoneChange) -> (r: bool)
        ensures
            r == send_scope_covers_record(self@, pending_change@.record_id),
    {
        self.contains_record_id(pending_change.record_id())
    }
}

/// A scope with no lists covers every zone and record; an excluded zone is
/// never covered, whatever else the scope names.
pub proof fn lemma_scope_coverage(scope: SendScopeView, zone_id: RecordZoneIdView, record_id: RecordIdView)
    ensures
        zones_cover(Seq::empty(), Seq::empty(), zone_id),
        send_scope_covers_record(everything_send_scope(), record_id),
        scope.excluded_zone_ids.contains(zone_id) ==> !zones_cover(scope.zone_ids, scope.excluded_zone_ids, zone_id),
        scope.excluded_zone_ids.contains(record_id.zone_id) ==> !send_scope_covers_record(scope, record_id),
{
}

/// After a zone is excluded, the scope covers it no longer.
pub proof fn lemma_excluded_zone_not_covered(zone_ids: Seq<RecordZoneIdView>, excluded: Seq<RecordZoneIdView>, zone_id: RecordZoneIdView)
    ensures
        !zones_cover(zone_ids, push_unique(excluded, zone_id), zone_id),
{
    lemma_push_unique_idempotent(excluded, zone_id);
}

// ---------------------------------------------------------------------------
// Options and contexts
// ---------------------------------------------------------------------------

/// The abstract content of fetch options.
pub struct FetchOptionsView {
    pub scope: FetchScopeView,
    pub operation_group: Option<OperationGroupView>,
    pub prioritized_zone_ids: Seq<RecordZoneIdView>,
}

/// Mirrors `CKSyncEngine.FetchChangesOptions`.
#[derive(Debug, PartialEq)]
pub struct CKSyncEngineFetchChangesOptions {
    scope: CKSyncEngineFetchChangesScope,
    operation_group: Option<CKOperationGroup>,
    prioritized_zone_ids: Vec<CKRecordZoneID>,
}

impl View for CKSyncEngineFetchChangesOptions {
    type V = FetchOptionsView;

    closed spec fn view(&self) -> FetchOptionsView {
        FetchOptionsView {
            scope: self.scope@,
            operation_group: group_option_view(self.operation_group),
            prioritized_zone_ids: views_of(self.prioritized_zone_ids@),
        }
    }
}

impl Clone for CKSyncEngineFetchChangesOptions {
    fn clone(&self) -> (r: Self)
        ensures
            r@ == self@,
    {
        CKSyncEngineFetchChangesOptions {
            scope: self.scope.clone(),
            operation_group: copy_group_option(&self.operation_group),
            prioritized_zone_ids: vec_copy(&self.prioritized_zone_ids),
        }
    }
}

impl CKSyncEngineFetchChangesOptions {
    /// Options with the given scope, no group and no prioritized zones.
    pub fn new(scope: CKSyncEngineFetchChangesScope) -> (r: Self)
        ensures
            r@ == (FetchOptionsView { scope: scope@, operation_group: None, prioritized_zone_ids: Seq::empty() }),
    {
        let r = Self { scope, operation_group: None, prioritized_zone_ids: Vec::new() };
        assert(views_of(r.prioritized_zone_ids@) =~= Seq::<RecordZoneIdView>::empty());
        r
    }

    /// Mirrors `scope`.
    pub fn scope(&self) -> (r: &CKSyncEngineFetchChangesScope)
        ensures
            r@ == self@.scope,
    {
        &self.scope
    }

    /// Mirrors `operationGroup`.
    pub fn operation_group(&self) -> (r: Option<&CKOperationGroup>)
        ensures
            r is Some <==> self@.operation_group is Some,
            r is Some ==> r->0@ == self@.operation_group->0,
    {
        match &self.operation_group {
            Some(g) => Some(g),
            None => None,
        }
    }

    /// Mirrors `prioritizedZoneIDs`.
    pub fn prioritized_zone_ids(&self) -> (r: &[CKRecordZoneID])
        ensures
            views_of(r@) == self@.prioritized_zone_ids,
    {
        self.prioritized_zone_ids.as_slice()
    }

    /// The same options in an operation group.
    pub fn with_operation_group(self, operation_group: CKOperationGroup) -> (r: Self)
        ensures
            r@ == (FetchOptionsView { operation_group: Some(operation_group@), ..self@ }),
    {
        Self { scope: self.scope, operation_group: Some(operation_group), prioritized_zone_ids: self.prioritized_zone_ids }
    }

    /// The same options with one more prioritized zone, unless it is already there.
    pub fn with_prioritized_zone_id(self, zone_id: CKRecordZoneID) -> (r: Self)
        ensures
            r@ == (FetchOptionsView { prioritized_zone_ids: push_unique(self@.prioritized_zone_ids, zone_id@), ..self@ }),
    {
        let mut prioritized_zone_ids = self.prioritized_zone_ids;
        vec_push_unique(&mut prioritized_zone_ids, zone_id);
        Self { scope: self.scope, operation_group: self.operation_group, prioritized_zone_ids }
    }
}

/// The abstract content of send options.
pub struct SendOptionsView {
    pub scope: SendScopeView,
    pub operation_group: Option<OperationGroupView>,
}

/// Mirrors `CKSyncEngine.SendChangesOptions`.
#[derive(Debug, PartialEq)]
pub struct CKSyncEngineSendChangesOptions {
    scope: CKSyncEngineSendChangesScope,
    operation_group: Option<CKOperationGroup>,
}

impl View for CKSyncEngineSendChangesOptions {
    type V = SendOptionsView;

    closed spec fn view(&self) -> SendOptionsView {
        SendOptionsView { scope: self.scope@, operation_group: group_option_view(self.operation_group) }
    }
}

impl Clone for CKSyncEngineSendChangesOptions {
    fn clone(&self) -> (r: Self)
        ensures
            r@ == self@,
    {
        CKSyncEngineSendChangesOptions { scope: self.scope.clone(), operation_group: copy_group_option(&self.operation_group) }
    }
}

impl CKSyncEngineSendChangesOptions {
    /// Options with the given scope and no group.
    pub fn new(scope: CKSyncEngineSendChangesScope) -> (r: Self)
        ensures
            r@ == (SendOptionsView { scope: scope@, operation_group: None }),
    {
        Self { scope, operation_group: None }
    }

    /// Mirrors `scope`.
    pub fn scope(&self) -> (r: &CKSyncEngineSendChangesScope)
        ensures
            r@ == self@.scope,
    {
        &self.scope
    }

    /// Mirrors `operationGroup`.
    pub fn operation_group(&self) -> (r: Option<&CKOperationGroup>)
        ensures
            r is Some <==> self@.operation_group is Some,
            r is Some ==> r->0@ == self@.operation_group->0,
    {
        match &self.operation_group {
            Some(g) => Some(g),
            None => None,
        }
    }

    /// The same options in an operation group.
    pub fn with_operation_group(self, operation_group: CKOperationGroup) -> (r: Self)
        ensures
            r@ == (SendOptionsView { operation_group: Some(operation_group@), ..self@ }),
    {
        Self { scope: self.scope, operation_group: Some(operation_group) }
    }
}

/// The abstract content of a fetch context.
pub struct FetchContextView {
    pub reason: CKSyncEngineSyncReason,
    pub options: FetchOptionsView,
}

/// Mirrors `CKSyncEngine.FetchChangesContext`.
#[derive(Debug, PartialEq)]
pub struct CKSyncEngineFetchChangesContext {
    reason: CKSyncEngineSyncReason,
    options: CKSyncEngineFetchChangesOptions,
}

impl View for CKSyncEngineFetchChangesContext {
    type V = FetchContextView;

    closed spec fn view(&self) -> FetchContextView {
        FetchContextView { reason: self.reason, options: self.options@ }
    }
}

impl Clone for CKSyncEngineFetchChangesContext {
    fn clone(&self) -> (r: Self)
        ensures
            r@ == self@,
    {
        CKSyncEngineFetchChangesContext { reason: self.reason, options: self.options.clone() }
    }
}

impl CKSyncEngineFetchChangesContext {
    /// A context for the given reason and options.
    pub fn new(reason: CKSyncEngineSyncReason, options: CKSyncEngineFetchChangesOptions) -> (r: Self)
        ensures
            r@ == (FetchContextView { reason, options: options@ }),
    {
        Self { reason, options }
    }

    /// Mirrors `reason`.
    pub fn reason(&self) -> (r: CKSyncEngineSyncReason)
        ensures
            r == self@.reason,
    {
        self.reason
    }

    /// Mirrors `options`.
    pub fn options(&self) -> (r: &CKSyncEngineFetchChangesOptions)
        ensures
            r@ == self@.options,
    {
        &self.options
    }
}

/// The abstract content of a send context.
pub struct SendContextView {
    pub reason: CKSyncEngineSyncReason,
    pub options: SendOptionsView,
}

/// Mirrors `CKSyncEngine.SendChangesContext`.
#[derive(Debug, PartialEq)]
pub struct CKSyncEngineSendChangesContext {
    reason: CKSyncEngineSyncReason,
    options: CKSyncEngineSendChangesOptions,
}

impl View for CKSyncEngineSendChangesContext {
    type V = SendContextView;

    closed spec fn view(&self) -> SendContextView {
        SendContextView { reason: self.reason, options: self.options@ }
    }
}

impl Clone for CKSyncEngineSendChangesContext {
    fn clone(&self) -> (r: Self)
        ensures
            r@ == self@,
    {
        CKSyncEngineSendChangesContext { reason: self.reason, options: self.options.clone() }
    }
}

impl CKSyncEngineSendChangesContext {
    /// A context for the given reason and options.
    pub fn new(reason: CKSyncEngineSyncReason, options: CKSyncEngineSendChangesOptions) -> (r: Self)
        ensures
            r@ == (SendContextView { reason, options: options@ }),
    {
        Self { reason, options }
    }

    /// Mirrors `reason`.
    pub fn reason(&self) -> (r: CKSyncEngineSyncReason)
        ensures
            r == self@.reason,
    {
        self.reason
    }

    /// Mirrors `options`.
    pub fn options(&self) -> (r: &CKSyncEngineSendChangesOptions)
        ensures
            r@ == self@.options,
    {
        &self.options
    }
}

/// The fetch context the engine offers its delegate before a fetch: the
/// reason, and options covering every zone.
pub fn default_fetch_changes_context(reason: CKSyncEngineSyncReason) -> (r: CKSyncEngineFetchChangesContext)
    ensures
        r@ == (FetchContextView {
            reason,
            options: FetchOptionsView {
                scope: FetchScopeView { zone_ids: Seq::empty(), excluded_zone_ids: Seq::empty() },
                operation_group: None,
                prioritized_zone_ids: Seq::empty(),
            },
        }),
{
    CKSyncEngineFetchChangesContext::new(reason, CKSyncEngineFetchChangesOptions::new(CKSyncEngineFetchChangesScope::default()))
}

/// The context of a fetch: the delegate's options where it gave some, the
/// options covering every zone where it did not.
pub fn fetch_changes_context(
    reason: CKSyncEngineSyncReason,
    delegate_options: Option<CKSyncEngineFetchChangesOptions>,
) -> (r: CKSyncEngineFetchChangesContext)
    ensures
        r@.reason == reason,
        delegate_options matches Some(o) ==> r@.options == o@,
        delegate_options is None ==> r@ == default_fetch_changes_context_view(reason),
{
    match delegate_options {
        Some(options) => CKSyncEngineFetchChangesContext::new(reason, options),
        None => default_fetch_changes_context(reason),
    }
}

/// The view of `default_fetch_changes_context(reason)`.
pub open spec fn default_fetch_changes_context_view(reason: CKSyncEngineSyncReason) -> FetchContextView {
    FetchContextView {
        reason,
        options: FetchOptionsView {
            scope: FetchScopeView { zone_ids: Seq::empty(), excluded_zone_ids: Seq::empty() },
            operation_group: None,
            prioritized_zone_ids: Seq::empty(),
        },
    }
}

/// The context of a send: the reason, and options covering every zone and record.
pub fn send_changes_context(reason: CKSyncEngineSyncReason) -> (r: CKSyncEngineSendChangesContext)
    ensures
        r@ == (SendContextView { reason, options: SendOptionsView { scope: everything_send_scope(), operation_group: None } }),
{
    CKSyncEngineSendChangesContext::new(reason, CKSyncEngineSendChangesOptions::new(CKSyncEngineSendChangesScope::default()))
}

// ---------------------------------------------------------------------------
// Pending changes
// ---------------------------------------------------------------------------

/// Mirrors `CKSyncEngine.PendingRecordZoneChange`'s kind.
#[derive(Debug, Clone, Copy, PartialEq, Eq, Hash, Structural)]
#[non_exhaustive]
pub enum CKSyncEnginePendingRecordZoneChangeType {
    SaveRecord,
    DeleteRecord,
    Unknown(i32),
}

pub open spec fn record_zone_change_type_from_raw(raw: i32) -> CKSyncEnginePendingRecordZoneChangeType {
    if raw == 0 {
        CKSyncEnginePendingRecordZoneChangeType::SaveRecord
    } else if raw == 1 {
        CKSyncEnginePendingRecordZoneChangeType::DeleteRecord
    } else {
        CKSyncEnginePendingRecordZoneChangeType::Unknown(raw)
    }
}

pub open spec fn record_zone_change_type_to_raw(t: CKSyncEnginePendingRecordZoneChangeType) -> i32 {
    match t {
        CKSyncEnginePendingRecordZoneChangeType::SaveRecord => 0,
        CKSyncEnginePendingRecordZoneChangeType::DeleteRecord => 1,
        CKSyncEnginePendingRecordZoneChangeType::Unknown(raw) => raw,
    }
}

impl CKSyncEnginePendingRecordZoneChangeType {
    /// The kind for a raw value; values without a name stay `Unknown`.
    pub fn from_raw(raw: i32) -> (r: Self)
        ensures
            r == record_zone_change_type_from_raw(raw),
    {
        match raw {
            0 => Self::SaveRecord,
            1 => Self::DeleteRecord,
            other => Self::Unknown(other),
        }
    }

    /// The raw value of the kind.
    pub fn to_raw(self) -> (r: i32)
        ensures
            r == record_zone_change_type_to_raw(self),
    {
        match self {
            Self::SaveRecord => 0,
            Self::DeleteRecord => 1,
            Self::Unknown(raw) => raw,
        }
    }
}

/// The abstract content of a pending record change.
pub struct PendingRecordZoneChangeView {
    pub record_id: RecordIdView,
    pub change_type: CKSyncEnginePendingRecordZoneChangeType,
}

/// Mirrors `CKSyncEngine.PendingRecordZoneChange`.
#[derive(Debug, PartialEq, Eq, Hash)]
pub struct CKSyncEnginePendingRecordZoneChange {
    record_id: CKRecordID,
    change_type: CKSyncEnginePendingRecordZoneChangeType,
}

impl View for CKSyncEnginePendingRecordZoneChange {
    type V = PendingRecordZoneChangeView;

    closed spec fn view(&self) -> PendingRecordZoneChangeView {
        PendingRecordZoneChangeView { record_id: self.record_id@, change_type: self.change_type }
    }
}

impl Clone for CKSyncEnginePendingRecordZoneChange {
    fn clone(&self) -> (r: Self)
        ensures
            r@ == self@,
    {
        CKSyncEnginePendingRecordZoneChange { record_id: self.record_id.clone(), change_type: self.change_type }
    }
}

impl ViewEq for CKSyncEnginePendingRecordZoneChange {
    fn view_eq(&self, other: &Self) -> (r: bool) {
        self.record_id.same_as(&other.record_id) && self.change_type == other.change_type
    }

    fn view_copy(&self) -> (r: Self) {
        self.clone()
    }
}

impl CKSyncEnginePendingRecordZoneChange {
    /// A change of the given kind to the given record.
    pub fn new(record_id: CKRecordID, change_type: CKSyncEnginePendingRecordZoneChangeType) -> (r: Self)
        ensures
            r@ == (PendingRecordZoneChangeView { record_id: record_id@, change_type }),
    {
        Self { record_id, change_type }
    }

    /// Mirrors `recordID`.
    pub fn record_id(&self) -> (r: &CKRecordID)
        ensures
            r@ == self@.record_id,
    {
        &self.record_id
    }

    /// The kind of change.
    pub fn change_type(&self) -> (r: CKSyncEnginePendingRecordZoneChangeType)
        ensures
            r == self@.change_type,
    {
        self.change_type
    }
}

/// Mirrors `CKSyncEngine.PendingDatabaseChange`'s kind.
#[derive(Debug, Clone, Copy, PartialEq, Eq, Hash, Structural)]
#[non_exhaustive]
pub enum CKSyncEnginePendingDatabaseChangeType {
    SaveZone,
    DeleteZone,
    Unknown(i32),
}

pub open spec fn database_change_type_from_raw(raw: i32) -> CKSyncEnginePendingDatabaseChangeType {
    if raw == 0 {
        CKSyncEnginePendingDatabaseChangeType::SaveZone
    } else if raw == 1 {
        CKSyncEnginePendingDatabaseChangeType::DeleteZone
    } else {
        CKSyncEnginePendingDatabaseChangeType::Unknown(raw)
    }
}

pub open spec fn database_change_type_to_raw(t: CKSyncEnginePendingDatabaseChangeType) -> i32 {
    match t {
        CKSyncEnginePendingDatabaseChangeType::SaveZone => 0,
        CKSyncEnginePendingDatabaseChangeType::DeleteZone => 1,
        CKSyncEnginePendingDatabaseChangeType::Unknown(raw) => raw,
    }
}

impl CKSyncEnginePendingDatabaseChangeType {
    /// The kind for a raw value; values without a name stay `Unknown`.
    pub fn from_raw(raw: i32) -> (r: Self)
        ensures
            r == database_change_type_from_raw(raw),
    {
        match raw {
            0 => Self::SaveZone,
            1 => Self::DeleteZone,
            other => Self::Unknown(other),
        }
    }

    /// The raw value of the kind.
    pub fn to_raw(self) -> (r: i32)
        ensures
            r == database_change_type_to_raw(self),
    {
        match self {
            Self::SaveZone => 0,
            Self::DeleteZone => 1,
            Self::Unknown(raw) => raw,
        }
    }
}

/// Reading a raw value and writing it back gives the same raw value, for each
/// kind of pending change and for sync reasons.
pub proof fn lemma_sync_raw_values_round_trip(raw: i32)
    ensures
        record_zone_change_type_to_raw(record_zone_change_type_from_raw(raw)) == raw,
        database_change_type_to_raw(database_change_type_from_raw(raw)) == raw,
        sync_reason_to_raw(sync_reason_from_raw(raw)) == raw,
{
}

/// The sync reason and the kinds of pending change follow the framework's raw
/// values: 0 is a scheduled sync, a record save or a zone save; 1 a manual sync,
/// a record deletion or a zone deletion; every other value is kept as unknown.
/// Distinct raw values give distinct results.
pub proof fn lemma_sync_raw_values(raw: i32, other: i32)
    ensures
        (raw == 0) <==> sync_reason_from_raw(raw) == CKSyncEngineSyncReason::Scheduled,
        (raw == 1) <==> sync_reason_from_raw(raw) == CKSyncEngineSyncReason::Manual,
        !(0 <= raw <= 1) <==> sync_reason_from_raw(raw) == CKSyncEngineSyncReason::Unknown(raw),
        sync_reason_to_raw(CKSyncEngineSyncReason::Scheduled) == 0,
        sync_reason_to_raw(CKSyncEngineSyncReason::Manual) == 1,
        sync_reason_from_raw(raw) == sync_reason_from_raw(other) ==> raw == other,
        (raw == 0) <==> record_zone_change_type_from_raw(raw)
            == CKSyncEnginePendingRecordZoneChangeType::SaveRecord,
        (raw == 1) <==> record_zone_change_type_from_raw(raw)
            == CKSyncEnginePendingRecordZoneChangeType::DeleteRecord,
        !(0 <= raw <= 1) <==> record_zone_change_type_from_raw(raw)
            == CKSyncEnginePendingRecordZoneChangeType::Unknown(raw),
        record_zone_change_type_to_raw(CKSyncEnginePendingRecordZoneChangeType::SaveRecord) == 0,
        record_zone_change_type_to_raw(CKSyncEnginePendingRecordZoneChangeType::DeleteRecord) == 1,
        record_zone_change_type_from_raw(raw) == record_zone_change_type_from_raw(other) ==> raw == other,
        (raw == 0) <==> database_change_type_from_raw(raw) == CKSyncEnginePendingDatabaseChangeType::SaveZone,
        (raw == 1) <==> database_change_type_from_raw(raw) == CKSyncEnginePendingDatabaseChangeType::DeleteZone,
        !(0 <= raw <= 1) <==> database_change_type_from_raw(raw)
            == CKSyncEnginePendingDatabaseChangeType::Unknown(raw),
        database_change_type_to_raw(CKSyncEnginePendingDatabaseChangeType::SaveZone) == 0,
        database_change_type_to_raw(CKSyncEnginePendingDatabaseChangeType::DeleteZone) == 1,
        database_change_type_from_raw(raw) == database_change_type_from_raw(other) ==> raw == other,
{
}

/// The abstract content of a pending zone change.
pub struct PendingDatabaseChangeView {
    pub zone_id: RecordZoneIdView,
    pub change_type: CKSyncEnginePendingDatabaseChangeType,
}

/// Mirrors `CKSyncEngine.PendingDatabaseChange`.
#[derive(Debug, PartialEq, Eq, Hash)]
pub struct CKSyncEnginePendingDatabaseChange {
    zone_id: CKRecordZoneID,
    change_type: CKSyncEnginePendingDatabaseChangeType,
}

impl View for CKSyncEnginePendingDatabaseChange {
    type V = PendingDatabaseChangeView;

    closed spec fn view(&self) -> PendingDatabaseChangeView {
        PendingDatabaseChangeView { zone_id: self.zone_id@, change_type: self.change_type }
    }
}

impl Clone for CKSyncEnginePendingDatabaseChange {
    fn clone(&self) -> (r: Self)
        ensures
            r@ == self@,
    {
        CKSyncEnginePendingDatabaseChange { zone_id: self.zone_id.clone(), change_type: self.change_type }
    }
}

impl ViewEq for CKSyncEnginePendingDatabaseChange {
    fn view_eq(&self, other: &Self) -> (r: bool) {
        self.zone_id.same_as(&other.zone_id) && self.change_type == other.change_type
    }

    fn view_copy(&self) -> (r: Self) {
        self.clone()
    }
}

impl CKSyncEnginePendingDatabaseChange {
    /// A change of the given kind to the given zone.
    pub fn new(zone_id: CKRecordZoneID, change_type: CKSyncEnginePendingDatabaseChangeType) -> (r: Self)
        ensures
            r@ == (PendingDatabaseChangeView { zone_id: zone_id@, change_type }),
    {
        Self { zone_id, change_type }
    }

    /// Mirrors `zoneID`.
    pub fn zone_id(&self) -> (r: &CKRecordZoneID)
        ensures
            r@ == self@.zone_id,
    {
        &self.zone_id
    }

    /// The kind of change.
    pub fn change_type(&self) -> (r: CKSyncEnginePendingDatabaseChangeType)
        ensures
            r == self@.change_type,
    {
        self.change_type
    }
}

/// The abstract content of a pending zone save.
pub struct PendingZoneSaveView {
    pub pending_change: PendingDatabaseChangeView,
    pub zone: RecordZoneView,
}

/// Mirrors `CKSyncEngine.PendingDatabaseChange.saveZone`.
#[derive(Debug, PartialEq, Eq, Hash)]
pub struct CKSyncEnginePendingZoneSave {
    pending_change: CKSyncEnginePendingDatabaseChange,
    zone: CKRecordZone,
}

impl View for CKSyncEnginePendingZoneSave {
    type V = PendingZoneSaveView;

    closed spec fn view(&self) -> PendingZoneSaveView {
        PendingZoneSaveView { pending_change: self.pending_change@, zone: self.zone@ }
    }
}

impl Clone for CKSyncEnginePendingZoneSave {
    fn clone(&self) -> (r: Self)
        ensures
            r@ == self@,
    {
        CKSyncEnginePendingZoneSave { pending_change: self.pending_change.clone(), zone: self.zone.clone() }
    }
}

impl CKSyncEnginePendingZoneSave {
    /// A pending save of `zone`, as a save-zone change to its identifier.
    pub fn new(zone: CKRecordZone) -> (r: Self)
        ensures
            r@ == (PendingZoneSaveView {
                pending_change: PendingDatabaseChangeView {
                    zone_id: zone@.zone_id,
                    change_type: CKSyncEnginePendingDatabaseChangeType::SaveZone,
                },
                zone: zone@,
            }),
    {
        let zone_id = zone.zone_id().clone();
        Self {
            pending_change: CKSyncEnginePendingDatabaseChange::new(zone_id, CKSyncEnginePendingDatabaseChangeType::SaveZone),
            zone,
        }
    }

    /// The change this save stands for.
    pub fn pending_change(&self) -> (r: &CKSyncEnginePendingDatabaseChange)
        ensures
            r@ == self@.pending_change,
    {
        &self.pending_change
    }

    /// The zone to save.
    pub fn zone(&self) -> (r: &CKRecordZone)
        ensures
            r@ == self@.zone,
    {
        &self.zone
    }

    /// The change this save stands for, by value.
    pub fn into_pending_change(self) -> (r: CKSyncEnginePendingDatabaseChange)
        ensures
            r@ == self@.pending_change,
    {
        self.pending_change
    }
}

/// Mirrors `CKSyncEngine.PendingDatabaseChange.deleteZone`; its view is the change.
#[derive(Debug, PartialEq, Eq, Hash)]
pub struct CKSyncEnginePendingZoneDelete {
    pending_change: CKSyncEnginePendingDatabaseChange,
}

impl View for CKSyncEnginePendingZoneDelete {
    type V = PendingDatabaseChangeView;

    closed spec fn view(&self) -> PendingDatabaseChangeView {
        self.pending_change@
    }
}

impl Clone for CKSyncEnginePendingZoneDelete {
    fn clone(&self) -> (r: Self)
        ensures
            r@ == self@,
    {
        CKSyncEnginePendingZoneDelete { pending_change: self.pending_change.clone() }
    }
}

impl CKSyncEnginePendingZoneDelete {
    /// A pending deletion of the zone, as a delete-zone change.
    pub fn new(zone_id: CKRecordZoneID) -> (r: Self)
        ensures
            r@ == (PendingDatabaseChangeView { zone_id: zone_id@, change_type: CKSyncEnginePendingDatabaseChangeType::DeleteZone }),
    {
        Self { pending_change: CKSyncEnginePendingDatabaseChange::new(zone_id, CKSyncEnginePendingDatabaseChangeType::DeleteZone) }
    }

    /// The change this deletion stands for.
    pub fn pending_change(&self) -> (r: &CKSyncEnginePendingDatabaseChange)
        ensures
            r@ == self@,
    {
        &self.pending_change
    }

    /// The zone to delete.
    pub fn zone_id(&self) -> (r: &CKRecordZoneID)
        ensures
            r@ == self@.zone_id,
    {
        self.pending_change.zone_id()
    }

    /// The change this deletion stands for, by value.
    pub fn into_pending_change(self) -> (r: CKSyncEnginePendingDatabaseChange)
        ensures
            r@ == self@,
    {
        self.pending_change
    }
}

// ---------------------------------------------------------------------------
// Engine state
// ---------------------------------------------------------------------------

/// The abstract content of the engine's local state.
pub struct SyncEngineStateView {
    pub pending_record_zone_changes: Seq<PendingRecordZoneChangeView>,
    pub pending_database_changes: Seq<PendingDatabaseChangeView>,
    pub has_pending_untracked_changes: bool,
    pub zone_ids_with_unfetched_server_changes: Seq<RecordZoneIdView>,
}

/// The state of a new engine: nothing pending, nothing unfetched.
pub open spec fn empty_state_view() -> SyncEngineStateView {
    SyncEngineStateView {
        pending_record_zone_changes: Seq::empty(),
        pending_database_changes: Seq::empty(),
        has_pending_untracked_changes: false,
        zone_ids_with_unfetched_server_changes: Seq::empty(),
    }
}

/// No list of the state names the same change or zone twice.
pub open spec fn state_lists_distinct(s: SyncEngineStateView) -> bool {
    &&& s.pending_record_zone_changes.no_duplicates()
    &&& s.pending_database_changes.no_duplicates()
    &&& s.zone_ids_with_unfetched_server_changes.no_duplicates()
}

/// Mirrors `CKSyncEngine.State`.
#[derive(Debug, PartialEq, Eq)]
pub struct CKSyncEngineState {
    pending_record_zone_changes: Vec<CKSyncEnginePendingRecordZoneChange>,
    pending_database_changes: Vec<CKSyncEnginePendingDatabaseChange>,
    has_pending_untracked_changes: bool,
    zone_ids_with_unfetched_server_changes: Vec<CKRecordZoneID>,
}

impl View for CKSyncEngineState {
    type V = SyncEngineStateView;

    closed spec fn view(&self) -> SyncEngineStateView {
        SyncEngineStateView {
            pending_record_zone_changes: views_of(self.pending_record_zone_changes@),
            pending_database_changes: views_of(self.pending_database_changes@),
            has_pending_untracked_changes: self.has_pending_untracked_changes,
            zone_ids_with_unfetched_server_changes: views_of(self.zone_ids_with_unfetched_server_changes@),
        }
    }
}

impl Clone for CKSyncEngineState {
    fn clone(&self) -> (r: Self)
        ensures
            r@ == self@,
    {
        proof { use_type_invariant(self); }
        CKSyncEngineState {
            pending_record_zone_changes: vec_copy(&self.pending_record_zone_changes),
            pending_database_changes: vec_copy(&self.pending_database_changes),
            has_pending_untracked_changes: self.has_pending_untracked_changes,
            zone_ids_with_unfetched_server_changes: vec_copy(&self.zone_ids_with_unfetched_server_changes),
        }
    }
}

impl Default for CKSyncEngineState {
    fn default() -> (r: Self)
        ensures
            r@ == empty_state_view(),
            state_lists_distinct(r@),
    {
        Self::new()
    }
}

impl CKSyncEngineState {
    /// No list of the state names the same change or zone twice.
    #[verifier::type_invariant]
    spec fn lists_distinct(self) -> bool {
        state_lists_distinct(self@)
    }

    /// The state of a new engine: nothing pending, nothing unfetched.
    pub fn new() -> (r: Self)
        ensures
            r@ == empty_state_view(),
            state_lists_distinct(r@),
    {
        let r = Self {
            pending_record_zone_changes: Vec::new(),
            pending_database_changes: Vec::new(),
            has_pending_untracked_changes: false,
            zone_ids_with_unfetched_server_changes: Vec::new(),
        };
        assert(views_of(r.pending_record_zone_changes@) =~= Seq::<PendingRecordZoneChangeView>::empty());
        assert(views_of(r.pending_database_changes@) =~= Seq::<PendingDatabaseChangeView>::empty());
        assert(views_of(r.zone_ids_with_unfetched_server_changes@) =~= Seq::<RecordZoneIdView>::empty());
        r
    }

    /// Mirrors `pendingRecordZoneChanges`.
    pub fn pending_record_zone_changes(&self) -> (r: &[CKSyncEnginePendingRecordZoneChange])
        ensures
            views_of(r@) == self@.pending_record_zone_changes,
            views_of(r@).no_duplicates(),
    {
        proof { use_type_invariant(self); }
        self.pending_record_zone_changes.as_slice()
    }

    /// Mirrors `pendingDatabaseChanges`.
    pub fn pending_database_changes(&self) -> (r: &[CKSyncEnginePendingDatabaseChange])
        ensures
            views_of(r@) == self@.pending_database_changes,
            views_of(r@).no_duplicates(),
    {
        proof { use_type_invariant(self); }
        self.pending_database_changes.as_slice()
    }

    /// Mirrors `hasPendingUntrackedChanges`.
    pub fn has_pending_untracked_changes(&self) -> (r: bool)
        ensures
            r == self@.has_pending_untracked_changes,
    {
        self.has_pending_untracked_changes
    }

    /// Mirrors `zoneIDsWithUnfetchedServerChanges`.
    pub fn zone_ids_with_unfetched_server_changes(&self) -> (r: &[CKRecordZoneID])
        ensures
            views_of(r@) == self@.zone_ids_with_unfetched_server_changes,
            views_of(r@).no_duplicates(),
    {
        proof { use_type_invariant(self); }
        self.zone_ids_with_unfetched_server_changes.as_slice()
    }

    /// Mirrors `add(pendingRecordZoneChanges:)` for one change: appended unless
    /// the same change is already pending.
    pub fn add_pending_record_zone_change(&mut self, pending_change: CKSyncEnginePendingRecordZoneChange)
        ensures
            final(self)@ == (SyncEngineStateView {
                pending_record_zone_changes: push_unique(old(self)@.pending_record_zone_changes, pending_change@),
                ..old(self)@
            }),
            state_lists_distinct(final(self)@),
    {
        proof { use_type_invariant(&*self); }
        let mut items = Vec::new();
        std::mem::swap(&mut items, &mut self.pending_record_zone_changes);
        vec_push_unique(&mut items, pending_change);
        proof {
            lemma_push_unique_no_duplicates(old(self)@.pending_record_zone_changes, pending_change@);
        }
        self.pending_record_zone_changes = items;
    }

    /// Mirrors `remove(pendingRecordZoneChanges:)` for one change: every pending
    /// change of that kind to that record goes, the others stay in order.
    pub fn remove_pending_record_zone_change(
        &mut self,
        record_id: &CKRecordID,
        change_type: CKSyncEnginePendingRecordZoneChangeType,
    )
        ensures
            final(self)@ == (SyncEngineStateView {
                pending_record_zone_changes: without(
                    old(self)@.pending_record_zone_changes,
                    PendingRecordZoneChangeView { record_id: record_id@, change_type },
                ),
                ..old(self)@
            }),
            state_lists_distinct(final(self)@),
    {
        let probe = CKSyncEnginePendingRecordZoneChange::new(record_id.clone(), change_type);
        proof { use_type_invariant(&*self); }
        let mut items = Vec::new();
        std::mem::swap(&mut items, &mut self.pending_record_zone_changes);
        vec_remove_equal(&mut items, &probe);
        proof {
            lemma_filter_no_duplicates(old(self)@.pending_record_zone_changes, differs_from(probe@));
        }
        self.pending_record_zone_changes = items;
    }

    /// Mirrors `add(pendingDatabaseChanges:)` for one change: appended unless
    /// the same change is already pending.
    pub fn add_pending_database_change(&mut self, pending_change: CKSyncEnginePendingDatabaseChange)
        ensures
            final(self)@ == (SyncEngineStateView {
                pending_database_changes: push_unique(old(self)@.pending_database_changes, pending_change@),
                ..old(self)@
            }),
            state_lists_distinct(final(self)@),
    {
        proof { use_type_invariant(&*self); }
        let mut items = Vec::new();
        std::mem::swap(&mut items, &mut self.pending_database_changes);
        vec_push_unique(&mut items, pending_change);
        proof {
            lemma_push_unique_no_duplicates(old(self)@.pending_database_changes, pending_change@);
        }
        self.pending_database_changes = items;
    }

    /// Mirrors `remove(pendingDatabaseChanges:)` for one change: every pending
    /// change of that kind to that zone goes, the others stay in order.
    pub fn remove_pending_database_change(
        &mut self,
        zone_id: &CKRecordZoneID,
        change_type: CKSyncEnginePendingDatabaseChangeType,
    )
        ensures
            final(self)@ == (SyncEngineStateView {
                pending_database_changes: without(
                    old(self)@.pending_database_changes,
                    PendingDatabaseChangeView { zone_id: zone_id@, change_type },
                ),
                ..old(self)@
            }),
            state_lists_distinct(final(self)@),
    {
        let probe = CKSyncEnginePendingDatabaseChange::new(zone_id.clone(), change_type);
        proof { use_type_invariant(&*self); }
        let mut items = Vec::new();
        std::mem::swap(&mut items, &mut self.pending_database_changes);
        vec_remove_equal(&mut items, &probe);
        proof {
            lemma_filter_no_duplicates(old(self)@.pending_database_changes, differs_from(probe@));
        }
        self.pending_database_changes = items;
    }

    /// Mirrors `hasPendingUntrackedChanges`'s setter.
    pub fn set_has_pending_untracked_changes(&mut self, has_pending_untracked_changes: bool)
        ensures
            final(self)@ == (SyncEngineStateView { has_pending_untracked_changes, ..old(self)@ }),
            state_lists_distinct(final(self)@),
    {
        proof { use_type_invariant(&*self); }
        self.has_pending_untracked_changes = has_pending_untracked_changes;
    }

    /// Records that a zone has server changes not yet fetched, unless it is already recorded.
    pub fn add_zone_id_with_unfetched_server_changes(&mut self, zone_id: CKRecordZoneID)
        ensures
            final(self)@ == (SyncEngineStateView {
                zone_ids_with_unfetched_server_changes: push_unique(old(self)@.zone_ids_with_unfetched_server_changes, zone_id@),
                ..old(self)@
            }),
            state_lists_distinct(final(self)@),
    {
        proof { use_type_invariant(&*self); }
        let mut items = Vec::new();
        std::mem::swap(&mut items, &mut self.zone_ids_with_unfetched_server_changes);
        vec_push_unique(&mut items, zone_id);
        proof {
            lemma_push_unique_no_duplicates(old(self)@.zone_ids_with_unfetched_server_changes, zone_id@);
        }
        self.zone_ids_with_unfetched_server_changes = items;
    }

    /// Forgets that a zone has server changes not yet fetched.
    pub fn remove_zone_id_with_unfetched_server_changes(&mut self, zone_id: &CKRecordZoneID)
        ensures
            final(self)@ == (SyncEngineStateView {
                zone_ids_with_unfetched_server_changes: without(old(self)@.zone_ids_with_unfetched_server_changes, zone_id@),
                ..old(self)@
            }),
            state_lists_distinct(final(self)@),
    {
        proof { use_type_invariant(&*self); }
        let mut items = Vec::new();
        std::mem::swap(&mut items, &mut self.zone_ids_with_unfetched_server_changes);
        vec_remove_equal(&mut items, zone_id);
        proof {
            lemma_filter_no_duplicates(old(self)@.zone_ids_with_unfetched_server_changes, differs_from(zone_id@));
        }
        self.zone_ids_with_unfetched_server_changes = items;
    }
}

// ---------------------------------------------------------------------------
// Change batches
// ---------------------------------------------------------------------------

/// The abstract content of a record change batch.
pub struct ChangeBatchView {
    pub pending_changes: Seq<PendingRecordZoneChangeView>,
    pub records_to_save: Seq<RecordView>,
    pub record_ids_to_delete: Seq<RecordIdView>,
    pub atomic_by_zone: bool,
}

/// Mirrors `CKSyncEngine.RecordZoneChangeBatch`.
#[derive(Debug, PartialEq)]
pub struct CKSyncEngineRecordZoneChangeBatch {
    pending_changes: Vec<CKSyncEnginePendingRecordZoneChange>,
    records_to_save: Vec<CKRecord>,
    record_ids_to_delete: Vec<CKRecordID>,
    atomic_by_zone: bool,
}

impl View for CKSyncEngineRecordZoneChangeBatch {
    type V = ChangeBatchView;

    closed spec fn view(&self) -> ChangeBatchView {
        ChangeBatchView {
            pending_changes: views_of(self.pending_changes@),
            records_to_save: views_of(self.records_to_save@),
            record_ids_to_delete: views_of(self.record_ids_to_delete@),
            atomic_by_zone: self.atomic_by_zone,
        }
    }
}

impl CKSyncEngineRecordZoneChangeBatch {
    /// A batch of records to save and to delete, with no pending changes named.
    pub fn new(records_to_save: Vec<CKRecord>, record_ids_to_delete: Vec<CKRecordID>, atomic_by_zone: bool) -> (r: Self)
        ensures
            r@ == (ChangeBatchView {
                pending_changes: Seq::empty(),
                records_to_save: views_of(records_to_save@),
                record_ids_to_delete: views_of(record_ids_to_delete@),
                atomic_by_zone,
            }),
    {
        let r = Self { pending_changes: Vec::new(), records_to_save, record_ids_to_delete, atomic_by_zone };
        assert(views_of(r.pending_changes@) =~= Seq::<PendingRecordZoneChangeView>::empty());
        r
    }

    /// A batch for the given pending changes, atomic by zone.
    pub fn from_pending_changes(
        pending_changes: Vec<CKSyncEnginePendingRecordZoneChange>,
        records_to_save: Vec<CKRecord>,
        record_ids_to_delete: Vec<CKRecordID>,
    ) -> (r: Self)
        ensures
            r@ == (ChangeBatchView {
                pending_changes: views_of(pending_changes@),
                records_to_save: views_of(records_to_save@),
                record_ids_to_delete: views_of(record_ids_to_delete@),
                atomic_by_zone: true,
            }),
    {
        Self { pending_changes, records_to_save, record_ids_to_delete, atomic_by_zone: true }
    }

    /// The pending changes the batch covers.
    pub fn pending_changes(&self) -> (r: &[CKSyncEnginePendingRecordZoneChange])
        ensures
            views_of(r@) == self@.pending_changes,
    {
        self.pending_changes.as_slice()
    }

    /// Mirrors `recordsToSave`.
    pub fn records_to_save(&self) -> (r: &[CKRecord])
        ensures
            views_of(r@) == self@.records_to_save,
    {
        self.records_to_save.as_slice()
    }

    /// Mirrors `recordIDsToDelete`.
    pub fn record_ids_to_delete(&self) -> (r: &[CKRecordID])
        ensures
            views_of(r@) == self@.record_ids_to_delete,
    {
        self.record_ids_to_delete.as_slice()
    }

    /// Mirrors `atomicByZone`.
    pub fn atomic_by_zone(&self) -> (r: bool)
        ensures
            r == self@.atomic_by_zone,
    {
        self.atomic_by_zone
    }

    /// The same batch, atomic by zone or not.
    pub fn with_atomic_by_zone(self, atomic_by_zone: bool) -> (r: Self)
        ensures
            r@ == (ChangeBatchView { atomic_by_zone, ..self@ }),
    {
        Self { atomic_by_zone, ..self }
    }
}

// ---------------------------------------------------------------------------
// Event kinds and the values events carry
// ---------------------------------------------------------------------------

/// Mirrors `CKSyncEngine.Event`'s kinds.
#[derive(Debug, Clone, Copy, PartialEq, Eq, Hash, Structural)]
#[non_exhaustive]
pub enum CKSyncEngineEventType {
    StateUpdate,
    AccountChange,
    FetchedDatabaseChanges,
    FetchedRecordZoneChanges,
    SentDatabaseChanges,
    SentRecordZoneChanges,
    WillFetchChanges,
    WillFetchRecordZoneChanges,
    DidFetchRecordZoneChanges,
    DidFetchChanges,
    WillSendChanges,
    DidSendChanges,
    Unknown(i32),
}

/// Mirrors `CKSyncEngine.Event.AccountChange.ChangeType`.
#[derive(Debug, Clone, Copy, PartialEq, Eq, Hash, Structural)]
#[non_exhaustive]
pub enum CKSyncEngineAccountChangeType {
    SignIn,
    SignOut,
    SwitchAccounts,
    Unknown(i32),
}

/// Mirrors `CKSyncEngine.Event.FetchedDatabaseChanges.Deletion.Reason`.
#[derive(Debug, Clone, Copy, PartialEq, Eq, Hash, Structural)]
#[non_exhaustive]
pub enum CKSyncEngineZoneDeletionReason {
    Deleted,
    Purged,
    EncryptedDataReset,
    Unknown(i32),
}

/// The abstract content of a fetched record deletion.
pub struct FetchedRecordDeletionView {
    pub record_id: RecordIdView,
    pub record_type: Seq<char>,
}

/// Mirrors `CKSyncEngine.Event.FetchedRecordZoneChanges.Deletion`.
#[derive(Debug, PartialEq, Eq, Hash)]
pub struct CKSyncEngineFetchedRecordDeletion {
    record_id: CKRecordID,
    record_type: String,
}

impl Clone for CKSyncEngineFetchedRecordDeletion {
    fn clone(&self) -> (r: Self)
        ensures
            r@ == self@,
    {
        CKSyncEngineFetchedRecordDeletion {
            record_id: self.record_id.copy_view(),
            record_type: self.record_type.clone(),
        }
    }
}


impl View for CKSyncEngineFetchedRecordDeletion {
    type V = FetchedRecordDeletionView;

    closed spec fn view(&self) -> FetchedRecordDeletionView {
        FetchedRecordDeletionView { record_id: self.record_id@, record_type: self.record_type@ }
    }
}

impl CKSyncEngineFetchedRecordDeletion {
    /// The deletion of a record of the given type.
    pub fn new(record_id: CKRecordID, record_type: &str) -> (r: Self)
        ensures
            r@ == (FetchedRecordDeletionView { record_id: record_id@, record_type: record_type@ }),
    {
        Self { record_id, record_type: owned(record_type) }
    }

    /// Mirrors `recordID`.
    pub fn record_id(&self) -> (r: &CKRecordID)
        ensures
            r@ == self@.record_id,
    {
        &self.record_id
    }

    /// Mirrors `recordType`.
    pub fn record_type(&self) -> (r: &str)
        ensures
            r@ == self@.record_type,
    {
        self.record_type.as_str()
    }
}

/// The abstract content of a fetched zone deletion.
pub struct FetchedZoneDeletionView {
    pub zone_id: RecordZoneIdView,
    pub reason: CKSyncEngineZoneDeletionReason,
}

/// Mirrors `CKSyncEngine.Event.FetchedDatabaseChanges.Deletion`.
#[derive(Debug, PartialEq, Eq, Hash)]
pub struct CKSyncEngineFetchedZoneDeletion {
    zone_id: CKRecordZoneID,
    reason: CKSyncEngineZoneDeletionReason,
}

impl Clone for CKSyncEngineFetchedZoneDeletion {
    fn clone(&self) -> (r: Self)
        ensures
            r@ == self@,
    {
        CKSyncEngineFetchedZoneDeletion {
            zone_id: self.zone_id.copy_view(),
            reason: self.reason,
        }
    }
}


impl View for CKSyncEngineFetchedZoneDeletion {
    type V = FetchedZoneDeletionView;

    closed spec fn view(&self) -> FetchedZoneDeletionView {
        FetchedZoneDeletionView { zone_id: self.zone_id@, reason: self.reason }
    }
}

impl CKSyncEngineFetchedZoneDeletion {
    /// The deletion of a zone for the given reason.
    pub fn new(zone_id: CKRecordZoneID, reason: CKSyncEngineZoneDeletionReason) -> (r: Self)
        ensures
            r@ == (FetchedZoneDeletionView { zone_id: zone_id@, reason }),
    {
        Self { zone_id, reason }
    }

    /// Mirrors `zoneID`.
    pub fn zone_id(&self) -> (r: &CKRecordZoneID)
        ensures
            r@ == self@.zone_id,
    {
        &self.zone_id
    }

    /// Mirrors `reason`.
    pub fn reason(&self) -> (r: CKSyncEngineZoneDeletionReason)
        ensures
            r == self@.reason,
    {
        self.reason
    }
}

/// The abstract content of a failure: the record that was not saved, and why.
pub struct FailedRecordSaveView {
    pub record: RecordView,
    pub error: ErrorView,
}

/// Mirrors `CKSyncEngine.Event.SentRecordZoneChanges.FailedRecordSave`.
#[derive(Debug, PartialEq)]
pub struct CKSyncEngineFailedRecordSave {
    record: CKRecord,
    error: CloudKitError,
}

impl Clone for CKSyncEngineFailedRecordSave {
    fn clone(&self) -> (r: Self)
        ensures
            r@ == self@,
    {
        CKSyncEngineFailedRecordSave {
            record: self.record.copy_view(),
            error: self.error.copy_view(),
        }
    }
}


impl View for CKSyncEngineFailedRecordSave {
    type V = FailedRecordSaveView;

    closed spec fn view(&self) -> FailedRecordSaveView {
        FailedRecordSaveView { record: self.record@, error: self.error@ }
    }
}

impl CKSyncEngineFailedRecordSave {
    /// The failure of the record, with its error.
    pub fn new(record: CKRecord, error: CloudKitError) -> (r: Self)
        ensures
            r@ == (FailedRecordSaveView { record: record@, error: error@ }),
    {
        Self { record, error }
    }

    /// The record that was not saved.
    pub fn record(&self) -> (r: &CKRecord)
        ensures
            r@ == self@.record,
    {
        &self.record
    }

    /// Why it failed.
    pub fn error(&self) -> (r: &CloudKitError)
        ensures
            r@ == self@.error,
    {
        &self.error
    }
}

/// The abstract content of a failure: the zone that was not saved, and why.
pub struct FailedZoneSaveView {
    pub record_zone: RecordZoneView,
    pub error: ErrorView,
}

/// Mirrors `CKSyncEngine.Event.SentDatabaseChanges.FailedZoneSave`.
#[derive(Debug, PartialEq)]
pub struct CKSyncEngineFailedZoneSave {
    record_zone: CKRecordZone,
    error: CloudKitError,
}

impl Clone for CKSyncEngineFailedZoneSave {
    fn clone(&self) -> (r: Self)
        ensures
            r@ == self@,
    {
        CKSyncEngineFailedZoneSave {
            record_zone: self.record_zone.copy_view(),
            error: self.error.copy_view(),
        }
    }
}


impl View for CKSyncEngineFailedZoneSave {
    type V = FailedZoneSaveView;

    closed spec fn view(&self) -> FailedZoneSaveView {
        FailedZoneSaveView { record_zone: self.record_zone@, error: self.error@ }
    }
}

impl CKSyncEngineFailedZoneSave {
    /// The failure of the zone, with its error.
    pub fn new(record_zone: CKRecordZone, error: CloudKitError) -> (r: Self)
        ensures
            r@ == (FailedZoneSaveView { record_zone: record_zone@, error: error@ }),
    {
        Self { record_zone, error }
    }

    /// The zone that was not saved.
    pub fn record_zone(&self) -> (r: &CKRecordZone)
        ensures
            r@ == self@.record_zone,
    {
        &self.record_zone
    }

    /// Why it failed.
    pub fn error(&self) -> (r: &CloudKitError)
        ensures
            r@ == self@.error,
    {
        &self.error
    }
}

/// The abstract content of a failure: the record that was not deleted, and why.
pub struct FailedRecordDeleteView {
    pub record_id: RecordIdView,
    pub error: ErrorView,
}

/// Mirrors a failed record deletion of `CKSyncEngine.Event.SentRecordZoneChanges`.
#[derive(Debug, PartialEq)]
pub struct CKSyncEngineFailedRecordDelete {
    record_id: CKRecordID,
    error: CloudKitError,
}

impl Clone for CKSyncEngineFailedRecordDelete {
    fn clone(&self) -> (r: Self)
        ensures
            r@ == self@,
    {
        CKSyncEngineFailedRecordDelete {
            record_id: self.record_id.copy_view(),
            error: self.error.copy_view(),
        }
    }
}


impl View for CKSyncEngineFailedRecordDelete {
    type V = FailedRecordDeleteView;

    closed spec fn view(&self) -> FailedRecordDeleteView {
        FailedRecordDeleteView { record_id: self.record_id@, error: self.error@ }
    }
}

impl CKSyncEngineFailedRecordDelete {
    /// The failure of the record, with its error.
    pub fn new(record_id: CKRecordID, error: CloudKitError) -> (r: Self)
        ensures
            r@ == (FailedRecordDeleteView { record_id: record_id@, error: error@ }),
    {
        Self { record_id, error }
    }

    /// The record that was not deleted.
    pub fn record_id(&self) -> (r: &CKRecordID)
        ensures
            r@ == self@.record_id,
    {
        &self.record_id
    }

    /// Why it failed.
    pub fn error(&self) -> (r: &CloudKitError)
        ensures
            r@ == self@.error,
    {
        &self.error
    }
}

/// The abstract content of a failure: the zone that was not deleted, and why.
pub struct FailedZoneDeleteView {
    pub zone_id: RecordZoneIdView,
    pub error: ErrorView,
}

/// Mirrors a failed zone deletion of `CKSyncEngine.Event.SentDatabaseChanges`.
#[derive(Debug, PartialEq)]
pub struct CKSyncEngineFailedZoneDelete {
    zone_id: CKRecordZoneID,
    error: CloudKitError,
}

impl Clone for CKSyncEngineFailedZoneDelete {
    fn clone(&self) -> (r: Self)
        ensures
            r@ == self@,
    {
        CKSyncEngineFailedZoneDelete {
            zone_id: self.zone_id.copy_view(),
            error: self.error.copy_view(),
        }
    }
}


impl View for CKSyncEngineFailedZoneDelete {
    type V = FailedZoneDeleteView;

    closed spec fn view(&self) -> FailedZoneDeleteView {
        FailedZoneDeleteView { zone_id: self.zone_id@, error: self.error@ }
    }
}

impl CKSyncEngineFailedZoneDelete {
    /// The failure of the zone, with its error.
    pub fn new(zone_id: CKRecordZoneID, error: CloudKitError) -> (r: Self)
        ensures
            r@ == (FailedZoneDeleteView { zone_id: zone_id@, error: error@ }),
    {
        Self { zone_id, error }
    }

    /// The zone that was not deleted.
    pub fn zone_id(&self) -> (r: &CKRecordZoneID)
        ensures
            r@ == self@.zone_id,
    {
        &self.zone_id
    }

    /// Why it failed.
    pub fn error(&self) -> (r: &CloudKitError)
        ensures
            r@ == self@.error,
    {
        &self.error
    }
}


// ---------------------------------------------------------------------------
// Events
// ---------------------------------------------------------------------------

/// Mirrors `CKSyncEngine.Event.StateUpdate`; its view is the serialized state.
#[derive(Debug, PartialEq, Eq)]
pub struct CKSyncEngineStateUpdateEvent {
    state_serialization: CKSyncEngineStateSerialization,
}

impl Clone for CKSyncEngineStateUpdateEvent {
    fn clone(&self) -> (r: Self)
        ensures
            r@ == self@,
    {
        CKSyncEngineStateUpdateEvent {
            state_serialization: self.state_serialization.copy_view(),
        }
    }
}


impl View for CKSyncEngineStateUpdateEvent {
    type V = Seq<u8>;

    closed spec fn view(&self) -> Seq<u8> {
        self.state_serialization@
    }
}

impl CKSyncEngineStateUpdateEvent {
    /// The event reporting a new serialized state.
    pub fn new(state_serialization: CKSyncEngineStateSerialization) -> (r: Self)
        ensures
            r@ == state_serialization@,
    {
        Self { state_serialization }
    }

    /// Mirrors `stateSerialization`.
    pub fn state_serialization(&self) -> (r: &CKSyncEngineStateSerialization)
        ensures
            r@ == self@,
    {
        &self.state_serialization
    }
}

/// The abstract content of an account change.
pub struct AccountChangeEventView {
    pub change_type: CKSyncEngineAccountChangeType,
    pub previous_user: Option<UserIdentityView>,
    pub current_user: Option<UserIdentityView>,
}

pub open spec fn user_option_view(u: Option<CKUserIdentity>) -> Option<UserIdentityView> {
    match u {
        Some(x) => Some(x@),
        None => None,
    }
}

/// Mirrors `CKSyncEngine.Event.AccountChange`.
#[derive(Debug, PartialEq, Eq)]
pub struct CKSyncEngineAccountChangeEvent {
    change_type: CKSyncEngineAccountChangeType,
    previous_user: Option<CKUserIdentity>,
    current_user: Option<CKUserIdentity>,
}

impl Clone for CKSyncEngineAccountChangeEvent {
    fn clone(&self) -> (r: Self)
        ensures
            r@ == self@,
    {
        CKSyncEngineAccountChangeEvent {
            change_type: self.change_type,
            previous_user: copy_option(&self.previous_user),
            current_user: copy_option(&self.current_user),
        }
    }
}


impl View for CKSyncEngineAccountChangeEvent {
    type V = AccountChangeEventView;

    closed spec fn view(&self) -> AccountChangeEventView {
        AccountChangeEventView {
            change_type: self.change_type,
            previous_user: user_option_view(self.previous_user),
            current_user: user_option_view(self.current_user),
        }
    }
}

impl CKSyncEngineAccountChangeEvent {
    /// An account change of the given kind, with no users named.
    pub fn new(change_type: CKSyncEngineAccountChangeType) -> (r: Self)
        ensures
            r@ == (AccountChangeEventView { change_type, previous_user: None, current_user: None }),
    {
        Self { change_type, previous_user: None, current_user: None }
    }

    /// Mirrors `changeType`.
    pub fn change_type(&self) -> (r: CKSyncEngineAccountChangeType)
        ensures
            r == self@.change_type,
    {
        self.change_type
    }

    /// Mirrors `previousUser`.
    pub fn previous_user(&self) -> (r: Option<&CKUserIdentity>)
        ensures
            r is Some <==> self@.previous_user is Some,
            r is Some ==> r->0@ == self@.previous_user->0,
    {
        match &self.previous_user {
            Some(u) => Some(u),
            None => None,
        }
    }

    /// Mirrors `currentUser`.
    pub fn current_user(&self) -> (r: Option<&CKUserIdentity>)
        ensures
            r is Some <==> self@.current_user is Some,
            r is Some ==> r->0@ == self@.current_user->0,
    {
        match &self.current_user {
            Some(u) => Some(u),
            None => None,
        }
    }

    /// The same event with the previous user named.
    pub fn with_previous_user(self, previous_user: CKUserIdentity) -> (r: Self)
        ensures
            r@ == (AccountChangeEventView { previous_user: Some(previous_user@), ..self@ }),
    {
        Self { previous_user: Some(previous_user), ..self }
    }

    /// The same event with the current user named.
    pub fn with_current_user(self, current_user: CKUserIdentity) -> (r: Self)
        ensures
            r@ == (AccountChangeEventView { current_user: Some(current_user@), ..self@ }),
    {
        Self { current_user: Some(current_user), ..self }
    }
}

/// The abstract content of fetched database changes.
pub struct FetchedDatabaseChangesView {
    pub modifications: Seq<RecordZoneView>,
    pub deletions: Seq<FetchedZoneDeletionView>,
}

/// Mirrors `CKSyncEngine.Event.FetchedDatabaseChanges`.
#[derive(Debug, PartialEq, Eq)]
pub struct CKSyncEngineFetchedDatabaseChangesEvent {
    modifications: Vec<CKRecordZone>,
    deletions: Vec<CKSyncEngineFetchedZoneDeletion>,
}

impl Clone for CKSyncEngineFetchedDatabaseChangesEvent {
    fn clone(&self) -> (r: Self)
        ensures
            r@ == self@,
    {
        CKSyncEngineFetchedDatabaseChangesEvent {
            modifications: copy_all(&self.modifications),
            deletions: copy_all(&self.deletions),
        }
    }
}


impl View for CKSyncEngineFetchedDatabaseChangesEvent {
    type V = FetchedDatabaseChangesView;

    closed spec fn view(&self) -> FetchedDatabaseChangesView {
        FetchedDatabaseChangesView { modifications: views_of(self.modifications@), deletions: views_of(self.deletions@) }
    }
}

impl CKSyncEngineFetchedDatabaseChangesEvent {
    /// The event reporting changed and deleted zones.
    pub fn new(modifications: Vec<CKRecordZone>, deletions: Vec<CKSyncEngineFetchedZoneDeletion>) -> (r: Self)
        ensures
            r@ == (FetchedDatabaseChangesView { modifications: views_of(modifications@), deletions: views_of(deletions@) }),
    {
        Self { modifications, deletions }
    }

    /// Mirrors `modifications`.
    pub fn modifications(&self) -> (r: &[CKRecordZone])
        ensures
            views_of(r@) == self@.modifications,
    {
        self.modifications.as_slice()
    }

    /// Mirrors `deletions`.
    pub fn deletions(&self) -> (r: &[CKSyncEngineFetchedZoneDeletion])
        ensures
            views_of(r@) == self@.deletions,
    {
        self.deletions.as_slice()
    }
}

/// The abstract content of fetched record changes.
pub struct FetchedRecordZoneChangesView {
    pub modifications: Seq<RecordView>,
    pub deletions: Seq<FetchedRecordDeletionView>,
}

/// Mirrors `CKSyncEngine.Event.FetchedRecordZoneChanges`.
#[derive(Debug, PartialEq)]
pub struct CKSyncEngineFetchedRecordZoneChangesEvent {
    modifications: Vec<CKRecord>,
    deletions: Vec<CKSyncEngineFetchedRecordDeletion>,
}

impl Clone for CKSyncEngineFetchedRecordZoneChangesEvent {
    fn clone(&self) -> (r: Self)
        ensures
            r@ == self@,
    {
        CKSyncEngineFetchedRecordZoneChangesEvent {
            modifications: copy_all(&self.modifications),
            deletions: copy_all(&self.deletions),
        }
    }
}


impl View for CKSyncEngineFetchedRecordZoneChangesEvent {
    type V = FetchedRecordZoneChangesView;

    closed spec fn view(&self) -> FetchedRecordZoneChangesView {
        FetchedRecordZoneChangesView { modifications: views_of(self.modifications@), deletions: views_of(self.deletions@) }
    }
}

impl CKSyncEngineFetchedRecordZoneChangesEvent {
    /// The event reporting changed and deleted records.
    pub fn new(modifications: Vec<CKRecord>, deletions: Vec<CKSyncEngineFetchedRecordDeletion>) -> (r: Self)
        ensures
            r@ == (FetchedRecordZoneChangesView { modifications: views_of(modifications@), deletions: views_of(deletions@) }),
    {
        Self { modifications, deletions }
    }

    /// Mirrors `modifications`.
    pub fn modifications(&self) -> (r: &[CKRecord])
        ensures
            views_of(r@) == self@.modifications,
    {
        self.modifications.as_slice()
    }

    /// Mirrors `deletions`.
    pub fn deletions(&self) -> (r: &[CKSyncEngineFetchedRecordDeletion])
        ensures
            views_of(r@) == self@.deletions,
    {
        self.deletions.as_slice()
    }
}

/// The abstract content of sent database changes.
pub struct SentDatabaseChangesView {
    pub saved_zones: Seq<RecordZoneView>,
    pub failed_zone_saves: Seq<FailedZoneSaveView>,
    pub deleted_zone_ids: Seq<RecordZoneIdView>,
    pub failed_zone_deletes: Seq<FailedZoneDeleteView>,
}

/// Mirrors `CKSyncEngine.Event.SentDatabaseChanges`.
#[derive(Debug, PartialEq)]
pub struct CKSyncEngineSentDatabaseChangesEvent {
    saved_zones: Vec<CKRecordZone>,
    failed_zone_saves: Vec<CKSyncEngineFailedZoneSave>,
    deleted_zone_ids: Vec<CKRecordZoneID>,
    failed_zone_deletes: Vec<CKSyncEngineFailedZoneDelete>,
}

impl Clone for CKSyncEngineSentDatabaseChangesEvent {
    fn clone(&self) -> (r: Self)
        ensures
            r@ == self@,
    {
        CKSyncEngineSentDatabaseChangesEvent {
            saved_zones: copy_all(&self.saved_zones),
            failed_zone_saves: copy_all(&self.failed_zone_saves),
            deleted_zone_ids: copy_all(&self.deleted_zone_ids),
            failed_zone_deletes: copy_all(&self.failed_zone_deletes),
        }
    }
}


impl View for CKSyncEngineSentDatabaseChangesEvent {
    type V = SentDatabaseChangesView;

    closed spec fn view(&self) -> SentDatabaseChangesView {
        SentDatabaseChangesView {
            saved_zones: views_of(self.saved_zones@),
            failed_zone_saves: views_of(self.failed_zone_saves@),
            deleted_zone_ids: views_of(self.deleted_zone_ids@),
            failed_zone_deletes: views_of(self.failed_zone_deletes@),
        }
    }
}

impl CKSyncEngineSentDatabaseChangesEvent {
    /// The event reporting the outcome of sent zone changes.
    pub fn new(
        saved_zones: Vec<CKRecordZone>,
        failed_zone_saves: Vec<CKSyncEngineFailedZoneSave>,
        deleted_zone_ids: Vec<CKRecordZoneID>,
        failed_zone_deletes: Vec<CKSyncEngineFailedZoneDelete>,
    ) -> (r: Self)
        ensures
            r@ == (SentDatabaseChangesView {
                saved_zones: views_of(saved_zones@),
                failed_zone_saves: views_of(failed_zone_saves@),
                deleted_zone_ids: views_of(deleted_zone_ids@),
                failed_zone_deletes: views_of(failed_zone_deletes@),
            }),
    {
        Self { saved_zones, failed_zone_saves, deleted_zone_ids, failed_zone_deletes }
    }

    /// Mirrors `savedZones`.
    pub fn saved_zones(&self) -> (r: &[CKRecordZone])
        ensures
            views_of(r@) == self@.saved_zones,
    {
        self.saved_zones.as_slice()
    }

    /// Mirrors `failedZoneSaves`.
    pub fn failed_zone_saves(&self) -> (r: &[CKSyncEngineFailedZoneSave])
        ensures
            views_of(r@) == self@.failed_zone_saves,
    {
        self.failed_zone_saves.as_slice()
    }

    /// Mirrors `deletedZoneIDs`.
    pub fn deleted_zone_ids(&self) -> (r: &[CKRecordZoneID])
        ensures
            views_of(r@) == self@.deleted_zone_ids,
    {
        self.deleted_zone_ids.as_slice()
    }

    /// Mirrors `failedZoneDeletes`.
    pub fn failed_zone_deletes(&self) -> (r: &[CKSyncEngineFailedZoneDelete])
        ensures
            views_of(r@) == self@.failed_zone_deletes,
    {
        self.failed_zone_deletes.as_slice()
    }
}

/// The abstract content of sent record changes.
pub struct SentRecordZoneChangesView {
    pub saved_records: Seq<RecordView>,
    pub failed_record_saves: Seq<FailedRecordSaveView>,
    pub deleted_record_ids: Seq<RecordIdView>,
    pub failed_record_deletes: Seq<FailedRecordDeleteView>,
}

/// Mirrors `CKSyncEngine.Event.SentRecordZoneChanges`.
#[derive(Debug, PartialEq)]
pub struct CKSyncEngineSentRecordZoneChangesEvent {
    saved_records: Vec<CKRecord>,
    failed_record_saves: Vec<CKSyncEngineFailedRecordSave>,
    deleted_record_ids: Vec<CKRecordID>,
    failed_record_deletes: Vec<CKSyncEngineFailedRecordDelete>,
}

impl Clone for CKSyncEngineSentRecordZoneChangesEvent {
    fn clone(&self) -> (r: Self)
        ensures
            r@ == self@,
    {
        CKSyncEngineSentRecordZoneChangesEvent {
            saved_records: copy_all(&self.saved_records),
            failed_record_saves: copy_all(&self.failed_record_saves),
            deleted_record_ids: copy_all(&self.deleted_record_ids),
            failed_record_deletes: copy_all(&self.failed_record_deletes),
        }
    }
}


impl View for CKSyncEngineSentRecordZoneChangesEvent {
    type V = SentRecordZoneChangesView;

    closed spec fn view(&self) -> SentRecordZoneChangesView {
        SentRecordZoneChangesView {
            saved_records: views_of(self.saved_records@),
            failed_record_saves: views_of(self.failed_record_saves@),
            deleted_record_ids: views_of(self.deleted_record_ids@),
            failed_record_deletes: views_of(self.failed_record_deletes@),
        }
    }
}

impl CKSyncEngineSentRecordZoneChangesEvent {
    /// The event reporting the outcome of sent record changes.
    pub fn new(
        saved_records: Vec<CKRecord>,
        failed_record_saves: Vec<CKSyncEngineFailedRecordSave>,
        deleted_record_ids: Vec<CKRecordID>,
        failed_record_deletes: Vec<CKSyncEngineFailedRecordDelete>,
    ) -> (r: Self)
        ensures
            r@ == (SentRecordZoneChangesView {
                saved_records: views_of(saved_records@),
                failed_record_saves: views_of(failed_record_saves@),
                deleted_record_ids: views_of(deleted_record_ids@),
                failed_record_deletes: views_of(failed_record_deletes@),
            }),
    {
        Self { saved_records, failed_record_saves, deleted_record_ids, failed_record_deletes }
    }

    /// Mirrors `savedRecords`.
    pub fn saved_records(&self) -> (r: &[CKRecord])
        ensures
            views_of(r@) == self@.saved_records,
    {
        self.saved_records.as_slice()
    }

    /// Mirrors `failedRecordSaves`.
    pub fn failed_record_saves(&self) -> (r: &[CKSyncEngineFailedRecordSave])
        ensures
            views_of(r@) == self@.failed_record_saves,
    {
        self.failed_record_saves.as_slice()
    }

    /// Mirrors `deletedRecordIDs`.
    pub fn deleted_record_ids(&self) -> (r: &[CKRecordID])
        ensures
            views_of(r@) == self@.deleted_record_ids,
    {
        self.deleted_record_ids.as_slice()
    }

    /// Mirrors `failedRecordDeletes`.
    pub fn failed_record_deletes(&self) -> (r: &[CKSyncEngineFailedRecordDelete])
        ensures
            views_of(r@) == self@.failed_record_deletes,
    {
        self.failed_record_deletes.as_slice()
    }
}

/// Mirrors `CKSyncEngine.Event.WillFetchRecordZoneChanges`; its view is the zone.
#[derive(Debug, PartialEq, Eq)]
pub struct CKSyncEngineWillFetchRecordZoneChangesEvent {
    zone_id: CKRecordZoneID,
}

impl Clone for CKSyncEngineWillFetchRecordZoneChangesEvent {
    fn clone(&self) -> (r: Self)
        ensures
            r@ == self@,
    {
        CKSyncEngineWillFetchRecordZoneChangesEvent {
            zone_id: self.zone_id.copy_view(),
        }
    }
}


impl View for CKSyncEngineWillFetchRecordZoneChangesEvent {
    type V = RecordZoneIdView;

    closed spec fn view(&self) -> RecordZoneIdView {
        self.zone_id@
    }
}

impl CKSyncEngineWillFetchRecordZoneChangesEvent {
    /// The event announcing a fetch of the zone's changes.
    pub fn new(zone_id: CKRecordZoneID) -> (r: Self)
        ensures
            r@ == zone_id@,
    {
        Self { zone_id }
    }

    /// Mirrors `zoneID`.
    pub fn zone_id(&self) -> (r: &CKRecordZoneID)
        ensures
            r@ == self@,
    {
        &self.zone_id
    }
}

/// The abstract content of a finished zone fetch.
pub struct DidFetchRecordZoneChangesView {
    pub zone_id: RecordZoneIdView,
    pub error: Option<ErrorView>,
}

pub open spec fn error_option_view(e: Option<CloudKitError>) -> Option<ErrorView> {
    match e {
        Some(x) => Some(x@),
        None => None,
    }
}

/// Mirrors `CKSyncEngine.Event.DidFetchRecordZoneChanges`.
#[derive(Debug, PartialEq)]
pub struct CKSyncEngineDidFetchRecordZoneChangesEvent {
    zone_id: CKRecordZoneID,
    error: Option<CloudKitError>,
}

impl Clone for CKSyncEngineDidFetchRecordZoneChangesEvent {
    fn clone(&self) -> (r: Self)
        ensures
            r@ == self@,
    {
        CKSyncEngineDidFetchRecordZoneChangesEvent {
            zone_id: self.zone_id.copy_view(),
            error: copy_option(&self.error),
        }
    }
}


impl View for CKSyncEngineDidFetchRecordZoneChangesEvent {
    type V = DidFetchRecordZoneChangesView;

    closed spec fn view(&self) -> DidFetchRecordZoneChangesView {
        DidFetchRecordZoneChangesView { zone_id: self.zone_id@, error: error_option_view(self.error) }
    }
}

impl CKSyncEngineDidFetchRecordZoneChangesEvent {
    /// The event reporting a finished fetch of the zone's changes, without error.
    pub fn new(zone_id: CKRecordZoneID) -> (r: Self)
        ensures
            r@ == (DidFetchRecordZoneChangesView { zone_id: zone_id@, error: None }),
    {
        Self { zone_id, error: None }
    }

    /// Mirrors `zoneID`.
    pub fn zone_id(&self) -> (r: &CKRecordZoneID)
        ensures
            r@ == self@.zone_id,
    {
        &self.zone_id
    }

    /// Mirrors `error`.
    pub fn error(&self) -> (r: Option<&CloudKitError>)
        ensures
            r is Some <==> self@.error is Some,
            r is Some ==> r->0@ == self@.error->0,
    {
        match &self.error {
            Some(e) => Some(e),
            None => None,
        }
    }

    /// The same event with the fetch's error.
    pub fn with_error(self, error: CloudKitError) -> (r: Self)
        ensures
            r@ == (DidFetchRecordZoneChangesView { error: Some(error@), ..self@ }),
    {
        Self { zone_id: self.zone_id, error: Some(error) }
    }
}

/// Mirrors `CKSyncEngine.Event.WillFetchChanges`; its view is the context.
#[derive(Debug, PartialEq)]
pub struct CKSyncEngineWillFetchChangesEvent {
    context: CKSyncEngineFetchChangesContext,
}

impl Clone for CKSyncEngineWillFetchChangesEvent {
    fn clone(&self) -> (r: Self)
        ensures
            r@ == self@,
    {
        CKSyncEngineWillFetchChangesEvent {
            context: self.context.copy_view(),
        }
    }
}


impl View for CKSyncEngineWillFetchChangesEvent {
    type V = FetchContextView;

    closed spec fn view(&self) -> FetchContextView {
        self.context@
    }
}

impl CKSyncEngineWillFetchChangesEvent {
    /// The event for the given context.
    pub fn new(context: CKSyncEngineFetchChangesContext) -> (r: Self)
        ensures
            r@ == context@,
    {
        Self { context }
    }

    /// Mirrors `context`.
    pub fn context(&self) -> (r: &CKSyncEngineFetchChangesContext)
        ensures
            r@ == self@,
    {
        &self.context
    }
}

/// Mirrors `CKSyncEngine.Event.DidFetchChanges`; its view is the context.
#[derive(Debug, PartialEq)]
pub struct CKSyncEngineDidFetchChangesEvent {
    context: CKSyncEngineFetchChangesContext,
}

impl Clone for CKSyncEngineDidFetchChangesEvent {
    fn clone(&self) -> (r: Self)
        ensures
            r@ == self@,
    {
        CKSyncEngineDidFetchChangesEvent {
            context: self.context.copy_view(),
        }
    }
}


impl View for CKSyncEngineDidFetchChangesEvent {
    type V = FetchContextView;

    closed spec fn view(&self) -> FetchContextView {
        self.context@
    }
}

impl CKSyncEngineDidFetchChangesEvent {
    /// The event for the given context.
    pub fn new(context: CKSyncEngineFetchChangesContext) -> (r: Self)
        ensures
            r@ == context@,
    {
        Self { context }
    }

    /// Mirrors `context`.
    pub fn context(&self) -> (r: &CKSyncEngineFetchChangesContext)
        ensures
            r@ == self@,
    {
        &self.context
    }
}

/// Mirrors `CKSyncEngine.Event.WillSendChanges`; its view is the context.
#[derive(Debug, PartialEq)]
pub struct CKSyncEngineWillSendChangesEvent {
    context: CKSyncEngineSendChangesContext,
}

impl Clone for CKSyncEngineWillSendChangesEvent {
    fn clone(&self) -> (r: Self)
        ensures
            r@ == self@,
    {
        CKSyncEngineWillSendChangesEvent {
            context: self.context.copy_view(),
        }
    }
}


impl View for CKSyncEngineWillSendChangesEvent {
    type V = SendContextView;

    closed spec fn view(&self) -> SendContextView {
        self.context@
    }
}

impl CKSyncEngineWillSendChangesEvent {
    /// The event for the given context.
    pub fn new(context: CKSyncEngineSendChangesContext) -> (r: Self)
        ensures
            r@ == context@,
    {
        Self { context }
    }

    /// Mirrors `context`.
    pub fn context(&self) -> (r: &CKSyncEngineSendChangesContext)
        ensures
            r@ == self@,
    {
        &self.context
    }
}

/// Mirrors `CKSyncEngine.Event.DidSendChanges`; its view is the context.
#[derive(Debug, PartialEq)]
pub struct CKSyncEngineDidSendChangesEvent {
    context: CKSyncEngineSendChangesContext,
}

impl Clone for CKSyncEngineDidSendChangesEvent {
    fn clone(&self) -> (r: Self)
        ensures
            r@ == self@,
    {
        CKSyncEngineDidSendChangesEvent {
            context: self.context.copy_view(),
        }
    }
}


impl View for CKSyncEngineDidSendChangesEvent {
    type V = SendContextView;

    closed spec fn view(&self) -> SendContextView {
        self.context@
    }
}

impl CKSyncEngineDidSendChangesEvent {
    /// The event for the given context.
    pub fn new(context: CKSyncEngineSendChangesContext) -> (r: Self)
        ensures
            r@ == context@,
    {
        Self { context }
    }

    /// Mirrors `context`.
    pub fn context(&self) -> (r: &CKSyncEngineSendChangesContext)
        ensures
            r@ == self@,
    {
        &self.context
    }
}


// ---------------------------------------------------------------------------
// The event sum
// ---------------------------------------------------------------------------

/// The abstract content of an engine event: its kind and what it carries.
pub enum SyncEngineEventView {
    StateUpdate(Seq<u8>),
    AccountChange(AccountChangeEventView),
    FetchedDatabaseChanges(FetchedDatabaseChangesView),
    FetchedRecordZoneChanges(FetchedRecordZoneChangesView),
    SentDatabaseChanges(SentDatabaseChangesView),
    SentRecordZoneChanges(SentRecordZoneChangesView),
    WillFetchChanges(FetchContextView),
    WillFetchRecordZoneChanges(RecordZoneIdView),
    DidFetchRecordZoneChanges(DidFetchRecordZoneChangesView),
    DidFetchChanges(FetchContextView),
    WillSendChanges(SendContextView),
    DidSendChanges(SendContextView),
}

/// The kind of an event.
pub open spec fn event_type_of(e: SyncEngineEventView) -> CKSyncEngineEventType {
    match e {
        SyncEngineEventView::StateUpdate(_) => CKSyncEngineEventType::StateUpdate,
        SyncEngineEventView::AccountChange(_) => CKSyncEngineEventType::AccountChange,
        SyncEngineEventView::FetchedDatabaseChanges(_) => CKSyncEngineEventType::FetchedDatabaseChanges,
        SyncEngineEventView::FetchedRecordZoneChanges(_) => CKSyncEngineEventType::FetchedRecordZoneChanges,
        SyncEngineEventView::SentDatabaseChanges(_) => CKSyncEngineEventType::SentDatabaseChanges,
        SyncEngineEventView::SentRecordZoneChanges(_) => CKSyncEngineEventType::SentRecordZoneChanges,
        SyncEngineEventView::WillFetchChanges(_) => CKSyncEngineEventType::WillFetchChanges,
        SyncEngineEventView::WillFetchRecordZoneChanges(_) => CKSyncEngineEventType::WillFetchRecordZoneChanges,
        SyncEngineEventView::DidFetchRecordZoneChanges(_) => CKSyncEngineEventType::DidFetchRecordZoneChanges,
        SyncEngineEventView::DidFetchChanges(_) => CKSyncEngineEventType::DidFetchChanges,
        SyncEngineEventView::WillSendChanges(_) => CKSyncEngineEventType::WillSendChanges,
        SyncEngineEventView::DidSendChanges(_) => CKSyncEngineEventType::DidSendChanges,
    }
}

#[derive(Debug, PartialEq)]
enum CKSyncEngineEventKind {
    StateUpdate(CKSyncEngineStateUpdateEvent),
    AccountChange(CKSyncEngineAccountChangeEvent),
    FetchedDatabaseChanges(CKSyncEngineFetchedDatabaseChangesEvent),
    FetchedRecordZoneChanges(CKSyncEngineFetchedRecordZoneChangesEvent),
    SentDatabaseChanges(CKSyncEngineSentDatabaseChangesEvent),
    SentRecordZoneChanges(CKSyncEngineSentRecordZoneChangesEvent),
    WillFetchChanges(CKSyncEngineWillFetchChangesEvent),
    WillFetchRecordZoneChanges(CKSyncEngineWillFetchRecordZoneChangesEvent),
    DidFetchRecordZoneChanges(CKSyncEngineDidFetchRecordZoneChangesEvent),
    DidFetchChanges(CKSyncEngineDidFetchChangesEvent),
    WillSendChanges(CKSyncEngineWillSendChangesEvent),
    DidSendChanges(CKSyncEngineDidSendChangesEvent),
}

/// Mirrors `CKSyncEngine.Event`.
#[derive(Debug, PartialEq)]
pub struct CKSyncEngineEvent {
    kind: CKSyncEngineEventKind,
}

impl Clone for CKSyncEngineEvent {
    fn clone(&self) -> (r: Self)
        ensures
            r@ == self@,
    {
        let kind = match &self.kind {
            CKSyncEngineEventKind::StateUpdate(e) => CKSyncEngineEventKind::StateUpdate(e.clone()),
            CKSyncEngineEventKind::AccountChange(e) => CKSyncEngineEventKind::AccountChange(e.clone()),
            CKSyncEngineEventKind::FetchedDatabaseChanges(e) => CKSyncEngineEventKind::FetchedDatabaseChanges(e.clone()),
            CKSyncEngineEventKind::FetchedRecordZoneChanges(e) => CKSyncEngineEventKind::FetchedRecordZoneChanges(e.clone()),
            CKSyncEngineEventKind::SentDatabaseChanges(e) => CKSyncEngineEventKind::SentDatabaseChanges(e.clone()),
            CKSyncEngineEventKind::SentRecordZoneChanges(e) => CKSyncEngineEventKind::SentRecordZoneChanges(e.clone()),
            CKSyncEngineEventKind::WillFetchChanges(e) => CKSyncEngineEventKind::WillFetchChanges(e.clone()),
            CKSyncEngineEventKind::WillFetchRecordZoneChanges(e) => CKSyncEngineEventKind::WillFetchRecordZoneChanges(e.clone()),
            CKSyncEngineEventKind::DidFetchRecordZoneChanges(e) => CKSyncEngineEventKind::DidFetchRecordZoneChanges(e.clone()),
            CKSyncEngineEventKind::DidFetchChanges(e) => CKSyncEngineEventKind::DidFetchChanges(e.clone()),
            CKSyncEngineEventKind::WillSendChanges(e) => CKSyncEngineEventKind::WillSendChanges(e.clone()),
            CKSyncEngineEventKind::DidSendChanges(e) => CKSyncEngineEventKind::DidSendChanges(e.clone()),
        };
        CKSyncEngineEvent { kind }
    }
}


impl View for CKSyncEngineEvent {
    type V = SyncEngineEventView;

    closed spec fn view(&self) -> SyncEngineEventView {
        match self.kind {
            CKSyncEngineEventKind::StateUpdate(e) => SyncEngineEventView::StateUpdate(e@),
            CKSyncEngineEventKind::AccountChange(e) => SyncEngineEventView::AccountChange(e@),
            CKSyncEngineEventKind::FetchedDatabaseChanges(e) => SyncEngineEventView::FetchedDatabaseChanges(e@),
            CKSyncEngineEventKind::FetchedRecordZoneChanges(e) => SyncEngineEventView::FetchedRecordZoneChanges(e@),
            CKSyncEngineEventKind::SentDatabaseChanges(e) => SyncEngineEventView::SentDatabaseChanges(e@),
            CKSyncEngineEventKind::SentRecordZoneChanges(e) => SyncEngineEventView::SentRecordZoneChanges(e@),
            CKSyncEngineEventKind::WillFetchChanges(e) => SyncEngineEventView::WillFetchChanges(e@),
            CKSyncEngineEventKind::WillFetchRecordZoneChanges(e) => SyncEngineEventView::WillFetchRecordZoneChanges(e@),
            CKSyncEngineEventKind::DidFetchRecordZoneChanges(e) => SyncEngineEventView::DidFetchRecordZoneChanges(e@),
            CKSyncEngineEventKind::DidFetchChanges(e) => SyncEngineEventView::DidFetchChanges(e@),
            CKSyncEngineEventKind::WillSendChanges(e) => SyncEngineEventView::WillSendChanges(e@),
            CKSyncEngineEventKind::DidSendChanges(e) => SyncEngineEventView::DidSendChanges(e@),
        }
    }
}

impl CKSyncEngineEvent {
    /// The kind of the event.
    pub fn event_type(&self) -> (r: CKSyncEngineEventType)
        ensures
            r == event_type_of(self@),
    {
        match &self.kind {
            CKSyncEngineEventKind::StateUpdate(_) => CKSyncEngineEventType::StateUpdate,
            CKSyncEngineEventKind::AccountChange(_) => CKSyncEngineEventType::AccountChange,
            CKSyncEngineEventKind::FetchedDatabaseChanges(_) => CKSyncEngineEventType::FetchedDatabaseChanges,
            CKSyncEngineEventKind::FetchedRecordZoneChanges(_) => CKSyncEngineEventType::FetchedRecordZoneChanges,
            CKSyncEngineEventKind::SentDatabaseChanges(_) => CKSyncEngineEventType::SentDatabaseChanges,
            CKSyncEngineEventKind::SentRecordZoneChanges(_) => CKSyncEngineEventType::SentRecordZoneChanges,
            CKSyncEngineEventKind::WillFetchChanges(_) => CKSyncEngineEventType::WillFetchChanges,
            CKSyncEngineEventKind::WillFetchRecordZoneChanges(_) => CKSyncEngineEventType::WillFetchRecordZoneChanges,
            CKSyncEngineEventKind::DidFetchRecordZoneChanges(_) => CKSyncEngineEventType::DidFetchRecordZoneChanges,
            CKSyncEngineEventKind::DidFetchChanges(_) => CKSyncEngineEventType::DidFetchChanges,
            CKSyncEngineEventKind::WillSendChanges(_) => CKSyncEngineEventType::WillSendChanges,
            CKSyncEngineEventKind::DidSendChanges(_) => CKSyncEngineEventType::DidSendChanges,
        }
    }

    /// The event as state update, if it is one.
    pub fn as_state_update(&self) -> (r: Option<&CKSyncEngineStateUpdateEvent>)
        ensures
            r is Some <==> self@ is StateUpdate,
            r is Some ==> self@ == SyncEngineEventView::StateUpdate(r->0@),
    {
        match &self.kind {
            CKSyncEngineEventKind::StateUpdate(event) => Some(event),
            _ => None,
        }
    }

    /// The event as account change, if it is one.
    pub fn as_account_change(&self) -> (r: Option<&CKSyncEngineAccountChangeEvent>)
        ensures
            r is Some <==> self@ is AccountChange,
            r is Some ==> self@ == SyncEngineEventView::AccountChange(r->0@),
    {
        match &self.kind {
            CKSyncEngineEventKind::AccountChange(event) => Some(event),
            _ => None,
        }
    }

    /// The event as fetched database changes, if it is one.
    pub fn as_fetched_database_changes(&self) -> (r: Option<&CKSyncEngineFetchedDatabaseChangesEvent>)
        ensures
            r is Some <==> self@ is FetchedDatabaseChanges,
            r is Some ==> self@ == SyncEngineEventView::FetchedDatabaseChanges(r->0@),
    {
        match &self.kind {
            CKSyncEngineEventKind::FetchedDatabaseChanges(event) => Some(event),
            _ => None,
        }
    }

    /// The event as fetched record zone changes, if it is one.
    pub fn as_fetched_record_zone_changes(&self) -> (r: Option<&CKSyncEngineFetchedRecordZoneChangesEvent>)
        ensures
            r is Some <==> self@ is FetchedRecordZoneChanges,
            r is Some ==> self@ == SyncEngineEventView::FetchedRecordZoneChanges(r->0@),
    {
        match &self.kind {
            CKSyncEngineEventKind::FetchedRecordZoneChanges(event) => Some(event),
            _ => None,
        }
    }

    /// The event as sent database changes, if it is one.
    pub fn as_sent_database_changes(&self) -> (r: Option<&CKSyncEngineSentDatabaseChangesEvent>)
        ensures
            r is Some <==> self@ is SentDatabaseChanges,
            r is Some ==> self@ == SyncEngineEventView::SentDatabaseChanges(r->0@),
    {
        match &self.kind {
            CKSyncEngineEventKind::SentDatabaseChanges(event) => Some(event),
            _ => None,
        }
    }

    /// The event as sent record zone changes, if it is one.
    pub fn as_sent_record_zone_changes(&self) -> (r: Option<&CKSyncEngineSentRecordZoneChangesEvent>)
        ensures
            r is Some <==> self@ is SentRecordZoneChanges,
            r is Some ==> self@ == SyncEngineEventView::SentRecordZoneChanges(r->0@),
    {
        match &self.kind {
            CKSyncEngineEventKind::SentRecordZoneChanges(event) => Some(event),
            _ => None,
        }
    }

    /// The event as will fetch changes, if it is one.
    pub fn as_will_fetch_changes(&self) -> (r: Option<&CKSyncEngineWillFetchChangesEvent>)
        ensures
            r is Some <==> self@ is WillFetchChanges,
            r is Some ==> self@ == SyncEngineEventView::WillFetchChanges(r->0@),
    {
        match &self.kind {
            CKSyncEngineEventKind::WillFetchChanges(event) => Some(event),
            _ => None,
        }
    }

    /// The event as will fetch record zone changes, if it is one.
    pub fn as_will_fetch_record_zone_changes(&self) -> (r: Option<&CKSyncEngineWillFetchRecordZoneChangesEvent>)
        ensures
            r is Some <==> self@ is WillFetchRecordZoneChanges,
            r is Some ==> self@ == SyncEngineEventView::WillFetchRecordZoneChanges(r->0@),
    {
        match &self.kind {
            CKSyncEngineEventKind::WillFetchRecordZoneChanges(event) => Some(event),
            _ => None,
        }
    }

    /// The event as did fetch record zone changes, if it is one.
    pub fn as_did_fetch_record_zone_changes(&self) -> (r: Option<&CKSyncEngineDidFetchRecordZoneChangesEvent>)
        ensures
            r is Some <==> self@ is DidFetchRecordZoneChanges,
            r is Some ==> self@ == SyncEngineEventView::DidFetchRecordZoneChanges(r->0@),
    {
        match &self.kind {
            CKSyncEngineEventKind::DidFetchRecordZoneChanges(event) => Some(event),
            _ => None,
        }
    }

    /// The event as did fetch changes, if it is one.
    pub fn as_did_fetch_changes(&self) -> (r: Option<&CKSyncEngineDidFetchChangesEvent>)
        ensures
            r is Some <==> self@ is DidFetchChanges,
            r is Some ==> self@ == SyncEngineEventView::DidFetchChanges(r->0@),
    {
        match &self.kind {
            CKSyncEngineEventKind::DidFetchChanges(event) => Some(event),
            _ => None,
        }
    }

    /// The event as will send changes, if it is one.
    pub fn as_will_send_changes(&self) -> (r: Option<&CKSyncEngineWillSendChangesEvent>)
        ensures
            r is Some <==> self@ is WillSendChanges,
            r is Some ==> self@ == SyncEngineEventView::WillSendChanges(r->0@),
    {
        match &self.kind {
            CKSyncEngineEventKind::WillSendChanges(event) => Some(event),
            _ => None,
        }
    }

    /// The event as did send changes, if it is one.
    pub fn as_did_send_changes(&self) -> (r: Option<&CKSyncEngineDidSendChangesEvent>)
        ensures
            r is Some <==> self@ is DidSendChanges,
            r is Some ==> self@ == SyncEngineEventView::DidSendChanges(r->0@),
    {
        match &self.kind {
            CKSyncEngineEventKind::DidSendChanges(event) => Some(event),
            _ => None,
        }
    }
}

impl From<CKSyncEngineStateUpdateEvent> for CKSyncEngineEvent {
    fn from(event: CKSyncEngineStateUpdateEvent) -> (r: Self)
        ensures
            r@ == SyncEngineEventView::StateUpdate(event@),
    {
        CKSyncEngineEvent { kind: CKSyncEngineEventKind::StateUpdate(event) }
    }
}

impl vstd::std_specs::convert::FromSpecImpl<CKSyncEngineStateUpdateEvent> for CKSyncEngineEvent {
    open spec fn obeys_from_spec() -> bool {
        true
    }

    closed spec fn from_spec(event: CKSyncEngineStateUpdateEvent) -> Self {
        CKSyncEngineEvent { kind: CKSyncEngineEventKind::StateUpdate(event) }
    }
}

impl From<CKSyncEngineAccountChangeEvent> for CKSyncEngineEvent {
    fn from(event: CKSyncEngineAccountChangeEvent) -> (r: Self)
        ensures
            r@ == SyncEngineEventView::AccountChange(event@),
    {
        CKSyncEngineEvent { kind: CKSyncEngineEventKind::AccountChange(event) }
    }
}

impl vstd::std_specs::convert::FromSpecImpl<CKSyncEngineAccountChangeEvent> for CKSyncEngineEvent {
    open spec fn obeys_from_spec() -> bool {
        true
    }

    closed spec fn from_spec(event: CKSyncEngineAccountChangeEvent) -> Self {
        CKSyncEngineEvent { kind: CKSyncEngineEventKind::AccountChange(event) }
    }
}

impl From<CKSyncEngineFetchedDatabaseChangesEvent> for CKSyncEngineEvent {
    fn from(event: CKSyncEngineFetchedDatabaseChangesEvent) -> (r: Self)
        ensures
            r@ == SyncEngineEventView::FetchedDatabaseChanges(event@),
    {
        CKSyncEngineEvent { kind: CKSyncEngineEventKind::FetchedDatabaseChanges(event) }
    }
}

impl vstd::std_specs::convert::FromSpecImpl<CKSyncEngineFetchedDatabaseChangesEvent> for CKSyncEngineEvent {
    open spec fn obeys_from_spec() -> bool {
        true
    }

    closed spec fn from_spec(event: CKSyncEngineFetchedDatabaseChangesEvent) -> Self {
        CKSyncEngineEvent { kind: CKSyncEngineEventKind::FetchedDatabaseChanges(event) }
    }
}

impl From<CKSyncEngineFetchedRecordZoneChangesEvent> for CKSyncEngineEvent {
    fn from(event: CKSyncEngineFetchedRecordZoneChangesEvent) -> (r: Self)
        ensures
            r@ == SyncEngineEventView::FetchedRecordZoneChanges(event@),
    {
        CKSyncEngineEvent { kind: CKSyncEngineEventKind::FetchedRecordZoneChanges(event) }
    }
}

impl vstd::std_specs::convert::FromSpecImpl<CKSyncEngineFetchedRecordZoneChangesEvent> for CKSyncEngineEvent {
    open spec fn obeys_from_spec() -> bool {
        true
    }

    closed spec fn from_spec(event: CKSyncEngineFetchedRecordZoneChangesEvent) -> Self {
        CKSyncEngineEvent { kind: CKSyncEngineEventKind::FetchedRecordZoneChanges(event) }
    }
}

impl From<CKSyncEngineSentDatabaseChangesEvent> for CKSyncEngineEvent {
    fn from(event: CKSyncEngineSentDatabaseChangesEvent) -> (r: Self)
        ensures
            r@ == SyncEngineEventView::SentDatabaseChanges(event@),
    {
        CKSyncEngineEvent { kind: CKSyncEngineEventKind::SentDatabaseChanges(event) }
    }
}

impl vstd::std_specs::convert::FromSpecImpl<CKSyncEngineSentDatabaseChangesEvent> for CKSyncEngineEvent {
    open spec fn obeys_from_spec() -> bool {
        true
    }

    closed spec fn from_spec(event: CKSyncEngineSentDatabaseChangesEvent) -> Self {
        CKSyncEngineEvent { kind: CKSyncEngineEventKind::SentDatabaseChanges(event) }
    }
}

impl From<CKSyncEngineSentRecordZoneChangesEvent> for CKSyncEngineEvent {
    fn from(event: CKSyncEngineSentRecordZoneChangesEvent) -> (r: Self)
        ensures
            r@ == SyncEngineEventView::SentRecordZoneChanges(event@),
    {
        CKSyncEngineEvent { kind: CKSyncEngineEventKind::SentRecordZoneChanges(event) }
    }
}

impl vstd::std_specs::convert::FromSpecImpl<CKSyncEngineSentRecordZoneChangesEvent> for CKSyncEngineEvent {
    open spec fn obeys_from_spec() -> bool {
        true
    }

    closed spec fn from_spec(event: CKSyncEngineSentRecordZoneChangesEvent) -> Self {
        CKSyncEngineEvent { kind: CKSyncEngineEventKind::SentRecordZoneChanges(event) }
    }
}

impl From<CKSyncEngineWillFetchChangesEvent> for CKSyncEngineEvent {
    fn from(event: CKSyncEngineWillFetchChangesEvent) -> (r: Self)
        ensures
            r@ == SyncEngineEventView::WillFetchChanges(event@),
    {
        CKSyncEngineEvent { kind: CKSyncEngineEventKind::WillFetchChanges(event) }
    }
}

impl vstd::std_specs::convert::FromSpecImpl<CKSyncEngineWillFetchChangesEvent> for CKSyncEngineEvent {
    open spec fn obeys_from_spec() -> bool {
        true
    }

    closed spec fn from_spec(event: CKSyncEngineWillFetchChangesEvent) -> Self {
        CKSyncEngineEvent { kind: CKSyncEngineEventKind::WillFetchChanges(event) }
    }
}

impl From<CKSyncEngineWillFetchRecordZoneChangesEvent> for CKSyncEngineEvent {
    fn from(event: CKSyncEngineWillFetchRecordZoneChangesEvent) -> (r: Self)
        ensures
            r@ == SyncEngineEventView::WillFetchRecordZoneChanges(event@),
    {
        CKSyncEngineEvent { kind: CKSyncEngineEventKind::WillFetchRecordZoneChanges(event) }
    }
}

impl vstd::std_specs::convert::FromSpecImpl<CKSyncEngineWillFetchRecordZoneChangesEvent> for CKSyncEngineEvent {
    open spec fn obeys_from_spec() -> bool {
        true
    }

    closed spec fn from_spec(event: CKSyncEngineWillFetchRecordZoneChangesEvent) -> Self {
        CKSyncEngineEvent { kind: CKSyncEngineEventKind::WillFetchRecordZoneChanges(event) }
    }
}

impl From<CKSyncEngineDidFetchRecordZoneChangesEvent> for CKSyncEngineEvent {
    fn from(event: CKSyncEngineDidFetchRecordZoneChangesEvent) -> (r: Self)
        ensures
            r@ == SyncEngineEventView::DidFetchRecordZoneChanges(event@),
    {
        CKSyncEngineEvent { kind: CKSyncEngineEventKind::DidFetchRecordZoneChanges(event) }
    }
}

impl vstd::std_specs::convert::FromSpecImpl<CKSyncEngineDidFetchRecordZoneChangesEvent> for CKSyncEngineEvent {
    open spec fn obeys_from_spec() -> bool {
        true
    }

    closed spec fn from_spec(event: CKSyncEngineDidFetchRecordZoneChangesEvent) -> Self {
        CKSyncEngineEvent { kind: CKSyncEngineEventKind::DidFetchRecordZoneChanges(event) }
    }
}

impl From<CKSyncEngineDidFetchChangesEvent> for CKSyncEngineEvent {
    fn from(event: CKSyncEngineDidFetchChangesEvent) -> (r: Self)
        ensures
            r@ == SyncEngineEventView::DidFetchChanges(event@),
    {
        CKSyncEngineEvent { kind: CKSyncEngineEventKind::DidFetchChanges(event) }
    }
}

impl vstd::std_specs::convert::FromSpecImpl<CKSyncEngineDidFetchChangesEvent> for CKSyncEngineEvent {
    open spec fn obeys_from_spec() -> bool {
        true
    }

    closed spec fn from_spec(event: CKSyncEngineDidFetchChangesEvent) -> Self {
        CKSyncEngineEvent { kind: CKSyncEngineEventKind::DidFetchChanges(event) }
    }
}

impl From<CKSyncEngineWillSendChangesEvent> for CKSyncEngineEvent {
    fn from(event: CKSyncEngineWillSendChangesEvent) -> (r: Self)
        ensures
            r@ == SyncEngineEventView::WillSendChanges(event@),
    {
        CKSyncEngineEvent { kind: CKSyncEngineEventKind::WillSendChanges(event) }
    }
}

impl vstd::std_specs::convert::FromSpecImpl<CKSyncEngineWillSendChangesEvent> for CKSyncEngineEvent {
    open spec fn obeys_from_spec() -> bool {
        true
    }

    closed spec fn from_spec(event: CKSyncEngineWillSendChangesEvent) -> Self {
        CKSyncEngineEvent { kind: CKSyncEngineEventKind::WillSendChanges(event) }
    }
}

impl From<CKSyncEngineDidSendChangesEvent> for CKSyncEngineEvent {
    fn from(event: CKSyncEngineDidSendChangesEvent) -> (r: Self)
        ensures
            r@ == SyncEngineEventView::DidSendChanges(event@),
    {
        CKSyncEngineEvent { kind: CKSyncEngineEventKind::DidSendChanges(event) }
    }
}

impl vstd::std_specs::convert::FromSpecImpl<CKSyncEngineDidSendChangesEvent> for CKSyncEngineEvent {
    open spec fn obeys_from_spec() -> bool {
        true
    }

    closed spec fn from_spec(event: CKSyncEngineDidSendChangesEvent) -> Self {
        CKSyncEngineEvent { kind: CKSyncEngineEventKind::DidSendChanges(event) }
    }
}

} // verus!
