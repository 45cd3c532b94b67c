//! Queries: a record type, a predicate and the sort order of the results.
use vstd::prelude::*;

use crate::payload::{CKQueryPayload, SortDescriptorPayload};
use crate::text::owned;

verus! {

/// The abstract content of a sort descriptor.
pub struct SortDescriptorView {
    pub key: Seq<char>,
    pub ascending: bool,
}

/// Mirrors an entry of `CKQuery.sortDescriptors`.
#[derive(Debug, PartialEq, Eq, Hash)]
pub struct SortDescriptor {
    key: String,
    ascending: bool,
}

impl View for SortDescriptor {
    type V = SortDescriptorView;

    closed spec fn view(&self) -> SortDescriptorView {
        SortDescriptorView { key: self.key@, ascending: self.ascending }
    }
}

impl Clone for SortDescriptor {
    fn clone(&self) -> (r: Self)
        ensures
            r@ == self@,
    {
        SortDescriptor { key: self.key.clone(), ascending: self.ascending }
    }
}

pub open spec fn sort_descriptor_payload_view(p: SortDescriptorPayload) -> SortDescriptorView {
    SortDescriptorView { key: p.key@, ascending: p.ascending }
}

impl SortDescriptor {
    /// Orders by `key`, ascending or descending.
    pub fn new(key: &str, ascending: bool) -> (r: Self)
        ensures
            r@ == (SortDescriptorView { key: key@, ascending }),
    {
        Self { key: owned(key), ascending }
    }

    /// The field the results are ordered by.
    pub fn key(&self) -> (r: &str)
        ensures
            r@ == self@.key,
    {
        self.key.as_str()
    }

    /// Whether the order is ascending.
    pub fn ascending(&self) -> (r: bool)
        ensures
            r == self@.ascending,
    {
        self.ascending
    }

    /// The bridge payload of the descriptor.
    pub fn to_payload(&self) -> (r: SortDescriptorPayload)
        ensures
            sort_descriptor_payload_view(r) == self@,
    {
        SortDescriptorPayload { key: self.key.clone(), ascending: self.ascending }
    }
}

/// The views of a list of sort descriptors.
pub open spec fn sort_descriptors_view(s: Seq<SortDescriptor>) -> Seq<SortDescriptorView> {
    Seq::new(s.len(), |i: int| s[i]@)
}

/// The views of a list of sort descriptor payloads.
pub open spec fn sort_descriptor_payloads_view(s: Seq<SortDescriptorPayload>) -> Seq<SortDescriptorView> {
    Seq::new(s.len(), |i: int| sort_descriptor_payload_view(s[i]))
}

/// The abstract content of a query.
pub struct QueryView {
    pub record_type: Seq<char>,
    pub predicate_format: Seq<char>,
    pub sort_descriptors: Seq<SortDescriptorView>,
}

/// The predicate text that matches every record.
pub const TRUE_PREDICATE: &'static str = "TRUEPREDICATE";

/// Mirrors `CKQuery`.
#[derive(Debug, PartialEq, Eq, Hash)]
pub struct CKQuery {
    record_type: String,
    predicate_format: String,
    sort_descriptors: Vec<SortDescriptor>,
}

impl View for CKQuery {
    type V = QueryView;

    closed spec fn view(&self) -> QueryView {
        QueryView {
            record_type: self.record_type@,
            predicate_format: self.predicate_format@,
            sort_descriptors: sort_descriptors_view(self.sort_descriptors@),
        }
    }
}

/// Copies a list of sort descriptors.
pub fn copy_sort_descriptors(v: &Vec<SortDescriptor>) -> (r: Vec<SortDescriptor>)
    ensures
        sort_descriptors_view(r@) == sort_descriptors_view(v@),
{
    let mut out: Vec<SortDescriptor> = Vec::new();
    let mut i: usize = 0;
    while i < v.len()
        invariant
            i <= v@.len(),
            out@.len() == i,
            forall|j: int| 0 <= j < i ==> #[trigger] out@[j]@ == v@[j]@,
        decreases v@.len() - i,
    {
        out.push(v[i].clone());
        i = i + 1;
    }
    assert(sort_descriptors_view(out@) =~= sort_descriptors_view(v@));
    out
}

impl Clone for CKQuery {
    fn clone(&self) -> (r: Self)
        ensures
            r@ == self@,
    {
        CKQuery {
            record_type: self.record_type.clone(),
            predicate_format: self.predicate_format.clone(),
            sort_descriptors: copy_sort_descriptors(&self.sort_descriptors),
        }
    }
}

pub open spec fn query_payload_view(p: CKQueryPayload) -> QueryView {
    QueryView {
        record_type: p.record_type@,
        predicate_format: p.predicate_format@,
        sort_descriptors: sort_descriptor_payloads_view(p.sort_descriptors@),
    }
}

impl CKQuery {
    /// A query for records of `record_type` matching the predicate, unsorted.
    pub fn new(record_type: &str, predicate_format: &str) -> (r: Self)
        ensures
            r@ == (QueryView {
                record_type: record_type@,
                predicate_format: predicate_format@,
                sort_descriptors: Seq::empty(),
            }),
    {
        let r = Self { record_type: owned(record_type), predicate_format: owned(predicate_format), sort_descriptors: Vec::new() };
        assert(sort_descriptors_view(r.sort_descriptors@) =~= Seq::empty());
        r
    }

    /// A query for every record of `record_type`.
    pub fn match_all(record_type: &str) -> (r: Self)
        ensures
            r@ == (QueryView {
                record_type: record_type@,
                predicate_format: TRUE_PREDICATE@,
                sort_descriptors: Seq::empty(),
            }),
    {
        Self::new(record_type, TRUE_PREDICATE)
    }

    /// Mirrors `CKQuery.recordType`.
    pub fn record_type(&self) -> (r: &str)
        ensures
            r@ == self@.record_type,
    {
        self.record_type.as_str()
    }

    /// Mirrors `CKQuery.predicate`.
    pub fn predicate_format(&self) -> (r: &str)
        ensures
            r@ == self@.predicate_format,
    {
        self.predicate_format.as_str()
    }

    /// Mirrors `CKQuery.sortDescriptors`.
    pub fn sort_descriptors(&self) -> (r: &[SortDescriptor])
        ensures
            sort_descriptors_view(r@) == self@.sort_descriptors,
    {
        self.sort_descriptors.as_slice()
    }

    /// The same query with one more sort descriptor after the others.
    pub fn with_sort_descriptor(self, descriptor: SortDescriptor) -> (r: Self)
        ensures
            r@ == (QueryView { sort_descriptors: self@.sort_descriptors.push(descriptor@), ..self@ }),
    {
        let mut sort_descriptors = self.sort_descriptors;
        let ghost before = sort_descriptors@;
        sort_descriptors.push(descriptor);
        assert(sort_descriptors_view(sort_descriptors@) =~= sort_descriptors_view(before).push(descriptor@));
        Self { record_type: self.record_type, predicate_format: self.predicate_format, sort_descriptors }
    }

    /// Replaces the sort descriptors.
    pub fn set_sort_descriptors(&mut self, descriptors: Vec<SortDescriptor>)
        ensures
            final(self)@ == (QueryView { sort_descriptors: sort_descriptors_view(descriptors@), ..old(self)@ }),
    {
        self.sort_descriptors = descriptors;
    }

    /// The bridge payload of the query.
    pub fn to_payload(&self) -> (r: CKQueryPayload)
        ensures
            query_payload_view(r) == self@,
    {
        let mut sort_descriptors: Vec<SortDescriptorPayload> = Vec::new();
        let mut i: usize = 0;
        while i < self.sort_descriptors.len()
            invariant
                i <= self.sort_descriptors@.len(),
                sort_descriptors@.len() == i,
                forall|j: int| 0 <= j < i ==>
                    sort_descriptor_payload_view(#[trigger] sort_descriptors@[j]) == self.sort_descriptors@[j]@,
            decreases self.sort_descriptors@.len() - i,
        {
            sort_descriptors.push(self.sort_descriptors[i].to_payload());
            i = i + 1;
        }
        let r = CKQueryPayload {
            record_type: self.record_type.clone(),
            predicate_format: self.predicate_format.clone(),
            sort_descriptors,
        };
        assert(sort_descriptor_payloads_view(r.sort_descriptors@) =~= sort_descriptors_view(self.sort_descriptors@));
        r
    }
}

} // verus!
