//! The result-set adapter: owned search hits out of a native result set,
//! with a guaranteed release of the native memory.
//!
//! A successful native search produces a result set: a batch of rows, each
//! carrying a binary identifier and a tagged value. What the row queries
//! report is modeled as [`ResultRow`] values held by a [`ResultSet`], which
//! also tracks whether its native memory has been released. The adapter
//! walks the rows in native order — the engine, not this layer, defines the
//! ranking — and releases the set exactly once before returning, so that no
//! native reference outlives the call.

use vstd::prelude::*;

use crate::ident::encode;
use crate::ident::hex_encoded;
use crate::value::decode;
use crate::value::similarity_of;
use crate::value::spec_decode;
use crate::value::spec_similarity;
use crate::value::NativeValue;

verus! {

/// One row of a native result set, as the row queries report it: the row's
/// binary identifier and its tagged value.
#[derive(Debug)]
pub struct ResultRow {
    pub id: Vec<u8>,
    pub value: NativeValue,
}

/// One search hit: an identifier in its textual form and the similarity the
/// engine reported for it, as 32-bit float bits. Immutable after
/// construction and owned solely by the caller.
#[derive(Debug)]
pub struct OtamaResult {
    id: String,
    similarity: u32,
}

/// The mathematical content of a search hit.
pub struct HitModel {
    pub id: Seq<char>,
    pub similarity: u32,
}

impl View for OtamaResult {
    type V = HitModel;

    closed spec fn view(&self) -> HitModel {
        HitModel { id: self.id@, similarity: self.similarity }
    }
}

impl OtamaResult {
    /// The hit's identifier, as lowercase hex text.
    pub fn id(&self) -> (r: &String)
        ensures
            r@ == self@.id,
    {
        &self.id
    }

    /// The hit's similarity, as the bit pattern of a 32-bit float.
    pub fn similarity(&self) -> (r: u32)
        ensures
            r == self@.similarity,
    {
        self.similarity
    }
}

/// The textual identifier a row yields: its binary identifier, hex-encoded.
pub open spec fn spec_hit_id(row: ResultRow) -> Seq<char> {
    hex_encoded(row.id@)
}

/// The similarity a row yields: read from its decoded value's "similarity"
/// entry, with the degraded default where that entry is missing or not a
/// float.
pub open spec fn spec_hit_sim(row: ResultRow) -> u32 {
    spec_similarity(spec_decode(row.value))
}

/// Exclusive ownership of one native result set: the rows the native side
/// reports, and whether the native memory has been released. Produced only
/// by a successful search; must be released exactly once, and nothing can be
/// read from it afterwards.
#[derive(Debug)]
pub struct ResultSet {
    rows: Vec<ResultRow>,
    released: bool,
}

impl ResultSet {
    /// The rows the native side reports for this set.
    pub closed spec fn spec_rows(&self) -> Seq<ResultRow> {
        self.rows@
    }

    /// Whether the native memory behind this set has been released.
    pub closed spec fn spec_released(&self) -> bool {
        self.released
    }

    /// A fresh result set, as a successful native search call hands it over.
    pub fn new(rows: Vec<ResultRow>) -> (rs: ResultSet)
        ensures
            rs.spec_rows() == rows@,
            !rs.spec_released(),
    {
        ResultSet { rows, released: false }
    }

    /// The row count the native side reports. The adapter goes by this
    /// count, never by what was requested.
    pub fn row_count(&self) -> (n: usize)
        requires
            !self.spec_released(),
        ensures
            n == self.spec_rows().len(),
    {
        self.rows.len()
    }

    /// Release the native memory behind this set. Happens exactly once in
    /// the set's life: only a set not yet released can be released, and its
    /// rows are gone afterwards.
    pub fn release(&mut self)
        requires
            !old(self).spec_released(),
        ensures
            final(self).spec_released(),
            final(self).spec_rows().len() == 0,
    {
        self.rows = Vec::new();
        self.released = true;
    }

    /// Whether this set has been released.
    pub fn is_released(&self) -> (b: bool)
        ensures
            b == self.spec_released(),
    {
        self.released
    }
}

/// Adapt a native result set into owned search hits.
///
/// Rows are visited in native order, assumed best-match-first: each yields a
/// hit holding its hex-encoded identifier and the similarity read from its
/// decoded value. The set is released exactly once before control returns,
/// so the hits carry no native reference.
#[verifier::loop_isolation(false)]
pub fn adapt(rs: &mut ResultSet) -> (hits: Vec<OtamaResult>)
    requires
        !old(rs).spec_released(),
    ensures
        final(rs).spec_released(),
        hits@.len() == old(rs).spec_rows().len(),
        forall|i: int|
            0 <= i < hits@.len() ==> (#[trigger] hits@[i])@.id == spec_hit_id(
                old(rs).spec_rows()[i],
            ) && hits@[i]@.similarity == spec_hit_sim(old(rs).spec_rows()[i]),
{
    let n = rs.row_count();
    let mut hits: Vec<OtamaResult> = Vec::new();
    let mut i: usize = 0;
    while i < n
        invariant
            *rs == *old(rs),
            i <= n,
            hits@.len() == i,
            forall|j: int|
                0 <= j < i ==> (#[trigger] hits@[j])@.id == spec_hit_id(rs.spec_rows()[j])
                    && hits@[j]@.similarity == spec_hit_sim(rs.spec_rows()[j]),
        decreases n - i,
    {
        let row = &rs.rows[i];
        let id_text = encode(row.id.as_slice());
        let decoded = decode(&row.value);
        let sim = similarity_of(&decoded);
        hits.push(OtamaResult { id: id_text, similarity: sim });
        i = i + 1;
    }
    rs.release();
    hits
}

} // verus!
