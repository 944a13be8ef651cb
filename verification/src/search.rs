//! The text search over listings: the request it makes and how its answer
//! is read.

use vstd::prelude::*;

use crate::ids::{parse_uuid, uuid_from_text};
use crate::text::{natural_text, trim_text, trimmed, u64_to_text};

verus! {

/// The collection of the vector database that holds listings.
pub const LISTINGS_COLLECTION: &'static str = "listings";
/// The named vector that holds a listing's text embedding.
pub const TEXT_VECTOR: &'static str = "text";
/// The named vector that holds a listing's picture embeddings.
pub const IMAGE_VECTOR: &'static str = "image";
/// How many listings the text vector search proposes.
pub const TEXT_CANDIDATES: u64 = 100;
/// How many listings the picture vector search proposes.
pub const IMAGE_CANDIDATES: u64 = 50;
/// How many listings the fused ranking keeps.
pub const FUSED_LIMIT: u64 = 50;

/// How the candidate lists of a hybrid search are merged into one ranking.
#[derive(Clone, Copy, Debug, PartialEq, Eq, Structural)]
pub enum FusionKind {
    /// Reciprocal rank fusion: each listing scores by the ranks it holds.
    ReciprocalRank,
    /// Distribution-based score fusion: scores are normalized and summed.
    DistributionBased,
}

/// A hybrid search request: the embedding of the query text is matched
/// against both named vectors, the two candidate lists are fused by
/// reciprocal rank, and listings are kept only in the named country.
pub struct HybridSearch {
    pub collection: &'static str,
    pub text_vector: &'static str,
    pub text_limit: u64,
    pub image_vector: &'static str,
    pub image_limit: u64,
    pub limit: u64,
    pub fusion: FusionKind,
    /// Whether the points come back with their payloads.
    pub with_payload: bool,
    pub country: Option<String>,
}

/// Plans the hybrid search for a country; a blank country filters nothing.
pub fn hybrid_search_plan(country: &String) -> (res: HybridSearch)
    ensures
        res.collection@ == LISTINGS_COLLECTION@,
        res.text_vector@ == TEXT_VECTOR@,
        res.image_vector@ == IMAGE_VECTOR@,
        res.text_limit == TEXT_CANDIDATES,
        res.image_limit == IMAGE_CANDIDATES,
        res.limit == FUSED_LIMIT,
        res.fusion == FusionKind::ReciprocalRank,
        res.with_payload,
        trimmed(country@).len() > 0 ==> (res.country matches Some(c) && c@ == country@),
        trimmed(country@).len() == 0 ==> res.country is None,
{
    let t = trim_text(country.as_str());
    let filter = if t.unicode_len() > 0 {
        Some(country.clone())
    } else {
        None
    };
    HybridSearch {
        collection: LISTINGS_COLLECTION,
        text_vector: TEXT_VECTOR,
        text_limit: TEXT_CANDIDATES,
        image_vector: IMAGE_VECTOR,
        image_limit: IMAGE_CANDIDATES,
        limit: FUSED_LIMIT,
        fusion: FusionKind::ReciprocalRank,
        with_payload: true,
        country: filter,
    }
}

/// The id of a point in the vector database.
pub enum PointIdValue {
    Uuid(String),
    Num(u64),
}

/// The listing a point stands for: its UUID id, or a numeric id read as a
/// UUID, where that reads as one.
pub open spec fn point_listing_id(p: Option<PointIdValue>) -> Option<u128> {
    match p {
        Some(PointIdValue::Uuid(s)) => uuid_from_text(s@),
        Some(PointIdValue::Num(n)) => uuid_from_text(natural_text(n as nat)),
        None => None,
    }
}

/// The listings that a list of points stands for, in the same order,
/// skipping the points that name none.
pub open spec fn listing_ids_of(points: Seq<Option<PointIdValue>>) -> Seq<u128>
    decreases points.len(),
{
    if points.len() == 0 {
        seq![]
    } else {
        let rest = listing_ids_of(points.drop_last());
        match point_listing_id(points.last()) {
            Some(id) => rest.push(id),
            None => rest,
        }
    }
}

fn point_id(p: &Option<PointIdValue>) -> (res: Option<u128>)
    ensures
        res == point_listing_id(*p),
{
    match p {
        Some(PointIdValue::Uuid(s)) => parse_uuid(s.as_str()),
        Some(PointIdValue::Num(n)) => {
            let t = u64_to_text(*n);
            parse_uuid(t.as_str())
        },
        None => None,
    }
}

/// Reads the answer of the hybrid search: no points means no ranking;
/// otherwise the listing ids in order of relevance.
pub fn listing_ids_from_points(points: &Vec<Option<PointIdValue>>) -> (res: Option<Vec<u128>>)
    ensures
        points@.len() == 0 <==> res is None,
        res matches Some(v) ==> v@ == listing_ids_of(points@),
{
    if points.len() == 0 {
        return None;
    }
    let mut ids: Vec<u128> = Vec::new();
    let mut i: usize = 0;
    while i < points.len()
        invariant
            i <= points@.len(),
            ids@ == listing_ids_of(points@.take(i as int)),
        decreases points@.len() - i,
    {
        let id = point_id(&points[i]);
        proof {
            assert(points@.take(i + 1).drop_last() =~= points@.take(i as int));
            assert(points@.take(i + 1).last() == points@[i as int]);
        }
        if let Some(x) = id {
            ids.push(x);
        }
        i = i + 1;
    }
    assert(points@.take(points@.len() as int) =~= points@);
    Some(ids)
}

} // verus!
