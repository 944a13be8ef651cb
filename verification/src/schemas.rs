//! The query of the listings page: search filters, sorting and pagination.

use vstd::prelude::*;

use crate::errors::AppError;
use crate::listings::{ApartmentCondition, SaleType};

verus! {

/// How listings are ordered when no text search ranks them.
#[derive(Clone, Copy, Debug, PartialEq, Eq, Structural)]
pub enum Sort {
    Newest,
    Cheap,
    Expensive,
}

impl Sort {
    /// Newest first, when the query names no order.
    pub fn default() -> (res: Sort)
        ensures
            res == Sort::Newest,
    {
        Sort::Newest
    }
}

/// The filters of a listings search. Every field is optional; the
/// country, when blank, filters nothing.
pub struct SearchParams {
    pub q: Option<String>,
    pub sort: Option<Sort>,
    pub country: String,
    pub max_price: Option<u64>,
    pub min_rooms: Option<i64>,
    pub min_beds: Option<i64>,
    pub min_baths: Option<i64>,
    pub min_area: Option<i64>,
    pub apartment_floor: Option<i64>,
    pub min_building_floors: Option<i64>,
    pub condition: Option<ApartmentCondition>,
    pub sale_type: Option<SaleType>,
    pub furnished: Option<bool>,
    pub pets_allowed: Option<bool>,
    pub has_elevator: Option<bool>,
    pub has_garden: Option<bool>,
    pub has_parking: Option<bool>,
    pub has_balcony: Option<bool>,
    pub has_ac: Option<bool>,
    pub has_heating: Option<bool>,
    pub max_distance_to_kindergarten: Option<i64>,
    pub max_distance_to_school: Option<i64>,
    pub max_distance_to_hospital: Option<i64>,
    pub max_distance_to_metro: Option<i64>,
    pub max_distance_to_bus_stop: Option<i64>,
    pub max_distance_to_shopping: Option<i64>,
}

impl SearchParams {
    /// The filters of a query that names none.
    pub fn default() -> (res: SearchParams)
        ensures
            res.q is None,
            res.sort is None,
            res.country@.len() == 0,
            res.max_price is None,
            res.min_rooms is None,
            res.min_beds is None,
            res.min_baths is None,
            res.min_area is None,
            res.apartment_floor is None,
            res.min_building_floors is None,
            res.condition is None,
            res.sale_type is None,
            res.furnished is None,
            res.pets_allowed is None,
            res.has_elevator is None,
            res.has_garden is None,
            res.has_parking is None,
            res.has_balcony is None,
            res.has_ac is None,
            res.has_heating is None,
            res.max_distance_to_kindergarten is None,
            res.max_distance_to_school is None,
            res.max_distance_to_hospital is None,
            res.max_distance_to_metro is None,
            res.max_distance_to_bus_stop is None,
            res.max_distance_to_shopping is None,
    {
        SearchParams {
            q: None,
            sort: None,
            country: String::new(),
            max_price: None,
            min_rooms: None,
            min_beds: None,
            min_baths: None,
            min_area: None,
            apartment_floor: None,
            min_building_floors: None,
            condition: None,
            sale_type: None,
            furnished: None,
            pets_allowed: None,
            has_elevator: None,
            has_garden: None,
            has_parking: None,
            has_balcony: None,
            has_ac: None,
            has_heating: None,
            max_distance_to_kindergarten: None,
            max_distance_to_school: None,
            max_distance_to_hospital: None,
            max_distance_to_metro: None,
            max_distance_to_bus_stop: None,
            max_distance_to_shopping: None,
        }
    }
}

/// Which slice of the results a page shows.
#[derive(Clone, Copy, Debug, PartialEq, Eq, Structural)]
pub struct Pagination {
    pub offset: i64,
    pub limit: i64,
}

/// The offset of a query that names none: the first result.
pub fn default_offset() -> (res: i64)
    ensures
        res == 0,
{
    0
}

/// The page size of a query that names none.
pub fn default_limit() -> (res: i64)
    ensures
        res == 20,
{
    20
}

/// Why a page request is refused, if it is: a negative offset, a negative
/// or zero limit, or a limit above a hundred, checked in that order.
pub open spec fn pagination_problem(offset: i64, limit: i64) -> Option<Seq<char>> {
    if offset < 0 {
        Some("Offset must be positive"@)
    } else if limit < 0 {
        Some("Limit must positive"@)
    } else if limit == 0 {
        Some("Limit must not be zero!"@)
    } else if limit > 100 {
        Some("Limit cannot exceed 100"@)
    } else {
        None
    }
}

impl Pagination {
    /// The page a query that names none asks for.
    pub fn default() -> (res: Pagination)
        ensures
            res.offset == 0,
            res.limit == 20,
    {
        Pagination { offset: default_offset(), limit: default_limit() }
    }

    /// Accepts a page with a nonnegative offset and a limit from one to a
    /// hundred; otherwise refuses it with a validation error that says why.
    pub fn validate(&self) -> (res: Result<(), AppError>)
        ensures
            res is Ok <==> (0 <= self.offset && 1 <= self.limit <= 100),
            res is Ok <==> pagination_problem(self.offset, self.limit) is None,
            pagination_problem(self.offset, self.limit) matches Some(m) ==> (res matches Err(
                e,
            ) && e matches AppError::ValidationError(t) && t@ == m),
    {
        if self.offset < 0 {
            return Err(AppError::ValidationError(String::from_str("Offset must be positive")));
        }
        if self.limit < 0 {
            return Err(AppError::ValidationError(String::from_str("Limit must positive")));
        } else if self.limit == 0 {
            return Err(AppError::ValidationError(String::from_str("Limit must not be zero!")));
        }
        if self.limit > 100 {
            return Err(AppError::ValidationError(String::from_str("Limit cannot exceed 100")));
        }
        Ok(())
    }
}

/// The page that a query naming no pagination asks for is accepted.
pub proof fn lemma_default_pagination_is_valid()
    ensures
        pagination_problem(0, 20) is None,
{
}

/// The whole query of the listings page.
pub struct ListingQuery {
    pub pagination: Pagination,
    pub search_params: SearchParams,
}

} // verus!
