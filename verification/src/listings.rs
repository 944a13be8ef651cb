//! Listings: the apartment kinds, and the plan of a listings search (which
//! filters the page and count queries carry, in which order results come,
//! and which page is shown).

use vstd::prelude::*;

use crate::ids::uuid_text;
use crate::schemas::{ListingQuery, SearchParams, Sort};
use crate::text::{natural_text, trim_text, trimmed, u64_to_text};

verus! {

/// The state an apartment is in.
#[derive(Clone, Copy, Debug, PartialEq, Eq, Structural)]
pub enum ApartmentCondition {
    New,
    Repaired,
    Old,
}

/// Whether an apartment is for sale or for rent.
#[derive(Clone, Copy, Debug, PartialEq, Eq, Structural)]
pub enum SaleType {
    Buy,
    Rent,
}

impl ApartmentCondition {
    /// A new apartment, when a listing names no condition.
    pub fn default() -> (res: ApartmentCondition)
        ensures
            res == ApartmentCondition::New,
    {
        ApartmentCondition::New
    }
}

impl SaleType {
    /// For sale, when a listing names no sale type.
    pub fn default() -> (res: SaleType)
        ensures
            res == SaleType::Buy,
    {
        SaleType::Buy
    }
}

/// The database label of an apartment condition.
pub open spec fn condition_label(c: ApartmentCondition) -> Seq<char> {
    match c {
        ApartmentCondition::Old => "old"@,
        ApartmentCondition::Repaired => "repaired"@,
        ApartmentCondition::New => "new"@,
    }
}

/// The database label of a sale type.
pub open spec fn sale_type_label(s: SaleType) -> Seq<char> {
    match s {
        SaleType::Buy => "buy"@,
        SaleType::Rent => "rent"@,
    }
}

/// A picture as a new listing names it.
pub struct PictureIn {
    pub url: String,
    pub is_primary: Option<bool>,
}

/// A value bound to a placeholder of a query.
pub enum BindValue {
    Text(String),
    Int(i64),
    Bool(bool),
    Ids(Vec<u128>),
}

/// The mathematical content of a [`BindValue`].
pub enum BindView {
    Text(Seq<char>),
    Int(i64),
    Bool(bool),
    Ids(Seq<u128>),
}

impl View for BindValue {
    type V = BindView;

    open spec fn view(&self) -> BindView {
        match self {
            BindValue::Text(s) => BindView::Text(s@),
            BindValue::Int(n) => BindView::Int(*n),
            BindValue::Bool(b) => BindView::Bool(*b),
            BindValue::Ids(v) => BindView::Ids(v@),
        }
    }
}

/// One condition of a search: the text before the placeholder, the value
/// bound to it, and the text after it.
pub struct Filter {
    pub clause: &'static str,
    pub value: BindValue,
    pub cast: &'static str,
}

/// The mathematical content of a [`Filter`].
pub struct FilterView {
    pub clause: Seq<char>,
    pub value: BindView,
    pub cast: Seq<char>,
}

impl View for Filter {
    type V = FilterView;

    open spec fn view(&self) -> FilterView {
        FilterView { clause: self.clause@, value: self.value@, cast: self.cast@ }
    }
}

/// The conditions of a list of filters.
pub open spec fn filters_view(v: Seq<Filter>) -> Seq<FilterView> {
    v.map_values(|f: Filter| f@)
}

/// The filter, where the condition holds.
pub open spec fn when(cond: bool, f: FilterView) -> Seq<FilterView> {
    if cond {
        seq![f]
    } else {
        seq![]
    }
}

/// A filter that binds an integer.
pub open spec fn int_filter(clause: Seq<char>, v: i64) -> FilterView {
    FilterView { clause, value: BindView::Int(v), cast: ""@ }
}

/// A filter on a lower or upper bound that applies only when the bound is
/// positive.
pub open spec fn positive_filter(o: Option<i64>, clause: Seq<char>) -> Seq<FilterView> {
    match o {
        Some(v) => when(v > 0, int_filter(clause, v)),
        None => seq![],
    }
}

/// A filter on a yes/no feature that applies whenever the query names it.
pub open spec fn flag_filter(o: Option<bool>, clause: Seq<char>) -> Seq<FilterView> {
    match o {
        Some(b) => seq![FilterView { clause, value: BindView::Bool(b), cast: ""@ }],
        None => seq![],
    }
}

/// Keeps the results that the text search matched.
pub open spec fn ids_filter(ids: Option<Seq<u128>>) -> Seq<FilterView> {
    match ids {
        Some(v) => seq![FilterView { clause: " AND l.id = ANY("@, value: BindView::Ids(v), cast: ")"@ }],
        None => seq![],
    }
}

/// Keeps the listings of the named country, unless the name is blank.
pub open spec fn country_filter(p: SearchParams) -> Seq<FilterView> {
    when(
        trimmed(p.country@).len() > 0,
        FilterView { clause: " AND ad.country = "@, value: BindView::Text(p.country@), cast: ""@ },
    )
}

/// Keeps the listings at or below a positive maximum price.
pub open spec fn price_filter(p: SearchParams) -> Seq<FilterView> {
    match p.max_price {
        Some(m) => when(
            m > 0,
            FilterView {
                clause: " AND l.price <= "@,
                value: BindView::Text(natural_text(m as nat)),
                cast: "::numeric"@,
            },
        ),
        None => seq![],
    }
}

/// Keeps the apartments of the named condition.
pub open spec fn condition_filter(p: SearchParams) -> Seq<FilterView> {
    match p.condition {
        Some(c) => seq![
            FilterView {
                clause: " AND a.condition = "@,
                value: BindView::Text(condition_label(c)),
                cast: "::apartment_condition"@,
            },
        ],
        None => seq![],
    }
}

/// Keeps the apartments of the named sale type.
pub open spec fn sale_type_filter(p: SearchParams) -> Seq<FilterView> {
    match p.sale_type {
        Some(s) => seq![
            FilterView { clause: " AND a.sale_type = "@, value: BindView::Text(sale_type_label(s)), cast: "::sale_type"@ },
        ],
        None => seq![],
    }
}

/// Keeps the apartments on the named floor.
pub open spec fn floor_filter(p: SearchParams) -> Seq<FilterView> {
    match p.apartment_floor {
        Some(f) => seq![int_filter(" AND a.apartment_floor = "@, f)],
        None => seq![],
    }
}

/// The conditions of the size of an apartment.
pub open spec fn size_filters(p: SearchParams) -> Seq<FilterView> {
    positive_filter(p.min_rooms, " AND a.rooms >= "@) + positive_filter(p.min_beds, " AND a.beds >= "@)
        + positive_filter(p.min_baths, " AND a.baths >= "@) + positive_filter(p.min_area, " AND a.area >= "@)
}

/// The conditions of the floor and kind of an apartment.
pub open spec fn kind_filters(p: SearchParams) -> Seq<FilterView> {
    floor_filter(p) + positive_filter(p.min_building_floors, " AND a.total_building_floors >= "@)
        + condition_filter(p) + sale_type_filter(p)
}

/// The conditions of the size, floor and kind of an apartment.
pub open spec fn apartment_filters(p: SearchParams) -> Seq<FilterView> {
    size_filters(p) + kind_filters(p)
}

/// The conditions of the features of an apartment.
pub open spec fn feature_filters(p: SearchParams) -> Seq<FilterView> {
    flag_filter(p.furnished, " AND a.furnished = "@) + flag_filter(p.pets_allowed, " AND a.pets_allowed = "@)
        + flag_filter(p.has_elevator, " AND a.has_elevator = "@) + flag_filter(p.has_garden, " AND a.has_garden = "@)
        + flag_filter(p.has_parking, " AND a.has_parking = "@) + flag_filter(p.has_balcony, " AND a.has_balcony = "@)
        + flag_filter(p.has_ac, " AND a.has_ac = "@) + flag_filter(p.has_heating, " AND a.has_heating = "@)
}

/// The conditions on the distances to places nearby.
pub open spec fn distance_filters(p: SearchParams) -> Seq<FilterView> {
    positive_filter(p.max_distance_to_kindergarten, " AND a.distance_to_kindergarten <= "@)
        + positive_filter(p.max_distance_to_school, " AND a.distance_to_school <= "@)
        + positive_filter(p.max_distance_to_hospital, " AND a.distance_to_hospital <= "@)
        + positive_filter(p.max_distance_to_metro, " AND a.distance_to_metro <= "@)
        + positive_filter(p.max_distance_to_bus_stop, " AND a.distance_to_bus_stop <= "@)
        + positive_filter(p.max_distance_to_shopping, " AND a.distance_to_shopping <= "@)
}

/// Every condition of a search, in the order in which both the page query
/// and the count query carry them.
pub open spec fn listing_filters(p: SearchParams, ids: Option<Seq<u128>>) -> Seq<FilterView> {
    ids_filter(ids) + country_filter(p) + price_filter(p) + apartment_filters(p) + feature_filters(p)
        + distance_filters(p)
}

proof fn lemma_push_view(v: Seq<Filter>, f: Filter)
    ensures
        filters_view(v.push(f)) =~= filters_view(v) + seq![f@],
{
}

fn push_filter(filters: &mut Vec<Filter>, clause: &'static str, value: BindValue, cast: &'static str)
    ensures
        filters_view(final(filters)@) =~= filters_view(old(filters)@) + seq![
            FilterView { clause: clause@, value: value@, cast: cast@ },
        ],
{
    let ghost f = Filter { clause, value, cast };
    proof {
        lemma_push_view(filters@, f);
    }
    filters.push(Filter { clause, value, cast });
}

fn push_positive(filters: &mut Vec<Filter>, o: Option<i64>, clause: &'static str)
    ensures
        filters_view(final(filters)@) =~= filters_view(old(filters)@) + positive_filter(o, clause@),
{
    if let Some(v) = o {
        if v > 0 {
            push_filter(filters, clause, BindValue::Int(v), "");
            return;
        }
    }
    assert(positive_filter(o, clause@) =~= Seq::<FilterView>::empty());
}

fn push_flag(filters: &mut Vec<Filter>, o: Option<bool>, clause: &'static str)
    ensures
        filters_view(final(filters)@) =~= filters_view(old(filters)@) + flag_filter(o, clause@),
{
    if let Some(b) = o {
        push_filter(filters, clause, BindValue::Bool(b), "");
    } else {
        assert(flag_filter(o, clause@) =~= Seq::<FilterView>::empty());
    }
}

fn push_size_filters(filters: &mut Vec<Filter>, p: &SearchParams)
    ensures
        filters_view(final(filters)@) =~= filters_view(old(filters)@) + size_filters(*p),
{
    let ghost start = filters_view(filters@);
    push_positive(filters, p.min_rooms, " AND a.rooms >= ");
    push_positive(filters, p.min_beds, " AND a.beds >= ");
    push_positive(filters, p.min_baths, " AND a.baths >= ");
    push_positive(filters, p.min_area, " AND a.area >= ");
    assert(filters_view(filters@) =~= start + size_filters(*p));
}

fn push_condition(filters: &mut Vec<Filter>, p: &SearchParams)
    ensures
        filters_view(final(filters)@) =~= filters_view(old(filters)@) + condition_filter(*p),
{
    match p.condition {
        Some(c) => {
            let label = match c {
                ApartmentCondition::Old => "old",
                ApartmentCondition::Repaired => "repaired",
                ApartmentCondition::New => "new",
            };
            push_filter(filters, " AND a.condition = ", BindValue::Text(String::from_str(label)), "::apartment_condition");
        },
        None => {
            assert(condition_filter(*p) =~= Seq::<FilterView>::empty());
        },
    }
}

fn push_sale_type(filters: &mut Vec<Filter>, p: &SearchParams)
    ensures
        filters_view(final(filters)@) =~= filters_view(old(filters)@) + sale_type_filter(*p),
{
    match p.sale_type {
        Some(s) => {
            let label = match s {
                SaleType::Buy => "buy",
                SaleType::Rent => "rent",
            };
            push_filter(filters, " AND a.sale_type = ", BindValue::Text(String::from_str(label)), "::sale_type");
        },
        None => {
            assert(sale_type_filter(*p) =~= Seq::<FilterView>::empty());
        },
    }
}

fn push_kind_filters(filters: &mut Vec<Filter>, p: &SearchParams)
    ensures
        filters_view(final(filters)@) =~= filters_view(old(filters)@) + kind_filters(*p),
{
    let ghost start = filters_view(filters@);
    if let Some(f) = p.apartment_floor {
        push_filter(filters, " AND a.apartment_floor = ", BindValue::Int(f), "");
    } else {
        assert(floor_filter(*p) =~= Seq::<FilterView>::empty());
    }
    push_positive(filters, p.min_building_floors, " AND a.total_building_floors >= ");
    push_condition(filters, p);
    push_sale_type(filters, p);
    assert(filters_view(filters@) =~= start + kind_filters(*p));
}

fn push_feature_filters(filters: &mut Vec<Filter>, p: &SearchParams)
    ensures
        filters_view(final(filters)@) =~= filters_view(old(filters)@) + feature_filters(*p),
{
    let ghost start = filters_view(filters@);
    push_flag(filters, p.furnished, " AND a.furnished = ");
    push_flag(filters, p.pets_allowed, " AND a.pets_allowed = ");
    push_flag(filters, p.has_elevator, " AND a.has_elevator = ");
    push_flag(filters, p.has_garden, " AND a.has_garden = ");
    push_flag(filters, p.has_parking, " AND a.has_parking = ");
    push_flag(filters, p.has_balcony, " AND a.has_balcony = ");
    push_flag(filters, p.has_ac, " AND a.has_ac = ");
    push_flag(filters, p.has_heating, " AND a.has_heating = ");
    assert(filters_view(filters@) =~= start + feature_filters(*p));
}

fn push_distance_filters(filters: &mut Vec<Filter>, p: &SearchParams)
    ensures
        filters_view(final(filters)@) =~= filters_view(old(filters)@) + distance_filters(*p),
{
    let ghost start = filters_view(filters@);
    push_positive(filters, p.max_distance_to_kindergarten, " AND a.distance_to_kindergarten <= ");
    push_positive(filters, p.max_distance_to_school, " AND a.distance_to_school <= ");
    push_positive(filters, p.max_distance_to_hospital, " AND a.distance_to_hospital <= ");
    push_positive(filters, p.max_distance_to_metro, " AND a.distance_to_metro <= ");
    push_positive(filters, p.max_distance_to_bus_stop, " AND a.distance_to_bus_stop <= ");
    push_positive(filters, p.max_distance_to_shopping, " AND a.distance_to_shopping <= ");
    assert(filters_view(filters@) =~= start + distance_filters(*p));
}

/// The listings that a text search matched, if it ran.
pub open spec fn ids_view(o: Option<Vec<u128>>) -> Option<Seq<u128>> {
    match o {
        Some(v) => Some(v@),
        None => None,
    }
}

/// The conditions of a search, given the listings that the text search
/// matched (if it ran): the same list serves the page query and the count
/// query.
pub fn listing_filter_list(p: &SearchParams, ids: Option<Vec<u128>>) -> (res: Vec<Filter>)
    ensures
        filters_view(res@) =~= listing_filters(*p, ids_view(ids)),
{
    let ghost matched = ids_view(ids);
    let mut filters: Vec<Filter> = Vec::new();
    match ids {
        Some(v) => {
            push_filter(&mut filters, " AND l.id = ANY(", BindValue::Ids(v), ")");
        },
        None => {},
    }
    assert(filters_view(filters@) =~= ids_filter(matched));
    let country = trim_text(p.country.as_str());
    if country.unicode_len() > 0 {
        push_filter(&mut filters, " AND ad.country = ", BindValue::Text(p.country.clone()), "");
    }
    assert(filters_view(filters@) =~= ids_filter(matched) + country_filter(*p));
    match p.max_price {
        Some(m) => {
            if m > 0 {
                push_filter(&mut filters, " AND l.price <= ", BindValue::Text(u64_to_text(m)), "::numeric");
            }
        },
        None => {},
    }
    assert(filters_view(filters@) =~= ids_filter(matched) + country_filter(*p) + price_filter(*p));
    push_size_filters(&mut filters, p);
    push_kind_filters(&mut filters, p);
    assert(filters_view(filters@) =~= ids_filter(matched) + country_filter(*p) + price_filter(*p)
        + apartment_filters(*p));
    push_feature_filters(&mut filters, p);
    push_distance_filters(&mut filters, p);
    filters
}

/// How the results of a search are ordered.
pub enum ListingOrder {
    /// In the order of relevance that the text search found.
    Relevance(Vec<u128>),
    NewestFirst,
    CheapestFirst,
    MostExpensiveFirst,
}

/// What a listings search does.
pub enum ListingPlan {
    /// The text search matched nothing: the page is empty and the total zero,
    /// and no query runs.
    NoMatches,
    /// Run the page and count queries with these conditions; order the page
    /// and cut it as given.
    Query { filters: Vec<Filter>, order: ListingOrder, offset: i64, limit: i64 },
}

/// The text to search for: the query text without surrounding whitespace,
/// unless that leaves nothing.
pub open spec fn search_text_of(p: SearchParams) -> Option<Seq<char>> {
    match p.q {
        Some(q) => if trimmed(q@).len() > 0 {
            Some(trimmed(q@))
        } else {
            None
        },
        None => None,
    }
}

/// The text that a search ranks listings by, if it has one.
pub fn search_text(p: &SearchParams) -> (res: Option<String>)
    ensures
        match (res, search_text_of(*p)) {
            (Some(r), Some(t)) => r@ == t,
            (None, None) => true,
            _ => false,
        },
{
    match &p.q {
        Some(q) => {
            let t = trim_text(q.as_str());
            if t.unicode_len() > 0 {
                Some(t)
            } else {
                None
            }
        },
        None => None,
    }
}

/// The order of a search: by relevance when the text search ranked the
/// results, otherwise as the query names it, newest first by default.
pub open spec fn order_is(o: ListingOrder, p: SearchParams, ids: Option<Seq<u128>>) -> bool {
    match ids {
        Some(v) => o matches ListingOrder::Relevance(w) && w@ == v,
        None => match p.sort {
            Some(Sort::Cheap) => o is CheapestFirst,
            Some(Sort::Expensive) => o is MostExpensiveFirst,
            _ => o is NewestFirst,
        },
    }
}

/// Plans a listings search from the query and what the text search matched
/// (`None` where it did not run or found nothing to rank).
///
/// A text search that ran and matched no listing ends the search with an
/// empty page. Otherwise the page and count queries carry the same
/// conditions; the page follows the order of relevance where the text
/// search ranked the results, and the named sort otherwise.
pub fn plan_listing_search(query: &ListingQuery, matched: Option<Vec<u128>>) -> (res: ListingPlan)
    ensures
        (matched matches Some(v) && v@.len() == 0) <==> res is NoMatches,
        res matches ListingPlan::Query { filters, order, offset, limit } ==> {
            let ids = ids_view(matched);
            &&& filters_view(filters@) =~= listing_filters(query.search_params, ids)
            &&& order_is(order, query.search_params, ids)
            &&& offset == query.pagination.offset
            &&& limit == query.pagination.limit
        },
        matched is None ==> (res matches ListingPlan::Query { order, .. } ==> {
            let sort = query.search_params.sort;
            &&& order is NewestFirst <==> (sort is None || sort == Some(Sort::Newest))
            &&& order is CheapestFirst <==> sort == Some(Sort::Cheap)
            &&& order is MostExpensiveFirst <==> sort == Some(Sort::Expensive)
        }),
        matched matches Some(v) ==> (res matches ListingPlan::Query { order, .. } ==> (order matches ListingOrder::Relevance(w)
            && w@ == v@)),
{
    let p = &query.search_params;
    match matched {
        Some(v) => {
            if v.len() == 0 {
                return ListingPlan::NoMatches;
            }
            let ranking = v.clone();
            let filters = listing_filter_list(p, Some(v));
            ListingPlan::Query {
                filters,
                order: ListingOrder::Relevance(ranking),
                offset: query.pagination.offset,
                limit: query.pagination.limit,
            }
        },
        None => {
            let filters = listing_filter_list(p, None);
            let order = match p.sort {
                Some(Sort::Cheap) => ListingOrder::CheapestFirst,
                Some(Sort::Expensive) => ListingOrder::MostExpensiveFirst,
                _ => ListingOrder::NewestFirst,
            };
            ListingPlan::Query { filters, order, offset: query.pagination.offset, limit: query.pagination.limit }
        },
    }
}

/// A lower or upper bound as it acts on a search: a positive bound, or none.
pub open spec fn active_bound(o: Option<i64>) -> Option<i64> {
    match o {
        Some(v) => if v > 0 {
            Some(v)
        } else {
            None
        },
        None => None,
    }
}

/// A maximum price as it acts on a search: a positive one, or none.
pub open spec fn active_price(o: Option<u64>) -> Option<u64> {
    match o {
        Some(m) => if m > 0 {
            Some(m)
        } else {
            None
        },
        None => None,
    }
}

/// The query with every bound that filters nothing (a maximum price of
/// zero, a non-positive minimum size, building height or distance) left
/// out. The floor is kept as it is: it filters whatever its value.
pub open spec fn without_inactive_bounds(p: SearchParams) -> SearchParams {
    SearchParams {
        max_price: active_price(p.max_price),
        min_rooms: active_bound(p.min_rooms),
        min_beds: active_bound(p.min_beds),
        min_baths: active_bound(p.min_baths),
        min_area: active_bound(p.min_area),
        min_building_floors: active_bound(p.min_building_floors),
        max_distance_to_kindergarten: active_bound(p.max_distance_to_kindergarten),
        max_distance_to_school: active_bound(p.max_distance_to_school),
        max_distance_to_hospital: active_bound(p.max_distance_to_hospital),
        max_distance_to_metro: active_bound(p.max_distance_to_metro),
        max_distance_to_bus_stop: active_bound(p.max_distance_to_bus_stop),
        max_distance_to_shopping: active_bound(p.max_distance_to_shopping),
        ..p
    }
}

/// A bound that is zero or negative filters nothing: leaving such bounds
/// out of a query does not change the conditions of its search.
pub proof fn lemma_inactive_bounds_filter_nothing(p: SearchParams, ids: Option<Seq<u128>>)
    ensures
        listing_filters(without_inactive_bounds(p), ids) == listing_filters(p, ids),
{
    let q = without_inactive_bounds(p);
    assert(price_filter(q) == price_filter(p));
    assert(size_filters(q) == size_filters(p));
    assert(kind_filters(q) == kind_filters(p));
    assert(distance_filters(q) == distance_filters(p));
}

/// The query with another country.
pub open spec fn with_country(p: SearchParams, country: String) -> SearchParams {
    SearchParams { country, ..p }
}

/// The query without its text.
pub open spec fn without_text(p: SearchParams) -> SearchParams {
    SearchParams { q: None, ..p }
}

/// A blank country filters nothing: any two blank countries give a search
/// the same conditions.
pub proof fn lemma_blank_countries_filter_alike(p: SearchParams, country: String, ids: Option<Seq<u128>>)
    requires
        trimmed(p.country@).len() == 0,
        trimmed(country@).len() == 0,
    ensures
        listing_filters(with_country(p, country), ids) == listing_filters(p, ids),
{
    let q = with_country(p, country);
    assert(country_filter(q) =~= country_filter(p));
    assert(apartment_filters(q) == apartment_filters(p));
    assert(feature_filters(q) == feature_filters(p));
    assert(distance_filters(q) == distance_filters(p));
}

/// The text of a query reaches its search only through the ranking that the
/// text search produced: two queries that differ only in their text get the
/// same conditions and, given the same ranking or none, the same order. So
/// a text search that ranked nothing leaves the search as if no text had
/// been given.
pub proof fn lemma_search_text_acts_only_through_ranking(
    p1: SearchParams,
    p2: SearchParams,
    ids: Option<Seq<u128>>,
    order: ListingOrder,
)
    requires
        without_text(p1) == without_text(p2),
    ensures
        listing_filters(p1, ids) == listing_filters(p2, ids),
        order_is(order, p1, ids) == order_is(order, p2, ids),
{
    let n1 = without_text(p1);
    let n2 = without_text(p2);
    assert(n1.country == n2.country);
    assert(n1.sort == n2.sort);
    assert(country_filter(p1) == country_filter(p2));
    assert(price_filter(p1) == price_filter(p2));
    assert(apartment_filters(p1) == apartment_filters(p2));
    assert(feature_filters(p1) == feature_filters(p2));
    assert(distance_filters(p1) == distance_filters(p2));
}

/// A search that no text search ranked is ordered by the sort it names:
/// newest first when it names none or names the newest, cheapest first or
/// most expensive first when it names those, and never by relevance.
pub proof fn lemma_unranked_search_follows_its_sort(o: ListingOrder, p: SearchParams)
    requires
        order_is(o, p, None),
    ensures
        o is NewestFirst <==> (p.sort is None || p.sort == Some(Sort::Newest)),
        o is CheapestFirst <==> p.sort == Some(Sort::Cheap),
        o is MostExpensiveFirst <==> p.sort == Some(Sort::Expensive),
        !(o is Relevance),
{
}

/// A search that a text search ranked follows that ranking, whatever sort
/// it names.
pub proof fn lemma_ranked_search_follows_its_ranking(o: ListingOrder, p: SearchParams, ranking: Seq<u128>)
    requires
        order_is(o, p, Some(ranking)),
    ensures
        o matches ListingOrder::Relevance(w) && w@ == ranking,
{
}

} // verus!
