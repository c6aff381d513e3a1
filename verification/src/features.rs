//! From a parsed feed to line features: one per shape that a trip refers to,
//! with the properties of that trip's route.

use vstd::prelude::*;
use itertools::Itertools;
use crate::gtfs::{Gtfs, ShapePoint, Trip};
use crate::json::json_members;
use crate::properties::{properties_json, properties_of, RouteProperties};

verus! {

/// One line feature: the points of a shape as `[longitude, latitude]` pairs of
/// IEEE 754 bit patterns, and the JSON properties of the route it belongs to,
/// where that route is known.
#[derive(Clone, Debug)]
pub struct Route {
    pub coordinates: Vec<Vec<u64>>,
    pub properties: Option<serde_json::Map<String, serde_json::Value>>,
}

/// A `Route` as plain values.
pub struct RouteView {
    pub coordinates: Seq<Seq<u64>>,
    pub properties: Option<Map<Seq<char>, Option<Seq<char>>>>,
}

impl View for Route {
    type V = RouteView;

    open spec fn view(&self) -> RouteView {
        RouteView {
            coordinates: Seq::new(self.coordinates@.len(), |i: int| self.coordinates@[i]@),
            properties: match self.properties {
                Some(object) => Some(json_members(object)),
                None => None,
            },
        }
    }
}

/// The features of all feeds, one feed after the other.
#[derive(Clone, Debug)]
pub struct OMNYGeoJson {
    pub routes: Vec<Route>,
}

/// The views of a sequence of features.
pub open spec fn route_views(routes: Seq<Route>) -> Seq<RouteView> {
    Seq::new(routes.len(), |i: int| routes[i]@)
}

/// The views of a sequence of strings.
pub open spec fn texts(strings: Seq<String>) -> Seq<Seq<char>> {
    Seq::new(strings.len(), |i: int| strings[i]@)
}

/// A sequence of indices as mathematical integers.
pub open spec fn positions(indices: Seq<usize>) -> Seq<int> {
    Seq::new(indices.len(), |i: int| indices[i] as int)
}

/// The line of a shape: its points in the order stored, each as longitude
/// before latitude.
pub open spec fn line_string(points: Seq<ShapePoint>) -> Seq<Seq<u64>> {
    Seq::new(points.len(), |i: int| seq![points[i].longitude, points[i].latitude])
}

/// The positions of the trips that refer to a shape, ascending.
pub open spec fn shaped_trips(trips: Seq<Trip>) -> Seq<int>
    decreases trips.len(),
{
    if trips.len() == 0 {
        Seq::empty()
    } else if trips.last().shape_id.is_some() {
        shaped_trips(trips.drop_last()).push(trips.len() - 1)
    } else {
        shaped_trips(trips.drop_last())
    }
}

/// The shape ids of the trips at `picks`.
pub open spec fn shape_keys(trips: Seq<Trip>, picks: Seq<int>) -> Seq<Seq<char>> {
    Seq::new(picks.len(), |k: int| trips[picks[k]].shape_id.unwrap()@)
}

/// The positions in `keys` of the keys that no earlier position holds,
/// ascending.
pub open spec fn first_occurrences(keys: Seq<Seq<char>>) -> Seq<int>
    decreases keys.len(),
{
    if keys.len() == 0 {
        Seq::empty()
    } else if keys.drop_last().contains(keys.last()) {
        first_occurrences(keys.drop_last())
    } else {
        first_occurrences(keys.drop_last()).push(keys.len() - 1)
    }
}

/// The positions of the trips that stand for a shape: of the trips that refer
/// to one shape id, the first.
pub open spec fn representatives(trips: Seq<Trip>) -> Seq<int> {
    let shaped = shaped_trips(trips);
    let firsts = first_occurrences(shape_keys(trips, shaped));
    Seq::new(firsts.len(), |k: int| shaped[firsts[k]])
}

/// The feature of a shape id for a trip of the route `route_id`: none where
/// the shapes table lacks the shape; without properties where the routes table
/// lacks the route.
pub open spec fn feature_of(gtfs: Gtfs, shape_id: Seq<char>, route_id: Seq<char>) -> Option<
    RouteView,
> {
    match gtfs.spec_shape(shape_id) {
        Some(shape) => Some(
            RouteView {
                coordinates: line_string(shape.points@),
                properties: match gtfs.spec_route(route_id) {
                    Some(route) => Some(properties_json(properties_of(route))),
                    None => None,
                },
            },
        ),
        None => None,
    }
}

/// The features of the trips at `picks`, in that order, without those whose
/// shape is missing.
pub open spec fn collect_features(gtfs: Gtfs, picks: Seq<int>) -> Seq<RouteView>
    decreases picks.len(),
{
    if picks.len() == 0 {
        Seq::empty()
    } else {
        let trip = gtfs.trips@[picks.last()];
        let front = collect_features(gtfs, picks.drop_last());
        match feature_of(gtfs, trip.shape_id.unwrap()@, trip.route_id@) {
            Some(feature) => front.push(feature),
            None => front,
        }
    }
}

/// The features of a feed.
pub open spec fn trip_features(gtfs: Gtfs) -> Seq<RouteView> {
    collect_features(gtfs, representatives(gtfs.trips@))
}

/// `Itertools::unique_by` over the keys with their positions, keyed by the
/// key: it hands out an item where its key was not handed out before, in the
/// order of the input. The positions of the items handed out are returned.
#[verifier::external_body]
pub(crate) fn unique_positions(keys: &Vec<String>) -> (firsts: Vec<usize>)
    ensures
        positions(firsts@) == first_occurrences(texts(keys@)),
{
    keys.iter().enumerate().unique_by(|entry| entry.1).map(|entry| entry.0).collect()
}

/// Every position that `first_occurrences` gives lies within the keys.
pub proof fn lemma_first_occurrences_in_range(keys: Seq<Seq<char>>)
    ensures
        forall|k: int|
            0 <= k < first_occurrences(keys).len() ==> 0 <= #[trigger] first_occurrences(
                keys,
            )[k] < keys.len(),
        first_occurrences(keys).len() <= keys.len(),
    decreases keys.len(),
{
    if keys.len() > 0 {
        lemma_first_occurrences_in_range(keys.drop_last());
    }
}

/// Every position that `shaped_trips` gives is that of a trip with a shape.
pub proof fn lemma_shaped_trips(trips: Seq<Trip>)
    ensures
        forall|k: int|
            0 <= k < shaped_trips(trips).len() ==> 0 <= #[trigger] shaped_trips(trips)[k]
                < trips.len() && trips[shaped_trips(trips)[k]].shape_id.is_some(),
        shaped_trips(trips).len() <= trips.len(),
    decreases trips.len(),
{
    if trips.len() > 0 {
        let front = trips.drop_last();
        lemma_shaped_trips(front);
        assert forall|k: int| 0 <= k < shaped_trips(trips).len() implies 0 <= #[trigger] shaped_trips(
            trips,
        )[k] < trips.len() && trips[shaped_trips(trips)[k]].shape_id.is_some() by {
            if k < shaped_trips(front).len() {
                assert(shaped_trips(trips)[k] == shaped_trips(front)[k]);
                assert(front[shaped_trips(front)[k]] == trips[shaped_trips(front)[k]]);
            }
        }
    }
}

impl OMNYGeoJson {
    /// The line of a shape's points.
    pub fn line_of(points: &Vec<ShapePoint>) -> (line: Vec<Vec<u64>>)
        ensures
            Seq::new(line@.len(), |i: int| line@[i]@) == line_string(points@),
    {
        let mut line: Vec<Vec<u64>> = Vec::new();
        let mut i: usize = 0;
        while i < points.len()
            invariant
                i <= points@.len(),
                line@.len() == i,
                forall|j: int|
                    0 <= j < i ==> (#[trigger] line@[j])@ == seq![
                        points@[j].longitude,
                        points@[j].latitude,
                    ],
            decreases points@.len() - i,
        {
            let mut pair: Vec<u64> = Vec::new();
            pair.push(points[i].longitude);
            pair.push(points[i].latitude);
            proof {
                assert(pair@ =~= seq![points@[i as int].longitude, points@[i as int].latitude]);
            }
            line.push(pair);
            i += 1;
        }
        proof {
            assert(Seq::new(line@.len(), |i: int| line@[i]@) =~= line_string(points@));
        }
        line
    }

    /// The feature of one shape id, for the trip that stands for it.
    pub fn feature_from_shape(gtfs: &Gtfs, shape_id: &String, trip: &Trip) -> (feature: Option<
        Route,
    >)
        ensures
            match feature {
                Some(route) => feature_of(*gtfs, shape_id@, trip.route_id@) == Some(route@),
                None => feature_of(*gtfs, shape_id@, trip.route_id@).is_none(),
            },
    {
        match gtfs.shape(shape_id) {
            Some(shape) => {
                let coordinates = Self::line_of(&shape.points);
                let properties = match gtfs.route(&trip.route_id) {
                    Some(route) => Some(RouteProperties::from_gtfs(route).into_json()),
                    None => None,
                };
                Some(Route { coordinates, properties })
            },
            None => None,
        }
    }

    /// The features of a feed: of the trips with a shape id, the first of each
    /// shape id gives one feature, in the order of the trips.
    pub fn trip_shapes(gtfs: &Gtfs) -> (features: Vec<Route>)
        ensures
            route_views(features@) == trip_features(*gtfs),
            features@.len() <= referenced_shapes(gtfs.trips@).len(),
    {
        let ghost trips = gtfs.trips@;
        let mut owners: Vec<usize> = Vec::new();
        let mut keys: Vec<String> = Vec::new();
        let mut i: usize = 0;
        while i < gtfs.trips.len()
            invariant
                trips == gtfs.trips@,
                i <= trips.len(),
                positions(owners@) == shaped_trips(trips.take(i as int)),
                keys@.len() == owners@.len(),
                forall|k: int|
                    0 <= k < owners@.len() ==> 0 <= #[trigger] owners@[k] < i
                        && trips[owners@[k] as int].shape_id.is_some()
                        && trips[owners@[k] as int].shape_id.unwrap()@ == keys@[k]@,
            decreases trips.len() - i,
        {
            proof {
                assert(trips.take(i + 1).drop_last() =~= trips.take(i as int));
                assert(trips.take(i + 1).last() == trips[i as int]);
            }
            if let Some(shape_id) = &gtfs.trips[i].shape_id {
                owners.push(i);
                keys.push(shape_id.clone());
                proof {
                    assert(positions(owners@) =~= shaped_trips(trips.take(i + 1)));
                }
            }
            i += 1;
        }
        let firsts = unique_positions(&keys);
        proof {
            assert(trips.take(i as int) =~= trips);
            assert(texts(keys@) =~= shape_keys(trips, shaped_trips(trips)));
            lemma_first_occurrences_in_range(texts(keys@));
            assert(positions(firsts@).len() == firsts@.len());
            assert forall|n: int| 0 <= n < firsts@.len() implies 0 <= #[trigger] firsts@[n]
                < keys@.len() by {
                assert(positions(firsts@)[n] == firsts@[n]);
                assert(first_occurrences(texts(keys@))[n] < texts(keys@).len());
            }
        }
        let ghost picks = representatives(trips);
        let mut features: Vec<Route> = Vec::new();
        let mut k: usize = 0;
        while k < firsts.len()
            invariant
                trips == gtfs.trips@,
                k <= firsts@.len(),
                keys@.len() == owners@.len(),
                positions(owners@) == shaped_trips(trips),
                positions(firsts@) == first_occurrences(texts(keys@)),
                texts(keys@) == shape_keys(trips, shaped_trips(trips)),
                picks == representatives(trips),
                picks.len() == firsts@.len(),
                forall|n: int|
                    0 <= n < firsts@.len() ==> 0 <= #[trigger] firsts@[n] < keys@.len(),
                forall|n: int|
                    0 <= n < owners@.len() ==> 0 <= #[trigger] owners@[n] < trips.len()
                        && trips[owners@[n] as int].shape_id.is_some()
                        && trips[owners@[n] as int].shape_id.unwrap()@ == keys@[n]@,
                route_views(features@) == collect_features(*gtfs, picks.take(k as int)),
            decreases firsts@.len() - k,
        {
            let at = firsts[k];
            let trip = &gtfs.trips[owners[at]];
            proof {
                assert(picks.take(k + 1).drop_last() =~= picks.take(k as int));
                assert(positions(firsts@)[k as int] == at);
                assert(positions(owners@)[at as int] == owners@[at as int]);
                assert(picks.take(k + 1).last() == owners@[at as int]);
            }
            let ghost before = route_views(features@);
            match Self::feature_from_shape(gtfs, &keys[at], trip) {
                Some(feature) => {
                    features.push(feature);
                    proof {
                        assert(route_views(features@) =~= before.push(feature@));
                    }
                },
                None => {},
            }
            k += 1;
        }
        proof {
            assert(picks.take(k as int) =~= picks);
            lemma_features_bounded_by_shapes(*gtfs);
            assert(route_views(features@).len() == features@.len());
        }
        features
    }

    /// The features of the five feeds that are shown, each feed's after those
    /// of the one before.
    pub fn from_gtfs(
        subway: &Gtfs,
        path: &Gtfs,
        lirr: &Gtfs,
        metro_north: &Gtfs,
        nj_transit: &Gtfs,
    ) -> (collection: Self)
        ensures
            route_views(collection.routes@) == trip_features(*subway) + trip_features(*path)
                + trip_features(*lirr) + trip_features(*metro_north) + trip_features(
                *nj_transit,
            ),
    {
        let mut routes = Self::trip_shapes(subway);
        let mut path_shapes = Self::trip_shapes(path);
        let mut lirr_shapes = Self::trip_shapes(lirr);
        let mut metro_north_shapes = Self::trip_shapes(metro_north);
        let mut nj_transit_shapes = Self::trip_shapes(nj_transit);
        let ghost first = routes@;
        let ghost second = path_shapes@;
        let ghost third = lirr_shapes@;
        let ghost fourth = metro_north_shapes@;
        let ghost fifth = nj_transit_shapes@;
        routes.append(&mut path_shapes);
        routes.append(&mut lirr_shapes);
        routes.append(&mut metro_north_shapes);
        routes.append(&mut nj_transit_shapes);
        proof {
            assert(route_views(routes@) =~= route_views(first) + route_views(second)
                + route_views(third) + route_views(fourth) + route_views(fifth));
        }
        OMNYGeoJson { routes }
    }
}

/// The shape ids that at least one trip refers to.
pub open spec fn referenced_shapes(trips: Seq<Trip>) -> Set<Seq<char>> {
    Set::new(
        |id: Seq<char>|
            exists|i: int| 0 <= i < trips.len() && #[trigger] trips[i].shape_text() == Some(id),
    )
}

/// `first_occurrences` gives one position for each distinct key.
pub proof fn lemma_first_occurrences_count(keys: Seq<Seq<char>>)
    ensures
        first_occurrences(keys).len() == keys.to_set().len(),
    decreases keys.len(),
{
    broadcast use vstd::seq_lib::seq_to_set_is_finite;

    if keys.len() == 0 {
        assert(keys.to_set() =~= Set::empty());
    } else {
        let front = keys.drop_last();
        lemma_first_occurrences_count(front);
        assert(front.push(keys.last()) =~= keys);
        front.lemma_push_to_set_commute(keys.last());
        vstd::set::axiom_set_insert_len(front.to_set(), keys.last());
        assert(front.to_set().contains(keys.last()) == front.contains(keys.last()));
    }
}

/// Every trip with a shape id has its position in `shaped_trips`.
pub proof fn lemma_shaped_trips_complete(trips: Seq<Trip>, i: int)
    requires
        0 <= i < trips.len(),
        trips[i].shape_id.is_some(),
    ensures
        shaped_trips(trips).contains(i),
    decreases trips.len(),
{
    let front = trips.drop_last();
    if i == trips.len() - 1 {
        assert(shaped_trips(trips).last() == i);
    } else {
        assert(front[i] == trips[i]);
        lemma_shaped_trips_complete(front, i);
        let k = choose|k: int| 0 <= k < shaped_trips(front).len() && shaped_trips(front)[k] == i;
        assert(shaped_trips(trips)[k] == i);
    }
}

/// The shape ids of the trips with a shape are the shape ids referred to.
pub proof fn lemma_shape_keys_are_referenced(trips: Seq<Trip>)
    ensures
        shape_keys(trips, shaped_trips(trips)).to_set() == referenced_shapes(trips),
{
    let shaped = shaped_trips(trips);
    let keys = shape_keys(trips, shaped);
    lemma_shaped_trips(trips);
    assert forall|id: Seq<char>| keys.to_set().contains(id) implies referenced_shapes(
        trips,
    ).contains(id) by {
        let k = choose|k: int| 0 <= k < keys.len() && keys[k] == id;
        assert(trips[shaped[k]].shape_text() == Some(id));
    }
    assert forall|id: Seq<char>| referenced_shapes(trips).contains(id) implies keys.to_set().contains(
        id,
    ) by {
        let i = choose|i: int| 0 <= i < trips.len() && #[trigger] trips[i].shape_text() == Some(id);
        lemma_shaped_trips_complete(trips, i);
        let k = choose|k: int| 0 <= k < shaped.len() && shaped[k] == i;
        assert(keys[k] == id);
    }
    assert(keys.to_set() =~= referenced_shapes(trips));
}

/// No more features are collected than trips are picked.
pub proof fn lemma_collect_features_len(gtfs: Gtfs, picks: Seq<int>)
    ensures
        collect_features(gtfs, picks).len() <= picks.len(),
    decreases picks.len(),
{
    if picks.len() > 0 {
        lemma_collect_features_len(gtfs, picks.drop_last());
    }
}

/// A feed never gives more features than it has distinct shape ids that a
/// trip refers to.
pub proof fn lemma_features_bounded_by_shapes(gtfs: Gtfs)
    ensures
        referenced_shapes(gtfs.trips@).finite(),
        trip_features(gtfs).len() <= referenced_shapes(gtfs.trips@).len(),
{
    broadcast use vstd::seq_lib::seq_to_set_is_finite;

    let trips = gtfs.trips@;
    let keys = shape_keys(trips, shaped_trips(trips));
    lemma_shape_keys_are_referenced(trips);
    lemma_first_occurrences_count(keys);
    lemma_collect_features_len(gtfs, representatives(trips));
}

/// A shape that the shapes table holds gives a feature whatever route the
/// trip names: where the routes table lacks that route, the feature has the
/// shape's line and no properties.
pub proof fn lemma_missing_route_keeps_feature(
    gtfs: Gtfs,
    shape_id: Seq<char>,
    route_id: Seq<char>,
)
    requires
        gtfs.spec_shape(shape_id).is_some(),
        gtfs.spec_route(route_id).is_none(),
    ensures
        feature_of(gtfs, shape_id, route_id) == Some(
            RouteView {
                coordinates: line_string(gtfs.spec_shape(shape_id).unwrap().points@),
                properties: None,
            },
        ),
{
}

/// Each trip that stands for a shape is the first trip of its shape id, so
/// no two features of a feed come from one shape id.
pub proof fn lemma_first_occurrences_distinct(keys: Seq<Seq<char>>)
    ensures
        forall|a: int, b: int|
            0 <= a < b < first_occurrences(keys).len() ==> first_occurrences(keys)[a]
                < first_occurrences(keys)[b] && keys[first_occurrences(keys)[a]]
                != keys[first_occurrences(keys)[b]],
    decreases keys.len(),
{
    if keys.len() > 0 {
        let front = keys.drop_last();
        lemma_first_occurrences_distinct(front);
        lemma_first_occurrences_in_range(front);
        let firsts = first_occurrences(keys);
        assert forall|a: int, b: int| 0 <= a < b < firsts.len() implies firsts[a] < firsts[b]
            && keys[firsts[a]] != keys[firsts[b]] by {
            let inner = first_occurrences(front);
            assert(firsts[a] == inner[a]);
            assert(keys[inner[a]] == front[inner[a]]);
            if b < inner.len() {
                assert(firsts[b] == inner[b]);
                assert(keys[inner[b]] == front[inner[b]]);
            } else {
                assert(firsts[b] == keys.len() - 1);
                assert(!front.contains(keys.last()));
            }
        }
    }
}

/// Every picked trip whose shape the shapes table holds has its feature among
/// those collected, whether its route is known or not: a missing route or a
/// missing shape elsewhere in the feed takes no feature away.
pub proof fn lemma_collect_keeps_feature(gtfs: Gtfs, picks: Seq<int>, k: int)
    requires
        0 <= k < picks.len(),
        gtfs.spec_shape(gtfs.trips@[picks[k]].shape_id.unwrap()@).is_some(),
    ensures
        collect_features(gtfs, picks).contains(
            feature_of(
                gtfs,
                gtfs.trips@[picks[k]].shape_id.unwrap()@,
                gtfs.trips@[picks[k]].route_id@,
            ).unwrap(),
        ),
    decreases picks.len(),
{
    let trip = gtfs.trips@[picks[k]];
    let feature = feature_of(gtfs, trip.shape_id.unwrap()@, trip.route_id@).unwrap();
    let front = collect_features(gtfs, picks.drop_last());
    let all = collect_features(gtfs, picks);
    if k == picks.len() - 1 {
        assert(all == front.push(feature));
        assert(all[all.len() - 1] == feature);
    } else {
        lemma_collect_keeps_feature(gtfs, picks.drop_last(), k);
        let at = choose|at: int| 0 <= at < front.len() && front[at] == feature;
        assert(all[at] == feature);
    }
}

} // verus!
