use omny::color::Rgb8;
use omny::gtfs::{Gtfs, GtfsRoute, Shape, ShapePoint, Trip};
use omny::{OMNYGeoJson, Route, RouteProperties};

fn trip(id: &str, route_id: &str, shape_id: Option<&str>) -> Trip {
    Trip {
        id: id.to_string(),
        route_id: route_id.to_string(),
        shape_id: shape_id.map(|s| s.to_string()),
    }
}

fn route(id: &str, short_name: &str) -> GtfsRoute {
    GtfsRoute {
        id: id.to_string(),
        short_name: short_name.to_string(),
        long_name: format!("{} line", short_name),
        desc: None,
        route_color: None,
    }
}

fn point(latitude: f64, longitude: f64) -> ShapePoint {
    ShapePoint { latitude: latitude.to_bits(), longitude: longitude.to_bits() }
}

fn shape(id: &str, points: Vec<ShapePoint>) -> Shape {
    Shape { id: id.to_string(), points }
}

fn three_points() -> Vec<ShapePoint> {
    vec![point(40.70, -74.01), point(40.71, -74.02), point(40.72, -74.03)]
}

fn text_member(feature: &Route, key: &str) -> Option<String> {
    let object = feature.properties.as_ref().expect("the feature has properties");
    object.get(key).map(|value| value.as_str().expect("a string member").to_string())
}

fn degrees(feature: &Route) -> Vec<Vec<f64>> {
    feature
        .coordinates
        .iter()
        .map(|pair| pair.iter().map(|bits| f64::from_bits(*bits)).collect())
        .collect()
}

#[test]
fn trips_sharing_a_shape_give_one_feature() {
    let gtfs = Gtfs {
        trips: vec![
            trip("t1", "r1", Some("s1")),
            trip("t2", "r1", Some("s1")),
            trip("t3", "", None),
        ],
        routes: vec![route("r1", "A")],
        shapes: vec![shape("s1", three_points())],
    };
    let features = OMNYGeoJson::trip_shapes(&gtfs);
    assert_eq!(features.len(), 1);
    assert_eq!(
        degrees(&features[0]),
        vec![vec![-74.01, 40.70], vec![-74.02, 40.71], vec![-74.03, 40.72]]
    );
    assert_eq!(text_member(&features[0], "route_id"), Some("r1".to_string()));
    assert_eq!(text_member(&features[0], "short_name"), Some("A".to_string()));
    assert_eq!(text_member(&features[0], "long_name"), Some("A line".to_string()));
    assert_eq!(text_member(&features[0], "desc"), None);
    assert_eq!(text_member(&features[0], "color"), None);
    assert_eq!(features[0].properties.as_ref().unwrap().len(), 3);
}

#[test]
fn missing_route_gives_feature_without_properties() {
    let gtfs = Gtfs {
        trips: vec![trip("t1", "gone", Some("s1"))],
        routes: vec![route("r1", "A")],
        shapes: vec![shape("s1", three_points())],
    };
    let features = OMNYGeoJson::trip_shapes(&gtfs);
    assert_eq!(features.len(), 1);
    assert!(features[0].properties.is_none());
    assert_eq!(features[0].coordinates.len(), 3);
}

#[test]
fn missing_shape_is_dropped() {
    let gtfs = Gtfs {
        trips: vec![trip("t1", "r1", Some("nowhere")), trip("t2", "r1", Some("s1"))],
        routes: vec![route("r1", "A")],
        shapes: vec![shape("s1", three_points())],
    };
    let features = OMNYGeoJson::trip_shapes(&gtfs);
    assert_eq!(features.len(), 1);
    assert!(OMNYGeoJson::feature_from_shape(&gtfs, &"nowhere".to_string(), &gtfs.trips[0]).is_none());
}

#[test]
fn first_trip_of_a_shape_names_the_route() {
    let gtfs = Gtfs {
        trips: vec![
            trip("t1", "r2", Some("s1")),
            trip("t2", "r1", Some("s2")),
            trip("t3", "r1", Some("s1")),
            trip("t4", "r2", Some("s2")),
        ],
        routes: vec![route("r1", "A"), route("r2", "B")],
        shapes: vec![
            shape("s2", vec![point(1.0, 2.0)]),
            shape("s1", vec![point(3.0, 4.0), point(5.0, 6.0)]),
        ],
    };
    let features = OMNYGeoJson::trip_shapes(&gtfs);
    assert_eq!(features.len(), 2);
    assert_eq!(degrees(&features[0]), vec![vec![4.0, 3.0], vec![6.0, 5.0]]);
    assert_eq!(text_member(&features[0], "short_name"), Some("B".to_string()));
    assert_eq!(degrees(&features[1]), vec![vec![2.0, 1.0]]);
    assert_eq!(text_member(&features[1], "short_name"), Some("A".to_string()));
}

#[test]
fn features_never_exceed_distinct_shape_ids() {
    let mut trips = Vec::new();
    let mut shapes = Vec::new();
    for n in 0..7 {
        shapes.push(shape(&format!("s{}", n), vec![point(n as f64, 0.5)]));
    }
    for n in 0..40 {
        let shape_id = format!("s{}", (n * 3) % 9);
        trips.push(trip(&format!("t{}", n), "r1", if n % 5 == 0 { None } else { Some(&shape_id) }));
    }
    let mut distinct: Vec<String> = trips.iter().filter_map(|t| t.shape_id.clone()).collect();
    distinct.sort();
    distinct.dedup();
    let gtfs = Gtfs { trips, routes: vec![route("r1", "A")], shapes };
    let features = OMNYGeoJson::trip_shapes(&gtfs);
    assert!(features.len() <= distinct.len());
    assert_eq!(distinct.len(), 3);
    assert_eq!(features.len(), 3);
}

#[test]
fn empty_feed_gives_no_features() {
    let gtfs = Gtfs { trips: vec![], routes: vec![], shapes: vec![] };
    assert!(OMNYGeoJson::trip_shapes(&gtfs).is_empty());
}

#[test]
fn line_keeps_order_and_puts_longitude_first() {
    let line = OMNYGeoJson::line_of(&vec![point(40.5, -73.5), point(-1.25, 2.75)]);
    assert_eq!(
        line,
        vec![
            vec![(-73.5f64).to_bits(), 40.5f64.to_bits()],
            vec![2.75f64.to_bits(), (-1.25f64).to_bits()],
        ]
    );
    assert!(OMNYGeoJson::line_of(&vec![]).is_empty());
}

#[test]
fn properties_hold_optional_members_only_when_present() {
    let full = GtfsRoute {
        id: "r9".to_string(),
        short_name: "F".to_string(),
        long_name: "Sixth Avenue Local".to_string(),
        desc: Some("runs all day".to_string()),
        route_color: Some(Rgb8 { r: 255, g: 99, b: 25 }),
    };
    let properties = RouteProperties::from_gtfs(&full);
    assert_eq!(properties.route_id(), "r9");
    assert_eq!(properties.short_name(), "F");
    assert_eq!(properties.long_name(), "Sixth Avenue Local");
    assert_eq!(properties.desc(), &Some("runs all day".to_string()));
    assert_eq!(properties.color(), &Some("#FF6319".to_string()));
    let object = properties.into_json();
    assert_eq!(object.len(), 5);
    assert_eq!(object.get("route_id").and_then(|v| v.as_str()), Some("r9"));
    assert_eq!(object.get("short_name").and_then(|v| v.as_str()), Some("F"));
    assert_eq!(object.get("long_name").and_then(|v| v.as_str()), Some("Sixth Avenue Local"));
    assert_eq!(object.get("desc").and_then(|v| v.as_str()), Some("runs all day"));
    assert_eq!(object.get("color").and_then(|v| v.as_str()), Some("#FF6319"));
    assert_eq!(
        serde_json::to_string(&object).unwrap(),
        "{\"color\":\"#FF6319\",\"desc\":\"runs all day\",\"long_name\":\"Sixth Avenue Local\",\"route_id\":\"r9\",\"short_name\":\"F\"}"
    );

    let bare = RouteProperties::from_gtfs(&route("r1", "A")).into_json();
    assert_eq!(bare.len(), 3);
    assert!(!bare.contains_key("desc"));
    assert!(!bare.contains_key("color"));
}

#[test]
fn lookup_takes_the_first_row_of_an_id() {
    let gtfs = Gtfs {
        trips: vec![],
        routes: vec![route("r1", "A"), route("r1", "B"), route("r2", "C")],
        shapes: vec![shape("s1", vec![point(1.0, 1.0)]), shape("s1", vec![])],
    };
    assert_eq!(gtfs.route(&"r1".to_string()).unwrap().short_name, "A");
    assert_eq!(gtfs.route(&"r2".to_string()).unwrap().short_name, "C");
    assert!(gtfs.route(&"r3".to_string()).is_none());
    assert_eq!(gtfs.shape(&"s1".to_string()).unwrap().points.len(), 1);
    assert!(gtfs.shape(&"".to_string()).is_none());
}

#[test]
fn feeds_are_concatenated_in_order_without_dedup() {
    let feed = |short_name: &str, points: usize| Gtfs {
        trips: vec![trip("t1", "r1", Some("s1"))],
        routes: vec![route("r1", short_name)],
        shapes: vec![shape("s1", vec![point(1.0, 2.0); points])],
    };
    let empty = Gtfs { trips: vec![], routes: vec![], shapes: vec![] };
    let collection =
        OMNYGeoJson::from_gtfs(&feed("subway", 1), &feed("path", 2), &empty, &feed("north", 4), &feed("path", 2));
    let names: Vec<Option<String>> =
        collection.routes.iter().map(|f| text_member(f, "short_name")).collect();
    assert_eq!(
        names,
        vec![
            Some("subway".to_string()),
            Some("path".to_string()),
            Some("north".to_string()),
            Some("path".to_string()),
        ]
    );
    let lengths: Vec<usize> = collection.routes.iter().map(|f| f.coordinates.len()).collect();
    assert_eq!(lengths, vec![1, 2, 4, 2]);
}
