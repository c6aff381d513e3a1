//! The tables of a parsed GTFS feed that the feature extraction reads.
//!
//! Each table is a `Vec` in the order in which the parser hands out its rows.
//! A row is found by its id, and where an id occurs more than once the first
//! row with it is the one that counts.

use vstd::prelude::*;
use crate::color::Rgb8;

verus! {

/// One run of a vehicle along a route.
#[derive(Clone, Debug)]
pub struct Trip {
    pub id: String,
    pub route_id: String,
    pub shape_id: Option<String>,
}

/// A row of the routes table.
#[derive(Clone, Debug)]
pub struct GtfsRoute {
    pub id: String,
    pub short_name: String,
    pub long_name: String,
    pub desc: Option<String>,
    pub route_color: Option<Rgb8>,
}

/// One point of a shape. Each coordinate is kept as the bit pattern of its
/// IEEE 754 double, as `f64::to_bits` gives it: the library moves coordinates
/// around and never computes with them.
#[derive(Copy, Clone, Debug, PartialEq, Eq, Structural)]
pub struct ShapePoint {
    pub latitude: u64,
    pub longitude: u64,
}

/// The points of one shape id, in the order stored.
#[derive(Clone, Debug)]
pub struct Shape {
    pub id: String,
    pub points: Vec<ShapePoint>,
}

/// The three tables of a feed.
#[derive(Clone, Debug)]
pub struct Gtfs {
    pub trips: Vec<Trip>,
    pub routes: Vec<GtfsRoute>,
    pub shapes: Vec<Shape>,
}

/// The position of the first of `ids` that equals `id`.
pub open spec fn first_index(ids: Seq<Seq<char>>, id: Seq<char>) -> Option<int>
    decreases ids.len(),
{
    if ids.len() == 0 {
        None
    } else {
        match first_index(ids.drop_last(), id) {
            Some(i) => Some(i),
            None => if ids.last() == id {
                Some(ids.len() - 1)
            } else {
                None
            },
        }
    }
}

/// `first_index` finds a position that holds `id`, with no `id` before it, and
/// finds nothing only where `id` does not occur.
pub proof fn lemma_first_index(ids: Seq<Seq<char>>, id: Seq<char>)
    ensures
        match first_index(ids, id) {
            Some(i) => 0 <= i < ids.len() && ids[i] == id && forall|j: int|
                0 <= j < i ==> #[trigger] ids[j] != id,
            None => forall|j: int| 0 <= j < ids.len() ==> #[trigger] ids[j] != id,
        },
    decreases ids.len(),
{
    if ids.len() > 0 {
        let front = ids.drop_last();
        lemma_first_index(front, id);
        assert forall|j: int| 0 <= j < front.len() implies front[j] == ids[j] by {}
        match first_index(front, id) {
            Some(i) => {
                assert(ids[i] == front[i]);
                assert forall|j: int| 0 <= j < i implies #[trigger] ids[j] != id by {
                    assert(front[j] != id);
                }
            },
            None => {
                assert forall|j: int| 0 <= j < front.len() implies #[trigger] ids[j] != id by {
                    assert(front[j] != id);
                }
            },
        }
    }
}

impl Trip {
    /// The shape id as text, where the trip has one.
    pub open spec fn shape_text(self) -> Option<Seq<char>> {
        match self.shape_id {
            Some(id) => Some(id@),
            None => None,
        }
    }
}

impl Gtfs {
    /// The ids of the shapes table, row by row.
    pub open spec fn shape_ids(self) -> Seq<Seq<char>> {
        Seq::new(self.shapes@.len(), |i: int| self.shapes@[i].id@)
    }

    /// The ids of the routes table, row by row.
    pub open spec fn route_ids(self) -> Seq<Seq<char>> {
        Seq::new(self.routes@.len(), |i: int| self.routes@[i].id@)
    }

    /// The shape with this id, where the shapes table has one.
    pub open spec fn spec_shape(self, id: Seq<char>) -> Option<Shape> {
        match first_index(self.shape_ids(), id) {
            Some(i) => Some(self.shapes@[i]),
            None => None,
        }
    }

    /// The route with this id, where the routes table has one.
    pub open spec fn spec_route(self, id: Seq<char>) -> Option<GtfsRoute> {
        match first_index(self.route_ids(), id) {
            Some(i) => Some(self.routes@[i]),
            None => None,
        }
    }

    /// Looks a shape up by its id.
    pub fn shape(&self, id: &String) -> (found: Option<&Shape>)
        ensures
            match found {
                Some(shape) => self.spec_shape(id@) == Some(*shape) && shape.id@ == id@,
                None => self.spec_shape(id@).is_none() && forall|i: int|
                    0 <= i < self.shapes@.len() ==> (#[trigger] self.shapes@[i]).id@ != id@,
            },
    {
        proof {
            lemma_first_index(self.shape_ids(), id@);
            assert forall|i: int| 0 <= i < self.shapes@.len() implies self.shape_ids()[i]
                == (#[trigger] self.shapes@[i]).id@ by {}
        }
        let mut i: usize = 0;
        while i < self.shapes.len()
            invariant
                i <= self.shapes@.len(),
                first_index(self.shape_ids().take(i as int), id@).is_none(),
            decreases self.shapes@.len() - i,
        {
            proof {
                assert(self.shape_ids().take(i + 1).drop_last() =~= self.shape_ids().take(
                    i as int,
                ));
            }
            if self.shapes[i].id == *id {
                proof {
                    lemma_first_index_extends(self.shape_ids(), id@, i + 1);
                }
                return Some(&self.shapes[i]);
            }
            i += 1;
        }
        proof {
            assert(self.shape_ids().take(i as int) =~= self.shape_ids());
        }
        None
    }

    /// Looks a route up by its id.
    pub fn route(&self, id: &String) -> (found: Option<&GtfsRoute>)
        ensures
            match found {
                Some(route) => self.spec_route(id@) == Some(*route) && route.id@ == id@,
                None => self.spec_route(id@).is_none() && forall|i: int|
                    0 <= i < self.routes@.len() ==> (#[trigger] self.routes@[i]).id@ != id@,
            },
    {
        proof {
            lemma_first_index(self.route_ids(), id@);
            assert forall|i: int| 0 <= i < self.routes@.len() implies self.route_ids()[i]
                == (#[trigger] self.routes@[i]).id@ by {}
        }
        let mut i: usize = 0;
        while i < self.routes.len()
            invariant
                i <= self.routes@.len(),
                first_index(self.route_ids().take(i as int), id@).is_none(),
            decreases self.routes@.len() - i,
        {
            proof {
                assert(self.route_ids().take(i + 1).drop_last() =~= self.route_ids().take(
                    i as int,
                ));
            }
            if self.routes[i].id == *id {
                proof {
                    lemma_first_index_extends(self.route_ids(), id@, i + 1);
                }
                return Some(&self.routes[i]);
            }
            i += 1;
        }
        proof {
            assert(self.route_ids().take(i as int) =~= self.route_ids());
        }
        None
    }
}

/// What `first_index` finds in a prefix, it finds in the whole sequence.
pub proof fn lemma_first_index_extends(ids: Seq<Seq<char>>, id: Seq<char>, n: int)
    requires
        0 <= n <= ids.len(),
        first_index(ids.take(n), id).is_some(),
    ensures
        first_index(ids, id) == first_index(ids.take(n), id),
    decreases ids.len() - n,
{
    if n < ids.len() {
        assert(ids.take(n + 1).drop_last() =~= ids.take(n));
        lemma_first_index_extends(ids, id, n + 1);
    } else {
        assert(ids.take(n) =~= ids);
    }
}

} // verus!
