//! The registry of GTFS data sources: a closed set of transit feeds, each with
//! a fixed download URL and a fixed file name stem for its cached archive.

use vstd::prelude::*;
use vstd::string::*;

pub mod cache;
pub mod urls;
pub mod worker;

pub use worker::StaticDataWorker;

verus! {

/// One transit feed of the NY area.
#[derive(Copy, Clone, Debug, PartialEq, Eq, Structural)]
pub enum GtfsDataSource {
    MtaBronxBus,
    MtaBrooklynBus,
    MtaManhattanBus,
    MtaQueensBus,
    MtaStatenIslandBus,
    MtaSubway,
    Path,
    MtaLirr,
    MtaMetroNorth,
    NjTransitRail,
}

impl GtfsDataSource {
    /// The address the feed's archive is downloaded from.
    pub open spec fn spec_url(self) -> Seq<char> {
        match self {
            GtfsDataSource::MtaBronxBus => urls::MTA_BRONX_BUS_GTFS@,
            GtfsDataSource::MtaBrooklynBus => urls::MTA_BROOKLYN_BUS_GTFS@,
            GtfsDataSource::MtaManhattanBus => urls::MTA_MANHATTAN_BUS_GTFS@,
            GtfsDataSource::MtaQueensBus => urls::MTA_QUEENS_BUS_GTFS@,
            GtfsDataSource::MtaStatenIslandBus => urls::MTA_STATEN_ISLAND_GTFS@,
            GtfsDataSource::MtaSubway => urls::MTA_SUBWAY_GTFS@,
            GtfsDataSource::Path => urls::PATH_GTFS@,
            GtfsDataSource::MtaLirr => urls::MTA_LIRR_GTFS@,
            GtfsDataSource::MtaMetroNorth => urls::MTA_METRO_NORTH_GTFS@,
            GtfsDataSource::NjTransitRail => urls::NJ_TRANSIT_RAIL_GTFS@,
        }
    }

    /// The stem of the file the feed's archive is cached under.
    pub open spec fn spec_filename(self) -> Seq<char> {
        match self {
            GtfsDataSource::MtaBronxBus => "mta_bronx_bus"@,
            GtfsDataSource::MtaBrooklynBus => "mta_brooklyn_bus"@,
            GtfsDataSource::MtaManhattanBus => "mta_manhattan_bus"@,
            GtfsDataSource::MtaQueensBus => "mta_queens_bus"@,
            GtfsDataSource::MtaStatenIslandBus => "mta_staten_island_bus"@,
            GtfsDataSource::MtaSubway => "mta_subway"@,
            GtfsDataSource::Path => "path"@,
            GtfsDataSource::MtaLirr => "mta_lirr"@,
            GtfsDataSource::MtaMetroNorth => "mta_metro_north"@,
            GtfsDataSource::NjTransitRail => "nj_transit_rail"@,
        }
    }

    /// Every source, in the order in which the sources are updated and their
    /// features are concatenated.
    pub open spec fn registry() -> Seq<GtfsDataSource> {
        seq![
            GtfsDataSource::MtaBronxBus,
            GtfsDataSource::MtaBrooklynBus,
            GtfsDataSource::MtaManhattanBus,
            GtfsDataSource::MtaQueensBus,
            GtfsDataSource::MtaStatenIslandBus,
            GtfsDataSource::MtaSubway,
            GtfsDataSource::Path,
            GtfsDataSource::MtaLirr,
            GtfsDataSource::MtaMetroNorth,
            GtfsDataSource::NjTransitRail,
        ]
    }

    pub fn url(&self) -> (result: &'static str)
        ensures
            result@ == self.spec_url(),
    {
        match self {
            GtfsDataSource::MtaBronxBus => urls::MTA_BRONX_BUS_GTFS,
            GtfsDataSource::MtaBrooklynBus => urls::MTA_BROOKLYN_BUS_GTFS,
            GtfsDataSource::MtaManhattanBus => urls::MTA_MANHATTAN_BUS_GTFS,
            GtfsDataSource::MtaQueensBus => urls::MTA_QUEENS_BUS_GTFS,
            GtfsDataSource::MtaStatenIslandBus => urls::MTA_STATEN_ISLAND_GTFS,
            GtfsDataSource::MtaSubway => urls::MTA_SUBWAY_GTFS,
            GtfsDataSource::Path => urls::PATH_GTFS,
            GtfsDataSource::MtaLirr => urls::MTA_LIRR_GTFS,
            GtfsDataSource::MtaMetroNorth => urls::MTA_METRO_NORTH_GTFS,
            GtfsDataSource::NjTransitRail => urls::NJ_TRANSIT_RAIL_GTFS,
        }
    }

    pub fn filename(&self) -> (result: &'static str)
        ensures
            result@ == self.spec_filename(),
    {
        match self {
            GtfsDataSource::MtaBronxBus => "mta_bronx_bus",
            GtfsDataSource::MtaBrooklynBus => "mta_brooklyn_bus",
            GtfsDataSource::MtaManhattanBus => "mta_manhattan_bus",
            GtfsDataSource::MtaQueensBus => "mta_queens_bus",
            GtfsDataSource::MtaStatenIslandBus => "mta_staten_island_bus",
            GtfsDataSource::MtaSubway => "mta_subway",
            GtfsDataSource::Path => "path",
            GtfsDataSource::MtaLirr => "mta_lirr",
            GtfsDataSource::MtaMetroNorth => "mta_metro_north",
            GtfsDataSource::NjTransitRail => "nj_transit_rail",
        }
    }

    pub fn all() -> (result: [GtfsDataSource; 10])
        ensures
            result@ == Self::registry(),
    {
        let sources = [
            GtfsDataSource::MtaBronxBus,
            GtfsDataSource::MtaBrooklynBus,
            GtfsDataSource::MtaManhattanBus,
            GtfsDataSource::MtaQueensBus,
            GtfsDataSource::MtaStatenIslandBus,
            GtfsDataSource::MtaSubway,
            GtfsDataSource::Path,
            GtfsDataSource::MtaLirr,
            GtfsDataSource::MtaMetroNorth,
            GtfsDataSource::NjTransitRail,
        ];
        assert(sources@ =~= Self::registry());
        sources
    }
}

/// No two sources share a file name stem.
pub proof fn lemma_filenames_distinct(a: GtfsDataSource, b: GtfsDataSource)
    requires
        a != b,
    ensures
        a.spec_filename() != b.spec_filename(),
{
    reveal_strlit("mta_bronx_bus");
    reveal_strlit("mta_brooklyn_bus");
    reveal_strlit("mta_manhattan_bus");
    reveal_strlit("mta_queens_bus");
    reveal_strlit("mta_staten_island_bus");
    reveal_strlit("mta_subway");
    reveal_strlit("path");
    reveal_strlit("mta_lirr");
    reveal_strlit("mta_metro_north");
    reveal_strlit("nj_transit_rail");
    let x = a.spec_filename();
    let y = b.spec_filename();
    if x.len() == y.len() {
        // Only `mta_metro_north` and `nj_transit_rail` agree in length, and
        // they differ in their first letter.
        assert(x[0] != y[0]);
    }
}

/// The registry lists every source, and none twice.
pub proof fn lemma_registry_complete(source: GtfsDataSource)
    ensures
        GtfsDataSource::registry().len() == 10,
        GtfsDataSource::registry().contains(source),
        GtfsDataSource::registry().no_duplicates(),
{
    let registry = GtfsDataSource::registry();
    let at: int = match source {
        GtfsDataSource::MtaBronxBus => 0,
        GtfsDataSource::MtaBrooklynBus => 1,
        GtfsDataSource::MtaManhattanBus => 2,
        GtfsDataSource::MtaQueensBus => 3,
        GtfsDataSource::MtaStatenIslandBus => 4,
        GtfsDataSource::MtaSubway => 5,
        GtfsDataSource::Path => 6,
        GtfsDataSource::MtaLirr => 7,
        GtfsDataSource::MtaMetroNorth => 8,
        GtfsDataSource::NjTransitRail => 9,
    };
    assert(registry[at] == source);
}

} // verus!
