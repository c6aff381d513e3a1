//! URLs to download static GTFS assets for the NY area metro.

use vstd::prelude::*;

verus! {

pub const MTA_BRONX_BUS_GTFS: &'static str = "https://transitfeeds.com/p/mta/81/latest/download";

pub const MTA_BROOKLYN_BUS_GTFS: &'static str = "https://transitfeeds.com/p/mta/80/latest/download";

pub const MTA_MANHATTAN_BUS_GTFS: &'static str = "https://transitfeeds.com/p/mta/82/latest/download";

pub const MTA_QUEENS_BUS_GTFS: &'static str = "https://transitfeeds.com/p/mta/83/latest/download";

pub const MTA_STATEN_ISLAND_GTFS: &'static str = "https://transitfeeds.com/p/mta/84/latest/download";

pub const MTA_SUBWAY_GTFS: &'static str = "https://transitfeeds.com/p/mta/79/latest/download";

pub const PATH_GTFS: &'static str =
    "https://transitfeeds.com/p/port-authority-of-new-york-and-new-jersey/384/latest/download";

pub const MTA_LIRR_GTFS: &'static str = "https://transitfeeds.com/p/mta/86/latest/download";

pub const MTA_METRO_NORTH_GTFS: &'static str = "https://transitfeeds.com/p/mta/87/latest/download";

pub const NJ_TRANSIT_RAIL_GTFS: &'static str = "https://transitfeeds.com/p/nj-transit/408/latest/download";

} // verus!
