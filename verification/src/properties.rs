//! The display properties of a route, as a feature carries them.

use vstd::prelude::*;
use vstd::string::*;
use crate::color::{hex_color, rgb_as_hex};
use crate::gtfs::GtfsRoute;
use crate::json::{insert_text, json_members, new_object};

verus! {

/// What a map shows of a route.
#[derive(Clone, Debug)]
pub struct RouteProperties {
    route_id: String,
    short_name: String,
    long_name: String,
    desc: Option<String>,
    color: Option<String>,
}

/// A `RouteProperties` as plain text values.
pub struct RoutePropertiesView {
    pub route_id: Seq<char>,
    pub short_name: Seq<char>,
    pub long_name: Seq<char>,
    pub desc: Option<Seq<char>>,
    pub color: Option<Seq<char>>,
}

/// An optional string as optional text.
pub open spec fn optional_text(text: Option<String>) -> Option<Seq<char>> {
    match text {
        Some(t) => Some(t@),
        None => None,
    }
}

/// The properties of a row of the routes table: its id, names and
/// description as they stand, its color as `#RRGGBB`.
pub open spec fn properties_of(route: GtfsRoute) -> RoutePropertiesView {
    RoutePropertiesView {
        route_id: route.id@,
        short_name: route.short_name@,
        long_name: route.long_name@,
        desc: optional_text(route.desc),
        color: match route.route_color {
            Some(rgb) => Some(hex_color(rgb)),
            None => None,
        },
    }
}

/// Whether `key` is a member of the JSON object of `properties`: the three
/// required keys always, `desc` and `color` only where they have a value.
pub open spec fn is_member(properties: RoutePropertiesView, key: Seq<char>) -> bool {
    ||| key == "route_id"@
    ||| key == "short_name"@
    ||| key == "long_name"@
    ||| (key == "desc"@ && properties.desc.is_some())
    ||| (key == "color"@ && properties.color.is_some())
}

/// The text that the JSON object of `properties` holds under `key`.
pub open spec fn member_text(properties: RoutePropertiesView, key: Seq<char>) -> Seq<char> {
    if key == "route_id"@ {
        properties.route_id
    } else if key == "short_name"@ {
        properties.short_name
    } else if key == "long_name"@ {
        properties.long_name
    } else if key == "desc"@ {
        properties.desc.unwrap_or(Seq::empty())
    } else {
        properties.color.unwrap_or(Seq::empty())
    }
}

/// The JSON object of `properties`: every member is a string, and an absent
/// optional value has no member at all.
pub open spec fn properties_json(properties: RoutePropertiesView) -> Map<
    Seq<char>,
    Option<Seq<char>>,
> {
    Map::new(
        |key: Seq<char>| is_member(properties, key),
        |key: Seq<char>| Some(member_text(properties, key)),
    )
}

impl View for RouteProperties {
    type V = RoutePropertiesView;

    closed spec fn view(&self) -> RoutePropertiesView {
        RoutePropertiesView {
            route_id: self.route_id@,
            short_name: self.short_name@,
            long_name: self.long_name@,
            desc: optional_text(self.desc),
            color: optional_text(self.color),
        }
    }
}

fn clone_optional(text: &Option<String>) -> (copy: Option<String>)
    ensures
        copy == *text,
{
    match text {
        Some(t) => Some(t.clone()),
        None => None,
    }
}

impl RouteProperties {
    /// Properties with these values.
    pub fn new(
        route_id: String,
        short_name: String,
        long_name: String,
        desc: Option<String>,
        color: Option<String>,
    ) -> (properties: Self)
        ensures
            properties@ == (RoutePropertiesView {
                route_id: route_id@,
                short_name: short_name@,
                long_name: long_name@,
                desc: optional_text(desc),
                color: optional_text(color),
            }),
    {
        RouteProperties { route_id, short_name, long_name, desc, color }
    }

    /// Derives the properties from a row of the routes table.
    pub fn from_gtfs(route: &GtfsRoute) -> (properties: Self)
        ensures
            properties@ == properties_of(*route),
    {
        let color = match route.route_color {
            Some(rgb) => Some(rgb_as_hex(&rgb)),
            None => None,
        };
        RouteProperties {
            route_id: route.id.clone(),
            short_name: route.short_name.clone(),
            long_name: route.long_name.clone(),
            desc: clone_optional(&route.desc),
            color,
        }
    }

    /// The properties as a JSON object.
    pub fn into_json(self) -> (object: serde_json::Map<String, serde_json::Value>)
        ensures
            json_members(object) == properties_json(self@),
    {
        let mut properties = new_object(5);
        proof {
            reveal_strlit("route_id");
            reveal_strlit("short_name");
            reveal_strlit("long_name");
            reveal_strlit("desc");
            reveal_strlit("color");
            assert("route_id"@.len() == 8);
            assert("short_name"@.len() == 10);
            assert("long_name"@.len() == 9);
            assert("desc"@.len() == 4);
            assert("color"@.len() == 5);
        }
        insert_text(&mut properties, String::from_str("route_id"), self.route_id);
        insert_text(&mut properties, String::from_str("short_name"), self.short_name);
        insert_text(&mut properties, String::from_str("long_name"), self.long_name);
        if let Some(desc) = self.desc {
            insert_text(&mut properties, String::from_str("desc"), desc);
        }
        if let Some(color) = self.color {
            insert_text(&mut properties, String::from_str("color"), color);
        }
        proof {
            assert(json_members(properties) =~= properties_json(self@));
        }
        properties
    }

    pub fn route_id(&self) -> (text: &String)
        ensures
            text@ == self@.route_id,
    {
        &self.route_id
    }

    pub fn short_name(&self) -> (text: &String)
        ensures
            text@ == self@.short_name,
    {
        &self.short_name
    }

    pub fn long_name(&self) -> (text: &String)
        ensures
            text@ == self@.long_name,
    {
        &self.long_name
    }

    pub fn desc(&self) -> (text: &Option<String>)
        ensures
            optional_text(*text) == self@.desc,
    {
        &self.desc
    }

    pub fn color(&self) -> (text: &Option<String>)
        ensures
            optional_text(*text) == self@.color,
    {
        &self.color
    }
}

} // verus!
