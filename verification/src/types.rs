//! The records that the client hands out, one type per endpoint.

use vstd::prelude::*;

verus! {

/// A floating-point quantity, kept in the form in which the document gave it.
///
/// Turning it into a machine float is left to the caller: reinterpret the
/// bits, round the integer to the nearest float, or read the decimal text.
#[derive(Clone, Debug, PartialEq)]
pub enum FloatValue {
    /// The IEEE-754 binary64 pattern of a float.
    Bits(u64),
    /// An integer that is not negative.
    Unsigned(u64),
    /// An integer that may be negative.
    Signed(i64),
    /// A decimal text that writes a float.
    Decimal(String),
}

/// What a `FloatValue` holds, with its text as a sequence of characters.
pub enum FloatModel {
    Bits(u64),
    Unsigned(u64),
    Signed(i64),
    Decimal(Seq<char>),
}

impl View for FloatValue {
    type V = FloatModel;

    open spec fn view(&self) -> FloatModel {
        match self {
            FloatValue::Bits(b) => FloatModel::Bits(*b),
            FloatValue::Unsigned(n) => FloatModel::Unsigned(*n),
            FloatValue::Signed(n) => FloatModel::Signed(*n),
            FloatValue::Decimal(s) => FloatModel::Decimal(s@),
        }
    }
}

/// The characters of an optional string.
pub open spec fn text_of(s: Option<String>) -> Option<Seq<char>> {
    match s {
        Some(t) => Some(t@),
        None => None,
    }
}

/// What an optional float holds.
pub open spec fn float_of(f: Option<FloatValue>) -> Option<FloatModel> {
    match f {
        Some(x) => Some(x@),
        None => None,
    }
}

/// A transit system that the service hosts.
#[derive(Default, Debug, Clone)]
pub struct TransportationSystemData {
    pub id: i64,
    pub name: Option<String>,
    pub username: Option<String>,
    pub go_agency_name: Option<String>,
    pub email: Option<String>,
    pub go_test_mode: Option<bool>,
    pub name2: Option<bool>,
    pub homepage: Option<String>,
    pub logo: Option<bool>,
    pub go_route_planner_enabled: Option<bool>,
    pub go_color: Option<String>,
    pub go_support_email: Option<String>,
    pub go_shared_code: Option<i64>,
    pub go_authentication_type: Option<bool>,
}

/// A route of a transit system.
#[derive(Default, Debug, Clone)]
pub struct RouteData {
    pub id: String,
    pub group_id: Option<String>,
    pub group_color: Option<String>,
    pub name: Option<String>,
    pub short_name: Option<String>,
    pub name_orig: Option<String>,
    pub fullname: Option<String>,
    pub myid: Option<String>,
    pub map_app: Option<bool>,
    pub archive: Option<bool>,
    pub go_prefix_route_name: Option<bool>,
    pub go_show_schedule: Option<bool>,
    pub outdated: Option<bool>,
    pub distance: Option<FloatValue>,
    pub latitude: Option<FloatValue>,
    pub longitude: Option<FloatValue>,
    pub timezone: Option<String>,
    pub service_time: Option<String>,
    pub service_time_short: Option<String>,
    pub system_id: Option<i64>,
}

/// The ranks at which one route calls at a stop, in the order of the route.
#[derive(Default, Debug, Clone)]
pub struct RoutePositions {
    pub route_id: String,
    pub positions: Vec<FloatValue>,
}

/// A stop, with the routes that call at it.
///
/// `routes_and_positions` names a route once, and only a route that calls at
/// the stop at least once.
#[derive(Default, Debug, Clone)]
pub struct StopData {
    pub id: String,
    pub routes_and_positions: Vec<RoutePositions>,
    pub system_id: Option<i64>,
    pub name: Option<String>,
    pub latitude: Option<FloatValue>,
    pub longitude: Option<FloatValue>,
    pub radius: Option<FloatValue>,
}

/// A service alert.
#[derive(Debug, Default, Clone)]
pub struct SystemAlertData {
    pub id: String,
    pub system_id: Option<i64>,
    pub route_id: Option<String>,
    pub name: Option<String>,
    pub html: Option<String>,
    pub archive: Option<bool>,
    pub important: Option<bool>,
    pub date_time_created: Option<String>,
    pub date_time_from: Option<String>,
    pub date_time_to: Option<String>,
    pub as_push: Option<bool>,
    pub gtfs: Option<bool>,
    pub gtfs_alert_cause_id: Option<i64>,
    pub gtfs_alert_effect_id: Option<i64>,
    pub gtfs_alert_url: Option<String>,
    pub gtfs_alert_header_text: Option<String>,
    pub gtfs_alert_description_text: Option<String>,
    pub route_group_id: Option<i64>,
    pub created_utc: Option<String>,
    pub author_id: Option<i64>,
    pub author: Option<String>,
    pub updated: Option<String>,
    pub update_author_id: Option<i64>,
    pub update_author: Option<String>,
    pub created_f: Option<String>,
    pub from_f: Option<String>,
    pub from_ok: Option<bool>,
    pub to_ok: Option<bool>,
}

/// A vehicle, as its latest snapshot shows it.
#[derive(Debug, Default, Clone)]
pub struct VehicleData {
    pub id: String,
    pub name: Option<String>,
    pub bus_type: Option<String>,
    pub calculated_course: Option<FloatValue>,
    pub route_id: Option<String>,
    pub route_name: Option<String>,
    pub color: Option<String>,
    pub created: Option<String>,
    pub latitude: Option<FloatValue>,
    pub longitude: Option<FloatValue>,
    pub speed: Option<FloatValue>,
    pub pax_load: Option<FloatValue>,
    pub out_of_service: Option<bool>,
    pub more: Option<String>,
    pub trip_id: Option<String>,
}

} // verus!
