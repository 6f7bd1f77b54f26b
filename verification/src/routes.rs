//! Reading the routes of a transit system.

use vstd::prelude::*;
use crate::client::PassioGoClient;
use crate::envelope::{envelope, envelope_items, label, label_of};
use crate::helpers::{
    boolean_coercion, float_coercion, integer_coercion, string_coercion, to_bool, to_f64, to_i64,
    to_string_opt,
};
use crate::json::JsonValue;
use crate::types::{float_of, text_of, RouteData};

verus! {

impl RouteData {
    /// This record is what the object `obj` says of a route.
    pub open spec fn reads(self, obj: JsonValue) -> bool {
        &&& self.id@ == label_of(obj.member("id"@), ""@)
        &&& text_of(self.group_id) == string_coercion(obj.member("groupId"@))
        &&& text_of(self.group_color) == string_coercion(obj.member("groupColor"@))
        &&& text_of(self.name) == string_coercion(obj.member("name"@))
        &&& text_of(self.short_name) == string_coercion(obj.member("shortName"@))
        &&& text_of(self.name_orig) == string_coercion(obj.member("nameOrig"@))
        &&& text_of(self.fullname) == string_coercion(obj.member("fullname"@))
        &&& text_of(self.myid) == string_coercion(obj.member("myid"@))
        &&& self.map_app == boolean_coercion(obj.member("mapApp"@))
        &&& self.archive == boolean_coercion(obj.member("archive"@))
        &&& self.go_prefix_route_name == boolean_coercion(obj.member("goPrefixRouteName"@))
        &&& self.go_show_schedule == boolean_coercion(obj.member("goShowSchedule"@))
        &&& self.outdated == boolean_coercion(obj.member("outdated"@))
        &&& float_of(self.distance) == float_coercion(obj.member("distance"@))
        &&& float_of(self.latitude) == float_coercion(obj.member("latitude"@))
        &&& float_of(self.longitude) == float_coercion(obj.member("longitude"@))
        &&& text_of(self.timezone) == string_coercion(obj.member("timezone"@))
        &&& text_of(self.service_time) == string_coercion(obj.member("serviceTime"@))
        &&& text_of(self.service_time_short) == string_coercion(obj.member("serviceTimeShort"@))
        &&& self.system_id == integer_coercion(obj.member("systemId"@))
    }
}

/// `records` holds one record for each object of `list`, in the same order.
pub open spec fn routes_read(records: Seq<RouteData>, list: Seq<JsonValue>) -> bool {
    &&& records.len() == list.len()
    &&& forall|i: int| 0 <= i < list.len() ==> (#[trigger] records[i]).reads(list[i])
}

/// Reads one route out of the object that describes it.
pub fn route_from(obj: &JsonValue) -> (r: RouteData)
    ensures
        r.reads(*obj),
{
    RouteData {
        id: label(obj.get("id"), ""),
        group_id: to_string_opt(obj.get("groupId")),
        group_color: to_string_opt(obj.get("groupColor")),
        name: to_string_opt(obj.get("name")),
        short_name: to_string_opt(obj.get("shortName")),
        name_orig: to_string_opt(obj.get("nameOrig")),
        fullname: to_string_opt(obj.get("fullname")),
        myid: to_string_opt(obj.get("myid")),
        map_app: to_bool(obj.get("mapApp")),
        archive: to_bool(obj.get("archive")),
        go_prefix_route_name: to_bool(obj.get("goPrefixRouteName")),
        go_show_schedule: to_bool(obj.get("goShowSchedule")),
        outdated: to_bool(obj.get("outdated")),
        distance: to_f64(obj.get("distance")),
        latitude: to_f64(obj.get("latitude")),
        longitude: to_f64(obj.get("longitude")),
        timezone: to_string_opt(obj.get("timezone")),
        service_time: to_string_opt(obj.get("serviceTime")),
        service_time_short: to_string_opt(obj.get("serviceTimeShort")),
        system_id: to_i64(obj.get("systemId")),
    }
}

impl PassioGoClient {
    /// Reads the routes out of the answer to `routes_request`: one record for
    /// each item of the list, which is the answer itself or stands under
    /// `all`, in the order received.
    pub fn get_routes(&self, data: &JsonValue) -> (routes: Vec<RouteData>)
        ensures
            routes_read(routes@, envelope_items(*data, "all"@)),
    {
        let mut routes: Vec<RouteData> = Vec::new();
        if let Some(list) = envelope(data, "all") {
            let mut i: usize = 0;
            while i < list.len()
                invariant
                    i <= list.len(),
                    list@ == envelope_items(*data, "all"@),
                    routes_read(routes@, list@.take(i as int)),
                decreases list.len() - i,
            {
                routes.push(route_from(&list[i]));
                i += 1;
            }
            proof {
                assert(list@.take(i as int) == list@);
            }
        }
        routes
    }
}

} // verus!
