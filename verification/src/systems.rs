//! Reading the list of transit systems.

use vstd::prelude::*;
use crate::client::PassioGoClient;
use crate::helpers::{
    boolean_coercion, integer_coercion, string_coercion, to_bool, to_i64, to_string_opt,
};
use crate::json::{pointee, JsonNumber, JsonValue};
use crate::text::{parse_i64, parsed_i64};
use crate::types::{text_of, TransportationSystemData};

verus! {

/// The number of a transit system, from the value of its `id` member: the
/// integer that a string writes, or an integer in the signed range itself,
/// and 0 for everything else.
pub open spec fn system_id_of(v: Option<JsonValue>) -> i64 {
    match v {
        Some(JsonValue::String(s)) => match parsed_i64(s@) {
            Some(n) => n,
            None => 0,
        },
        Some(JsonValue::Number(JsonNumber::PosInt(n))) => if n <= i64::MAX {
            n as i64
        } else {
            0
        },
        Some(JsonValue::Number(JsonNumber::NegInt(n))) => n,
        _ => 0,
    }
}

impl TransportationSystemData {
    /// This record is what the object `obj` says of a transit system.
    pub open spec fn reads(self, obj: JsonValue) -> bool {
        &&& self.id == system_id_of(obj.member("id"@))
        &&& text_of(self.name) == string_coercion(obj.member("fullname"@))
        &&& text_of(self.username) == string_coercion(obj.member("username"@))
        &&& text_of(self.go_agency_name) == string_coercion(obj.member("goAgencyName"@))
        &&& text_of(self.email) == string_coercion(obj.member("email"@))
        &&& self.go_test_mode == boolean_coercion(obj.member("goTestMode"@))
        &&& self.name2 == boolean_coercion(obj.member("name2"@))
        &&& text_of(self.homepage) == string_coercion(obj.member("homepage"@))
        &&& self.logo == boolean_coercion(obj.member("logo"@))
        &&& self.go_route_planner_enabled == boolean_coercion(
            obj.member("goRoutePlannerEnabled"@),
        )
        &&& text_of(self.go_color) == string_coercion(obj.member("goColor"@))
        &&& text_of(self.go_support_email) == string_coercion(obj.member("goSupportEmail"@))
        &&& self.go_shared_code == integer_coercion(obj.member("goSharedCode"@))
        &&& self.go_authentication_type == boolean_coercion(
            obj.member("goAuthenticationType"@),
        )
    }
}

/// `records` holds one record for each object of `list`, in the same order.
pub open spec fn systems_read(
    records: Seq<TransportationSystemData>,
    list: Seq<JsonValue>,
) -> bool {
    &&& records.len() == list.len()
    &&& forall|i: int| 0 <= i < list.len() ==> (#[trigger] records[i]).reads(list[i])
}

/// Reads the number of a transit system from the value of its `id` member.
pub fn system_id(v: Option<&JsonValue>) -> (id: i64)
    ensures
        id == system_id_of(pointee(v)),
{
    match v {
        Some(JsonValue::String(s)) => match parse_i64(s.as_str()) {
            Some(n) => n,
            None => 0,
        },
        Some(JsonValue::Number(JsonNumber::PosInt(n))) => {
            if *n <= 0x7fff_ffff_ffff_ffff {
                *n as i64
            } else {
                0
            }
        },
        Some(JsonValue::Number(JsonNumber::NegInt(n))) => *n,
        _ => 0,
    }
}

/// Reads one transit system out of the object that describes it.
pub fn system_from(obj: &JsonValue) -> (r: TransportationSystemData)
    ensures
        r.reads(*obj),
{
    TransportationSystemData {
        id: system_id(obj.get("id")),
        name: to_string_opt(obj.get("fullname")),
        username: to_string_opt(obj.get("username")),
        go_agency_name: to_string_opt(obj.get("goAgencyName")),
        email: to_string_opt(obj.get("email")),
        go_test_mode: to_bool(obj.get("goTestMode")),
        name2: to_bool(obj.get("name2")),
        homepage: to_string_opt(obj.get("homepage")),
        logo: to_bool(obj.get("logo")),
        go_route_planner_enabled: to_bool(obj.get("goRoutePlannerEnabled")),
        go_color: to_string_opt(obj.get("goColor")),
        go_support_email: to_string_opt(obj.get("goSupportEmail")),
        go_shared_code: to_i64(obj.get("goSharedCode")),
        go_authentication_type: to_bool(obj.get("goAuthenticationType")),
    }
}

impl PassioGoClient {
    /// Reads the transit systems out of the answer to `systems_request`: one
    /// record for each item of the array under `all`, in the order received.
    /// An answer of any other shape holds no system.
    pub fn get_systems(&self, data: &JsonValue) -> (systems: Vec<TransportationSystemData>)
        ensures
            systems_read(systems@, data.member_items("all"@)),
    {
        let mut systems: Vec<TransportationSystemData> = Vec::new();
        let list = match data.get("all") {
            Some(all) => all.as_array(),
            None => None,
        };
        if let Some(list) = list {
            let mut i: usize = 0;
            while i < list.len()
                invariant
                    i <= list.len(),
                    list@ == data.member_items("all"@),
                    systems_read(systems@, list@.take(i as int)),
                decreases list.len() - i,
            {
                systems.push(system_from(&list[i]));
                i += 1;
            }
            proof {
                assert(list@.take(i as int) == list@);
            }
        }
        systems
    }
}

} // verus!
