//! Reading the vehicles of a transit system.

use vstd::prelude::*;
use crate::client::PassioGoClient;
use crate::envelope::{label, label_of};
use crate::helpers::{
    boolean_coercion, float_coercion, string_coercion, to_bool, to_f64, to_string_opt,
};
use crate::json::JsonValue;
use crate::text::str_eq;
use crate::types::{float_of, text_of, VehicleData};

verus! {

/// The member `m` of the vehicle table stands for a vehicle: its name is not
/// the placeholder `-1`, and it holds an array with at least one snapshot.
pub open spec fn carries_vehicle(m: (String, JsonValue)) -> bool {
    m.0@ != "-1"@ && m.1.items().len() > 0
}

/// The members of the vehicle table that stand for a vehicle, in order.
pub open spec fn vehicle_members(members: Seq<(String, JsonValue)>) -> Seq<(String, JsonValue)> {
    members.filter(|m: (String, JsonValue)| carries_vehicle(m))
}

impl VehicleData {
    /// This record is what `snapshot` says of the vehicle that the table
    /// holds under `key`. The vehicle is named by its own `busId`, or by `key`
    /// where the snapshot has none.
    pub open spec fn reads(self, key: Seq<char>, snapshot: JsonValue) -> bool {
        &&& self.id@ == label_of(snapshot.member("busId"@), key)
        &&& text_of(self.name) == string_coercion(snapshot.member("busName"@))
        &&& text_of(self.bus_type) == string_coercion(snapshot.member("busType"@))
        &&& float_of(self.calculated_course) == float_coercion(
            snapshot.member("calculatedCourse"@),
        )
        &&& text_of(self.route_id) == string_coercion(snapshot.member("routeId"@))
        &&& text_of(self.route_name) == string_coercion(snapshot.member("route"@))
        &&& text_of(self.color) == string_coercion(snapshot.member("color"@))
        &&& text_of(self.created) == string_coercion(snapshot.member("created"@))
        &&& float_of(self.latitude) == float_coercion(snapshot.member("latitude"@))
        &&& float_of(self.longitude) == float_coercion(snapshot.member("longitude"@))
        &&& float_of(self.speed) == float_coercion(snapshot.member("speed"@))
        &&& float_of(self.pax_load) == float_coercion(snapshot.member("paxLoad100"@))
        &&& self.out_of_service == boolean_coercion(snapshot.member("outOfService"@))
        &&& text_of(self.more) == string_coercion(snapshot.member("more"@))
        &&& text_of(self.trip_id) == string_coercion(snapshot.member("tripId"@))
    }
}

/// `records` holds one record for each member of `members` that stands for a
/// vehicle, in the same order, each read from the member's first snapshot.
pub open spec fn vehicles_read(
    records: Seq<VehicleData>,
    members: Seq<(String, JsonValue)>,
) -> bool {
    let kept = vehicle_members(members);
    &&& records.len() == kept.len()
    &&& forall|i: int|
        0 <= i < kept.len() ==> (#[trigger] records[i]).reads(kept[i].0@, kept[i].1.items()[0])
}

/// Taking one more member into account adds that member to the vehicles if
/// it stands for one, and changes nothing if not.
proof fn lemma_vehicle_members_step(members: Seq<(String, JsonValue)>, i: int)
    requires
        0 <= i < members.len(),
    ensures
        vehicle_members(members.take(i + 1)) == if carries_vehicle(members[i]) {
            vehicle_members(members.take(i)).push(members[i])
        } else {
            vehicle_members(members.take(i))
        },
{
    reveal(Seq::filter);
    assert(members.take(i + 1).drop_last() == members.take(i));
}

/// Every member that yields a vehicle has a name other than `-1` and at
/// least one snapshot: the placeholder and a vehicle without snapshots never
/// yield a record.
pub proof fn lemma_vehicle_members_are_vehicles(members: Seq<(String, JsonValue)>, k: int)
    requires
        0 <= k < vehicle_members(members).len(),
    ensures
        carries_vehicle(vehicle_members(members)[k]),
        members.contains(vehicle_members(members)[k]),
{
    let pred = |m: (String, JsonValue)| carries_vehicle(m);
    members.lemma_filter_pred(pred, k);
    assert(members.filter(pred).contains(members.filter(pred)[k]));
    members.lemma_filter_contains_rev(pred, members.filter(pred)[k]);
}

/// A vehicle whose snapshot has no `busId` is named by the name under which
/// the table holds it, without the quotes at either end.
pub proof fn lemma_vehicle_named_by_key(record: VehicleData, key: Seq<char>, snapshot: JsonValue)
    requires
        record.reads(key, snapshot),
        snapshot.member("busId"@) is None,
    ensures
        record.id@ == crate::text::trimmed(key, '"'),
{
}

/// Reads one vehicle out of a snapshot of it; `key` is the name under which
/// the vehicle table holds the vehicle.
pub fn vehicle_from(key: &str, snapshot: &JsonValue) -> (r: VehicleData)
    ensures
        r.reads(key@, *snapshot),
{
    VehicleData {
        id: label(snapshot.get("busId"), key),
        name: to_string_opt(snapshot.get("busName")),
        bus_type: to_string_opt(snapshot.get("busType")),
        calculated_course: to_f64(snapshot.get("calculatedCourse")),
        route_id: to_string_opt(snapshot.get("routeId")),
        route_name: to_string_opt(snapshot.get("route")),
        color: to_string_opt(snapshot.get("color")),
        created: to_string_opt(snapshot.get("created")),
        latitude: to_f64(snapshot.get("latitude")),
        longitude: to_f64(snapshot.get("longitude")),
        speed: to_f64(snapshot.get("speed")),
        pax_load: to_f64(snapshot.get("paxLoad100")),
        out_of_service: to_bool(snapshot.get("outOfService")),
        more: to_string_opt(snapshot.get("more")),
        trip_id: to_string_opt(snapshot.get("tripId")),
    }
}

impl PassioGoClient {
    /// Reads the vehicles out of the answer to `buses_request`. The object
    /// under `buses` holds, for each vehicle, its snapshots, latest first.
    /// Each member yields one record, read from its first snapshot; the
    /// member named `-1` and a member without snapshots yield none.
    pub fn get_buses(&self, data: &JsonValue) -> (vehicles: Vec<VehicleData>)
        ensures
            vehicles_read(vehicles@, data.member_members("buses"@)),
    {
        let mut vehicles: Vec<VehicleData> = Vec::new();
        let buses = match data.get("buses") {
            Some(table) => table.as_object(),
            None => None,
        };
        proof {
            reveal(Seq::filter);
        }
        if let Some(buses) = buses {
            let mut i: usize = 0;
            while i < buses.len()
                invariant
                    i <= buses.len(),
                    buses@ == data.member_members("buses"@),
                    vehicles_read(vehicles@, buses@.take(i as int)),
                decreases buses.len() - i,
            {
                proof {
                    lemma_vehicle_members_step(buses@, i as int);
                }
                let bus_id = buses[i].0.as_str();
                if !str_eq(bus_id, "-1") {
                    if let Some(list) = buses[i].1.as_array() {
                        if list.len() > 0 {
                            vehicles.push(vehicle_from(bus_id, &list[0]));
                        }
                    }
                }
                i += 1;
            }
            proof {
                assert(buses@.take(i as int) == buses@);
            }
        }
        vehicles
    }
}

} // verus!
