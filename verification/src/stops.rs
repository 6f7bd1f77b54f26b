//! Reading the stops of a transit system, and where each route calls at them.
//!
//! The answer holds two tables. Under `routes`, each route has an array: two
//! header entries, then one `[rank, stop]` pair for each call of the route at
//! a stop. Under `stops`, each stop has an object that describes it. A stop
//! record lists, for every route that calls at the stop, the ranks of its
//! calls there, in the order of the route.

use vstd::prelude::*;
use crate::client::PassioGoClient;
use crate::helpers::{
    float_coercion, integer_coercion, string_coercion, to_f64, to_i64, to_string_opt,
};
use crate::json::{distinct_names, JsonValue};
use crate::text::str_eq;
use crate::types::{float_of, text_of, FloatModel, FloatValue, RoutePositions, StopData};

verus! {

/// A call as the contracts see it: its rank and the stop it names.
pub type CallModel = (FloatModel, Seq<char>);

/// One call of a route at a stop.
#[derive(Debug)]
pub struct RouteCall {
    pub rank: FloatValue,
    pub stop_id: String,
}

impl View for RouteCall {
    type V = CallModel;

    open spec fn view(&self) -> CallModel {
        (self.rank@, self.stop_id@)
    }
}

/// What a list of calls holds.
pub open spec fn calls_view(calls: Seq<RouteCall>) -> Seq<CallModel> {
    calls.map_values(|c: RouteCall| c@)
}

/// What a list of floats holds.
pub open spec fn floats_view(floats: Seq<FloatValue>) -> Seq<FloatModel> {
    floats.map_values(|f: FloatValue| f@)
}

/// The stop that a `[rank, stop]` pair names: its second item read as text,
/// and the empty text where that gives nothing.
pub open spec fn stop_ref(item: JsonValue) -> Seq<char> {
    match string_coercion(Some(item.items()[1])) {
        Some(s) => s,
        None => Seq::empty(),
    }
}

/// The entry `item` of a route is a call: an array of two items or more that
/// names a stop, and not the stop `0`, which stands for none.
pub open spec fn is_call(item: JsonValue) -> bool {
    &&& item.items().len() >= 2
    &&& stop_ref(item).len() > 0
    &&& stop_ref(item) != "0"@
}

/// The entries of a route that are calls, in order. The first two entries of
/// a route are headers and never count.
pub open spec fn calls(list: Seq<JsonValue>) -> Seq<JsonValue> {
    if list.len() <= 2 {
        Seq::empty()
    } else {
        list.skip(2).filter(|item: JsonValue| is_call(item))
    }
}

/// The rank of the call `item`, which is call number `k` of its route,
/// counted from 0: its first item read as a float, and `k` where that gives
/// nothing.
pub open spec fn rank_of(item: JsonValue, k: int) -> FloatModel {
    match float_coercion(Some(item.items()[0])) {
        Some(f) => f,
        None => FloatModel::Unsigned(k as u64),
    }
}

/// The calls of the route with the entries `list`, each with its rank and
/// the stop it names.
pub open spec fn entries_of(list: Seq<JsonValue>) -> Seq<CallModel> {
    Seq::new(calls(list).len(), |k: int| (rank_of(calls(list)[k], k), stop_ref(calls(list)[k])))
}

/// Among `entries`, the ranks of the calls at the stop `stop_id`, in order.
pub open spec fn ranks_among(entries: Seq<CallModel>, stop_id: Seq<char>) -> Seq<FloatModel> {
    entries.filter(|e: CallModel| e.1 == stop_id).map_values(|e: CallModel| e.0)
}

/// Taking one more entry of a route into account adds it to the calls if it
/// is one, and changes nothing if not.
proof fn lemma_calls_step(list: Seq<JsonValue>, j: int)
    requires
        2 <= j < list.len(),
    ensures
        calls(list.take(j + 1)) == if is_call(list[j]) {
            calls(list.take(j)).push(list[j])
        } else {
            calls(list.take(j))
        },
        is_call(list[j]) ==> entries_of(list.take(j + 1)) == entries_of(list.take(j)).push(
            (rank_of(list[j], calls(list.take(j)).len() as int), stop_ref(list[j])),
        ),
        !is_call(list[j]) ==> entries_of(list.take(j + 1)) == entries_of(list.take(j)),
{
    reveal(Seq::filter);
    let pred = |item: JsonValue| is_call(item);
    assert(list.take(j + 1).skip(2).drop_last() =~= list.take(j).skip(2));
    assert(list.take(j + 1).skip(2).last() == list[j]);
    if j == 2 {
        assert(list.take(j).skip(2).filter(pred) =~= Seq::<JsonValue>::empty());
    }
    if is_call(list[j]) {
        assert(entries_of(list.take(j + 1)) =~= entries_of(list.take(j)).push(
            (rank_of(list[j], calls(list.take(j)).len() as int), stop_ref(list[j])),
        ));
    }
}

/// Reads the calls of one route out of its entries.
pub fn route_calls(list: &Vec<JsonValue>) -> (out: Vec<RouteCall>)
    ensures
        calls_view(out@) == entries_of(list@),
{
    let mut out: Vec<RouteCall> = Vec::new();
    if list.len() <= 2 {
        assert(calls_view(out@) =~= entries_of(list@));
        return out;
    }
    let mut j: usize = 2;
    assert(calls_view(out@) =~= entries_of(list@.take(2)));
    while j < list.len()
        invariant
            2 <= j <= list.len(),
            out@.len() == calls(list@.take(j as int)).len(),
            calls_view(out@) == entries_of(list@.take(j as int)),
        decreases list.len() - j,
    {
        proof {
            lemma_calls_step(list@, j as int);
        }
        let ghost before = out@;
        if let Some(pair) = list[j].as_array() {
            if pair.len() >= 2 {
                let stop_id = match to_string_opt(Some(&pair[1])) {
                    Some(s) => s,
                    None => String::new(),
                };
                if !stop_id.as_str().is_empty() && !str_eq(stop_id.as_str(), "0") {
                    let rank = match to_f64(Some(&pair[0])) {
                        Some(f) => f,
                        None => FloatValue::Unsigned(out.len() as u64),
                    };
                    let call = RouteCall { rank, stop_id };
                    out.push(call);
                    assert(calls_view(out@) =~= calls_view(before).push(call@));
                }
            }
        }
        j += 1;
    }
    assert(list@.take(j as int) == list@);
    out
}

/// A route as the contracts see it: its name and its calls.
pub type RouteModel = (Seq<char>, Seq<CallModel>);

/// The service of one route at a stop as the contracts see it: the name of
/// the route and the ranks of its calls there.
pub type ServiceModel = (Seq<char>, Seq<FloatModel>);

/// A route and its calls.
#[derive(Debug)]
pub struct RouteTrack {
    pub route_id: String,
    pub calls: Vec<RouteCall>,
}

impl View for RouteTrack {
    type V = RouteModel;

    open spec fn view(&self) -> RouteModel {
        (self.route_id@, calls_view(self.calls@))
    }
}

impl View for RoutePositions {
    type V = ServiceModel;

    open spec fn view(&self) -> ServiceModel {
        (self.route_id@, floats_view(self.positions@))
    }
}

/// What a list of routes with their calls holds.
pub open spec fn tracks_view(tracks: Seq<RouteTrack>) -> Seq<RouteModel> {
    tracks.map_values(|t: RouteTrack| t@)
}

/// What a list of routes with their ranks at one stop holds.
pub open spec fn services_view(services: Seq<RoutePositions>) -> Seq<ServiceModel> {
    services.map_values(|p: RoutePositions| p@)
}

/// The routes of the route table, each with its calls, in order.
pub open spec fn route_table(routes: Seq<(String, JsonValue)>) -> Seq<RouteModel> {
    routes.map_values(|r: (String, JsonValue)| (r.0@, entries_of(r.1.items())))
}

/// Among `table`, the routes that call at the stop `stop_id`, each with the
/// ranks of its calls there, in order.
pub open spec fn served_among(table: Seq<RouteModel>, stop_id: Seq<char>) -> Seq<ServiceModel> {
    table.map_values(|t: RouteModel| (t.0, ranks_among(t.1, stop_id))).filter(
        |p: ServiceModel| p.1.len() > 0,
    )
}

/// The routes of the route table that call at the stop `stop_id`, each with
/// the ranks of its calls there.
pub open spec fn served(routes: Seq<(String, JsonValue)>, stop_id: Seq<char>) -> Seq<
    ServiceModel,
> {
    served_among(route_table(routes), stop_id)
}

/// The name of a stop: its own `id` read as text, or the name under which
/// the stop table holds it where that gives nothing.
pub open spec fn stop_id_of(key: Seq<char>, obj: JsonValue) -> Seq<char> {
    match string_coercion(obj.member("id"@)) {
        Some(s) => s,
        None => key,
    }
}

impl StopData {
    /// Every route that the record lists calls at the stop at least once.
    pub open spec fn lists_calling_routes(self) -> bool {
        forall|k: int|
            0 <= k < self.routes_and_positions@.len() ==> (
            #[trigger] self.routes_and_positions@[k]).positions@.len() > 0
    }

    /// The record lists no route twice.
    pub open spec fn lists_routes_once(self) -> bool {
        forall|a: int, b: int|
            0 <= a < b < self.routes_and_positions@.len() ==> (
            #[trigger] self.routes_and_positions@[a]).route_id@ != (
            #[trigger] self.routes_and_positions@[b]).route_id@
    }

    /// This record is what `obj` says of the stop that the stop table holds
    /// under `key`, with the routes of `routes` that call at it.
    pub open spec fn reads(
        self,
        key: Seq<char>,
        obj: JsonValue,
        routes: Seq<(String, JsonValue)>,
    ) -> bool {
        &&& self.id@ == stop_id_of(key, obj)
        &&& services_view(self.routes_and_positions@) == served(routes, stop_id_of(key, obj))
        &&& self.system_id == integer_coercion(obj.member("userId"@))
        &&& text_of(self.name) == string_coercion(obj.member("name"@))
        &&& float_of(self.latitude) == float_coercion(obj.member("latitude"@))
        &&& float_of(self.longitude) == float_coercion(obj.member("longitude"@))
        &&& float_of(self.radius) == float_coercion(obj.member("radius"@))
    }
}

/// `records` holds one record for each member of the stop table `stops`, in
/// the same order, each with its routes out of `routes`.
pub open spec fn stops_read(
    records: Seq<StopData>,
    stops: Seq<(String, JsonValue)>,
    routes: Seq<(String, JsonValue)>,
) -> bool {
    &&& records.len() == stops.len()
    &&& forall|i: int|
        0 <= i < stops.len() ==> (#[trigger] records[i]).reads(stops[i].0@, stops[i].1, routes)
}

/// Taking one more call into account adds its rank if it is at the stop, and
/// changes nothing if not.
proof fn lemma_ranks_step(entries: Seq<CallModel>, stop_id: Seq<char>, i: int)
    requires
        0 <= i < entries.len(),
    ensures
        ranks_among(entries.take(i + 1), stop_id) == if entries[i].1 == stop_id {
            ranks_among(entries.take(i), stop_id).push(entries[i].0)
        } else {
            ranks_among(entries.take(i), stop_id)
        },
{
    reveal(Seq::filter);
    assert(entries.take(i + 1).drop_last() == entries.take(i));
    if entries[i].1 == stop_id {
        assert(ranks_among(entries.take(i + 1), stop_id) =~= ranks_among(
            entries.take(i),
            stop_id,
        ).push(entries[i].0));
    }
}

/// Taking one more route into account adds it with its ranks if it calls at
/// the stop, and changes nothing if not.
proof fn lemma_served_step(table: Seq<RouteModel>, stop_id: Seq<char>, i: int)
    requires
        0 <= i < table.len(),
    ensures
        served_among(table.take(i + 1), stop_id) == if ranks_among(table[i].1, stop_id).len()
            > 0 {
            served_among(table.take(i), stop_id).push(
                (table[i].0, ranks_among(table[i].1, stop_id)),
            )
        } else {
            served_among(table.take(i), stop_id)
        },
{
    reveal(Seq::filter);
    let each = |t: RouteModel| (t.0, ranks_among(t.1, stop_id));
    assert(table.take(i + 1).map_values(each).drop_last() =~= table.take(i).map_values(each));
}

/// Every call of a route names a stop: no call has the empty name or the
/// name `0`. So an entry that names neither adds no rank to any stop, and the
/// stops named `0` or by the empty text have no ranks on any route.
pub proof fn lemma_calls_name_stops(list: Seq<JsonValue>)
    ensures
        forall|k: int|
            0 <= k < entries_of(list).len() ==> (#[trigger] entries_of(list)[k]).1.len() > 0
                && entries_of(list)[k].1 != "0"@,
        ranks_among(entries_of(list), "0"@).len() == 0,
        ranks_among(entries_of(list), Seq::empty()).len() == 0,
{
    let entries = entries_of(list);
    assert forall|k: int| 0 <= k < entries.len() implies (#[trigger] entries[k]).1.len() > 0
        && entries[k].1 != "0"@ by {
        list.skip(2).lemma_filter_pred(|item: JsonValue| is_call(item), k);
    }
    lemma_no_rank_without_call(entries, "0"@);
    lemma_no_rank_without_call(entries, Seq::empty());
}

/// A stop that no call names has no ranks.
pub proof fn lemma_no_rank_without_call(entries: Seq<CallModel>, stop_id: Seq<char>)
    requires
        forall|k: int| 0 <= k < entries.len() ==> (#[trigger] entries[k]).1 != stop_id,
    ensures
        ranks_among(entries, stop_id).len() == 0,
    decreases entries.len(),
{
    if entries.len() == 0 {
        reveal(Seq::filter);
    } else {
        let n = entries.len() - 1;
        lemma_no_rank_without_call(entries.drop_last(), stop_id);
        lemma_ranks_step(entries, stop_id, n);
        assert(entries.take(n + 1) == entries);
        assert(entries.take(n) == entries.drop_last());
    }
}

/// No two routes of `table` share a name.
pub open spec fn distinct_routes(table: Seq<RouteModel>) -> bool {
    forall|i: int, j: int|
        0 <= i < j < table.len() ==> (#[trigger] table[i]).0 != (#[trigger] table[j]).0
}

/// Every route listed for a stop calls there at least once and is a route of
/// the table; and where the table names each route once, so does the list.
pub proof fn lemma_served_among_routes(table: Seq<RouteModel>, stop_id: Seq<char>)
    ensures
        forall|k: int|
            0 <= k < served_among(table, stop_id).len() ==> (#[trigger] served_among(
                table,
                stop_id,
            )[k]).1.len() > 0,
        forall|k: int|
            0 <= k < served_among(table, stop_id).len() ==> exists|i: int|
                0 <= i < table.len() && (#[trigger] table[i]).0 == (#[trigger] served_among(
                    table,
                    stop_id,
                )[k]).0,
        distinct_routes(table) ==> forall|a: int, b: int|
            0 <= a < b < served_among(table, stop_id).len() ==> (#[trigger] served_among(
                table,
                stop_id,
            )[a]).0 != (#[trigger] served_among(table, stop_id)[b]).0,
    decreases table.len(),
{
    let all = served_among(table, stop_id);
    if table.len() == 0 {
        reveal(Seq::filter);
        assert(all =~= Seq::<ServiceModel>::empty());
    } else {
        let n = table.len() - 1;
        let front = table.drop_last();
        let before = served_among(front, stop_id);
        lemma_served_among_routes(front, stop_id);
        lemma_served_step(table, stop_id, n);
        assert(table.take(n + 1) == table);
        assert(table.take(n) == front);
        assert forall|k: int| 0 <= k < all.len() implies exists|i: int|
            0 <= i < table.len() && (#[trigger] table[i]).0 == (#[trigger] all[k]).0 by {
            if k < before.len() {
                let i = choose|i: int|
                    0 <= i < front.len() && (#[trigger] front[i]).0 == before[k].0;
                assert(table[i].0 == all[k].0);
            } else {
                assert(table[n].0 == all[k].0);
            }
        }
        if distinct_routes(table) {
            assert(distinct_routes(front)) by {
                assert forall|i: int, j: int| 0 <= i < j < front.len() implies (
                #[trigger] front[i]).0 != (#[trigger] front[j]).0 by {
                    assert(table[i].0 != table[j].0);
                }
            }
            assert forall|a: int, b: int| 0 <= a < b < all.len() implies (#[trigger] all[a]).0
                != (#[trigger] all[b]).0 by {
                if b == before.len() {
                    let i = choose|i: int|
                        0 <= i < front.len() && (#[trigger] front[i]).0 == before[a].0;
                    assert(table[i].0 != table[n].0);
                }
            }
        }
    }
}

/// The routes listed for a stop: each calls there at least once, and where
/// the route table names each route once, the list names each route once.
pub proof fn lemma_served_routes(routes: Seq<(String, JsonValue)>, stop_id: Seq<char>)
    ensures
        forall|k: int|
            0 <= k < served(routes, stop_id).len() ==> (#[trigger] served(
                routes,
                stop_id,
            )[k]).1.len() > 0,
        distinct_names(routes) ==> forall|a: int, b: int|
            0 <= a < b < served(routes, stop_id).len() ==> (#[trigger] served(
                routes,
                stop_id,
            )[a]).0 != (#[trigger] served(routes, stop_id)[b]).0,
{
    let table = route_table(routes);
    lemma_served_among_routes(table, stop_id);
    if distinct_names(routes) {
        assert forall|i: int, j: int| 0 <= i < j < table.len() implies (#[trigger] table[i]).0
            != (#[trigger] table[j]).0 by {
            assert(routes[i].0@ != routes[j].0@);
        }
    }
}

/// A record that reads a stop lists only routes that call there; and where
/// the route table names each route once, the record lists each route once.
pub proof fn lemma_stop_record_well_formed(
    record: StopData,
    key: Seq<char>,
    obj: JsonValue,
    routes: Seq<(String, JsonValue)>,
)
    requires
        record.reads(key, obj, routes),
    ensures
        record.lists_calling_routes(),
        distinct_names(routes) ==> record.lists_routes_once(),
{
    let listed = services_view(record.routes_and_positions@);
    lemma_served_routes(routes, stop_id_of(key, obj));
    assert forall|k: int| 0 <= k < record.routes_and_positions@.len() implies (
    #[trigger] record.routes_and_positions@[k]).positions@.len() > 0 by {
        assert(listed[k].1.len() > 0);
    }
    if distinct_names(routes) {
        assert forall|a: int, b: int|
            0 <= a < b < record.routes_and_positions@.len() implies (
        #[trigger] record.routes_and_positions@[a]).route_id@ != (
        #[trigger] record.routes_and_positions@[b]).route_id@ by {
            assert(listed[a].0 != listed[b].0);
        }
    }
}

/// A copy of a float.
fn copy_float(f: &FloatValue) -> (r: FloatValue)
    ensures
        r@ == f@,
{
    match f {
        FloatValue::Bits(b) => FloatValue::Bits(*b),
        FloatValue::Unsigned(n) => FloatValue::Unsigned(*n),
        FloatValue::Signed(n) => FloatValue::Signed(*n),
        FloatValue::Decimal(s) => FloatValue::Decimal(s.clone()),
    }
}

/// Picks, out of the calls of one route, the ranks of those at `stop_id`.
pub fn ranks_at(calls: &Vec<RouteCall>, stop_id: &str) -> (out: Vec<FloatValue>)
    ensures
        floats_view(out@) == ranks_among(calls_view(calls@), stop_id@),
{
    let mut out: Vec<FloatValue> = Vec::new();
    let ghost entries = calls_view(calls@);
    let mut i: usize = 0;
    proof {
        reveal(Seq::filter);
        assert(floats_view(out@) =~= ranks_among(entries.take(0), stop_id@));
    }
    while i < calls.len()
        invariant
            i <= calls.len(),
            entries == calls_view(calls@),
            floats_view(out@) == ranks_among(entries.take(i as int), stop_id@),
        decreases calls.len() - i,
    {
        proof {
            lemma_ranks_step(entries, stop_id@, i as int);
        }
        let ghost before = out@;
        if str_eq(calls[i].stop_id.as_str(), stop_id) {
            let rank = copy_float(&calls[i].rank);
            out.push(rank);
            assert(floats_view(out@) =~= floats_view(before).push(rank@));
        }
        i += 1;
    }
    assert(entries.take(i as int) == entries);
    out
}

/// Reads the route table: every route with its calls.
pub fn route_tracks(routes: &Vec<(String, JsonValue)>) -> (out: Vec<RouteTrack>)
    ensures
        tracks_view(out@) == route_table(routes@),
{
    let mut out: Vec<RouteTrack> = Vec::new();
    let mut i: usize = 0;
    assert(tracks_view(out@) =~= route_table(routes@.take(0)));
    while i < routes.len()
        invariant
            i <= routes.len(),
            tracks_view(out@) == route_table(routes@.take(i as int)),
        decreases routes.len() - i,
    {
        let ghost before = out@;
        let calls = match routes[i].1.as_array() {
            Some(list) => route_calls(list),
            None => {
                let none: Vec<RouteCall> = Vec::new();
                assert(calls_view(none@) =~= entries_of(routes@[i as int].1.items()));
                none
            },
        };
        let track = RouteTrack { route_id: routes[i].0.clone(), calls };
        out.push(track);
        assert(tracks_view(out@) =~= route_table(routes@.take(i + 1))) by {
            assert(tracks_view(out@) =~= tracks_view(before).push(track@));
            assert(routes@.take(i + 1) =~= routes@.take(i as int).push(routes@[i as int]));
        }
        i += 1;
    }
    assert(routes@.take(i as int) == routes@);
    out
}

/// Picks the routes that call at `stop_id`, each with its ranks there.
pub fn stop_services(tracks: &Vec<RouteTrack>, stop_id: &str) -> (out: Vec<RoutePositions>)
    ensures
        services_view(out@) == served_among(tracks_view(tracks@), stop_id@),
{
    let mut out: Vec<RoutePositions> = Vec::new();
    let ghost table = tracks_view(tracks@);
    let mut i: usize = 0;
    proof {
        reveal(Seq::filter);
        assert(services_view(out@) =~= served_among(table.take(0), stop_id@));
    }
    while i < tracks.len()
        invariant
            i <= tracks.len(),
            table == tracks_view(tracks@),
            services_view(out@) == served_among(table.take(i as int), stop_id@),
        decreases tracks.len() - i,
    {
        proof {
            lemma_served_step(table, stop_id@, i as int);
        }
        let ghost before = out@;
        let positions = ranks_at(&tracks[i].calls, stop_id);
        if positions.len() > 0 {
            let service = RoutePositions { route_id: tracks[i].route_id.clone(), positions };
            out.push(service);
            assert(services_view(out@) =~= services_view(before).push(service@));
        }
        i += 1;
    }
    assert(table.take(i as int) == table);
    out
}

/// Reads one stop out of the object that describes it; `key` is the name
/// under which the stop table holds the stop, `tracks` the routes.
pub fn stop_from(key: &str, obj: &JsonValue, tracks: &Vec<RouteTrack>) -> (r: StopData)
    ensures
        r.id@ == stop_id_of(key@, *obj),
        services_view(r.routes_and_positions@) == served_among(
            tracks_view(tracks@),
            stop_id_of(key@, *obj),
        ),
        r.system_id == integer_coercion(obj.member("userId"@)),
        text_of(r.name) == string_coercion(obj.member("name"@)),
        float_of(r.latitude) == float_coercion(obj.member("latitude"@)),
        float_of(r.longitude) == float_coercion(obj.member("longitude"@)),
        float_of(r.radius) == float_coercion(obj.member("radius"@)),
{
    let id = match to_string_opt(obj.get("id")) {
        Some(s) => s,
        None => String::from_str(key),
    };
    let routes_and_positions = stop_services(tracks, id.as_str());
    StopData {
        id,
        routes_and_positions,
        system_id: to_i64(obj.get("userId")),
        name: to_string_opt(obj.get("name")),
        latitude: to_f64(obj.get("latitude")),
        longitude: to_f64(obj.get("longitude")),
        radius: to_f64(obj.get("radius")),
    }
}

impl PassioGoClient {
    /// Reads the stops out of the answer to `stops_request`: one record for
    /// each member of the object under `stops`, in the order received, each
    /// with the routes of the object under `routes` that call at it. A stop
    /// at which no route calls is listed with no routes.
    pub fn get_stops(&self, data: &JsonValue) -> (stop_data: Vec<StopData>)
        ensures
            stops_read(
                stop_data@,
                data.member_members("stops"@),
                data.member_members("routes"@),
            ),
            forall|i: int|
                0 <= i < stop_data@.len() ==> (#[trigger] stop_data@[i]).lists_calling_routes(),
            distinct_names(data.member_members("routes"@)) ==> forall|i: int|
                0 <= i < stop_data@.len() ==> (#[trigger] stop_data@[i]).lists_routes_once(),
    {
        let routes = match data.get("routes") {
            Some(table) => table.as_object(),
            None => None,
        };
        let stops = match data.get("stops") {
            Some(table) => table.as_object(),
            None => None,
        };
        let tracks = match routes {
            Some(routes) => route_tracks(routes),
            None => {
                let none: Vec<RouteTrack> = Vec::new();
                assert(tracks_view(none@) =~= route_table(data.member_members("routes"@)));
                none
            },
        };
        let mut stop_data: Vec<StopData> = Vec::new();
        if let Some(stops) = stops {
            let mut i: usize = 0;
            while i < stops.len()
                invariant
                    i <= stops.len(),
                    stops@ == data.member_members("stops"@),
                    tracks_view(tracks@) == route_table(data.member_members("routes"@)),
                    stops_read(
                        stop_data@,
                        stops@.take(i as int),
                        data.member_members("routes"@),
                    ),
                decreases stops.len() - i,
            {
                stop_data.push(stop_from(stops[i].0.as_str(), &stops[i].1, &tracks));
                i += 1;
            }
            proof {
                assert(stops@.take(i as int) == stops@);
            }
        }
        proof {
            let stops = data.member_members("stops"@);
            let routes = data.member_members("routes"@);
            assert forall|i: int| 0 <= i < stop_data@.len() implies (
            #[trigger] stop_data@[i]).lists_calling_routes() && (distinct_names(routes)
                ==> stop_data@[i].lists_routes_once()) by {
                lemma_stop_record_well_formed(stop_data@[i], stops[i].0@, stops[i].1, routes);
            }
        }
        stop_data
    }
}

} // verus!
