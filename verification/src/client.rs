//! The client and the requests it sends.
//!
//! The client does no I/O of its own. For each endpoint it says what to send,
//! and reads the records out of the document that came back.

use vstd::prelude::*;
use crate::json::{JsonNumber, JsonValue};
use crate::text::{decimal_text, i64_text};

verus! {

/// One request to the service: a GET of `url` where there is no body, a POST
/// of the body to `url` where there is one.
#[derive(Debug)]
pub struct ApiRequest {
    pub url: String,
    pub body: Option<JsonValue>,
}

/// A client of the PassioGo service at one host.
#[derive(Clone, Debug)]
pub struct PassioGoClient {
    base_url: String,
}

/// The member `m` is named `name` and holds the number 1.
pub open spec fn is_count(m: (String, JsonValue), name: Seq<char>) -> bool {
    m.0@ == name && m.1 == JsonValue::Number(JsonNumber::PosInt(1))
}

/// The member `m` is named `name` and holds, as a string, the decimal text of
/// `system_id`.
pub open spec fn is_system(m: (String, JsonValue), name: Seq<char>, system_id: i64) -> bool {
    m.0@ == name && m.1 is String && m.1->String_0@ == decimal_text(system_id as int)
}

/// `body` is an object of the two members `first` and `second`, in this order.
pub open spec fn is_pair(
    body: JsonValue,
    first: (String, JsonValue),
    second: (String, JsonValue),
) -> bool {
    body is Object && body.members() =~= seq![first, second]
}

/// The member that asks for one page.
fn count_member(name: &str) -> (m: (String, JsonValue))
    ensures
        is_count(m, name@),
{
    (String::from_str(name), JsonValue::Number(JsonNumber::PosInt(1)))
}

/// The member that names the transit system.
fn system_member(name: &str, system_id: i64) -> (m: (String, JsonValue))
    ensures
        is_system(m, name@, system_id),
{
    (String::from_str(name), JsonValue::String(i64_text(system_id)))
}

/// The object of two members.
fn pair(first: (String, JsonValue), second: (String, JsonValue)) -> (body: JsonValue)
    ensures
        is_pair(body, first, second),
{
    let mut members: Vec<(String, JsonValue)> = Vec::new();
    members.push(first);
    members.push(second);
    assert(members@ =~= seq![first, second]);
    JsonValue::Object(members)
}

/// `body` asks for the alerts or the routes of one system: the member
/// `amount` holding 1, then `systemSelected0` holding the system.
pub open spec fn selects_by_name(body: JsonValue, system_id: i64) -> bool {
    &&& body is Object
    &&& body.members().len() == 2
    &&& is_count(body.members()[0], "amount"@)
    &&& is_system(body.members()[1], "systemSelected0"@, system_id)
}

/// `body` asks for the vehicles or the stops of one system: the member `s0`
/// holding the system, then `sA` holding 1.
pub open spec fn selects_by_slot(body: JsonValue, system_id: i64) -> bool {
    &&& body is Object
    &&& body.members().len() == 2
    &&& is_system(body.members()[0], "s0"@, system_id)
    &&& is_count(body.members()[1], "sA"@)
}

impl PassioGoClient {
    /// The address of the service, without a path.
    pub closed spec fn host(self) -> Seq<char> {
        self.base_url@
    }

    /// A client of the public service.
    pub fn new() -> (r: Self)
        ensures
            r.host() == "https://passiogo.com"@,
    {
        PassioGoClient { base_url: String::from_str("https://passiogo.com") }
    }

    /// The address of the service, without a path.
    pub fn base_url(&self) -> (r: &str)
        ensures
            r@ == self.host(),
    {
        self.base_url.as_str()
    }

    /// The address of the endpoint at `path`, which starts with a slash.
    fn endpoint(&self, path: &str) -> (url: String)
        ensures
            url@ == self.host() + path@,
    {
        self.base_url.clone().concat(path)
    }

    /// The request that lists the transit systems.
    pub fn systems_request(&self) -> (r: ApiRequest)
        ensures
            r.url@ == self.host() + "/mapGetData.php?getSystems=2&sortMode=1&credentials=1"@,
            r.body is None,
    {
        ApiRequest {
            url: self.endpoint("/mapGetData.php?getSystems=2&sortMode=1&credentials=1"),
            body: None,
        }
    }

    /// The request that lists the alerts of one system.
    pub fn alerts_request(&self, system_id: i64) -> (r: ApiRequest)
        ensures
            r.url@ == self.host() + "/goServices.php?getAlertMessages=1"@,
            r.body is Some,
            selects_by_name(r.body.unwrap(), system_id),
    {
        ApiRequest {
            url: self.endpoint("/goServices.php?getAlertMessages=1"),
            body: Some(pair(count_member("amount"), system_member("systemSelected0", system_id))),
        }
    }

    /// The request that lists the routes of one system.
    pub fn routes_request(&self, system_id: i64) -> (r: ApiRequest)
        ensures
            r.url@ == self.host() + "/mapGetData.php?getRoutes=1"@,
            r.body is Some,
            selects_by_name(r.body.unwrap(), system_id),
    {
        ApiRequest {
            url: self.endpoint("/mapGetData.php?getRoutes=1"),
            body: Some(pair(count_member("amount"), system_member("systemSelected0", system_id))),
        }
    }

    /// The request that lists the vehicles of one system.
    pub fn buses_request(&self, system_id: i64) -> (r: ApiRequest)
        ensures
            r.url@ == self.host() + "/mapGetData.php?getBuses=2"@,
            r.body is Some,
            selects_by_slot(r.body.unwrap(), system_id),
    {
        ApiRequest {
            url: self.endpoint("/mapGetData.php?getBuses=2"),
            body: Some(pair(system_member("s0", system_id), count_member("sA"))),
        }
    }

    /// The request that lists the stops of one system.
    pub fn stops_request(&self, system_id: i64) -> (r: ApiRequest)
        ensures
            r.url@ == self.host() + "/mapGetData.php?getStops=2"@,
            r.body is Some,
            selects_by_slot(r.body.unwrap(), system_id),
    {
        ApiRequest {
            url: self.endpoint("/mapGetData.php?getStops=2"),
            body: Some(pair(system_member("s0", system_id), count_member("sA"))),
        }
    }
}

} // verus!
