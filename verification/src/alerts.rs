//! Reading the service alerts of a transit system.

use vstd::prelude::*;
use crate::client::PassioGoClient;
use crate::envelope::{envelope, envelope_items, label, label_of};
use crate::helpers::{
    boolean_coercion, integer_coercion, string_coercion, to_bool, to_i64, to_string_opt,
};
use crate::json::JsonValue;
use crate::types::{text_of, SystemAlertData};

verus! {

impl SystemAlertData {
    /// This record is what the object `obj` says of an alert.
    pub open spec fn reads(self, obj: JsonValue) -> bool {
        &&& self.id@ == label_of(obj.member("id"@), ""@)
        &&& self.system_id == integer_coercion(obj.member("userId"@))
        &&& text_of(self.route_id) == string_coercion(obj.member("routeId"@))
        &&& text_of(self.name) == string_coercion(obj.member("name"@))
        &&& text_of(self.html) == string_coercion(obj.member("html"@))
        &&& self.archive == boolean_coercion(obj.member("archive"@))
        &&& self.important == boolean_coercion(obj.member("important"@))
        &&& text_of(self.date_time_created) == string_coercion(obj.member("created"@))
        &&& text_of(self.date_time_from) == string_coercion(obj.member("from"@))
        &&& text_of(self.date_time_to) == string_coercion(obj.member("to"@))
        &&& self.as_push == boolean_coercion(obj.member("asPush"@))
        &&& self.gtfs == boolean_coercion(obj.member("gtfs"@))
        &&& self.gtfs_alert_cause_id == integer_coercion(obj.member("gtfsAlertCauseId"@))
        &&& self.gtfs_alert_effect_id == integer_coercion(obj.member("gtfsAlertEffectId"@))
        &&& text_of(self.gtfs_alert_url) == string_coercion(obj.member("gtfsAlertUrl"@))
        &&& text_of(self.gtfs_alert_header_text) == string_coercion(
            obj.member("gtfsAlertHeaderText"@),
        )
        &&& text_of(self.gtfs_alert_description_text) == string_coercion(
            obj.member("gtfsAlertDescriptionText"@),
        )
        &&& self.route_group_id == integer_coercion(obj.member("routeGroupId"@))
        &&& text_of(self.created_utc) == string_coercion(obj.member("createdUtc"@))
        &&& self.author_id == integer_coercion(obj.member("authorId"@))
        &&& text_of(self.author) == string_coercion(obj.member("author"@))
        &&& text_of(self.updated) == string_coercion(obj.member("updated"@))
        &&& self.update_author_id == integer_coercion(obj.member("updateAuthorId"@))
        &&& text_of(self.update_author) == string_coercion(obj.member("updateAuthor"@))
        &&& text_of(self.created_f) == string_coercion(obj.member("createdF"@))
        &&& text_of(self.from_f) == string_coercion(obj.member("fromF"@))
        &&& self.from_ok == boolean_coercion(obj.member("fromOk"@))
        &&& self.to_ok == boolean_coercion(obj.member("toOk"@))
    }
}

/// `records` holds one record for each object of `list`, in the same order.
pub open spec fn alerts_read(records: Seq<SystemAlertData>, list: Seq<JsonValue>) -> bool {
    &&& records.len() == list.len()
    &&& forall|i: int| 0 <= i < list.len() ==> (#[trigger] records[i]).reads(list[i])
}

/// Reads one alert out of the object that describes it.
pub fn alert_from(obj: &JsonValue) -> (r: SystemAlertData)
    ensures
        r.reads(*obj),
{
    SystemAlertData {
        id: label(obj.get("id"), ""),
        system_id: to_i64(obj.get("userId")),
        route_id: to_string_opt(obj.get("routeId")),
        name: to_string_opt(obj.get("name")),
        html: to_string_opt(obj.get("html")),
        archive: to_bool(obj.get("archive")),
        important: to_bool(obj.get("important")),
        date_time_created: to_string_opt(obj.get("created")),
        date_time_from: to_string_opt(obj.get("from")),
        date_time_to: to_string_opt(obj.get("to")),
        as_push: to_bool(obj.get("asPush")),
        gtfs: to_bool(obj.get("gtfs")),
        gtfs_alert_cause_id: to_i64(obj.get("gtfsAlertCauseId")),
        gtfs_alert_effect_id: to_i64(obj.get("gtfsAlertEffectId")),
        gtfs_alert_url: to_string_opt(obj.get("gtfsAlertUrl")),
        gtfs_alert_header_text: to_string_opt(obj.get("gtfsAlertHeaderText")),
        gtfs_alert_description_text: to_string_opt(obj.get("gtfsAlertDescriptionText")),
        route_group_id: to_i64(obj.get("routeGroupId")),
        created_utc: to_string_opt(obj.get("createdUtc")),
        author_id: to_i64(obj.get("authorId")),
        author: to_string_opt(obj.get("author")),
        updated: to_string_opt(obj.get("updated")),
        update_author_id: to_i64(obj.get("updateAuthorId")),
        update_author: to_string_opt(obj.get("updateAuthor")),
        created_f: to_string_opt(obj.get("createdF")),
        from_f: to_string_opt(obj.get("fromF")),
        from_ok: to_bool(obj.get("fromOk")),
        to_ok: to_bool(obj.get("toOk")),
    }
}

impl PassioGoClient {
    /// Reads the alerts out of the answer to `alerts_request`: one record for
    /// each item of the list, which is the answer itself or stands under
    /// `msgs`, in the order received.
    pub fn get_alerts(&self, data: &JsonValue) -> (msgs: Vec<SystemAlertData>)
        ensures
            alerts_read(msgs@, envelope_items(*data, "msgs"@)),
    {
        let mut msgs: Vec<SystemAlertData> = Vec::new();
        if let Some(list) = envelope(data, "msgs") {
            let mut i: usize = 0;
            while i < list.len()
                invariant
                    i <= list.len(),
                    list@ == envelope_items(*data, "msgs"@),
                    alerts_read(msgs@, list@.take(i as int)),
                decreases list.len() - i,
            {
                msgs.push(alert_from(&list[i]));
                i += 1;
            }
            proof {
                assert(list@.take(i as int) == list@);
            }
        }
        msgs
    }
}

} // verus!
