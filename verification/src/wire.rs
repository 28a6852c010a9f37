//! The wire shape of a request, the exact JSON the remote API documents:
//! `{"request":{"auth":…,"application":…,"notifications":[…]}}`, each
//! notification being the content object with the targeting fields
//! flattened into it. These spec functions are the contract every exec
//! serializer is proved against; field names and nesting must not drift.

use vstd::prelude::*;

use crate::content::ContentSettingsView;
use crate::datetime::spec_format_datetime;
use crate::json::spec_json_string;
use crate::message::CreateMessageView;

verus! {

pub open spec fn spec_timezone_part(cs: ContentSettingsView) -> Seq<char> {
    match cs.timezone {
        Some(v) => (",\"timezone\":")@ + spec_json_string(v),
        None => Seq::empty(),
    }
}

pub open spec fn spec_campaign_part(cs: ContentSettingsView) -> Seq<char> {
    match cs.campaign {
        Some(v) => (",\"campaign\":")@ + spec_json_string(v),
        None => Seq::empty(),
    }
}

pub open spec fn spec_filter_part(cs: ContentSettingsView) -> Seq<char> {
    match cs.filter {
        Some(v) => (",\"filter\":")@ + spec_json_string(v),
        None => Seq::empty(),
    }
}

/// The flag is written only when set, so that an entry with no targeting
/// fields stays equal to its content object.
pub open spec fn spec_flag_part(cs: ContentSettingsView) -> Seq<char> {
    if cs.ignore_user_timezones {
        (",\"ignore_user_timezones\":true")@
    } else {
        Seq::empty()
    }
}

pub open spec fn spec_send_date_part(cs: ContentSettingsView) -> Seq<char> {
    match cs.send_date {
        Some(dt) => (",\"send_date\":\"")@ + spec_format_datetime(dt) + ("\"")@,
        None => Seq::empty(),
    }
}

/// Every targeting field an entry carries, each with its leading comma, in
/// a fixed order.
pub open spec fn spec_notification_fields(cs: ContentSettingsView) -> Seq<char> {
    spec_timezone_part(cs) + spec_campaign_part(cs) + spec_filter_part(cs) + spec_flag_part(cs)
        + spec_send_date_part(cs)
}

/// One notifications entry: the content object's own fields first, then the
/// targeting fields, all flattened into a single object.
pub open spec fn spec_notification(cs: ContentSettingsView) -> Seq<char> {
    let fields = spec_notification_fields(cs);
    if cs.content.len() == 0 {
        if fields.len() == 0 {
            ("{}")@
        } else {
            ("{")@ + fields.drop_first() + ("}")@
        }
    } else {
        ("{")@ + cs.content + fields + ("}")@
    }
}

/// Law: an entry with no targeting fields configured — no timezone,
/// campaign or filter, the flag at its default and no send date — is
/// exactly the content object again, with nothing added.
pub proof fn lemma_untargeted_entry_equals_content(cs: ContentSettingsView)
    requires
        cs.timezone is None,
        cs.campaign is None,
        cs.filter is None,
        !cs.ignore_user_timezones,
        cs.send_date is None,
        cs.content.len() > 0,
    ensures
        spec_notification(cs) == ("{")@ + cs.content + ("}")@,
{
    assert(spec_notification_fields(cs) =~= Seq::<char>::empty());
    assert(spec_notification(cs) =~= ("{")@ + cs.content + ("}")@);
}

/// The notifications entries in submission order, comma-separated.
pub open spec fn spec_notifications_json(l: Seq<ContentSettingsView>) -> Seq<char>
    decreases l.len(),
{
    if l.len() == 0 {
        Seq::empty()
    } else if l.len() == 1 {
        spec_notification(l[0])
    } else {
        spec_notifications_json(l.drop_last()) + (",")@ + spec_notification(l.last())
    }
}

/// The body of a create-message request: auth, application, notifications,
/// under exactly those names.
pub open spec fn spec_create_message_json(m: CreateMessageView) -> Seq<char> {
    ("{\"auth\":")@ + spec_json_string(m.auth) + (",\"application\":")@ + spec_json_string(
        m.application,
    ) + (",\"notifications\":[")@ + spec_notifications_json(m.content_settings) + ("]}")@
}

} // verus!
