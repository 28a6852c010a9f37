//! Builds and dispatches "create message" requests for a push-notification
//! delivery API: a two-stage builder that validates required fields, a fixed
//! datetime encoding, a request envelope with a stable wire shape, and the
//! decoding of the API's response. The surrounding I/O — reading content,
//! issuing the HTTP call — lives outside; this library turns plain values
//! into the exact wire text and back.

pub mod content;
pub mod datetime;
pub mod error;
pub mod json;
pub mod message;
pub mod request;
pub mod response;
pub mod wire;

use vstd::prelude::*;

use crate::content::{
    spec_content_accepted, spec_content_inner, ContentSettingsBuilder, ContentSettingsView,
    ContentType,
};
use crate::datetime::DateTime;
use crate::error::{Error, ParseError};
use crate::message::{CreateMessage, CreateMessageBuilder, CreateMessageView};

verus! {

/// Where the notification's content is read from: a file path, or standard
/// input when no path is given. The read itself happens outside this
/// library; this value only carries the choice.
pub struct Content {
    content_path: Option<String>,
}

impl View for Content {
    type V = Option<Seq<char>>;

    closed spec fn view(&self) -> Option<Seq<char>> {
        self.content_path.deep_view()
    }
}

impl Content {
    pub fn new(content_path: Option<String>) -> (r: Self)
        ensures
            r@ == content_path.deep_view(),
    {
        Content { content_path }
    }

    /// The configured path, if any; standard input is meant otherwise.
    pub fn content_path(&self) -> (r: &Option<String>)
        ensures
            r.deep_view() == self@,
    {
        &self.content_path
    }
}

/// Assembles one validated create-message request from plain field values:
/// the content payload text is parsed, the optional targeting fields and
/// the credential and application are accumulated through the two builders,
/// and the finished message is returned. Fails exactly when the content
/// text is not a JSON object.
pub fn build_create_message(
    access_token: String,
    application: String,
    content_text: &str,
    timezone: Option<String>,
    campaign: Option<String>,
    filter: Option<String>,
    ignore_user_timezones: bool,
    send_date: Option<DateTime>,
) -> (r: Result<CreateMessage, Error>)
    ensures
        spec_content_accepted(content_text@) ==> (r matches Ok(m) && m@ == (CreateMessageView {
            auth: access_token@,
            application: application@,
            content_settings: seq![
                ContentSettingsView {
                    content: spec_content_inner(content_text@),
                    timezone: timezone.deep_view(),
                    campaign: campaign.deep_view(),
                    filter: filter.deep_view(),
                    ignore_user_timezones: ignore_user_timezones,
                    send_date: send_date,
                },
            ],
        })),
        !spec_content_accepted(content_text@) ==> (r matches Err(e) && e == Error::Parse(
            ParseError::InvalidJson,
        )),
{
    let content = match ContentType::new(content_text) {
        Ok(c) => c,
        Err(e) => {
            return Err(e);
        },
    };
    let mut content_builder = ContentSettingsBuilder::new().with_timezone(timezone).with_campaign(
        campaign,
    ).with_filter(filter).with_ignore_user_timezones(ignore_user_timezones).with_content(content);
    if let Some(dt) = send_date {
        content_builder = content_builder.with_send_date(dt);
    }
    let settings = match content_builder.build() {
        Ok(s) => s,
        Err(e) => {
            return Err(e);
        },
    };
    let r = CreateMessageBuilder::new().with_auth(access_token).with_application(
        application,
    ).add_content_settings(settings).build();
    proof {
        if spec_content_accepted(content_text@) {
            assert(Seq::<ContentSettingsView>::empty().push(settings@) =~= seq![settings@]);
        }
    }
    r
}

} // verus!
