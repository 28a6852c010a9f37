//! The notification content payload and the per-audience content settings:
//! an accumulator with "with-style" setters for the optional targeting
//! fields and a finalization step that demands the one required field, the
//! content payload.

use vstd::prelude::*;

use crate::datetime::{format_datetime, DateTime};
use crate::error::{Error, ParseError, ValidationError};
use crate::json::{is_json_text, json_parse_check, push_json_string, spec_trim, trim_str};
use crate::wire::{
    spec_campaign_part, spec_filter_part, spec_flag_part, spec_notification,
    spec_notification_fields, spec_send_date_part, spec_timezone_part,
};

verus! {

/// The notification's content payload: a JSON object supplied fully formed
/// by the caller, opaque to this library beyond being serializable. The
/// object's text is kept without its outer braces, so the wire format can
/// flatten targeting fields into the same object.
#[derive(Clone, PartialEq, Eq, Debug)]
pub struct ContentType {
    inner: String,
}

impl View for ContentType {
    type V = Seq<char>;

    closed spec fn view(&self) -> Seq<char> {
        self.inner@
    }
}

impl DeepView for ContentType {
    type V = Seq<char>;

    open spec fn deep_view(&self) -> Seq<char> {
        self@
    }
}

/// The text is accepted as a content payload: after trimming it is a valid
/// JSON document written between braces, that is, an object.
pub open spec fn spec_content_accepted(s: Seq<char>) -> bool {
    let t = spec_trim(s);
    &&& t.len() >= 2
    &&& t[0] == '{'
    &&& t.last() == '}'
    &&& is_json_text(t)
}

/// The braceless text a content payload keeps of an accepted input.
pub open spec fn spec_content_inner(s: Seq<char>) -> Seq<char> {
    spec_trim(s).subrange(1, spec_trim(s).len() - 1)
}

impl ContentType {
    /// Accepts the text of one JSON object — surrounding whitespace is
    /// ignored — and rejects everything else as a parse error.
    pub fn new(text: &str) -> (r: Result<ContentType, Error>)
        ensures
            spec_content_accepted(text@) ==> (r matches Ok(c) && c@ == spec_content_inner(text@)),
            !spec_content_accepted(text@) ==> (r matches Err(e) && e == Error::Parse(
                ParseError::InvalidJson,
            )),
    {
        let t = trim_str(text);
        let n = t.unicode_len();
        if n < 2 {
            return Err(Error::Parse(ParseError::InvalidJson));
        }
        if t.get_char(0) != '{' || t.get_char(n - 1) != '}' {
            return Err(Error::Parse(ParseError::InvalidJson));
        }
        if !json_parse_check(t) {
            return Err(Error::Parse(ParseError::InvalidJson));
        }
        let inner = t.substring_char(1, n - 1).to_owned();
        Ok(ContentType { inner })
    }

    /// The kept text, what stands between the object's braces.
    pub fn inner_text(&self) -> (r: &str)
        ensures
            r@ == self@,
    {
        self.inner.as_str()
    }
}

/// The mathematical value of a finalized `ContentSettings`.
pub ghost struct ContentSettingsView {
    pub content: Seq<char>,
    pub timezone: Option<Seq<char>>,
    pub campaign: Option<Seq<char>>,
    pub filter: Option<Seq<char>>,
    pub ignore_user_timezones: bool,
    pub send_date: Option<DateTime>,
}

/// The per-audience targeting and scheduling parameters bundled with a
/// notification's content, immutable once built.
#[derive(Clone, PartialEq, Eq, Debug)]
pub struct ContentSettings {
    content: ContentType,
    timezone: Option<String>,
    campaign: Option<String>,
    filter: Option<String>,
    ignore_user_timezones: bool,
    send_date: Option<DateTime>,
}

impl View for ContentSettings {
    type V = ContentSettingsView;

    closed spec fn view(&self) -> ContentSettingsView {
        ContentSettingsView {
            content: self.content@,
            timezone: self.timezone.deep_view(),
            campaign: self.campaign.deep_view(),
            filter: self.filter.deep_view(),
            ignore_user_timezones: self.ignore_user_timezones,
            send_date: self.send_date,
        }
    }
}

impl DeepView for ContentSettings {
    type V = ContentSettingsView;

    open spec fn deep_view(&self) -> ContentSettingsView {
        self@
    }
}

impl ContentSettings {
    fn wire_fields(&self) -> (r: String)
        ensures
            r@ == spec_notification_fields(self@),
    {
        let ghost v = self@;
        let mut fields = String::new();
        match &self.timezone {
            Some(tz) => {
                fields.append(",\"timezone\":");
                push_json_string(&mut fields, tz.as_str());
            },
            None => {},
        }
        assert(fields@ =~= spec_timezone_part(v));
        let ghost f1 = fields@;
        match &self.campaign {
            Some(c) => {
                fields.append(",\"campaign\":");
                push_json_string(&mut fields, c.as_str());
            },
            None => {},
        }
        assert(fields@ =~= f1 + spec_campaign_part(v));
        let ghost f2 = fields@;
        match &self.filter {
            Some(f) => {
                fields.append(",\"filter\":");
                push_json_string(&mut fields, f.as_str());
            },
            None => {},
        }
        assert(fields@ =~= f2 + spec_filter_part(v));
        let ghost f3 = fields@;
        if self.ignore_user_timezones {
            fields.append(",\"ignore_user_timezones\":true");
        }
        assert(fields@ =~= f3 + spec_flag_part(v));
        let ghost f4 = fields@;
        match &self.send_date {
            Some(dt) => {
                fields.append(",\"send_date\":\"");
                let rendered = format_datetime(*dt);
                fields.append(rendered.as_str());
                fields.append("\"");
            },
            None => {},
        }
        assert(fields@ =~= f4 + spec_send_date_part(v));
        assert(fields@ =~= spec_notification_fields(v));
        fields
    }

    /// Appends this entry's wire text: the content object with the
    /// configured targeting fields flattened into it.
    pub fn push_wire_json(&self, out: &mut String)
        ensures
            final(out)@ == old(out)@ + spec_notification(self@),
    {
        let ghost v = self@;
        let fields = self.wire_fields();
        let inner = self.content.inner_text();
        let inner_len = inner.unicode_len();
        if inner_len == 0 {
            let fields_len = fields.unicode_len();
            if fields_len == 0 {
                out.append("{}");
            } else {
                out.append("{");
                let rest = fields.as_str().substring_char(1, fields_len);
                proof {
                    assert(rest@ =~= fields@.drop_first());
                }
                out.append(rest);
                out.append("}");
            }
        } else {
            out.append("{");
            out.append(inner);
            out.append(fields.as_str());
            out.append("}");
        }
        assert(out@ =~= old(out)@ + spec_notification(v));
    }
}

/// The mathematical value of a `ContentSettingsBuilder` in progress: the
/// same fields, with the required content still optional.
pub ghost struct ContentSettingsBuilderView {
    pub content: Option<Seq<char>>,
    pub timezone: Option<Seq<char>>,
    pub campaign: Option<Seq<char>>,
    pub filter: Option<Seq<char>>,
    pub ignore_user_timezones: bool,
    pub send_date: Option<DateTime>,
}

/// Accumulates the optional targeting fields and the required content
/// payload; setters may run in any order, and a second call to a setter
/// overwrites the first — last write wins.
pub struct ContentSettingsBuilder {
    content: Option<ContentType>,
    timezone: Option<String>,
    campaign: Option<String>,
    filter: Option<String>,
    ignore_user_timezones: bool,
    send_date: Option<DateTime>,
}

impl View for ContentSettingsBuilder {
    type V = ContentSettingsBuilderView;

    closed spec fn view(&self) -> ContentSettingsBuilderView {
        ContentSettingsBuilderView {
            content: self.content.deep_view(),
            timezone: self.timezone.deep_view(),
            campaign: self.campaign.deep_view(),
            filter: self.filter.deep_view(),
            ignore_user_timezones: self.ignore_user_timezones,
            send_date: self.send_date,
        }
    }
}

/// An empty accumulator: nothing set, and the ignore-user-timezones flag at
/// its default, false.
pub open spec fn spec_empty_content_builder() -> ContentSettingsBuilderView {
    ContentSettingsBuilderView {
        content: None,
        timezone: None,
        campaign: None,
        filter: None,
        ignore_user_timezones: false,
        send_date: None,
    }
}

pub open spec fn spec_set_content(b: ContentSettingsBuilderView, v: Seq<char>) -> ContentSettingsBuilderView {
    ContentSettingsBuilderView { content: Some(v), ..b }
}

pub open spec fn spec_set_timezone(b: ContentSettingsBuilderView, v: Option<Seq<char>>) -> ContentSettingsBuilderView {
    ContentSettingsBuilderView { timezone: v, ..b }
}

pub open spec fn spec_set_campaign(b: ContentSettingsBuilderView, v: Option<Seq<char>>) -> ContentSettingsBuilderView {
    ContentSettingsBuilderView { campaign: v, ..b }
}

pub open spec fn spec_set_filter(b: ContentSettingsBuilderView, v: Option<Seq<char>>) -> ContentSettingsBuilderView {
    ContentSettingsBuilderView { filter: v, ..b }
}

pub open spec fn spec_set_ignore_user_timezones(b: ContentSettingsBuilderView, v: bool) -> ContentSettingsBuilderView {
    ContentSettingsBuilderView { ignore_user_timezones: v, ..b }
}

pub open spec fn spec_set_send_date(b: ContentSettingsBuilderView, v: DateTime) -> ContentSettingsBuilderView {
    ContentSettingsBuilderView { send_date: Some(v), ..b }
}

/// Law: setting the content twice keeps only the second payload — last
/// write wins, with every other field untouched.
pub proof fn lemma_set_content_last_write_wins(
    b: ContentSettingsBuilderView,
    v1: Seq<char>,
    v2: Seq<char>,
)
    ensures
        spec_set_content(spec_set_content(b, v1), v2) == spec_set_content(b, v2),
{
}

/// Law: setting the timezone twice keeps only the second value.
pub proof fn lemma_set_timezone_last_write_wins(
    b: ContentSettingsBuilderView,
    v1: Option<Seq<char>>,
    v2: Option<Seq<char>>,
)
    ensures
        spec_set_timezone(spec_set_timezone(b, v1), v2) == spec_set_timezone(b, v2),
{
}

/// Law: setting the campaign twice keeps only the second value.
pub proof fn lemma_set_campaign_last_write_wins(
    b: ContentSettingsBuilderView,
    v1: Option<Seq<char>>,
    v2: Option<Seq<char>>,
)
    ensures
        spec_set_campaign(spec_set_campaign(b, v1), v2) == spec_set_campaign(b, v2),
{
}

/// Law: setting the filter twice keeps only the second value.
pub proof fn lemma_set_filter_last_write_wins(
    b: ContentSettingsBuilderView,
    v1: Option<Seq<char>>,
    v2: Option<Seq<char>>,
)
    ensures
        spec_set_filter(spec_set_filter(b, v1), v2) == spec_set_filter(b, v2),
{
}

/// Law: setting the ignore-user-timezones flag twice keeps only the second
/// value.
pub proof fn lemma_set_ignore_user_timezones_last_write_wins(
    b: ContentSettingsBuilderView,
    v1: bool,
    v2: bool,
)
    ensures
        spec_set_ignore_user_timezones(spec_set_ignore_user_timezones(b, v1), v2)
            == spec_set_ignore_user_timezones(b, v2),
{
}

/// Law: setting the send date twice keeps only the second timestamp.
pub proof fn lemma_set_send_date_last_write_wins(
    b: ContentSettingsBuilderView,
    v1: DateTime,
    v2: DateTime,
)
    ensures
        spec_set_send_date(spec_set_send_date(b, v1), v2) == spec_set_send_date(b, v2),
{
}

impl ContentSettingsBuilder {
    pub fn new() -> (r: Self)
        ensures
            r@ == spec_empty_content_builder(),
    {
        ContentSettingsBuilder {
            content: None,
            timezone: None,
            campaign: None,
            filter: None,
            ignore_user_timezones: false,
            send_date: None,
        }
    }

    /// Sets the required content payload.
    pub fn with_content(self, content: ContentType) -> (r: Self)
        ensures
            r@ == spec_set_content(self@, content@),
    {
        ContentSettingsBuilder { content: Some(content), ..self }
    }

    pub fn with_timezone(self, timezone: Option<String>) -> (r: Self)
        ensures
            r@ == spec_set_timezone(self@, timezone.deep_view()),
    {
        ContentSettingsBuilder { timezone, ..self }
    }

    pub fn with_campaign(self, campaign: Option<String>) -> (r: Self)
        ensures
            r@ == spec_set_campaign(self@, campaign.deep_view()),
    {
        ContentSettingsBuilder { campaign, ..self }
    }

    pub fn with_filter(self, filter: Option<String>) -> (r: Self)
        ensures
            r@ == spec_set_filter(self@, filter.deep_view()),
    {
        ContentSettingsBuilder { filter, ..self }
    }

    pub fn with_ignore_user_timezones(self, ignore_user_timezones: bool) -> (r: Self)
        ensures
            r@ == spec_set_ignore_user_timezones(self@, ignore_user_timezones),
    {
        ContentSettingsBuilder { ignore_user_timezones, ..self }
    }

    /// Schedules the send; the timestamp is rendered in the fixed wire
    /// format when the settings are serialized.
    pub fn with_send_date(self, send_date: DateTime) -> (r: Self)
        ensures
            r@ == spec_set_send_date(self@, send_date),
    {
        ContentSettingsBuilder { send_date: Some(send_date), ..self }
    }

    /// Finalizes the accumulator: fails exactly when no content was set,
    /// and otherwise keeps every configured field as it stands.
    pub fn build(self) -> (r: Result<ContentSettings, Error>)
        ensures
            match self@.content {
                Some(c) => r matches Ok(s) && s@ == (ContentSettingsView {
                    content: c,
                    timezone: self@.timezone,
                    campaign: self@.campaign,
                    filter: self@.filter,
                    ignore_user_timezones: self@.ignore_user_timezones,
                    send_date: self@.send_date,
                }),
                None => r matches Err(e) && e == Error::Validation(ValidationError::MissingContent),
            },
    {
        match self.content {
            Some(content) => Ok(
                ContentSettings {
                    content,
                    timezone: self.timezone,
                    campaign: self.campaign,
                    filter: self.filter,
                    ignore_user_timezones: self.ignore_user_timezones,
                    send_date: self.send_date,
                },
            ),
            None => Err(Error::Validation(ValidationError::MissingContent)),
        }
    }
}

} // verus!
