//! The top-level message: an auth token, an application identifier and an
//! ordered, non-empty sequence of content settings, accumulated by a builder
//! that enforces the three requirements only at finalization.

use vstd::prelude::*;

use crate::content::{ContentSettings, ContentSettingsView};
use crate::error::{Error, ValidationError};
use crate::json::push_json_string;
use crate::wire::{spec_create_message_json, spec_notifications_json};

verus! {

/// The mathematical value of a finalized `CreateMessage`.
pub ghost struct CreateMessageView {
    pub auth: Seq<char>,
    pub application: Seq<char>,
    pub content_settings: Seq<ContentSettingsView>,
}

/// One validated "create message" request body: credential, target
/// application, and the per-audience content settings in submission order.
#[derive(Clone, PartialEq, Eq, Debug)]
pub struct CreateMessage {
    auth: String,
    application: String,
    content_settings: Vec<ContentSettings>,
}

impl View for CreateMessage {
    type V = CreateMessageView;

    closed spec fn view(&self) -> CreateMessageView {
        CreateMessageView {
            auth: self.auth@,
            application: self.application@,
            content_settings: self.content_settings.deep_view(),
        }
    }
}

impl CreateMessage {
    pub fn auth(&self) -> (r: &str)
        ensures
            r@ == self@.auth,
    {
        self.auth.as_str()
    }

    pub fn application(&self) -> (r: &str)
        ensures
            r@ == self@.application,
    {
        self.application.as_str()
    }

    pub fn content_settings(&self) -> (r: &Vec<ContentSettings>)
        ensures
            r.deep_view() == self@.content_settings,
    {
        &self.content_settings
    }

    /// Appends this message's wire text: auth, application, and the
    /// notifications entries in submission order.
    pub fn push_wire_json(&self, out: &mut String)
        ensures
            final(out)@ == old(out)@ + spec_create_message_json(self@),
    {
        out.append("{\"auth\":");
        push_json_string(out, self.auth.as_str());
        out.append(",\"application\":");
        push_json_string(out, self.application.as_str());
        out.append(",\"notifications\":[");
        let ghost mid = out@;
        let ghost entries = self@.content_settings;
        let n = self.content_settings.len();
        let mut i: usize = 0;
        while i < n
            invariant
                0 <= i <= n,
                n == self.content_settings.len(),
                entries == self@.content_settings,
                out@ == mid + spec_notifications_json(entries.take(i as int)),
            decreases n - i,
        {
            if i > 0 {
                out.append(",");
            }
            self.content_settings[i].push_wire_json(out);
            proof {
                assert(entries.take(i as int + 1).drop_last() =~= entries.take(i as int));
                assert(entries.take(i as int + 1).last() == entries[i as int]);
                assert(self.content_settings[i as int]@ == entries[i as int]);
            }
            i = i + 1;
        }
        proof {
            assert(entries.take(n as int) =~= entries);
        }
        out.append("]}");
        assert(out@ =~= old(out)@ + spec_create_message_json(self@));
    }
}

/// The mathematical value of a `CreateMessageBuilder` in progress.
pub ghost struct CreateMessageBuilderView {
    pub auth: Option<Seq<char>>,
    pub application: Option<Seq<char>>,
    pub content_settings: Seq<ContentSettingsView>,
}

/// Accumulates the credential, the application identifier and any number of
/// content settings; the order in which settings are added is kept.
pub struct CreateMessageBuilder {
    auth: Option<String>,
    application: Option<String>,
    content_settings: Vec<ContentSettings>,
}

impl View for CreateMessageBuilder {
    type V = CreateMessageBuilderView;

    closed spec fn view(&self) -> CreateMessageBuilderView {
        CreateMessageBuilderView {
            auth: self.auth.deep_view(),
            application: self.application.deep_view(),
            content_settings: self.content_settings.deep_view(),
        }
    }
}

/// An empty accumulator: no credential, no application, no settings.
pub open spec fn spec_empty_message_builder() -> CreateMessageBuilderView {
    CreateMessageBuilderView { auth: None, application: None, content_settings: Seq::empty() }
}

pub open spec fn spec_set_auth(b: CreateMessageBuilderView, v: Seq<char>) -> CreateMessageBuilderView {
    CreateMessageBuilderView { auth: Some(v), ..b }
}

pub open spec fn spec_set_application(b: CreateMessageBuilderView, v: Seq<char>) -> CreateMessageBuilderView {
    CreateMessageBuilderView { application: Some(v), ..b }
}

pub open spec fn spec_add_content_settings(
    b: CreateMessageBuilderView,
    v: ContentSettingsView,
) -> CreateMessageBuilderView {
    CreateMessageBuilderView { content_settings: b.content_settings.push(v), ..b }
}

/// What finalization returns for a builder state: the first missing
/// requirement's validation error — auth, then application, then at least
/// one content settings entry — or the finished message.
pub open spec fn spec_build_message(b: CreateMessageBuilderView) -> Result<
    CreateMessageView,
    Error,
> {
    if b.auth is None {
        Err(Error::Validation(ValidationError::MissingAuth))
    } else if b.application is None {
        Err(Error::Validation(ValidationError::MissingApplication))
    } else if b.content_settings.len() == 0 {
        Err(Error::Validation(ValidationError::NoContentSettings))
    } else {
        Ok(
            CreateMessageView {
                auth: b.auth->0,
                application: b.application->0,
                content_settings: b.content_settings,
            },
        )
    }
}

/// Law: setting the auth token twice keeps only the second credential.
pub proof fn lemma_set_auth_last_write_wins(
    b: CreateMessageBuilderView,
    v1: Seq<char>,
    v2: Seq<char>,
)
    ensures
        spec_set_auth(spec_set_auth(b, v1), v2) == spec_set_auth(b, v2),
{
}

/// Law: setting the application identifier twice keeps only the second
/// value.
pub proof fn lemma_set_application_last_write_wins(
    b: CreateMessageBuilderView,
    v1: Seq<char>,
    v2: Seq<char>,
)
    ensures
        spec_set_application(spec_set_application(b, v1), v2) == spec_set_application(b, v2),
{
}

impl CreateMessageBuilder {
    pub fn new() -> (r: Self)
        ensures
            r@ == spec_empty_message_builder(),
    {
        let r = CreateMessageBuilder { auth: None, application: None, content_settings: Vec::new() };
        assert(r@.content_settings =~= Seq::<ContentSettingsView>::empty());
        r
    }

    /// Sets the authentication credential.
    pub fn with_auth(self, auth: String) -> (r: Self)
        ensures
            r@ == spec_set_auth(self@, auth@),
    {
        CreateMessageBuilder { auth: Some(auth), ..self }
    }

    /// Sets the target application identifier.
    pub fn with_application(self, application: String) -> (r: Self)
        ensures
            r@ == spec_set_application(self@, application@),
    {
        CreateMessageBuilder { application: Some(application), ..self }
    }

    /// Appends one content settings entry; submission order is preserved.
    pub fn add_content_settings(self, settings: ContentSettings) -> (r: Self)
        ensures
            r@ == spec_add_content_settings(self@, settings@),
    {
        let mut content_settings = self.content_settings;
        content_settings.push(settings);
        let r = CreateMessageBuilder {
            auth: self.auth,
            application: self.application,
            content_settings,
        };
        assert(r@.content_settings =~= spec_add_content_settings(self@, settings@).content_settings);
        r
    }

    /// Finalizes the accumulator. The three requirements are independent:
    /// a missing auth token, a missing application identifier and an empty
    /// settings sequence each fail on their own, whatever the other fields
    /// hold, and the first of them in that order names the error.
    pub fn build(self) -> (r: Result<CreateMessage, Error>)
        ensures
            r matches Ok(m) ==> spec_build_message(self@) == Ok::<CreateMessageView, Error>(m@),
            r matches Err(e) ==> spec_build_message(self@) == Err::<CreateMessageView, Error>(e),
    {
        let auth = match self.auth {
            Some(a) => a,
            None => {
                return Err(Error::Validation(ValidationError::MissingAuth));
            },
        };
        let application = match self.application {
            Some(a) => a,
            None => {
                return Err(Error::Validation(ValidationError::MissingApplication));
            },
        };
        if self.content_settings.len() == 0 {
            return Err(Error::Validation(ValidationError::NoContentSettings));
        }
        Ok(CreateMessage { auth, application, content_settings: self.content_settings })
    }
}

} // verus!
