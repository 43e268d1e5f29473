//! The provider's configuration: its shape, how it is read from JSON, and the
//! client configuration that is made of it.

use crate::error::ProviderError;
use crate::json::{document, member, JsonValue};
use crate::scrub::{wipe_optional_string, wipe_string};
use crate::sdk::{
    make_credentials, make_settings, settings_credentials, settings_region, static_credentials,
};
use crate::text::optional_view;
use aws_types::sdk_config::SdkConfig;
use vstd::prelude::*;

verus! {

/// The supported ways to authenticate.
#[derive(Debug, PartialEq, Eq)]
pub enum AwsAuth {
    /// Static access-key credentials, with an optional session token.
    AccessKey { access_key_id: String, secret_access_key: String, session_token: Option<String> },
}

/// The provider's configuration: a region and the credentials to use there.
#[derive(Debug, PartialEq, Eq)]
pub struct AwsConfig {
    pub region: String,
    pub auth: AwsAuth,
}

/// What an `AwsAuth` holds, as mathematical strings.
pub enum AwsAuthView {
    AccessKey {
        access_key_id: Seq<char>,
        secret_access_key: Seq<char>,
        session_token: Option<Seq<char>>,
    },
}

/// What an `AwsConfig` holds, as mathematical strings.
pub struct AwsConfigView {
    pub region: Seq<char>,
    pub auth: AwsAuthView,
}

impl View for AwsAuth {
    type V = AwsAuthView;

    open spec fn view(&self) -> AwsAuthView {
        match *self {
            AwsAuth::AccessKey { access_key_id, secret_access_key, session_token } => {
                AwsAuthView::AccessKey {
                    access_key_id: access_key_id@,
                    secret_access_key: secret_access_key@,
                    session_token: optional_view(session_token),
                }
            },
        }
    }
}

impl View for AwsConfig {
    type V = AwsConfigView;

    open spec fn view(&self) -> AwsConfigView {
        AwsConfigView { region: self.region@, auth: self.auth@ }
    }
}

impl AwsAuthView {
    /// The key fields are not empty, nor is a session token that is present.
    pub open spec fn well_formed(self) -> bool {
        match self {
            AwsAuthView::AccessKey { access_key_id, secret_access_key, session_token } => {
                &&& access_key_id.len() > 0
                &&& secret_access_key.len() > 0
                &&& (session_token matches Some(t) ==> t.len() > 0)
            },
        }
    }

    /// No secret material is left: both keys empty, no session token.
    pub open spec fn is_scrubbed(self) -> bool {
        self == (AwsAuthView::AccessKey {
            access_key_id: Seq::empty(),
            secret_access_key: Seq::empty(),
            session_token: None,
        })
    }
}

impl AwsConfigView {
    /// The region is not empty and the credentials are well formed.
    pub open spec fn well_formed(self) -> bool {
        self.region.len() > 0 && self.auth.well_formed()
    }
}

/// The complaint about a required member that is absent.
pub open spec fn missing_field(name: Seq<char>) -> Seq<char> {
    "missing field `"@ + name + "`"@
}

/// The complaint about a member that should be a string and is not.
pub open spec fn not_a_string(name: Seq<char>) -> Seq<char> {
    "invalid type for `"@ + name + "`, expected a string"@
}

/// The complaint about a value that should be an object and is not.
pub open spec fn not_an_object(name: Seq<char>) -> Seq<char> {
    "invalid type for `"@ + name + "`, expected an object"@
}

/// The complaint about a string member that is empty.
pub open spec fn empty_field(name: Seq<char>) -> Seq<char> {
    "empty value for `"@ + name + "`"@
}

/// The complaint about an authentication type that is not supported.
pub open spec fn unknown_auth_type(tag: Seq<char>) -> Seq<char> {
    "unknown variant `"@ + tag + "`, expected `AccessKey`"@
}

/// A required string member: present, a string, and not empty.
pub open spec fn required_text(fields: Seq<(String, JsonValue)>, name: Seq<char>) -> Result<
    Seq<char>,
    Seq<char>,
> {
    match member(fields, name) {
        None => Err(missing_field(name)),
        Some(JsonValue::Text(s)) => if s@.len() == 0 {
            Err(empty_field(name))
        } else {
            Ok(s@)
        },
        Some(_) => Err(not_a_string(name)),
    }
}

/// An optional string member: absent or null, or a string that is not empty.
pub open spec fn optional_text(fields: Seq<(String, JsonValue)>, name: Seq<char>) -> Result<
    Option<Seq<char>>,
    Seq<char>,
> {
    match member(fields, name) {
        None => Ok(None),
        Some(JsonValue::Null) => Ok(None),
        Some(JsonValue::Text(s)) => if s@.len() == 0 {
            Err(empty_field(name))
        } else {
            Ok(Some(s@))
        },
        Some(_) => Err(not_a_string(name)),
    }
}

/// The access-key credentials that an `auth` object holds.
pub open spec fn decoded_access_key(fields: Seq<(String, JsonValue)>) -> Result<
    AwsAuthView,
    Seq<char>,
> {
    match required_text(fields, "access_key_id"@) {
        Err(m) => Err(m),
        Ok(access_key_id) => match required_text(fields, "secret_access_key"@) {
            Err(m) => Err(m),
            Ok(secret_access_key) => match optional_text(fields, "session_token"@) {
                Err(m) => Err(m),
                Ok(session_token) => Ok(
                    AwsAuthView::AccessKey { access_key_id, secret_access_key, session_token },
                ),
            },
        },
    }
}

/// The credentials that an `auth` object holds: its `type` must be the string
/// `AccessKey`.
pub open spec fn decoded_auth(fields: Seq<(String, JsonValue)>) -> Result<AwsAuthView, Seq<char>> {
    match member(fields, "type"@) {
        None => Err(missing_field("type"@)),
        Some(JsonValue::Text(tag)) => if tag@ == "AccessKey"@ {
            decoded_access_key(fields)
        } else {
            Err(unknown_auth_type(tag@))
        },
        Some(_) => Err(not_a_string("type"@)),
    }
}

/// The configuration that a JSON document holds, or the complaint about the
/// first thing that is wrong with it.
pub open spec fn decoded(doc: JsonValue) -> Result<AwsConfigView, Seq<char>> {
    if !(doc is Object) {
        Err(not_an_object("configuration"@))
    } else {
        match required_text(doc.members(), "region"@) {
            Err(m) => Err(m),
            Ok(region) => match member(doc.members(), "auth"@) {
                None => Err(missing_field("auth"@)),
                Some(JsonValue::Object(auth)) => match decoded_auth(auth@) {
                    Err(m) => Err(m),
                    Ok(auth) => Ok(AwsConfigView { region, auth }),
                },
                Some(_) => Err(not_an_object("auth"@)),
            },
        }
    }
}

/// The configuration that a text holds: the text is read as JSON, and the
/// document decoded.
pub open spec fn parsed(text: Seq<char>) -> Result<AwsConfigView, Seq<char>> {
    match document(text) {
        Err(m) => Err(m),
        Ok(doc) => decoded(doc),
    }
}

/// Whatever decodes is well formed.
pub proof fn lemma_decoded_well_formed(doc: JsonValue)
    ensures
        decoded(doc) matches Ok(c) ==> c.well_formed(),
{
}

/// A document without an `auth` member does not decode.
pub proof fn lemma_missing_auth_rejected(doc: JsonValue)
    requires
        member(doc.members(), "auth"@) is None,
    ensures
        decoded(doc) is Err,
{
}

/// A document whose `auth.type` is a string other than `AccessKey` does not
/// decode.
pub proof fn lemma_unknown_auth_type_rejected(doc: JsonValue, auth: JsonValue, tag: Seq<char>)
    requires
        member(doc.members(), "auth"@) == Some(auth),
        member(auth.members(), "type"@) matches Some(t) && t.text() == Some(tag),
        tag != "AccessKey"@,
    ensures
        decoded(doc) is Err,
{
}

/// Whatever a text parses to is well formed.
pub proof fn lemma_parsed_well_formed(text: Seq<char>)
    ensures
        parsed(text) matches Ok(c) ==> c.well_formed(),
{
    match document(text) {
        Ok(doc) => lemma_decoded_well_formed(doc),
        Err(_) => {},
    }
}

fn missing_field_message(name: &str) -> (out: String)
    ensures
        out@ == missing_field(name@),
{
    "missing field `".to_owned().concat(name).concat("`")
}

fn not_a_string_message(name: &str) -> (out: String)
    ensures
        out@ == not_a_string(name@),
{
    "invalid type for `".to_owned().concat(name).concat("`, expected a string")
}

fn not_an_object_message(name: &str) -> (out: String)
    ensures
        out@ == not_an_object(name@),
{
    "invalid type for `".to_owned().concat(name).concat("`, expected an object")
}

fn empty_field_message(name: &str) -> (out: String)
    ensures
        out@ == empty_field(name@),
{
    "empty value for `".to_owned().concat(name).concat("`")
}

fn unknown_auth_type_message(tag: &str) -> (out: String)
    ensures
        out@ == unknown_auth_type(tag@),
{
    "unknown variant `".to_owned().concat(tag).concat("`, expected `AccessKey`")
}

fn read_required_text(doc: &JsonValue, name: &str) -> (out: Result<String, String>)
    ensures
        match out {
            Ok(s) => required_text(doc.members(), name@) == Ok::<Seq<char>, Seq<char>>(s@),
            Err(m) => required_text(doc.members(), name@) == Err::<Seq<char>, Seq<char>>(m@),
        },
{
    match doc.get(name) {
        None => Err(missing_field_message(name)),
        Some(v) => match v.as_text() {
            None => Err(not_a_string_message(name)),
            Some(s) => if s.as_str().is_empty() {
                Err(empty_field_message(name))
            } else {
                Ok(s.clone())
            },
        },
    }
}

fn read_optional_text(doc: &JsonValue, name: &str) -> (out: Result<Option<String>, String>)
    ensures
        match out {
            Ok(s) => optional_text(doc.members(), name@) == Ok::<Option<Seq<char>>, Seq<char>>(
                optional_view(s),
            ),
            Err(m) => optional_text(doc.members(), name@) == Err::<Option<Seq<char>>, Seq<char>>(
                m@,
            ),
        },
{
    match doc.get(name) {
        None => Ok(None),
        Some(JsonValue::Null) => Ok(None),
        Some(v) => match v.as_text() {
            None => Err(not_a_string_message(name)),
            Some(s) => if s.as_str().is_empty() {
                Err(empty_field_message(name))
            } else {
                Ok(Some(s.clone()))
            },
        },
    }
}

impl AwsAuthView {
    /// The credential set that the SDK makes of these fields.
    pub open spec fn credentials(self) -> aws_credential_types::Credentials {
        match self {
            AwsAuthView::AccessKey { access_key_id, secret_access_key, session_token } => {
                static_credentials(access_key_id, secret_access_key, session_token)
            },
        }
    }
}

impl AwsAuth {
    /// Overwrites the secret material: both keys are empty afterwards and the
    /// session token is gone.
    pub fn zeroize(&mut self)
        ensures
            final(self)@.is_scrubbed(),
    {
        match self {
            AwsAuth::AccessKey { access_key_id, secret_access_key, session_token } => {
                wipe_string(access_key_id);
                wipe_string(secret_access_key);
                wipe_optional_string(session_token);
            },
        }
    }

    /// The SDK credential set with exactly these fields.
    pub fn credentials(&self) -> (out: aws_credential_types::Credentials)
        ensures
            out == self@.credentials(),
    {
        match self {
            AwsAuth::AccessKey { access_key_id, secret_access_key, session_token } => {
                let token: Option<&str> = match session_token {
                    Some(t) => Some(t.as_str()),
                    None => None,
                };
                make_credentials(access_key_id.as_str(), secret_access_key.as_str(), token)
            },
        }
    }

    /// Reads the credentials from an `auth` object.
    pub fn from_json(doc: &JsonValue) -> (out: Result<AwsAuth, String>)
        ensures
            match out {
                Ok(a) => decoded_auth(doc.members()) == Ok::<AwsAuthView, Seq<char>>(a@),
                Err(m) => decoded_auth(doc.members()) == Err::<AwsAuthView, Seq<char>>(m@),
            },
    {
        match doc.get("type") {
            None => Err(missing_field_message("type")),
            Some(v) => match v.as_text() {
                None => Err(not_a_string_message("type")),
                Some(tag) => {
                    let supported = "AccessKey".to_owned();
                    if *tag == supported {
                        let mut access_key_id = match read_required_text(doc, "access_key_id") {
                            Ok(s) => s,
                            Err(m) => { return Err(m); },
                        };
                        let mut secret_access_key = match read_required_text(
                            doc,
                            "secret_access_key",
                        ) {
                            Ok(s) => s,
                            Err(m) => {
                                wipe_string(&mut access_key_id);
                                return Err(m);
                            },
                        };
                        let session_token = match read_optional_text(doc, "session_token") {
                            Ok(s) => s,
                            Err(m) => {
                                wipe_string(&mut access_key_id);
                                wipe_string(&mut secret_access_key);
                                return Err(m);
                            },
                        };
                        Ok(AwsAuth::AccessKey { access_key_id, secret_access_key, session_token })
                    } else {
                        Err(unknown_auth_type_message(tag.as_str()))
                    }
                },
            },
        }
    }
}

impl AwsConfig {
    /// Reads the configuration from a JSON document.
    pub fn from_json(doc: &JsonValue) -> (out: Result<AwsConfig, ProviderError>)
        ensures
            match out {
                Ok(c) => decoded(*doc) == Ok::<AwsConfigView, Seq<char>>(c@) && c@.well_formed(),
                Err(e) => e matches ProviderError::InvalidConfiguration(m) && decoded(*doc) == Err::<
                    AwsConfigView,
                    Seq<char>,
                >(m@),
            },
    {
        match doc {
            JsonValue::Object(_) => {},
            _ => {
                return Err(ProviderError::InvalidConfiguration(not_an_object_message("configuration")));
            },
        }
        let region = match read_required_text(doc, "region") {
            Ok(s) => s,
            Err(m) => { return Err(ProviderError::InvalidConfiguration(m)); },
        };
        let auth_doc = match doc.get("auth") {
            None => {
                return Err(ProviderError::InvalidConfiguration(missing_field_message("auth")));
            },
            Some(v) => v,
        };
        match auth_doc {
            JsonValue::Object(_) => {},
            _ => {
                return Err(ProviderError::InvalidConfiguration(not_an_object_message("auth")));
            },
        }
        match AwsAuth::from_json(auth_doc) {
            Ok(auth) => Ok(AwsConfig { region, auth }),
            Err(m) => Err(ProviderError::InvalidConfiguration(m)),
        }
    }

    /// Overwrites everything the configuration holds: the region is empty
    /// afterwards, and so are the keys.
    pub fn zeroize(&mut self)
        ensures
            final(self)@.region == Seq::<char>::empty(),
            final(self)@.auth.is_scrubbed(),
    {
        wipe_string(&mut self.region);
        self.auth.zeroize();
    }

    /// Makes the client configuration from this configuration alone: its
    /// region is the configured one, and its only credentials are the static
    /// set made of the configured keys. The keys held here are overwritten
    /// once the credentials are made; the region stays.
    pub fn drain_into_settings(&mut self) -> (out: SdkConfig)
        ensures
            settings_region(out) == Some(old(self)@.region),
            settings_credentials(out) == Some(old(self)@.auth.credentials()),
            final(self)@.region == old(self)@.region,
            final(self)@.auth.is_scrubbed(),
    {
        let credentials = self.auth.credentials();
        self.auth.zeroize();
        make_settings(self.region.as_str(), credentials)
    }

    /// Gives the configuration up for the client configuration made of it:
    /// its region is the configured one, and its only credentials are the
    /// static set made of the configured keys. The keys are overwritten before
    /// the configuration is dropped.
    pub fn into(self) -> (out: SdkConfig)
        ensures
            settings_region(out) == Some(self@.region),
            settings_credentials(out) == Some(self@.auth.credentials()),
    {
        let mut config = self;
        config.drain_into_settings()
    }

    /// Parses the configuration from a string. Every string gives either a
    /// well-formed configuration or `InvalidConfiguration` with the complaint.
    pub fn parse(s: &str) -> (out: Result<AwsConfig, ProviderError>)
        ensures
            match out {
                Ok(c) => parsed(s@) == Ok::<AwsConfigView, Seq<char>>(c@) && c@.well_formed(),
                Err(e) => e matches ProviderError::InvalidConfiguration(m) && parsed(s@) == Err::<
                    AwsConfigView,
                    Seq<char>,
                >(m@),
            },
    {
        match JsonValue::from_text(s) {
            Ok(doc) => AwsConfig::from_json(&doc),
            Err(m) => Err(ProviderError::InvalidConfiguration(m)),
        }
    }
}

} // verus!
