//! The AnonAddy alias service: its records, and its two exchanges.

use vstd::prelude::*;
use crate::email_alias::{string_view, Alias, AliasError, AliasModel, AliasService};
use crate::http::{Header, HeaderView, Method, Request, RequestView, NO_CONTENT, OK};

verus! {

/// An account, as AnonAddy reports it.
#[derive(Debug, Clone, PartialEq, Eq)]
pub struct Account {
    pub id: String,
    pub username: String,
    pub from_name: String,
    pub email_subject: String,
    pub banner_location: String,
    pub bandwidth: i16,
    pub username_count: i16,
    pub username_limit: i16,
    pub default_recipient_id: String,
    pub default_alias_domain: String,
    pub default_alias_format: String,
    pub subscription: String,
    pub subscription_ends_at: Option<i16>,
    pub bandwidth_limit: i16,
    pub recipient_count: i16,
    pub recipient_limit: i16,
    pub active_domain_count: i16,
    pub active_domain_limit: i16,
    pub active_shared_domain_alias_count: i16,
    pub active_shared_domain_alias_limit: i16,
    pub total_emails_forwarded: String,
    pub total_emails_blocked: String,
    pub total_emails_replied: String,
    pub total_emails_sent: String,
    pub created_at: String,
    pub updated_at: String,
}

/// An alias, as AnonAddy reports it.
#[derive(Debug, Clone, PartialEq, Eq)]
pub struct AnonAddyAlias {
    pub id: String,
    pub user_id: String,
    pub aliasable_id: Option<String>,
    pub aliasable_type: Option<String>,
    pub local_part: String,
    pub extension: Option<String>,
    pub domain: String,
    pub email: String,
    pub active: bool,
    pub description: Option<String>,
    pub emails_forwarded: i16,
    pub emails_blocked: i16,
    pub emails_replied: i16,
    pub emails_sent: i16,
    pub recipients: Vec<String>,
    pub created_at: String,
    pub updated_at: String,
}

impl Alias for AnonAddyAlias {
    open spec fn model(&self) -> AliasModel {
        AliasModel {
            id: self.id@,
            email: self.email@,
            active: self.active,
            description: string_view(self.description),
        }
    }

    fn is_active(&self) -> (active: bool) {
        self.active
    }

    fn get_id(&self) -> (id: &str) {
        self.id.as_str()
    }

    fn get_email(&self) -> (email: &str) {
        self.email.as_str()
    }

    fn get_description(&self) -> (description: Option<&str>) {
        match &self.description {
            Some(d) => Some(d.as_str()),
            None => None,
        }
    }
}

/// The body of an AnonAddy answer that lists records.
#[derive(Debug, Clone, PartialEq, Eq)]
pub struct AnonAddyResponse<T> {
    pub data: Vec<T>,
}

/// Where the aliases are listed.
pub open spec fn aliases_url(host: Seq<char>) -> Seq<char> {
    host + "/api/v1/aliases"@
}

/// Where the alias with the given id is deactivated.
pub open spec fn deactivation_url(host: Seq<char>, id: Seq<char>) -> Seq<char> {
    host + "/api/v1/active-aliases/"@ + id
}

/// What accompanies every request to AnonAddy.
pub open spec fn service_headers(token: Seq<char>) -> Seq<HeaderView> {
    seq![
        HeaderView { name: "Content-Type"@, value: "application/json"@ },
        HeaderView { name: "Authorization"@, value: "Bearer "@ + token },
    ]
}

/// The words with which a failed listing is reported.
pub open spec fn listing_refused_text() -> Seq<char> {
    "Failed to get aliases."@
}

/// The words with which a failed deactivation is reported.
pub open spec fn deactivation_refused_text(id: Seq<char>) -> Seq<char> {
    "Failed to deactivate alias "@ + id + "."@
}

/// Access to an AnonAddy instance: where it is and the credential it is
/// asked with.
#[derive(Debug, Clone, PartialEq, Eq)]
pub struct AnonAddy {
    pub token: String,
    pub host: String,
}

impl AnonAddy {
    /// Access with the given credential, to the given instance or, where none
    /// is given, to app.anonaddy.com.
    pub fn new(token: String, host: Option<String>) -> (anonaddy: Self)
        ensures
            anonaddy.token == token,
            match host {
                Some(h) => anonaddy.host == h,
                None => anonaddy.host@ == "https://app.anonaddy.com"@,
            },
    {
        let host = match host {
            Some(h) => h,
            None => String::from_str("https://app.anonaddy.com"),
        };
        AnonAddy { token, host }
    }

    fn headers(&self) -> (headers: Vec<Header>)
        ensures
            headers@.map_values(|h: Header| h@) == service_headers(self.token@),
    {
        let mut bearer = String::from_str("Bearer ");
        bearer.append(self.token.as_str());
        let mut headers: Vec<Header> = Vec::new();
        headers.push(Header::new("Content-Type", "application/json"));
        headers.push(Header::new("Authorization", bearer.as_str()));
        headers
    }
}

impl AliasService for AnonAddy {
    fn get_aliases(&self) -> (request: Request)
        ensures
            request@ == (RequestView {
                method: Method::Get,
                url: aliases_url(self.host@),
                headers: service_headers(self.token@),
            }),
    {
        let mut url = self.host.clone();
        url.append("/api/v1/aliases");
        Request { method: Method::Get, url, headers: self.headers() }
    }

    fn aliases_received(&self, status: u16) -> (verdict: Result<(), AliasError>)
        ensures
            verdict is Ok <==> status == OK,
            verdict matches Err(e) ==> e.message@ == listing_refused_text(),
    {
        if status != OK {
            return Err(AliasError::new(String::from_str("Failed to get aliases.")));
        }
        Ok(())
    }

    fn deactivate_alias(&self, id: &str) -> (request: Request)
        ensures
            request@ == (RequestView {
                method: Method::Delete,
                url: deactivation_url(self.host@, id@),
                headers: service_headers(self.token@),
            }),
    {
        let mut url = self.host.clone();
        url.append("/api/v1/active-aliases/");
        url.append(id);
        Request { method: Method::Delete, url, headers: self.headers() }
    }

    fn alias_deactivated(&self, id: &str, status: u16) -> (verdict: Result<(), AliasError>)
        ensures
            verdict is Ok <==> status == NO_CONTENT,
            verdict matches Err(e) ==> e.message@ == deactivation_refused_text(id@),
    {
        if status != NO_CONTENT {
            let mut message = String::from_str("Failed to deactivate alias ");
            message.append(id);
            message.append(".");
            return Err(AliasError::new(message));
        }
        Ok(())
    }
}

} // verus!
