//! What a scan needs to know of an alias and of the service that manages it.

use vstd::prelude::*;
use crate::http::{Request, TransportError, TransportErrorView};

verus! {

/// What an alias is to a scan.
pub ghost struct AliasModel {
    /// The provider's name for the alias.
    pub id: Seq<char>,
    /// The address that mail to the alias goes through.
    pub email: Seq<char>,
    /// Whether the alias forwards mail.
    pub active: bool,
    /// The owner's label for the alias.
    pub description: Option<Seq<char>>,
}

/// The model of a text that may be absent.
pub open spec fn text_view(text: Option<&str>) -> Option<Seq<char>> {
    match text {
        Some(t) => Some(t@),
        None => None,
    }
}

/// The model of an owned text that may be absent.
pub open spec fn string_view(text: Option<String>) -> Option<Seq<char>> {
    match text {
        Some(t) => Some(t@),
        None => None,
    }
}

/// A read-only look at one alias record. Each method reads off the part of
/// the model that it is named after.
pub trait Alias: core::fmt::Debug {
    /// What the alias is to a scan.
    spec fn model(&self) -> AliasModel;

    fn is_active(&self) -> (active: bool)
        ensures
            active == self.model().active,
    ;

    fn get_id(&self) -> (id: &str)
        ensures
            id@ == self.model().id,
    ;

    fn get_email(&self) -> (email: &str)
        ensures
            email@ == self.model().email,
    ;

    fn get_description(&self) -> (description: Option<&str>)
        ensures
            text_view(description) == self.model().description,
    ;
}

/// A refusal by the alias service, in words.
#[derive(Debug, Clone, PartialEq, Eq)]
pub struct AliasError {
    pub message: String,
}

impl AliasError {
    pub fn new(message: String) -> (e: Self)
        ensures
            e.message == message,
    {
        AliasError { message }
    }

    /// The refusal in words.
    pub fn to_text(&self) -> (text: String)
        ensures
            text@ == self.message@,
    {
        self.message.clone()
    }
}

/// Why the alias service did not do what it was asked: it refused, or it
/// could not be talked to.
#[derive(Debug, Clone, PartialEq, Eq)]
pub enum AliasFailure {
    Provider(AliasError),
    Transport(TransportError),
}

/// The model of an [`AliasFailure`].
pub ghost enum AliasFailureView {
    Provider(Seq<char>),
    Transport(TransportErrorView),
}

impl View for AliasFailure {
    type V = AliasFailureView;

    open spec fn view(&self) -> AliasFailureView {
        match *self {
            AliasFailure::Provider(e) => AliasFailureView::Provider(e.message@),
            AliasFailure::Transport(e) => AliasFailureView::Transport(e@),
        }
    }
}

/// A service that manages aliases, seen from the outside of every exchange:
/// what it is to be asked, and whether its answer means that it complied.
pub trait AliasService {
    /// The request that asks for every alias.
    fn get_aliases(&self) -> Request;

    /// Judges the status that answered the request for every alias. On `Ok`
    /// the body holds the aliases.
    fn aliases_received(&self, status: u16) -> Result<(), AliasError>;

    /// The request that asks to deactivate the alias with the given id.
    fn deactivate_alias(&self, id: &str) -> Request;

    /// Judges the status that answered the request to deactivate the alias
    /// with the given id.
    fn alias_deactivated(&self, id: &str, status: u16) -> Result<(), AliasError>;
}

} // verus!
