//! A counterparty as the satellite knows it, and the ways in which asking the
//! satellite about one can fail.

use vstd::prelude::*;

verus! {

/// The satellite's record of a party: its identifier, the name to show for
/// it, and the certificates it may present.
#[derive(Debug, Clone, PartialEq, Eq)]
pub struct PartyInfo {
    pub party_id: String,
    pub party_name: String,
    pub certificates: Vec<String>,
}

pub struct PartyInfoView {
    pub party_id: Seq<char>,
    pub party_name: Seq<char>,
    pub certificates: Seq<Seq<char>>,
}

impl View for PartyInfo {
    type V = PartyInfoView;

    open spec fn view(&self) -> PartyInfoView {
        PartyInfoView {
            party_id: self.party_id@,
            party_name: self.party_name@,
            certificates: self.certificates.deep_view(),
        }
    }
}

/// Why the satellite did not vouch for a party.
///
/// The first variant is a failure of the way to the satellite or of its
/// answer; the others say that the satellite answered and does not know the
/// party as an active one.
#[derive(Debug, Clone, PartialEq, Eq)]
pub enum ValidatePartyError {
    Unexpected(String),
    Inactive(String),
    NotFound(String),
    AdherenceExpired,
}

pub enum ValidatePartyErrorView {
    Unexpected(Seq<char>),
    Inactive(Seq<char>),
    NotFound(Seq<char>),
    AdherenceExpired,
}

impl View for ValidatePartyError {
    type V = ValidatePartyErrorView;

    open spec fn view(&self) -> ValidatePartyErrorView {
        match self {
            ValidatePartyError::Unexpected(cause) => ValidatePartyErrorView::Unexpected(cause@),
            ValidatePartyError::Inactive(party) => ValidatePartyErrorView::Inactive(party@),
            ValidatePartyError::NotFound(party) => ValidatePartyErrorView::NotFound(party@),
            ValidatePartyError::AdherenceExpired => ValidatePartyErrorView::AdherenceExpired,
        }
    }
}

impl ValidatePartyErrorView {
    /// Whether the error says that the party is not a known and active one,
    /// which is for the party to mend, and not that the satellite could not be asked.
    pub open spec fn is_client_attributable(self) -> bool {
        !(self is Unexpected)
    }

    /// The error in words.
    pub open spec fn message(self) -> Seq<char> {
        match self {
            ValidatePartyErrorView::Unexpected(cause) => cause,
            ValidatePartyErrorView::Inactive(party) => "The ishare party "@ + party
                + " is currently not active"@,
            ValidatePartyErrorView::NotFound(party) => "The ishare party "@ + party
                + " does not seem to exist"@,
            ValidatePartyErrorView::AdherenceExpired => "adherence is not active anymore"@,
        }
    }
}

impl ValidatePartyError {
    pub fn is_client_attributable(&self) -> (attributable: bool)
        ensures
            attributable == self@.is_client_attributable(),
    {
        match self {
            ValidatePartyError::Unexpected(_) => false,
            _ => true,
        }
    }

    pub fn message(&self) -> (text: String)
        ensures
            text@ == self@.message(),
    {
        match self {
            ValidatePartyError::Unexpected(cause) => cause.clone(),
            ValidatePartyError::Inactive(party) => {
                let mut text = "The ishare party ".to_owned();
                text.append(party.as_str());
                text.append(" is currently not active");
                text
            },
            ValidatePartyError::NotFound(party) => {
                let mut text = "The ishare party ".to_owned();
                text.append(party.as_str());
                text.append(" does not seem to exist");
                text
            },
            ValidatePartyError::AdherenceExpired => "adherence is not active anymore".to_owned(),
        }
    }
}

} // verus!
