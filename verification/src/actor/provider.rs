//! Why a provider could not be bound.

use vstd::prelude::*;

use super::event::CoreEvent;

verus! {

/// Why a provider could not be bound.
#[derive(Debug, Clone)]
pub enum BindFault {
    /// A read failed.
    Unread { error: String },
    ConversationNotFound,
    ProviderNotFound { provider_id: String },
    UnknownProviderType { provider_type: String },
    ConfigNotFound { provider_id: String },
}

impl BindFault {
    /// What is said of the fault.
    pub open spec fn words(self) -> Seq<char> {
        match self {
            BindFault::Unread { error } => error@,
            BindFault::ConversationNotFound => "conversation not found"@,
            BindFault::ProviderNotFound { provider_id } => "provider "@ + provider_id@
                + " not found"@,
            BindFault::UnknownProviderType { provider_type } => "unknown provider type: "@
                + provider_type@,
            BindFault::ConfigNotFound { provider_id } => "provider "@ + provider_id@
                + " config not found"@,
        }
    }

    /// What is said of the fault.
    pub fn text(&self) -> (text: String)
        ensures
            text@ == self.words(),
    {
        let mut text = String::new();
        match self {
            BindFault::Unread { error } => {
                text.append(error.as_str());
            },
            BindFault::ConversationNotFound => {
                text.append("conversation not found");
            },
            BindFault::ProviderNotFound { provider_id } => {
                text.append("provider ");
                text.append(provider_id.as_str());
                text.append(" not found");
            },
            BindFault::UnknownProviderType { provider_type } => {
                text.append("unknown provider type: ");
                text.append(provider_type.as_str());
            },
            BindFault::ConfigNotFound { provider_id } => {
                text.append("provider ");
                text.append(provider_id.as_str());
                text.append(" config not found");
            },
        }
        assert(text@ =~= self.words());
        text
    }

    /// What is sent for the fault. It belongs to no binding.
    pub fn event(&self, conversation_id: i64) -> (event: CoreEvent)
        ensures
            event matches CoreEvent::StreamError { conversation_id: id, error, generation } && id
                == conversation_id && error@ == self.words() && generation is None,
    {
        CoreEvent::StreamError { conversation_id, error: self.text(), generation: None }
    }
}

/// Take what a lookup on the way to a binding found: the thing itself, or the
/// fault of its absence, or the fault of the reading.
pub fn required<T>(found: Result<Option<T>, String>, absent: BindFault) -> (thing: Result<
    T,
    BindFault,
>)
    ensures
        thing == (match found {
            Ok(Some(value)) => Ok(value),
            Ok(None) => Err(absent),
            Err(error) => Err(BindFault::Unread { error }),
        }),
{
    match found {
        Ok(Some(value)) => Ok(value),
        Ok(None) => Err(absent),
        Err(error) => Err(BindFault::Unread { error }),
    }
}

/// A fault says what is missing, by the name under which it was looked for, and
/// a reading that failed is told in its own words.
pub proof fn a_fault_says_what_is_missing(fault: BindFault)
    ensures
        match fault {
            BindFault::Unread { error } => fault.words() == error@,
            BindFault::ConversationNotFound => fault.words() == "conversation not found"@,
            BindFault::ProviderNotFound { provider_id } => fault.words() == "provider "@ + (
            provider_id@ + " not found"@),
            BindFault::UnknownProviderType { provider_type } => fault.words()
                == "unknown provider type: "@ + provider_type@,
            BindFault::ConfigNotFound { provider_id } => fault.words() == "provider "@ + (
            provider_id@ + " config not found"@),
        },
{
    match fault {
        BindFault::ProviderNotFound { provider_id } => {
            assert(fault.words() =~= "provider "@ + (provider_id@ + " not found"@));
        },
        BindFault::ConfigNotFound { provider_id } => {
            assert(fault.words() =~= "provider "@ + (provider_id@ + " config not found"@));
        },
        _ => {},
    }
}

} // verus!
