use crate::error::{CommandError, CommandErrorView};
use vstd::prelude::*;
use vstd::string::StringExecFns;

verus! {

/// The fields of a settings object as the project's configuration holds them,
/// before any of them is known to be there.
#[derive(Debug, Clone, PartialEq, Eq)]
pub struct SettingsFields {
    pub resend_api_key: Option<String>,
    pub sender_email_address: Option<String>,
    pub reply_to_email_addresses: Option<String>,
}

/// Mathematical model of [`SettingsFields`].
pub struct SettingsFieldsView {
    pub resend_api_key: Option<Seq<char>>,
    pub sender_email_address: Option<Seq<char>>,
    pub reply_to_email_addresses: Option<Seq<char>>,
}

/// View of an optional string.
pub open spec fn text_view(text: Option<String>) -> Option<Seq<char>> {
    match text {
        Some(t) => Some(t@),
        None => None,
    }
}

impl View for SettingsFields {
    type V = SettingsFieldsView;

    open spec fn view(&self) -> SettingsFieldsView {
        SettingsFieldsView {
            resend_api_key: text_view(self.resend_api_key),
            sender_email_address: text_view(self.sender_email_address),
            reply_to_email_addresses: text_view(self.reply_to_email_addresses),
        }
    }
}

/// Validated settings of the server: the key is there and is not empty.
#[derive(Debug, PartialEq, Eq)]
pub struct ResendContextServerSettings {
    resend_api_key: String,
    sender_email_address: Option<String>,
    reply_to_email_addresses: Option<String>,
}

/// Mathematical model of [`ResendContextServerSettings`].
pub struct SettingsView {
    pub resend_api_key: Seq<char>,
    pub sender_email_address: Option<Seq<char>>,
    pub reply_to_email_addresses: Option<Seq<char>>,
}

impl SettingsView {
    /// The key is not empty.
    pub open spec fn wf(self) -> bool {
        self.resend_api_key.len() > 0
    }
}

impl View for ResendContextServerSettings {
    type V = SettingsView;

    closed spec fn view(&self) -> SettingsView {
        SettingsView {
            resend_api_key: self.resend_api_key@,
            sender_email_address: text_view(self.sender_email_address),
            reply_to_email_addresses: text_view(self.reply_to_email_addresses),
        }
    }
}

/// Message for a settings object without the key.
pub open spec fn missing_key_message() -> Seq<char> {
    "missing field `resend_api_key`"@
}

/// Message for a settings object whose key is the empty string.
pub open spec fn empty_key_message() -> Seq<char> {
    "`resend_api_key` must not be empty"@
}

/// What validation makes of the fields of a settings object.
pub open spec fn validated(fields: SettingsFieldsView) -> Result<SettingsView, CommandErrorView> {
    match fields.resend_api_key {
        None => Err(CommandErrorView::Configuration(missing_key_message())),
        Some(key) => if key.len() == 0 {
            Err(CommandErrorView::Configuration(empty_key_message()))
        } else {
            Ok(
                SettingsView {
                    resend_api_key: key,
                    sender_email_address: fields.sender_email_address,
                    reply_to_email_addresses: fields.reply_to_email_addresses,
                },
            )
        },
    }
}

/// View of a validation result.
pub open spec fn validation_view(
    outcome: Result<ResendContextServerSettings, CommandError>,
) -> Result<SettingsView, CommandErrorView> {
    match outcome {
        Ok(settings) => Ok(settings@),
        Err(error) => Err(error@),
    }
}

impl ResendContextServerSettings {
    #[verifier::type_invariant]
    closed spec fn inv(&self) -> bool {
        self@.wf()
    }

    /// Validates the fields of a settings object. The key is required and
    /// must not be empty; the two addresses are taken as they are.
    pub fn from_fields(fields: SettingsFields) -> (outcome: Result<Self, CommandError>)
        ensures
            validation_view(outcome) == validated(fields@),
            outcome matches Ok(settings) ==> settings@.wf(),
    {
        match fields.resend_api_key {
            None => Err(CommandError::Configuration(String::from_str("missing field `resend_api_key`"))),
            Some(key) => {
                if key.as_str().is_empty() {
                    Err(
                        CommandError::Configuration(
                            String::from_str("`resend_api_key` must not be empty"),
                        ),
                    )
                } else {
                    Ok(
                        ResendContextServerSettings {
                            resend_api_key: key,
                            sender_email_address: fields.sender_email_address,
                            reply_to_email_addresses: fields.reply_to_email_addresses,
                        },
                    )
                }
            },
        }
    }

    /// The API key, which is never empty.
    pub fn resend_api_key(&self) -> (key: &String)
        ensures
            key@ == self@.resend_api_key,
            key@.len() > 0,
    {
        proof {
            use_type_invariant(self);
        }
        &self.resend_api_key
    }

    /// The sender address, if one is set.
    pub fn sender_email_address(&self) -> (address: &Option<String>)
        ensures
            text_view(*address) == self@.sender_email_address,
    {
        &self.sender_email_address
    }

    /// The reply-to addresses, if any are set.
    pub fn reply_to_email_addresses(&self) -> (addresses: &Option<String>)
        ensures
            text_view(*addresses) == self@.reply_to_email_addresses,
    {
        &self.reply_to_email_addresses
    }
}

} // verus!
