use vstd::prelude::*;
use vstd::string::StringExecFns;

verus! {

/// What the host shows to a user who sets the server up.
#[derive(Debug, Clone, PartialEq, Eq)]
pub struct ContextServerConfiguration {
    pub installation_instructions: String,
    pub default_settings: String,
    pub settings_schema: String,
}

/// Mathematical model of a [`ContextServerConfiguration`].
pub struct ConfigurationView {
    pub installation_instructions: Seq<char>,
    pub default_settings: Seq<char>,
    pub settings_schema: Seq<char>,
}

impl View for ContextServerConfiguration {
    type V = ConfigurationView;

    open spec fn view(&self) -> ConfigurationView {
        ConfigurationView {
            installation_instructions: self.installation_instructions@,
            default_settings: self.default_settings@,
            settings_schema: self.settings_schema@,
        }
    }
}

/// How to get an API key and where to put it.
pub open spec fn installation_instructions() -> Seq<char> {
    "To use the Resend context server you need an API key.\n\n1. Sign in at https://resend.com and create an API key.\n2. Put the key into the settings of the context server as `resend_api_key`.\n3. Optionally set `sender_email_address` to the address that mail is sent from,\n   and `reply_to_email_addresses` to a comma-separated list of addresses for replies.\n"@
}

/// A settings object to start from.
pub open spec fn default_settings() -> Seq<char> {
    "{\n  /// Your Resend API key.\n  \"resend_api_key\": \"YOUR_RESEND_API_KEY\",\n  /// The address that mail is sent from (optional).\n  \"sender_email_address\": \"\",\n  /// Comma-separated addresses for replies (optional).\n  \"reply_to_email_addresses\": \"\"\n}\n"@
}

/// The description of the server's configuration around a settings schema.
pub open spec fn configuration_of(settings_schema: Seq<char>) -> ConfigurationView {
    ConfigurationView {
        installation_instructions: installation_instructions(),
        default_settings: default_settings(),
        settings_schema,
    }
}

/// Describes the configuration of the server: the fixed instructions, the
/// fixed settings to start from, and the text of the settings' schema as
/// given.
pub fn describe(settings_schema: String) -> (configuration: ContextServerConfiguration)
    ensures
        configuration@ == configuration_of(settings_schema@),
{
    ContextServerConfiguration {
        installation_instructions: String::from_str(
            "To use the Resend context server you need an API key.\n\n1. Sign in at https://resend.com and create an API key.\n2. Put the key into the settings of the context server as `resend_api_key`.\n3. Optionally set `sender_email_address` to the address that mail is sent from,\n   and `reply_to_email_addresses` to a comma-separated list of addresses for replies.\n",
        ),
        default_settings: String::from_str(
            "{\n  /// Your Resend API key.\n  \"resend_api_key\": \"YOUR_RESEND_API_KEY\",\n  /// The address that mail is sent from (optional).\n  \"sender_email_address\": \"\",\n  /// Comma-separated addresses for replies (optional).\n  \"reply_to_email_addresses\": \"\"\n}\n",
        ),
        settings_schema,
    }
}

/// A JSON schema as `schemars` generates it. Nothing inside it is known
/// here: it is only handed on to the serialiser.
#[verifier::external_type_specification]
#[verifier::external_body]
pub struct ExRootSchema(schemars::schema::RootSchema);

/// The error of the JSON serialiser. Nothing inside it is known here.
#[verifier::external_type_specification]
#[verifier::external_body]
pub struct ExJsonError(zed_extension_api::serde_json::Error);

/// The JSON text that `serde_json::to_string` gives for a schema, or `None`
/// where the serialiser fails on it. The text depends on the schema alone:
/// the serialiser writes the schema's keywords in the order in which the
/// schema holds them, and reads nothing else.
pub uninterp spec fn schema_json(schema: schemars::schema::RootSchema) -> Option<Seq<char>>;

/// Calls `serde_json::to_string` on the schema. The call gives the schema as
/// JSON text or the serialiser's error: the text is the one that
/// [`schema_json`] names, and the error comes where it names none. Nothing is
/// claimed of what the text holds, nor of when the serialiser fails.
#[verifier::external_body]
fn schema_text(schema: &schemars::schema::RootSchema) -> (outcome: Result<
    String,
    zed_extension_api::serde_json::Error,
>)
    ensures
        match outcome {
            Ok(text) => schema_json(*schema) == Some(text@),
            Err(_) => schema_json(*schema) is None,
        },
{
    zed_extension_api::serde_json::to_string(schema)
}

/// Calls `to_string` on an error of the JSON serialiser, which writes the
/// error's message. Nothing is claimed of the text.
#[verifier::external_body]
fn error_text(error: &zed_extension_api::serde_json::Error) -> (text: String) {
    error.to_string()
}

/// The schema of the settings could not be written as JSON text.
#[derive(Debug, Clone, PartialEq, Eq)]
pub struct SchemaError {
    /// What the serialiser said.
    pub message: String,
}

/// Describes the configuration of the server for a generated schema of its
/// settings. Where the schema can be written as JSON text, the description
/// is there and is that of [`describe`] for this text; where the serialiser
/// fails, the outcome is the error with the serialiser's message.
pub fn context_server_configuration(schema: &schemars::schema::RootSchema) -> (outcome: Result<
    Option<ContextServerConfiguration>,
    SchemaError,
>)
    ensures
        match schema_json(*schema) {
            Some(text) => outcome matches Ok(Some(configuration)) && configuration@
                == configuration_of(text),
            None => outcome is Err,
        },
{
    match schema_text(schema) {
        Ok(text) => Ok(Some(describe(text))),
        Err(error) => Err(SchemaError { message: error_text(&error) }),
    }
}

/// The description depends on the schema alone: two descriptions of one
/// schema are equal, and they differ in nothing but the schema.
pub proof fn lemma_description_is_determined(first: Seq<char>, second: Seq<char>)
    ensures
        first == second ==> configuration_of(first) == configuration_of(second),
        configuration_of(first).installation_instructions == configuration_of(
            second,
        ).installation_instructions,
        configuration_of(first).default_settings == configuration_of(second).default_settings,
        configuration_of(first).settings_schema == first,
{
}

} // verus!
