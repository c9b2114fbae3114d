use mcp_server_resend::command::{environment, launch_command, Command};
use mcp_server_resend::configuration::{context_server_configuration, describe};
use mcp_server_resend::error::CommandError;
use mcp_server_resend::settings::{ResendContextServerSettings, SettingsFields};
use mcp_server_resend::variant::{Dependency, ServerVariant};

fn text(value: &str) -> String {
    value.to_string()
}

fn fields(key: Option<&str>, sender: Option<&str>, reply_to: Option<&str>) -> SettingsFields {
    SettingsFields {
        resend_api_key: key.map(text),
        sender_email_address: sender.map(text),
        reply_to_email_addresses: reply_to.map(text),
    }
}

fn settings(key: &str, sender: Option<&str>, reply_to: Option<&str>) -> ResendContextServerSettings {
    ResendContextServerSettings::from_fields(fields(Some(key), sender, reply_to)).unwrap()
}

fn pair(name: &str, value: &str) -> (String, String) {
    (text(name), text(value))
}

#[test]
fn validated_settings_keep_their_fields() {
    let settings = settings("k1", Some("me@example.com"), None);
    assert_eq!(settings.resend_api_key(), "k1");
    assert_eq!(settings.sender_email_address(), &Some(text("me@example.com")));
    assert_eq!(settings.reply_to_email_addresses(), &None);
}

#[test]
fn settings_without_key_are_rejected() {
    let outcome = ResendContextServerSettings::from_fields(fields(None, Some("a@b.com"), None));
    assert_eq!(
        outcome,
        Err(CommandError::Configuration(text("missing field `resend_api_key`")))
    );
}

#[test]
fn settings_with_empty_key_are_rejected() {
    let outcome = ResendContextServerSettings::from_fields(fields(Some(""), None, None));
    assert_eq!(
        outcome,
        Err(CommandError::Configuration(text("`resend_api_key` must not be empty")))
    );
}

#[test]
fn empty_sender_is_left_out_of_the_environment() {
    let env = environment(
        &settings("k1", Some(""), Some("a@b.com")),
        &ServerVariant::resend_mcp(),
    );
    assert_eq!(
        env,
        vec![
            pair("RESEND_API_KEY", "k1"),
            pair("REPLY_TO_EMAIL_ADDRESSES", "a@b.com"),
        ]
    );
}

#[test]
fn environment_holds_every_set_field_in_declared_order() {
    let env = environment(
        &settings("key", Some("from@example.com"), Some("a@b.com,c@d.com")),
        &ServerVariant::resend_mcp(),
    );
    assert_eq!(
        env,
        vec![
            pair("RESEND_API_KEY", "key"),
            pair("SENDER_EMAIL_ADDRESS", "from@example.com"),
            pair("REPLY_TO_EMAIL_ADDRESSES", "a@b.com,c@d.com"),
        ]
    );
}

#[test]
fn environment_of_the_key_alone() {
    let variant = ServerVariant::resend_mcp();
    assert_eq!(
        environment(&settings("key", None, None), &variant),
        vec![pair("RESEND_API_KEY", "key")]
    );
    assert_eq!(
        environment(&settings("key", Some(""), Some("")), &variant),
        vec![pair("RESEND_API_KEY", "key")]
    );
}

#[test]
fn environment_with_sender_alone() {
    let env = environment(
        &settings("key", Some("from@example.com"), None),
        &ServerVariant::resend_mcp(),
    );
    assert_eq!(
        env,
        vec![
            pair("RESEND_API_KEY", "key"),
            pair("SENDER_EMAIL_ADDRESS", "from@example.com"),
        ]
    );
}

#[test]
fn environment_uses_the_names_of_the_variant() {
    let mut variant = ServerVariant::resend_mcp();
    variant.sender_variable = text("RESEND_DEFAULT_FROM");
    variant.reply_to_variable = text("RESEND_DEFAULT_REPLY_TO");
    let env = environment(&settings("key", Some("s@x.org"), Some("r@x.org")), &variant);
    assert_eq!(
        env,
        vec![
            pair("RESEND_API_KEY", "key"),
            pair("RESEND_DEFAULT_FROM", "s@x.org"),
            pair("RESEND_DEFAULT_REPLY_TO", "r@x.org"),
        ]
    );
}

#[test]
fn launch_command_runs_node_on_the_server_file() {
    let command = launch_command(
        &settings("k1", None, Some("a@b.com")),
        &ServerVariant::resend_mcp(),
        text("/usr/bin/node"),
        &text("/work/node_modules/resend-mcp/dist/index.js"),
    );
    assert_eq!(
        command,
        Command {
            command: text("/usr/bin/node"),
            args: vec![text("/work/node_modules/resend-mcp/dist/index.js")],
            env: vec![
                pair("RESEND_API_KEY", "k1"),
                pair("REPLY_TO_EMAIL_ADDRESSES", "a@b.com"),
            ],
        }
    );
}

#[test]
fn resend_mcp_variant_has_its_fixed_values() {
    let variant = ServerVariant::resend_mcp();
    assert_eq!(variant.name, "resend-mcp");
    assert_eq!(
        variant.server_path,
        vec![
            text("node_modules"),
            text("resend-mcp"),
            text("dist"),
            text("index.js"),
        ]
    );
    assert_eq!(variant.manifest_path, vec![text("package.json")]);
    assert_eq!(
        variant.manifest,
        "{\n  \"name\": \"mcp-resend-server-wrapper\",\n  \"version\": \"1.0.0\",\n  \"type\": \"module\",\n  \"dependencies\": {\n    \"resend-mcp\": \"^0.1.2\"\n  }\n}"
    );
    assert_eq!(variant.embedded_script, None);
    assert_eq!(
        variant.dependencies,
        vec![Dependency {
            name: text("resend-mcp"),
            version: text("^0.1.2"),
        }]
    );
    assert_eq!(variant.sender_variable, "SENDER_EMAIL_ADDRESS");
    assert_eq!(variant.reply_to_variable, "REPLY_TO_EMAIL_ADDRESSES");
    assert_eq!(ServerVariant::server_id(), "mcp-server-resend");
}

#[test]
fn error_message_is_the_text_it_carries() {
    assert_eq!(CommandError::Configuration(text("a")).message(), "a");
    assert_eq!(CommandError::Installation(text("b")).message(), "b");
    assert_eq!(CommandError::Io(text("c")).message(), "c");
    assert_eq!(CommandError::Host(text("d")).message(), "d");
}

#[test]
fn error_kinds_are_told_apart() {
    assert!(CommandError::Configuration(text("a")).is_configuration());
    assert!(!CommandError::Configuration(text("a")).is_installation());
    assert!(CommandError::Installation(text("b")).is_installation());
    assert!(!CommandError::Installation(text("b")).is_io());
    assert!(CommandError::Io(text("c")).is_io());
    assert!(!CommandError::Io(text("c")).is_host());
    assert!(CommandError::Host(text("d")).is_host());
    assert!(!CommandError::Host(text("d")).is_configuration());
}

#[test]
fn description_is_the_same_on_every_call() {
    let first = describe(text("{\"type\":\"object\"}"));
    let second = describe(text("{\"type\":\"object\"}"));
    assert_eq!(first, second);
    assert_eq!(first.settings_schema, "{\"type\":\"object\"}");
    assert!(first.installation_instructions.contains("resend_api_key"));
    assert!(first.default_settings.contains("\"resend_api_key\""));
    assert!(first.default_settings.contains("\"sender_email_address\""));
    assert!(first.default_settings.contains("\"reply_to_email_addresses\""));
}

#[test]
fn description_changes_with_the_schema_only() {
    let first = describe(text("{}"));
    let second = describe(text("{\"title\":\"x\"}"));
    assert_eq!(first.installation_instructions, second.installation_instructions);
    assert_eq!(first.default_settings, second.default_settings);
    assert_ne!(first.settings_schema, second.settings_schema);
}

#[test]
fn description_carries_the_schema_as_json_text() {
    let schema = schemars::gen::SchemaGenerator::default().into_root_schema_for::<Option<String>>();
    let expected = zed_extension_api::serde_json::to_string(&schema).unwrap();
    let found = context_server_configuration(&schema).unwrap().unwrap();
    assert!(expected.contains("\"$schema\""));
    assert_eq!(found, describe(expected));
}

#[test]
fn description_of_a_generated_schema_is_the_same_on_every_call() {
    let schema = schemars::gen::SchemaGenerator::default().into_root_schema_for::<String>();
    let first = context_server_configuration(&schema);
    let second = context_server_configuration(&schema);
    assert_eq!(first, second);
    assert_eq!(
        first.unwrap().unwrap().settings_schema,
        "{\"$schema\":\"http://json-schema.org/draft-07/schema#\",\"title\":\"String\",\"type\":\"string\"}"
    );
}
