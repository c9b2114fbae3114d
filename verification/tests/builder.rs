use mcp_server_resend::builder::{Action, CommandBuilder, Event, Phase, SettingsLookup};
use mcp_server_resend::command::Command;
use mcp_server_resend::error::CommandError;
use mcp_server_resend::layout::Layout;
use mcp_server_resend::settings::SettingsFields;
use mcp_server_resend::variant::{Dependency, ServerVariant};

const SERVER_DIR: &str = "/work/node_modules/resend-mcp/dist";
const SERVER_FILE: &str = "/work/node_modules/resend-mcp/dist/index.js";
const MANIFEST_FILE: &str = "/work/package.json";

fn text(value: &str) -> String {
    value.to_string()
}

fn layout() -> Layout {
    Layout {
        server_dir: text(SERVER_DIR),
        server_file: text(SERVER_FILE),
        manifest_file: text(MANIFEST_FILE),
    }
}

#[test]
fn layout_of_the_package_variant_below_a_root() {
    assert_eq!(
        Layout::below(&text("/work"), &ServerVariant::resend_mcp()),
        layout()
    );
}

#[test]
fn layout_adds_no_slash_after_a_slash() {
    assert_eq!(
        Layout::below(&text("/"), &ServerVariant::resend_mcp()),
        Layout {
            server_dir: text("/node_modules/resend-mcp/dist"),
            server_file: text("/node_modules/resend-mcp/dist/index.js"),
            manifest_file: text("/package.json"),
        }
    );
    assert_eq!(
        Layout::below(&text("/work/"), &ServerVariant::resend_mcp()).manifest_file,
        "/work/package.json"
    );
}

#[test]
fn layout_below_an_empty_root_is_relative() {
    assert_eq!(
        Layout::below(&text(""), &embedded_variant()),
        Layout {
            server_dir: text("server"),
            server_file: text("server/index.js"),
            manifest_file: text("server/package.json"),
        }
    );
}

#[test]
fn layout_of_a_variant_without_path_is_the_root() {
    let mut variant = ServerVariant::resend_mcp();
    variant.server_path = Vec::new();
    variant.manifest_path = Vec::new();
    assert_eq!(
        Layout::below(&text("/work"), &variant),
        Layout {
            server_dir: text("/work"),
            server_file: text("/work"),
            manifest_file: text("/work"),
        }
    );
}

#[test]
fn construction_below_a_root_runs_on_the_joined_paths() {
    let variant = ServerVariant::resend_mcp();
    let layout = Layout::below(&text("/home/me/ext"), &variant);
    let (builder, _) = CommandBuilder::new(variant, layout);
    let (builder, action) = builder.step(present(Some("k1"), None, None));
    assert_eq!(
        action,
        Action::CheckExists(text("/home/me/ext/node_modules/resend-mcp/dist/index.js"))
    );
    let (_, action) = builder.step(Event::Exists(false));
    assert_eq!(action, Action::CheckExists(text("/home/me/ext/package.json")));
}

fn present(key: Option<&str>, sender: Option<&str>, reply_to: Option<&str>) -> Event {
    Event::Settings(SettingsLookup::Present(SettingsFields {
        resend_api_key: key.map(text),
        sender_email_address: sender.map(text),
        reply_to_email_addresses: reply_to.map(text),
    }))
}

fn embedded_variant() -> ServerVariant {
    ServerVariant {
        name: text("resend"),
        server_path: vec![text("server"), text("index.js")],
        manifest_path: vec![text("server"), text("package.json")],
        manifest: text("{\"dependencies\":{}}"),
        embedded_script: Some(text("console.log('server');")),
        dependencies: vec![
            Dependency {
                name: text("resend"),
                version: text("^4.0.0"),
            },
            Dependency {
                name: text("@modelcontextprotocol/sdk"),
                version: text("^1.0.0"),
            },
        ],
        sender_variable: text("RESEND_DEFAULT_FROM"),
        reply_to_variable: text("RESEND_DEFAULT_REPLY_TO"),
    }
}

/// Feeds the events to a fresh builder and collects every action, the first
/// request for the settings included.
fn drive(variant: ServerVariant, events: Vec<Event>) -> (CommandBuilder, Vec<Action>) {
    let (mut builder, first) = CommandBuilder::new(variant, layout());
    let mut actions = vec![first];
    for event in events {
        let (next, action) = builder.step(event);
        builder = next;
        actions.push(action);
    }
    (builder, actions)
}

fn changes_disk(action: &Action) -> bool {
    matches!(
        action,
        Action::CreateDirectory(_) | Action::WriteFile(_, _) | Action::InstallPackage(_, _)
    )
}

#[test]
fn construction_starts_with_the_settings() {
    let (builder, action) = CommandBuilder::new(ServerVariant::resend_mcp(), layout());
    assert_eq!(action, Action::FetchSettings(text("mcp-server-resend")));
    assert_eq!(builder.phase(), Phase::AwaitSettings);
    assert!(!builder.is_finished());
}

#[test]
fn missing_settings_are_a_configuration_error() {
    let (builder, actions) = drive(
        ServerVariant::resend_mcp(),
        vec![Event::Settings(SettingsLookup::NotConfigured)],
    );
    assert_eq!(
        actions[1],
        Action::Finish(Err(CommandError::Configuration(text(
            "missing required API key setting"
        ))))
    );
    assert!(builder.is_finished());
    assert!(!actions.iter().any(changes_disk));
}

#[test]
fn settings_without_key_end_the_construction_without_writes() {
    let (builder, actions) = drive(
        ServerVariant::resend_mcp(),
        vec![present(None, Some("from@example.com"), Some("a@b.com"))],
    );
    assert_eq!(actions.len(), 2);
    assert_eq!(
        actions[1],
        Action::Finish(Err(CommandError::Configuration(text(
            "missing field `resend_api_key`"
        ))))
    );
    assert!(builder.is_finished());
    assert!(!actions.iter().any(changes_disk));
}

#[test]
fn settings_with_empty_key_end_the_construction() {
    let (_, actions) = drive(ServerVariant::resend_mcp(), vec![present(Some(""), None, None)]);
    assert_eq!(
        actions[1],
        Action::Finish(Err(CommandError::Configuration(text(
            "`resend_api_key` must not be empty"
        ))))
    );
}

#[test]
fn malformed_settings_keep_their_message() {
    let (_, actions) = drive(
        ServerVariant::resend_mcp(),
        vec![Event::Settings(SettingsLookup::Malformed(text(
            "invalid type: integer `5`, expected a string",
        )))],
    );
    assert_eq!(
        actions[1],
        Action::Finish(Err(CommandError::Configuration(text(
            "invalid type: integer `5`, expected a string"
        ))))
    );
}

#[test]
fn failed_settings_lookup_is_a_host_error() {
    let (_, actions) = drive(
        ServerVariant::resend_mcp(),
        vec![Event::Settings(SettingsLookup::Unavailable(text("no host")))],
    );
    assert_eq!(actions[1], Action::Finish(Err(CommandError::Host(text("no host")))));
}

#[test]
fn present_server_is_launched_without_installation() {
    let (builder, actions) = drive(
        ServerVariant::resend_mcp(),
        vec![
            present(Some("k1"), Some(""), Some("a@b.com")),
            Event::Exists(true),
            Event::NodePath(Ok(text("/usr/bin/node"))),
        ],
    );
    assert_eq!(
        actions,
        vec![
            Action::FetchSettings(text("mcp-server-resend")),
            Action::CheckExists(text(SERVER_FILE)),
            Action::LookupNode,
            Action::Finish(Ok(Command {
                command: text("/usr/bin/node"),
                args: vec![text(SERVER_FILE)],
                env: vec![
                    (text("RESEND_API_KEY"), text("k1")),
                    (text("REPLY_TO_EMAIL_ADDRESSES"), text("a@b.com")),
                ],
            })),
        ]
    );
    assert!(builder.is_finished());
    assert!(!actions.iter().any(changes_disk));
}

#[test]
fn absent_server_is_installed_once_and_checked_again() {
    let (builder, actions) = drive(
        ServerVariant::resend_mcp(),
        vec![
            present(Some("k1"), None, None),
            Event::Exists(false),
            Event::Exists(false),
            Event::Completed,
            Event::Completed,
            Event::Exists(true),
            Event::NodePath(Ok(text("node"))),
        ],
    );
    assert_eq!(
        actions,
        vec![
            Action::FetchSettings(text("mcp-server-resend")),
            Action::CheckExists(text(SERVER_FILE)),
            Action::CheckExists(text(MANIFEST_FILE)),
            Action::WriteFile(text(MANIFEST_FILE), ServerVariant::resend_mcp().manifest),
            Action::InstallPackage(text("resend-mcp"), text("^0.1.2")),
            Action::CheckExists(text(SERVER_FILE)),
            Action::LookupNode,
            Action::Finish(Ok(Command {
                command: text("node"),
                args: vec![text(SERVER_FILE)],
                env: vec![(text("RESEND_API_KEY"), text("k1"))],
            })),
        ]
    );
    assert!(builder.is_finished());
}

#[test]
fn existing_manifest_is_not_written_again() {
    let (builder, actions) = drive(
        ServerVariant::resend_mcp(),
        vec![
            present(Some("k1"), None, None),
            Event::Exists(false),
            Event::Exists(true),
            Event::Completed,
        ],
    );
    assert_eq!(
        actions[2..],
        [
            Action::CheckExists(text(MANIFEST_FILE)),
            Action::InstallPackage(text("resend-mcp"), text("^0.1.2")),
            Action::CheckExists(text(SERVER_FILE)),
        ]
    );
    assert_eq!(builder.phase(), Phase::AwaitRecheck);
    assert!(!actions.iter().any(|action| matches!(action, Action::WriteFile(_, _))));
}

#[test]
fn server_still_absent_is_an_installation_error_with_the_path() {
    let (builder, actions) = drive(
        ServerVariant::resend_mcp(),
        vec![
            present(Some("k1"), None, None),
            Event::Exists(false),
            Event::Exists(true),
            Event::Completed,
            Event::Exists(false),
        ],
    );
    assert_eq!(
        actions[5],
        Action::Finish(Err(CommandError::Installation(text(
            "Failed to install resend-mcp package or binary not found at /work/node_modules/resend-mcp/dist/index.js"
        ))))
    );
    assert!(builder.is_finished());
    let installs = actions
        .iter()
        .filter(|action| matches!(action, Action::InstallPackage(_, _)))
        .count();
    assert_eq!(installs, 1);
}

#[test]
fn failed_manifest_write_is_an_io_error() {
    let (builder, actions) = drive(
        ServerVariant::resend_mcp(),
        vec![
            present(Some("k1"), None, None),
            Event::Exists(false),
            Event::Exists(false),
            Event::Failed(text("read-only file system")),
        ],
    );
    assert_eq!(
        actions[4],
        Action::Finish(Err(CommandError::Io(text("read-only file system"))))
    );
    assert!(builder.is_finished());
    assert!(!actions.iter().any(|action| matches!(action, Action::InstallPackage(_, _))));
}

#[test]
fn failed_installation_is_a_host_error() {
    let (builder, actions) = drive(
        ServerVariant::resend_mcp(),
        vec![
            present(Some("k1"), None, None),
            Event::Exists(false),
            Event::Exists(true),
            Event::Failed(text("npm exited with 1")),
        ],
    );
    assert_eq!(
        actions[4],
        Action::Finish(Err(CommandError::Host(text("npm exited with 1"))))
    );
    assert!(builder.is_finished());
}

#[test]
fn failed_node_lookup_is_a_host_error() {
    let (_, actions) = drive(
        ServerVariant::resend_mcp(),
        vec![
            present(Some("k1"), None, None),
            Event::Exists(true),
            Event::NodePath(Err(text("node is not installed"))),
        ],
    );
    assert_eq!(
        actions[3],
        Action::Finish(Err(CommandError::Host(text("node is not installed"))))
    );
}

#[test]
fn embedded_script_is_written_before_the_dependencies_are_installed() {
    let (builder, actions) = drive(
        embedded_variant(),
        vec![
            present(Some("k1"), Some("s@x.org"), None),
            Event::Exists(false),
            Event::Completed,
            Event::Completed,
            Event::Exists(false),
            Event::Completed,
            Event::Completed,
            Event::Completed,
            Event::Exists(true),
            Event::NodePath(Ok(text("node"))),
        ],
    );
    assert_eq!(
        actions,
        vec![
            Action::FetchSettings(text("mcp-server-resend")),
            Action::CheckExists(text(SERVER_FILE)),
            Action::CreateDirectory(text(SERVER_DIR)),
            Action::WriteFile(text(SERVER_FILE), text("console.log('server');")),
            Action::CheckExists(text(MANIFEST_FILE)),
            Action::WriteFile(text(MANIFEST_FILE), text("{\"dependencies\":{}}")),
            Action::InstallPackage(text("resend"), text("^4.0.0")),
            Action::InstallPackage(text("@modelcontextprotocol/sdk"), text("^1.0.0")),
            Action::CheckExists(text(SERVER_FILE)),
            Action::LookupNode,
            Action::Finish(Ok(Command {
                command: text("node"),
                args: vec![text(SERVER_FILE)],
                env: vec![
                    (text("RESEND_API_KEY"), text("k1")),
                    (text("RESEND_DEFAULT_FROM"), text("s@x.org")),
                ],
            })),
        ]
    );
    assert!(builder.is_finished());
}

#[test]
fn second_dependency_is_not_installed_after_the_first_failed() {
    let (builder, actions) = drive(
        embedded_variant(),
        vec![
            present(Some("k1"), None, None),
            Event::Exists(false),
            Event::Completed,
            Event::Completed,
            Event::Exists(true),
            Event::Failed(text("registry unreachable")),
        ],
    );
    assert_eq!(
        actions[6],
        Action::Finish(Err(CommandError::Host(text("registry unreachable"))))
    );
    assert!(builder.is_finished());
    let installs = actions
        .iter()
        .filter(|action| matches!(action, Action::InstallPackage(_, _)))
        .count();
    assert_eq!(installs, 1);
}

#[test]
fn failed_directory_is_an_io_error() {
    let (_, actions) = drive(
        embedded_variant(),
        vec![
            present(Some("k1"), None, None),
            Event::Exists(false),
            Event::Failed(text("permission denied")),
        ],
    );
    assert_eq!(
        actions[3],
        Action::Finish(Err(CommandError::Io(text("permission denied"))))
    );
}

#[test]
fn failed_script_write_is_an_io_error() {
    let (_, actions) = drive(
        embedded_variant(),
        vec![
            present(Some("k1"), None, None),
            Event::Exists(false),
            Event::Completed,
            Event::Failed(text("disk full")),
        ],
    );
    assert_eq!(actions[4], Action::Finish(Err(CommandError::Io(text("disk full")))));
}

#[test]
fn variant_without_dependencies_goes_straight_to_the_second_look() {
    let mut variant = embedded_variant();
    variant.dependencies = Vec::new();
    let (builder, actions) = drive(
        variant,
        vec![
            present(Some("k1"), None, None),
            Event::Exists(false),
            Event::Completed,
            Event::Completed,
            Event::Exists(true),
        ],
    );
    assert_eq!(actions[5], Action::CheckExists(text(SERVER_FILE)));
    assert_eq!(builder.phase(), Phase::AwaitRecheck);
}

#[test]
fn phases_follow_the_actions() {
    let (builder, _) = CommandBuilder::new(embedded_variant(), layout());
    let (builder, _) = builder.step(present(Some("k1"), None, None));
    assert_eq!(builder.phase(), Phase::AwaitServerCheck);
    let (builder, _) = builder.step(Event::Exists(false));
    assert_eq!(builder.phase(), Phase::AwaitDirectory);
    let (builder, _) = builder.step(Event::Completed);
    assert_eq!(builder.phase(), Phase::AwaitScript);
    let (builder, _) = builder.step(Event::Completed);
    assert_eq!(builder.phase(), Phase::AwaitManifestCheck);
    let (builder, _) = builder.step(Event::Exists(false));
    assert_eq!(builder.phase(), Phase::AwaitManifest);
    let (builder, _) = builder.step(Event::Completed);
    assert_eq!(builder.phase(), Phase::AwaitInstall(0));
    let (builder, _) = builder.step(Event::Completed);
    assert_eq!(builder.phase(), Phase::AwaitInstall(1));
    let (builder, _) = builder.step(Event::Completed);
    assert_eq!(builder.phase(), Phase::AwaitRecheck);
    let (builder, _) = builder.step(Event::Exists(true));
    assert_eq!(builder.phase(), Phase::AwaitNode);
    let (builder, _) = builder.step(Event::NodePath(Ok(text("node"))));
    assert_eq!(builder.phase(), Phase::Finished);
}

#[test]
fn event_that_answers_nothing_ends_the_construction() {
    let (builder, actions) = drive(ServerVariant::resend_mcp(), vec![Event::Exists(true)]);
    assert_eq!(
        actions[1],
        Action::Finish(Err(CommandError::Host(text(
            "the event does not answer the pending action"
        ))))
    );
    assert!(builder.is_finished());
}

#[test]
fn event_after_the_end_is_answered_with_an_error() {
    let (builder, actions) = drive(
        ServerVariant::resend_mcp(),
        vec![
            Event::Settings(SettingsLookup::NotConfigured),
            Event::Completed,
        ],
    );
    assert_eq!(
        actions[2],
        Action::Finish(Err(CommandError::Host(text(
            "the event does not answer the pending action"
        ))))
    );
    assert!(builder.is_finished());
}

#[test]
fn write_report_does_not_answer_a_look_at_the_disk() {
    let (builder, actions) = drive(
        ServerVariant::resend_mcp(),
        vec![present(Some("k1"), None, None), Event::Completed],
    );
    assert_eq!(
        actions[2],
        Action::Finish(Err(CommandError::Host(text(
            "the event does not answer the pending action"
        ))))
    );
    assert!(builder.is_finished());
}
