use crate::command::launch_command;
use crate::command::launch_of;
use crate::command::Command;
use crate::command::CommandView;
use crate::error::CommandError;
use crate::error::CommandErrorView;
use crate::layout::Layout;
use crate::layout::LayoutView;
use crate::settings::validated;
use crate::settings::ResendContextServerSettings;
use crate::settings::SettingsFields;
use crate::settings::SettingsFieldsView;
use crate::settings::SettingsView;
use crate::variant::ServerVariant;
use crate::variant::ServerVariantView;
use vstd::prelude::*;
use vstd::string::StringExecFns;

verus! {

/// What the host answered when it was asked for the settings of the server.
#[derive(Debug, Clone, PartialEq, Eq)]
pub enum SettingsLookup {
    /// The host could not be asked.
    Unavailable(String),
    /// The project has no settings for the server.
    NotConfigured,
    /// The settings are there, but a field has the wrong type.
    Malformed(String),
    /// The fields of the settings object.
    Present(SettingsFields),
}

/// Mathematical model of a [`SettingsLookup`].
pub enum SettingsLookupView {
    Unavailable(Seq<char>),
    NotConfigured,
    Malformed(Seq<char>),
    Present(SettingsFieldsView),
}

impl View for SettingsLookup {
    type V = SettingsLookupView;

    open spec fn view(&self) -> SettingsLookupView {
        match self {
            SettingsLookup::Unavailable(m) => SettingsLookupView::Unavailable(m@),
            SettingsLookup::NotConfigured => SettingsLookupView::NotConfigured,
            SettingsLookup::Malformed(m) => SettingsLookupView::Malformed(m@),
            SettingsLookup::Present(fields) => SettingsLookupView::Present(fields@),
        }
    }
}

/// What the caller reports after it has carried out an [`Action`].
#[derive(Debug, PartialEq, Eq)]
pub enum Event {
    /// Answer to [`Action::FetchSettings`].
    Settings(SettingsLookup),
    /// Answer to [`Action::CheckExists`].
    Exists(bool),
    /// A write or an installation succeeded.
    Completed,
    /// A write or an installation failed, with the reason.
    Failed(String),
    /// Answer to [`Action::LookupNode`].
    NodePath(Result<String, String>),
}

/// Mathematical model of an [`Event`].
pub enum EventView {
    Settings(SettingsLookupView),
    Exists(bool),
    Completed,
    Failed(Seq<char>),
    NodePath(Result<Seq<char>, Seq<char>>),
}

impl View for Event {
    type V = EventView;

    open spec fn view(&self) -> EventView {
        match self {
            Event::Settings(lookup) => EventView::Settings(lookup@),
            Event::Exists(found) => EventView::Exists(*found),
            Event::Completed => EventView::Completed,
            Event::Failed(m) => EventView::Failed(m@),
            Event::NodePath(path) => EventView::NodePath(
                match path {
                    Ok(node) => Ok(node@),
                    Err(m) => Err(m@),
                },
            ),
        }
    }
}

/// What the caller is asked to do next.
#[derive(Debug, PartialEq, Eq)]
pub enum Action {
    /// Ask the host for the settings kept under this identifier.
    FetchSettings(String),
    /// Tell whether this path exists.
    CheckExists(String),
    /// Create this directory and those above it.
    CreateDirectory(String),
    /// Write this text to this path.
    WriteFile(String, String),
    /// Install this package in this range of versions.
    InstallPackage(String, String),
    /// Ask the host for the path of its Node.js binary.
    LookupNode,
    /// Nothing is left to do: this is the result.
    Finish(Result<Command, CommandError>),
}

/// Mathematical model of an [`Action`].
pub enum ActionView {
    FetchSettings(Seq<char>),
    CheckExists(Seq<char>),
    CreateDirectory(Seq<char>),
    WriteFile(Seq<char>, Seq<char>),
    InstallPackage(Seq<char>, Seq<char>),
    LookupNode,
    Finish(Result<CommandView, CommandErrorView>),
}

/// View of the result of a construction.
pub open spec fn outcome_view(outcome: Result<Command, CommandError>) -> Result<CommandView, CommandErrorView> {
    match outcome {
        Ok(command) => Ok(command@),
        Err(error) => Err(error@),
    }
}

impl View for Action {
    type V = ActionView;

    open spec fn view(&self) -> ActionView {
        match self {
            Action::FetchSettings(id) => ActionView::FetchSettings(id@),
            Action::CheckExists(path) => ActionView::CheckExists(path@),
            Action::CreateDirectory(path) => ActionView::CreateDirectory(path@),
            Action::WriteFile(path, text) => ActionView::WriteFile(path@, text@),
            Action::InstallPackage(name, version) => ActionView::InstallPackage(name@, version@),
            Action::LookupNode => ActionView::LookupNode,
            Action::Finish(outcome) => ActionView::Finish(outcome_view(*outcome)),
        }
    }
}

impl ActionView {
    /// Whether the action changes anything on disk.
    pub open spec fn changes_disk(self) -> bool {
        self is CreateDirectory || self is WriteFile || self is InstallPackage
    }
}

/// The answer that the builder waits for.
#[derive(Debug, Clone, Copy, PartialEq, Eq)]
pub enum Phase {
    AwaitSettings,
    AwaitServerCheck,
    AwaitDirectory,
    AwaitScript,
    AwaitManifestCheck,
    AwaitManifest,
    /// Waits for the installation of the dependency with this index.
    AwaitInstall(usize),
    AwaitRecheck,
    AwaitNode,
    Finished,
}

/// Mathematical model of a [`Phase`].
pub enum PhaseView {
    AwaitSettings,
    AwaitServerCheck,
    AwaitDirectory,
    AwaitScript,
    AwaitManifestCheck,
    AwaitManifest,
    AwaitInstall(int),
    AwaitRecheck,
    AwaitNode,
    Finished,
}

impl View for Phase {
    type V = PhaseView;

    open spec fn view(&self) -> PhaseView {
        match self {
            Phase::AwaitSettings => PhaseView::AwaitSettings,
            Phase::AwaitServerCheck => PhaseView::AwaitServerCheck,
            Phase::AwaitDirectory => PhaseView::AwaitDirectory,
            Phase::AwaitScript => PhaseView::AwaitScript,
            Phase::AwaitManifestCheck => PhaseView::AwaitManifestCheck,
            Phase::AwaitManifest => PhaseView::AwaitManifest,
            Phase::AwaitInstall(index) => PhaseView::AwaitInstall(*index as int),
            Phase::AwaitRecheck => PhaseView::AwaitRecheck,
            Phase::AwaitNode => PhaseView::AwaitNode,
            Phase::Finished => PhaseView::Finished,
        }
    }
}

/// Decides, one answer at a time, what has to happen before the server can be
/// launched, and ends with the launch command or with the error.
#[derive(Debug)]
pub struct CommandBuilder {
    variant: ServerVariant,
    layout: Layout,
    settings: Option<ResendContextServerSettings>,
    phase: Phase,
}

/// Mathematical model of a [`CommandBuilder`].
pub struct BuilderView {
    pub variant: ServerVariantView,
    pub layout: LayoutView,
    pub settings: Option<SettingsView>,
    pub phase: PhaseView,
}

impl BuilderView {
    /// The settings are known once they have been accepted, an awaited
    /// installation is that of a dependency of the variant, and a directory
    /// is made only for a variant that brings its own entry file.
    pub open spec fn wf(self) -> bool {
        &&& self.phase matches PhaseView::AwaitInstall(index) ==> 0 <= index
            < self.variant.dependencies.len()
        &&& !(self.phase is AwaitSettings || self.phase is Finished) ==> self.settings is Some
        &&& self.phase is AwaitDirectory ==> self.variant.embedded_script is Some
    }
}

/// Message for a project that has no settings for the server.
pub open spec fn not_configured_message() -> Seq<char> {
    "missing required API key setting"@
}

/// Message for an event that does not answer the action that was asked for.
pub open spec fn unexpected_event_message() -> Seq<char> {
    "the event does not answer the pending action"@
}

/// Message for a server file that is absent after the installation.
pub open spec fn install_failure_message(b: BuilderView) -> Seq<char> {
    "Failed to install "@ + b.variant.name + " package or binary not found at "@
        + b.layout.server_file
}

/// The builder as it stands before the first answer.
pub open spec fn start_of(variant: ServerVariantView, layout: LayoutView) -> BuilderView {
    BuilderView { variant, layout, settings: None, phase: PhaseView::AwaitSettings }
}

/// The construction ends with `outcome`.
pub open spec fn finished(b: BuilderView, outcome: Result<CommandView, CommandErrorView>) -> (
    BuilderView,
    ActionView,
) {
    (BuilderView { phase: PhaseView::Finished, ..b }, ActionView::Finish(outcome))
}

/// The construction goes on with `action`, whose answer `phase` waits for.
pub open spec fn proceeding(b: BuilderView, phase: PhaseView, action: ActionView) -> (
    BuilderView,
    ActionView,
) {
    (BuilderView { phase, ..b }, action)
}

/// The answer to the request for the settings: only a settings object that
/// validates lets the construction go on, with the first look at the disk.
pub open spec fn on_settings(b: BuilderView, lookup: SettingsLookupView) -> (
    BuilderView,
    ActionView,
) {
    match lookup {
        SettingsLookupView::Unavailable(m) => finished(b, Err(CommandErrorView::Host(m))),
        SettingsLookupView::NotConfigured => finished(
            b,
            Err(CommandErrorView::Configuration(not_configured_message())),
        ),
        SettingsLookupView::Malformed(m) => finished(b, Err(CommandErrorView::Configuration(m))),
        SettingsLookupView::Present(fields) => match validated(fields) {
            Err(error) => finished(b, Err(error)),
            Ok(settings) => proceeding(
                BuilderView { settings: Some(settings), ..b },
                PhaseView::AwaitServerCheck,
                ActionView::CheckExists(b.layout.server_file),
            ),
        },
    }
}

/// The server file is absent: a variant that brings its own entry file has
/// its directory made first; the others go on to the manifest.
pub open spec fn prepare(b: BuilderView) -> (BuilderView, ActionView) {
    if b.variant.embedded_script is Some {
        proceeding(
            b,
            PhaseView::AwaitDirectory,
            ActionView::CreateDirectory(b.layout.server_dir),
        )
    } else {
        check_manifest(b)
    }
}

/// The directory is there: the entry file is written.
pub open spec fn write_script(b: BuilderView) -> (BuilderView, ActionView) {
    proceeding(
        b,
        PhaseView::AwaitScript,
        ActionView::WriteFile(b.layout.server_file, b.variant.embedded_script.unwrap()),
    )
}

/// Asks whether a manifest exists.
pub open spec fn check_manifest(b: BuilderView) -> (BuilderView, ActionView) {
    proceeding(
        b,
        PhaseView::AwaitManifestCheck,
        ActionView::CheckExists(b.layout.manifest_file),
    )
}

/// No manifest exists: the variant's own is written.
pub open spec fn write_manifest(b: BuilderView) -> (BuilderView, ActionView) {
    proceeding(
        b,
        PhaseView::AwaitManifest,
        ActionView::WriteFile(b.layout.manifest_file, b.variant.manifest),
    )
}

/// Installs the dependency with this index, or, where every dependency has
/// been installed, looks for the server file once more.
pub open spec fn install_from(b: BuilderView, index: int) -> (BuilderView, ActionView) {
    if 0 <= index < b.variant.dependencies.len() {
        proceeding(
            b,
            PhaseView::AwaitInstall(index),
            ActionView::InstallPackage(
                b.variant.dependencies[index].name,
                b.variant.dependencies[index].version,
            ),
        )
    } else {
        proceeding(b, PhaseView::AwaitRecheck, ActionView::CheckExists(b.layout.server_file))
    }
}

/// The server file is there: only the Node.js binary is still to be found.
pub open spec fn lookup_node(b: BuilderView) -> (BuilderView, ActionView) {
    proceeding(b, PhaseView::AwaitNode, ActionView::LookupNode)
}

/// The answer to the request for the Node.js binary ends the construction.
pub open spec fn on_node(b: BuilderView, path: Result<Seq<char>, Seq<char>>) -> (
    BuilderView,
    ActionView,
) {
    match path {
        Ok(node) => finished(
            b,
            Ok(launch_of(b.settings.unwrap(), b.variant, node, b.layout.server_file)),
        ),
        Err(m) => finished(b, Err(CommandErrorView::Host(m))),
    }
}

/// An event that does not answer the pending action ends the construction.
pub open spec fn unexpected(b: BuilderView) -> (BuilderView, ActionView) {
    finished(b, Err(CommandErrorView::Host(unexpected_event_message())))
}

/// The builder after `event`, and the action that it asks for.
pub open spec fn step_of(b: BuilderView, event: EventView) -> (BuilderView, ActionView) {
    match b.phase {
        PhaseView::AwaitSettings => match event {
            EventView::Settings(lookup) => on_settings(b, lookup),
            _ => unexpected(b),
        },
        PhaseView::AwaitServerCheck => match event {
            EventView::Exists(found) => if found {
                lookup_node(b)
            } else {
                prepare(b)
            },
            _ => unexpected(b),
        },
        PhaseView::AwaitDirectory => match event {
            EventView::Completed => write_script(b),
            EventView::Failed(m) => finished(b, Err(CommandErrorView::Io(m))),
            _ => unexpected(b),
        },
        PhaseView::AwaitScript => match event {
            EventView::Completed => check_manifest(b),
            EventView::Failed(m) => finished(b, Err(CommandErrorView::Io(m))),
            _ => unexpected(b),
        },
        PhaseView::AwaitManifestCheck => match event {
            EventView::Exists(found) => if found {
                install_from(b, 0)
            } else {
                write_manifest(b)
            },
            _ => unexpected(b),
        },
        PhaseView::AwaitManifest => match event {
            EventView::Completed => install_from(b, 0),
            EventView::Failed(m) => finished(b, Err(CommandErrorView::Io(m))),
            _ => unexpected(b),
        },
        PhaseView::AwaitInstall(index) => match event {
            EventView::Completed => install_from(b, index + 1),
            EventView::Failed(m) => finished(b, Err(CommandErrorView::Host(m))),
            _ => unexpected(b),
        },
        PhaseView::AwaitRecheck => match event {
            EventView::Exists(found) => if found {
                lookup_node(b)
            } else {
                finished(b, Err(CommandErrorView::Installation(install_failure_message(b))))
            },
            _ => unexpected(b),
        },
        PhaseView::AwaitNode => match event {
            EventView::NodePath(path) => on_node(b, path),
            _ => unexpected(b),
        },
        PhaseView::Finished => unexpected(b),
    }
}

impl View for CommandBuilder {
    type V = BuilderView;

    closed spec fn view(&self) -> BuilderView {
        BuilderView {
            variant: self.variant@,
            layout: self.layout@,
            settings: match self.settings {
                Some(settings) => Some(settings@),
                None => None,
            },
            phase: self.phase@,
        }
    }
}

impl CommandBuilder {
    #[verifier::type_invariant]
    closed spec fn inv(&self) -> bool {
        self@.wf()
    }

    /// Starts a construction for `variant`, whose files lie at `layout`, and
    /// asks for the settings of the server.
    pub fn new(variant: ServerVariant, layout: Layout) -> (next: (CommandBuilder, Action))
        ensures
            next.0@ == start_of(variant@, layout@),
            next.0@.wf(),
            next.1@ == ActionView::FetchSettings(crate::variant::server_id()),
    {
        let builder = CommandBuilder { variant, layout, settings: None, phase: Phase::AwaitSettings };
        (builder, Action::FetchSettings(ServerVariant::server_id()))
    }

    /// The answer that the builder waits for.
    pub fn phase(&self) -> (phase: Phase)
        ensures
            phase@ == self@.phase,
    {
        self.phase
    }

    /// Whether the construction has ended.
    pub fn is_finished(&self) -> (yes: bool)
        ensures
            yes == (self@.phase is Finished),
    {
        match self.phase {
            Phase::Finished => true,
            _ => false,
        }
    }

    fn finish(self, outcome: Result<Command, CommandError>) -> (next: (CommandBuilder, Action))
        ensures
            (next.0@, next.1@) == finished(self@, outcome_view(outcome)),
            next.0@.wf(),
    {
        let builder = CommandBuilder {
            variant: self.variant,
            layout: self.layout,
            settings: self.settings,
            phase: Phase::Finished,
        };
        (builder, Action::Finish(outcome))
    }

    fn unexpected(self) -> (next: (CommandBuilder, Action))
        ensures
            (next.0@, next.1@) == unexpected(self@),
            next.0@.wf(),
    {
        self.finish(
            Err(CommandError::Host(String::from_str("the event does not answer the pending action"))),
        )
    }

    fn proceed(self, phase: Phase, action: Action) -> (next: (CommandBuilder, Action))
        requires
            self@.settings is Some,
            !(phase@ is AwaitSettings),
            phase@ matches PhaseView::AwaitInstall(index) ==> 0 <= index
                < self@.variant.dependencies.len(),
            phase@ is AwaitDirectory ==> self@.variant.embedded_script is Some,
        ensures
            (next.0@, next.1@) == proceeding(self@, phase@, action@),
            next.0@.wf(),
    {
        let builder = CommandBuilder {
            variant: self.variant,
            layout: self.layout,
            settings: self.settings,
            phase,
        };
        (builder, action)
    }

    fn on_settings(self, lookup: SettingsLookup) -> (next: (CommandBuilder, Action))
        ensures
            (next.0@, next.1@) == on_settings(self@, lookup@),
            next.0@.wf(),
    {
        match lookup {
            SettingsLookup::Unavailable(m) => self.finish(Err(CommandError::Host(m))),
            SettingsLookup::NotConfigured => self.finish(
                Err(CommandError::Configuration(String::from_str("missing required API key setting"))),
            ),
            SettingsLookup::Malformed(m) => self.finish(Err(CommandError::Configuration(m))),
            SettingsLookup::Present(fields) => {
                match ResendContextServerSettings::from_fields(fields) {
                    Err(error) => self.finish(Err(error)),
                    Ok(settings) => {
                        let action = Action::CheckExists(self.layout.server_file.clone());
                        let builder = CommandBuilder {
                            variant: self.variant,
                            layout: self.layout,
                            settings: Some(settings),
                            phase: Phase::AwaitServerCheck,
                        };
                        (builder, action)
                    },
                }
            },
        }
    }

    fn check_manifest(self) -> (next: (CommandBuilder, Action))
        requires
            self@.settings is Some,
        ensures
            (next.0@, next.1@) == check_manifest(self@),
            next.0@.wf(),
    {
        let action = Action::CheckExists(self.layout.manifest_file.clone());
        self.proceed(Phase::AwaitManifestCheck, action)
    }

    fn prepare(self) -> (next: (CommandBuilder, Action))
        requires
            self@.settings is Some,
        ensures
            (next.0@, next.1@) == prepare(self@),
            next.0@.wf(),
    {
        if self.variant.embedded_script.is_some() {
            let action = Action::CreateDirectory(self.layout.server_dir.clone());
            self.proceed(Phase::AwaitDirectory, action)
        } else {
            self.check_manifest()
        }
    }

    fn write_script(self) -> (next: (CommandBuilder, Action))
        requires
            self@.settings is Some,
            self@.variant.embedded_script is Some,
        ensures
            (next.0@, next.1@) == write_script(self@),
            next.0@.wf(),
    {
        let script = match &self.variant.embedded_script {
            Some(script) => script.clone(),
            None => String::new(),
        };
        let action = Action::WriteFile(self.layout.server_file.clone(), script);
        self.proceed(Phase::AwaitScript, action)
    }

    fn write_manifest(self) -> (next: (CommandBuilder, Action))
        requires
            self@.settings is Some,
        ensures
            (next.0@, next.1@) == write_manifest(self@),
            next.0@.wf(),
    {
        let action = Action::WriteFile(
            self.layout.manifest_file.clone(),
            self.variant.manifest.clone(),
        );
        self.proceed(Phase::AwaitManifest, action)
    }

    fn install_from(self, index: usize) -> (next: (CommandBuilder, Action))
        requires
            self@.settings is Some,
        ensures
            (next.0@, next.1@) == install_from(self@, index as int),
            next.0@.wf(),
    {
        if index < self.variant.dependencies.len() {
            let action = Action::InstallPackage(
                self.variant.dependencies[index].name.clone(),
                self.variant.dependencies[index].version.clone(),
            );
            self.proceed(Phase::AwaitInstall(index), action)
        } else {
            let action = Action::CheckExists(self.layout.server_file.clone());
            self.proceed(Phase::AwaitRecheck, action)
        }
    }

    fn lookup_node(self) -> (next: (CommandBuilder, Action))
        requires
            self@.settings is Some,
        ensures
            (next.0@, next.1@) == lookup_node(self@),
            next.0@.wf(),
    {
        self.proceed(Phase::AwaitNode, Action::LookupNode)
    }

    fn install_failure(self) -> (next: (CommandBuilder, Action))
        ensures
            (next.0@, next.1@) == finished(
                self@,
                Err(CommandErrorView::Installation(install_failure_message(self@))),
            ),
            next.0@.wf(),
    {
        let message = String::from_str("Failed to install ").concat(
            self.variant.name.as_str(),
        ).concat(" package or binary not found at ").concat(self.layout.server_file.as_str());
        self.finish(Err(CommandError::Installation(message)))
    }

    fn on_node(self, path: Result<String, String>) -> (next: (CommandBuilder, Action))
        requires
            self@.settings is Some,
        ensures
            (next.0@, next.1@) == on_node(
                self@,
                match path {
                    Ok(node) => Ok(node@),
                    Err(m) => Err(m@),
                },
            ),
            next.0@.wf(),
    {
        match path {
            Ok(node) => {
                let command = match &self.settings {
                    Some(settings) => launch_command(
                        settings,
                        &self.variant,
                        node,
                        &self.layout.server_file,
                    ),
                    None => Command { command: node, args: Vec::new(), env: Vec::new() },
                };
                self.finish(Ok(command))
            },
            Err(m) => self.finish(Err(CommandError::Host(m))),
        }
    }

    /// Takes the answer to the action that was asked for last, and returns
    /// the builder as it stands then with the next action. An event that
    /// does not answer that action ends the construction with an error.
    pub fn step(self, event: Event) -> (next: (CommandBuilder, Action))
        ensures
            (next.0@, next.1@) == step_of(self@, event@),
            next.0@.wf(),
    {
        proof {
            use_type_invariant(&self);
        }
        match self.phase {
            Phase::AwaitSettings => match event {
                Event::Settings(lookup) => self.on_settings(lookup),
                _ => self.unexpected(),
            },
            Phase::AwaitServerCheck => match event {
                Event::Exists(found) => if found {
                    self.lookup_node()
                } else {
                    self.prepare()
                },
                _ => self.unexpected(),
            },
            Phase::AwaitDirectory => match event {
                Event::Completed => self.write_script(),
                Event::Failed(m) => self.finish(Err(CommandError::Io(m))),
                _ => self.unexpected(),
            },
            Phase::AwaitScript => match event {
                Event::Completed => self.check_manifest(),
                Event::Failed(m) => self.finish(Err(CommandError::Io(m))),
                _ => self.unexpected(),
            },
            Phase::AwaitManifestCheck => match event {
                Event::Exists(found) => if found {
                    self.install_from(0)
                } else {
                    self.write_manifest()
                },
                _ => self.unexpected(),
            },
            Phase::AwaitManifest => match event {
                Event::Completed => self.install_from(0),
                Event::Failed(m) => self.finish(Err(CommandError::Io(m))),
                _ => self.unexpected(),
            },
            Phase::AwaitInstall(index) => match event {
                Event::Completed => {
                    let count: usize = self.variant.dependencies.len();
                    assert(index < count);
                    self.install_from(index + 1)
                },
                Event::Failed(m) => self.finish(Err(CommandError::Host(m))),
                _ => self.unexpected(),
            },
            Phase::AwaitRecheck => match event {
                Event::Exists(found) => if found {
                    self.lookup_node()
                } else {
                    self.install_failure()
                },
                _ => self.unexpected(),
            },
            Phase::AwaitNode => match event {
                Event::NodePath(path) => self.on_node(path),
                _ => self.unexpected(),
            },
            Phase::Finished => self.unexpected(),
        }
    }
}

} // verus!
