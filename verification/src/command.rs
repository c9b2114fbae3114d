use crate::settings::ResendContextServerSettings;
use crate::settings::SettingsView;
use crate::variant::api_key_variable;
use crate::variant::ServerVariant;
use crate::variant::ServerVariantView;
use vstd::prelude::*;
use vstd::string::StringExecFns;

verus! {

/// How the host starts the server: the executable, its arguments, and the
/// environment variables in the order in which they are handed over.
#[derive(Debug, Clone, PartialEq, Eq)]
pub struct Command {
    pub command: String,
    pub args: Vec<String>,
    pub env: Vec<(String, String)>,
}

/// Mathematical model of a [`Command`].
pub struct CommandView {
    pub command: Seq<char>,
    pub args: Seq<Seq<char>>,
    pub env: Seq<(Seq<char>, Seq<char>)>,
}

/// Views of a list of environment variables.
pub open spec fn env_view(env: Seq<(String, String)>) -> Seq<(Seq<char>, Seq<char>)> {
    Seq::new(env.len(), |i: int| (env[i].0@, env[i].1@))
}

impl View for Command {
    type V = CommandView;

    open spec fn view(&self) -> CommandView {
        CommandView {
            command: self.command@,
            args: crate::variant::texts_view(self.args@),
            env: env_view(self.env@),
        }
    }
}

/// The entry that an optional setting adds to the environment: one variable
/// where the setting is there and not empty, none otherwise.
pub open spec fn optional_entry(name: Seq<char>, value: Option<Seq<char>>) -> Seq<
    (Seq<char>, Seq<char>),
> {
    match value {
        Some(text) => if text.len() > 0 {
            seq![(name, text)]
        } else {
            seq![]
        },
        None => seq![],
    }
}

/// The environment of the server: the API key first, then the sender address
/// and the reply-to addresses, each only where it is set and not empty.
pub open spec fn environment_of(settings: SettingsView, variant: ServerVariantView) -> Seq<
    (Seq<char>, Seq<char>),
> {
    seq![(api_key_variable(), settings.resend_api_key)] + optional_entry(
        variant.sender_variable,
        settings.sender_email_address,
    ) + optional_entry(variant.reply_to_variable, settings.reply_to_email_addresses)
}

/// The launch command: the Node.js binary, the server's entry file as its one
/// argument, and the environment made from the settings.
pub open spec fn launch_of(
    settings: SettingsView,
    variant: ServerVariantView,
    node: Seq<char>,
    server_file: Seq<char>,
) -> CommandView {
    CommandView { command: node, args: seq![server_file], env: environment_of(settings, variant) }
}

/// Appends the variable `name` to `env` where `value` is set and not empty.
fn push_optional(env: &mut Vec<(String, String)>, name: &String, value: &Option<String>)
    ensures
        env_view(final(env)@) == env_view(old(env)@) + optional_entry(
            name@,
            crate::settings::text_view(*value),
        ),
{
    match value {
        Some(text) => {
            if !text.as_str().is_empty() {
                env.push((name.clone(), text.clone()));
            }
        },
        None => {},
    }
    assert(env_view(env@) =~= env_view(old(env)@) + optional_entry(
        name@,
        crate::settings::text_view(*value),
    ));
}

/// Builds the environment of the server from the settings.
pub fn environment(settings: &ResendContextServerSettings, variant: &ServerVariant) -> (env: Vec<
    (String, String),
>)
    ensures
        env_view(env@) == environment_of(settings@, variant@),
{
    let mut env: Vec<(String, String)> = Vec::new();
    env.push((String::from_str("RESEND_API_KEY"), settings.resend_api_key().clone()));
    assert(env_view(env@) =~= seq![(api_key_variable(), settings@.resend_api_key)]);
    push_optional(&mut env, &variant.sender_variable, settings.sender_email_address());
    push_optional(&mut env, &variant.reply_to_variable, settings.reply_to_email_addresses());
    env
}

/// Builds the launch command from the settings, the path of the Node.js
/// binary and the path of the server's entry file.
pub fn launch_command(
    settings: &ResendContextServerSettings,
    variant: &ServerVariant,
    node: String,
    server_file: &String,
) -> (command: Command)
    ensures
        command@ == launch_of(settings@, variant@, node@, server_file@),
{
    let mut args: Vec<String> = Vec::new();
    args.push(server_file.clone());
    let env = environment(settings, variant);
    let command = Command { command: node, args, env };
    assert(command@.args =~= seq![server_file@]);
    command
}

/// Whether an optional setting is there and not empty.
pub open spec fn is_set(value: Option<Seq<char>>) -> bool {
    value is Some && value.unwrap().len() > 0
}

/// The environment always begins with the API key. An optional setting adds
/// its variable exactly where it is set and not empty, the sender address
/// before the reply-to addresses, and nothing else is in the environment.
pub proof fn lemma_environment_order(settings: SettingsView, variant: ServerVariantView)
    ensures
        environment_of(settings, variant)[0] == (api_key_variable(), settings.resend_api_key),
        environment_of(settings, variant).len() == 1 + (if is_set(
            settings.sender_email_address,
        ) {
            1int
        } else {
            0int
        }) + (if is_set(settings.reply_to_email_addresses) {
            1int
        } else {
            0int
        }),
        is_set(settings.sender_email_address) ==> environment_of(settings, variant)[1] == (
            variant.sender_variable,
            settings.sender_email_address.unwrap(),
        ),
        is_set(settings.reply_to_email_addresses) ==> environment_of(settings, variant).last() == (
            variant.reply_to_variable,
            settings.reply_to_email_addresses.unwrap(),
        ),
{
}

} // verus!
