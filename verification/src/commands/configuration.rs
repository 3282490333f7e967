//! The commands that configure a guild.

use crate::database::{get_logs_channel, get_mute_role, set_logs_channel, set_mute_role, Database};
use crate::embed::{blank, Color, Embed, EmbedView, FieldView};
use crate::settings::{settings_of, SettingsView};
use crate::text::{decimal, push_u64};
use vstd::prelude::*;
use vstd::string::*;

verus! {

/// The reply that confirms the mute role of a guild.
pub open spec fn mute_role_set(role_id: u64) -> EmbedView {
    EmbedView {
        color: Some(Color::Green),
        description: Some(
            "Role <@&"@ + decimal(role_id as nat) + "> has been assigned as the mute role."@,
        ),
        fields: seq![
            FieldView {
                name: "NOTE"@,
                value: "This action does *not* change the permissions of the role, make sure you set them up before using the mute commands."@,
                inline: false,
            },
        ],
        ..blank()
    }
}

/// Sets the mute role of a guild and confirms it.
pub fn mute_role(database: &mut Database, guild_id: u64, role_id: u64) -> (reply: Embed)
    ensures
        final(database).moderations == old(database).moderations,
        final(database).guild_settings@ == old(database).guild_settings@.insert(
            guild_id,
            SettingsView {
                mute_role_id: Some(role_id),
                ..settings_of(old(database).guild_settings@, guild_id)
            },
        ),
        reply@ == mute_role_set(role_id),
{
    set_mute_role(database, guild_id, role_id);
    let mut text = String::from_str("Role <@&");
    push_u64(&mut text, role_id);
    text.append("> has been assigned as the mute role.");
    let reply = Embed::new().color(Color::Green).description(text).field(
        String::from_str("NOTE"),
        String::from_str(
            "This action does *not* change the permissions of the role, make sure you set them up before using the mute commands.",
        ),
        false,
    );
    assert(reply@.fields =~= mute_role_set(role_id).fields);
    reply
}

/// The reply that confirms the logs channel of a guild.
pub open spec fn logs_channel_set(channel_id: u64) -> EmbedView {
    EmbedView {
        color: Some(Color::Green),
        description: Some(
            "Channel <#"@ + decimal(channel_id as nat)
                + "> has been assigned as the logs channel."@,
        ),
        ..blank()
    }
}

/// Sets the logs channel of a guild and confirms it.
pub fn logs_channel(database: &mut Database, guild_id: u64, channel_id: u64) -> (reply: Embed)
    ensures
        final(database).moderations == old(database).moderations,
        final(database).guild_settings@ == old(database).guild_settings@.insert(
            guild_id,
            SettingsView {
                logs_channel_id: Some(channel_id),
                ..settings_of(old(database).guild_settings@, guild_id)
            },
        ),
        reply@ == logs_channel_set(channel_id),
{
    set_logs_channel(database, guild_id, channel_id);
    let mut text = String::from_str("Channel <#");
    push_u64(&mut text, channel_id);
    text.append("> has been assigned as the logs channel.");
    Embed::new().color(Color::Green).description(text)
}

/// The reply that confirms the prefix of a guild.
pub open spec fn prefix_set(prefix: Seq<char>) -> EmbedView {
    EmbedView {
        color: Some(Color::Green),
        description: Some("Changed command prefix to "@ + prefix + "."@),
        ..blank()
    }
}

/// Sets the prefix of text commands in a guild and confirms it.
pub fn set_prefix(database: &mut Database, guild_id: u64, prefix: &str) -> (reply: Embed)
    ensures
        final(database).moderations == old(database).moderations,
        final(database).guild_settings@ == old(database).guild_settings@.insert(
            guild_id,
            SettingsView {
                prefix: Some(prefix@),
                ..settings_of(old(database).guild_settings@, guild_id)
            },
        ),
        reply@ == prefix_set(prefix@),
{
    crate::database::set_prefix(database, guild_id, prefix);
    let mut text = String::from_str("Changed command prefix to ");
    text.append(prefix);
    text.append(".");
    Embed::new().color(Color::Green).description(text)
}

/// A screen of the interactive configuration.
#[derive(Debug, Clone, Copy, PartialEq, Eq, Structural)]
pub enum Screen {
    /// The overview, with a button for each setting.
    Main,
    /// The farewell.
    Finished,
    /// The form that asks for a prefix.
    PrefixInput,
    /// The menu that asks for the mute role, with the role that is set.
    MuteRoleInput { current: Option<u64> },
    /// The menu that asks for the logs channel, with the channel that is set.
    LogsChannelInput { current: Option<u64> },
}

/// What a screen says.
pub open spec fn screen_text(screen: Screen) -> EmbedView {
    match screen {
        Screen::Main => EmbedView {
            color: Some(Color::Green),
            title: Some("Bot Configuration"@),
            description: Some(
                "Please select one of the below buttons to modify the bot's server settings."@,
            ),
            ephemeral: true,
            ..blank()
        },
        Screen::Finished => EmbedView {
            color: Some(Color::Blue),
            title: Some("Configuration Finished"@),
            ephemeral: true,
            ..blank()
        },
        Screen::PrefixInput => EmbedView { title: Some("Enter new prefix"@), ..blank() },
        Screen::MuteRoleInput { .. } => EmbedView {
            color: Some(Color::Green),
            title: Some("Mute Role"@),
            description: Some(
                "Select the role to be assigned on mute. `timeout` is typically considered to be a better option, but this is kept for compatability if you so desire."@,
            ),
            ephemeral: true,
            ..blank()
        },
        Screen::LogsChannelInput { .. } => EmbedView {
            color: Some(Color::Green),
            title: Some("Logs Channel"@),
            description: Some(
                "Select the channel to record logs to. These logs are a collection of moderation actions done in your server."@,
            ),
            ephemeral: true,
            ..blank()
        },
    }
}

impl Screen {
    /// What the screen says.
    pub fn embed(&self) -> (embed: Embed)
        ensures
            embed@ == screen_text(*self),
    {
        match self {
            Screen::Main => Embed::new().color(Color::Green).title(
                String::from_str("Bot Configuration"),
            ).description(
                String::from_str(
                    "Please select one of the below buttons to modify the bot's server settings.",
                ),
            ).ephemeral(true),
            Screen::Finished => Embed::new().color(Color::Blue).title(
                String::from_str("Configuration Finished"),
            ).ephemeral(true),
            Screen::PrefixInput => Embed::new().title(String::from_str("Enter new prefix")),
            Screen::MuteRoleInput { .. } => Embed::new().color(Color::Green).title(
                String::from_str("Mute Role"),
            ).description(
                String::from_str(
                    "Select the role to be assigned on mute. `timeout` is typically considered to be a better option, but this is kept for compatability if you so desire.",
                ),
            ).ephemeral(true),
            Screen::LogsChannelInput { .. } => Embed::new().color(Color::Green).title(
                String::from_str("Logs Channel"),
            ).description(
                String::from_str(
                    "Select the channel to record logs to. These logs are a collection of moderation actions done in your server.",
                ),
            ).ephemeral(true),
        }
    }
}

/// What a user did on a screen of the interactive configuration. A control is known by the
/// name that it was given when the screen was built.
#[derive(Debug)]
pub enum ConfigureEvent {
    /// A button was pressed.
    Button { user_id: u64, control: String },
    /// A role was picked from a menu.
    RoleSelected { user_id: u64, control: String, role_id: u64 },
    /// A channel was picked from a menu.
    ChannelSelected { user_id: u64, control: String, channel_id: u64 },
    /// Something else was picked from some control.
    OtherComponent { user_id: u64 },
    /// A form was sent, with this text in its input.
    PrefixSubmitted { prefix: String },
    /// Anything else.
    Other,
}

/// How the interactive configuration answers.
#[derive(Debug, Clone, Copy, PartialEq, Eq, Structural)]
pub enum ConfigureResponse {
    /// Show this screen in the place of the one that was shown.
    Show(Screen),
    /// Open the form that asks for a prefix.
    OpenPrefixForm,
    /// Accept what was sent.
    Acknowledge,
    /// Do nothing.
    Ignore,
}

/// The screen that a button opens, if the button is one of the bot's.
pub open spec fn screen_of_button(control: Seq<char>, settings: SettingsView) -> Option<
    ConfigureResponse,
> {
    if control == "exit_button"@ {
        Some(ConfigureResponse::Show(Screen::Finished))
    } else if control == "back_button"@ {
        Some(ConfigureResponse::Show(Screen::Main))
    } else if control == "prefix_button"@ {
        Some(ConfigureResponse::OpenPrefixForm)
    } else if control == "mute_role_button"@ {
        Some(ConfigureResponse::Show(Screen::MuteRoleInput { current: settings.mute_role_id }))
    } else if control == "logs_channel_button"@ {
        Some(
            ConfigureResponse::Show(
                Screen::LogsChannelInput { current: settings.logs_channel_id },
            ),
        )
    } else {
        None
    }
}

/// The event, its texts as sequences of characters.
pub enum EventView {
    Button { user_id: u64, control: Seq<char> },
    RoleSelected { user_id: u64, control: Seq<char>, role_id: u64 },
    ChannelSelected { user_id: u64, control: Seq<char>, channel_id: u64 },
    OtherComponent { user_id: u64 },
    PrefixSubmitted { prefix: Seq<char> },
    Other,
}

impl View for ConfigureEvent {
    type V = EventView;

    open spec fn view(&self) -> EventView {
        match self {
            ConfigureEvent::Button { user_id, control } => EventView::Button {
                user_id: *user_id,
                control: control@,
            },
            ConfigureEvent::RoleSelected { user_id, control, role_id } => EventView::RoleSelected {
                user_id: *user_id,
                control: control@,
                role_id: *role_id,
            },
            ConfigureEvent::ChannelSelected {
                user_id,
                control,
                channel_id,
            } => EventView::ChannelSelected {
                user_id: *user_id,
                control: control@,
                channel_id: *channel_id,
            },
            ConfigureEvent::OtherComponent { user_id } => EventView::OtherComponent {
                user_id: *user_id,
            },
            ConfigureEvent::PrefixSubmitted { prefix } => EventView::PrefixSubmitted {
                prefix: prefix@,
            },
            ConfigureEvent::Other => EventView::Other,
        }
    }
}

/// How the interactive configuration answers an event, and the settings after it.
///
/// Controls answer only to the user who opened the configuration; a form is taken from
/// whoever sends it. A button opens its screen; a role picked from the menu of mute roles,
/// or a channel picked from the menu of logs channels, is stored and leads back to the
/// overview; a prefix sent by the form is stored and accepted. Everything else is ignored.
pub open spec fn configured(
    table: Map<u64, SettingsView>,
    guild_id: u64,
    author_id: u64,
    event: EventView,
) -> (ConfigureResponse, Map<u64, SettingsView>) {
    let settings = settings_of(table, guild_id);
    match event {
        EventView::Button { user_id, control } => if user_id == author_id {
            match screen_of_button(control, settings) {
                Some(response) => (response, table),
                None => (ConfigureResponse::Ignore, table),
            }
        } else {
            (ConfigureResponse::Ignore, table)
        },
        EventView::RoleSelected { user_id, control, role_id } => if user_id == author_id
            && control == "mute_role_select_input"@ {
            (
                ConfigureResponse::Show(Screen::Main),
                table.insert(guild_id, SettingsView { mute_role_id: Some(role_id), ..settings }),
            )
        } else {
            (ConfigureResponse::Ignore, table)
        },
        EventView::ChannelSelected { user_id, control, channel_id } => if user_id == author_id
            && control == "logs_channel_select_input"@ {
            (
                ConfigureResponse::Show(Screen::Main),
                table.insert(
                    guild_id,
                    SettingsView { logs_channel_id: Some(channel_id), ..settings },
                ),
            )
        } else {
            (ConfigureResponse::Ignore, table)
        },
        EventView::PrefixSubmitted { prefix } => (
            ConfigureResponse::Acknowledge,
            table.insert(guild_id, SettingsView { prefix: Some(prefix), ..settings }),
        ),
        _ => (ConfigureResponse::Ignore, table),
    }
}

fn is_text(text: &String, expected: &str) -> (b: bool)
    ensures
        b == (text@ == expected@),
{
    let other = String::from_str(expected);
    *text == other
}

/// Answers one event of the interactive configuration of a guild that `author_id` opened.
pub fn configure(
    database: &mut Database,
    guild_id: u64,
    author_id: u64,
    event: &ConfigureEvent,
) -> (response: ConfigureResponse)
    ensures
        final(database).moderations == old(database).moderations,
        (response, final(database).guild_settings@) == configured(
            old(database).guild_settings@,
            guild_id,
            author_id,
            event@,
        ),
{
    match event {
        ConfigureEvent::Button { user_id, control } => {
            if *user_id != author_id {
                ConfigureResponse::Ignore
            } else if is_text(control, "exit_button") {
                ConfigureResponse::Show(Screen::Finished)
            } else if is_text(control, "back_button") {
                ConfigureResponse::Show(Screen::Main)
            } else if is_text(control, "prefix_button") {
                ConfigureResponse::OpenPrefixForm
            } else if is_text(control, "mute_role_button") {
                ConfigureResponse::Show(
                    Screen::MuteRoleInput { current: get_mute_role(database, guild_id) },
                )
            } else if is_text(control, "logs_channel_button") {
                ConfigureResponse::Show(
                    Screen::LogsChannelInput { current: get_logs_channel(database, guild_id) },
                )
            } else {
                ConfigureResponse::Ignore
            }
        },
        ConfigureEvent::RoleSelected { user_id, control, role_id } => {
            if *user_id == author_id && is_text(control, "mute_role_select_input") {
                set_mute_role(database, guild_id, *role_id);
                ConfigureResponse::Show(Screen::Main)
            } else {
                ConfigureResponse::Ignore
            }
        },
        ConfigureEvent::ChannelSelected { user_id, control, channel_id } => {
            if *user_id == author_id && is_text(control, "logs_channel_select_input") {
                set_logs_channel(database, guild_id, *channel_id);
                ConfigureResponse::Show(Screen::Main)
            } else {
                ConfigureResponse::Ignore
            }
        },
        ConfigureEvent::PrefixSubmitted { prefix } => {
            crate::database::set_prefix(database, guild_id, prefix.as_str());
            ConfigureResponse::Acknowledge
        },
        _ => ConfigureResponse::Ignore,
    }
}

/// The help text of the command that sets the mute role.
pub fn mute_role_help() -> (text: String)
    ensures
        text@ == "Set the mute role in the server\n**NOTE**: This does *not* change the permissions of the role, you will have to set them up yourself.\nExample: %muterole @Muted\n    "@,
{
    String::from_str("Set the mute role in the server\n**NOTE**: This does *not* change the permissions of the role, you will have to set them up yourself.\nExample: %muterole @Muted\n    ")
}

/// The help text of the command that sets the logs channel.
pub fn logs_channel_help() -> (text: String)
    ensures
        text@ == "Set or change the logs channel for the server\nExample: %logschannel #logs\n    "@,
{
    String::from_str("Set or change the logs channel for the server\nExample: %logschannel #logs\n    ")
}

/// The help text of the command that sets the prefix.
pub fn set_prefix_help() -> (text: String)
    ensures
        text@ == "Set or change the prefix for the server\nExample: %setprefix ~\n    "@,
{
    String::from_str("Set or change the prefix for the server\nExample: %setprefix ~\n    ")
}

} // verus!
