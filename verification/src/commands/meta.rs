//! The commands about the bot itself.

use crate::durations::{format_length, formatted_duration};
use crate::embed::{blank, Color, Embed, EmbedView, FieldView};
use crate::text::{decimal, push_i128, push_u64, signed_decimal};
use vstd::prelude::*;
use vstd::string::*;

verus! {

/// The reply to a ping: the milliseconds between the command and now.
pub open spec fn pong(now_millis: i64, created_millis: i64) -> EmbedView {
    EmbedView {
        color: Some(Color::Green),
        fields: seq![
            FieldView {
                name: "Pong!"@,
                value: "Reply time: "@ + signed_decimal(now_millis - created_millis) + "ms"@,
                inline: true,
            },
        ],
        ephemeral: true,
        ..blank()
    }
}

/// Answers a ping with the time it took to answer, from the millisecond at which the
/// command was given to the millisecond at which the reply is made.
pub fn ping(now_millis: i64, created_millis: i64) -> (reply: Embed)
    ensures
        reply@ == pong(now_millis, created_millis),
{
    let mut text = String::from_str("Reply time: ");
    push_i128(&mut text, now_millis as i128 - created_millis as i128);
    text.append("ms");
    let reply = Embed::new().color(Color::Green).field(String::from_str("Pong!"), text, true).ephemeral(
        true,
    );
    assert(reply@.fields =~= pong(now_millis, created_millis).fields);
    reply
}

/// What the bot knows of itself when it is asked.
#[derive(Debug)]
pub struct BotStatus {
    pub version: String,
    pub guild_count: usize,
    pub user_count: usize,
    pub shard_id: u32,
    pub shard_count: u32,
    pub uptime_secs: u64,
    pub uptime_nanos: u32,
    pub now_millis: i64,
    pub created_millis: i64,
}

/// The footer of the description of the bot: its shard, its uptime and its latency.
pub open spec fn status_line(status: BotStatus) -> Seq<char> {
    "Shard "@ + decimal(status.shard_id as nat) + "/"@ + decimal(status.shard_count as nat)
        + " | Uptime "@ + formatted_duration(status.uptime_secs, status.uptime_nanos)
        + " | Ping "@ + signed_decimal(status.now_millis - status.created_millis) + "ms"@
}

/// A field that stands beside its neighbours.
pub open spec fn inline_field(name: Seq<char>, value: Seq<char>) -> FieldView {
    FieldView { name, value, inline: true }
}

/// The description of the bot.
pub open spec fn about(status: BotStatus) -> EmbedView {
    EmbedView {
        color: Some(Color::Blue),
        title: Some("Jolt Bot"@),
        description: Some(
            "Jolt is licensed under the [BSD 3-Clause License](https://github.com/Joshument/Jolt/blob/main/LICENSE)."@,
        ),
        fields: seq![
            inline_field("Version"@, status.version@),
            inline_field("GitHub"@, "https://github.com/Joshument/Jolt"@),
            inline_field("Maintainer"@, "Joshument (@imperishablenight on discord)"@),
            inline_field("Servers"@, decimal(status.guild_count as nat)),
            inline_field("Users"@, decimal(status.user_count as nat)),
            inline_field("Invite"@, "Not yet :("@),
        ],
        footer: Some(status_line(status)),
        ephemeral: true,
    }
}

fn number(n: usize) -> (text: String)
    ensures
        text@ == decimal(n as nat),
{
    crate::text::u64_to_string(n as u64)
}

/// Describes the bot: its version, where to find it, how many guilds and users it serves,
/// and in the footer its shard, uptime and latency.
pub fn info(status: &BotStatus) -> (reply: Embed)
    requires
        status.uptime_nanos < 1_000_000_000,
    ensures
        reply@ == about(*status),
{
    let mut footer = String::from_str("Shard ");
    push_u64(&mut footer, status.shard_id as u64);
    footer.append("/");
    push_u64(&mut footer, status.shard_count as u64);
    footer.append(" | Uptime ");
    let uptime = format_length(status.uptime_secs, status.uptime_nanos);
    footer.append(uptime.as_str());
    footer.append(" | Ping ");
    push_i128(&mut footer, status.now_millis as i128 - status.created_millis as i128);
    footer.append("ms");
    let reply = Embed::new().color(Color::Blue).title(String::from_str("Jolt Bot")).field(
        String::from_str("Version"),
        status.version.clone(),
        true,
    ).field(
        String::from_str("GitHub"),
        String::from_str("https://github.com/Joshument/Jolt"),
        true,
    ).field(
        String::from_str("Maintainer"),
        String::from_str("Joshument (@imperishablenight on discord)"),
        true,
    ).field(String::from_str("Servers"), number(status.guild_count), true).field(
        String::from_str("Users"),
        number(status.user_count),
        true,
    ).field(String::from_str("Invite"), String::from_str("Not yet :("), true).description(
        String::from_str(
            "Jolt is licensed under the [BSD 3-Clause License](https://github.com/Joshument/Jolt/blob/main/LICENSE).",
        ),
    ).footer(footer).ephemeral(true);
    assert(reply@.fields =~= about(*status).fields);
    reply
}

/// The help text of the command that measures the latency.
pub fn ping_help() -> (text: String)
    ensures
        text@ == "Get the latency of the bot (in milliseconds)"@,
{
    String::from_str("Get the latency of the bot (in milliseconds)")
}

/// The help text of the command that describes the bot.
pub fn info_help() -> (text: String)
    ensures
        text@ == "Get information related to the bot"@,
{
    String::from_str("Get information related to the bot")
}

} // verus!
