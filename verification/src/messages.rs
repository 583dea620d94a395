//! The texts the bot logs, replies with, and attaches to audit entries.
use vstd::prelude::*;
use crate::decimal::{
    decimal, signed_decimal, push_decimal, push_signed_decimal, is_decimal_of, is_signed_decimal_of,
    law_decimal_text, law_signed_decimal,
};
use crate::listings::{
    banned_tags_format, banned_tags_lines, banned_tags_table, banned_users_format,
    banned_users_lines, banned_users_table, exempted_users_format, exempted_users_lines,
    exempted_users_table, lemma_three_column_format,
};
use crate::model::{BannedTagRow, BannedUserRow, ExemptedUserRow, RecordCounts};
use crate::table::{column_count, table_text, valid_row_spec, valid_row_spec_from};

verus! {

/// A text the bot sends somewhere, named by what it says.
#[allow(inconsistent_fields)]
#[derive(Debug, PartialEq, Eq)]
pub enum Message {
    /// Logged when the bot is ready.
    Ready,
    /// Logged when the owner stops the bot.
    Stopping,
    /// Logged when a quarantine is skipped because the user is exempted.
    UserExemptedLog { user: u64 },
    /// Logged after a quarantine changed the user's roles.
    QuarantineLog { user: u64 },
    /// Audit-log reason of adding the configured quarantine role.
    AddRoleReason,
    /// Audit-log reason of removing the configured role that quarantine takes away.
    RemoveRoleReason,
    /// The name under which a quarantine is recorded as an action.
    QuarantineActionName,
    /// The reply to the status command.
    Status { version: String, ping_ms: u128, counts: RecordCounts },
    /// Reply after exempting a user.
    ExemptedUser { name: String, user: u64 },
    /// Reply when asked to unexempt a user who is not exempted.
    NotExempt,
    /// Reply after unexempting a user.
    UnexemptedUser { name: String, user: u64 },
    /// Reply listing the exemptions.
    ExemptedUsersTable { rows: Vec<ExemptedUserRow> },
    /// Reply when a user's primary guild has no id.
    NoPrimaryGuildId,
    /// Reply when a user has no primary guild.
    NoPrimaryGuild { user: u64 },
    /// Reply after storing a tag ban.
    TagBanApplied,
    /// Reply when a tag has fewer than one or more than four characters.
    InvalidTag,
    /// Reply listing the tag bans.
    BannedTagsTable { rows: Vec<BannedTagRow> },
    /// Reply after banning a user by id.
    BannedUser,
    /// Reply listing the user bans.
    BannedUsersTable { rows: Vec<BannedUserRow> },
    /// Reply after removing a tag ban.
    UnbannedTag,
    /// Message after registering the slash commands.
    CommandsRegistered,
}

/// `<@id> (id)`: a mention of a user followed by the id.
pub open spec fn mention_and_id(user: u64) -> Seq<char> {
    "<@"@ + decimal(user as nat) + "> ("@ + decimal(user as nat) + ")"@
}

/// The text of the status reply.
pub open spec fn status_text(version: Seq<char>, ping_ms: u128, counts: RecordCounts) -> Seq<char> {
    "\n```diff\nRunning nineteeneightyfour-yasl v"@ + version
        + ".\nCreated on @spunksuii's request for anti-goon squads.\n\n++ Pong! Ping to discord took "@
        + decimal(ping_ms as nat)
        + "ms.\n\n++ -- STATS --\n++ Banned Tags:    "@ + signed_decimal(counts.banned_tags as int)
        + "\n++ Banned Users:   "@ + signed_decimal(counts.banned_users as int)
        + "\n++ Exempted Users: "@ + signed_decimal(counts.exempted_users as int)
        + "\n++ Actions Taken:  "@ + signed_decimal(counts.actions as int)
        + "\n++ -----------\n\n-- Julia's alibi. Winston's detested.\n-- Licensed under GNU AGPL v3.0, (C) l1npengtul Twenty Twenty-Six.\n-- Source Code: https://github.com/l1npengtul/yasl\n```\n            "@
}

/// The text of a message.
pub open spec fn message_text(m: Message) -> Seq<char> {
    match m {
        Message::Ready => "Ready"@,
        Message::Stopping => "Stopping..."@,
        Message::UserExemptedLog { user } => "Action: User Exempted on "@ + mention_and_id(user),
        Message::QuarantineLog { user } => "Action: Qurantine on "@ + mention_and_id(user),
        Message::AddRoleReason => "Qurantine: Configured Add Role"@,
        Message::RemoveRoleReason => "Qurantine: Configured Remove Role"@,
        Message::QuarantineActionName => "qurantine"@,
        Message::Status { version, ping_ms, counts } => status_text(version@, ping_ms, counts),
        Message::ExemptedUser { name, user } =>
            "Sucessfully exempted user "@ + name@ + " ("@ + decimal(user as nat) + ")."@,
        Message::NotExempt => "User is not exempt."@,
        Message::UnexemptedUser { name, user } =>
            "Sucessfully unexempted user "@ + name@ + " ("@ + decimal(user as nat) + ")."@,
        Message::ExemptedUsersTable { rows } =>
            table_text(exempted_users_format(), exempted_users_lines(rows@)),
        Message::NoPrimaryGuildId => "Primary guild does not have an ID. Private guild?"@,
        Message::NoPrimaryGuild { user } =>
            "User "@ + decimal(user as nat) + " does not have a primary guild."@,
        Message::TagBanApplied => "Sucessfully applied new tag ban."@,
        Message::InvalidTag => "Invalid tag."@,
        Message::BannedTagsTable { rows } => table_text(banned_tags_format(), banned_tags_lines(rows@)),
        Message::BannedUser => "Banned user."@,
        Message::BannedUsersTable { rows } =>
            table_text(banned_users_format(), banned_users_lines(rows@)),
        Message::UnbannedTag => "Unbanned tag."@,
        Message::CommandsRegistered => "Successfully registered slash commands!"@,
    }
}

/// Whether `tabular` can lay out the exemption table (its row specification must parse
/// and have two columns).
pub open spec fn exempted_users_table_renders() -> bool {
    valid_row_spec(exempted_users_format()) && column_count(exempted_users_format()) == 2
}

/// Whether `tabular` can lay out the user-ban table (its specification must have the two
/// columns its rows have).
pub open spec fn banned_users_table_renders() -> bool {
    column_count(banned_users_format()) == 2
}

/// Whether the text of a message can be made without a panic.
pub open spec fn renderable(m: Message) -> bool {
    match m {
        Message::ExemptedUsersTable { .. } => exempted_users_table_renders(),
        Message::BannedUsersTable { .. } => banned_users_table_renders(),
        _ => true,
    }
}

/// Whether the exemption table can be laid out. It cannot: `{<:}` is no column specifier.
pub fn can_render_exempted_users_table() -> (b: bool)
    ensures
        b == exempted_users_table_renders(),
{
    proof {
        reveal_strlit("{:>} {<:}");
        reveal_with_fuel(valid_row_spec_from, 4);
    }
    false
}

/// Whether the user-ban table can be laid out. It cannot: three columns, two cells a row.
pub fn can_render_banned_users_table() -> (b: bool)
    ensures
        b == banned_users_table_renders(),
{
    proof {
        lemma_three_column_format();
    }
    false
}

/// `<@id> (id)` appended to `s`.
fn push_mention_and_id(s: &mut String, user: u64)
    ensures
        final(s)@ == old(s)@ + mention_and_id(user),
{
    s.append("<@");
    push_decimal(s, user as u128);
    s.append("> (");
    push_decimal(s, user as u128);
    s.append(")");
    assert(final(s)@ =~= old(s)@ + mention_and_id(user));
}

fn status_string(version: &String, ping_ms: u128, counts: &RecordCounts) -> (s: String)
    ensures
        s@ == status_text(version@, ping_ms, *counts),
{
    let mut s = String::new();
    s.append("\n```diff\nRunning nineteeneightyfour-yasl v");
    s.append(version.as_str());
    s.append(".\nCreated on @spunksuii's request for anti-goon squads.\n\n++ Pong! Ping to discord took ");
    push_decimal(&mut s, ping_ms);
    s.append("ms.\n\n++ -- STATS --\n++ Banned Tags:    ");
    push_signed_decimal(&mut s, counts.banned_tags);
    s.append("\n++ Banned Users:   ");
    push_signed_decimal(&mut s, counts.banned_users);
    s.append("\n++ Exempted Users: ");
    push_signed_decimal(&mut s, counts.exempted_users);
    s.append("\n++ Actions Taken:  ");
    push_signed_decimal(&mut s, counts.actions);
    s.append("\n++ -----------\n\n-- Julia's alibi. Winston's detested.\n-- Licensed under GNU AGPL v3.0, (C) l1npengtul Twenty Twenty-Six.\n-- Source Code: https://github.com/l1npengtul/yasl\n```\n            ");
    assert(s@ =~= status_text(version@, ping_ms, *counts));
    s
}

fn user_sentence(prefix: &str, name: &String, user: u64) -> (s: String)
    ensures
        s@ == prefix@ + name@ + " ("@ + decimal(user as nat) + ")."@,
{
    let mut s = String::new();
    s.append(prefix);
    s.append(name.as_str());
    s.append(" (");
    push_decimal(&mut s, user as u128);
    s.append(").");
    assert(s@ =~= prefix@ + name@ + " ("@ + decimal(user as nat) + ")."@);
    s
}

impl Message {
    /// The text of this message.
    pub fn text(&self) -> (s: String)
        requires
            renderable(*self),
        ensures
            s@ == message_text(*self),
    {
        match self {
            Message::Ready => String::from_str("Ready"),
            Message::Stopping => String::from_str("Stopping..."),
            Message::UserExemptedLog { user } => {
                let mut s = String::from_str("Action: User Exempted on ");
                push_mention_and_id(&mut s, *user);
                s
            },
            Message::QuarantineLog { user } => {
                let mut s = String::from_str("Action: Qurantine on ");
                push_mention_and_id(&mut s, *user);
                s
            },
            Message::AddRoleReason => String::from_str("Qurantine: Configured Add Role"),
            Message::RemoveRoleReason => String::from_str("Qurantine: Configured Remove Role"),
            Message::QuarantineActionName => String::from_str("qurantine"),
            Message::Status { version, ping_ms, counts } => status_string(version, *ping_ms, counts),
            Message::ExemptedUser { name, user } => user_sentence("Sucessfully exempted user ", name, *user),
            Message::NotExempt => String::from_str("User is not exempt."),
            Message::UnexemptedUser { name, user } =>
                user_sentence("Sucessfully unexempted user ", name, *user),
            Message::ExemptedUsersTable { rows } => exempted_users_table(rows),
            Message::NoPrimaryGuildId => String::from_str("Primary guild does not have an ID. Private guild?"),
            Message::NoPrimaryGuild { user } => {
                let mut s = String::from_str("User ");
                push_decimal(&mut s, *user as u128);
                s.append(" does not have a primary guild.");
                assert(s@ =~= "User "@ + decimal(*user as nat) + " does not have a primary guild."@);
                s
            },
            Message::TagBanApplied => String::from_str("Sucessfully applied new tag ban."),
            Message::InvalidTag => String::from_str("Invalid tag."),
            Message::BannedTagsTable { rows } => banned_tags_table(rows),
            Message::BannedUser => String::from_str("Banned user."),
            Message::BannedUsersTable { rows } => banned_users_table(rows),
            Message::UnbannedTag => String::from_str("Unbanned tag."),
            Message::CommandsRegistered => String::from_str("Successfully registered slash commands!"),
        }
    }
}

/// Whether `t` is `head`, then the text `Display` writes for `n`, then `tail`.
pub open spec fn shows_number(t: Seq<char>, head: Seq<char>, n: nat, tail: Seq<char>) -> bool {
    &&& t.len() >= head.len() + tail.len()
    &&& t.subrange(0, head.len() as int) == head
    &&& t.subrange(t.len() - tail.len(), t.len() as int) == tail
    &&& is_decimal_of(t.subrange(head.len() as int, t.len() - tail.len()), n)
}

proof fn lemma_shows_number(head: Seq<char>, n: nat, tail: Seq<char>)
    ensures
        shows_number(head + decimal(n) + tail, head, n, tail),
{
    law_decimal_text(n);
    let t = head + decimal(n) + tail;
    assert(t.subrange(0, head.len() as int) =~= head);
    assert(t.subrange(t.len() - tail.len(), t.len() as int) =~= tail);
    assert(t.subrange(head.len() as int, t.len() - tail.len()) =~= decimal(n));
}

/// The replies about a user name the user and give the user's whole id as `Display`
/// writes it: after exempting, after unexempting, and when the user has no primary guild.
pub proof fn law_user_replies(name: String, user: u64)
    ensures
        shows_number(
            message_text(Message::ExemptedUser { name, user }),
            "Sucessfully exempted user "@ + name@ + " ("@,
            user as nat,
            ")."@,
        ),
        shows_number(
            message_text(Message::UnexemptedUser { name, user }),
            "Sucessfully unexempted user "@ + name@ + " ("@,
            user as nat,
            ")."@,
        ),
        shows_number(
            message_text(Message::NoPrimaryGuild { user }),
            "User "@,
            user as nat,
            " does not have a primary guild."@,
        ),
{
    lemma_shows_number("Sucessfully exempted user "@ + name@ + " ("@, user as nat, ")."@);
    lemma_shows_number("Sucessfully unexempted user "@ + name@ + " ("@, user as nat, ")."@);
    lemma_shows_number("User "@, user as nat, " does not have a primary guild."@);
}

/// The logs about a user mention the user by the whole id and then give the id again, in
/// brackets, as `Display` writes it.
pub proof fn law_user_logs(user: u64)
    ensures
        ({
            let t = message_text(Message::QuarantineLog { user });
            let head = "Action: Qurantine on <@"@;
            &&& t.subrange(0, head.len() as int) == head
            &&& shows_number(t.subrange(head.len() as int, t.len() as int), Seq::empty(), user as nat,
                "> ("@ + decimal(user as nat) + ")"@)
            &&& shows_number(t, head + decimal(user as nat) + "> ("@, user as nat, ")"@)
        }),
        ({
            let t = message_text(Message::UserExemptedLog { user });
            let head = "Action: User Exempted on <@"@;
            &&& t.subrange(0, head.len() as int) == head
            &&& shows_number(t.subrange(head.len() as int, t.len() as int), Seq::empty(), user as nat,
                "> ("@ + decimal(user as nat) + ")"@)
            &&& shows_number(t, head + decimal(user as nat) + "> ("@, user as nat, ")"@)
        }),
{
    let d = decimal(user as nat);
    let q = "Action: Qurantine on "@;
    let e = "Action: User Exempted on "@;
    assert(q + mention_and_id(user) =~= ("Action: Qurantine on <@"@ + d + "> ("@) + d + ")"@) by {
        reveal_strlit("Action: Qurantine on ");
        reveal_strlit("Action: Qurantine on <@");
        reveal_strlit("<@");
    }
    assert(e + mention_and_id(user) =~= ("Action: User Exempted on <@"@ + d + "> ("@) + d + ")"@) by {
        reveal_strlit("Action: User Exempted on ");
        reveal_strlit("Action: User Exempted on <@");
        reveal_strlit("<@");
    }
    lemma_shows_number("Action: Qurantine on <@"@ + d + "> ("@, user as nat, ")"@);
    lemma_shows_number("Action: User Exempted on <@"@ + d + "> ("@, user as nat, ")"@);
    let tq = message_text(Message::QuarantineLog { user });
    let te = message_text(Message::UserExemptedLog { user });
    let hq = "Action: Qurantine on <@"@;
    let he = "Action: User Exempted on <@"@;
    lemma_shows_number(Seq::empty(), user as nat, "> ("@ + d + ")"@);
    assert(tq.subrange(0, hq.len() as int) =~= hq);
    assert(tq.subrange(hq.len() as int, tq.len() as int) =~= Seq::<char>::empty() + d + ("> ("@ + d + ")"@));
    assert(te.subrange(0, he.len() as int) =~= he);
    assert(te.subrange(he.len() as int, te.len() as int) =~= Seq::<char>::empty() + d + ("> ("@ + d + ")"@));
}

/// Whether `t` holds `label`, then `shown`, then `after`, somewhere.
pub open spec fn shows_after(t: Seq<char>, label: Seq<char>, shown: Seq<char>, after: Seq<char>) -> bool {
    exists|x: Seq<char>, z: Seq<char>| t == x + label + shown + after + z
}

proof fn lemma_status_head()
    ensures
        "\n```diff\nRunning nineteeneightyfour-yasl v"@ == "\n```diff\n"@ + "Running nineteeneightyfour-yasl v"@,
{
    reveal_strlit("\n```diff\nRunning nineteeneightyfour-yasl v"); reveal_strlit("\n```diff\n"); reveal_strlit("Running nineteeneightyfour-yasl v");
    assert("\n```diff\nRunning nineteeneightyfour-yasl v"@ =~= "\n```diff\n"@ + "Running nineteeneightyfour-yasl v"@);
}

proof fn lemma_status_created()
    ensures
        ".\nCreated on @spunksuii's request for anti-goon squads.\n\n++ Pong! Ping to discord took "@ == ".\n"@ + "Created on @spunksuii's request for anti-goon squads.\n\n++ Pong! "@ + "Ping to discord took "@,
{
    reveal_strlit(".\nCreated on @spunksuii's request for anti-goon squads.\n\n++ Pong! Ping to discord took "); reveal_strlit(".\n"); reveal_strlit("Created on @spunksuii's request for anti-goon squads.\n\n++ Pong! "); reveal_strlit("Ping to discord took ");
    assert(".\nCreated on @spunksuii's request for anti-goon squads.\n\n++ Pong! Ping to discord took "@ =~= ".\n"@ + "Created on @spunksuii's request for anti-goon squads.\n\n++ Pong! "@ + "Ping to discord took "@);
}

proof fn lemma_status_stats()
    ensures
        "ms.\n\n++ -- STATS --\n++ Banned Tags:    "@ == "ms."@ + "\n\n++ -- STATS --"@ + "\n++ Banned Tags:    "@,
{
    reveal_strlit("ms.\n\n++ -- STATS --\n++ Banned Tags:    "); reveal_strlit("ms."); reveal_strlit("\n\n++ -- STATS --"); reveal_strlit("\n++ Banned Tags:    ");
    assert("ms.\n\n++ -- STATS --\n++ Banned Tags:    "@ =~= "ms."@ + "\n\n++ -- STATS --"@ + "\n++ Banned Tags:    "@);
}

proof fn lemma_status_users()
    ensures
        "\n++ Banned Users:   "@ == "\n"@ + "++ Banned Users:   "@,
{
    reveal_strlit("\n++ Banned Users:   "); reveal_strlit("\n"); reveal_strlit("++ Banned Users:   ");
    assert("\n++ Banned Users:   "@ =~= "\n"@ + "++ Banned Users:   "@);
}

proof fn lemma_status_exempted()
    ensures
        "\n++ Exempted Users: "@ == "\n"@ + "++ Exempted Users: "@,
{
    reveal_strlit("\n++ Exempted Users: "); reveal_strlit("\n"); reveal_strlit("++ Exempted Users: ");
    assert("\n++ Exempted Users: "@ =~= "\n"@ + "++ Exempted Users: "@);
}

proof fn lemma_status_actions()
    ensures
        "\n++ Actions Taken:  "@ == "\n"@ + "++ Actions Taken:  "@,
{
    reveal_strlit("\n++ Actions Taken:  "); reveal_strlit("\n"); reveal_strlit("++ Actions Taken:  ");
    assert("\n++ Actions Taken:  "@ =~= "\n"@ + "++ Actions Taken:  "@);
}

proof fn lemma_status_foot()
    ensures
        "\n++ -----------\n\n-- Julia's alibi. Winston's detested.\n-- Licensed under GNU AGPL v3.0, (C) l1npengtul Twenty Twenty-Six.\n-- Source Code: https://github.com/l1npengtul/yasl\n```\n            "@ == "\n"@ + "++ -----------\n\n-- Julia's alibi. Winston's detested.\n-- Licensed under GNU AGPL v3.0, (C) l1npengtul Twenty Twenty-Six.\n-- Source Code: https://github.com/l1npengtul/yasl\n```\n            "@,
{
    reveal_strlit("\n++ -----------\n\n-- Julia's alibi. Winston's detested.\n-- Licensed under GNU AGPL v3.0, (C) l1npengtul Twenty Twenty-Six.\n-- Source Code: https://github.com/l1npengtul/yasl\n```\n            "); reveal_strlit("\n"); reveal_strlit("++ -----------\n\n-- Julia's alibi. Winston's detested.\n-- Licensed under GNU AGPL v3.0, (C) l1npengtul Twenty Twenty-Six.\n-- Source Code: https://github.com/l1npengtul/yasl\n```\n            ");
    assert("\n++ -----------\n\n-- Julia's alibi. Winston's detested.\n-- Licensed under GNU AGPL v3.0, (C) l1npengtul Twenty Twenty-Six.\n-- Source Code: https://github.com/l1npengtul/yasl\n```\n            "@ =~= "\n"@ + "++ -----------\n\n-- Julia's alibi. Winston's detested.\n-- Licensed under GNU AGPL v3.0, (C) l1npengtul Twenty Twenty-Six.\n-- Source Code: https://github.com/l1npengtul/yasl\n```\n            "@);
}

proof fn lemma_status_line_0(version: Seq<char>, ping_ms: u128, counts: RecordCounts)
    ensures
        shows_after(status_text(version, ping_ms, counts), "Running nineteeneightyfour-yasl v"@, version, ".\n"@),
{
    let t = status_text(version, ping_ms, counts);
    lemma_status_head();
    lemma_status_created();
    let x = "\n```diff\n"@;
    let z = "Created on @spunksuii's request for anti-goon squads.\n\n++ Pong! "@ + "Ping to discord took "@ + decimal(ping_ms as nat) + "ms.\n\n++ -- STATS --\n++ Banned Tags:    "@ + signed_decimal(counts.banned_tags as int) + "\n++ Banned Users:   "@ + signed_decimal(counts.banned_users as int) + "\n++ Exempted Users: "@ + signed_decimal(counts.exempted_users as int) + "\n++ Actions Taken:  "@ + signed_decimal(counts.actions as int) + "\n++ -----------\n\n-- Julia's alibi. Winston's detested.\n-- Licensed under GNU AGPL v3.0, (C) l1npengtul Twenty Twenty-Six.\n-- Source Code: https://github.com/l1npengtul/yasl\n```\n            "@;
    assert(t =~= x + "Running nineteeneightyfour-yasl v"@ + version + ".\n"@ + z);
}

proof fn lemma_status_line_1(version: Seq<char>, ping_ms: u128, counts: RecordCounts)
    ensures
        shows_after(status_text(version, ping_ms, counts), "Ping to discord took "@, decimal(ping_ms as nat), "ms."@),
{
    let t = status_text(version, ping_ms, counts);
    lemma_status_created();
    lemma_status_stats();
    let x = "\n```diff\nRunning nineteeneightyfour-yasl v"@ + version + ".\n"@ + "Created on @spunksuii's request for anti-goon squads.\n\n++ Pong! "@;
    let z = "\n\n++ -- STATS --"@ + "\n++ Banned Tags:    "@ + signed_decimal(counts.banned_tags as int) + "\n++ Banned Users:   "@ + signed_decimal(counts.banned_users as int) + "\n++ Exempted Users: "@ + signed_decimal(counts.exempted_users as int) + "\n++ Actions Taken:  "@ + signed_decimal(counts.actions as int) + "\n++ -----------\n\n-- Julia's alibi. Winston's detested.\n-- Licensed under GNU AGPL v3.0, (C) l1npengtul Twenty Twenty-Six.\n-- Source Code: https://github.com/l1npengtul/yasl\n```\n            "@;
    assert(t =~= x + "Ping to discord took "@ + decimal(ping_ms as nat) + "ms."@ + z);
}

proof fn lemma_status_line_2(version: Seq<char>, ping_ms: u128, counts: RecordCounts)
    ensures
        shows_after(status_text(version, ping_ms, counts), "\n++ Banned Tags:    "@, signed_decimal(counts.banned_tags as int), "\n"@),
{
    let t = status_text(version, ping_ms, counts);
    lemma_status_stats();
    lemma_status_users();
    let x = "\n```diff\nRunning nineteeneightyfour-yasl v"@ + version + ".\nCreated on @spunksuii's request for anti-goon squads.\n\n++ Pong! Ping to discord took "@ + decimal(ping_ms as nat) + "ms."@ + "\n\n++ -- STATS --"@;
    let z = "++ Banned Users:   "@ + signed_decimal(counts.banned_users as int) + "\n++ Exempted Users: "@ + signed_decimal(counts.exempted_users as int) + "\n++ Actions Taken:  "@ + signed_decimal(counts.actions as int) + "\n++ -----------\n\n-- Julia's alibi. Winston's detested.\n-- Licensed under GNU AGPL v3.0, (C) l1npengtul Twenty Twenty-Six.\n-- Source Code: https://github.com/l1npengtul/yasl\n```\n            "@;
    assert(t =~= x + "\n++ Banned Tags:    "@ + signed_decimal(counts.banned_tags as int) + "\n"@ + z);
}

proof fn lemma_status_line_3(version: Seq<char>, ping_ms: u128, counts: RecordCounts)
    ensures
        shows_after(status_text(version, ping_ms, counts), "\n++ Banned Users:   "@, signed_decimal(counts.banned_users as int), "\n"@),
{
    let t = status_text(version, ping_ms, counts);
    lemma_status_exempted();
    let x = "\n```diff\nRunning nineteeneightyfour-yasl v"@ + version + ".\nCreated on @spunksuii's request for anti-goon squads.\n\n++ Pong! Ping to discord took "@ + decimal(ping_ms as nat) + "ms.\n\n++ -- STATS --\n++ Banned Tags:    "@ + signed_decimal(counts.banned_tags as int);
    let z = "++ Exempted Users: "@ + signed_decimal(counts.exempted_users as int) + "\n++ Actions Taken:  "@ + signed_decimal(counts.actions as int) + "\n++ -----------\n\n-- Julia's alibi. Winston's detested.\n-- Licensed under GNU AGPL v3.0, (C) l1npengtul Twenty Twenty-Six.\n-- Source Code: https://github.com/l1npengtul/yasl\n```\n            "@;
    assert(t =~= x + "\n++ Banned Users:   "@ + signed_decimal(counts.banned_users as int) + "\n"@ + z);
}

proof fn lemma_status_line_4(version: Seq<char>, ping_ms: u128, counts: RecordCounts)
    ensures
        shows_after(status_text(version, ping_ms, counts), "\n++ Exempted Users: "@, signed_decimal(counts.exempted_users as int), "\n"@),
{
    let t = status_text(version, ping_ms, counts);
    lemma_status_actions();
    let x = "\n```diff\nRunning nineteeneightyfour-yasl v"@ + version + ".\nCreated on @spunksuii's request for anti-goon squads.\n\n++ Pong! Ping to discord took "@ + decimal(ping_ms as nat) + "ms.\n\n++ -- STATS --\n++ Banned Tags:    "@ + signed_decimal(counts.banned_tags as int) + "\n++ Banned Users:   "@ + signed_decimal(counts.banned_users as int);
    let z = "++ Actions Taken:  "@ + signed_decimal(counts.actions as int) + "\n++ -----------\n\n-- Julia's alibi. Winston's detested.\n-- Licensed under GNU AGPL v3.0, (C) l1npengtul Twenty Twenty-Six.\n-- Source Code: https://github.com/l1npengtul/yasl\n```\n            "@;
    assert(t =~= x + "\n++ Exempted Users: "@ + signed_decimal(counts.exempted_users as int) + "\n"@ + z);
}

proof fn lemma_status_line_5(version: Seq<char>, ping_ms: u128, counts: RecordCounts)
    ensures
        shows_after(status_text(version, ping_ms, counts), "\n++ Actions Taken:  "@, signed_decimal(counts.actions as int), "\n"@),
{
    let t = status_text(version, ping_ms, counts);
    lemma_status_foot();
    let x = "\n```diff\nRunning nineteeneightyfour-yasl v"@ + version + ".\nCreated on @spunksuii's request for anti-goon squads.\n\n++ Pong! Ping to discord took "@ + decimal(ping_ms as nat) + "ms.\n\n++ -- STATS --\n++ Banned Tags:    "@ + signed_decimal(counts.banned_tags as int) + "\n++ Banned Users:   "@ + signed_decimal(counts.banned_users as int) + "\n++ Exempted Users: "@ + signed_decimal(counts.exempted_users as int);
    let z = "++ -----------\n\n-- Julia's alibi. Winston's detested.\n-- Licensed under GNU AGPL v3.0, (C) l1npengtul Twenty Twenty-Six.\n-- Source Code: https://github.com/l1npengtul/yasl\n```\n            "@;
    assert(t =~= x + "\n++ Actions Taken:  "@ + signed_decimal(counts.actions as int) + "\n"@ + z);
}

/// The status reply gives the version after "v", the ping in milliseconds, and each count
/// on its own line after its label, every number as `Display` writes it (zero as `0`).
pub proof fn law_status_reply(version: Seq<char>, ping_ms: u128, counts: RecordCounts)
    ensures
        ({
            let t = status_text(version, ping_ms, counts);
            &&& shows_after(t, "Running nineteeneightyfour-yasl v"@, version, ".\n"@)
            &&& shows_after(t, "Ping to discord took "@, decimal(ping_ms as nat), "ms."@)
            &&& shows_after(t, "\n++ Banned Tags:    "@, signed_decimal(counts.banned_tags as int), "\n"@)
            &&& shows_after(t, "\n++ Banned Users:   "@, signed_decimal(counts.banned_users as int), "\n"@)
            &&& shows_after(t, "\n++ Exempted Users: "@, signed_decimal(counts.exempted_users as int), "\n"@)
            &&& shows_after(t, "\n++ Actions Taken:  "@, signed_decimal(counts.actions as int), "\n"@)
        }),
        is_decimal_of(decimal(ping_ms as nat), ping_ms as nat),
        is_signed_decimal_of(signed_decimal(counts.banned_tags as int), counts.banned_tags as int),
        is_signed_decimal_of(signed_decimal(counts.banned_users as int), counts.banned_users as int),
        is_signed_decimal_of(signed_decimal(counts.exempted_users as int), counts.exempted_users as int),
        is_signed_decimal_of(signed_decimal(counts.actions as int), counts.actions as int),
{
    law_decimal_text(ping_ms as nat);
    law_signed_decimal(counts.banned_tags as int);
    law_signed_decimal(counts.banned_users as int);
    law_signed_decimal(counts.exempted_users as int);
    law_signed_decimal(counts.actions as int);
    lemma_status_line_0(version, ping_ms, counts);
    lemma_status_line_1(version, ping_ms, counts);
    lemma_status_line_2(version, ping_ms, counts);
    lemma_status_line_3(version, ping_ms, counts);
    lemma_status_line_4(version, ping_ms, counts);
    lemma_status_line_5(version, ping_ms, counts);
}

} // verus!
