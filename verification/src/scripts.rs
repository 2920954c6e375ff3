//! The JavaScript that the tools run in the Slack page.
use vstd::prelude::*;
use vstd::string::*;

use crate::text::{decimal, push_decimal};

verus! {

/// Lists the channels of the sidebar.
pub const CHANNELS_SCRIPT: &'static str = r#"JSON.stringify(Array.from(document.querySelectorAll('[data-qa-channel-sidebar-channel]')).map(el => ({
        name: el.innerText.trim().split(/\n/)[0],
        id: el.getAttribute('data-qa-channel-sidebar-channel-id') || '',
        unread: el.querySelector('[data-qa-unread-indicator]') !== null,
        type: el.getAttribute('data-qa-channel-sidebar-channel-type') || 'channel'
    })).filter(c => c.name && c.id))"#;

pub const MESSAGES_SCRIPT_A: &'static str = r#"(async () => {
            const cfg = JSON.parse(localStorage.getItem('localConfig_v2') || '{}');
            const team = Object.values(cfg.teams || {})[0];
            if (!team) return JSON.stringify({error: 'no team config'});

            const infoRes = await fetch('/api/conversations.info?token=' + encodeURIComponent(team.token) + '&channel="#;

pub const MESSAGES_SCRIPT_B: &'static str = r#"');
            const info = await infoRes.json();
            const channelName = info.channel?.name || '"#;

pub const MESSAGES_SCRIPT_C: &'static str = r#"';

            const r = await fetch('/api/conversations.history?token=' + encodeURIComponent(team.token) + '&channel="#;

pub const MESSAGES_SCRIPT_D: &'static str = r#"&limit="#;

pub const MESSAGES_SCRIPT_E: &'static str = r#"&pretty=1');
            const data = await r.json();
            if (!data.ok) return JSON.stringify({error: data.error});

            const userIds = [...new Set(data.messages.filter(m => m.user).map(m => m.user))];
            const users = {};
            for (const uid of userIds) {
                try {
                    const ur = await fetch('/api/users.info?token=' + encodeURIComponent(team.token) + '&user=' + uid);
                    const ud = await ur.json();
                    if (ud.ok) users[uid] = ud.user.real_name || ud.user.name;
                } catch(e) {}
            }

            const parts = ['Channel: #' + channelName];
            for (const m of data.messages) {
                const user = users[m.user] || m.user || '?';
                const d = new Date(parseFloat(m.ts) * 1000);
                const dateStr = d.toLocaleDateString('en-US', {month:'long', day:'numeric', year:'numeric'});
                const text = m.text || '';
                const quoted = text.split('\\n').map(l => '> ' + l).join('\\n');
                parts.push(user + ' (' + dateStr + ')\\n' + quoted);
            }
            const formatted = parts.join('\\n\\n');

            const msgs = data.messages.map(m => {
                const d = new Date(parseFloat(m.ts) * 1000);
                const dateStr = d.toLocaleDateString('en-US', {month:'long', day:'numeric', year:'numeric'});
                return {
                    user: users[m.user] || m.user || '?',
                    text: m.text || '',
                    date: dateStr,
                    ts: m.ts,
                    thread_ts: m.thread_ts || null,
                    reply_count: m.reply_count || 0
                };
            });
            return JSON.stringify({channelName, messages: msgs, formatted});
        })()"#;

pub const CHANNEL_INFO_SCRIPT_A: &'static str = r#"(async () => {
            const cfg = JSON.parse(localStorage.getItem('localConfig_v2') || '{}');
            const team = Object.values(cfg.teams || {})[0];
            if (!team) return JSON.stringify({error: 'no team config'});
            const r = await fetch('/api/conversations.info?token=' + encodeURIComponent(team.token) + '&channel="#;

pub const CHANNEL_INFO_SCRIPT_B: &'static str = r#"&pretty=1');
            const data = await r.json();
            if (!data.ok) return JSON.stringify({error: data.error});
            const c = data.channel;
            return JSON.stringify({
                id: c.id, name: c.name,
                topic: c.topic?.value || '',
                topic_creator: c.topic?.creator || '',
                topic_last_set: c.topic?.last_set || 0,
                purpose: c.purpose?.value || '',
                purpose_creator: c.purpose?.creator || '',
                purpose_last_set: c.purpose?.last_set || 0,
                is_archived: c.is_archived || false,
                is_general: c.is_general || false,
                members: c.num_members || 0
            });
        })()"#;

pub const SEARCH_SCRIPT_A: &'static str = r#"(async () => {
            const cfg = JSON.parse(localStorage.getItem('localConfig_v2') || '{}');
            const team = Object.values(cfg.teams || {})[0];
            if (!team) return JSON.stringify({error: 'no team config'});
            const r = await fetch('/api/search.messages?token=' + encodeURIComponent(team.token) + '&query=' + encodeURIComponent('"#;

pub const SEARCH_SCRIPT_B: &'static str = r#"') + '&count="#;

pub const SEARCH_SCRIPT_C: &'static str = r#"&pretty=1');
            const data = await r.json();
            if (!data.ok) return JSON.stringify({error: data.error});
            const matches = (data.messages?.matches || []).map(m => ({
                user: m.username || m.user || '?',
                text: (m.text || '').substring(0, 500),
                channel: m.channel?.name || '',
                channel_id: m.channel?.id || '',
                ts: m.ts,
                permalink: m.permalink || '',
                team: m.team || ''
            }));
            const total = data.messages?.paging?.total_count || 0;

            const parts = ['Search results (' + total + ' total)'];
            for (const m of matches) {
                const quoted = m.text.split('\\n').map(l => '> ' + l).join('\\n');
                parts.push(m.user + ' in #' + m.channel + '\\n' + quoted);
            }
            const formatted = parts.join('\\n\\n');

            return JSON.stringify({matches, total, formatted});
        })()"#;

pub const PROFILE_SCRIPT_A: &'static str = r#"(async () => {
            const cfg = JSON.parse(localStorage.getItem('localConfig_v2') || '{}');
            const team = Object.values(cfg.teams || {})[0];
            if (!team) return JSON.stringify({error: 'no team config'});
            const r = await fetch('/api/users.info?token=' + encodeURIComponent(team.token) + '&user="#;

pub const PROFILE_SCRIPT_B: &'static str = r#"&pretty=1');
            const data = await r.json();
            if (!data.ok) return JSON.stringify({error: data.error});
            const u = data.user;
            return JSON.stringify({
                id: u.id, name: u.name, real_name: u.real_name,
                display_name: u.profile?.display_name || '',
                email: u.profile?.email || '',
                title: u.profile?.title || '',
                phone: u.profile?.phone || '',
                is_admin: u.is_admin || false,
                is_owner: u.is_owner || false,
                tz: u.tz || ''
            });
        })()"#;

/// Lists the channels with an unread badge.
pub const UNREAD_SCRIPT: &'static str = r#"JSON.stringify(Array.from(document.querySelectorAll('[data-qa-unread-indicator]')).map(el => ({
        name: el.innerText.trim(),
        channel_id: el.closest('[data-qa-channel-sidebar-channel]')?.getAttribute('data-qa-channel-sidebar-channel-id') || ''
    })).filter(c => c.channel_id))"#;

pub const SEND_SCRIPT_A: &'static str = r#"(async () => {
            const cfg = JSON.parse(localStorage.getItem('localConfig_v2') || '{}');
            const team = Object.values(cfg.teams || {})[0];
            if (!team) return JSON.stringify({error: 'no team config'});
            const r = await fetch('/api/chat.postMessage', {
                method: 'POST',
                headers: {'Content-Type': 'application/json', 'Authorization': 'Bearer ' + team.token},
                body: JSON.stringify({channel: '"#;

pub const SEND_SCRIPT_B: &'static str = r#"', text: '"#;

pub const SEND_SCRIPT_C: &'static str = r#"'})
            });
            const data = await r.json();
            return JSON.stringify(data);
        })()"#;

pub const REPLY_SCRIPT_A: &'static str = r#"(async () => {
            const cfg = JSON.parse(localStorage.getItem('localConfig_v2') || '{}');
            const team = Object.values(cfg.teams || {})[0];
            if (!team) return JSON.stringify({error: 'no team config'});
            const r = await fetch('/api/chat.postMessage', {
                method: 'POST',
                headers: {'Content-Type': 'application/json', 'Authorization': 'Bearer ' + team.token},
                body: JSON.stringify({
                    channel: '"#;

pub const REPLY_SCRIPT_B: &'static str = r#"',
                    thread_ts: '"#;

pub const REPLY_SCRIPT_C: &'static str = r#"',
                    text: '"#;

pub const REPLY_SCRIPT_D: &'static str = r#"'
                })
            });
            const data = await r.json();
            return JSON.stringify(data);
        })()"#;

pub const EDIT_SCRIPT_A: &'static str = r#"(async () => {
            const cfg = JSON.parse(localStorage.getItem('localConfig_v2') || '{}');
            const team = Object.values(cfg.teams || {})[0];
            if (!team) return JSON.stringify({error: 'no team config'});
            const r = await fetch('/api/chat.update', {
                method: 'POST',
                headers: {'Content-Type': 'application/json', 'Authorization': 'Bearer ' + team.token},
                body: JSON.stringify({
                    channel: '"#;

pub const EDIT_SCRIPT_B: &'static str = r#"',
                    ts: '"#;

pub const EDIT_SCRIPT_C: &'static str = r#"',
                    text: '"#;

pub const EDIT_SCRIPT_D: &'static str = r#"'
                })
            });
            const data = await r.json();
            return JSON.stringify(data);
        })()"#;

pub const DELETE_SCRIPT_A: &'static str = r#"(async () => {
            const cfg = JSON.parse(localStorage.getItem('localConfig_v2') || '{}');
            const team = Object.values(cfg.teams || {})[0];
            if (!team) return JSON.stringify({error: 'no team config'});
            const r = await fetch('/api/chat.delete', {
                method: 'POST',
                headers: {'Content-Type': 'application/json', 'Authorization': 'Bearer ' + team.token},
                body: JSON.stringify({
                    channel: '"#;

pub const DELETE_SCRIPT_B: &'static str = r#"',
                    ts: '"#;

pub const DELETE_SCRIPT_C: &'static str = r#"'
                })
            });
            const data = await r.json();
            return JSON.stringify(data);
        })()"#;

/// The script that reads the latest `limit` messages of a channel, with the names of their authors.
pub open spec fn messages_script(channel: Seq<char>, limit: u32) -> Seq<char> {
    MESSAGES_SCRIPT_A@
        + channel
        + MESSAGES_SCRIPT_B@
        + channel
        + MESSAGES_SCRIPT_C@
        + channel
        + MESSAGES_SCRIPT_D@
        + decimal(limit as nat)
        + MESSAGES_SCRIPT_E@
}

/// Builds [`messages_script`].
pub fn build_messages_script(channel: &str, limit: u32) -> (r: String)
    ensures
        r@ == messages_script(channel@, limit),
{
    let mut r = String::new();
    r.append(MESSAGES_SCRIPT_A);
    r.append(channel);
    r.append(MESSAGES_SCRIPT_B);
    r.append(channel);
    r.append(MESSAGES_SCRIPT_C);
    r.append(channel);
    r.append(MESSAGES_SCRIPT_D);
    push_decimal(&mut r, limit as u64);
    r.append(MESSAGES_SCRIPT_E);
    assert(r@ =~= messages_script(channel@, limit));
    r
}

/// The script that reads the details of a channel.
pub open spec fn channel_info_script(channel: Seq<char>) -> Seq<char> {
    CHANNEL_INFO_SCRIPT_A@
        + channel
        + CHANNEL_INFO_SCRIPT_B@
}

/// Builds [`channel_info_script`].
pub fn build_channel_info_script(channel: &str) -> (r: String)
    ensures
        r@ == channel_info_script(channel@),
{
    let mut r = String::new();
    r.append(CHANNEL_INFO_SCRIPT_A);
    r.append(channel);
    r.append(CHANNEL_INFO_SCRIPT_B);
    assert(r@ =~= channel_info_script(channel@));
    r
}

/// The script that searches messages; `query` is already escaped for a quoted string.
pub open spec fn search_script(query: Seq<char>, count: u32) -> Seq<char> {
    SEARCH_SCRIPT_A@
        + query
        + SEARCH_SCRIPT_B@
        + decimal(count as nat)
        + SEARCH_SCRIPT_C@
}

/// Builds [`search_script`].
pub fn build_search_script(query: &str, count: u32) -> (r: String)
    ensures
        r@ == search_script(query@, count),
{
    let mut r = String::new();
    r.append(SEARCH_SCRIPT_A);
    r.append(query);
    r.append(SEARCH_SCRIPT_B);
    push_decimal(&mut r, count as u64);
    r.append(SEARCH_SCRIPT_C);
    assert(r@ =~= search_script(query@, count));
    r
}

/// The script that reads a user profile.
pub open spec fn profile_script(user: Seq<char>) -> Seq<char> {
    PROFILE_SCRIPT_A@
        + user
        + PROFILE_SCRIPT_B@
}

/// Builds [`profile_script`].
pub fn build_profile_script(user: &str) -> (r: String)
    ensures
        r@ == profile_script(user@),
{
    let mut r = String::new();
    r.append(PROFILE_SCRIPT_A);
    r.append(user);
    r.append(PROFILE_SCRIPT_B);
    assert(r@ =~= profile_script(user@));
    r
}

/// The script that posts a message; `text` is already escaped for a quoted string.
pub open spec fn send_script(channel: Seq<char>, text: Seq<char>) -> Seq<char> {
    SEND_SCRIPT_A@
        + channel
        + SEND_SCRIPT_B@
        + text
        + SEND_SCRIPT_C@
}

/// Builds [`send_script`].
pub fn build_send_script(channel: &str, text: &str) -> (r: String)
    ensures
        r@ == send_script(channel@, text@),
{
    let mut r = String::new();
    r.append(SEND_SCRIPT_A);
    r.append(channel);
    r.append(SEND_SCRIPT_B);
    r.append(text);
    r.append(SEND_SCRIPT_C);
    assert(r@ =~= send_script(channel@, text@));
    r
}

/// The script that posts a reply in a thread; `text` is already escaped.
pub open spec fn reply_script(channel: Seq<char>, thread_ts: Seq<char>, text: Seq<char>) -> Seq<char> {
    REPLY_SCRIPT_A@
        + channel
        + REPLY_SCRIPT_B@
        + thread_ts
        + REPLY_SCRIPT_C@
        + text
        + REPLY_SCRIPT_D@
}

/// Builds [`reply_script`].
pub fn build_reply_script(channel: &str, thread_ts: &str, text: &str) -> (r: String)
    ensures
        r@ == reply_script(channel@, thread_ts@, text@),
{
    let mut r = String::new();
    r.append(REPLY_SCRIPT_A);
    r.append(channel);
    r.append(REPLY_SCRIPT_B);
    r.append(thread_ts);
    r.append(REPLY_SCRIPT_C);
    r.append(text);
    r.append(REPLY_SCRIPT_D);
    assert(r@ =~= reply_script(channel@, thread_ts@, text@));
    r
}

/// The script that replaces the text of a message; `text` is already escaped.
pub open spec fn edit_script(channel: Seq<char>, ts: Seq<char>, text: Seq<char>) -> Seq<char> {
    EDIT_SCRIPT_A@
        + channel
        + EDIT_SCRIPT_B@
        + ts
        + EDIT_SCRIPT_C@
        + text
        + EDIT_SCRIPT_D@
}

/// Builds [`edit_script`].
pub fn build_edit_script(channel: &str, ts: &str, text: &str) -> (r: String)
    ensures
        r@ == edit_script(channel@, ts@, text@),
{
    let mut r = String::new();
    r.append(EDIT_SCRIPT_A);
    r.append(channel);
    r.append(EDIT_SCRIPT_B);
    r.append(ts);
    r.append(EDIT_SCRIPT_C);
    r.append(text);
    r.append(EDIT_SCRIPT_D);
    assert(r@ =~= edit_script(channel@, ts@, text@));
    r
}

/// The script that deletes a message.
pub open spec fn delete_script(channel: Seq<char>, ts: Seq<char>) -> Seq<char> {
    DELETE_SCRIPT_A@
        + channel
        + DELETE_SCRIPT_B@
        + ts
        + DELETE_SCRIPT_C@
}

/// Builds [`delete_script`].
pub fn build_delete_script(channel: &str, ts: &str) -> (r: String)
    ensures
        r@ == delete_script(channel@, ts@),
{
    let mut r = String::new();
    r.append(DELETE_SCRIPT_A);
    r.append(channel);
    r.append(DELETE_SCRIPT_B);
    r.append(ts);
    r.append(DELETE_SCRIPT_C);
    assert(r@ =~= delete_script(channel@, ts@));
    r
}

} // verus!
