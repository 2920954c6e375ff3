use slack_mcp::scripts::{
    build_channel_info_script, build_delete_script, build_edit_script, build_messages_script,
    build_profile_script, build_reply_script, build_search_script, build_send_script,
    CHANNELS_SCRIPT, UNREAD_SCRIPT,
};

#[test]
fn sidebar_scripts_are_the_page_queries() {
    let channels = r#"JSON.stringify(Array.from(document.querySelectorAll('[data-qa-channel-sidebar-channel]')).map(el => ({
        name: el.innerText.trim().split(/\n/)[0],
        id: el.getAttribute('data-qa-channel-sidebar-channel-id') || '',
        unread: el.querySelector('[data-qa-unread-indicator]') !== null,
        type: el.getAttribute('data-qa-channel-sidebar-channel-type') || 'channel'
    })).filter(c => c.name && c.id))"#;
    let unread = r#"JSON.stringify(Array.from(document.querySelectorAll('[data-qa-unread-indicator]')).map(el => ({
        name: el.innerText.trim(),
        channel_id: el.closest('[data-qa-channel-sidebar-channel]')?.getAttribute('data-qa-channel-sidebar-channel-id') || ''
    })).filter(c => c.channel_id))"#;
    assert_eq!(CHANNELS_SCRIPT, channels);
    assert_eq!(UNREAD_SCRIPT, unread);
}

#[test]
fn messages_script_fills_channel_and_limit() {
    let expected = format!(
        r#"(async () => {{
            const cfg = JSON.parse(localStorage.getItem('localConfig_v2') || '{{}}');
            const team = Object.values(cfg.teams || {{}})[0];
            if (!team) return JSON.stringify({{error: 'no team config'}});

            const infoRes = await fetch('/api/conversations.info?token=' + encodeURIComponent(team.token) + '&channel={channel}');
            const info = await infoRes.json();
            const channelName = info.channel?.name || '{channel}';

            const r = await fetch('/api/conversations.history?token=' + encodeURIComponent(team.token) + '&channel={channel}&limit={limit}&pretty=1');
            const data = await r.json();
            if (!data.ok) return JSON.stringify({{error: data.error}});

            const userIds = [...new Set(data.messages.filter(m => m.user).map(m => m.user))];
            const users = {{}};
            for (const uid of userIds) {{
                try {{
                    const ur = await fetch('/api/users.info?token=' + encodeURIComponent(team.token) + '&user=' + uid);
                    const ud = await ur.json();
                    if (ud.ok) users[uid] = ud.user.real_name || ud.user.name;
                }} catch(e) {{}}
            }}

            const parts = ['Channel: #' + channelName];
            for (const m of data.messages) {{
                const user = users[m.user] || m.user || '?';
                const d = new Date(parseFloat(m.ts) * 1000);
                const dateStr = d.toLocaleDateString('en-US', {{month:'long', day:'numeric', year:'numeric'}});
                const text = m.text || '';
                const quoted = text.split('\\n').map(l => '> ' + l).join('\\n');
                parts.push(user + ' (' + dateStr + ')\\n' + quoted);
            }}
            const formatted = parts.join('\\n\\n');

            const msgs = data.messages.map(m => {{
                const d = new Date(parseFloat(m.ts) * 1000);
                const dateStr = d.toLocaleDateString('en-US', {{month:'long', day:'numeric', year:'numeric'}});
                return {{
                    user: users[m.user] || m.user || '?',
                    text: m.text || '',
                    date: dateStr,
                    ts: m.ts,
                    thread_ts: m.thread_ts || null,
                    reply_count: m.reply_count || 0
                }};
            }});
            return JSON.stringify({{channelName, messages: msgs, formatted}});
        }})()"#,
        channel = "C017ZMHM4GY", limit = 20u32
    );
    assert_eq!(build_messages_script("C017ZMHM4GY", 20), expected);
}

#[test]
fn channel_info_script_fills_channel() {
    let expected = format!(
        r#"(async () => {{
            const cfg = JSON.parse(localStorage.getItem('localConfig_v2') || '{{}}');
            const team = Object.values(cfg.teams || {{}})[0];
            if (!team) return JSON.stringify({{error: 'no team config'}});
            const r = await fetch('/api/conversations.info?token=' + encodeURIComponent(team.token) + '&channel={channel}&pretty=1');
            const data = await r.json();
            if (!data.ok) return JSON.stringify({{error: data.error}});
            const c = data.channel;
            return JSON.stringify({{
                id: c.id, name: c.name,
                topic: c.topic?.value || '',
                topic_creator: c.topic?.creator || '',
                topic_last_set: c.topic?.last_set || 0,
                purpose: c.purpose?.value || '',
                purpose_creator: c.purpose?.creator || '',
                purpose_last_set: c.purpose?.last_set || 0,
                is_archived: c.is_archived || false,
                is_general: c.is_general || false,
                members: c.num_members || 0
            }});
        }})()"#,
        channel = "C1"
    );
    assert_eq!(build_channel_info_script("C1"), expected);
}

#[test]
fn search_script_fills_query_and_count() {
    let expected = format!(
        r#"(async () => {{
            const cfg = JSON.parse(localStorage.getItem('localConfig_v2') || '{{}}');
            const team = Object.values(cfg.teams || {{}})[0];
            if (!team) return JSON.stringify({{error: 'no team config'}});
            const r = await fetch('/api/search.messages?token=' + encodeURIComponent(team.token) + '&query=' + encodeURIComponent('{query}') + '&count={count}&pretty=1');
            const data = await r.json();
            if (!data.ok) return JSON.stringify({{error: data.error}});
            const matches = (data.messages?.matches || []).map(m => ({{
                user: m.username || m.user || '?',
                text: (m.text || '').substring(0, 500),
                channel: m.channel?.name || '',
                channel_id: m.channel?.id || '',
                ts: m.ts,
                permalink: m.permalink || '',
                team: m.team || ''
            }}));
            const total = data.messages?.paging?.total_count || 0;

            const parts = ['Search results (' + total + ' total)'];
            for (const m of matches) {{
                const quoted = m.text.split('\\n').map(l => '> ' + l).join('\\n');
                parts.push(m.user + ' in #' + m.channel + '\\n' + quoted);
            }}
            const formatted = parts.join('\\n\\n');

            return JSON.stringify({{matches, total, formatted}});
        }})()"#,
        query = "in:\\'general\\'", count = 10u32
    );
    assert_eq!(build_search_script("in:\\'general\\'", 10), expected);
}

#[test]
fn profile_script_fills_user() {
    let expected = format!(
        r#"(async () => {{
            const cfg = JSON.parse(localStorage.getItem('localConfig_v2') || '{{}}');
            const team = Object.values(cfg.teams || {{}})[0];
            if (!team) return JSON.stringify({{error: 'no team config'}});
            const r = await fetch('/api/users.info?token=' + encodeURIComponent(team.token) + '&user={user}&pretty=1');
            const data = await r.json();
            if (!data.ok) return JSON.stringify({{error: data.error}});
            const u = data.user;
            return JSON.stringify({{
                id: u.id, name: u.name, real_name: u.real_name,
                display_name: u.profile?.display_name || '',
                email: u.profile?.email || '',
                title: u.profile?.title || '',
                phone: u.profile?.phone || '',
                is_admin: u.is_admin || false,
                is_owner: u.is_owner || false,
                tz: u.tz || ''
            }});
        }})()"#,
        user = "U03V9E14Y2K"
    );
    assert_eq!(build_profile_script("U03V9E14Y2K"), expected);
}

#[test]
fn send_script_fills_channel_and_text() {
    let expected = format!(
        r#"(async () => {{
            const cfg = JSON.parse(localStorage.getItem('localConfig_v2') || '{{}}');
            const team = Object.values(cfg.teams || {{}})[0];
            if (!team) return JSON.stringify({{error: 'no team config'}});
            const r = await fetch('/api/chat.postMessage', {{
                method: 'POST',
                headers: {{'Content-Type': 'application/json', 'Authorization': 'Bearer ' + team.token}},
                body: JSON.stringify({{channel: '{channel}', text: '{text}'}})
            }});
            const data = await r.json();
            return JSON.stringify(data);
        }})()"#,
        channel = "C1", text = "hi\\n"
    );
    assert_eq!(build_send_script("C1", "hi\\n"), expected);
}

#[test]
fn reply_script_fills_channel_thread_and_text() {
    let expected = format!(
        r#"(async () => {{
            const cfg = JSON.parse(localStorage.getItem('localConfig_v2') || '{{}}');
            const team = Object.values(cfg.teams || {{}})[0];
            if (!team) return JSON.stringify({{error: 'no team config'}});
            const r = await fetch('/api/chat.postMessage', {{
                method: 'POST',
                headers: {{'Content-Type': 'application/json', 'Authorization': 'Bearer ' + team.token}},
                body: JSON.stringify({{
                    channel: '{channel}',
                    thread_ts: '{thread_ts}',
                    text: '{text}'
                }})
            }});
            const data = await r.json();
            return JSON.stringify(data);
        }})()"#,
        channel = "C1", thread_ts = "1.2", text = "ok"
    );
    assert_eq!(build_reply_script("C1", "1.2", "ok"), expected);
}

#[test]
fn edit_script_fills_channel_ts_and_text() {
    let expected = format!(
        r#"(async () => {{
            const cfg = JSON.parse(localStorage.getItem('localConfig_v2') || '{{}}');
            const team = Object.values(cfg.teams || {{}})[0];
            if (!team) return JSON.stringify({{error: 'no team config'}});
            const r = await fetch('/api/chat.update', {{
                method: 'POST',
                headers: {{'Content-Type': 'application/json', 'Authorization': 'Bearer ' + team.token}},
                body: JSON.stringify({{
                    channel: '{channel}',
                    ts: '{ts}',
                    text: '{text}'
                }})
            }});
            const data = await r.json();
            return JSON.stringify(data);
        }})()"#,
        channel = "C1", ts = "3.4", text = "new"
    );
    assert_eq!(build_edit_script("C1", "3.4", "new"), expected);
}

#[test]
fn delete_script_fills_channel_and_ts() {
    let expected = format!(
        r#"(async () => {{
            const cfg = JSON.parse(localStorage.getItem('localConfig_v2') || '{{}}');
            const team = Object.values(cfg.teams || {{}})[0];
            if (!team) return JSON.stringify({{error: 'no team config'}});
            const r = await fetch('/api/chat.delete', {{
                method: 'POST',
                headers: {{'Content-Type': 'application/json', 'Authorization': 'Bearer ' + team.token}},
                body: JSON.stringify({{
                    channel: '{channel}',
                    ts: '{ts}'
                }})
            }});
            const data = await r.json();
            return JSON.stringify(data);
        }})()"#,
        channel = "C9", ts = "5.6"
    );
    assert_eq!(build_delete_script("C9", "5.6"), expected);
}
