use ktv_casting::channel::{
    next_song_url, song_list_info_url, text_message_action, websocket_url, Backoff,
    ChannelAction, ChannelEvent, Keepalive,
};
use ktv_casting::monitor::PositionMonitor;
use ktv_casting::orchestrator::{split_item_id, Transition, TransitionPhase};
use ktv_casting::playlist::{extract_bv_id, read_song_list_reply, PlaylistSnapshot, PullResult};
use ktv_casting::retry::{is_success_error_text, RetryDecision, RetryPolicy};

fn pull(changed: bool, hash: &str, playing: Option<&str>) -> PullResult {
    PullResult { changed, hash: hash.to_string(), playing: playing.map(|s| s.to_string()) }
}

#[test]
fn embedded_2xx_counts_as_success() {
    let p = RetryPolicy::new();
    assert_eq!(p.decide(Some("request failed: 204 No Content")), RetryDecision::Succeeded);
    assert_eq!(p.decide(Some("request failed: 500")), RetryDecision::RetryAfterMs(500));
    assert_eq!(p.decide(None), RetryDecision::Succeeded);
    assert!(!is_success_error_text("code 2040"));
    assert!(is_success_error_text("x1234 then 299"));
    assert!(!is_success_error_text("404 then 200"));
    assert!(!is_success_error_text("no digits"));
}

#[test]
fn retry_loop_until_forced_success() {
    let p = RetryPolicy::new();
    let mut attempts = 0;
    let outcomes = [Some("request failed: 500"), None];
    loop {
        let d = p.decide(outcomes[attempts]);
        attempts += 1;
        if d == RetryDecision::Succeeded {
            break;
        }
    }
    assert_eq!(attempts, 2);
    let mut first = 0;
    loop {
        first += 1;
        if p.decide(Some("request failed: 204 No Content")) == RetryDecision::Succeeded {
            break;
        }
    }
    assert_eq!(first, 1);
}

#[test]
fn same_hash_twice_is_quiet() {
    let mut s = PlaylistSnapshot::new();
    assert_eq!(s.request_hash(), "EMPTY_LIST_HASH");
    assert_eq!(s.apply_refresh(&pull(true, "h1", Some("A"))), Some("A".to_string()));
    assert_eq!(s.apply_refresh(&pull(true, "h1", Some("B"))), None);
    assert_eq!(s.apply_refresh(&pull(false, "h1", None)), None);
    assert_eq!(s.request_hash(), "h1");
    assert_eq!(s.playing, Some("A".to_string()));
}

#[test]
fn pending_only_change_is_quiet() {
    let mut s = PlaylistSnapshot::new();
    s.apply_refresh(&pull(true, "h1", Some("A")));
    assert_eq!(s.apply_refresh(&pull(true, "h2", Some("A"))), None);
    assert_eq!(s.hash, Some("h2".to_string()));
    assert_eq!(s.apply_refresh(&pull(true, "h3", None)), None);
    assert_eq!(s.playing, Some("A".to_string()));
}

#[test]
fn pointer_change_fires_once() {
    let mut s = PlaylistSnapshot::new();
    s.apply_refresh(&pull(true, "h1", Some("A")));
    let mut calls = Vec::new();
    if let Some(id) = s.apply_refresh(&pull(true, "h2", Some("B"))) {
        calls.push(id);
    }
    if let Some(id) = s.apply_refresh(&pull(false, "h2", None)) {
        calls.push(id);
    }
    assert_eq!(calls, vec!["B".to_string()]);
}

#[test]
fn reads_song_list_replies() {
    let r = read_song_list_reply(
        r#"{"changed":true,"hash":"abc","list":{"singing":{"url":"https://www.bilibili.com/video/BV1xx411c7mD?p=1"},"sung":[]}}"#,
        "old",
    );
    assert_eq!(r, pull(true, "abc", Some("BV1xx411c7mD")));
    let sung = read_song_list_reply(
        r#"{"changed":true,"list":{"singing":null,"sung":[{"url":"BV1a"},{"url":"https://b23.tv/BV2b/"}]}}"#,
        "old",
    );
    assert_eq!(sung, pull(true, "old", Some("BV2b")));
    assert_eq!(read_song_list_reply(r#"{"changed":false,"hash":"h"}"#, "x"), pull(false, "h", None));
    assert_eq!(read_song_list_reply("not json", "x"), pull(false, "x", None));
}

#[test]
fn item_ids() {
    assert_eq!(extract_bv_id("https://www.bilibili.com/video/BV1LS4MzKE8y/?x=1"), "BV1LS4MzKE8y");
    assert_eq!(extract_bv_id("plain"), "plain");
    assert_eq!(split_item_id("BV1xx-page2"), ("BV1xx".to_string(), Some(2)));
    assert_eq!(split_item_id("BV1xx"), ("BV1xx".to_string(), None));
    assert_eq!(split_item_id("BV1xx-pagex"), ("BV1xx".to_string(), None));
}

#[test]
fn monitor_fires_once_then_cools_down() {
    let mut m = PositionMonitor::new();
    assert!(!m.on_tick(1000, 30, 60, None));
    assert!(m.on_tick(2000, 59, 60, None));
    assert!(!m.on_tick(3000, 60, 60, None));
    m.on_next_confirmed(3500);
    assert!(!m.on_tick(4000, 60, 60, None));
    assert!(!m.on_tick(6999, 60, 60, None));
    assert!(!m.on_tick(8400, 60, 60, None));
    assert!(m.on_tick(8500, 60, 60, None));
}

#[test]
fn monitor_prefers_cached_duration() {
    let mut m = PositionMonitor::new();
    assert!(!m.on_tick(0, 59, 60, Some(300)));
    assert!(m.on_tick(0, 299, 60, Some(300)));
    let mut z = PositionMonitor::new();
    assert!(!z.on_tick(0, 0, 0, None));
}

#[test]
fn transition_runs_in_order() {
    let mut t = Transition::new();
    assert_eq!(t.phase, TransitionPhase::Stopping);
    t.on_step(RetryDecision::RetryAfterMs(500));
    assert_eq!(t.phase, TransitionPhase::Stopping);
    t.on_step(RetryDecision::Succeeded);
    assert_eq!(t.phase, TransitionPhase::Resolving);
    t.on_resolved(true);
    assert_eq!(t.phase, TransitionPhase::SettingUri);
    t.on_step(RetryDecision::Succeeded);
    assert_eq!(t.phase, TransitionPhase::Starting);
    t.on_step(RetryDecision::Succeeded);
    assert!(t.is_finished());
    let mut a = Transition::new();
    a.on_step(RetryDecision::Succeeded);
    a.on_resolved(false);
    assert_eq!(a.phase, TransitionPhase::Abandoned);
}

#[test]
fn channel_urls() {
    assert_eq!(
        websocket_url("https://ktv.example.org", "42", "ktv casting"),
        "wss://ktv.example.org/api/ws?roomId=42&nickname=ktv%20casting"
    );
    assert_eq!(websocket_url("http://h:8080", "1", "n"), "ws://h:8080/api/ws?roomId=1&nickname=n");
    assert_eq!(
        song_list_info_url("http://h", "7", "EMPTY_LIST_HASH"),
        "http://h/api/songListInfo?roomId=7&lastHash=EMPTY_LIST_HASH"
    );
    assert_eq!(next_song_url("http://h", "7"), "http://h/api/nextSong?roomId=7");
}

#[test]
fn backoff_doubles_to_a_cap() {
    let mut b = Backoff::new();
    let waits: Vec<u64> = (0..8).map(|_| b.on_failure()).collect();
    assert_eq!(waits, vec![1, 2, 4, 8, 16, 32, 60, 60]);
    b.on_success();
    assert_eq!(b.on_failure(), 1);
}

#[test]
fn keepalive_decisions() {
    let held = Some("h1".to_string());
    let mut k = Keepalive::new(0);
    assert_eq!(k.on_event(ChannelEvent::Ping, 10, &held), ChannelAction::SendPong);
    assert_eq!(k.on_event(ChannelEvent::Tick, 30000, &held), ChannelAction::SendPing);
    assert_eq!(
        k.on_event(ChannelEvent::Text(r#"{"type":"pong"}"#.to_string()), 30500, &held),
        ChannelAction::Nothing
    );
    assert_eq!(k.last_pong_ms, 30500);
    assert_eq!(
        k.on_event(ChannelEvent::Text(r#"{"type":"UPDATE","hash":"h2"}"#.to_string()), 31000, &held),
        ChannelAction::Refresh
    );
    assert_eq!(
        k.on_event(ChannelEvent::Text(r#"{"type":"UPDATE","hash":"h1"}"#.to_string()), 31000, &held),
        ChannelAction::Nothing
    );
    assert_eq!(k.on_event(ChannelEvent::Tick, 90501, &held), ChannelAction::Reconnect);
    assert_eq!(k.on_event(ChannelEvent::Closed, 90502, &held), ChannelAction::Reconnect);
    assert_eq!(
        text_message_action(Some("UPDATE".to_string()), Some("x".to_string()), &None),
        ChannelAction::Refresh
    );
}
