use weather_display::screen::{brightness_command, brightness_level, choose_screen, Screen};
use weather_display::weather::{
    join_step, start_join, JoinAction, JoinEvent, JoinState, WifiError,
};

#[test]
fn joining_succeeds_after_a_retry() {
    let (state, action) = start_join(1_000);
    assert_eq!(state, JoinState::Joining { deadline_ms: 31_000 });
    assert!(matches!(action, JoinAction::TryJoin));
    let (state, action) = join_step(state, JoinEvent::JoinAttempted { joined: false, now_ms: 2_000 });
    assert!(matches!(action, JoinAction::Wait { ms: 5_000 }));
    let (state, action) = join_step(state, JoinEvent::Waited { now_ms: 7_000 });
    assert!(matches!(action, JoinAction::TryJoin));
    let (state, action) = join_step(state, JoinEvent::JoinAttempted { joined: true, now_ms: 8_000 });
    assert_eq!(state, JoinState::WaitingForLink { deadline_ms: 38_000 });
    assert!(matches!(action, JoinAction::CheckLink));
    let (state, action) = join_step(state, JoinEvent::LinkChecked { up: false, now_ms: 8_001 });
    assert!(matches!(action, JoinAction::Wait { ms: 500 }));
    let (state, action) = join_step(state, JoinEvent::Waited { now_ms: 8_501 });
    assert!(matches!(action, JoinAction::CheckLink));
    let (state, action) = join_step(state, JoinEvent::LinkChecked { up: true, now_ms: 8_502 });
    assert_eq!(state, JoinState::WaitingForDhcp);
    assert!(matches!(action, JoinAction::WaitForDhcp { timeout_ms: 30_000 }));
    let (state, action) = join_step(state, JoinEvent::DhcpFinished { configured: true });
    assert_eq!(state, JoinState::Done);
    assert!(matches!(action, JoinAction::Finish(Ok(()))));
}

#[test]
fn joining_gives_up_after_its_deadline() {
    let (state, _) = start_join(0);
    let (state, action) = join_step(state, JoinEvent::Waited { now_ms: 30_000 });
    assert!(matches!(action, JoinAction::TryJoin));
    let (state, action) = join_step(state, JoinEvent::Waited { now_ms: 30_001 });
    assert_eq!(state, JoinState::Done);
    assert!(matches!(action, JoinAction::Finish(Err(WifiError::MultipleFailedJoins))));
}

#[test]
fn link_and_dhcp_timeouts() {
    let state = JoinState::WaitingForLink { deadline_ms: 100 };
    let (_, action) = join_step(state, JoinEvent::LinkChecked { up: false, now_ms: 100 });
    assert!(matches!(action, JoinAction::Wait { ms: 500 }));
    let (state, action) = join_step(state, JoinEvent::LinkChecked { up: false, now_ms: 101 });
    assert_eq!(state, JoinState::Done);
    assert!(matches!(action, JoinAction::Finish(Err(WifiError::LinkTimeout))));
    let (_, action) = join_step(JoinState::WaitingForDhcp, JoinEvent::DhcpFinished { configured: false });
    assert!(matches!(action, JoinAction::Finish(Err(WifiError::DhcpTimeout))));
}

#[test]
fn screens_over_a_cycle() {
    assert_eq!(choose_screen(true, true, 5), Screen::ErrorCode);
    assert_eq!(choose_screen(true, false, 5), Screen::ErrorCode);
    assert_eq!(choose_screen(false, false, 21_000), Screen::Loading);
    assert_eq!(choose_screen(false, true, 0), Screen::Temperature);
    assert_eq!(choose_screen(false, true, 19_999), Screen::Temperature);
    assert_eq!(choose_screen(false, true, 20_000), Screen::ConditionAnimation);
    assert_eq!(choose_screen(false, true, 24_999), Screen::ConditionAnimation);
    assert_eq!(choose_screen(false, true, 25_000), Screen::Wind);
    assert_eq!(choose_screen(false, true, 29_999), Screen::Wind);
    assert_eq!(choose_screen(false, true, 30_000), Screen::Temperature);
    assert_eq!(choose_screen(false, true, 60_000 + 22_000), Screen::ConditionAnimation);
}

#[test]
fn brightness_from_the_potentiometer() {
    assert_eq!(brightness_level(0), 0);
    assert_eq!(brightness_level(255), 0);
    assert_eq!(brightness_level(256), 1);
    assert_eq!(brightness_level(4095), 15);
    assert_eq!(brightness_command(0), 0xE0);
    assert_eq!(brightness_command(9), 0xE9);
    assert_eq!(brightness_command(15), 0xEF);
}
