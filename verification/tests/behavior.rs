use rerun::key::KeyCode;
use rerun::key::KeyEvent;
use rerun::key::KeyKind;
use rerun::key::ScreenState;
use rerun::key::step;
use rerun::screen::confirm_screen;
use rerun::session::Action;
use rerun::session::run_session;
use rerun::shell::ConfigError;
use rerun::shell::plan_command;

fn press(code: KeyCode) -> KeyEvent {
    KeyEvent { kind: KeyKind::Press, code }
}

fn release(code: KeyCode) -> KeyEvent {
    KeyEvent { kind: KeyKind::Release, code }
}

#[test]
fn missing_shell_is_config_error() {
    assert!(matches!(plan_command(None, "echo hi"), Err(ConfigError::ShellUnset)));
    assert!(matches!(plan_command(None, ""), Err(ConfigError::ShellUnset)));
    assert!(matches!(plan_command(None, "rm -rf /tmp/x"), Err(ConfigError::ShellUnset)));
}

#[test]
fn missing_shell_message() {
    assert_eq!(ConfigError::ShellUnset.message(), "Please set $SHELL environemnt variable");
}

#[test]
fn shell_set_builds_dash_c_invocation() {
    let inv = plan_command(Some("/bin/bash".to_string()), "echo hi").unwrap();
    assert_eq!(inv.program, "/bin/bash");
    assert_eq!(inv.args, vec!["-c".to_string(), "echo hi".to_string()]);
}

#[test]
fn step_quit_press_declines() {
    assert_eq!(step(ScreenState::Active, &press(KeyCode::Char('q'))), ScreenState::Declined);
}

#[test]
fn step_enter_press_confirms() {
    assert_eq!(step(ScreenState::Active, &press(KeyCode::Enter)), ScreenState::Confirmed);
}

#[test]
fn step_release_never_moves() {
    assert_eq!(step(ScreenState::Active, &release(KeyCode::Char('q'))), ScreenState::Active);
    assert_eq!(step(ScreenState::Active, &release(KeyCode::Enter)), ScreenState::Active);
    assert_eq!(step(ScreenState::Active, &release(KeyCode::Other)), ScreenState::Active);
}

#[test]
fn step_other_keys_keep_polling() {
    assert_eq!(step(ScreenState::Active, &press(KeyCode::Char('a'))), ScreenState::Active);
    assert_eq!(step(ScreenState::Active, &press(KeyCode::Other)), ScreenState::Active);
}

#[test]
fn step_terminal_states_absorb() {
    assert_eq!(step(ScreenState::Declined, &press(KeyCode::Enter)), ScreenState::Declined);
    assert_eq!(step(ScreenState::Confirmed, &press(KeyCode::Char('q'))), ScreenState::Confirmed);
}

#[test]
fn one_quit_press_declines() {
    let events = vec![press(KeyCode::Char('q'))];
    assert_eq!(confirm_screen(&events), Some(false));
}

#[test]
fn one_enter_press_confirms() {
    let events = vec![press(KeyCode::Enter)];
    assert_eq!(confirm_screen(&events), Some(true));
}

#[test]
fn quit_press_after_noise_declines() {
    let events = vec![
        release(KeyCode::Char('q')),
        press(KeyCode::Char('x')),
        press(KeyCode::Char('q')),
    ];
    assert_eq!(confirm_screen(&events), Some(false));
}

#[test]
fn releases_leave_screen_waiting() {
    let events = vec![
        release(KeyCode::Char('q')),
        release(KeyCode::Enter),
        release(KeyCode::Other),
    ];
    assert_eq!(confirm_screen(&events), None);
}

#[test]
fn empty_stream_leaves_screen_waiting() {
    let events: Vec<KeyEvent> = Vec::new();
    assert_eq!(confirm_screen(&events), None);
}

#[test]
fn first_trigger_wins_on_one_screen() {
    let events = vec![press(KeyCode::Enter), press(KeyCode::Char('q'))];
    assert_eq!(confirm_screen(&events), Some(true));
}

#[test]
fn unheld_session_runs_before_first_prompt() {
    let (trace, declined) = run_session(false, &Vec::new());
    assert_eq!(trace, vec![Action::Run, Action::Prompt]);
    assert!(!declined);
}

#[test]
fn held_session_prompts_first() {
    let (trace, declined) = run_session(true, &Vec::new());
    assert_eq!(trace, vec![Action::Prompt]);
    assert!(!declined);
}

#[test]
fn quit_at_first_prompt_runs_once() {
    let events = vec![press(KeyCode::Char('q'))];
    let (trace, declined) = run_session(false, &events);
    assert_eq!(trace, vec![Action::Run, Action::Prompt]);
    assert_eq!(trace.iter().filter(|a| **a == Action::Run).count(), 1);
    assert_eq!(trace.iter().filter(|a| **a == Action::Prompt).count(), 1);
    assert!(declined);
}

#[test]
fn enter_then_quit_runs_twice() {
    let events = vec![press(KeyCode::Enter), press(KeyCode::Char('q'))];
    let (trace, declined) = run_session(false, &events);
    assert_eq!(trace, vec![Action::Run, Action::Prompt, Action::Run, Action::Prompt]);
    assert_eq!(trace.iter().filter(|a| **a == Action::Run).count(), 2);
    assert_eq!(trace.iter().filter(|a| **a == Action::Prompt).count(), 2);
    assert!(declined);
}

#[test]
fn held_enter_then_quit_runs_once() {
    let events = vec![press(KeyCode::Enter), press(KeyCode::Char('q'))];
    let (trace, declined) = run_session(true, &events);
    assert_eq!(trace, vec![Action::Prompt, Action::Run, Action::Prompt]);
    assert!(declined);
}

#[test]
fn ignored_keys_do_not_run_or_quit() {
    let events = vec![
        press(KeyCode::Char('a')),
        release(KeyCode::Char('q')),
        release(KeyCode::Enter),
        press(KeyCode::Char('q')),
    ];
    let (trace, declined) = run_session(false, &events);
    assert_eq!(trace, vec![Action::Run, Action::Prompt]);
    assert!(declined);
}

#[test]
fn exhausted_stream_keeps_waiting() {
    let events = vec![press(KeyCode::Char('x')), release(KeyCode::Enter)];
    let (trace, declined) = run_session(false, &events);
    assert_eq!(trace, vec![Action::Run, Action::Prompt]);
    assert!(!declined);
}

#[test]
fn events_after_decline_are_ignored() {
    let events = vec![press(KeyCode::Char('q')), press(KeyCode::Enter)];
    let (trace, declined) = run_session(false, &events);
    assert_eq!(trace, vec![Action::Run, Action::Prompt]);
    assert!(declined);
}
