use distri_ui::shell::{Directive, Event, Phase, Shell, FATAL_STATUS};

fn running_shell() -> Shell {
    let mut s = Shell::new();
    assert!(matches!(s.step(Event::Setup), Directive::BuildMenu(_)));
    assert!(matches!(s.step(Event::Built), Directive::BuildTray));
    assert!(matches!(s.step(Event::Built), Directive::SetupDone));
    s
}

#[test]
fn setup_builds_menu_then_tray() {
    let mut s = Shell::new();
    assert_eq!(s.phase(), Phase::Starting);
    match s.step(Event::Setup) {
        Directive::BuildMenu(m) => {
            assert_eq!(m.items().len(), 1);
            assert_eq!(m.items()[0].id, "quit");
            assert_eq!(m.items()[0].label, "Quit");
        }
        _ => panic!("expected the menu to be asked for"),
    }
    assert_eq!(s.phase(), Phase::BuildingMenu);
    assert!(matches!(s.step(Event::Built), Directive::BuildTray));
    assert_eq!(s.phase(), Phase::BuildingTray);
    assert!(matches!(s.step(Event::Built), Directive::SetupDone));
    assert_eq!(s.phase(), Phase::Running);
}

#[test]
fn quit_selection_exits_with_zero() {
    let mut s = running_shell();
    let d = s.step(Event::MenuSelected("quit".to_string()));
    assert!(matches!(d, Directive::Exit(0)));
    assert_eq!(d.exit_status(), Some(0));
    assert_eq!(s.phase(), Phase::Exited(0));
}

#[test]
fn unknown_selection_does_nothing() {
    let mut s = running_shell();
    let d = s.step(Event::MenuSelected("noop".to_string()));
    assert!(matches!(d, Directive::Idle));
    assert_eq!(d.exit_status(), None);
    assert_eq!(s.phase(), Phase::Running);
}

#[test]
fn selection_before_setup_is_ignored() {
    let mut s = Shell::new();
    assert!(matches!(s.step(Event::MenuSelected("quit".to_string())), Directive::Idle));
    assert_eq!(s.phase(), Phase::Starting);
    s.step(Event::Setup);
    assert!(matches!(s.step(Event::MenuSelected("quit".to_string())), Directive::Idle));
    assert_eq!(s.phase(), Phase::BuildingMenu);
    s.step(Event::Built);
    assert!(matches!(s.step(Event::MenuSelected("quit".to_string())), Directive::Idle));
    assert_eq!(s.phase(), Phase::BuildingTray);
}

#[test]
fn tray_failure_aborts_startup() {
    let mut s = Shell::new();
    s.step(Event::Setup);
    s.step(Event::Built);
    let d = s.step(Event::Failed("no tray available".to_string()));
    match &d {
        Directive::Abort(msg) => assert_eq!(msg, "no tray available"),
        _ => panic!("expected an abort"),
    }
    assert_eq!(d.exit_status(), Some(FATAL_STATUS));
    assert_ne!(FATAL_STATUS, 0);
    assert_eq!(s.phase(), Phase::Aborted);
}

#[test]
fn runtime_failure_before_setup_aborts() {
    let mut s = Shell::new();
    let d = s.step(Event::Failed("no display".to_string()));
    assert!(matches!(d, Directive::Abort(_)));
    assert_eq!(s.phase(), Phase::Aborted);
}

#[test]
fn aborted_shell_stays_aborted() {
    let mut s = Shell::new();
    s.step(Event::Failed("no display".to_string()));
    assert!(matches!(s.step(Event::Setup), Directive::Idle));
    assert!(matches!(s.step(Event::Built), Directive::Idle));
    assert!(matches!(s.step(Event::MenuSelected("quit".to_string())), Directive::Idle));
    assert!(matches!(s.step(Event::Failed("again".to_string())), Directive::Idle));
    assert_eq!(s.phase(), Phase::Aborted);
}

#[test]
fn second_setup_is_ignored() {
    let mut s = running_shell();
    assert!(matches!(s.step(Event::Setup), Directive::Idle));
    assert!(matches!(s.step(Event::Built), Directive::Idle));
    assert_eq!(s.phase(), Phase::Running);
}

#[test]
fn exited_shell_ignores_failures() {
    let mut s = running_shell();
    s.step(Event::MenuSelected("quit".to_string()));
    assert!(matches!(s.step(Event::Failed("late".to_string())), Directive::Idle));
    assert_eq!(s.phase(), Phase::Exited(0));
}
