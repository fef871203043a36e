use greeter::lifecycle::{step, Action, HostEvent, Lifecycle};
use greeter::shell::{fatal_message, plugins, App, Plugin};

#[test]
fn transition_table() {
    assert_eq!(step(Lifecycle::NotRunning, HostEvent::Started), (Lifecycle::Running, Action::Continue));
    assert_eq!(step(Lifecycle::NotRunning, HostEvent::Failed), (Lifecycle::NotRunning, Action::Abort));
    assert_eq!(step(Lifecycle::Running, HostEvent::Started), (Lifecycle::Running, Action::Continue));
    assert_eq!(step(Lifecycle::Running, HostEvent::Failed), (Lifecycle::Terminated, Action::Abort));
    assert_eq!(step(Lifecycle::Terminated, HostEvent::Started), (Lifecycle::Terminated, Action::Abort));
    assert_eq!(step(Lifecycle::Terminated, HostEvent::Failed), (Lifecycle::Terminated, Action::Abort));
}

#[test]
fn working_host_runs_once() {
    let mut app = App::new();
    assert_eq!(app.lifecycle, Lifecycle::NotRunning);
    assert_eq!(app.handle(HostEvent::Started), Action::Continue);
    assert_eq!(app.lifecycle, Lifecycle::Running);
    assert_eq!(app.handle(HostEvent::Started), Action::Continue);
    assert_eq!(app.lifecycle, Lifecycle::Running);
    assert_eq!(app.handle(HostEvent::Failed), Action::Abort);
    assert_eq!(app.lifecycle, Lifecycle::Terminated);
    assert_eq!(app.handle(HostEvent::Started), Action::Abort);
    assert_eq!(app.lifecycle, Lifecycle::Terminated);
}

#[test]
fn running_app_dispatches_greet() {
    let mut app = App::new();
    app.handle(HostEvent::Started);
    assert_eq!(
        app.dispatch("greet", "World"),
        Some("Hello, World! You've been greeted from Rust!".to_string())
    );
    assert_eq!(app.dispatch("greet", "World"), app.dispatch("greet", "World"));
    assert_eq!(app.lifecycle, Lifecycle::Running);
    assert_eq!(app.dispatch("farewell", "World"), None);
}

#[test]
fn app_before_start_dispatches_nothing() {
    let app = App::new();
    assert_eq!(app.dispatch("greet", "World"), None);
}

#[test]
fn failed_host_aborts_and_dispatches_nothing() {
    let mut app = App::new();
    assert_eq!(app.handle(HostEvent::Failed), Action::Abort);
    assert_eq!(app.lifecycle, Lifecycle::NotRunning);
    assert_eq!(app.dispatch("greet", "World"), None);
    assert_eq!(app.dispatch("greet", ""), None);
}

#[test]
fn plugins_in_order() {
    assert_eq!(plugins(), vec![Plugin::Opener, Plugin::Updater]);
}

#[test]
fn fatal_diagnostic_text() {
    assert_eq!(fatal_message(), "error while running tauri application");
}
