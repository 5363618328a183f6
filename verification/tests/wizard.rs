use meow_simulator::wizard::{
    install_label_text, notice_detail, notice_message, uninstall_label_text, InstallLabel,
    Notice, Page, Phase, Slide, UninstallLabel, Wizard, WizardAction, WizardEvent,
};

fn install_event() -> WizardEvent {
    WizardEvent::Install { dest: "C:\\Meow".to_string(), desktop: true, startmenu: false }
}

#[test]
fn opens_on_welcome_without_install() {
    let w = Wizard::new(None);
    assert_eq!(w.page, Page::Welcome);
    assert_eq!(w.install_label, InstallLabel::Install);
    assert!(w.install_sensitive && w.previous_sensitive && w.uninstall_sensitive);
    assert_eq!(w.install, Phase::Idle);
    assert_eq!(w.uninstall, Phase::Idle);
}

#[test]
fn opens_on_uninstall_with_install() {
    let w = Wizard::new(Some("C:\\Meow".to_string()));
    assert_eq!(w.page, Page::Uninstall);
}

#[test]
fn next_and_previous_navigate() {
    let mut w = Wizard::new(None);
    assert_eq!(
        w.handle(WizardEvent::Next),
        vec![WizardAction::ShowPage { page: Page::Options, slide: Slide::Left }]
    );
    assert_eq!(w.page, Page::Options);
    assert_eq!(
        w.handle(WizardEvent::Previous),
        vec![WizardAction::ShowPage { page: Page::Welcome, slide: Slide::Right }]
    );
    assert_eq!(w, Wizard::new(None));
}

#[test]
fn successful_install_reaches_complete() {
    let mut w = Wizard::new(None);
    w.handle(WizardEvent::Next);
    assert_eq!(
        w.handle(install_event()),
        vec![WizardAction::StartInstall { dest: "C:\\Meow".to_string(), desktop: true, startmenu: false }]
    );
    assert_eq!(w.install_label, InstallLabel::Installing);
    assert!(!w.install_sensitive && !w.previous_sensitive);
    assert_eq!(w.install, Phase::Running);
    assert_eq!(w.handle(install_event()), vec![]);
    assert_eq!(w.handle(WizardEvent::Previous), vec![]);
    assert_eq!(w.page, Page::Options);
    assert_eq!(
        w.handle(WizardEvent::InstallFinished { error: None }),
        vec![WizardAction::ShowPage { page: Page::Complete, slide: Slide::Left }]
    );
    assert_eq!(w.page, Page::Complete);
    assert_eq!(w.install, Phase::Done);
    assert_eq!(
        w.handle(WizardEvent::Finish { dest: "C:\\Meow".to_string() }),
        vec![WizardAction::LaunchApp { dir: "C:\\Meow".to_string() }, WizardAction::CloseWindow]
    );
}

#[test]
fn failed_install_restores_window() {
    let mut w = Wizard::new(None);
    w.handle(WizardEvent::Next);
    let before = Wizard::new(None);
    let mut before = before;
    before.handle(WizardEvent::Next);
    w.handle(install_event());
    assert_eq!(
        w.handle(WizardEvent::InstallFinished { error: Some("Access is denied.".to_string()) }),
        vec![WizardAction::Notify {
            notice: Notice::InstallFailed("Access is denied.".to_string()),
            close_after: false
        }]
    );
    assert_eq!(w, before);
}

#[test]
fn finished_without_running_is_ignored() {
    let mut w = Wizard::new(None);
    assert_eq!(w.handle(WizardEvent::InstallFinished { error: None }), vec![]);
    assert_eq!(w.handle(WizardEvent::UninstallFinished { error: None, running_from_temp: false }), vec![]);
    assert_eq!(w, Wizard::new(None));
}

#[test]
fn uninstall_refused_while_running() {
    let mut w = Wizard::new(Some("C:\\Meow".to_string()));
    assert_eq!(
        w.handle(WizardEvent::Uninstall { locked: true }),
        vec![WizardAction::Notify { notice: Notice::StillRunning, close_after: false }]
    );
    assert_eq!(w, Wizard::new(Some("C:\\Meow".to_string())));
}

#[test]
fn uninstall_without_install_does_nothing() {
    let mut w = Wizard::new(None);
    assert_eq!(w.handle(WizardEvent::Uninstall { locked: false }), vec![]);
    assert_eq!(w, Wizard::new(None));
}

#[test]
fn successful_uninstall_from_temp() {
    let mut w = Wizard::new(Some("C:\\Meow".to_string()));
    assert_eq!(
        w.handle(WizardEvent::Uninstall { locked: false }),
        vec![WizardAction::StartUninstall { dir: "C:\\Meow".to_string() }]
    );
    assert_eq!(w.uninstall_label, UninstallLabel::Uninstalling);
    assert!(!w.uninstall_sensitive);
    assert_eq!(w.handle(WizardEvent::Uninstall { locked: false }), vec![]);
    assert_eq!(
        w.handle(WizardEvent::UninstallFinished { error: None, running_from_temp: true }),
        vec![
            WizardAction::ScheduleTempCleanup,
            WizardAction::Notify { notice: Notice::Uninstalled, close_after: true },
        ]
    );
    assert_eq!(w.uninstall, Phase::Done);
    assert_eq!(w.uninstall_label, UninstallLabel::Uninstalling);
}

#[test]
fn successful_uninstall_not_from_temp() {
    let mut w = Wizard::new(Some("C:\\Meow".to_string()));
    w.handle(WizardEvent::Uninstall { locked: false });
    assert_eq!(
        w.handle(WizardEvent::UninstallFinished { error: None, running_from_temp: false }),
        vec![WizardAction::Notify { notice: Notice::Uninstalled, close_after: true }]
    );
}

#[test]
fn failed_uninstall_restores_window() {
    let mut w = Wizard::new(Some("C:\\Meow".to_string()));
    w.handle(WizardEvent::Uninstall { locked: false });
    assert_eq!(
        w.handle(WizardEvent::UninstallFinished { error: Some("in use".to_string()), running_from_temp: true }),
        vec![WizardAction::Notify { notice: Notice::UninstallFailed("in use".to_string()), close_after: false }]
    );
    assert_eq!(w, Wizard::new(Some("C:\\Meow".to_string())));
}

#[test]
fn texts_of_buttons_and_notices() {
    assert_eq!(install_label_text(InstallLabel::Install), "Install");
    assert_eq!(install_label_text(InstallLabel::Installing), "Installing...");
    assert_eq!(uninstall_label_text(UninstallLabel::Uninstall), "Uninstall");
    assert_eq!(uninstall_label_text(UninstallLabel::Uninstalling), "Uninstalling...");
    let failed = Notice::InstallFailed("disk full".to_string());
    assert_eq!(notice_message(&failed), "Installation failed");
    assert_eq!(notice_detail(&failed), Some("disk full".to_string()));
    assert_eq!(notice_message(&Notice::StillRunning), "Meow Simulator is still running");
    assert_eq!(
        notice_detail(&Notice::StillRunning),
        Some("Please close Meow Simulator before uninstalling.".to_string())
    );
    let ufailed = Notice::UninstallFailed("busy".to_string());
    assert_eq!(notice_message(&ufailed), "Uninstallation failed");
    assert_eq!(notice_detail(&ufailed), Some("busy".to_string()));
    assert_eq!(notice_message(&Notice::Uninstalled), "Meow Simulator has been uninstalled.");
    assert_eq!(notice_detail(&Notice::Uninstalled), None);
}
