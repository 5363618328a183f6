use vstd::prelude::*;

verus! {

/// The pages of the installer window.
#[derive(Debug, Clone, Copy, PartialEq, Eq, Structural)]
pub enum Page {
    Welcome,
    Options,
    Complete,
    Uninstall,
}

/// The direction in which the page stack slides to the next page.
#[derive(Debug, Clone, Copy, PartialEq, Eq, Structural)]
pub enum Slide {
    Left,
    Right,
}

/// Where a long operation (installing or uninstalling) stands.
#[derive(Debug, Clone, Copy, PartialEq, Eq, Structural)]
pub enum Phase {
    /// Not started, or failed and ready to be tried again.
    Idle,
    /// Running on a worker thread.
    Running,
    /// Finished successfully; the button is not handed back.
    Done,
}

/// The text on the Install button.
#[derive(Debug, Clone, Copy, PartialEq, Eq, Structural)]
pub enum InstallLabel {
    Install,
    Installing,
}

/// The text on the Uninstall button.
#[derive(Debug, Clone, Copy, PartialEq, Eq, Structural)]
pub enum UninstallLabel {
    Uninstall,
    Uninstalling,
}

/// A message box that the installer shows.
#[derive(Debug, PartialEq, Eq)]
pub enum Notice {
    /// "Installation failed", with the error text.
    InstallFailed(String),
    /// "Meow Simulator is still running": its files are held by another process.
    StillRunning,
    /// "Uninstallation failed", with the error text.
    UninstallFailed(String),
    /// "Meow Simulator has been uninstalled."; closing it closes the window.
    Uninstalled,
}

/// What the window reports to the installer's logic.
#[derive(Debug, PartialEq, Eq)]
pub enum WizardEvent {
    /// The Next button on the welcome page.
    Next,
    /// The Previous button on the options page.
    Previous,
    /// The Install button, with the chosen folder and the two shortcut boxes.
    Install { dest: String, desktop: bool, startmenu: bool },
    /// The install worker ended, with its error if it failed.
    InstallFinished { error: Option<String> },
    /// The Uninstall button; `locked` tells whether another process holds the
    /// installed files.
    Uninstall { locked: bool },
    /// The uninstall worker ended, with its error if it failed;
    /// `running_from_temp` tells whether this installer runs from a copy in the
    /// temporary directory.
    UninstallFinished { error: Option<String>, running_from_temp: bool },
    /// The Finish button, with the folder in the location entry.
    Finish { dest: String },
}

/// What the window is to do in answer.
#[derive(Debug, PartialEq, Eq)]
pub enum WizardAction {
    /// Slide the page stack to `page`.
    ShowPage { page: Page, slide: Slide },
    /// Install into `dest` on a worker thread, then report `InstallFinished`.
    StartInstall { dest: String, desktop: bool, startmenu: bool },
    /// Uninstall from `dir` on a worker thread, then report `UninstallFinished`.
    StartUninstall { dir: String },
    /// Show a message box; when `close_after`, close the window once it is answered.
    Notify { notice: Notice, close_after: bool },
    /// Have the temporary copy of the installer deleted once this process ends.
    ScheduleTempCleanup,
    /// Start the installed program from `dir`.
    LaunchApp { dir: String },
    /// Close the installer window.
    CloseWindow,
}

/// The installer window: which page shows, how its two operation buttons look,
/// and where each operation stands.
#[derive(Debug, PartialEq, Eq)]
pub struct Wizard {
    pub page: Page,
    /// The install location found in the registry at start, if any; only then
    /// does the Uninstall button act.
    pub existing: Option<String>,
    pub install_label: InstallLabel,
    pub install_sensitive: bool,
    pub previous_sensitive: bool,
    pub install: Phase,
    pub uninstall_label: UninstallLabel,
    pub uninstall_sensitive: bool,
    pub uninstall: Phase,
}

impl Wizard {
    /// The buttons tell the truth: each operation button reads its busy text
    /// and is disabled (and, for installing, so is Previous) exactly while its
    /// operation runs or after it has succeeded.
    pub open spec fn wf(self) -> bool {
        &&& (self.install_label == InstallLabel::Installing) == (self.install != Phase::Idle)
        &&& self.install_sensitive == (self.install == Phase::Idle)
        &&& self.previous_sensitive == (self.install == Phase::Idle)
        &&& (self.uninstall_label == UninstallLabel::Uninstalling) == (self.uninstall
            != Phase::Idle)
        &&& self.uninstall_sensitive == (self.uninstall == Phase::Idle)
    }

    /// The window as it opens: on the uninstall page where an install exists,
    /// else on the welcome page, with nothing running.
    pub open spec fn initial(existing: Option<String>) -> Wizard {
        Wizard {
            page: if existing is Some {
                Page::Uninstall
            } else {
                Page::Welcome
            },
            existing,
            install_label: InstallLabel::Install,
            install_sensitive: true,
            previous_sensitive: true,
            install: Phase::Idle,
            uninstall_label: UninstallLabel::Uninstall,
            uninstall_sensitive: true,
            uninstall: Phase::Idle,
        }
    }

    /// The window after `e`, and what it is to do.
    pub open spec fn step(self, e: WizardEvent) -> (Wizard, Seq<WizardAction>) {
        match e {
            WizardEvent::Next => (
                Wizard { page: Page::Options, ..self },
                seq![WizardAction::ShowPage { page: Page::Options, slide: Slide::Left }],
            ),
            WizardEvent::Previous => if self.previous_sensitive {
                (
                    Wizard { page: Page::Welcome, ..self },
                    seq![WizardAction::ShowPage { page: Page::Welcome, slide: Slide::Right }],
                )
            } else {
                (self, Seq::empty())
            },
            WizardEvent::Install { dest, desktop, startmenu } => if self.install_sensitive {
                (
                    Wizard {
                        install_label: InstallLabel::Installing,
                        install_sensitive: false,
                        previous_sensitive: false,
                        install: Phase::Running,
                        ..self
                    },
                    seq![WizardAction::StartInstall { dest, desktop, startmenu }],
                )
            } else {
                (self, Seq::empty())
            },
            WizardEvent::InstallFinished { error } => if self.install == Phase::Running {
                match error {
                    None => (
                        Wizard { page: Page::Complete, install: Phase::Done, ..self },
                        seq![WizardAction::ShowPage { page: Page::Complete, slide: Slide::Left }],
                    ),
                    Some(msg) => (
                        Wizard {
                            install_label: InstallLabel::Install,
                            install_sensitive: true,
                            previous_sensitive: true,
                            install: Phase::Idle,
                            ..self
                        },
                        seq![
                            WizardAction::Notify {
                                notice: Notice::InstallFailed(msg),
                                close_after: false,
                            },
                        ],
                    ),
                }
            } else {
                (self, Seq::empty())
            },
            WizardEvent::Uninstall { locked } => match self.existing {
                Some(dir) => if !self.uninstall_sensitive {
                    (self, Seq::empty())
                } else if locked {
                    (
                        self,
                        seq![WizardAction::Notify { notice: Notice::StillRunning, close_after: false }],
                    )
                } else {
                    (
                        Wizard {
                            uninstall_label: UninstallLabel::Uninstalling,
                            uninstall_sensitive: false,
                            uninstall: Phase::Running,
                            ..self
                        },
                        seq![WizardAction::StartUninstall { dir }],
                    )
                },
                None => (self, Seq::empty()),
            },
            WizardEvent::UninstallFinished { error, running_from_temp } => if self.uninstall
                == Phase::Running {
                match error {
                    None => (
                        Wizard { uninstall: Phase::Done, ..self },
                        if running_from_temp {
                            seq![
                                WizardAction::ScheduleTempCleanup,
                                WizardAction::Notify { notice: Notice::Uninstalled, close_after: true },
                            ]
                        } else {
                            seq![WizardAction::Notify { notice: Notice::Uninstalled, close_after: true }]
                        },
                    ),
                    Some(msg) => (
                        Wizard {
                            uninstall_label: UninstallLabel::Uninstall,
                            uninstall_sensitive: true,
                            uninstall: Phase::Idle,
                            ..self
                        },
                        seq![
                            WizardAction::Notify {
                                notice: Notice::UninstallFailed(msg),
                                close_after: false,
                            },
                        ],
                    ),
                }
            } else {
                (self, Seq::empty())
            },
            WizardEvent::Finish { dest } => (
                self,
                seq![WizardAction::LaunchApp { dir: dest }, WizardAction::CloseWindow],
            ),
        }
    }

    /// The window as it opens.
    pub fn new(existing: Option<String>) -> (w: Wizard)
        ensures
            w == Wizard::initial(existing),
            w.wf(),
    {
        let page = if existing.is_some() {
            Page::Uninstall
        } else {
            Page::Welcome
        };
        Wizard {
            page,
            existing,
            install_label: InstallLabel::Install,
            install_sensitive: true,
            previous_sensitive: true,
            install: Phase::Idle,
            uninstall_label: UninstallLabel::Uninstall,
            uninstall_sensitive: true,
            uninstall: Phase::Idle,
        }
    }

    /// Takes in one event from the window and says what the window is to do.
    pub fn handle(&mut self, e: WizardEvent) -> (actions: Vec<WizardAction>)
        ensures
            (*final(self), actions@) == old(self).step(e),
    {
        match e {
            WizardEvent::Next => {
                self.page = Page::Options;
                vec![WizardAction::ShowPage { page: Page::Options, slide: Slide::Left }]
            },
            WizardEvent::Previous => {
                if self.previous_sensitive {
                    self.page = Page::Welcome;
                    vec![WizardAction::ShowPage { page: Page::Welcome, slide: Slide::Right }]
                } else {
                    Vec::new()
                }
            },
            WizardEvent::Install { dest, desktop, startmenu } => {
                if self.install_sensitive {
                    self.install_label = InstallLabel::Installing;
                    self.install_sensitive = false;
                    self.previous_sensitive = false;
                    self.install = Phase::Running;
                    vec![WizardAction::StartInstall { dest, desktop, startmenu }]
                } else {
                    Vec::new()
                }
            },
            WizardEvent::InstallFinished { error } => {
                if self.install == Phase::Running {
                    match error {
                        None => {
                            self.page = Page::Complete;
                            self.install = Phase::Done;
                            vec![WizardAction::ShowPage { page: Page::Complete, slide: Slide::Left }]
                        },
                        Some(msg) => {
                            self.install_label = InstallLabel::Install;
                            self.install_sensitive = true;
                            self.previous_sensitive = true;
                            self.install = Phase::Idle;
                            vec![
                                WizardAction::Notify {
                                    notice: Notice::InstallFailed(msg),
                                    close_after: false,
                                },
                            ]
                        },
                    }
                } else {
                    Vec::new()
                }
            },
            WizardEvent::Uninstall { locked } => {
                match &self.existing {
                    Some(dir) => {
                        if !self.uninstall_sensitive {
                            Vec::new()
                        } else if locked {
                            vec![
                                WizardAction::Notify {
                                    notice: Notice::StillRunning,
                                    close_after: false,
                                },
                            ]
                        } else {
                            let dir = dir.clone();
                            self.uninstall_label = UninstallLabel::Uninstalling;
                            self.uninstall_sensitive = false;
                            self.uninstall = Phase::Running;
                            vec![WizardAction::StartUninstall { dir }]
                        }
                    },
                    None => Vec::new(),
                }
            },
            WizardEvent::UninstallFinished { error, running_from_temp } => {
                if self.uninstall == Phase::Running {
                    match error {
                        None => {
                            self.uninstall = Phase::Done;
                            if running_from_temp {
                                vec![
                                    WizardAction::ScheduleTempCleanup,
                                    WizardAction::Notify {
                                        notice: Notice::Uninstalled,
                                        close_after: true,
                                    },
                                ]
                            } else {
                                vec![
                                    WizardAction::Notify {
                                        notice: Notice::Uninstalled,
                                        close_after: true,
                                    },
                                ]
                            }
                        },
                        Some(msg) => {
                            self.uninstall_label = UninstallLabel::Uninstall;
                            self.uninstall_sensitive = true;
                            self.uninstall = Phase::Idle;
                            vec![
                                WizardAction::Notify {
                                    notice: Notice::UninstallFailed(msg),
                                    close_after: false,
                                },
                            ]
                        },
                    }
                } else {
                    Vec::new()
                }
            },
            WizardEvent::Finish { dest } => {
                vec![WizardAction::LaunchApp { dir: dest }, WizardAction::CloseWindow]
            },
        }
    }
}

/// Every event keeps the buttons truthful: what `wf` states of the window
/// before an event, it states of the window after it.
pub proof fn buttons_stay_truthful(s: Wizard, e: WizardEvent)
    requires
        s.wf(),
    ensures
        s.step(e).0.wf(),
{
}

/// The text on the Install button.
pub fn install_label_text(label: InstallLabel) -> (text: &'static str)
    ensures
        text@ == (match label {
            InstallLabel::Install => "Install"@,
            InstallLabel::Installing => "Installing..."@,
        }),
{
    match label {
        InstallLabel::Install => "Install",
        InstallLabel::Installing => "Installing...",
    }
}

/// The text on the Uninstall button.
pub fn uninstall_label_text(label: UninstallLabel) -> (text: &'static str)
    ensures
        text@ == (match label {
            UninstallLabel::Uninstall => "Uninstall"@,
            UninstallLabel::Uninstalling => "Uninstalling..."@,
        }),
{
    match label {
        UninstallLabel::Uninstall => "Uninstall",
        UninstallLabel::Uninstalling => "Uninstalling...",
    }
}

/// The heading of a message box.
pub fn notice_message(notice: &Notice) -> (text: &'static str)
    ensures
        text@ == (match notice {
            Notice::InstallFailed(_) => "Installation failed"@,
            Notice::StillRunning => "Meow Simulator is still running"@,
            Notice::UninstallFailed(_) => "Uninstallation failed"@,
            Notice::Uninstalled => "Meow Simulator has been uninstalled."@,
        }),
{
    match notice {
        Notice::InstallFailed(_) => "Installation failed",
        Notice::StillRunning => "Meow Simulator is still running",
        Notice::UninstallFailed(_) => "Uninstallation failed",
        Notice::Uninstalled => "Meow Simulator has been uninstalled.",
    }
}

/// The detail line of a message box, where it has one: the error of a failed
/// operation, or what to do about a running program.
pub fn notice_detail(notice: &Notice) -> (text: Option<String>)
    ensures
        match notice {
            Notice::InstallFailed(e) => text matches Some(t) && t@ == e@,
            Notice::UninstallFailed(e) => text matches Some(t) && t@ == e@,
            Notice::StillRunning => text matches Some(t) && t@
                == "Please close Meow Simulator before uninstalling."@,
            Notice::Uninstalled => text is None,
        },
{
    match notice {
        Notice::InstallFailed(e) => Some(e.clone()),
        Notice::UninstallFailed(e) => Some(e.clone()),
        Notice::StillRunning => Some(
            String::from_str("Please close Meow Simulator before uninstalling."),
        ),
        Notice::Uninstalled => None,
    }
}

/// A failed install puts the window back exactly as it was before Install was
/// clicked, and says why in a message box.
pub proof fn failed_install_undoes_click(
    s: Wizard,
    dest: String,
    desktop: bool,
    startmenu: bool,
    error: String,
)
    requires
        s.wf(),
        s.install == Phase::Idle,
    ensures
        ({
            let (t, started) = s.step(WizardEvent::Install { dest, desktop, startmenu });
            let (u, told) = t.step(WizardEvent::InstallFinished { error: Some(error) });
            &&& started == seq![WizardAction::StartInstall { dest, desktop, startmenu }]
            &&& u == s
            &&& told == seq![
                WizardAction::Notify { notice: Notice::InstallFailed(error), close_after: false },
            ]
        }),
{
}

/// A failed uninstall puts the window back exactly as it was before Uninstall
/// was clicked, and says why in a message box.
pub proof fn failed_uninstall_undoes_click(s: Wizard, error: String, running_from_temp: bool)
    requires
        s.wf(),
        s.uninstall == Phase::Idle,
        s.existing is Some,
    ensures
        ({
            let (t, started) = s.step(WizardEvent::Uninstall { locked: false });
            let (u, told) = t.step(
                WizardEvent::UninstallFinished { error: Some(error), running_from_temp },
            );
            &&& started == seq![WizardAction::StartUninstall { dir: s.existing->0 }]
            &&& u == s
            &&& told == seq![
                WizardAction::Notify { notice: Notice::UninstallFailed(error), close_after: false },
            ]
        }),
{
}

/// Uninstall refused because the program still runs leaves the window as it
/// was and only says so.
pub proof fn locked_uninstall_changes_nothing(s: Wizard)
    requires
        s.wf(),
        s.uninstall == Phase::Idle,
        s.existing is Some,
    ensures
        s.step(WizardEvent::Uninstall { locked: true }) == (
            s,
            seq![WizardAction::Notify { notice: Notice::StillRunning, close_after: false }],
        ),
{
}

/// The Complete page is reached only by an install that ran and succeeded.
pub proof fn complete_only_after_success(s: Wizard, e: WizardEvent)
    requires
        s.page != Page::Complete,
        s.step(e).0.page == Page::Complete,
    ensures
        s.install == Phase::Running,
        e == (WizardEvent::InstallFinished { error: None }),
{
}

/// While an operation runs or after it has succeeded, clicking its button
/// again starts nothing and changes nothing.
pub proof fn busy_buttons_start_nothing(s: Wizard, e: WizardEvent)
    requires
        s.wf(),
        (s.install != Phase::Idle && e is Install) || (s.uninstall != Phase::Idle && e is Uninstall),
    ensures
        s.step(e) == (s, Seq::<WizardAction>::empty()),
{
}

/// Once an operation has succeeded it stays so, whatever comes next.
pub proof fn success_is_final(s: Wizard, e: WizardEvent)
    requires
        s.wf(),
    ensures
        s.install == Phase::Done ==> s.step(e).0.install == Phase::Done,
        s.uninstall == Phase::Done ==> s.step(e).0.uninstall == Phase::Done,
{
}

/// Next then Previous, while no install runs, comes back to the welcome page
/// with nothing else changed.
pub proof fn next_then_previous_returns(s: Wizard)
    requires
        s.wf(),
        s.install == Phase::Idle,
        s.page == Page::Welcome,
    ensures
        s.step(WizardEvent::Next).0.step(WizardEvent::Previous).0 == s,
{
}

/// Next always brings the options page, sliding left, and changes nothing else.
pub proof fn next_shows_options(s: Wizard)
    ensures
        s.step(WizardEvent::Next) == (
            Wizard { page: Page::Options, ..s },
            seq![WizardAction::ShowPage { page: Page::Options, slide: Slide::Left }],
        ),
{
}

/// Previous brings the welcome page back, sliding right, and changes nothing
/// else; while an install runs (Previous disabled) it does nothing.
pub proof fn previous_shows_welcome(s: Wizard)
    ensures
        s.previous_sensitive ==> s.step(WizardEvent::Previous) == (
            Wizard { page: Page::Welcome, ..s },
            seq![WizardAction::ShowPage { page: Page::Welcome, slide: Slide::Right }],
        ),
        !s.previous_sensitive ==> s.step(WizardEvent::Previous) == (
            s,
            Seq::<WizardAction>::empty(),
        ),
{
}

/// Install, when it can be clicked, starts installing into the chosen folder
/// with the chosen shortcuts, and disables Install (reading "Installing...")
/// and Previous; the rest of the window stays as it was.
pub proof fn install_click_starts_install(s: Wizard, dest: String, desktop: bool, startmenu: bool)
    requires
        s.wf(),
        s.install == Phase::Idle,
    ensures
        s.step(WizardEvent::Install { dest, desktop, startmenu }) == (
            Wizard {
                install_label: InstallLabel::Installing,
                install_sensitive: false,
                previous_sensitive: false,
                install: Phase::Running,
                ..s
            },
            seq![WizardAction::StartInstall { dest, desktop, startmenu }],
        ),
{
}

/// A running install that succeeds brings the Complete page, sliding left, and
/// is done; the buttons stay as they were.
pub proof fn install_success_completes(s: Wizard)
    requires
        s.install == Phase::Running,
    ensures
        s.step(WizardEvent::InstallFinished { error: None }) == (
            Wizard { page: Page::Complete, install: Phase::Done, ..s },
            seq![WizardAction::ShowPage { page: Page::Complete, slide: Slide::Left }],
        ),
{
}

/// A result that no running operation waits for changes nothing and does nothing.
pub proof fn stray_results_ignored(s: Wizard, e: WizardEvent)
    requires
        (e is InstallFinished && s.install != Phase::Running) || (e is UninstallFinished
            && s.uninstall != Phase::Running),
    ensures
        s.step(e) == (s, Seq::<WizardAction>::empty()),
{
}

/// Uninstall, when it can be clicked and no other process holds the files,
/// starts removing the install that was found, and disables Uninstall
/// (reading "Uninstalling..."); the rest of the window stays as it was.
pub proof fn uninstall_click_starts_uninstall(s: Wizard)
    requires
        s.wf(),
        s.uninstall == Phase::Idle,
        s.existing is Some,
    ensures
        s.step(WizardEvent::Uninstall { locked: false }) == (
            Wizard {
                uninstall_label: UninstallLabel::Uninstalling,
                uninstall_sensitive: false,
                uninstall: Phase::Running,
                ..s
            },
            seq![WizardAction::StartUninstall { dir: s.existing->0 }],
        ),
{
}

/// Without an install to remove, the Uninstall button does nothing.
pub proof fn uninstall_needs_an_install(s: Wizard, locked: bool)
    requires
        s.existing is None,
    ensures
        s.step(WizardEvent::Uninstall { locked }) == (s, Seq::<WizardAction>::empty()),
{
}

/// A running uninstall that succeeds is done; it has the temporary copy of the
/// installer cleaned up when running from one, and then says that Meow
/// Simulator has been uninstalled, closing the window once that is answered.
pub proof fn uninstall_success_notifies(s: Wizard, running_from_temp: bool)
    requires
        s.uninstall == Phase::Running,
    ensures
        s.step(WizardEvent::UninstallFinished { error: None, running_from_temp }) == (
            Wizard { uninstall: Phase::Done, ..s },
            (if running_from_temp {
                seq![WizardAction::ScheduleTempCleanup]
            } else {
                Seq::<WizardAction>::empty()
            }) + seq![WizardAction::Notify { notice: Notice::Uninstalled, close_after: true }],
        ),
{
    let cleanup: Seq<WizardAction> = if running_from_temp {
        seq![WizardAction::ScheduleTempCleanup]
    } else {
        Seq::<WizardAction>::empty()
    };
    assert(s.step(WizardEvent::UninstallFinished { error: None, running_from_temp }).1 =~= cleanup
        + seq![WizardAction::Notify { notice: Notice::Uninstalled, close_after: true }]);
}

/// Finish starts the installed program from the folder in the location entry,
/// whatever that folder is, then closes the window; nothing else changes.
pub proof fn finish_launches_then_closes(s: Wizard, dest: String)
    ensures
        s.step(WizardEvent::Finish { dest }) == (
            s,
            seq![WizardAction::LaunchApp { dir: dest }, WizardAction::CloseWindow],
        ),
{
}

/// The window opens on the uninstall page exactly when an install was found,
/// and on the welcome page otherwise, with both buttons ready and nothing running.
pub proof fn opening_window(existing: Option<String>)
    ensures
        ({
            let w = Wizard::initial(existing);
            &&& (w.page == Page::Uninstall) == (existing is Some)
            &&& (w.page == Page::Welcome) == (existing is None)
            &&& w.existing == existing
            &&& w.install == Phase::Idle && w.uninstall == Phase::Idle
            &&& w.install_label == InstallLabel::Install
            &&& w.uninstall_label == UninstallLabel::Uninstall
            &&& w.install_sensitive && w.previous_sensitive && w.uninstall_sensitive
        }),
{
}

} // verus!
