//! The life of the application shell, from start-up to exit, as a state
//! machine: the runtime reports what happened, the shell says what to do next.
use vstd::prelude::*;

use crate::menu::{menu_action, quit_id, MenuAction, TrayMenu};

verus! {

/// The status a process ends with when start-up or the runtime fails.
pub const FATAL_STATUS: i32 = 1;

/// Where the shell stands.
#[derive(PartialEq, Eq, Structural, Clone, Copy, Debug)]
pub enum Phase {
    /// Nothing built yet.
    Starting,
    /// The tray menu was asked for.
    BuildingMenu,
    /// The menu exists; the tray icon was asked for.
    BuildingTray,
    /// Setup is complete: the runtime dispatches tray events.
    Running,
    /// The quit item was chosen: the process ends with this status.
    Exited(i32),
    /// Start-up or the runtime failed: the process ends with a fatal status.
    Aborted,
}

/// What the runtime reports to the shell.
pub enum Event {
    /// The runtime calls the setup hook.
    Setup,
    /// What the last directive asked for was built.
    Built,
    /// Building something, or the runtime itself, failed, for this reason.
    Failed(String),
    /// The tray menu item with this identifier was selected.
    MenuSelected(String),
}

/// What the shell asks of the runtime.
pub enum Directive {
    /// Create these items and a menu that holds them.
    BuildMenu(TrayMenu),
    /// Build the tray icon, attached to the menu.
    BuildTray,
    /// Setup is done; hand control to the event loop.
    SetupDone,
    /// End the process with this status.
    Exit(i32),
    /// End the process with a fatal status, reporting this message.
    Abort(String),
    /// Nothing to do.
    Idle,
}

/// Whether `p` is a phase after which the process ends.
pub open spec fn is_terminal(p: Phase) -> bool {
    p is Exited || p is Aborted
}

/// The phase after event `e` in phase `p`.
pub open spec fn next_phase(p: Phase, e: Event) -> Phase {
    match e {
        Event::Setup => if p == Phase::Starting { Phase::BuildingMenu } else { p },
        Event::Built => match p {
            Phase::BuildingMenu => Phase::BuildingTray,
            Phase::BuildingTray => Phase::Running,
            _ => p,
        },
        Event::Failed(_) => if is_terminal(p) { p } else { Phase::Aborted },
        Event::MenuSelected(id) => if p == Phase::Running && id@ == quit_id() {
            Phase::Exited(0)
        } else {
            p
        },
    }
}

/// Whether `d` is the directive for event `e` in phase `p`.
pub open spec fn directs(p: Phase, e: Event, d: Directive) -> bool {
    match e {
        Event::Setup => if p == Phase::Starting {
            d matches Directive::BuildMenu(m) && m.wf() && m@.len() == 1 && m@[0].id@ == quit_id()
                && m@[0].enabled
        } else {
            d is Idle
        },
        Event::Built => match p {
            Phase::BuildingMenu => d is BuildTray,
            Phase::BuildingTray => d is SetupDone,
            _ => d is Idle,
        },
        Event::Failed(msg) => if is_terminal(p) {
            d is Idle
        } else {
            d matches Directive::Abort(m) && m@ == msg@
        },
        Event::MenuSelected(id) => if p == Phase::Running && id@ == quit_id() {
            d == Directive::Exit(0)
        } else {
            d is Idle
        },
    }
}

/// The shell: its phase, and which parts of the tray exist.
pub struct Shell {
    phase: Phase,
    menu_built: bool,
    tray_built: bool,
}

impl Shell {
    pub closed spec fn phase_of(&self) -> Phase {
        self.phase
    }

    /// The tray menu exists.
    pub closed spec fn has_menu(&self) -> bool {
        self.menu_built
    }

    /// The tray icon exists.
    pub closed spec fn has_tray(&self) -> bool {
        self.tray_built
    }

    /// The parts of the tray that exist are those the phase has reached.
    pub open spec fn wf(&self) -> bool {
        &&& (self.phase_of() == Phase::Starting || self.phase_of() == Phase::BuildingMenu)
            ==> !self.has_menu() && !self.has_tray()
        &&& self.phase_of() == Phase::BuildingTray ==> self.has_menu() && !self.has_tray()
        &&& (self.phase_of() == Phase::Running || self.phase_of() is Exited)
            ==> self.has_menu() && self.has_tray()
        &&& self.has_tray() ==> self.has_menu()
    }

    /// A shell that has built nothing yet.
    pub fn new() -> (r: Shell)
        ensures
            r.wf(),
            r.phase_of() == Phase::Starting,
    {
        Shell { phase: Phase::Starting, menu_built: false, tray_built: false }
    }

    /// The current phase.
    pub fn phase(&self) -> (r: Phase)
        ensures
            r == self.phase_of(),
    {
        self.phase
    }

    /// Takes in event `e`: moves to the next phase and says what to do.
    pub fn step(&mut self, e: Event) -> (d: Directive)
        requires
            old(self).wf(),
        ensures
            final(self).wf(),
            final(self).phase_of() == next_phase(old(self).phase_of(), e),
            directs(old(self).phase_of(), e, d),
    {
        match e {
            Event::Setup => {
                if self.phase == Phase::Starting {
                    self.phase = Phase::BuildingMenu;
                    Directive::BuildMenu(TrayMenu::tray())
                } else {
                    Directive::Idle
                }
            },
            Event::Built => match self.phase {
                Phase::BuildingMenu => {
                    self.phase = Phase::BuildingTray;
                    self.menu_built = true;
                    Directive::BuildTray
                },
                Phase::BuildingTray => {
                    self.phase = Phase::Running;
                    self.tray_built = true;
                    Directive::SetupDone
                },
                _ => Directive::Idle,
            },
            Event::Failed(msg) => match self.phase {
                Phase::Exited(_) | Phase::Aborted => Directive::Idle,
                _ => {
                    self.phase = Phase::Aborted;
                    Directive::Abort(msg)
                },
            },
            Event::MenuSelected(id) => {
                if self.phase == Phase::Running {
                    match menu_action(id.as_str()) {
                        MenuAction::Quit => {
                            self.phase = Phase::Exited(0);
                            Directive::Exit(0)
                        },
                        MenuAction::Ignore => Directive::Idle,
                    }
                } else {
                    Directive::Idle
                }
            },
        }
    }
}

/// The status the process ends with under directive `d`, if it ends.
pub open spec fn status_of(d: Directive) -> Option<i32> {
    match d {
        Directive::Exit(c) => Some(c),
        Directive::Abort(_) => Some(FATAL_STATUS),
        _ => None,
    }
}

impl Directive {
    /// The status the process ends with under this directive, if it ends.
    pub fn exit_status(&self) -> (r: Option<i32>)
        ensures
            r == status_of(*self),
    {
        match self {
            Directive::Exit(c) => Some(*c),
            Directive::Abort(_) => Some(FATAL_STATUS),
            _ => None,
        }
    }
}

/// Once setup is done, selecting the quit item ends the process with status
/// 0, and selecting any other item changes nothing and asks for nothing.
pub proof fn lemma_menu_selection(e: Event, d: Directive)
    requires
        e is MenuSelected,
        directs(Phase::Running, e, d),
    ensures
        e->MenuSelected_0@ == quit_id() ==> next_phase(Phase::Running, e) == Phase::Exited(0)
            && status_of(d) == Some(0i32),
        e->MenuSelected_0@ != quit_id() ==> next_phase(Phase::Running, e) == Phase::Running
            && d is Idle && status_of(d) is None,
{
}

/// A menu selection acts only on a shell whose menu and tray icon exist:
/// before setup is done it changes nothing and asks for nothing.
pub proof fn lemma_no_selection_before_setup(s: Shell, e: Event, d: Directive)
    requires
        s.wf(),
        e is MenuSelected,
        directs(s.phase_of(), e, d),
    ensures
        (next_phase(s.phase_of(), e) != s.phase_of() || !(d is Idle)) ==> s.has_menu()
            && s.has_tray(),
        !(s.has_menu() && s.has_tray()) ==> next_phase(s.phase_of(), e) == s.phase_of()
            && d is Idle,
{
}

/// A failure before the process ends aborts it with a non-zero status, and
/// an aborted shell stays aborted and asks for nothing more, whatever follows.
pub proof fn lemma_failure_aborts(p: Phase, e: Event, d: Directive, later: Event, d2: Directive)
    requires
        !is_terminal(p),
        e is Failed,
        directs(p, e, d),
        directs(Phase::Aborted, later, d2),
    ensures
        next_phase(p, e) == Phase::Aborted,
        d is Abort,
        status_of(d) matches Some(c) && c != 0,
        next_phase(Phase::Aborted, later) == Phase::Aborted,
        d2 is Idle,
{
}

} // verus!
