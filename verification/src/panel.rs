//! The three panels of the launcher, what is seen of them on screen, and the
//! steps by which one of them is brought forward or put away.

use vstd::prelude::*;

verus! {

/// One of the three top-level windows.
#[derive(Clone, Copy, Debug, PartialEq, Eq, Structural)]
pub enum Panel {
    Login,
    Main,
    Hosts,
}

impl Panel {
    /// The label under which the window system knows the panel.
    pub open spec fn label_text(self) -> Seq<char> {
        match self {
            Panel::Login => "login"@,
            Panel::Main => "main"@,
            Panel::Hosts => "hosts"@,
        }
    }

    /// The label under which the window system knows the panel.
    pub fn label(self) -> (text: &'static str)
        ensures
            text@ == self.label_text(),
    {
        match self {
            Panel::Login => "login",
            Panel::Main => "main",
            Panel::Hosts => "hosts",
        }
    }

    /// The panel that a label names, if it names one.
    pub fn from_label(label: &str) -> (found: Option<Panel>)
        ensures
            match found {
                Some(panel) => label@ == panel.label_text(),
                None => forall|panel: Panel| label@ != panel.label_text(),
            },
    {
        let given = String::from_str(label);
        if given == String::from_str("login") {
            Some(Panel::Login)
        } else if given == String::from_str("main") {
            Some(Panel::Main)
        } else if given == String::from_str("hosts") {
            Some(Panel::Hosts)
        } else {
            None
        }
    }
}


/// What is seen of one panel.
#[derive(Clone, Copy, Debug, PartialEq, Eq, Structural)]
pub enum Window {
    /// The window system has no such panel.
    Missing,
    Hidden,
    Visible,
}

/// One thing done to a panel, or to the memory of which panel was put away.
#[derive(Clone, Copy, Debug, PartialEq, Eq, Structural)]
pub enum Step {
    Hide(Panel),
    Unminimize(Panel),
    Show(Panel),
    Focus(Panel),
    Close(Panel),
    /// Note the panel as the one that the tray brings back.
    Remember(Panel),
}

/// What is seen of the three panels at one moment.
#[derive(Clone, Copy, Debug, PartialEq, Eq, Structural)]
pub struct Screen {
    pub login: Window,
    pub main: Window,
    pub hosts: Window,
}

impl Screen {
    /// All three panels exist and none is shown.
    pub open spec fn all_hidden() -> Screen {
        Screen { login: Window::Hidden, main: Window::Hidden, hosts: Window::Hidden }
    }

    /// What is seen of one panel.
    pub open spec fn spec_window(self, panel: Panel) -> Window {
        match panel {
            Panel::Login => self.login,
            Panel::Main => self.main,
            Panel::Hosts => self.hosts,
        }
    }

    /// The screen with one panel seen otherwise.
    pub open spec fn with(self, panel: Panel, window: Window) -> Screen {
        match panel {
            Panel::Login => Screen { login: window, ..self },
            Panel::Main => Screen { main: window, ..self },
            Panel::Hosts => Screen { hosts: window, ..self },
        }
    }

    /// Whether the window system has the panel.
    pub open spec fn present(self, panel: Panel) -> bool {
        self.spec_window(panel) != Window::Missing
    }

    /// Whether the panel is shown.
    pub open spec fn visible(self, panel: Panel) -> bool {
        self.spec_window(panel) == Window::Visible
    }

    /// How many panels are shown.
    pub open spec fn visible_count(self) -> nat {
        let login: nat = if self.visible(Panel::Login) { 1 } else { 0 };
        let main: nat = if self.visible(Panel::Main) { 1 } else { 0 };
        let hosts: nat = if self.visible(Panel::Hosts) { 1 } else { 0 };
        login + main + hosts
    }

    /// The screen once a step has been carried out. Hiding and showing act
    /// on a panel that exists, closing removes it, and the other steps
    /// leave what is seen as it was.
    pub open spec fn after(self, step: Step) -> Screen {
        match step {
            Step::Hide(panel) => if self.present(panel) {
                self.with(panel, Window::Hidden)
            } else {
                self
            },
            Step::Show(panel) => if self.present(panel) {
                self.with(panel, Window::Visible)
            } else {
                self
            },
            Step::Close(panel) => self.with(panel, Window::Missing),
            Step::Unminimize(_) | Step::Focus(_) | Step::Remember(_) => self,
        }
    }

    /// The screen once the steps have been carried out, first to last.
    pub open spec fn after_all(self, steps: Seq<Step>) -> Screen
        decreases steps.len(),
    {
        if steps.len() == 0 {
            self
        } else {
            self.after_all(steps.drop_last()).after(steps.last())
        }
    }

    /// The screen with all three panels present and none shown.
    pub fn hidden() -> (screen: Screen)
        ensures
            screen == Screen::all_hidden(),
    {
        Screen { login: Window::Hidden, main: Window::Hidden, hosts: Window::Hidden }
    }

    /// What is seen of one panel.
    #[verifier::when_used_as_spec(spec_window)]
    pub fn window(self, panel: Panel) -> (window: Window)
        ensures
            window == self.spec_window(panel),
    {
        match panel {
            Panel::Login => self.login,
            Panel::Main => self.main,
            Panel::Hosts => self.hosts,
        }
    }

    fn set(&mut self, panel: Panel, window: Window)
        ensures
            *final(self) == old(self).with(panel, window),
    {
        match panel {
            Panel::Login => { self.login = window; },
            Panel::Main => { self.main = window; },
            Panel::Hosts => { self.hosts = window; },
        }
    }

    /// Carries out one step.
    pub fn apply(&mut self, step: Step)
        ensures
            *final(self) == old(self).after(step),
    {
        match step {
            Step::Hide(panel) => {
                if self.window(panel) != Window::Missing {
                    self.set(panel, Window::Hidden);
                }
            },
            Step::Show(panel) => {
                if self.window(panel) != Window::Missing {
                    self.set(panel, Window::Visible);
                }
            },
            Step::Close(panel) => {
                self.set(panel, Window::Missing);
            },
            Step::Unminimize(_) | Step::Focus(_) | Step::Remember(_) => {},
        }
    }

    /// Carries out the steps, first to last.
    pub fn apply_all(&mut self, steps: &Vec<Step>)
        ensures
            *final(self) == old(self).after_all(steps@),
    {
        let mut done: usize = 0;
        while done < steps.len()
            invariant
                done <= steps.len(),
                *self == old(self).after_all(steps@.take(done as int)),
            decreases steps.len() - done,
        {
            proof {
                assert(steps@.take(done + 1).drop_last() =~= steps@.take(done as int));
            }
            self.apply(steps[done]);
            done += 1;
        }
        proof {
            assert(steps@.take(done as int) =~= steps@);
        }
    }
}


/// The steps that bring a panel to the front.
pub open spec fn raise_steps(panel: Panel) -> Seq<Step> {
    seq![Step::Unminimize(panel), Step::Show(panel), Step::Focus(panel)]
}

/// The step that hides a panel, where the panel is shown.
pub open spec fn hide_shown(screen: Screen, panel: Panel) -> Seq<Step> {
    if screen.visible(panel) {
        seq![Step::Hide(panel)]
    } else {
        seq![]
    }
}

/// The step that hides a panel, where the panel exists.
pub open spec fn hide_present(screen: Screen, panel: Panel) -> Seq<Step> {
    if screen.present(panel) {
        seq![Step::Hide(panel)]
    } else {
        seq![]
    }
}

/// The steps by which the tray puts one panel away: it is remembered, then
/// hidden, where it is shown.
pub open spec fn stash_steps(screen: Screen, panel: Panel) -> Seq<Step> {
    if screen.visible(panel) {
        seq![Step::Remember(panel), Step::Hide(panel)]
    } else {
        seq![]
    }
}

/// Remembers which panel the tray brings back, and decides the steps of each
/// change of panel from what is on screen.
#[derive(Clone, Copy, Debug, PartialEq, Eq, Structural)]
pub struct Coordinator {
    pub last_hidden: Panel,
}

impl Coordinator {
    /// The coordinator once a step has been carried out.
    pub open spec fn after(self, step: Step) -> Coordinator {
        match step {
            Step::Remember(panel) => Coordinator { last_hidden: panel },
            _ => self,
        }
    }

    /// The coordinator once the steps have been carried out, first to last.
    pub open spec fn after_all(self, steps: Seq<Step>) -> Coordinator
        decreases steps.len(),
    {
        if steps.len() == 0 {
            self
        } else {
            self.after_all(steps.drop_last()).after(steps.last())
        }
    }

    /// The steps of a click on the tray icon: a shown Login is hidden, else
    /// a shown Main; with neither shown, Main is hidden for good measure and
    /// Login is brought to the front.
    pub open spec fn toggle_steps(screen: Screen) -> Seq<Step> {
        if screen.visible(Panel::Login) {
            seq![Step::Hide(Panel::Login)]
        } else if screen.visible(Panel::Main) {
            seq![Step::Hide(Panel::Main)]
        } else {
            seq![Step::Hide(Panel::Main)] + raise_steps(Panel::Login)
        }
    }

    /// The steps that bring Login forward: a shown Main is hidden, Login is
    /// remembered, then brought to the front.
    pub open spec fn show_login_steps(screen: Screen) -> Seq<Step> {
        hide_shown(screen, Panel::Main) + seq![Step::Remember(Panel::Login)] + raise_steps(
            Panel::Login,
        )
    }

    /// The steps from Login to Main: Main is brought to the front and
    /// remembered, and only then Login is hidden.
    pub open spec fn switch_to_main_steps() -> Seq<Step> {
        raise_steps(Panel::Main) + seq![Step::Remember(Panel::Main), Step::Hide(Panel::Login)]
    }

    /// The steps that bring Hosts forward: Main and Login are hidden where
    /// they exist, Hosts is remembered, then brought to the front.
    pub open spec fn show_hosts_steps(screen: Screen) -> Seq<Step> {
        hide_present(screen, Panel::Main) + hide_present(screen, Panel::Login) + seq![
            Step::Remember(Panel::Hosts),
        ] + raise_steps(Panel::Hosts)
    }

    /// The steps that put Hosts away: Hosts is hidden and, where there is a
    /// Main panel, Main is remembered, shown and given the focus.
    pub open spec fn hide_hosts_steps(screen: Screen) -> Seq<Step> {
        if screen.present(Panel::Main) {
            seq![
                Step::Hide(Panel::Hosts),
                Step::Remember(Panel::Main),
                Step::Show(Panel::Main),
                Step::Focus(Panel::Main),
            ]
        } else {
            seq![Step::Hide(Panel::Hosts)]
        }
    }

    /// The steps of the tray's Show: the remembered panel is brought to the
    /// front, where it exists.
    pub open spec fn tray_show_steps(self, screen: Screen) -> Seq<Step> {
        if screen.present(self.last_hidden) {
            raise_steps(self.last_hidden)
        } else {
            seq![]
        }
    }

    /// The steps of the tray's Hide: Login, Main and Hosts, in this order,
    /// are each remembered and hidden where they are shown.
    pub open spec fn tray_hide_steps(screen: Screen) -> Seq<Step> {
        stash_steps(screen, Panel::Login) + stash_steps(screen, Panel::Main) + stash_steps(
            screen,
            Panel::Hosts,
        )
    }

    /// The coordinator as the program starts: the tray brings back Login.
    pub fn new() -> (coordinator: Coordinator)
        ensures
            coordinator.last_hidden == Panel::Login,
    {
        Coordinator { last_hidden: Panel::Login }
    }

    /// The panel that the tray brings back.
    pub fn last_hidden(&self) -> (panel: Panel)
        ensures
            panel == self.last_hidden,
    {
        self.last_hidden
    }

    /// Takes note of a step that has been carried out.
    pub fn record(&mut self, step: Step)
        ensures
            *final(self) == old(self).after(step),
    {
        match step {
            Step::Remember(panel) => {
                self.last_hidden = panel;
            },
            _ => {},
        }
    }

    /// Takes note of steps that have been carried out, first to last.
    pub fn record_all(&mut self, steps: &Vec<Step>)
        ensures
            *final(self) == old(self).after_all(steps@),
    {
        let mut done: usize = 0;
        while done < steps.len()
            invariant
                done <= steps.len(),
                *self == old(self).after_all(steps@.take(done as int)),
            decreases steps.len() - done,
        {
            proof {
                assert(steps@.take(done + 1).drop_last() =~= steps@.take(done as int));
            }
            self.record(steps[done]);
            done += 1;
        }
        proof {
            assert(steps@.take(done as int) =~= steps@);
        }
    }

    /// The tray icon was clicked: a shown Login or Main is hidden; with
    /// neither shown, Login is brought to the front. What the tray brings
    /// back is left as it was.
    pub fn toggle(&self, screen: &Screen) -> (steps: Vec<Step>)
        requires
            screen.present(Panel::Login),
            screen.present(Panel::Main),
        ensures
            steps@ == Coordinator::toggle_steps(*screen),
            self.after_all(steps@) == *self,
    {
        let mut steps: Vec<Step> = Vec::new();
        if screen.window(Panel::Login) == Window::Visible {
            steps.push(Step::Hide(Panel::Login));
        } else if screen.window(Panel::Main) == Window::Visible {
            steps.push(Step::Hide(Panel::Main));
        } else {
            steps.push(Step::Hide(Panel::Main));
            push_raise(&mut steps, Panel::Login);
        }
        proof {
            assert(steps@ =~= Coordinator::toggle_steps(*screen));
            reveal_with_fuel(Coordinator::after_all, 5);
        }
        steps
    }

    /// Login is asked for: a shown Main is hidden, Login is remembered and
    /// brought to the front. Without a Login panel nothing is planned.
    pub fn show_login(&self, screen: &Screen) -> (plan: Option<Vec<Step>>)
        ensures
            plan is Some <==> screen.present(Panel::Login),
            plan matches Some(steps) ==> {
                &&& steps@ == Coordinator::show_login_steps(*screen)
                &&& screen.after_all(steps@).visible(Panel::Login)
                &&& !screen.after_all(steps@).visible(Panel::Main)
                &&& self.after_all(steps@).last_hidden == Panel::Login
            },
    {
        if screen.window(Panel::Login) == Window::Missing {
            return None;
        }
        let mut steps: Vec<Step> = Vec::new();
        if screen.window(Panel::Main) == Window::Visible {
            steps.push(Step::Hide(Panel::Main));
        }
        steps.push(Step::Remember(Panel::Login));
        push_raise(&mut steps, Panel::Login);
        proof {
            assert(steps@ =~= Coordinator::show_login_steps(*screen));
            reveal_with_fuel(Screen::after_all, 6);
            reveal_with_fuel(Coordinator::after_all, 6);
        }
        Some(steps)
    }

    /// Login gives way to Main. Main is brought to the front and remembered
    /// before Login is hidden, so that at no moment nothing is shown.
    pub fn switch_to_main(&self, screen: &Screen) -> (steps: Vec<Step>)
        requires
            screen.present(Panel::Login),
            screen.present(Panel::Main),
        ensures
            steps@ == Coordinator::switch_to_main_steps(),
            screen.after_all(steps@).visible(Panel::Main),
            screen.after_all(steps@).login == Window::Hidden,
            self.after_all(steps@).last_hidden == Panel::Main,
            forall|at: int|
                0 <= at < steps@.len() && steps@[at] == Step::Hide(Panel::Login)
                    ==> screen.after_all(#[trigger] steps@.take(at)).visible(Panel::Main),
    {
        let mut steps: Vec<Step> = Vec::new();
        push_raise(&mut steps, Panel::Main);
        steps.push(Step::Remember(Panel::Main));
        steps.push(Step::Hide(Panel::Login));
        proof {
            assert(steps@ =~= Coordinator::switch_to_main_steps());
            reveal_with_fuel(Screen::after_all, 6);
            reveal_with_fuel(Coordinator::after_all, 6);
        }
        steps
    }

    /// Main is put away. Without a Main panel nothing is planned.
    pub fn hide_main(&self, screen: &Screen) -> (plan: Option<Vec<Step>>)
        ensures
            plan is Some <==> screen.present(Panel::Main),
            plan matches Some(steps) ==> {
                &&& steps@ == seq![Step::Hide(Panel::Main)]
                &&& self.after_all(steps@) == *self
            },
    {
        if screen.window(Panel::Main) == Window::Missing {
            return None;
        }
        let mut steps: Vec<Step> = Vec::new();
        steps.push(Step::Hide(Panel::Main));
        proof {
            assert(steps@ =~= seq![Step::Hide(Panel::Main)]);
            reveal_with_fuel(Coordinator::after_all, 2);
        }
        Some(steps)
    }

    /// Login is put away. Without a Login panel nothing is planned.
    pub fn hide_login(&self, screen: &Screen) -> (plan: Option<Vec<Step>>)
        ensures
            plan is Some <==> screen.present(Panel::Login),
            plan matches Some(steps) ==> {
                &&& steps@ == seq![Step::Hide(Panel::Login)]
                &&& self.after_all(steps@) == *self
            },
    {
        if screen.window(Panel::Login) == Window::Missing {
            return None;
        }
        let mut steps: Vec<Step> = Vec::new();
        steps.push(Step::Hide(Panel::Login));
        proof {
            assert(steps@ =~= seq![Step::Hide(Panel::Login)]);
            reveal_with_fuel(Coordinator::after_all, 2);
        }
        Some(steps)
    }

    /// Login is closed, where there is one. What the tray brings back is
    /// left as it was.
    pub fn close_login(&self, screen: &Screen) -> (steps: Vec<Step>)
        ensures
            steps@ == if screen.present(Panel::Login) {
                seq![Step::Close(Panel::Login)]
            } else {
                seq![]
            },
            self.after_all(steps@) == *self,
    {
        let mut steps: Vec<Step> = Vec::new();
        if screen.window(Panel::Login) != Window::Missing {
            steps.push(Step::Close(Panel::Login));
            proof {
                assert(steps@ =~= seq![Step::Close(Panel::Login)]);
            }
        }
        proof {
            reveal_with_fuel(Coordinator::after_all, 2);
        }
        steps
    }

    /// The host list is asked for: Main and Login are hidden, Hosts is
    /// remembered and brought to the front, and is then the one panel
    /// shown. Without a Hosts panel nothing is planned.
    pub fn show_hosts(&self, screen: &Screen) -> (plan: Option<Vec<Step>>)
        ensures
            plan is Some <==> screen.present(Panel::Hosts),
            plan matches Some(steps) ==> {
                &&& steps@ == Coordinator::show_hosts_steps(*screen)
                &&& screen.after_all(steps@).visible(Panel::Hosts)
                &&& screen.after_all(steps@).visible_count() == 1
                &&& self.after_all(steps@).last_hidden == Panel::Hosts
            },
    {
        if screen.window(Panel::Hosts) == Window::Missing {
            return None;
        }
        let mut steps: Vec<Step> = Vec::new();
        if screen.window(Panel::Main) != Window::Missing {
            steps.push(Step::Hide(Panel::Main));
        }
        if screen.window(Panel::Login) != Window::Missing {
            steps.push(Step::Hide(Panel::Login));
        }
        steps.push(Step::Remember(Panel::Hosts));
        push_raise(&mut steps, Panel::Hosts);
        proof {
            assert(steps@ =~= Coordinator::show_hosts_steps(*screen));
            reveal_with_fuel(Screen::after_all, 7);
            reveal_with_fuel(Coordinator::after_all, 7);
        }
        Some(steps)
    }

    /// The host list is put away: Hosts is hidden and, where there is a
    /// Main panel, Main is remembered and shown. Without a Hosts panel
    /// nothing is planned.
    pub fn hide_hosts(&self, screen: &Screen) -> (plan: Option<Vec<Step>>)
        ensures
            plan is Some <==> screen.present(Panel::Hosts),
            plan matches Some(steps) ==> {
                &&& steps@ == Coordinator::hide_hosts_steps(*screen)
                &&& screen.after_all(steps@).hosts == Window::Hidden
                &&& screen.after_all(steps@).login == screen.login
                &&& if screen.present(Panel::Main) {
                    &&& screen.after_all(steps@).visible(Panel::Main)
                    &&& self.after_all(steps@).last_hidden == Panel::Main
                } else {
                    self.after_all(steps@) == *self
                }
            },
    {
        if screen.window(Panel::Hosts) == Window::Missing {
            return None;
        }
        let mut steps: Vec<Step> = Vec::new();
        steps.push(Step::Hide(Panel::Hosts));
        if screen.window(Panel::Main) != Window::Missing {
            steps.push(Step::Remember(Panel::Main));
            steps.push(Step::Show(Panel::Main));
            steps.push(Step::Focus(Panel::Main));
        }
        proof {
            assert(steps@ =~= Coordinator::hide_hosts_steps(*screen));
            reveal_with_fuel(Screen::after_all, 5);
            reveal_with_fuel(Coordinator::after_all, 5);
        }
        Some(steps)
    }

    /// The tray asks for a window: the remembered panel is brought to the
    /// front, where it exists.
    pub fn tray_show(&self, screen: &Screen) -> (steps: Vec<Step>)
        ensures
            steps@ == self.tray_show_steps(*screen),
            screen.present(self.last_hidden) ==> screen.after_all(steps@).visible(
                self.last_hidden,
            ),
            !screen.present(self.last_hidden) ==> steps@.len() == 0,
            self.after_all(steps@) == *self,
    {
        let mut steps: Vec<Step> = Vec::new();
        if screen.window(self.last_hidden) != Window::Missing {
            push_raise(&mut steps, self.last_hidden);
        }
        proof {
            assert(steps@ =~= self.tray_show_steps(*screen));
            reveal_with_fuel(Screen::after_all, 4);
            reveal_with_fuel(Coordinator::after_all, 4);
        }
        steps
    }

    /// The tray puts the windows away. Login, Main and Hosts are looked at
    /// in this order, and each one that is shown is remembered and hidden:
    /// nothing is shown afterwards, and the tray brings back the last panel
    /// that was found shown.
    pub fn tray_hide(&self, screen: &Screen) -> (steps: Vec<Step>)
        ensures
            steps@ == Coordinator::tray_hide_steps(*screen),
            screen.after_all(steps@).visible_count() == 0,
            forall|panel: Panel|
                screen.present(panel) <==> #[trigger] screen.after_all(steps@).present(panel),
            self.after_all(steps@).last_hidden == if screen.visible(Panel::Hosts) {
                Panel::Hosts
            } else if screen.visible(Panel::Main) {
                Panel::Main
            } else if screen.visible(Panel::Login) {
                Panel::Login
            } else {
                self.last_hidden
            },
    {
        let mut steps: Vec<Step> = Vec::new();
        push_stash(&mut steps, screen, Panel::Login);
        push_stash(&mut steps, screen, Panel::Main);
        push_stash(&mut steps, screen, Panel::Hosts);
        proof {
            assert(steps@ =~= Coordinator::tray_hide_steps(*screen));
            reveal_with_fuel(Screen::after_all, 7);
            reveal_with_fuel(Coordinator::after_all, 7);
        }
        steps
    }
}

/// Appends the steps that bring a panel to the front.
fn push_raise(steps: &mut Vec<Step>, panel: Panel)
    ensures
        final(steps)@ == old(steps)@ + raise_steps(panel),
{
    steps.push(Step::Unminimize(panel));
    steps.push(Step::Show(panel));
    steps.push(Step::Focus(panel));
    proof {
        assert(steps@ =~= old(steps)@ + raise_steps(panel));
    }
}


/// Appends the steps by which the tray puts one panel away.
fn push_stash(steps: &mut Vec<Step>, screen: &Screen, panel: Panel)
    ensures
        final(steps)@ == old(steps)@ + stash_steps(*screen, panel),
{
    if screen.window(panel) == Window::Visible {
        steps.push(Step::Remember(panel));
        steps.push(Step::Hide(panel));
    }
    proof {
        assert(steps@ =~= old(steps)@ + stash_steps(*screen, panel));
    }
}


impl Screen {
    /// The screen after one click on the tray icon.
    pub open spec fn toggled(self) -> Screen {
        self.after_all(Coordinator::toggle_steps(self))
    }

    /// The screen after a number of clicks on the tray icon.
    pub open spec fn toggled_times(self, clicks: nat) -> Screen
        decreases clicks,
    {
        if clicks == 0 {
            self
        } else {
            self.toggled_times((clicks - 1) as nat).toggled()
        }
    }
}

/// A click on the tray icon never leaves two panels shown: where Hosts is not
/// shown and at most one panel is, the same holds after the click.
pub proof fn toggle_keeps_one_shown(screen: Screen)
    requires
        screen.present(Panel::Login),
        screen.present(Panel::Main),
        !screen.visible(Panel::Hosts),
        screen.visible_count() <= 1,
    ensures
        screen.toggled().present(Panel::Login),
        screen.toggled().present(Panel::Main),
        !screen.toggled().visible(Panel::Hosts),
        screen.toggled().visible_count() <= 1,
{
    reveal_with_fuel(Screen::after_all, 5);
}

/// Starting with every panel hidden, any number of clicks on the tray icon
/// leaves one panel shown or none, never two.
pub proof fn toggling_shows_at_most_one(clicks: nat)
    ensures
        Screen::all_hidden().toggled_times(clicks).visible_count() <= 1,
        !Screen::all_hidden().toggled_times(clicks).visible(Panel::Hosts),
        Screen::all_hidden().toggled_times(clicks).present(Panel::Login),
        Screen::all_hidden().toggled_times(clicks).present(Panel::Main),
    decreases clicks,
{
    if clicks > 0 {
        toggling_shows_at_most_one((clicks - 1) as nat);
        toggle_keeps_one_shown(Screen::all_hidden().toggled_times((clicks - 1) as nat));
    }
}

/// Asking for the host list and putting it away again ends with Main shown,
/// Login and Hosts not shown, and Main as the panel that the tray brings
/// back, whatever was on screen before.
pub proof fn hosts_shown_then_hidden(screen: Screen, coordinator: Coordinator)
    requires
        screen.present(Panel::Hosts),
        screen.present(Panel::Main),
    ensures
        ({
            let shown = screen.after_all(Coordinator::show_hosts_steps(screen));
            let back = shown.after_all(Coordinator::hide_hosts_steps(shown));
            let remembered = coordinator.after_all(Coordinator::show_hosts_steps(screen)).after_all(
                Coordinator::hide_hosts_steps(shown),
            );
            &&& back.main == Window::Visible
            &&& back.hosts == Window::Hidden
            &&& !back.visible(Panel::Login)
            &&& screen.present(Panel::Login) ==> back.login == Window::Hidden
            &&& back.visible_count() == 1
            &&& remembered.last_hidden == Panel::Main
        }),
{
    reveal_with_fuel(Screen::after_all, 7);
    reveal_with_fuel(Coordinator::after_all, 7);
}

/// With one panel shown, the tray's hide followed by its show brings the
/// same panel back and changes nothing else on screen.
pub proof fn tray_hide_then_show(screen: Screen, coordinator: Coordinator, panel: Panel)
    requires
        screen.visible(panel),
        screen.visible_count() == 1,
    ensures
        ({
            let hidden = screen.after_all(Coordinator::tray_hide_steps(screen));
            let remembered = coordinator.after_all(Coordinator::tray_hide_steps(screen));
            &&& remembered.last_hidden == panel
            &&& hidden.after_all(remembered.tray_show_steps(hidden)) == screen
        }),
{
    reveal_with_fuel(Screen::after_all, 7);
    reveal_with_fuel(Coordinator::after_all, 7);
}

/// A command of the tray menu.
#[derive(Clone, Copy, Debug, PartialEq, Eq, Structural)]
pub enum TrayCommand {
    Show,
    Hide,
    Quit,
}

/// The code with which the program ends when the tray menu asks for it.
pub const EXIT_CODE: i32 = 0;

/// What follows a command of the tray menu.
#[derive(Clone, Debug, PartialEq, Eq)]
pub enum Reaction {
    /// Steps to carry out on the panels.
    Steps(Vec<Step>),
    /// The program ends at once, with `EXIT_CODE`.
    Exit,
}

impl TrayCommand {
    /// The identifier of the menu entry.
    pub open spec fn id_text(self) -> Seq<char> {
        match self {
            TrayCommand::Show => "show"@,
            TrayCommand::Hide => "hide"@,
            TrayCommand::Quit => "quit"@,
        }
    }

    /// The identifier of the menu entry.
    pub fn id(self) -> (text: &'static str)
        ensures
            text@ == self.id_text(),
    {
        match self {
            TrayCommand::Show => "show",
            TrayCommand::Hide => "hide",
            TrayCommand::Quit => "quit",
        }
    }

    /// The command that a menu identifier names, if it names one.
    pub fn from_id(id: &str) -> (found: Option<TrayCommand>)
        ensures
            match found {
                Some(command) => id@ == command.id_text(),
                None => forall|command: TrayCommand| id@ != command.id_text(),
            },
    {
        let given = String::from_str(id);
        if given == String::from_str("show") {
            Some(TrayCommand::Show)
        } else if given == String::from_str("hide") {
            Some(TrayCommand::Hide)
        } else if given == String::from_str("quit") {
            Some(TrayCommand::Quit)
        } else {
            None
        }
    }
}

impl Coordinator {
    /// What follows a command of the tray menu: Show brings the remembered
    /// panel back, Hide puts away what is shown, Quit ends the program.
    pub fn on_tray_command(&self, command: TrayCommand, screen: &Screen) -> (reaction: Reaction)
        ensures
            match command {
                TrayCommand::Show => reaction matches Reaction::Steps(steps) && steps@
                    == self.tray_show_steps(*screen),
                TrayCommand::Hide => reaction matches Reaction::Steps(steps) && steps@
                    == Coordinator::tray_hide_steps(*screen),
                TrayCommand::Quit => reaction is Exit,
            },
    {
        match command {
            TrayCommand::Show => Reaction::Steps(self.tray_show(screen)),
            TrayCommand::Hide => Reaction::Steps(self.tray_hide(screen)),
            TrayCommand::Quit => Reaction::Exit,
        }
    }
}

} // verus!
