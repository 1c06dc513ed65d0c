//! Unattended input: the gestures that a machine nobody sits at cannot make.
//!
//! A link does not navigate, a page does not scroll and a key never reaches the
//! page without real input, so an unattended run that skips input says nothing
//! about the input path. The gestures happen one at a time, in a fixed order and
//! with time between them, so that their effects stay attributable.
use vstd::prelude::*;
use vstd::string::*;
use crate::events::{AuthId, NavigationEvent, PermissionId};
use crate::options::{
    credentials, drag_value, first_char, parse_credentials, parse_drag, parse_integer, parse_point,
    parse_trimmed_seconds, point_value, trimmed_i32,
};
use crate::surface::{
    no_modifiers, DragEventKind, DragFile, DragInput, DragOperations, DragPayload, EventModifiers,
    KeyEvent, KeyEventKind, MouseAction, MouseButton, MouseEvent, ProcessTerminationStatus,
    TouchPhase,
};
use crate::text::{find, lemma_find, same_text, trim, unsigned_value, CharClass};

verus! {

/// Time after the page is ready before anything happens, in nanoseconds: the
/// first paint can land before the page's own scripts and layout have settled.
pub const SETTLE: u64 = 3_000_000_000;

/// Time between one gesture and the next, in nanoseconds.
pub const GAP: u64 = 2_000_000_000;

/// Nanoseconds in a second.
pub const SECOND: u64 = 1_000_000_000;

/// What is scripted, as text from the environment.
#[derive(Debug)]
pub struct ScriptedVars {
    pub click_at: Option<String>,
    pub wheel: Option<String>,
    pub key: Option<String>,
    pub crash_after_secs: Option<String>,
    pub ime: Option<String>,
    pub ime_mode: Option<String>,
    pub hide_cycle: bool,
    pub devtools: bool,
    pub right_click_at: Option<String>,
    pub touch_at: Option<String>,
    pub drop_file: Option<String>,
    pub page_drag: Option<String>,
}

/// Which half of the way from composing to committing is taken, so that a
/// failure can be pinned to one of them.
#[derive(Clone, Copy, Debug, PartialEq, Eq, Structural)]
pub enum ImeMode {
    /// Commit without composing.
    Commit,
    /// Compose and leave it at that.
    Compose,
    /// Compose, then finish without keeping the selection.
    Finish,
    /// Compose, then commit.
    Both,
}

/// One call on a producer.
#[derive(Debug)]
pub enum ScriptedAction {
    MoveFocus,
    Mouse(MouseEvent),
    Key(KeyEvent),
    /// One direct contact. It presses fully where it starts and not at all where
    /// it ends.
    Touch { x: i32, y: i32, phase: TouchPhase },
    Drag(DragInput),
    ImeSetComposition { text: String, selection: (u32, u32) },
    ImeCommitText(String),
    ImeFinishComposing { keep_selection: bool },
    SetVisible(bool),
    OpenDevTools,
    NavigateToUrl(String),
    RequestRepaint,
}

/// One gesture: calls in order. Where `stops_on_error`, the first that fails is
/// the last that is made.
#[derive(Debug)]
pub struct Gesture {
    pub actions: Vec<ScriptedAction>,
    pub stops_on_error: bool,
}

impl Gesture {
    /// Whether the call at `i` is made, where `failed` says which calls fail.
    pub open spec fn is_made(self, i: int, failed: spec_fn(int) -> bool) -> bool {
        &&& 0 <= i < self.actions@.len()
        &&& self.stops_on_error ==> forall|k: int| 0 <= k < i ==> !#[trigger] failed(k)
    }

    /// Whether the next call is made after one that failed or did not.
    pub fn goes_on(&self, failed: bool) -> (on: bool)
        ensures
            on == !(failed && self.stops_on_error),
    {
        !(failed && self.stops_on_error)
    }
}

/// The page that kills its renderer.
pub const CRASH_URL: &'static str = "chrome://crash";

/// What one tick comes to.
#[derive(Debug)]
pub struct TickOutcome {
    /// The call that kills the renderer on purpose, before the gesture.
    pub crash: Option<ScriptedAction>,
    pub gesture: Option<Gesture>,
}

/// What is scripted, and how far it got.
#[derive(Debug)]
pub struct ScriptedInput {
    pub click_at: Option<(i32, i32)>,
    pub wheel: Option<i32>,
    pub key: Option<char>,
    /// Seconds after the page is ready.
    pub crash_after: Option<u64>,
    pub ime: Option<String>,
    pub ime_mode: ImeMode,
    pub hide_cycle: bool,
    pub devtools: bool,
    pub right_click_at: Option<(i32, i32)>,
    pub touch_at: Option<(i32, i32)>,
    pub drop_file: Option<String>,
    pub page_drag: Option<(i32, i32, i32, i32)>,
    /// When the page first became ready. A time, not a count of ticks: how often
    /// a host redraws is its own business.
    pub ready_at: Option<u64>,
    pub stage: u32,
    pub crashed: bool,
}

/// Whether `point` is what `text` says, where there is text.
pub open spec fn says_point(text: Option<String>, point: Option<(i32, i32)>) -> bool {
    match (text, point) {
        (Some(text), Some((x, y))) => point_value(text@) == Some((x as int, y as int)),
        (Some(text), None) => point_value(text@) is None,
        (None, point) => point is None,
    }
}

/// The point that `text` says, where there is text.
fn point_from(text: &Option<String>) -> (point: Option<(i32, i32)>)
    ensures
        says_point(*text, point),
{
    match text {
        Some(text) => parse_point(text.as_str()),
        None => None,
    }
}

/// The mode that a text names. Anything unknown means both.
pub open spec fn ime_mode_of(text: Option<String>) -> ImeMode {
    match text {
        Some(text) => if text@ == "commit"@ {
            ImeMode::Commit
        } else if text@ == "compose"@ {
            ImeMode::Compose
        } else if text@ == "finish"@ {
            ImeMode::Finish
        } else {
            ImeMode::Both
        },
        None => ImeMode::Both,
    }
}

/// The mode that a text names.
fn ime_mode_from(text: &Option<String>) -> (mode: ImeMode)
    ensures
        mode == ime_mode_of(*text),
{
    match text {
        Some(text) => if same_text(text.as_str(), "commit") {
            ImeMode::Commit
        } else if same_text(text.as_str(), "compose") {
            ImeMode::Compose
        } else if same_text(text.as_str(), "finish") {
            ImeMode::Finish
        } else {
            ImeMode::Both
        },
        None => ImeMode::Both,
    }
}

impl ScriptedInput {
    /// What the environment scripts. What cannot be read is not scripted.
    pub fn from_env(vars: ScriptedVars) -> (scripted: Self)
        ensures
            says_point(vars.click_at, scripted.click_at),
            match (vars.wheel, scripted.wheel) {
                (Some(text), Some(wheel)) => trimmed_i32(text@) == Some(wheel as int),
                (Some(text), None) => trimmed_i32(text@) is None,
                (None, wheel) => wheel is None,
            },
            scripted.key == match vars.key {
                Some(text) if text@.len() > 0 => Some(text@[0]),
                _ => None,
            },
            match (vars.crash_after_secs, scripted.crash_after) {
                (Some(text), Some(after)) => unsigned_value(
                    trim(text@, CharClass::WhiteSpace),
                    10,
                    u64::MAX as int,
                ) == Some(after as int),
                (Some(text), None) => unsigned_value(
                    trim(text@, CharClass::WhiteSpace),
                    10,
                    u64::MAX as int,
                ) is None,
                (None, after) => after is None,
            },
            scripted.ime == match vars.ime {
                Some(text) if text@.len() > 0 => Some(text),
                _ => None,
            },
            scripted.ime_mode == ime_mode_of(vars.ime_mode),
            scripted.hide_cycle == vars.hide_cycle,
            scripted.devtools == vars.devtools,
            says_point(vars.right_click_at, scripted.right_click_at),
            says_point(vars.touch_at, scripted.touch_at),
            scripted.drop_file == vars.drop_file,
            match (vars.page_drag, scripted.page_drag) {
                (Some(text), Some((a, b, c, d))) => drag_value(text@) == Some(
                    (a as int, b as int, c as int, d as int),
                ),
                (Some(text), None) => drag_value(text@) is None,
                (None, drag) => drag is None,
            },
            scripted.ready_at is None,
            scripted.stage == 0,
            !scripted.crashed,
    {
        ScriptedInput {
            click_at: point_from(&vars.click_at),
            wheel: match &vars.wheel {
                Some(text) => parse_integer(text.as_str()),
                None => None,
            },
            key: match &vars.key {
                Some(text) => first_char(text.as_str()),
                None => None,
            },
            crash_after: match &vars.crash_after_secs {
                Some(text) => parse_trimmed_seconds(text.as_str()),
                None => None,
            },
            ime: match vars.ime {
                Some(text) => if text.as_str().unicode_len() > 0 {
                    Some(text)
                } else {
                    None
                },
                None => None,
            },
            ime_mode: ime_mode_from(&vars.ime_mode),
            hide_cycle: vars.hide_cycle,
            devtools: vars.devtools,
            right_click_at: point_from(&vars.right_click_at),
            touch_at: point_from(&vars.touch_at),
            drop_file: vars.drop_file,
            page_drag: match &vars.page_drag {
                Some(text) => parse_drag(text.as_str()),
                None => None,
            },
            ready_at: None,
            stage: 0,
            crashed: false,
        }
    }

    /// Whether anything is scripted at all.
    pub open spec fn spec_armed(&self) -> bool {
        self.click_at is Some || self.wheel is Some || self.key is Some || self.crash_after is Some
            || self.ime is Some || self.hide_cycle || self.devtools || self.right_click_at is Some
            || self.touch_at is Some || self.drop_file is Some || self.page_drag is Some
    }

    /// Whether anything is scripted at all.
    pub fn armed(&self) -> (armed: bool)
        ensures
            armed == self.spec_armed(),
    {
        self.click_at.is_some() || self.wheel.is_some() || self.key.is_some()
            || self.crash_after.is_some() || self.ime.is_some() || self.hide_cycle || self.devtools
            || self.right_click_at.is_some() || self.touch_at.is_some() || self.drop_file.is_some()
            || self.page_drag.is_some()
    }

    // ── When ──────────────────────────────────────────────────────────────────

    /// When the page became ready, if it is ready now.
    pub open spec fn started(&self, now: u64) -> u64 {
        match self.ready_at {
            Some(at) => at,
            None => now,
        }
    }

    /// Time since the page became ready. A clock that runs backwards counts as
    /// no time at all.
    pub open spec fn elapsed(&self, now: u64) -> int {
        if now >= self.started(now) {
            now - self.started(now)
        } else {
            0
        }
    }

    /// Whether the renderer is to be killed now. That keeps its own schedule
    /// instead of waiting behind the gestures.
    pub open spec fn crashes(&self, now: u64) -> bool {
        self.crash_after matches Some(after) && !self.crashed && self.elapsed(now) >= after * SECOND
    }

    /// Whether the next gesture is due.
    pub open spec fn is_due(&self, now: u64) -> bool {
        self.elapsed(now) >= SETTLE + GAP * self.stage
    }

    /// Call once per tick, with `ready` set once the page has painted. At most
    /// one gesture is due per call, and they are due in order.
    pub fn tick(&mut self, ready: bool, now: u64) -> (outcome: TickOutcome)
        requires
            ready && old(self).spec_armed() && old(self).is_due(now) ==> old(self).stage < u32::MAX,
        ensures
            if !ready || !old(self).spec_armed() {
                &&& *final(self) == *old(self)
                &&& outcome.crash is None
                &&& outcome.gesture is None
            } else {
                &&& outcome.crash is Some <==> old(self).crashes(now)
                &&& outcome.crash matches Some(action) ==> (action matches
                    ScriptedAction::NavigateToUrl(url) && url@ == CRASH_URL@)
                &&& outcome.gesture is Some <==> old(self).is_due(now)
                &&& outcome.gesture matches Some(gesture) ==> old(self).is_gesture(
                    old(self).stage,
                    gesture,
                )
                &&& *final(self) == (ScriptedInput {
                    ready_at: Some(old(self).started(now)),
                    crashed: old(self).crashed || old(self).crashes(now),
                    stage: if old(self).is_due(now) {
                        (old(self).stage + 1) as u32
                    } else {
                        old(self).stage
                    },
                    ..*old(self)
                })
            },
    {
        if !ready || !self.armed() {
            return TickOutcome { crash: None, gesture: None };
        }
        let started: u64 = match self.ready_at {
            Some(at) => at,
            None => now,
        };
        let elapsed: u64 = if now >= started {
            now - started
        } else {
            0
        };
        let crash = match self.crash_after {
            Some(after) => !self.crashed && elapsed as u128 >= after as u128 * SECOND as u128,
            None => false,
        };
        let due = elapsed >= SETTLE + GAP * self.stage as u64;
        let gesture: Option<Gesture> = if due {
            Some(self.gesture(self.stage))
        } else {
            None
        };
        self.ready_at = Some(started);
        if crash {
            self.crashed = true;
        }
        if due {
            self.stage = self.stage + 1;
        }
        let crash: Option<ScriptedAction> = if crash {
            Some(ScriptedAction::NavigateToUrl(CRASH_URL.to_owned()))
        } else {
            None
        };
        TickOutcome { crash, gesture }
    }

    // ── What ──────────────────────────────────────────────────────────────────

    /// Whether `gesture` is the gesture of a stage. A stage whose gesture is not
    /// scripted does nothing.
    pub open spec fn is_gesture(&self, stage: u32, gesture: Gesture) -> bool {
        &&& gesture.stops_on_error == (stage == 4 || stage == 8)
        &&& match stage {
            0 => gesture.actions@ == self.touch_actions(),
            1 => self.drops(DragEventKind::Enter, gesture.actions@),
            2 => self.drops(DragEventKind::Over, gesture.actions@),
            3 => self.drops(DragEventKind::Drop, gesture.actions@),
            4 => gesture.actions@ == self.page_drag_actions(),
            5 => gesture.actions@ == self.click_actions(),
            6 => gesture.actions@ == self.scroll_actions(),
            7 => gesture.actions@ == self.key_actions(),
            8 => self.composes(gesture.actions@),
            9 => gesture.actions@ == self.visible_actions(false),
            10 => gesture.actions@ == self.visible_actions(true),
            11 => gesture.actions@ == self.devtools_actions(),
            12 => gesture.actions@ == self.right_click_actions(),
            _ => gesture.actions@ == Seq::<ScriptedAction>::empty(),
        }
    }

    /// The gesture of a stage.
    fn gesture(&self, stage: u32) -> (gesture: Gesture)
        ensures
            self.is_gesture(stage, gesture),
    {
        let actions: Vec<ScriptedAction> = match stage {
            0 => self.touch(),
            1 => self.drop_file(DragEventKind::Enter),
            2 => self.drop_file(DragEventKind::Over),
            3 => self.drop_file(DragEventKind::Drop),
            4 => self.page_drag(),
            5 => self.click(),
            6 => self.scroll(),
            7 => self.press(),
            8 => self.compose(),
            9 => self.hide_or_show(false),
            10 => self.hide_or_show(true),
            11 => self.devtools(),
            12 => self.right_click(),
            _ => Vec::new(),
        };
        assert(stage > 12 ==> actions@ =~= Seq::<ScriptedAction>::empty());
        Gesture { actions, stops_on_error: stage == 4 || stage == 8 }
    }

    /// A contact that starts and ends.
    pub open spec fn touch_actions(&self) -> Seq<ScriptedAction> {
        match self.touch_at {
            Some((x, y)) => seq![
                ScriptedAction::Touch { x, y, phase: TouchPhase::Started },
                ScriptedAction::Touch { x, y, phase: TouchPhase::Ended },
            ],
            None => Seq::empty(),
        }
    }

    fn touch(&self) -> (actions: Vec<ScriptedAction>)
        ensures
            actions@ == self.touch_actions(),
    {
        let mut actions: Vec<ScriptedAction> = Vec::new();
        match self.touch_at {
            Some((x, y)) => {
                actions.push(ScriptedAction::Touch { x, y, phase: TouchPhase::Started });
                actions.push(ScriptedAction::Touch { x, y, phase: TouchPhase::Ended });
            },
            None => {},
        }
        assert(actions@ =~= self.touch_actions());
        actions
    }

    /// Where a file is dropped: where the touch goes, or near the corner.
    pub open spec fn drop_point(&self) -> (i32, i32) {
        match self.touch_at {
            Some(point) => point,
            None => (10, 10),
        }
    }

    /// Whether `actions` are one step of dropping the file. Only the first step
    /// carries it.
    pub open spec fn drops(&self, kind: DragEventKind, actions: Seq<ScriptedAction>) -> bool {
        match self.drop_file {
            None => actions == Seq::<ScriptedAction>::empty(),
            Some(path) => {
                &&& actions.len() == 1
                &&& actions[0] matches ScriptedAction::Drag(input) && input.kind == kind && (
                input.x, input.y) == self.drop_point() && input.modifiers == no_modifiers()
                    && input.allowed_operations == DragOperations(DragOperations::COPY)
                    && match input.payload {
                    Some(payload) => kind == DragEventKind::Enter && payload.files@.len() == 1
                        && payload.files@[0].path@ == path@ && payload.files@[0].display_name
                        is None && payload.link_url is None && payload.link_title is None
                        && payload.fragment_text is None && payload.fragment_html is None
                        && payload.fragment_base_url is None,
                    None => kind != DragEventKind::Enter,
                }
            },
        }
    }

    fn drop_file(&self, kind: DragEventKind) -> (actions: Vec<ScriptedAction>)
        ensures
            self.drops(kind, actions@),
    {
        let mut actions: Vec<ScriptedAction> = Vec::new();
        match &self.drop_file {
            Some(path) => {
                let (x, y): (i32, i32) = match self.touch_at {
                    Some(point) => point,
                    None => (10, 10),
                };
                let payload: Option<DragPayload> = if kind == DragEventKind::Enter {
                    let mut payload = DragPayload::default();
                    payload.files.push(DragFile { path: path.clone(), display_name: None });
                    Some(payload)
                } else {
                    None
                };
                actions.push(
                    ScriptedAction::Drag(
                        DragInput {
                            kind,
                            payload,
                            x,
                            y,
                            modifiers: EventModifiers::default(),
                            allowed_operations: DragOperations(DragOperations::COPY),
                        },
                    ),
                );
            },
            None => {
                assert(actions@ =~= Seq::<ScriptedAction>::empty());
            },
        }
        actions
    }

    /// A mouse event of the left button.
    pub open spec fn left_mouse(x: i32, y: i32, action: MouseAction, held: bool) -> ScriptedAction {
        ScriptedAction::Mouse(
            MouseEvent {
                x,
                y,
                button: MouseButton::Left,
                action,
                modifiers: EventModifiers { left_mouse_button: held, ..no_modifiers() },
            },
        )
    }

    /// Move to one end, press, and move to the other with the button held.
    pub open spec fn page_drag_actions(&self) -> Seq<ScriptedAction> {
        match self.page_drag {
            Some((x0, y0, x1, y1)) => seq![
                Self::left_mouse(x0, y0, MouseAction::Moved, x0 == x1 && y0 == y1),
                Self::left_mouse(x0, y0, MouseAction::Pressed, true),
                Self::left_mouse(x1, y1, MouseAction::Moved, true),
            ],
            None => Seq::empty(),
        }
    }

    /// A mouse event of the left button.
    fn left(x: i32, y: i32, action: MouseAction, held: bool) -> (event: ScriptedAction)
        ensures
            event == Self::left_mouse(x, y, action, held),
    {
        let mut modifiers = EventModifiers::default();
        modifiers.left_mouse_button = held;
        ScriptedAction::Mouse(MouseEvent { x, y, button: MouseButton::Left, action, modifiers })
    }

    fn page_drag(&self) -> (actions: Vec<ScriptedAction>)
        ensures
            actions@ == self.page_drag_actions(),
    {
        let mut actions: Vec<ScriptedAction> = Vec::new();
        match self.page_drag {
            Some((x0, y0, x1, y1)) => {
                actions.push(Self::left(x0, y0, MouseAction::Moved, x0 == x1 && y0 == y1));
                actions.push(Self::left(x0, y0, MouseAction::Pressed, true));
                actions.push(Self::left(x1, y1, MouseAction::Moved, true));
            },
            None => {},
        }
        assert(actions@ =~= self.page_drag_actions());
        actions
    }

    /// A mouse event with nothing held.
    pub open spec fn plain_mouse(x: i32, y: i32, button: MouseButton, action: MouseAction) -> ScriptedAction {
        ScriptedAction::Mouse(MouseEvent { x, y, button, action, modifiers: no_modifiers() })
    }

    /// A mouse event with nothing held.
    fn plain(x: i32, y: i32, button: MouseButton, action: MouseAction) -> (event: ScriptedAction)
        ensures
            event == Self::plain_mouse(x, y, button, action),
    {
        ScriptedAction::Mouse(
            MouseEvent { x, y, button, action, modifiers: EventModifiers::default() },
        )
    }

    /// Take the focus, then move, press and release. A window that was never
    /// activated has no focus, and only a focused browser updates its cursor.
    pub open spec fn click_actions(&self) -> Seq<ScriptedAction> {
        match self.click_at {
            Some((x, y)) => seq![
                ScriptedAction::MoveFocus,
                Self::plain_mouse(x, y, MouseButton::Left, MouseAction::Moved),
                Self::plain_mouse(x, y, MouseButton::Left, MouseAction::Pressed),
                Self::plain_mouse(x, y, MouseButton::Left, MouseAction::Released),
            ],
            None => Seq::empty(),
        }
    }

    fn click(&self) -> (actions: Vec<ScriptedAction>)
        ensures
            actions@ == self.click_actions(),
    {
        let mut actions: Vec<ScriptedAction> = Vec::new();
        match self.click_at {
            Some((x, y)) => {
                actions.push(ScriptedAction::MoveFocus);
                actions.push(Self::plain(x, y, MouseButton::Left, MouseAction::Moved));
                actions.push(Self::plain(x, y, MouseButton::Left, MouseAction::Pressed));
                actions.push(Self::plain(x, y, MouseButton::Left, MouseAction::Released));
            },
            None => {},
        }
        assert(actions@ =~= self.click_actions());
        actions
    }

    /// Turn the wheel where the click went, or near the corner.
    pub open spec fn scroll_actions(&self) -> Seq<ScriptedAction> {
        match self.wheel {
            Some(delta_y) => {
                let (x, y) = match self.click_at {
                    Some(point) => point,
                    None => (10i32, 10i32),
                };
                seq![
                    Self::plain_mouse(
                        x,
                        y,
                        MouseButton::Left,
                        MouseAction::WheelScrolled { delta_x: 0, delta_y },
                    ),
                ]
            },
            None => Seq::empty(),
        }
    }

    fn scroll(&self) -> (actions: Vec<ScriptedAction>)
        ensures
            actions@ == self.scroll_actions(),
    {
        let mut actions: Vec<ScriptedAction> = Vec::new();
        match self.wheel {
            Some(delta_y) => {
                let (x, y): (i32, i32) = match self.click_at {
                    Some(point) => point,
                    None => (10, 10),
                };
                actions.push(
                    Self::plain(
                        x,
                        y,
                        MouseButton::Left,
                        MouseAction::WheelScrolled { delta_x: 0, delta_y },
                    ),
                );
            },
            None => {},
        }
        assert(actions@ =~= self.scroll_actions());
        actions
    }

    /// The Windows virtual-key code of a character, which Chromium wants on
    /// every platform: for an ASCII letter, its upper case.
    pub open spec fn virtual_key(c: char) -> int {
        if 'a' <= c <= 'z' {
            c as int - 32
        } else {
            c as int
        }
    }

    /// A key event of a character.
    pub open spec fn key_event(c: char, kind: KeyEventKind) -> ScriptedAction {
        ScriptedAction::Key(
            KeyEvent {
                kind,
                windows_key_code: Self::virtual_key(c) as i32,
                native_key_code: 0,
                character: Some(c),
                modifiers: no_modifiers(),
            },
        )
    }

    /// A key event of a character.
    fn typed(c: char, kind: KeyEventKind) -> (event: ScriptedAction)
        ensures
            event == Self::key_event(c, kind),
    {
        let code: u32 = c as u32;
        let key: u32 = if 'a' <= c && c <= 'z' {
            code - 32
        } else {
            code
        };
        ScriptedAction::Key(
            KeyEvent {
                kind,
                windows_key_code: key as i32,
                native_key_code: 0,
                character: Some(c),
                modifiers: EventModifiers::default(),
            },
        )
    }

    /// Press a key, send its character and release it.
    pub open spec fn key_actions(&self) -> Seq<ScriptedAction> {
        match self.key {
            Some(c) => seq![
                Self::key_event(c, KeyEventKind::RawKeyDown),
                Self::key_event(c, KeyEventKind::Char),
                Self::key_event(c, KeyEventKind::KeyUp),
            ],
            None => Seq::empty(),
        }
    }

    fn press(&self) -> (actions: Vec<ScriptedAction>)
        ensures
            actions@ == self.key_actions(),
    {
        let mut actions: Vec<ScriptedAction> = Vec::new();
        match self.key {
            Some(c) => {
                actions.push(Self::typed(c, KeyEventKind::RawKeyDown));
                actions.push(Self::typed(c, KeyEventKind::Char));
                actions.push(Self::typed(c, KeyEventKind::KeyUp));
            },
            None => {},
        }
        assert(actions@ =~= self.key_actions());
        actions
    }

    /// Whether `action` composes `text`, with the caret behind it.
    pub open spec fn is_composition(action: ScriptedAction, text: Seq<char>) -> bool {
        action matches ScriptedAction::ImeSetComposition { text: composed, selection } && composed@
            == text && selection.0 == text.len() % 0x1_0000_0000 && selection.1 == selection.0
    }

    /// Whether `action` commits `text`.
    pub open spec fn is_commit(action: ScriptedAction, text: Seq<char>) -> bool {
        action matches ScriptedAction::ImeCommitText(committed) && committed@ == text
    }

    /// Whether `actions` compose and commit the text, as the mode says.
    pub open spec fn composes(&self, actions: Seq<ScriptedAction>) -> bool {
        match self.ime {
            None => actions == Seq::<ScriptedAction>::empty(),
            Some(text) => match self.ime_mode {
                ImeMode::Commit => actions.len() == 1 && Self::is_commit(actions[0], text@),
                ImeMode::Compose => actions.len() == 1 && Self::is_composition(actions[0], text@),
                ImeMode::Finish => actions.len() == 2 && Self::is_composition(actions[0], text@)
                    && actions[1] == (ScriptedAction::ImeFinishComposing { keep_selection: false }),
                ImeMode::Both => actions.len() == 2 && Self::is_composition(actions[0], text@)
                    && Self::is_commit(actions[1], text@),
            },
        }
    }

    fn compose(&self) -> (actions: Vec<ScriptedAction>)
        ensures
            self.composes(actions@),
    {
        let mut actions: Vec<ScriptedAction> = Vec::new();
        match &self.ime {
            Some(text) => {
                if self.ime_mode != ImeMode::Commit {
                    let count: usize = text.as_str().unicode_len();
                    let end: u32 = (count as u64 % 0x1_0000_0000) as u32;
                    actions.push(
                        ScriptedAction::ImeSetComposition {
                            text: text.clone(),
                            selection: (end, end),
                        },
                    );
                }
                match self.ime_mode {
                    ImeMode::Compose => {},
                    ImeMode::Finish => {
                        actions.push(ScriptedAction::ImeFinishComposing { keep_selection: false });
                    },
                    _ => {
                        actions.push(ScriptedAction::ImeCommitText(text.clone()));
                    },
                }
            },
            None => {
                assert(actions@ =~= Seq::<ScriptedAction>::empty());
            },
        }
        actions
    }

    /// Hide or show the view. Painting should stop while it is hidden.
    pub open spec fn visible_actions(&self, visible: bool) -> Seq<ScriptedAction> {
        if self.hide_cycle {
            seq![ScriptedAction::SetVisible(visible)]
        } else {
            Seq::empty()
        }
    }

    fn hide_or_show(&self, visible: bool) -> (actions: Vec<ScriptedAction>)
        ensures
            actions@ == self.visible_actions(visible),
    {
        let mut actions: Vec<ScriptedAction> = Vec::new();
        if self.hide_cycle {
            actions.push(ScriptedAction::SetVisible(visible));
        }
        assert(actions@ =~= self.visible_actions(visible));
        actions
    }

    /// Open the DevTools window.
    pub open spec fn devtools_actions(&self) -> Seq<ScriptedAction> {
        if self.devtools {
            seq![ScriptedAction::OpenDevTools]
        } else {
            Seq::empty()
        }
    }

    fn devtools(&self) -> (actions: Vec<ScriptedAction>)
        ensures
            actions@ == self.devtools_actions(),
    {
        let mut actions: Vec<ScriptedAction> = Vec::new();
        if self.devtools {
            actions.push(ScriptedAction::OpenDevTools);
        }
        assert(actions@ =~= self.devtools_actions());
        actions
    }

    /// Move, press and release the right button.
    pub open spec fn right_click_actions(&self) -> Seq<ScriptedAction> {
        match self.right_click_at {
            Some((x, y)) => seq![
                Self::plain_mouse(x, y, MouseButton::Right, MouseAction::Moved),
                Self::plain_mouse(x, y, MouseButton::Right, MouseAction::Pressed),
                Self::plain_mouse(x, y, MouseButton::Right, MouseAction::Released),
            ],
            None => Seq::empty(),
        }
    }

    fn right_click(&self) -> (actions: Vec<ScriptedAction>)
        ensures
            actions@ == self.right_click_actions(),
    {
        let mut actions: Vec<ScriptedAction> = Vec::new();
        match self.right_click_at {
            Some((x, y)) => {
                actions.push(Self::plain(x, y, MouseButton::Right, MouseAction::Moved));
                actions.push(Self::plain(x, y, MouseButton::Right, MouseAction::Pressed));
                actions.push(Self::plain(x, y, MouseButton::Right, MouseAction::Released));
            },
            None => {},
        }
        assert(actions@ =~= self.right_click_actions());
        actions
    }
}

/// No gesture comes before its turn: when the gesture of a stage is due, the page
/// has been ready for the settling time and one gap for each stage before it. A
/// host that ticks late makes up for it, so two gestures may still follow closely.
/// The renderer is killed at most once.
pub proof fn law_gestures_wait_for_their_turn(before: ScriptedInput, now: u64, later: u64)
    requires
        before.ready_at is Some,
        before.stage < u32::MAX,
        before.is_due(now),
    ensures
        ({
            let after = ScriptedInput {
                crashed: before.crashed || before.crashes(now),
                stage: (before.stage + 1) as u32,
                ..before
            };
            &&& before.elapsed(now) >= SETTLE + GAP * before.stage
            &&& after.is_due(later) ==> after.elapsed(later) >= SETTLE + GAP * before.stage + GAP
            &&& before.crashes(now) ==> !after.crashes(later)
        }),
{
    assert(GAP * (before.stage + 1) == GAP * before.stage + GAP) by (nonlinear_arith);
}

// ── Answering what the page asks ──────────────────────────────────────────────

/// The answer to an auth challenge, where the environment has credentials.
pub fn answer_auth_if_challenged(event: &NavigationEvent, spec: Option<&str>) -> (answer: Option<
    (AuthId, String, String),
>)
    ensures
        match (*event, spec) {
            (NavigationEvent::AuthChallenged { id, .. }, Some(text)) => answer matches Some(
                (to, user, password),
            ) && to == id && (user@, password@) == credentials(text@),
            _ => answer is None,
        },
{
    match (event, spec) {
        (NavigationEvent::AuthChallenged { id, .. }, Some(text)) => {
            let (user, password) = parse_credentials(text);
            Some((*id, user, password))
        },
        _ => None,
    }
}

/// The answer to a permission request, where the environment has one: anything
/// but `grant` denies it.
pub fn answer_permission_if_asked(event: &NavigationEvent, answer: Option<&str>) -> (reply: Option<
    (PermissionId, bool),
>)
    ensures
        match (*event, answer) {
            (NavigationEvent::PermissionRequested { id, .. }, Some(text)) => reply == Some(
                (id, text@ == "grant"@),
            ),
            _ => reply is None,
        },
{
    match (event, answer) {
        (NavigationEvent::PermissionRequested { id, .. }, Some(text)) => {
            Some((*id, same_text(text, "grant")))
        },
        _ => None,
    }
}

/// Where to end a drag that the page started, as a copy, where the environment
/// asks for it.
pub fn finish_page_drag_if_started(event: &NavigationEvent, enabled: bool) -> (finish: Option<
    (i32, i32, DragOperations),
>)
    ensures
        match *event {
            NavigationEvent::DragStarted { x, y, .. } if enabled => finish == Some(
                (x, y, DragOperations(DragOperations::COPY)),
            ),
            _ => finish is None,
        },
{
    match event {
        NavigationEvent::DragStarted { x, y, .. } => if enabled {
            Some((*x, *y, DragOperations(DragOperations::COPY)))
        } else {
            None
        },
        _ => None,
    }
}

/// Whether the renderer died and the host recovers from it. Not where it ran out
/// of memory: retrying that only gets there again, slower.
pub open spec fn recovers(event: NavigationEvent, enabled: bool) -> bool {
    enabled && (event matches NavigationEvent::ContentProcessTerminated { status, .. } && status
        != ProcessTerminationStatus::OutOfMemory)
}

/// Whether `recovery` is what a host does about an event, whose browser started at
/// `url`: load that page again and ask for a repaint where it recovers, and
/// nothing otherwise.
pub open spec fn is_recovery(
    url: Seq<char>,
    event: NavigationEvent,
    enabled: bool,
    recovery: Gesture,
) -> bool {
    &&& !recovery.stops_on_error
    &&& if recovers(event, enabled) {
        &&& recovery.actions@.len() == 2
        &&& recovery.actions@[0] matches ScriptedAction::NavigateToUrl(to) && to@ == url
        &&& recovery.actions@[1] is RequestRepaint
    } else {
        recovery.actions@.len() == 0
    }
}

/// What to do about a renderer that died: send the browser back to its starting
/// page, and then have it repaint, whether it took the page or not.
///
/// Back to the start rather than a reload, because the page that killed the
/// renderer would kill its replacement. And the fresh renderer has nothing to
/// paint for this surface until it is asked, so without the repaint the host
/// would show its last frame forever.
pub fn recover_if_crashed(url: &str, event: &NavigationEvent, enabled: bool) -> (recovery: Gesture)
    ensures
        is_recovery(url@, *event, enabled, recovery),
{
    let mut actions: Vec<ScriptedAction> = Vec::new();
    let died = match event {
        NavigationEvent::ContentProcessTerminated { status, .. } => enabled && *status
            != ProcessTerminationStatus::OutOfMemory,
        _ => false,
    };
    if died {
        actions.push(ScriptedAction::NavigateToUrl(url.to_owned()));
        actions.push(ScriptedAction::RequestRepaint);
    }
    Gesture { actions, stops_on_error: false }
}

/// After a crash that is recovered from, the page is loaded again and then a
/// repaint is asked for, even where loading failed. Otherwise nothing is called.
pub proof fn law_recovery_loads_and_repaints(
    url: Seq<char>,
    event: NavigationEvent,
    enabled: bool,
    recovery: Gesture,
    failed: spec_fn(int) -> bool,
)
    requires
        is_recovery(url, event, enabled, recovery),
    ensures
        recovers(event, enabled) ==> {
            &&& recovery.is_made(0, failed) && (recovery.actions@[0] matches
                ScriptedAction::NavigateToUrl(to) && to@ == url)
            &&& recovery.is_made(1, failed) && recovery.actions@[1] is RequestRepaint
            &&& forall|i: int| i > 1 ==> !#[trigger] recovery.is_made(i, failed)
        },
        !recovers(event, enabled) ==> forall|i: int| !#[trigger] recovery.is_made(i, failed),
{
}

/// Nothing happens before the page is ready, or where nothing was asked for. From
/// then on the first gesture comes after three seconds and each further one two
/// seconds later, one at a time.
pub proof fn law_gestures_come_in_their_time(
    before: ScriptedInput,
    after: ScriptedInput,
    ready: bool,
    now: u64,
    outcome: TickOutcome,
)
    requires
        before.stage < u32::MAX,
        exists|input: &mut ScriptedInput|
            *input == before && *final(input) == after && #[trigger] call_ensures(
                ScriptedInput::tick,
                (input, ready, now),
                outcome,
            ),
    ensures
        !ready ==> outcome.gesture is None && outcome.crash is None && after == before,
        outcome.gesture is None ==> after.stage == before.stage,
        outcome.gesture is Some ==> after.stage == before.stage + 1,
        ready && before.ready_at is None ==> outcome.gesture is None,
        outcome.gesture is Some ==> before.ready_at is Some && now - before.ready_at->0
            >= 3_000_000_000 + 2_000_000_000 * before.stage,
        ready && before.click_at is Some && before.ready_at is Some && now - before.ready_at->0
            >= 3_000_000_000 + 2_000_000_000 * before.stage ==> outcome.gesture is Some,
        after.ready_at is Some ==> after.ready_at == before.ready_at || after.ready_at == Some(now),
        before.ready_at is Some ==> after.ready_at == before.ready_at,
{
    assert(2_000_000_000 * before.stage >= 0) by (nonlinear_arith);
}

/// The page is crashed once, when it has been ready for as many seconds as was asked
/// for, and not at all where that was not asked for.
pub proof fn law_the_page_is_crashed_once(
    before: ScriptedInput,
    after: ScriptedInput,
    now: u64,
    outcome: TickOutcome,
    seconds: u64,
)
    requires
        before.stage < u32::MAX,
        exists|input: &mut ScriptedInput|
            *input == before && *final(input) == after && #[trigger] call_ensures(
                ScriptedInput::tick,
                (input, true, now),
                outcome,
            ),
    ensures
        before.crash_after is None ==> outcome.crash is None,
        before.crashed ==> outcome.crash is None,
        outcome.crash is Some ==> after.crashed,
        before.crash_after == Some(seconds) && !before.crashed && before.ready_at is Some
            && before.ready_at->0 <= now ==> (outcome.crash is Some <==> now - before.ready_at->0
            >= seconds * 1_000_000_000),
        outcome.crash matches Some(action) ==> (action matches ScriptedAction::NavigateToUrl(url)
            && url@ == "chrome://crash"@),
{
}

/// A touch starts and ends where it was asked for.
pub proof fn law_a_touch_starts_and_ends(
    before: ScriptedInput,
    after: ScriptedInput,
    now: u64,
    outcome: TickOutcome,
    gesture: Gesture,
)
    requires
        outcome.gesture == Some(gesture),
        before.stage == 0,
        exists|input: &mut ScriptedInput|
            *input == before && *final(input) == after && #[trigger] call_ensures(
                ScriptedInput::tick,
                (input, true, now),
                outcome,
            ),
    ensures
        after.stage == before.stage + 1,
        gesture.stops_on_error == false,
        before.touch_at is None ==> gesture.actions@.len() == 0,
        before.touch_at matches Some((at_x, at_y)) ==> {
            let actions = gesture.actions@;
            &&& actions.len() == 2
            &&& actions[0] matches ScriptedAction::Touch { x, y, phase } && x == at_x && y == at_y
                && phase == TouchPhase::Started
            &&& actions[1] matches ScriptedAction::Touch { x, y, phase } && x == at_x && y == at_y
                && phase == TouchPhase::Ended
        },
{
}

/// A file that is dropped enters first, as a copy and with its path, where the touch was
/// or near the corner.
pub proof fn law_a_dropped_file_enters(
    before: ScriptedInput,
    after: ScriptedInput,
    now: u64,
    outcome: TickOutcome,
    gesture: Gesture,
)
    requires
        outcome.gesture == Some(gesture),
        before.stage == 1,
        exists|input: &mut ScriptedInput|
            *input == before && *final(input) == after && #[trigger] call_ensures(
                ScriptedInput::tick,
                (input, true, now),
                outcome,
            ),
    ensures
        after.stage == before.stage + 1,
        gesture.stops_on_error == false,
        before.drop_file is None ==> gesture.actions@.len() == 0,
        before.drop_file matches Some(path) ==> {
            let actions = gesture.actions@;
            &&& actions.len() == 1
            &&& actions[0] matches ScriptedAction::Drag(input) && input.kind
                == DragEventKind::Enter && input.allowed_operations.0 == 1 && (
            before.touch_at matches Some((x, y)) ==> input.x == x && input.y == y) && (
            before.touch_at is None ==> input.x == 10 && input.y == 10) && (
            input.payload matches Some(payload) && payload.files@.len() == 1
                && payload.files@[0].path@ == path@)
        },
{
}

/// A file that is dropped then moves over the same place, without being handed over again.
pub proof fn law_a_dropped_file_moves(
    before: ScriptedInput,
    after: ScriptedInput,
    now: u64,
    outcome: TickOutcome,
    gesture: Gesture,
)
    requires
        outcome.gesture == Some(gesture),
        before.stage == 2,
        exists|input: &mut ScriptedInput|
            *input == before && *final(input) == after && #[trigger] call_ensures(
                ScriptedInput::tick,
                (input, true, now),
                outcome,
            ),
    ensures
        after.stage == before.stage + 1,
        gesture.stops_on_error == false,
        before.drop_file is None ==> gesture.actions@.len() == 0,
        before.drop_file matches Some(path) ==> {
            let actions = gesture.actions@;
            &&& actions.len() == 1
            &&& actions[0] matches ScriptedAction::Drag(input) && input.kind
                == DragEventKind::Over && input.allowed_operations.0 == 1 && (
            before.touch_at matches Some((x, y)) ==> input.x == x && input.y == y) && (
            before.touch_at is None ==> input.x == 10 && input.y == 10) && (input.payload is None)
        },
{
}

/// A file that is dropped is dropped last, on the same place.
pub proof fn law_a_dropped_file_is_dropped(
    before: ScriptedInput,
    after: ScriptedInput,
    now: u64,
    outcome: TickOutcome,
    gesture: Gesture,
)
    requires
        outcome.gesture == Some(gesture),
        before.stage == 3,
        exists|input: &mut ScriptedInput|
            *input == before && *final(input) == after && #[trigger] call_ensures(
                ScriptedInput::tick,
                (input, true, now),
                outcome,
            ),
    ensures
        after.stage == before.stage + 1,
        gesture.stops_on_error == false,
        before.drop_file is None ==> gesture.actions@.len() == 0,
        before.drop_file matches Some(path) ==> {
            let actions = gesture.actions@;
            &&& actions.len() == 1
            &&& actions[0] matches ScriptedAction::Drag(input) && input.kind
                == DragEventKind::Drop && input.allowed_operations.0 == 1 && (
            before.touch_at matches Some((x, y)) ==> input.x == x && input.y == y) && (
            before.touch_at is None ==> input.x == 10 && input.y == 10) && (input.payload is None)
        },
{
}

/// A drag on the page is pressed where it starts and moved, held, to where it ends.
pub proof fn law_a_page_drag_is_held(
    before: ScriptedInput,
    after: ScriptedInput,
    now: u64,
    outcome: TickOutcome,
    gesture: Gesture,
)
    requires
        outcome.gesture == Some(gesture),
        before.stage == 4,
        exists|input: &mut ScriptedInput|
            *input == before && *final(input) == after && #[trigger] call_ensures(
                ScriptedInput::tick,
                (input, true, now),
                outcome,
            ),
    ensures
        after.stage == before.stage + 1,
        gesture.stops_on_error == true,
        before.page_drag is None ==> gesture.actions@.len() == 0,
        before.page_drag matches Some((x0, y0, x1, y1)) ==> {
            let actions = gesture.actions@;
            &&& actions.len() == 3
            &&& actions[0] matches ScriptedAction::Mouse(event) && event.x == x0 && event.y == y0
                && event.button == MouseButton::Left && event.action == MouseAction::Moved
            &&& actions[1] matches ScriptedAction::Mouse(event) && event.x == x0 && event.y == y0
                && event.button == MouseButton::Left && event.action == MouseAction::Pressed
                && event.modifiers.left_mouse_button
            &&& actions[2] matches ScriptedAction::Mouse(event) && event.x == x1 && event.y == y1
                && event.button == MouseButton::Left && event.action == MouseAction::Moved
                && event.modifiers.left_mouse_button
        },
{
}

/// A click takes the focus, moves to its place, and is pressed and released there.
pub proof fn law_a_click_is_pressed_and_released(
    before: ScriptedInput,
    after: ScriptedInput,
    now: u64,
    outcome: TickOutcome,
    gesture: Gesture,
)
    requires
        outcome.gesture == Some(gesture),
        before.stage == 5,
        exists|input: &mut ScriptedInput|
            *input == before && *final(input) == after && #[trigger] call_ensures(
                ScriptedInput::tick,
                (input, true, now),
                outcome,
            ),
    ensures
        after.stage == before.stage + 1,
        gesture.stops_on_error == false,
        before.click_at is None ==> gesture.actions@.len() == 0,
        before.click_at matches Some((x, y)) ==> {
            let actions = gesture.actions@;
            &&& actions.len() == 4
            &&& actions[0] is MoveFocus
            &&& actions[1] matches ScriptedAction::Mouse(event) && event.x == x && event.y == y
                && event.button == MouseButton::Left && event.action == MouseAction::Moved
            &&& actions[2] matches ScriptedAction::Mouse(event) && event.x == x && event.y == y
                && event.button == MouseButton::Left && event.action == MouseAction::Pressed
            &&& actions[3] matches ScriptedAction::Mouse(event) && event.x == x && event.y == y
                && event.button == MouseButton::Left && event.action == MouseAction::Released
        },
{
}

/// A wheel is turned as far as was asked for, up or down, where the click was or near
/// the corner.
pub proof fn law_a_wheel_is_turned_as_far_as_asked(
    before: ScriptedInput,
    after: ScriptedInput,
    now: u64,
    outcome: TickOutcome,
    gesture: Gesture,
)
    requires
        outcome.gesture == Some(gesture),
        before.stage == 6,
        exists|input: &mut ScriptedInput|
            *input == before && *final(input) == after && #[trigger] call_ensures(
                ScriptedInput::tick,
                (input, true, now),
                outcome,
            ),
    ensures
        after.stage == before.stage + 1,
        gesture.stops_on_error == false,
        before.wheel is None ==> gesture.actions@.len() == 0,
        before.wheel matches Some(turn) ==> {
            let actions = gesture.actions@;
            &&& actions.len() == 1
            &&& actions[0] matches ScriptedAction::Mouse(event) && event.action == (
            MouseAction::WheelScrolled { delta_x: 0, delta_y: turn }) && (
            before.click_at matches Some((x, y)) ==> event.x == x && event.y == y) && (
            before.click_at is None ==> event.x == 10 && event.y == 10)
        },
{
}

/// A key goes down, makes its character and comes up. Its code is that of the upper
/// case of a letter.
pub proof fn law_a_key_goes_down_and_up(
    before: ScriptedInput,
    after: ScriptedInput,
    now: u64,
    outcome: TickOutcome,
    gesture: Gesture,
)
    requires
        outcome.gesture == Some(gesture),
        before.stage == 7,
        exists|input: &mut ScriptedInput|
            *input == before && *final(input) == after && #[trigger] call_ensures(
                ScriptedInput::tick,
                (input, true, now),
                outcome,
            ),
    ensures
        after.stage == before.stage + 1,
        gesture.stops_on_error == false,
        before.key is None ==> gesture.actions@.len() == 0,
        before.key matches Some(c) ==> {
            let actions = gesture.actions@;
            &&& actions.len() == 3
            &&& actions[0] matches ScriptedAction::Key(key) && key.kind == KeyEventKind::RawKeyDown
                && key.character == Some(c) && key.native_key_code == 0 && key.windows_key_code == (if 97 <= c as int <= 122 {
                c as int - 32
            } else {
                c as int
            })
            &&& actions[1] matches ScriptedAction::Key(key) && key.kind == KeyEventKind::Char
                && key.character == Some(c) && key.native_key_code == 0 && key.windows_key_code == (if 97 <= c as int <= 122 {
                c as int - 32
            } else {
                c as int
            })
            &&& actions[2] matches ScriptedAction::Key(key) && key.kind == KeyEventKind::KeyUp
                && key.character == Some(c) && key.native_key_code == 0 && key.windows_key_code == (if 97 <= c as int <= 122 {
                c as int - 32
            } else {
                c as int
            })
        },
{
    if let Some(c) = before.key {
        lemma_scalar(c);
    }
}

/// A character is a Unicode scalar value.
proof fn lemma_scalar(c: char)
    ensures
        0 <= c as int <= 0x10_ffff,
{
}

/// Text is composed, committed, finished or both composed and committed, as asked.
pub proof fn law_text_is_composed_as_asked(
    before: ScriptedInput,
    after: ScriptedInput,
    now: u64,
    outcome: TickOutcome,
    gesture: Gesture,
)
    requires
        outcome.gesture == Some(gesture),
        before.stage == 8,
        exists|input: &mut ScriptedInput|
            *input == before && *final(input) == after && #[trigger] call_ensures(
                ScriptedInput::tick,
                (input, true, now),
                outcome,
            ),
    ensures
        after.stage == before.stage + 1,
        gesture.stops_on_error == true,
        before.ime is None ==> gesture.actions@.len() == 0,
        before.ime matches Some(text) ==> {
            let actions = gesture.actions@;
            &&& actions.len() == (if before.ime_mode == ImeMode::Commit || before.ime_mode
                == ImeMode::Compose {
                1int
            } else {
                2int
            })
            &&& before.ime_mode == ImeMode::Commit ==> (actions[0] matches
                ScriptedAction::ImeCommitText(committed) && committed@ == text@)
            &&& before.ime_mode != ImeMode::Commit ==> (actions[0] matches
                ScriptedAction::ImeSetComposition { text: composed, selection } && composed@
                == text@ && selection.0 == selection.1 && (text@.len() < 0x1_0000_0000
                ==> selection.0 == text@.len()))
            &&& before.ime_mode == ImeMode::Finish ==> (actions[1] matches
                ScriptedAction::ImeFinishComposing { keep_selection } && !keep_selection)
            &&& before.ime_mode == ImeMode::Both ==> (actions[1] matches
                ScriptedAction::ImeCommitText(committed) && committed@ == text@)
        },
{
}

/// A view that is to be hidden is hidden first.
pub proof fn law_a_view_is_hidden_first(
    before: ScriptedInput,
    after: ScriptedInput,
    now: u64,
    outcome: TickOutcome,
    gesture: Gesture,
)
    requires
        outcome.gesture == Some(gesture),
        before.stage == 9,
        exists|input: &mut ScriptedInput|
            *input == before && *final(input) == after && #[trigger] call_ensures(
                ScriptedInput::tick,
                (input, true, now),
                outcome,
            ),
    ensures
        after.stage == before.stage + 1,
        gesture.stops_on_error == false,
        !before.hide_cycle ==> gesture.actions@.len() == 0,
        before.hide_cycle ==> gesture.actions@.len() == 1 && (
        gesture.actions@[0] matches ScriptedAction::SetVisible(visible) && !visible),
{
}

/// A view that was hidden is shown again.
pub proof fn law_a_view_is_shown_again(
    before: ScriptedInput,
    after: ScriptedInput,
    now: u64,
    outcome: TickOutcome,
    gesture: Gesture,
)
    requires
        outcome.gesture == Some(gesture),
        before.stage == 10,
        exists|input: &mut ScriptedInput|
            *input == before && *final(input) == after && #[trigger] call_ensures(
                ScriptedInput::tick,
                (input, true, now),
                outcome,
            ),
    ensures
        after.stage == before.stage + 1,
        gesture.stops_on_error == false,
        !before.hide_cycle ==> gesture.actions@.len() == 0,
        before.hide_cycle ==> gesture.actions@.len() == 1 && (
        gesture.actions@[0] matches ScriptedAction::SetVisible(visible) && visible),
{
}

/// DevTools are opened where they are wanted.
pub proof fn law_devtools_are_opened_if_wanted(
    before: ScriptedInput,
    after: ScriptedInput,
    now: u64,
    outcome: TickOutcome,
    gesture: Gesture,
)
    requires
        outcome.gesture == Some(gesture),
        before.stage == 11,
        exists|input: &mut ScriptedInput|
            *input == before && *final(input) == after && #[trigger] call_ensures(
                ScriptedInput::tick,
                (input, true, now),
                outcome,
            ),
    ensures
        after.stage == before.stage + 1,
        gesture.stops_on_error == false,
        !before.devtools ==> gesture.actions@.len() == 0,
        before.devtools ==> gesture.actions@.len() == 1 && gesture.actions@[0] is OpenDevTools,
{
}

/// A right click moves to its place, and is pressed and released there.
pub proof fn law_a_right_click_is_pressed_and_released(
    before: ScriptedInput,
    after: ScriptedInput,
    now: u64,
    outcome: TickOutcome,
    gesture: Gesture,
)
    requires
        outcome.gesture == Some(gesture),
        before.stage == 12,
        exists|input: &mut ScriptedInput|
            *input == before && *final(input) == after && #[trigger] call_ensures(
                ScriptedInput::tick,
                (input, true, now),
                outcome,
            ),
    ensures
        after.stage == before.stage + 1,
        gesture.stops_on_error == false,
        before.right_click_at is None ==> gesture.actions@.len() == 0,
        before.right_click_at matches Some((x, y)) ==> {
            let actions = gesture.actions@;
            &&& actions.len() == 3
            &&& actions[0] matches ScriptedAction::Mouse(event) && event.x == x && event.y == y
                && event.button == MouseButton::Right && event.action == MouseAction::Moved
            &&& actions[1] matches ScriptedAction::Mouse(event) && event.x == x && event.y == y
                && event.button == MouseButton::Right && event.action == MouseAction::Pressed
            &&& actions[2] matches ScriptedAction::Mouse(event) && event.x == x && event.y == y
                && event.button == MouseButton::Right && event.action == MouseAction::Released
        },
{
}

/// A permission is granted only by the word for it, and a challenge is answered with
/// the user and the password that were given, each to the question that was asked.
pub proof fn law_questions_are_answered_as_told(
    event: NavigationEvent,
    text: &str,
    reply: Option<(PermissionId, bool)>,
    answer: Option<(AuthId, String, String)>,
)
    requires
        call_ensures(answer_permission_if_asked, (&event, Some(text)), reply),
        call_ensures(answer_auth_if_challenged, (&event, Some(text)), answer),
    ensures
        event matches NavigationEvent::PermissionRequested { id, .. } ==> (reply matches Some(
            (to, granted),
        ) && to == id && (granted <==> text@ == "grant"@)),
        !(event is PermissionRequested) ==> reply is None,
        event matches NavigationEvent::AuthChallenged { id, .. } ==> (answer matches Some(
            (to, user, password),
        ) && to == id && !user@.contains(':') && (text@ == user@ + seq![':'] + password@ || text@
            == user@ && password@.len() == 0)),
        !(event is AuthChallenged) ==> answer is None,
        forall|none: Option<(PermissionId, bool)>| #[trigger]
            call_ensures(answer_permission_if_asked, (&event, None), none) ==> none is None,
        forall|none: Option<(AuthId, String, String)>| #[trigger]
            call_ensures(answer_auth_if_challenged, (&event, None), none) ==> none is None,
{
    lemma_find(text@, ':');
    let n = find(text@, ':') as int;
    if n < text@.len() {
        assert(text@ =~= text@.take(n) + seq![':'] + text@.skip(n + 1));
    }
}

/// A drag that the page started is ended where it started, as a copy, where that was
/// asked for.
pub proof fn law_a_page_drag_is_ended(
    event: NavigationEvent,
    enabled: bool,
    finish: Option<(i32, i32, DragOperations)>,
)
    requires
        call_ensures(finish_page_drag_if_started, (&event, enabled), finish),
    ensures
        finish is Some <==> enabled && event is DragStarted,
        event matches NavigationEvent::DragStarted { x: at_x, y: at_y, .. } ==> (finish matches Some(
            (x, y, operation),
        ) ==> x == at_x && y == at_y && operation.0 == 1),
{
}

/// A page whose process was lost is loaded and painted again, but for one that ran
/// out of memory. Nothing else brings it back.
pub proof fn law_a_lost_page_is_loaded_again(
    url: &str,
    event: NavigationEvent,
    enabled: bool,
    recovery: Gesture,
)
    requires
        call_ensures(recover_if_crashed, (url, &event, enabled), recovery),
    ensures
        recovery.actions@.len() == 0 || recovery.actions@.len() == 2,
        recovery.actions@.len() == 2 <==> enabled && (
        event matches NavigationEvent::ContentProcessTerminated { status, .. } && status
            != ProcessTerminationStatus::OutOfMemory),
        recovery.actions@.len() == 2 ==> (recovery.actions@[0] matches
            ScriptedAction::NavigateToUrl(to) && to@ == url@)
            && recovery.actions@[1] is RequestRepaint,
        !recovery.stops_on_error,
{
}

/// What is to be done is what was asked for, part by part, and something is to be done
/// exactly where some part was asked for.
pub proof fn law_what_is_scripted_was_asked_for(
    vars: ScriptedVars,
    scripted: ScriptedInput,
    armed: bool,
)
    requires
        call_ensures(ScriptedInput::from_env, (vars,), scripted),
        call_ensures(ScriptedInput::armed, (&scripted,), armed),
    ensures
        vars.click_at is None ==> scripted.click_at is None,
        vars.right_click_at is None ==> scripted.right_click_at is None,
        vars.touch_at is None ==> scripted.touch_at is None,
        vars.wheel is None ==> scripted.wheel is None,
        vars.key is None ==> scripted.key is None,
        vars.key matches Some(text) ==> (text@.len() > 0 ==> scripted.key == Some(text@[0])),
        vars.ime matches Some(text) ==> (text@.len() > 0 ==> scripted.ime == Some(text)),
        scripted.drop_file == vars.drop_file,
        scripted.hide_cycle == vars.hide_cycle,
        scripted.devtools == vars.devtools,
        vars.ime_mode matches Some(text) ==> (text@ == "commit"@ ==> scripted.ime_mode
            == ImeMode::Commit),
        vars.ime_mode is None ==> scripted.ime_mode == ImeMode::Both,
        scripted.stage == 0 && scripted.ready_at is None && !scripted.crashed,
        armed <==> scripted.click_at is Some || scripted.wheel is Some || scripted.key is Some
            || scripted.crash_after is Some || scripted.ime is Some || scripted.hide_cycle
            || scripted.devtools || scripted.right_click_at is Some || scripted.touch_at is Some
            || scripted.drop_file is Some || scripted.page_drag is Some,
{
}

/// What is written of a gesture is read as any point, number or drag is read.
pub proof fn law_what_is_scripted_is_read_as_written(
    vars: ScriptedVars,
    scripted: ScriptedInput,
    text: String,
    written: &str,
    point: Option<(i32, i32)>,
    number: Option<i32>,
    drag: Option<(i32, i32, i32, i32)>,
    seconds: Option<u64>,
)
    requires
        call_ensures(ScriptedInput::from_env, (vars,), scripted),
        written@ == text@,
        call_ensures(parse_point, (written,), point),
        call_ensures(parse_integer, (written,), number),
        call_ensures(parse_drag, (written,), drag),
        call_ensures(parse_trimmed_seconds, (written,), seconds),
    ensures
        vars.click_at == Some(text) ==> scripted.click_at == point,
        vars.right_click_at == Some(text) ==> scripted.right_click_at == point,
        vars.touch_at == Some(text) ==> scripted.touch_at == point,
        vars.wheel == Some(text) ==> scripted.wheel == number,
        vars.page_drag == Some(text) ==> scripted.page_drag == drag,
        vars.crash_after_secs == Some(text) ==> scripted.crash_after == seconds,
        vars.ime_mode == Some(text) ==> (scripted.ime_mode == ImeMode::Compose <==> text@
            == "compose"@ && text@ != "commit"@),
        vars.ime_mode == Some(text) ==> (scripted.ime_mode == ImeMode::Commit <==> text@
            == "commit"@),
        forall|gesture: Gesture, failed: bool, on: bool| #[trigger]
            call_ensures(Gesture::goes_on, (&gesture, failed), on) ==> (on <==> !failed
                || !gesture.stops_on_error),
{
}

} // verus!
