//! The decisions of a demo host: what a window event means for the browser, what
//! a redraw has to do, and when a run is over.
//!
//! Windows and rendering belong to whoever runs the event loop. It hands each
//! event over in plain values, performs what comes back, and says how it went.
use vstd::prelude::*;
use vstd::string::*;
use crate::platform::{PhysicalSize, Platform};
use crate::surface::{
    no_modifiers, Cookie, EventModifiers, KeyEvent, KeyEventKind, MouseAction, MouseButton,
    MouseEvent, PopupRect,
};
use crate::text::joined3;

verus! {

/// What happened to the window.
#[derive(Clone, Copy, Debug, PartialEq, Eq, Structural)]
pub enum HostEvent {
    CloseRequested,
    /// The display's density changed. `forced` says that the scale is pinned.
    ScaleFactorChanged { forced: bool },
    Resized(PhysicalSize),
    Focused,
    ModifiersChanged { shift: bool, ctrl: bool, alt: bool, meta: bool },
    /// A key with its virtual-key code, or `None` for a key without one, and the
    /// first character of the text it makes.
    Key { code: Option<i32>, pressed: bool, text: Option<char> },
    /// The pointer moved. A click after it lands at `click_x`, `click_y`.
    CursorMoved { x: i32, y: i32, click_x: i32, click_y: i32 },
    /// A button, or `None` for one that the browser does not know.
    MouseInput { button: Option<MouseButton>, pressed: bool },
    MouseWheel { delta_x: i32, delta_y: i32 },
}

/// What to do about it.
#[derive(Clone, Copy, Debug, PartialEq, Eq, Structural)]
pub enum HostAction {
    /// Close the browser.
    Close,
    /// Leave the event loop.
    Exit,
    /// Hand the new scale to the browser.
    ApplyScale,
    /// Configure the presentation surface for this size.
    ConfigureSurface(PhysicalSize),
    /// Hand the new size to the browser.
    Resize(PhysicalSize),
    /// Give the browser the focus.
    MoveFocus,
    Key(KeyEvent),
    Mouse(MouseEvent),
}

/// What a host remembers between events.
#[derive(Clone, Copy, Debug)]
pub struct HostState {
    pub platform: Platform,
    pub modifiers: EventModifiers,
    /// Where a click lands.
    pub cursor: (i32, i32),
    pub frames_imported: u32,
    pub frames_drawn: u32,
    pub popups_imported: u32,
    pub import_errors: u64,
    /// The window has the focus and the browser does not know yet.
    pub focus_pending: bool,
    pub focus_attempted: bool,
    /// The browser was asked to close.
    pub closing: bool,
    pub ticks: u32,
    pub protocol_ticks: u32,
    pub battery_started: bool,
    pub cookies_requested: bool,
    pub script_requested: bool,
    pub snapshot_requested: bool,
    pub history_checked: bool,
}

/// What imported frames come to.
#[derive(Clone, Copy, Debug, PartialEq, Eq, Structural)]
pub enum FrameOutcome {
    Imported,
    NothingNew,
    Failed,
}

/// What a run wants to be checked.
#[derive(Clone, Copy, Debug, PartialEq, Eq, Structural)]
pub struct TickWants {
    pub protocol: bool,
    pub snapshot: bool,
    pub script: bool,
    pub cookies: bool,
    /// On macOS: whether the page has somewhere to go back or forward to.
    pub history: bool,
    /// On macOS: the capture waits for gestures that are not over.
    pub snapshot_held: bool,
    /// Nanoseconds since the browser came up.
    pub elapsed: u64,
}

/// How long a page loads before its history is looked at.
pub const HISTORY_DELAY: u64 = 2_000_000_000;

/// What a tick has to do.
#[derive(Clone, Copy, Debug, PartialEq, Eq, Structural)]
pub struct TickPlan {
    /// Search, print and zoom the page, as far as asked for.
    pub page_checks: bool,
    pub snapshot: bool,
    /// Send the one protocol message.
    pub protocol_message: bool,
    pub script: bool,
    pub cookies: bool,
    /// Say whether the page has somewhere to go back or forward to.
    pub history: bool,
}

/// A key event of the host.
pub open spec fn host_key(
    kind: KeyEventKind,
    code: i32,
    character: Option<char>,
    modifiers: EventModifiers,
) -> HostAction {
    HostAction::Key(
        KeyEvent { kind, windows_key_code: code, native_key_code: 0, character, modifiers },
    )
}

/// `side`, but at least one.
pub open spec fn at_least_one(side: u32) -> u32 {
    if side == 0 {
        1
    } else {
        side
    }
}

impl HostState {
    /// Nothing has happened yet. The window starts with the focus, which the
    /// browser is given later, except on macOS, where it is given with the event.
    pub fn new(platform: Platform) -> (state: Self)
        ensures
            state == (HostState {
                platform,
                modifiers: no_modifiers(),
                cursor: (0, 0),
                frames_imported: 0,
                frames_drawn: 0,
                popups_imported: 0,
                import_errors: 0,
                focus_pending: platform != Platform::Macos,
                focus_attempted: false,
                closing: false,
                ticks: 0,
                protocol_ticks: 0,
                battery_started: false,
                cookies_requested: false,
                script_requested: false,
                snapshot_requested: false,
                history_checked: false,
            }),
    {
        HostState {
            platform,
            modifiers: EventModifiers::default(),
            cursor: (0, 0),
            frames_imported: 0,
            frames_drawn: 0,
            popups_imported: 0,
            import_errors: 0,
            focus_pending: platform != Platform::Macos,
            focus_attempted: false,
            closing: false,
            ticks: 0,
            protocol_ticks: 0,
            battery_started: false,
            cookies_requested: false,
            script_requested: false,
            snapshot_requested: false,
            history_checked: false,
        }
    }

    /// Whether input goes to the browser. Before its first frame there may be
    /// none to take it, except on macOS, where it exists before the window.
    pub open spec fn takes_input(self) -> bool {
        self.frames_imported > 0 || self.platform == Platform::Macos
    }

    /// Whether input goes to the browser.
    fn is_listening(&self) -> (listening: bool)
        ensures
            listening == self.takes_input(),
    {
        self.frames_imported > 0 || self.platform == Platform::Macos
    }

    /// The modifiers with a button pressed or released.
    pub open spec fn with_button(self, button: MouseButton, pressed: bool) -> EventModifiers {
        match button {
            MouseButton::Left => EventModifiers { left_mouse_button: pressed, ..self.modifiers },
            MouseButton::Middle => EventModifiers {
                middle_mouse_button: pressed,
                ..self.modifiers
            },
            MouseButton::Right => EventModifiers { right_mouse_button: pressed, ..self.modifiers },
        }
    }

    /// The state after an event.
    pub open spec fn after(self, event: HostEvent) -> HostState {
        match event {
            HostEvent::CloseRequested => HostState { closing: true, ..self },
            HostEvent::Focused => if self.platform == Platform::Macos {
                self
            } else {
                HostState { focus_pending: true, focus_attempted: false, ..self }
            },
            HostEvent::ModifiersChanged { shift, ctrl, alt, meta } => HostState {
                modifiers: EventModifiers { shift, ctrl, alt, meta, ..self.modifiers },
                ..self
            },
            HostEvent::CursorMoved { click_x, click_y, .. } => HostState {
                cursor: (click_x, click_y),
                ..self
            },
            HostEvent::MouseInput { button: Some(button), pressed } => HostState {
                modifiers: self.with_button(button, pressed),
                ..self
            },
            _ => self,
        }
    }

    /// What to do about an event.
    ///
    /// A key that is pressed is sent as such and, where it makes text, as a
    /// character; one that is released, as released. Everything carries the
    /// modifiers and buttons that are down once the event has happened.
    pub open spec fn response(self, event: HostEvent) -> Seq<HostAction> {
        let after = self.after(event);
        match event {
            HostEvent::CloseRequested => if self.platform != Platform::Windows {
                seq![HostAction::Close, HostAction::Exit]
            } else if !self.closing {
                seq![HostAction::Close]
            } else {
                Seq::empty()
            },
            HostEvent::ScaleFactorChanged { forced } => if forced {
                Seq::empty()
            } else {
                seq![HostAction::ApplyScale]
            },
            HostEvent::Resized(size) => seq![
                HostAction::ConfigureSurface(
                    PhysicalSize {
                        width: at_least_one(size.width),
                        height: at_least_one(size.height),
                    },
                ),
                HostAction::Resize(size),
            ],
            HostEvent::Focused => if self.platform == Platform::Macos {
                seq![HostAction::MoveFocus]
            } else {
                Seq::empty()
            },
            HostEvent::ModifiersChanged { .. } => Seq::empty(),
            HostEvent::Key { code, pressed, text } => match code {
                Some(code) if self.takes_input() => if !pressed {
                    seq![host_key(KeyEventKind::KeyUp, code, None, after.modifiers)]
                } else {
                    match text {
                        Some(c) => seq![
                            host_key(KeyEventKind::RawKeyDown, code, None, after.modifiers),
                            host_key(KeyEventKind::Char, code, Some(c), after.modifiers),
                        ],
                        None => seq![
                            host_key(KeyEventKind::RawKeyDown, code, None, after.modifiers),
                        ],
                    }
                },
                _ => Seq::empty(),
            },
            HostEvent::CursorMoved { x, y, .. } => if self.takes_input() {
                seq![
                    HostAction::Mouse(
                        MouseEvent {
                            x,
                            y,
                            button: MouseButton::Left,
                            action: MouseAction::Moved,
                            modifiers: after.modifiers,
                        },
                    ),
                ]
            } else {
                Seq::empty()
            },
            HostEvent::MouseInput { button, pressed } => match button {
                Some(button) if self.takes_input() => seq![
                    HostAction::Mouse(
                        MouseEvent {
                            x: self.cursor.0,
                            y: self.cursor.1,
                            button,
                            action: if pressed {
                                MouseAction::Pressed
                            } else {
                                MouseAction::Released
                            },
                            modifiers: after.modifiers,
                        },
                    ),
                ],
                _ => Seq::empty(),
            },
            HostEvent::MouseWheel { delta_x, delta_y } => if self.takes_input() {
                seq![
                    HostAction::Mouse(
                        MouseEvent {
                            x: self.cursor.0,
                            y: self.cursor.1,
                            button: MouseButton::Left,
                            action: MouseAction::WheelScrolled { delta_x, delta_y },
                            modifiers: after.modifiers,
                        },
                    ),
                ]
            } else {
                Seq::empty()
            },
        }
    }

    /// Take in an event, and say what to do about it.
    pub fn window_event(&mut self, event: HostEvent) -> (actions: Vec<HostAction>)
        ensures
            *final(self) == old(self).after(event),
            actions@ == old(self).response(event),
    {
        match event {
            HostEvent::CloseRequested => {
                let actions: Vec<HostAction> = self.close_actions();
                *self = HostState { closing: true, ..*self };
                actions
            },
            HostEvent::ScaleFactorChanged { forced } => {
                let mut actions: Vec<HostAction> = Vec::new();
                if !forced {
                    actions.push(HostAction::ApplyScale);
                }
                assert(actions@ =~= old(self).response(event));
                actions
            },
            HostEvent::Resized(size) => {
                let actions: Vec<HostAction> = Self::resize_actions(size);
                assert(actions@ =~= old(self).response(event));
                actions
            },
            HostEvent::Focused => {
                let mut actions: Vec<HostAction> = Vec::new();
                if self.platform == Platform::Macos {
                    actions.push(HostAction::MoveFocus);
                } else {
                    *self = HostState { focus_pending: true, focus_attempted: false, ..*self };
                }
                assert(actions@ =~= old(self).response(event));
                actions
            },
            HostEvent::ModifiersChanged { shift, ctrl, alt, meta } => {
                let modifiers = EventModifiers { shift, ctrl, alt, meta, ..self.modifiers };
                *self = HostState { modifiers, ..*self };
                let actions: Vec<HostAction> = Vec::new();
                assert(actions@ =~= old(self).response(event));
                actions
            },
            HostEvent::Key { code, pressed, text } => {
                let actions: Vec<HostAction> = match code {
                    Some(code) => if self.is_listening() {
                        self.key_actions(code, pressed, text)
                    } else {
                        Vec::new()
                    },
                    None => Vec::new(),
                };
                assert(actions@ =~= old(self).response(event));
                actions
            },
            HostEvent::CursorMoved { x, y, click_x, click_y } => {
                *self = HostState { cursor: (click_x, click_y), ..*self };
                let mut actions: Vec<HostAction> = Vec::new();
                if self.is_listening() {
                    actions.push(
                        HostAction::Mouse(
                            MouseEvent {
                                x,
                                y,
                                button: MouseButton::Left,
                                action: MouseAction::Moved,
                                modifiers: self.modifiers,
                            },
                        ),
                    );
                }
                assert(actions@ =~= old(self).response(event));
                actions
            },
            HostEvent::MouseInput { button, pressed } => {
                let mut actions: Vec<HostAction> = Vec::new();
                match button {
                    Some(button) => {
                        let modifiers: EventModifiers = self.hold(button, pressed);
                        *self = HostState { modifiers, ..*self };
                        if self.is_listening() {
                            let action = if pressed {
                                MouseAction::Pressed
                            } else {
                                MouseAction::Released
                            };
                            actions.push(self.mouse(button, action));
                        }
                    },
                    None => {},
                }
                assert(actions@ =~= old(self).response(event));
                actions
            },
            HostEvent::MouseWheel { delta_x, delta_y } => {
                let mut actions: Vec<HostAction> = Vec::new();
                if self.is_listening() {
                    actions.push(
                        self.mouse(
                            MouseButton::Left,
                            MouseAction::WheelScrolled { delta_x, delta_y },
                        ),
                    );
                }
                assert(actions@ =~= old(self).response(event));
                actions
            },
        }
    }

    /// What closing the window does.
    fn close_actions(&self) -> (actions: Vec<HostAction>)
        ensures
            actions@ == self.response(HostEvent::CloseRequested),
    {
        let mut actions: Vec<HostAction> = Vec::new();
        if self.platform != Platform::Windows {
            actions.push(HostAction::Close);
            actions.push(HostAction::Exit);
        } else if !self.closing {
            actions.push(HostAction::Close);
        }
        assert(actions@ =~= self.response(HostEvent::CloseRequested));
        actions
    }

    /// What a new window size does.
    fn resize_actions(size: PhysicalSize) -> (actions: Vec<HostAction>)
        ensures
            actions@ == seq![
                HostAction::ConfigureSurface(
                    PhysicalSize {
                        width: at_least_one(size.width),
                        height: at_least_one(size.height),
                    },
                ),
                HostAction::Resize(size),
            ],
    {
        let width: u32 = if size.width == 0 {
            1
        } else {
            size.width
        };
        let height: u32 = if size.height == 0 {
            1
        } else {
            size.height
        };
        let mut actions: Vec<HostAction> = Vec::new();
        actions.push(HostAction::ConfigureSurface(PhysicalSize { width, height }));
        actions.push(HostAction::Resize(size));
        actions
    }

    /// What a key does that the browser hears of.
    fn key_actions(&self, code: i32, pressed: bool, text: Option<char>) -> (actions: Vec<
        HostAction,
    >)
        requires
            self.takes_input(),
        ensures
            actions@ == self.response(HostEvent::Key { code: Some(code), pressed, text }),
    {
        let mut actions: Vec<HostAction> = Vec::new();
        if pressed {
            actions.push(self.key(KeyEventKind::RawKeyDown, code, None));
            match text {
                Some(c) => {
                    actions.push(self.key(KeyEventKind::Char, code, Some(c)));
                },
                None => {},
            }
        } else {
            actions.push(self.key(KeyEventKind::KeyUp, code, None));
        }
        assert(actions@ =~= self.response(HostEvent::Key { code: Some(code), pressed, text }));
        actions
    }

    /// The modifiers with a button pressed or released.
    fn hold(&self, button: MouseButton, pressed: bool) -> (modifiers: EventModifiers)
        ensures
            modifiers == self.with_button(button, pressed),
    {
        match button {
            MouseButton::Left => EventModifiers { left_mouse_button: pressed, ..self.modifiers },
            MouseButton::Middle => EventModifiers {
                middle_mouse_button: pressed,
                ..self.modifiers
            },
            MouseButton::Right => EventModifiers { right_mouse_button: pressed, ..self.modifiers },
        }
    }

    /// A key event with what is held.
    fn key(&self, kind: KeyEventKind, code: i32, character: Option<char>) -> (action: HostAction)
        ensures
            action == host_key(kind, code, character, self.modifiers),
    {
        HostAction::Key(
            KeyEvent {
                kind,
                windows_key_code: code,
                native_key_code: 0,
                character,
                modifiers: self.modifiers,
            },
        )
    }

    /// A mouse event where a click lands, with what is held.
    fn mouse(&self, button: MouseButton, action: MouseAction) -> (event: HostAction)
        ensures
            event == HostAction::Mouse(
                MouseEvent {
                    x: self.cursor.0,
                    y: self.cursor.1,
                    button,
                    action,
                    modifiers: self.modifiers,
                },
            ),
    {
        HostAction::Mouse(
            MouseEvent {
                x: self.cursor.0,
                y: self.cursor.1,
                button,
                action,
                modifiers: self.modifiers,
            },
        )
    }

    // ── Redrawing ─────────────────────────────────────────────────────────────

    /// Count what acquiring a frame came to. Returns whether a failure is worth
    /// a line in the log. On Linux only the first and every five-hundredth is: a
    /// device that cannot import fails on every paint, and an animating page
    /// paints forever.
    pub fn frame_acquired(&mut self, outcome: FrameOutcome) -> (logged: bool)
        requires
            outcome == FrameOutcome::Imported ==> old(self).frames_imported < u32::MAX,
            outcome == FrameOutcome::Failed ==> old(self).import_errors < u64::MAX,
        ensures
            *final(self) == match outcome {
                FrameOutcome::Imported => HostState {
                    frames_imported: (old(self).frames_imported + 1) as u32,
                    ..*old(self)
                },
                FrameOutcome::NothingNew => *old(self),
                FrameOutcome::Failed => HostState {
                    import_errors: (old(self).import_errors + 1) as u64,
                    ..*old(self)
                },
            },
            logged == (outcome == FrameOutcome::Failed && (old(self).platform != Platform::Linux
                || final(self).import_errors == 1 || final(self).import_errors % 500 == 0)),
    {
        match outcome {
            FrameOutcome::Imported => {
                self.frames_imported = self.frames_imported + 1;
                false
            },
            FrameOutcome::NothingNew => false,
            FrameOutcome::Failed => {
                self.import_errors = self.import_errors + 1;
                self.platform != Platform::Linux || self.import_errors == 1 || self.import_errors
                    % 500 == 0
            },
        }
    }

    /// Whether to give the browser the focus now: the window has it, the browser
    /// has painted, and it was not tried since the window got it.
    pub fn take_focus_attempt(&mut self) -> (attempt: bool)
        ensures
            attempt == (old(self).focus_pending && !old(self).focus_attempted && old(
                self).frames_imported > 0),
            *final(self) == (if attempt {
                HostState { focus_attempted: true, ..*old(self) }
            } else {
                *old(self)
            }),
    {
        if self.focus_pending && !self.focus_attempted && self.frames_imported > 0 {
            self.focus_attempted = true;
            true
        } else {
            false
        }
    }

    /// The browser took the focus, or did not.
    pub fn focus_moved(&mut self, taken: bool)
        ensures
            *final(self) == (if taken {
                HostState { focus_pending: false, ..*old(self) }
            } else {
                *old(self)
            }),
    {
        if taken {
            self.focus_pending = false;
        }
    }

    /// A popup surface was imported.
    pub fn popup_imported(&mut self)
        requires
            old(self).popups_imported < u32::MAX,
        ensures
            *final(self) == (HostState {
                popups_imported: (old(self).popups_imported + 1) as u32,
                ..*old(self)
            }),
    {
        self.popups_imported = self.popups_imported + 1;
    }

    /// What a tick does on Linux and macOS. It counts ticks rather than imported
    /// frames: painting is change-driven, so a static page yields one frame.
    pub open spec fn ticked(self, wants: TickWants) -> (HostState, TickPlan) {
        let ticks = (self.ticks + 1) as u32;
        let protocol_ticks = if wants.protocol {
            (self.protocol_ticks + 1) as u32
        } else {
            self.protocol_ticks
        };
        let page_checks = self.protocol_ticks == 200 || ticks == 200;
        let on_macos = self.platform == Platform::Macos;
        let snapshot = !self.snapshot_requested && ticks > 90 && wants.snapshot && !(on_macos
            && wants.snapshot_held);
        let battery = !self.battery_started && ticks > 60;
        let history = !self.history_checked && wants.history && wants.elapsed >= HISTORY_DELAY;
        (
            HostState {
                ticks,
                protocol_ticks,
                snapshot_requested: self.snapshot_requested || snapshot,
                battery_started: self.battery_started || battery,
                history_checked: self.history_checked || (on_macos && history),
                ..self
            },
            TickPlan {
                page_checks,
                snapshot,
                protocol_message: wants.protocol && protocol_ticks == 200,
                script: battery && wants.script,
                cookies: battery && wants.cookies,
                history: if on_macos {
                    history
                } else {
                    page_checks
                },
            },
        )
    }

    /// Count a tick, and say what it has to do.
    pub fn tick(&mut self, wants: TickWants) -> (plan: TickPlan)
        requires
            old(self).ticks < u32::MAX,
            wants.protocol ==> old(self).protocol_ticks < u32::MAX,
        ensures
            (*final(self), plan) == old(self).ticked(wants),
    {
        let ticks: u32 = self.ticks + 1;
        let page_checks = self.protocol_ticks == 200 || ticks == 200;
        let on_macos = self.platform == Platform::Macos;
        let snapshot = !self.snapshot_requested && ticks > 90 && wants.snapshot && !(on_macos
            && wants.snapshot_held);
        let protocol_ticks: u32 = if wants.protocol {
            self.protocol_ticks + 1
        } else {
            self.protocol_ticks
        };
        let battery = !self.battery_started && ticks > 60;
        let history = !self.history_checked && wants.history && wants.elapsed >= HISTORY_DELAY;
        *self = HostState {
            ticks,
            protocol_ticks,
            snapshot_requested: self.snapshot_requested || snapshot,
            battery_started: self.battery_started || battery,
            history_checked: self.history_checked || (on_macos && history),
            ..*self
        };
        TickPlan {
            page_checks,
            snapshot,
            protocol_message: wants.protocol && protocol_ticks == 200,
            script: battery && wants.script,
            cookies: battery && wants.cookies,
            history: if on_macos {
                history
            } else {
                page_checks
            },
        }
    }

    /// What a drawn frame does on Windows, where the count of drawn frames is
    /// the clock.
    pub open spec fn drawn(self, wants: TickWants) -> (HostState, TickPlan) {
        let cookies = !self.cookies_requested && self.frames_drawn > 90 && wants.cookies;
        let script = !self.script_requested && self.frames_drawn > 90 && wants.script;
        let frames_drawn = (self.frames_drawn + 1) as u32;
        let snapshot = !self.snapshot_requested && frames_drawn > 90 && wants.snapshot;
        (
            HostState {
                frames_drawn,
                cookies_requested: self.cookies_requested || cookies,
                script_requested: self.script_requested || script,
                snapshot_requested: self.snapshot_requested || snapshot,
                ..self
            },
            TickPlan {
                page_checks: frames_drawn == 200,
                snapshot,
                protocol_message: wants.protocol && frames_drawn == 200,
                script,
                cookies,
                history: frames_drawn == 200,
            },
        )
    }

    /// Count a drawn frame, and say what it has to do.
    pub fn draw_tick(&mut self, wants: TickWants) -> (plan: TickPlan)
        requires
            old(self).frames_drawn < u32::MAX,
        ensures
            (*final(self), plan) == old(self).drawn(wants),
    {
        let cookies = !self.cookies_requested && self.frames_drawn > 90 && wants.cookies;
        let script = !self.script_requested && self.frames_drawn > 90 && wants.script;
        let frames_drawn: u32 = self.frames_drawn + 1;
        let snapshot = !self.snapshot_requested && frames_drawn > 90 && wants.snapshot;
        *self = HostState {
            frames_drawn,
            cookies_requested: self.cookies_requested || cookies,
            script_requested: self.script_requested || script,
            snapshot_requested: self.snapshot_requested || snapshot,
            ..*self
        };
        TickPlan {
            page_checks: frames_drawn == 200,
            snapshot,
            protocol_message: wants.protocol && frames_drawn == 200,
            script,
            cookies,
            history: frames_drawn == 200,
        }
    }

    // ── The end of a run ──────────────────────────────────────────────────────

    /// Whether enough frames were imported.
    pub fn has_frames(&self, limit: Option<u32>) -> (done: bool)
        ensures
            done == (limit matches Some(limit) && self.frames_imported >= limit),
    {
        match limit {
            Some(limit) => self.frames_imported >= limit,
            None => false,
        }
    }

    /// Whether a macOS run is done. With scripted input it has to outlive the
    /// frame that triggered it, so popups count in place of frames.
    pub fn is_done(&self, scripted: bool, frames: Option<u32>, popups: Option<u32>) -> (done: bool)
        ensures
            done == (if scripted {
                popups matches Some(popups) && self.popups_imported >= popups
            } else {
                frames matches Some(frames) && self.frames_imported >= frames
            }),
    {
        if scripted {
            match popups {
                Some(popups) => self.popups_imported >= popups,
                None => false,
            }
        } else {
            self.has_frames(frames)
        }
    }

    /// Whether a Windows run closes its browser now: it has drawn enough, or
    /// imported enough where pixels are checked, or its time is up. A run closes
    /// once.
    pub fn finish(&mut self, fixture: bool, limit: Option<u32>, timed_out: bool) -> (close: bool)
        ensures
            close == (!old(self).closing && (timed_out || (limit matches Some(limit) && (if fixture {
                old(self).frames_imported
            } else {
                old(self).frames_drawn
            }) >= limit))),
            *final(self) == (HostState { closing: old(self).closing || close, ..*old(self) }),
    {
        let progress: u32 = if fixture {
            self.frames_imported
        } else {
            self.frames_drawn
        };
        let reached = match limit {
            Some(limit) => progress >= limit,
            None => false,
        };
        let close = !self.closing && (timed_out || reached);
        if close {
            self.closing = true;
        }
        close
    }

    /// Whether a Windows run leaves the event loop: its browser was asked to
    /// close, and has.
    pub fn is_over(&self, closed: bool) -> (over: bool)
        ensures
            over == (self.closing && closed),
    {
        self.closing && closed
    }
}

/// Whether a run's time is up.
pub fn is_timed_out(now: u64, deadline: Option<u64>) -> (up: bool)
    ensures
        up == (deadline matches Some(deadline) && now >= deadline),
{
    match deadline {
        Some(deadline) => now >= deadline,
        None => false,
    }
}

/// Whether a run failed: pixels were to be checked, and they were not all right.
pub fn run_failed(fixture: bool, passed: Option<bool>) -> (failed: bool)
    ensures
        failed == (fixture && passed != Some(true)),
{
    fixture && match passed {
        Some(passed) => !passed,
        None => true,
    }
}

/// Whether to let go of the popup surface that is held: there is one, and the
/// popup shows no more.
pub fn drops_popup(shown: bool, held: bool) -> (dropped: bool)
    ensures
        dropped == (!shown && held),
{
    !shown && held
}

/// The part of the view that a popup covers.
#[derive(Clone, Copy, Debug, PartialEq, Eq, Structural)]
pub struct Viewport {
    pub x: u32,
    pub y: u32,
    pub width: u32,
    pub height: u32,
}

/// `place` moved into `0..=end`.
pub open spec fn clamped(place: i32, end: u32) -> u32 {
    if place < 0 {
        0
    } else if place > end {
        end
    } else {
        place as u32
    }
}

/// `length`, but at most `room`.
pub open spec fn at_most(length: u32, room: u32) -> u32 {
    if length < room {
        length
    } else {
        room
    }
}

/// `place` moved into `0..=end`.
fn clamp(place: i32, end: u32) -> (moved: u32)
    ensures
        moved == clamped(place, end),
{
    if place < 0 {
        0
    } else if place as u32 > end {
        end
    } else {
        place as u32
    }
}

/// Where a popup is drawn over a view: at its place, moved into the view, and cut
/// off at the view's end. `None` where nothing of it is left.
pub fn popup_viewport(rect: PopupRect, view: PhysicalSize) -> (viewport: Option<Viewport>)
    ensures
        ({
            let x = clamped(rect.x, view.width);
            let y = clamped(rect.y, view.height);
            let width = at_most(rect.width, (view.width - x) as u32);
            let height = at_most(rect.height, (view.height - y) as u32);
            viewport == (if width > 0 && height > 0 {
                Some(Viewport { x, y, width, height })
            } else {
                None
            })
        }),
{
    let x: u32 = clamp(rect.x, view.width);
    let y: u32 = clamp(rect.y, view.height);
    let width: u32 = if rect.width < view.width - x {
        rect.width
    } else {
        view.width - x
    };
    let height: u32 = if rect.height < view.height - y {
        rect.height
    } else {
        view.height - y
    };
    if width > 0 && height > 0 {
        Some(Viewport { x, y, width, height })
    } else {
        None
    }
}

/// What is drawn of a popup lies inside the view.
pub proof fn law_popups_stay_in_view(rect: PopupRect, view: PhysicalSize)
    ensures
        ({
            let x = clamped(rect.x, view.width);
            let y = clamped(rect.y, view.height);
            &&& x + at_most(rect.width, (view.width - x) as u32) <= view.width
            &&& y + at_most(rect.height, (view.height - y) as u32) <= view.height
        }),
{
}

/// What became of the next image to present.
#[derive(Clone, Copy, Debug, PartialEq, Eq, Structural)]
pub enum SurfaceStatus {
    Ready,
    /// Lost or out of date.
    Stale,
    /// Not this time: it took too long, or the window is covered.
    Skipped,
    Invalid,
}

/// What to do with the next image to present.
#[derive(Clone, Copy, Debug, PartialEq, Eq, Structural)]
pub struct SurfaceStep {
    pub draw: bool,
    pub reconfigure: bool,
    /// Ask for another redraw.
    pub redraw: bool,
}

/// What to do with the next image to present. An invalid surface is not asked
/// again.
pub fn surface_step(status: SurfaceStatus) -> (step: SurfaceStep)
    ensures
        step.draw == (status == SurfaceStatus::Ready),
        step.reconfigure == (status == SurfaceStatus::Stale),
        step.redraw == (status != SurfaceStatus::Invalid),
{
    SurfaceStep {
        draw: status == SurfaceStatus::Ready,
        reconfigure: status == SurfaceStatus::Stale,
        redraw: status != SurfaceStatus::Invalid,
    }
}

/// Which of the formats that a surface offers to take: the first that is sRGB,
/// else the first.
pub fn pick_surface_format(is_srgb: &Vec<bool>) -> (index: usize)
    requires
        is_srgb@.len() > 0,
    ensures
        index < is_srgb@.len(),
        is_srgb@[index as int] ==> forall|i: int| 0 <= i < index ==> !#[trigger] is_srgb@[i],
        !is_srgb@[index as int] ==> index == 0 && forall|i: int|
            0 <= i < is_srgb@.len() ==> !#[trigger] is_srgb@[i],
{
    let mut i: usize = 0;
    while i < is_srgb.len()
        invariant
            i <= is_srgb@.len(),
            forall|k: int| 0 <= k < i ==> !#[trigger] is_srgb@[k],
        decreases is_srgb@.len() - i,
    {
        if is_srgb[i] {
            return i;
        }
        i += 1;
    }
    0
}

/// The protocol message that calls a method without parameters.
pub fn protocol_call(method: &str) -> (json: String)
    ensures
        json@ == "{\"id\":1,\"method\":\""@ + method@ + "\"}"@,
{
    joined3("{\"id\":1,\"method\":\"", method, "\"}")
}

/// The cookie that a run on `platform` writes, so that reading has something to
/// find.
pub fn probe_cookie(platform: Platform) -> (cookie: Cookie)
    ensures
        cookie.name@ == "weld_probe"@,
        cookie.value@ == (if platform == Platform::Windows {
            "w5"@
        } else {
            "parity"@
        }),
        cookie.domain@ == "example.com"@,
        cookie.path@ == "/"@,
        !cookie.secure,
        !cookie.http_only,
        cookie.same_site is None,
        cookie.expires is None,
        !cookie.partitioned,
{
    let mut cookie = Cookie::default();
    cookie.name = "weld_probe".to_owned();
    cookie.value = if platform == Platform::Windows {
        "w5".to_owned()
    } else {
        "parity".to_owned()
    };
    cookie.domain = "example.com".to_owned();
    cookie.path = "/".to_owned();
    cookie
}

/// No input reaches a browser that has not painted, whatever the event, except
/// on macOS.
pub proof fn law_input_waits_for_the_first_frame(state: HostState, event: HostEvent)
    requires
        state.frames_imported == 0,
        state.platform != Platform::Macos,
    ensures
        forall|i: int|
            0 <= i < state.response(event).len() ==> !(#[trigger] state.response(event)[i] is Key)
                && !(state.response(event)[i] is Mouse),
{
}

/// What one tick of a run does. Where `draws`, drawn frames are the clock.
pub open spec fn stepped(state: HostState, wants: TickWants, draws: bool) -> (HostState, TickPlan) {
    if draws {
        state.drawn(wants)
    } else {
        state.ticked(wants)
    }
}

/// The state after a run of ticks.
pub open spec fn after_run(state: HostState, run: Seq<TickWants>, draws: bool) -> HostState
    decreases run.len(),
{
    if run.len() == 0 {
        state
    } else {
        stepped(after_run(state, run.drop_last(), draws), run.last(), draws).0
    }
}

/// What a tick of a run has to do.
pub open spec fn planned(state: HostState, run: Seq<TickWants>, i: int, draws: bool) -> TickPlan {
    stepped(after_run(state, run.take(i), draws), run[i], draws).1
}

/// A run goes on: clocks do not go back, and what was requested stays so.
proof fn lemma_runs_go_on(state: HostState, run: Seq<TickWants>, i: int, j: int, draws: bool)
    requires
        0 <= i <= j <= run.len(),
        state.ticks + run.len() <= u32::MAX,
        state.protocol_ticks + run.len() <= u32::MAX,
        state.frames_drawn + run.len() <= u32::MAX,
    ensures
        ({
            let before = after_run(state, run.take(i), draws);
            let after = after_run(state, run.take(j), draws);
            &&& after.platform == state.platform
            &&& before.snapshot_requested ==> after.snapshot_requested
            &&& before.battery_started ==> after.battery_started
            &&& before.cookies_requested ==> after.cookies_requested
            &&& before.script_requested ==> after.script_requested
            &&& before.history_checked ==> after.history_checked
            &&& before.ticks <= after.ticks <= state.ticks + j
            &&& before.protocol_ticks <= after.protocol_ticks <= state.protocol_ticks + j
            &&& before.frames_drawn <= after.frames_drawn <= state.frames_drawn + j
        }),
    decreases j,
{
    if i < j {
        lemma_runs_go_on(state, run, i, j - 1, draws);
        assert(run.take(j).drop_last() =~= run.take(j - 1));
    } else if j > 0 {
        lemma_runs_go_on(state, run, j - 1, j - 1, draws);
        assert(run.take(j).drop_last() =~= run.take(j - 1));
    } else {
        assert(run.take(0).len() == 0);
    }
}

/// Each check of a run happens once, however long the run and whatever it wants
/// from tick to tick: no two ticks request a capture, a script, the cookies or
/// send the protocol message. On macOS the history is looked at once, and on
/// Windows the page is checked once.
pub proof fn law_checks_happen_once(
    state: HostState,
    run: Seq<TickWants>,
    i: int,
    j: int,
    draws: bool,
)
    requires
        0 <= i < j < run.len(),
        state.ticks + run.len() <= u32::MAX,
        state.protocol_ticks + run.len() <= u32::MAX,
        state.frames_drawn + run.len() <= u32::MAX,
    ensures
        ({
            let first = planned(state, run, i, draws);
            let second = planned(state, run, j, draws);
            &&& !(first.snapshot && second.snapshot)
            &&& !(first.script && second.script)
            &&& !(first.cookies && second.cookies)
            &&& !(first.protocol_message && second.protocol_message)
            &&& state.platform == Platform::Macos && !draws ==> !(first.history && second.history)
            &&& draws ==> !(first.page_checks && second.page_checks)
        }),
{
    lemma_runs_go_on(state, run, i, i, draws);
    lemma_runs_go_on(state, run, i + 1, j, draws);
    assert(run.take(i + 1).drop_last() =~= run.take(i));
    assert(run.take(i + 1).last() == run[i]);
}

/// A host that takes input tells the browser that a key went down, and the character
/// it makes if it makes one, or that it came up. Each says which key and which
/// modifiers. Before it takes input it tells nothing.
pub proof fn law_keys_are_told_as_they_went(
    before: HostState,
    after: HostState,
    code: i32,
    pressed: bool,
    text: Option<char>,
    actions: Vec<HostAction>,
)
    requires
        exists|host: &mut HostState|
            *host == before && *final(host) == after && #[trigger] call_ensures(
                HostState::window_event,
                (host, HostEvent::Key { code: Some(code), pressed, text }),
                actions,
            ),
    ensures
        after == before,
        before.frames_imported == 0 && before.platform != Platform::Macos ==> actions@.len() == 0,
        before.frames_imported > 0 || before.platform == Platform::Macos ==> {
            &&& actions@.len() == (if pressed && text is Some { 2int } else { 1int })
            &&& actions@[0] matches HostAction::Key(key) && key.kind == (if pressed {
                KeyEventKind::RawKeyDown
            } else {
                KeyEventKind::KeyUp
            }) && key.windows_key_code == code && key.native_key_code == 0 && key.character is None
                && key.modifiers == before.modifiers
            &&& pressed && text is Some ==> (actions@[1] matches HostAction::Key(key) && key.kind
                == KeyEventKind::Char && key.windows_key_code == code && key.character == text
                && key.modifiers == before.modifiers)
        },
{
}

/// A button is told as it went, where the pointer last was, and is held from then
/// on exactly where it went down. The other modifiers stay.
pub proof fn law_buttons_are_told_as_they_went(
    before: HostState,
    after: HostState,
    button: MouseButton,
    pressed: bool,
    actions: Vec<HostAction>,
)
    requires
        exists|host: &mut HostState|
            *host == before && *final(host) == after && #[trigger] call_ensures(
                HostState::window_event,
                (host, HostEvent::MouseInput { button: Some(button), pressed }),
                actions,
            ),
    ensures
        after.cursor == before.cursor,
        button == MouseButton::Left ==> after.modifiers == (EventModifiers {
            left_mouse_button: pressed,
            ..before.modifiers
        }),
        button == MouseButton::Middle ==> after.modifiers == (EventModifiers {
            middle_mouse_button: pressed,
            ..before.modifiers
        }),
        button == MouseButton::Right ==> after.modifiers == (EventModifiers {
            right_mouse_button: pressed,
            ..before.modifiers
        }),
        before.frames_imported == 0 && before.platform != Platform::Macos ==> actions@.len() == 0,
        before.frames_imported > 0 || before.platform == Platform::Macos ==> {
            &&& actions@.len() == 1
            &&& actions@[0] matches HostAction::Mouse(event) && event.x == before.cursor.0
                && event.y == before.cursor.1 && event.button == button && event.action == (
            if pressed {
                MouseAction::Pressed
            } else {
                MouseAction::Released
            }) && event.modifiers == after.modifiers
        },
{
}

/// A pointer that moves is told where it is, and is remembered where a click of it
/// would land.
pub proof fn law_the_pointer_is_told_where_it_is(
    before: HostState,
    after: HostState,
    x: i32,
    y: i32,
    click_x: i32,
    click_y: i32,
    actions: Vec<HostAction>,
)
    requires
        exists|host: &mut HostState|
            *host == before && *final(host) == after && #[trigger] call_ensures(
                HostState::window_event,
                (host, HostEvent::CursorMoved { x, y, click_x, click_y }),
                actions,
            ),
    ensures
        after == (HostState { cursor: (click_x, click_y), ..before }),
        before.frames_imported == 0 && before.platform != Platform::Macos ==> actions@.len() == 0,
        before.frames_imported > 0 || before.platform == Platform::Macos ==> {
            &&& actions@.len() == 1
            &&& actions@[0] matches HostAction::Mouse(event) && event.x == x && event.y == y
                && event.action == MouseAction::Moved && event.modifiers == before.modifiers
        },
{
}

/// A wheel is told where the pointer is, and as far as it was turned.
pub proof fn law_the_wheel_is_told_as_it_turned(
    before: HostState,
    after: HostState,
    delta_x: i32,
    delta_y: i32,
    actions: Vec<HostAction>,
)
    requires
        exists|host: &mut HostState|
            *host == before && *final(host) == after && #[trigger] call_ensures(
                HostState::window_event,
                (host, HostEvent::MouseWheel { delta_x, delta_y }),
                actions,
            ),
    ensures
        after == before,
        before.frames_imported == 0 && before.platform != Platform::Macos ==> actions@.len() == 0,
        before.frames_imported > 0 || before.platform == Platform::Macos ==> {
            &&& actions@.len() == 1
            &&& actions@[0] matches HostAction::Mouse(event) && event.x == before.cursor.0
                && event.y == before.cursor.1 && event.action == (MouseAction::WheelScrolled {
                delta_x,
                delta_y,
            }) && event.modifiers == before.modifiers
        },
{
}

/// A window that is resized resizes the browser to the same size, and what it draws
/// on to a size that is never empty.
pub proof fn law_a_resize_reaches_the_browser(
    before: HostState,
    after: HostState,
    size: PhysicalSize,
    actions: Vec<HostAction>,
)
    requires
        exists|host: &mut HostState|
            *host == before && *final(host) == after && #[trigger] call_ensures(
                HostState::window_event,
                (host, HostEvent::Resized(size)),
                actions,
            ),
    ensures
        after == before,
        actions@.len() == 2,
        actions@[1] == HostAction::Resize(size),
        actions@[0] matches HostAction::ConfigureSurface(drawn) && (size.width > 0 ==> drawn.width
            == size.width) && (size.height > 0 ==> drawn.height == size.height) && (size.width == 0
            ==> drawn.width == 1) && (size.height == 0 ==> drawn.height == 1),
{
}

/// Closing closes the browser. On Windows it is asked once and the window waits for
/// it; elsewhere the window goes with it.
pub proof fn law_a_window_closes_its_browser(
    before: HostState,
    after: HostState,
    actions: Vec<HostAction>,
)
    requires
        exists|host: &mut HostState|
            *host == before && *final(host) == after && #[trigger] call_ensures(
                HostState::window_event,
                (host, HostEvent::CloseRequested),
                actions,
            ),
    ensures
        after == (HostState { closing: true, ..before }),
        before.platform != Platform::Windows ==> actions@ == seq![
            HostAction::Close,
            HostAction::Exit,
        ],
        before.platform == Platform::Windows && !before.closing ==> actions@ == seq![
            HostAction::Close,
        ],
        before.platform == Platform::Windows && before.closing ==> actions@.len() == 0,
{
}

/// A window that gets the focus gives it to the browser: on macOS at once, elsewhere
/// with the next frame.
pub proof fn law_focus_is_given_to_the_browser(
    before: HostState,
    after: HostState,
    actions: Vec<HostAction>,
)
    requires
        exists|host: &mut HostState|
            *host == before && *final(host) == after && #[trigger] call_ensures(
                HostState::window_event,
                (host, HostEvent::Focused),
                actions,
            ),
    ensures
        before.platform == Platform::Macos ==> after == before && actions@ == seq![
            HostAction::MoveFocus,
        ],
        before.platform != Platform::Macos ==> actions@.len() == 0 && after == (HostState {
            focus_pending: true,
            focus_attempted: false,
            ..before
        }),
{
}

/// Modifiers are held from the moment they change, and buttons stay as they were.
pub proof fn law_modifiers_are_held(
    before: HostState,
    after: HostState,
    shift: bool,
    ctrl: bool,
    alt: bool,
    meta: bool,
    actions: Vec<HostAction>,
)
    requires
        exists|host: &mut HostState|
            *host == before && *final(host) == after && #[trigger] call_ensures(
                HostState::window_event,
                (host, HostEvent::ModifiersChanged { shift, ctrl, alt, meta }),
                actions,
            ),
    ensures
        actions@.len() == 0,
        after == (HostState {
            modifiers: EventModifiers { shift, ctrl, alt, meta, ..before.modifiers },
            ..before
        }),
{
}

/// A scale that changes is applied, unless a scale was forced.
pub proof fn law_a_scale_is_applied_unless_forced(
    before: HostState,
    after: HostState,
    forced: bool,
    actions: Vec<HostAction>,
)
    requires
        exists|host: &mut HostState|
            *host == before && *final(host) == after && #[trigger] call_ensures(
                HostState::window_event,
                (host, HostEvent::ScaleFactorChanged { forced }),
                actions,
            ),
    ensures
        after == before,
        forced ==> actions@.len() == 0,
        !forced ==> actions@ == seq![HostAction::ApplyScale],
{
}

/// Popups are drawn inside the view: one that is wholly inside where it is and as
/// large as it is, one that sticks out up to the edge.
pub proof fn law_a_popup_inside_is_drawn_in_full(
    rect: PopupRect,
    view: PhysicalSize,
    viewport: Option<Viewport>,
)
    requires
        call_ensures(popup_viewport, (rect, view), viewport),
    ensures
        rect.x >= 0 && rect.y >= 0 && rect.width > 0 && rect.height > 0 && rect.x + rect.width
            <= view.width && rect.y + rect.height <= view.height ==> (viewport matches Some(v)
            && v.x == rect.x && v.y == rect.y && v.width == rect.width && v.height == rect.height),
        viewport matches Some(v) ==> v.x + v.width <= view.width && v.y + v.height <= view.height
            && 0 < v.width <= rect.width && 0 < v.height <= rect.height,
        viewport matches Some(v) ==> (rect.x >= 0 && rect.x + rect.width > view.width ==> v.x
            == rect.x && v.x + v.width == view.width) && (rect.x < 0 ==> v.x == 0) && (rect.y >= 0
            && rect.y + rect.height > view.height ==> v.y == rect.y && v.y + v.height
            == view.height) && (rect.y < 0 ==> v.y == 0),
        rect.width == 0 || rect.height == 0 ==> viewport is None,
        rect.x < view.width && rect.y < view.height && view.width > 0 && view.height > 0
            && rect.width > 0 && rect.height > 0 ==> viewport is Some,
{
}

/// A page is checked once it has run for a while, and once only: after the two
/// hundredth redraw. A script and cookies are asked for once after the sixtieth
/// and a snapshot after the ninetieth, where they are wanted.
pub proof fn law_checks_wait_for_the_page(
    before: HostState,
    after: HostState,
    wants: TickWants,
    plan: TickPlan,
)
    requires
        before.ticks < u32::MAX,
        before.protocol_ticks < u32::MAX,
        exists|host: &mut HostState|
            *host == before && *final(host) == after && #[trigger] call_ensures(
                HostState::tick,
                (host, wants),
                plan,
            ),
    ensures
        after.ticks == before.ticks + 1,
        after.protocol_ticks == before.protocol_ticks + (if wants.protocol { 1int } else { 0int }),
        plan.page_checks <==> before.ticks == 199 || before.protocol_ticks == 200,
        plan.script <==> wants.script && !before.battery_started && before.ticks >= 60,
        plan.cookies <==> wants.cookies && !before.battery_started && before.ticks >= 60,
        after.battery_started <==> before.battery_started || before.ticks >= 60,
        plan.snapshot <==> wants.snapshot && !before.snapshot_requested && before.ticks >= 90 && !(
        before.platform == Platform::Macos && wants.snapshot_held),
        after.snapshot_requested <==> before.snapshot_requested || plan.snapshot,
        plan.protocol_message <==> wants.protocol && before.protocol_ticks == 199,
        before.platform == Platform::Macos ==> (plan.history <==> wants.history
            && !before.history_checked && wants.elapsed >= 2_000_000_000),
        before.platform != Platform::Macos ==> (plan.history <==> plan.page_checks),
{
}

/// On a host that counts what it draws, the checks wait for drawn frames instead.
pub proof fn law_checks_wait_for_drawn_frames(
    before: HostState,
    after: HostState,
    wants: TickWants,
    plan: TickPlan,
)
    requires
        before.frames_drawn < u32::MAX,
        exists|host: &mut HostState|
            *host == before && *final(host) == after && #[trigger] call_ensures(
                HostState::draw_tick,
                (host, wants),
                plan,
            ),
    ensures
        after.frames_drawn == before.frames_drawn + 1,
        plan.page_checks <==> before.frames_drawn == 199,
        plan.history <==> before.frames_drawn == 199,
        plan.protocol_message <==> wants.protocol && before.frames_drawn == 199,
        plan.cookies <==> wants.cookies && !before.cookies_requested && before.frames_drawn > 90,
        plan.script <==> wants.script && !before.script_requested && before.frames_drawn > 90,
        plan.snapshot <==> wants.snapshot && !before.snapshot_requested && before.frames_drawn
            >= 90,
        after.cookies_requested <==> before.cookies_requested || plan.cookies,
        after.script_requested <==> before.script_requested || plan.script,
        after.snapshot_requested <==> before.snapshot_requested || plan.snapshot,
{
}

/// Imported frames and failures are counted one by one. A failure is logged, but on
/// Linux only the first and every five hundredth.
pub proof fn law_frames_are_counted(
    before: HostState,
    after: HostState,
    outcome: FrameOutcome,
    logged: bool,
)
    requires
        before.frames_imported < u32::MAX,
        before.import_errors < u64::MAX,
        exists|host: &mut HostState|
            *host == before && *final(host) == after && #[trigger] call_ensures(
                HostState::frame_acquired,
                (host, outcome),
                logged,
            ),
    ensures
        after.frames_imported == before.frames_imported + (if outcome == FrameOutcome::Imported {
            1int
        } else {
            0int
        }),
        after.import_errors == before.import_errors + (if outcome == FrameOutcome::Failed {
            1int
        } else {
            0int
        }),
        outcome != FrameOutcome::Failed ==> !logged,
        outcome == FrameOutcome::Failed && before.platform != Platform::Linux ==> logged,
        outcome == FrameOutcome::Failed && before.platform == Platform::Linux ==> (logged
            <==> before.import_errors == 0 || (before.import_errors + 1) % 500 == 0),
        after == (HostState {
            frames_imported: after.frames_imported,
            import_errors: after.import_errors,
            ..before
        }),
{
}

/// Focus is tried once after a frame has arrived, and is given once it was taken.
pub proof fn law_focus_is_tried_once(
    before: HostState,
    tried: HostState,
    again: HostState,
    first: bool,
    second: bool,
)
    requires
        exists|host: &mut HostState|
            *host == before && *final(host) == tried && #[trigger] call_ensures(
                HostState::take_focus_attempt,
                (host,),
                first,
            ),
        exists|host: &mut HostState|
            *host == tried && *final(host) == again && #[trigger] call_ensures(
                HostState::take_focus_attempt,
                (host,),
                second,
            ),
    ensures
        first <==> before.focus_pending && !before.focus_attempted && before.frames_imported > 0,
        !second || !first,
        first ==> tried == (HostState { focus_attempted: true, ..before }),
        !first ==> tried == before,
        forall|host: &mut HostState, taken: bool| #[trigger]
            call_ensures(HostState::focus_moved, (host, taken), ()) ==> *final(host) == (
            HostState { focus_pending: host.focus_pending && !taken, ..*host }),
        forall|host: &mut HostState| #[trigger]
            call_ensures(HostState::popup_imported, (host,), ()) && host.popups_imported < u32::MAX
                ==> final(host).popups_imported == host.popups_imported + 1,
{
}

/// A run is over once it has as many frames as it was to have, or popups where it is
/// scripted; without a limit it goes on. It fails exactly where a fixture was to be
/// seen and was not.
pub proof fn law_a_run_ends_at_its_limit(host: HostState, limit: u32, fixture: bool, closed: bool)
    ensures
        forall|done: bool| #[trigger]
            call_ensures(HostState::has_frames, (&host, Some(limit)), done) ==> (done
                <==> host.frames_imported >= limit),
        forall|done: bool| #[trigger]
            call_ensures(HostState::has_frames, (&host, None), done) ==> !done,
        forall|done: bool, popups: Option<u32>| #[trigger]
            call_ensures(HostState::is_done, (&host, false, Some(limit), popups), done) ==> (done
                <==> host.frames_imported >= limit),
        forall|done: bool, frames: Option<u32>| #[trigger]
            call_ensures(HostState::is_done, (&host, true, frames, Some(limit)), done) ==> (done
                <==> host.popups_imported >= limit),
        forall|over: bool| #[trigger]
            call_ensures(HostState::is_over, (&host, closed), over) ==> (over <==> host.closing
                && closed),
        forall|failed: bool| #[trigger]
            call_ensures(run_failed, (fixture, Some(true)), failed) ==> !failed,
        forall|failed: bool| #[trigger]
            call_ensures(run_failed, (fixture, Some(false)), failed) ==> (failed <==> fixture),
        forall|failed: bool| #[trigger]
            call_ensures(run_failed, (fixture, None), failed) ==> (failed <==> fixture),
        forall|up: bool, now: u64, deadline: u64| #[trigger]
            call_ensures(is_timed_out, (now, Some(deadline)), up) ==> (up <==> now >= deadline),
        forall|up: bool, now: u64| #[trigger]
            call_ensures(is_timed_out, (now, None), up) ==> !up,
        forall|dropped: bool, shown: bool, held: bool| #[trigger]
            call_ensures(drops_popup, (shown, held), dropped) ==> (dropped <==> held && !shown),
{
}

/// A host starts to close once, when time is up or it has all that it was to have:
/// imported frames for a fixture, drawn ones otherwise.
pub proof fn law_a_host_closes_once(
    before: HostState,
    after: HostState,
    fixture: bool,
    limit: Option<u32>,
    timed_out: bool,
    close: bool,
)
    requires
        exists|host: &mut HostState|
            *host == before && *final(host) == after && #[trigger] call_ensures(
                HostState::finish,
                (host, fixture, limit, timed_out),
                close,
            ),
    ensures
        before.closing ==> !close && after == before,
        !before.closing && timed_out ==> close,
        !before.closing && !timed_out && limit is None ==> !close,
        !before.closing && !timed_out && fixture && limit is Some ==> (close
            <==> before.frames_imported >= limit->0),
        !before.closing && !timed_out && !fixture && limit is Some ==> (close
            <==> before.frames_drawn >= limit->0),
        after.closing <==> before.closing || close,
{
}

/// What can be drawn on is drawn on, what is stale is made anew, and what is lost is
/// not tried again.
pub proof fn law_a_surface_is_drawn_when_it_is_ready(status: SurfaceStatus, step: SurfaceStep)
    requires
        call_ensures(surface_step, (status,), step),
    ensures
        step.draw <==> status == SurfaceStatus::Ready,
        step.reconfigure <==> status == SurfaceStatus::Stale,
        !step.redraw <==> status == SurfaceStatus::Invalid,
{
}

/// A host starts with nothing counted, held or asked for. Everywhere but on macOS it
/// starts wanting the focus.
pub proof fn law_a_host_starts_afresh(platform: Platform, state: HostState)
    requires
        call_ensures(HostState::new, (platform,), state),
    ensures
        state.platform == platform,
        state.frames_imported == 0 && state.frames_drawn == 0 && state.popups_imported == 0
            && state.import_errors == 0 && state.ticks == 0 && state.protocol_ticks == 0,
        !state.closing && !state.focus_attempted && !state.battery_started
            && !state.cookies_requested && !state.script_requested && !state.snapshot_requested
            && !state.history_checked,
        state.focus_pending <==> platform != Platform::Macos,
        !state.modifiers.shift && !state.modifiers.ctrl && !state.modifiers.alt
            && !state.modifiers.meta && !state.modifiers.left_mouse_button
            && !state.modifiers.middle_mouse_button && !state.modifiers.right_mouse_button,
{
}

/// The first format that is sRGB is picked, and the first of all where none is.
pub proof fn law_the_first_srgb_format_is_picked(is_srgb: Vec<bool>, index: usize)
    requires
        is_srgb@.len() > 0,
        call_ensures(pick_surface_format, (&is_srgb,), index),
    ensures
        index < is_srgb@.len(),
        is_srgb@.contains(true) ==> is_srgb@[index as int],
        forall|i: int| 0 <= i < index ==> !#[trigger] is_srgb@[i],
        !is_srgb@.contains(true) ==> index == 0,
{
    if is_srgb@.contains(true) {
        let k = choose|k: int| 0 <= k < is_srgb@.len() && is_srgb@[k] == true;
        assert(is_srgb@[k]);
    }
    if is_srgb@[index as int] {
        assert(is_srgb@.contains(true));
    }
}

/// A protocol call names its method, under the id 1.
pub proof fn law_a_protocol_call_names_its_method(method: &str, json: String)
    requires
        call_ensures(protocol_call, (method,), json),
    ensures
        json@ == "{\"id\":1,\"method\":\""@ + method@ + "\"}"@,
{
}

/// The cookie that a host tries is a plain one of `example.com`, for the session.
pub proof fn law_the_tried_cookie_is_plain(platform: Platform, cookie: Cookie)
    requires
        call_ensures(probe_cookie, (platform,), cookie),
    ensures
        cookie.name@ == "weld_probe"@,
        cookie.domain@ == "example.com"@,
        cookie.path@ == "/"@,
        cookie.value@ == (if platform == Platform::Windows { "w5"@ } else { "parity"@ }),
        !cookie.secure && !cookie.http_only && !cookie.partitioned,
        cookie.same_site is None && cookie.expires is None,
{
}

} // verus!
