use vstd::prelude::*;

pub mod device_picker;

use crate::tui::device_picker::DevicePicker;

verus! {

/// The keys the front end reacts to.
#[derive(Debug, Clone, Copy, PartialEq, Eq, Structural)]
pub enum KeyCode {
    Up,
    Down,
    Enter,
    Esc,
    /// Any other key.
    Other,
}

/// Whether a key went down, repeats or went up.
#[derive(Debug, Clone, Copy, PartialEq, Eq, Structural)]
pub enum KeyEventKind {
    Press,
    Repeat,
    Release,
}

#[derive(Debug, Clone, Copy, PartialEq, Eq, Structural)]
pub struct KeyEvent {
    pub code: KeyCode,
    pub kind: KeyEventKind,
}

/// Input that reaches the components.
#[derive(Debug, Clone, Copy, PartialEq, Eq, Structural)]
pub enum Event {
    Key(KeyEvent),
    Resize(u16, u16),
    Quit,
}

/// What a component asks of the application.
#[derive(Debug, Clone, PartialEq, Eq)]
pub enum Action {
    /// End the interaction loop.
    Quit,
    /// Nothing to do.
    Noop,
    /// Work with the device of this name from now on.
    SetActiveDevice(String),
}

/// Session state of the front end.
#[derive(Debug, Clone, PartialEq, Eq)]
pub struct AppConfig {
    /// The device chosen by the user; unset until one is picked.
    pub active_device: Option<String>,
}

/// The root of the component tree.
pub struct App {
    pub config: AppConfig,
    pub device_picker: DevicePicker,
}

/// Whether `e` is a press of Escape, which quits from anywhere.
pub open spec fn is_quit_key(e: Event) -> bool {
    e matches Event::Key(k) && k.code == KeyCode::Esc && k.kind == KeyEventKind::Press
}

impl App {
    /// A session with no device chosen and an empty picker.
    pub fn new() -> (r: App)
        ensures
            r.config.active_device is None,
            r.device_picker.available_devices is None,
            r.device_picker.selected is None,
            r.wf(),
    {
        App { config: AppConfig { active_device: None }, device_picker: DevicePicker::new() }
    }

    pub open spec fn wf(&self) -> bool {
        self.device_picker.wf()
    }

    /// Applies an action that the application itself interprets: a chosen
    /// device becomes the active one. Any other action is handed back.
    pub fn handle_action(&mut self, action: Action) -> (r: Option<Action>)
        ensures
            final(self).device_picker == old(self).device_picker,
            match action {
                Action::SetActiveDevice(name) => r is None && final(self).config.active_device
                    == Some(name),
                _ => r == Some(action) && final(self).config == old(self).config,
            },
    {
        match action {
            Action::SetActiveDevice(device) => {
                self.config.active_device = Some(device);
                None
            },
            _ => Some(action),
        }
    }

    /// Handles one input event. Escape pressed quits; while no device is
    /// active the picker gets the event and a device it picks becomes the
    /// active one; once a device is active the picker no longer reacts.
    pub fn handle_event(&mut self, event: Event) -> (r: Action)
        requires
            old(self).wf(),
        ensures
            final(self).wf(),
            is_quit_key(event) ==> r is Quit && *final(self) == *old(self),
            !is_quit_key(event) && old(self).config.active_device is Some ==> r is Noop
                && *final(self) == *old(self),
            !is_quit_key(event) && old(self).config.active_device is None ==> {
                &&& final(self).device_picker.picked(old(self).device_picker, Some(event))
                &&& match old(self).device_picker.choice(Some(event)) {
                    Some(name) => final(self).config.active_device matches Some(d) && d@ == name,
                    None => final(self).config == old(self).config,
                }
                &&& r is Noop
            },
    {
        if let Event::Key(k) = event {
            if k.code == KeyCode::Esc && k.kind == KeyEventKind::Press {
                return Action::Quit;
            }
        }
        if self.config.active_device.is_none() {
            let action = self.device_picker.handle_event(Some(event));
            if let Some(action) = self.handle_action(action) {
                return action;
            }
        }
        Action::Noop
    }
}

/// A request to the thread that owns the scanner library.
#[derive(Debug, Clone, Copy, PartialEq, Eq, Structural)]
pub enum SaneQuery {
    /// Enumerate the available devices.
    ListDevices,
}

/// What the hardware thread does next.
#[derive(Debug, Clone, Copy, PartialEq, Eq, Structural)]
pub enum HandlerStep {
    /// Enumerate the devices and send the list back.
    ListDevices,
    /// Leave the loop.
    Stop,
}

/// The hardware thread's decision on what the request channel gave: a
/// closed channel (`None`) stops it, a request is served.
pub fn handler_step(query: Option<SaneQuery>) -> (r: HandlerStep)
    ensures
        query is None <==> r is Stop,
        query matches Some(SaneQuery::ListDevices) ==> r is ListDevices,
{
    match query {
        None => HandlerStep::Stop,
        Some(SaneQuery::ListDevices) => HandlerStep::ListDevices,
    }
}

/// Whether the hardware thread goes on after answering: it stops once the
/// asking side no longer listens.
pub fn keep_serving(delivered: bool) -> (r: bool)
    ensures
        r == delivered,
{
    delivered
}

} // verus!
