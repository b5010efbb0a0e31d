use vstd::prelude::*;

use crate::error::ScannrsError;
use crate::tui::{Action, Event, KeyCode};

verus! {

/// A list of devices with a cursor, from which the user picks one.
pub struct DevicePicker {
    /// The names of the devices, once they were listed.
    pub available_devices: Option<Vec<String>>,
    /// The highlighted entry, if any.
    pub selected: Option<usize>,
}

/// The cursor after Down: one further, but not past the last entry.
pub open spec fn cursor_down(sel: Option<usize>, n: int) -> Option<usize> {
    if n == 0 {
        None
    } else {
        match sel {
            None => Some(0),
            Some(i) => Some(if i + 1 < n { (i + 1) as usize } else { i }),
        }
    }
}

/// The cursor after Up: one back, but not before the first entry. With no
/// entry highlighted, Up highlights the last one.
pub open spec fn cursor_up(sel: Option<usize>, n: int) -> Option<usize> {
    if n == 0 {
        None
    } else {
        match sel {
            None => Some((n - 1) as usize),
            Some(i) => Some(if i > 0 { (i - 1) as usize } else { 0 }),
        }
    }
}

impl DevicePicker {
    /// The number of listed devices.
    pub open spec fn count(&self) -> int {
        match self.available_devices {
            Some(d) => d@.len() as int,
            None => 0,
        }
    }

    /// The cursor, when set, is on a listed device.
    pub open spec fn wf(&self) -> bool {
        self.selected matches Some(i) ==> i < self.count()
    }

    /// The name an event picks: Enter on a highlighted device.
    pub open spec fn choice(&self, event: Option<Event>) -> Option<Seq<char>> {
        match (event, self.available_devices, self.selected) {
            (Some(Event::Key(k)), Some(d), Some(i)) => if k.code == KeyCode::Enter && i
                < d@.len() {
                Some(d@[i as int]@)
            } else {
                None
            },
            _ => None,
        }
    }

    /// `self` is what `before` becomes on `event`: the list stays, Up and
    /// Down move the cursor, every other input leaves it.
    pub open spec fn picked(&self, before: DevicePicker, event: Option<Event>) -> bool {
        &&& self.available_devices == before.available_devices
        &&& self.selected == match event {
            Some(Event::Key(k)) => match k.code {
                KeyCode::Up => cursor_up(before.selected, before.count()),
                KeyCode::Down => cursor_down(before.selected, before.count()),
                _ => before.selected,
            },
            _ => before.selected,
        }
    }

    /// A picker whose devices are not listed yet.
    pub fn new() -> (r: DevicePicker)
        ensures
            r.available_devices is None,
            r.selected is None,
            r.wf(),
    {
        DevicePicker { available_devices: None, selected: None }
    }

    /// Takes the answer to a device listing: `None` when the hardware thread
    /// went away without answering, which is an error and changes nothing.
    /// A list replaces the old one and clears the cursor.
    pub fn receive_devices(&mut self, response: Option<Vec<String>>) -> (r: Result<(), ScannrsError>)
        requires
            old(self).wf(),
        ensures
            final(self).wf(),
            match response {
                None => r matches Err(ScannrsError::Disconnected) && *final(self) == *old(self),
                Some(d) => r is Ok && final(self).available_devices == Some(d)
                    && final(self).selected is None,
            },
    {
        match response {
            None => Err(ScannrsError::Disconnected),
            Some(devices) => {
                self.available_devices = Some(devices);
                self.selected = None;
                Ok(())
            },
        }
    }

    fn len(&self) -> (r: usize)
        ensures
            r == self.count(),
    {
        match &self.available_devices {
            Some(d) => d.len(),
            None => 0,
        }
    }

    /// Moves the cursor on Up and Down, and picks the highlighted device on
    /// Enter. Any other input does nothing.
    pub fn handle_event(&mut self, event: Option<Event>) -> (r: Action)
        requires
            old(self).wf(),
        ensures
            final(self).wf(),
            final(self).picked(*old(self), event),
            match old(self).choice(event) {
                Some(name) => r matches Action::SetActiveDevice(s) && s@ == name,
                None => r is Noop,
            },
    {
        let n = self.len();
        match event {
            Some(Event::Key(k)) => match k.code {
                KeyCode::Up => {
                    if n > 0 {
                        self.selected = match self.selected {
                            None => Some(n - 1),
                            Some(i) => Some(if i > 0 { i - 1 } else { 0 }),
                        };
                    }
                    Action::Noop
                },
                KeyCode::Down => {
                    if n > 0 {
                        self.selected = match self.selected {
                            None => Some(0),
                            Some(i) => Some(if i + 1 < n { i + 1 } else { i }),
                        };
                    }
                    Action::Noop
                },
                KeyCode::Enter => {
                    match (&self.available_devices, self.selected) {
                        (Some(d), Some(i)) => {
                            if i < d.len() {
                                return Action::SetActiveDevice(d[i].clone());
                            }
                        },
                        _ => {},
                    }
                    Action::Noop
                },
                _ => Action::Noop,
            },
            _ => Action::Noop,
        }
    }
}

/// The cursor does not wrap: Down on the last device leaves it there, Up on
/// the first leaves it there, and with no devices Enter picks nothing.
pub proof fn lemma_cursor_saturates(p: DevicePicker, event: Option<Event>)
    requires
        p.wf(),
    ensures
        p.selected matches Some(i) && i + 1 == p.count() ==> cursor_down(p.selected, p.count())
            == p.selected,
        p.selected == Some(0usize) ==> cursor_up(p.selected, p.count()) == p.selected,
        p.count() == 0 ==> p.choice(event) is None,
{
}

} // verus!
