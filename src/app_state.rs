use vstd::prelude::*;
use crate::renderer::DlnaDevice;
use crate::text::push_decimal;
use crate::timefmt::two_digits;
use crate::transport::{strings_view, BaseLocation};

verus! {

/// The screen the operator is on.
#[derive(Debug, Clone)]
pub enum AppState {
    /// Entering the room link.
    Startup,
    /// Choosing a renderer.
    SelectDevice,
    Playing,
    Paused,
    /// An error, with its message.
    Error(String),
}

pub open spec fn same_device(a: DlnaDevice, b: DlnaDevice) -> bool {
    &&& a.friendly_name@ == b.friendly_name@
    &&& a.location@ == b.location@
    &&& a.base == b.base
    &&& strings_view(a.services@) == strings_view(b.services@)
}

/// A copy of `d` that holds the same values.
pub fn copy_device(d: &DlnaDevice) -> (r: DlnaDevice)
    ensures
        same_device(r, *d),
{
    let mut services: Vec<String> = Vec::new();
    let mut i: usize = 0;
    while i < d.services.len()
        invariant
            i <= d.services@.len(),
            strings_view(services@) == strings_view(d.services@).subrange(0, i as int),
        decreases d.services@.len() - i,
    {
        let c = d.services[i].clone();
        assert(c == d.services@[i as int]);
        let ghost before = strings_view(services@);
        services.push(c);
        assert(strings_view(services@) =~= before.push(c@));
        i += 1;
        assert(strings_view(services@) =~= strings_view(d.services@).subrange(0, i as int));
    }
    assert(strings_view(d.services@).subrange(0, i as int) =~= strings_view(d.services@));
    let base = match &d.base {
        Some(b) => Some(BaseLocation { scheme: b.scheme.clone(), host: b.host.clone(), port: b.port }),
        None => None,
    };
    DlnaDevice {
        friendly_name: d.friendly_name.clone(),
        location: d.location.clone(),
        base,
        services,
    }
}

/// What the console shows and the choices the operator made.
#[derive(Debug)]
pub struct TuiApp {
    pub state: AppState,
    pub selected_device_idx: usize,
    pub devices: Vec<DlnaDevice>,
    pub current_song: Option<String>,
    /// (current, total) seconds of the track playing.
    pub playback_progress: (u32, u32),
    pub volume: u32,
    pub is_loading: bool,
    pub error_message: Option<String>,
    pub selected_device: Option<DlnaDevice>,
    pub room_url: Option<String>,
    pub room_id: Option<u64>,
    pub device_search_started: bool,
    pub playback_tasks_started: bool,
}

/// The selected device is the one at the selected index.
pub open spec fn selection_matches(app: TuiApp) -> bool {
    match app.selected_device {
        Some(d) => app.selected_device_idx < app.devices@.len() && same_device(
            d,
            app.devices@[app.selected_device_idx as int],
        ),
        None => true,
    }
}

impl TuiApp {
    /// The selected index points into the device list whenever the list is not empty.
    pub open spec fn wf(&self) -> bool {
        self.devices@.len() == 0 || self.selected_device_idx < self.devices@.len()
    }

    pub fn new() -> (r: TuiApp)
        ensures
            r.wf(),
            r.state is Startup,
            r.selected_device_idx == 0,
            r.devices@.len() == 0,
            r.current_song is None,
            r.playback_progress == (0u32, 0u32),
            r.volume == 50,
            !r.is_loading,
            r.selected_device is None,
            r.room_url is None,
            r.room_id is None,
    {
        TuiApp {
            state: AppState::Startup,
            selected_device_idx: 0,
            devices: Vec::new(),
            current_song: None,
            playback_progress: (0, 0),
            volume: 50,
            is_loading: false,
            error_message: None,
            selected_device: None,
            room_url: None,
            room_id: None,
            device_search_started: false,
            playback_tasks_started: false,
        }
    }

    pub fn update_state(&mut self, new_state: AppState)
        ensures
            final(self).state == new_state,
            final(self).devices == old(self).devices,
            final(self).volume == old(self).volume,
    {
        self.state = new_state;
    }

    /// Selects the next device, wrapping around after the last.
    pub fn next_device(&mut self)
        requires
            old(self).wf(),
        ensures
            final(self).wf(),
            final(self).devices == old(self).devices,
            old(self).devices@.len() == 0 ==> final(self).selected_device_idx == old(self).selected_device_idx
                && final(self).selected_device == old(self).selected_device,
            old(self).devices@.len() > 0 ==> final(self).selected_device_idx as int == (old(self).selected_device_idx
                + 1) % (old(self).devices@.len() as int) && final(self).selected_device is Some && selection_matches(
                *final(self),
            ),
    {
        if self.devices.len() > 0 {
            self.selected_device_idx = (self.selected_device_idx + 1) % self.devices.len();
            let d = copy_device(&self.devices[self.selected_device_idx]);
            self.selected_device = Some(d);
        }
    }

    /// Selects the previous device, wrapping around before the first.
    pub fn prev_device(&mut self)
        requires
            old(self).wf(),
        ensures
            final(self).wf(),
            final(self).devices == old(self).devices,
            old(self).devices@.len() == 0 ==> final(self).selected_device_idx == old(self).selected_device_idx
                && final(self).selected_device == old(self).selected_device,
            old(self).devices@.len() > 0 ==> final(self).selected_device_idx == (if old(self).selected_device_idx
                == 0 {
                (old(self).devices@.len() - 1) as usize
            } else {
                (old(self).selected_device_idx - 1) as usize
            }) && final(self).selected_device is Some && selection_matches(*final(self)),
    {
        if self.devices.len() > 0 {
            if self.selected_device_idx == 0 {
                self.selected_device_idx = self.devices.len() - 1;
            } else {
                self.selected_device_idx = self.selected_device_idx - 1;
            }
            let d = copy_device(&self.devices[self.selected_device_idx]);
            self.selected_device = Some(d);
        }
    }

    /// Raises the volume by 5 while it is below 100.
    pub fn increase_volume(&mut self)
        ensures
            final(self).volume == (if old(self).volume < 100 {
                (old(self).volume + 5) as u32
            } else {
                old(self).volume
            }),
    {
        if self.volume < 100 {
            self.volume = self.volume + 5;
        }
    }

    /// Lowers the volume by 5 when it is at least 5.
    pub fn decrease_volume(&mut self)
        ensures
            final(self).volume == (if old(self).volume >= 5 {
                (old(self).volume - 5) as u32
            } else {
                old(self).volume
            }),
    {
        if self.volume >= 5 {
            self.volume = self.volume - 5;
        }
    }

    /// Switches between playing and paused; any other screen stays as it is.
    pub fn toggle_playback(&mut self)
        ensures
            old(self).state is Playing ==> final(self).state is Paused,
            old(self).state is Paused ==> final(self).state is Playing,
            !(old(self).state is Playing) && !(old(self).state is Paused) ==> final(self).state
                == old(self).state,
    {
        match self.state {
            AppState::Playing => {
                self.state = AppState::Paused;
            },
            AppState::Paused => {
                self.state = AppState::Playing;
            },
            _ => {},
        }
    }

    /// Asks for the next track; the request itself is sent by the caller, so the console
    /// state does not change.
    pub fn next_track(&mut self)
        ensures
            *final(self) == *old(self),
    {
    }

    /// `seconds` as `MM:SS` (minutes keep every digit they need beyond two).
    pub fn format_time(&self, seconds: u32) -> (r: String)
        ensures
            r@ == two_digits((seconds / 60) as nat) + seq![':'] + two_digits((seconds % 60) as nat),
    {
        let mut out: Vec<char> = Vec::new();
        let m = seconds / 60;
        let s = seconds % 60;
        if m < 10 {
            out.push('0');
        }
        push_decimal(&mut out, m as u64);
        out.push(':');
        if s < 10 {
            out.push('0');
        }
        push_decimal(&mut out, s as u64);
        assert(out@ =~= two_digits(m as nat) + seq![':'] + two_digits(s as nat));
        let r = crate::text::string_of(&out, 0, out.len());
        assert(out@.subrange(0, out@.len() as int) =~= out@);
        r
    }

    /// Replaces the device list and selects its first device, if any.
    pub fn set_devices(&mut self, devices: Vec<DlnaDevice>)
        ensures
            final(self).wf(),
            final(self).devices == devices,
            devices@.len() > 0 ==> final(self).selected_device_idx == 0,
            devices@.len() > 0 ==> final(self).selected_device is Some && same_device(
                final(self).selected_device->0,
                devices@[0],
            ),
            devices@.len() == 0 ==> final(self).selected_device == old(self).selected_device,
    {
        self.devices = devices;
        if self.devices.len() > 0 {
            self.selected_device_idx = 0;
            let d = copy_device(&self.devices[0]);
            self.selected_device = Some(d);
        }
    }

    pub fn set_room_info(&mut self, url: String, id: u64)
        ensures
            final(self).room_url == Some(url),
            final(self).room_id == Some(id),
    {
        self.room_url = Some(url);
        self.room_id = Some(id);
    }
}

} // verus!
