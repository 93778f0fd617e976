//! What the engine may do on the platform it runs on.
//!
//! The platform is observed by the caller (the environment on Linux, the
//! system's answer on macOS) and handed in as a plain value; the rules that
//! turn the observation into a permission live here.

use vstd::prelude::*;
use vstd::string::*;

verus! {

/// Permission status for a specific capability.
#[derive(Debug, Clone, Copy, PartialEq, Eq, Structural)]
pub enum PermissionStatus {
    /// Permission is granted.
    Granted,
    /// Permission is denied.
    Denied,
    /// Permission has not been requested yet.
    NotDetermined,
    /// Permission is restricted, for instance by parental controls.
    Restricted,
    /// Not applicable on this platform.
    NotApplicable,
}

/// All permission statuses of the application.
#[derive(Debug, Clone, Copy, PartialEq, Eq, Structural)]
pub struct PermissionState {
    pub screen_recording: PermissionStatus,
    pub microphone: PermissionStatus,
    pub camera: PermissionStatus,
    pub accessibility: PermissionStatus,
}

impl PermissionState {
    /// Nothing has been determined yet.
    pub open spec fn undetermined() -> PermissionState {
        PermissionState {
            screen_recording: PermissionStatus::NotDetermined,
            microphone: PermissionStatus::NotDetermined,
            camera: PermissionStatus::NotDetermined,
            accessibility: PermissionStatus::NotDetermined,
        }
    }

    /// Screen recording as given; everything else is settled elsewhere.
    pub open spec fn screen_only(screen_recording: PermissionStatus) -> PermissionState {
        PermissionState {
            screen_recording,
            microphone: PermissionStatus::NotApplicable,
            camera: PermissionStatus::NotApplicable,
            accessibility: PermissionStatus::NotApplicable,
        }
    }
}

impl Default for PermissionState {
    fn default() -> (s: Self)
        ensures
            s == PermissionState::undetermined(),
    {
        PermissionState {
            screen_recording: PermissionStatus::NotDetermined,
            microphone: PermissionStatus::NotDetermined,
            camera: PermissionStatus::NotDetermined,
            accessibility: PermissionStatus::NotDetermined,
        }
    }
}

/// Whether `name` spells "wayland", in any mix of upper and lower case.
pub open spec fn names_wayland(name: Seq<char>) -> bool {
    &&& name.len() == 7
    &&& (name[0] == 'w' || name[0] == 'W')
    &&& (name[1] == 'a' || name[1] == 'A')
    &&& (name[2] == 'y' || name[2] == 'Y')
    &&& (name[3] == 'l' || name[3] == 'L')
    &&& (name[4] == 'a' || name[4] == 'A')
    &&& (name[5] == 'n' || name[5] == 'N')
    &&& (name[6] == 'd' || name[6] == 'D')
}

/// What a Linux session's environment says about its display server.
#[derive(Debug)]
pub struct LinuxSession {
    /// `WAYLAND_DISPLAY` is set.
    pub wayland_display: bool,
    /// The value of `XDG_SESSION_TYPE`, where it is set.
    pub session_type: Option<String>,
    /// `DISPLAY` is set.
    pub display: bool,
}

impl LinuxSession {
    pub open spec fn spec_is_wayland(&self) -> bool {
        self.wayland_display || (self.session_type matches Some(name) && names_wayland(name@))
    }

    pub open spec fn spec_is_x11(&self) -> bool {
        self.display && !self.spec_is_wayland()
    }

    /// Whether the session runs on a Wayland display server.
    pub fn is_wayland(&self) -> (b: bool)
        ensures
            b == self.spec_is_wayland(),
    {
        if self.wayland_display {
            return true;
        }
        match &self.session_type {
            Some(name) => {
                let text: &str = name.as_str();
                if text.unicode_len() != 7 {
                    return false;
                }
                let c0 = text.get_char(0);
                let c1 = text.get_char(1);
                let c2 = text.get_char(2);
                let c3 = text.get_char(3);
                let c4 = text.get_char(4);
                let c5 = text.get_char(5);
                let c6 = text.get_char(6);
                (c0 == 'w' || c0 == 'W') && (c1 == 'a' || c1 == 'A') && (c2 == 'y' || c2 == 'Y')
                    && (c3 == 'l' || c3 == 'L') && (c4 == 'a' || c4 == 'A') && (c5 == 'n' || c5
                    == 'N') && (c6 == 'd' || c6 == 'D')
            },
            None => false,
        }
    }

    /// Whether the session runs on an X11 display server.
    pub fn is_x11(&self) -> (b: bool)
        ensures
            b == self.spec_is_x11(),
    {
        self.display && !self.is_wayland()
    }
}

/// The platform the engine runs on, with what was observed of it.
#[derive(Debug)]
pub enum Platform {
    /// macOS; `screen_capture_allowed` is the system's answer to the check, or
    /// to the request where the user was asked.
    MacOs { screen_capture_allowed: bool },
    Linux(LinuxSession),
    Windows,
    /// Any other platform.
    Other,
}

impl Platform {
    /// The status of screen recording, without asking the user.
    pub open spec fn spec_check(&self) -> PermissionStatus {
        match self {
            Platform::MacOs { screen_capture_allowed } => if *screen_capture_allowed {
                PermissionStatus::Granted
            } else {
                PermissionStatus::Denied
            },
            Platform::Linux(session) => if session.spec_is_wayland() {
                PermissionStatus::NotDetermined
            } else if session.spec_is_x11() {
                PermissionStatus::Granted
            } else {
                PermissionStatus::NotDetermined
            },
            Platform::Windows => PermissionStatus::Granted,
            Platform::Other => PermissionStatus::NotApplicable,
        }
    }

    /// The status of screen recording after the user was asked.
    pub open spec fn spec_request(&self) -> PermissionStatus {
        match self {
            Platform::MacOs { screen_capture_allowed } => if *screen_capture_allowed {
                PermissionStatus::Granted
            } else {
                PermissionStatus::Denied
            },
            Platform::Linux(session) => if session.spec_is_wayland() {
                PermissionStatus::NotDetermined
            } else {
                PermissionStatus::Granted
            },
            Platform::Windows => PermissionStatus::Granted,
            Platform::Other => PermissionStatus::NotApplicable,
        }
    }

    pub open spec fn spec_state(&self) -> PermissionState {
        match self {
            Platform::Other => PermissionState::undetermined(),
            _ => PermissionState::screen_only(self.spec_check()),
        }
    }

    /// Whether a screen share may be started: the permission is there, or
    /// the platform will ask for it when the capture starts.
    pub open spec fn spec_may_share(&self) -> bool {
        match self {
            Platform::MacOs { .. } => self.spec_check() == PermissionStatus::Granted,
            Platform::Linux(_) => self.spec_check() == PermissionStatus::Granted
                || self.spec_check() == PermissionStatus::NotDetermined,
            Platform::Windows => true,
            Platform::Other => false,
        }
    }
}

/// The status of screen recording, without asking the user.
pub fn check_screen_recording(platform: &Platform) -> (status: PermissionStatus)
    ensures
        status == platform.spec_check(),
{
    match platform {
        Platform::MacOs { screen_capture_allowed } => {
            if *screen_capture_allowed {
                PermissionStatus::Granted
            } else {
                PermissionStatus::Denied
            }
        },
        Platform::Linux(session) => {
            if session.is_wayland() {
                // Asked for by the portal, each time a capture starts.
                PermissionStatus::NotDetermined
            } else if session.is_x11() {
                PermissionStatus::Granted
            } else {
                PermissionStatus::NotDetermined
            }
        },
        Platform::Windows => PermissionStatus::Granted,
        Platform::Other => PermissionStatus::NotApplicable,
    }
}

/// The status of screen recording once the user has been asked, where the
/// platform asks at all.
pub fn request_screen_recording(platform: &Platform) -> (status: PermissionStatus)
    ensures
        status == platform.spec_request(),
{
    match platform {
        Platform::MacOs { screen_capture_allowed } => {
            if *screen_capture_allowed {
                PermissionStatus::Granted
            } else {
                PermissionStatus::Denied
            }
        },
        Platform::Linux(session) => {
            if session.is_wayland() {
                PermissionStatus::NotDetermined
            } else {
                PermissionStatus::Granted
            }
        },
        Platform::Windows => PermissionStatus::Granted,
        Platform::Other => PermissionStatus::NotApplicable,
    }
}

/// All permission statuses on this platform.
pub fn get_permission_state(platform: &Platform) -> (state: PermissionState)
    ensures
        state == platform.spec_state(),
{
    match platform {
        Platform::Other => PermissionState::default(),
        _ => PermissionState {
            screen_recording: check_screen_recording(platform),
            microphone: PermissionStatus::NotApplicable,
            camera: PermissionStatus::NotApplicable,
            accessibility: PermissionStatus::NotApplicable,
        },
    }
}

/// Whether a screen share may be started on this platform.
pub fn has_screen_share_permission(platform: &Platform) -> (allowed: bool)
    ensures
        allowed == platform.spec_may_share(),
{
    match platform {
        Platform::MacOs { .. } => check_screen_recording(platform) == PermissionStatus::Granted,
        Platform::Linux(_) => {
            let status = check_screen_recording(platform);
            status == PermissionStatus::Granted || status == PermissionStatus::NotDetermined
        },
        Platform::Windows => true,
        Platform::Other => false,
    }
}

} // verus!
