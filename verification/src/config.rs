//! Client configuration values that carry no platform-specific data.

use vstd::prelude::*;

verus! {

/// WhatsApp application version.
#[derive(Clone, Copy, Debug, PartialEq, Eq, Structural)]
pub struct AppVersion {
    pub primary: u16,
    pub secondary: u16,
    pub tertiary: u16,
}

impl AppVersion {
    /// The version this client reports: 2.25.1.
    pub fn default_version() -> (r: Self)
        ensures
            r.primary == 2 && r.secondary == 25 && r.tertiary == 1,
    {
        AppVersion { primary: 2, secondary: 25, tertiary: 1 }
    }
}

impl Default for AppVersion {
    fn default() -> (r: Self)
        ensures
            r.primary == 2 && r.secondary == 25 && r.tertiary == 1,
    {
        Self::default_version()
    }
}

} // verus!
