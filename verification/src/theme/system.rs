//! System colour scheme as the freedesktop portal reports it.

use vstd::prelude::*;

verus! {

/// System colour scheme preference from the freedesktop portal.
#[derive(Debug, Clone, Copy, PartialEq, Eq, Structural)]
pub enum SystemColorScheme {
    /// No preference set (default to light).
    NoPreference,
    /// System prefers dark theme.
    Dark,
    /// System prefers light theme.
    Light,
}

/// Errors from system theme detection.
#[derive(Debug, Clone, PartialEq, Eq)]
pub enum SystemThemeError {
    /// D-Bus session connection not available.
    DBusUnavailable(String),
    /// Portal doesn't support the color-scheme setting.
    PortalUnsupported(String),
}

impl SystemThemeError {
    /// The error's message, as its `Display` writes it.
    pub fn message(&self) -> (r: String)
        ensures
            r@ == match *self {
                SystemThemeError::DBusUnavailable(m) => "D-Bus session unavailable: "@ + m@,
                SystemThemeError::PortalUnsupported(m) => "portal does not support color-scheme: "@ + m@,
            },
    {
        match self {
            SystemThemeError::DBusUnavailable(m) => {
                let mut s = crate::text::owned("D-Bus session unavailable: ");
                crate::text::push_str(&mut s, m.as_str());
                s
            },
            SystemThemeError::PortalUnsupported(m) => {
                let mut s = crate::text::owned("portal does not support color-scheme: ");
                crate::text::push_str(&mut s, m.as_str());
                s
            },
        }
    }
}

/// The scheme named by the portal's `color-scheme` value: 1 is dark,
/// 2 is light, anything else no preference.
pub open spec fn scheme_of(raw: u32) -> SystemColorScheme {
    if raw == 1 {
        SystemColorScheme::Dark
    } else if raw == 2 {
        SystemColorScheme::Light
    } else {
        SystemColorScheme::NoPreference
    }
}

/// Interpret the portal's raw `color-scheme` value.
pub fn scheme_from_portal_value(raw: u32) -> (r: SystemColorScheme)
    ensures
        r == scheme_of(raw),
{
    if raw == 1 {
        SystemColorScheme::Dark
    } else if raw == 2 {
        SystemColorScheme::Light
    } else {
        SystemColorScheme::NoPreference
    }
}

} // verus!
