//! The options of an application.

use crate::{input::key::Protocol, theme::Theme};
use vstd::prelude::*;

verus! {

#[allow(clippy::large_enum_variant)]
#[derive(Copy, Clone, PartialEq, Eq, Debug, Structural)]
pub enum AppOption {
    Theme(Theme),
    NoInterrupt(bool),
    RefreshRate(usize),
    CaptureMouse(bool),
    KeyProtocol(Protocol),
}

#[derive(Copy, Clone, PartialEq, Eq, Debug, Structural)]
pub struct AppOptions {
    pub theme: Theme,
    pub no_interrupt: bool,
    pub refresh_rate: usize,
    pub capture_mouse: bool,
    pub key_protocol: Protocol,
}

impl AppOptions {
    /// The options with `option` set.
    pub open spec fn with(self, option: AppOption) -> AppOptions {
        match option {
            AppOption::Theme(t) => AppOptions { theme: t, ..self },
            AppOption::NoInterrupt(b) => AppOptions { no_interrupt: b, ..self },
            AppOption::RefreshRate(n) => AppOptions { refresh_rate: n, ..self },
            AppOption::CaptureMouse(b) => AppOptions { capture_mouse: b, ..self },
            AppOption::KeyProtocol(p) => AppOptions { key_protocol: p, ..self },
        }
    }

    pub fn new() -> (options: AppOptions)
        ensures
            options == (AppOptions {
                theme: Theme::standard(),
                no_interrupt: true,
                refresh_rate: 30,
                capture_mouse: false,
                key_protocol: Protocol::Default,
            }),
    {
        AppOptions {
            theme: Theme::new(),
            no_interrupt: true,
            refresh_rate: 30,
            capture_mouse: false,
            key_protocol: Protocol::Default,
        }
    }

    pub fn set(&mut self, option: AppOption)
        ensures
            *final(self) == old(self).with(option),
    {
        match option {
            AppOption::Theme(t) => self.theme = t,
            AppOption::NoInterrupt(b) => self.no_interrupt = b,
            AppOption::RefreshRate(n) => self.refresh_rate = n,
            AppOption::CaptureMouse(b) => self.capture_mouse = b,
            AppOption::KeyProtocol(p) => self.key_protocol = p,
        }
    }
}

} // verus!
