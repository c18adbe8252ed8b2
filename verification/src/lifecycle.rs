//! Device lifecycle tracker: records the enabled/addressed/configured
//! transitions signalled by the transport layer.
//!
//! The tracker is written only from the transport callback path and read
//! everywhere else.  It is advisory: a deployment may gate report
//! transmission on `Configured` as a hardening (see
//! [`DeviceLifecycle::may_transmit`]), or ignore it and send whenever the
//! input pipeline has something to say.

use vstd::prelude::*;

verus! {

/// The three lifecycle states.  There is no terminal state: transitions
/// continue for the device's lifetime.
#[derive(Clone, Copy, PartialEq, Eq, Structural, Debug)]
pub enum LifecycleState {
    /// Initial state, before the transport enables the device.
    Disabled,
    /// On the bus but not yet (or no longer) configured by the host.
    EnabledUnconfigured,
    /// Fully configured; reports are meaningful to the host.
    Configured,
}

/// Single-writer cell holding the lifecycle state.
#[derive(Clone, Copy, PartialEq, Eq, Structural, Debug)]
pub struct DeviceLifecycle {
    pub state: LifecycleState,
}

impl DeviceLifecycle {
    /// A device starts disabled.
    pub fn new() -> (t: DeviceLifecycle)
        ensures
            t.state == LifecycleState::Disabled,
    {
        DeviceLifecycle { state: LifecycleState::Disabled }
    }

    /// Bus reset: configuration is lost.
    pub fn reset(&mut self)
        ensures
            final(self).state == LifecycleState::EnabledUnconfigured,
    {
        self.state = LifecycleState::EnabledUnconfigured;
    }

    /// The host assigned a bus address: configuration is lost.
    pub fn addressed(&mut self)
        ensures
            final(self).state == LifecycleState::EnabledUnconfigured,
    {
        self.state = LifecycleState::EnabledUnconfigured;
    }

    /// The transport enabled or disabled the device.  Enabling is a no-op
    /// on a configured device; any other enable, and every disable, forces
    /// the unconfigured state.
    pub fn enabled(&mut self, on: bool)
        ensures
            final(self).state == (if on && old(self).state == LifecycleState::Configured {
                LifecycleState::Configured
            } else {
                LifecycleState::EnabledUnconfigured
            }),
    {
        if !(on && self.state == LifecycleState::Configured) {
            self.state = LifecycleState::EnabledUnconfigured;
        }
    }

    /// The host set or cleared the device configuration.
    pub fn configured(&mut self, on: bool)
        ensures
            final(self).state == (if on {
                LifecycleState::Configured
            } else {
                LifecycleState::EnabledUnconfigured
            }),
    {
        if on {
            self.state = LifecycleState::Configured;
        } else {
            self.state = LifecycleState::EnabledUnconfigured;
        }
    }

    /// Whether the host has configured the device.
    pub fn is_configured(&self) -> (b: bool)
        ensures
            b == (self.state == LifecycleState::Configured),
    {
        self.state == LifecycleState::Configured
    }

    /// Hardened send gate: suppress reports until the device is
    /// configured.  Gating on this is a deliberate strengthening over
    /// designs that transmit regardless of lifecycle.
    pub fn may_transmit(&self) -> (b: bool)
        ensures
            b == (self.state == LifecycleState::Configured),
    {
        self.is_configured()
    }
}

} // verus!
