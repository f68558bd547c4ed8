use vstd::prelude::*;

verus! {

/// Whether the arena's wall lights are visible (toggled from the pause
/// menu's debug section).
#[derive(Clone, Copy, Debug, PartialEq, Eq, Structural)]
pub struct WallLightsEnabled(pub bool);

impl WallLightsEnabled {
    /// Flip the setting and return the new value.
    pub fn toggle(&mut self) -> (on: bool)
        ensures
            final(self).0 == !old(self).0,
            on == final(self).0,
    {
        self.0 = !self.0;
        self.0
    }

    /// The label of the toggle button for the current setting.
    pub fn label(&self) -> (s: &'static str)
        ensures
            s@ == (if self.0 { "Lights: ON"@ } else { "Lights: OFF"@ }),
    {
        if self.0 {
            "Lights: ON"
        } else {
            "Lights: OFF"
        }
    }
}

impl Default for WallLightsEnabled {
    /// Lights are on by default.
    fn default() -> (w: WallLightsEnabled)
        ensures
            w.0,
    {
        WallLightsEnabled(true)
    }
}

} // verus!
