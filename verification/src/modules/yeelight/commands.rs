//! The commands of a bulb.
//!
//! A descriptor is what a bulb announced of itself; it holds no connection
//! to the bulb. So `get_id` answers from the descriptor, and every command
//! that would have to reach the bulb answers with the error
//! `not implemented` and changes nothing.

use vstd::prelude::*;

use crate::modules::yeelight::YeelightBulb;

verus! {

/// The error of a command that cannot reach the bulb.
pub open spec fn not_implemented() -> Seq<char> {
    "not implemented"@
}

/// The error of a command that cannot reach the bulb.
pub fn unsupported() -> (error: &'static str)
    ensures
        error@ == not_implemented(),
{
    "not implemented"
}

impl YeelightBulb {
    /// The identifier of the bulb.
    pub fn get_id(&self) -> (r: Result<String, &'static str>)
        ensures
            r matches Ok(id) && id@ == self@.id,
    {
        Ok(self.id().clone())
    }

    /// Retrieves the current properties of the bulb.
    #[allow(unused_variables)]
    pub fn get_prop(&self) -> (r: Result<Vec<String>, &'static str>)
        ensures
            r matches Err(e) && e@ == not_implemented(),
    {
        Err(unsupported())
    }

    /// Changes the colour temperature.
    #[allow(unused_variables)]
    pub fn set_ct_abx(&self, ct_value: i8, effect: String, duration: i8) -> (r: Option<
        &'static str,
    >)
        ensures
            r matches Some(e) && e@ == not_implemented(),
    {
        Some(unsupported())
    }

    /// Changes the colour.
    #[allow(unused_variables)]
    pub fn set_rgb(&self, rgb_value: i8, effect: String, duration: i32) -> (r: Option<
        &'static str,
    >)
        ensures
            r matches Some(e) && e@ == not_implemented(),
    {
        Some(unsupported())
    }

    /// Changes the colour, by hue and saturation.
    #[allow(unused_variables)]
    pub fn set_hsv(&self, hue: i8, satint: i8, effect: String, duration: i32) -> (r: Option<
        &'static str,
    >)
        ensures
            r matches Some(e) && e@ == not_implemented(),
    {
        Some(unsupported())
    }

    /// Changes the brightness.
    #[allow(unused_variables)]
    pub fn set_bright(&self, brightness: i8, effect: String, duration: i32) -> (r: Option<
        &'static str,
    >)
        ensures
            r matches Some(e) && e@ == not_implemented(),
    {
        Some(unsupported())
    }

    /// Switches the bulb on or off.
    #[allow(unused_variables)]
    pub fn set_power(&self, power: String, effect: String, duration: i32) -> (r: Option<
        &'static str,
    >)
        ensures
            r matches Some(e) && e@ == not_implemented(),
    {
        Some(unsupported())
    }

    /// Toggles the bulb.
    pub fn toggle(&self) -> (r: Option<&'static str>)
        ensures
            r matches Some(e) && e@ == not_implemented(),
    {
        Some(unsupported())
    }

    /// Saves the current state of the bulb as the state it starts in.
    pub fn set_default(&self) -> (r: Option<&'static str>)
        ensures
            r matches Some(e) && e@ == not_implemented(),
    {
        Some(unsupported())
    }

    /// Starts a colour flow.
    #[allow(unused_variables)]
    pub fn start_cf(&self, count: i8, action: i8, flow_expression: String) -> (r: Option<
        &'static str,
    >)
        ensures
            r matches Some(e) && e@ == not_implemented(),
    {
        Some(unsupported())
    }

    /// Stops a running colour flow.
    pub fn stop_cf(&self) -> (r: Option<&'static str>)
        ensures
            r matches Some(e) && e@ == not_implemented(),
    {
        Some(unsupported())
    }

    /// Sets the bulb directly to a given state.
    #[allow(unused_variables)]
    pub fn set_scene(&self, class: String, val1: i8, val2: i8, val3: i8) -> (r: Option<
        &'static str,
    >)
        ensures
            r matches Some(e) && e@ == not_implemented(),
    {
        Some(unsupported())
    }

    /// Starts a timer job on the bulb.
    #[allow(unused_variables)]
    pub fn cron_add(&self, cron_type: i8, value: i8) -> (r: Option<&'static str>)
        ensures
            r matches Some(e) && e@ == not_implemented(),
    {
        Some(unsupported())
    }

    /// Retrieves the setting of the current timer job.
    pub fn cron_get(&self) -> (r: Result<(i8, i8), &'static str>)
        ensures
            r matches Err(e) && e@ == not_implemented(),
    {
        Err(unsupported())
    }

    /// Stops a timer job.
    #[allow(unused_variables)]
    pub fn cron_del(&self, cron_type: i8) -> (r: Option<&'static str>)
        ensures
            r matches Some(e) && e@ == not_implemented(),
    {
        Some(unsupported())
    }

    /// Changes brightness, colour temperature or colour without knowing the
    /// current value.
    #[allow(unused_variables)]
    pub fn set_adjust(&self, action: String, prop: String) -> (r: Option<&'static str>)
        ensures
            r matches Some(e) && e@ == not_implemented(),
    {
        Some(unsupported())
    }

    /// Starts or stops music mode.
    #[allow(unused_variables)]
    pub fn set_music(&self, action: i8, host: String, port: i16) -> (r: Option<&'static str>)
        ensures
            r matches Some(e) && e@ == not_implemented(),
    {
        Some(unsupported())
    }

    /// Names the bulb.
    #[allow(unused_variables)]
    pub fn set_name(&self, name: String) -> (r: Option<&'static str>)
        ensures
            r matches Some(e) && e@ == not_implemented(),
    {
        Some(unsupported())
    }
}

} // verus!
