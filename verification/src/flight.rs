//! The flight regimes of the efoil and the rule that tells them apart.

use vstd::prelude::*;

verus! {

/// Operational flight regime of the efoil.
#[derive(Clone, Copy, Debug, PartialEq, Eq, Structural, Default)]
pub enum FlightState {
    /// Board resting in water; buoyancy supports weight; high displacement drag.
    #[default]
    Floating,
    /// Transition speed; wing lift building; board beginning to plane.
    Planing,
    /// Full hydrofoil flight; hull completely clear of water; minimal drag.
    Foiling,
    /// Front wing has pierced water surface; lift collapsed; nose drops.
    Breached,
}

/// The regime that telemetry reports, from the three observations it is decided on.
pub open spec fn flight_state_of(front_wing_breached: bool, hull_clear_at_speed: bool, above_planing_speed: bool) -> FlightState {
    if front_wing_breached {
        FlightState::Breached
    } else if hull_clear_at_speed {
        FlightState::Foiling
    } else if above_planing_speed {
        FlightState::Planing
    } else {
        FlightState::Floating
    }
}

/// The ranking of regimes: a breached front wing makes the regime Breached
/// whatever the hull and the speed; otherwise a hull clear at speed makes it
/// Foiling; otherwise planing speed makes it Planing; otherwise it is Floating.
/// And each regime arises only so.
pub proof fn lemma_breach_outranks_foiling_outranks_planing(front_wing_breached: bool, hull_clear_at_speed: bool, above_planing_speed: bool)
    ensures
        front_wing_breached ==> flight_state_of(front_wing_breached, hull_clear_at_speed, above_planing_speed)
            == FlightState::Breached,
        !front_wing_breached && hull_clear_at_speed ==> flight_state_of(front_wing_breached, hull_clear_at_speed, above_planing_speed)
            == FlightState::Foiling,
        !front_wing_breached && !hull_clear_at_speed && above_planing_speed ==> flight_state_of(
            front_wing_breached,
            hull_clear_at_speed,
            above_planing_speed,
        ) == FlightState::Planing,
        !front_wing_breached && !hull_clear_at_speed && !above_planing_speed ==> flight_state_of(
            front_wing_breached,
            hull_clear_at_speed,
            above_planing_speed,
        ) == FlightState::Floating,
{
}

/// Tells the flight regime apart.
///
/// `front_wing_breached`: the front wing is above the water surface.
/// `hull_clear_at_speed`: under 5 % of the hull volume is submerged and the
/// board moves faster than 3 m/s. `above_planing_speed`: it moves faster than
/// 2 m/s. A breach outranks everything, then foiling, then planing.
pub fn classify_flight_state(front_wing_breached: bool, hull_clear_at_speed: bool, above_planing_speed: bool) -> (s: FlightState)
    ensures
        s == flight_state_of(front_wing_breached, hull_clear_at_speed, above_planing_speed),
        front_wing_breached ==> s == FlightState::Breached,
        !front_wing_breached && hull_clear_at_speed ==> s == FlightState::Foiling,
        !front_wing_breached && !hull_clear_at_speed && above_planing_speed ==> s == FlightState::Planing,
        !front_wing_breached && !hull_clear_at_speed && !above_planing_speed ==> s == FlightState::Floating,
{
    if front_wing_breached {
        FlightState::Breached
    } else if hull_clear_at_speed {
        FlightState::Foiling
    } else if above_planing_speed {
        FlightState::Planing
    } else {
        FlightState::Floating
    }
}

} // verus!
