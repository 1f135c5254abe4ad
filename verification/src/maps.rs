//! The maps backend: relaying GPS fixes from ROS 2 to the map frontend as
//! small JSON texts.
//!
//! The backend's tasks await ROS 2 messages and WebSocket sends, so they run
//! in the application; here stand the text they send and the choices they
//! make.
use vstd::prelude::*;
use vstd::string::*;

verus! {

/// The JSON text the frontend expects for a coordinate pair, given the
/// decimal renderings of the latitude and longitude.
pub open spec fn json_coordinate_pair(lat: Seq<char>, lon: Seq<char>) -> Seq<char> {
    "{\"lat\": "@ + lat + ", \"lon\": "@ + lon + "}"@
}

/// The layout of the coordinate text, for every pair of renderings: the
/// eight characters `{"lat": `, then the latitude rendering, then the nine
/// characters `, "lon": `, then the longitude rendering, then `}`.
pub proof fn lemma_json_coordinate_pair_layout(lat: Seq<char>, lon: Seq<char>)
    ensures
        ({
            let j = json_coordinate_pair(lat, lon);
            let a: int = 8 + lat.len() as int;
            let b: int = a + 9;
            &&& j.len() == lat.len() + lon.len() + 18
            &&& j.subrange(0, 8) == seq!['{', '"', 'l', 'a', 't', '"', ':', ' ']
            &&& j.subrange(8, a) == lat
            &&& j.subrange(a, b) == seq![',', ' ', '"', 'l', 'o', 'n', '"', ':', ' ']
            &&& j.subrange(b, b + lon.len() as int) == lon
            &&& j[b + lon.len() as int] == '}'
        }),
{
    reveal_strlit("{\"lat\": ");
    reveal_strlit(", \"lon\": ");
    reveal_strlit("}");
    let j = json_coordinate_pair(lat, lon);
    let a: int = 8 + lat.len() as int;
    let b: int = a + 9;
    assert(j.subrange(0, 8) =~= seq!['{', '"', 'l', 'a', 't', '"', ':', ' ']);
    assert(j.subrange(8, a) =~= lat);
    assert(j.subrange(a, b) =~= seq![',', ' ', '"', 'l', 'o', 'n', '"', ':', ' ']);
    assert(j.subrange(b, b + lon.len() as int) =~= lon);
}

/// Replaces the text in `s` by the JSON coordinate pair
/// `{"lat": A.Bbbbbbb, "lon": C.Dddddd}`, where `lat` and `lon` are the
/// decimal renderings of the two coordinates (the renderings keep a decimal
/// point, so that the frontend reads floats).
pub fn create_json_coordinate_pair(s: &mut String, lat: &str, lon: &str)
    ensures
        final(s)@ == json_coordinate_pair(lat@, lon@),
{
    *s = String::from_str("{\"lat\": ");
    s.append(lat);
    s.append(", \"lon\": ");
    s.append(lon);
    s.append("}");
}

/// What the relay task learned from ROS 2.
#[derive(Clone, Copy, Debug, PartialEq, Eq, Structural)]
pub enum RelayEvent {
    /// A fix arrived; whether its latitude and its longitude are finite
    /// numbers.
    FixReceived { lat_finite: bool, lon_finite: bool },
    /// Receiving failed.
    ReceiveFailed,
}

/// What the relay task does next.
#[derive(Clone, Copy, Debug, PartialEq, Eq, Structural)]
pub enum RelayAction {
    /// Send the fix on to the WebSocket task.
    Forward,
    /// Wait for the next message.
    Wait,
    /// End the task.
    Stop,
}

/// Forwards a fix whose coordinates are both finite and ends the task on one
/// that is not; a failed receive is skipped.
pub fn relay_action(event: RelayEvent) -> (action: RelayAction)
    ensures
        action == match event {
            RelayEvent::FixReceived { lat_finite, lon_finite } => if lat_finite && lon_finite {
                RelayAction::Forward
            } else {
                RelayAction::Stop
            },
            RelayEvent::ReceiveFailed => RelayAction::Wait,
        },
{
    match event {
        RelayEvent::FixReceived { lat_finite, lon_finite } => if lat_finite && lon_finite {
            RelayAction::Forward
        } else {
            RelayAction::Stop
        },
        RelayEvent::ReceiveFailed => RelayAction::Wait,
    }
}

/// After forwarding: the task goes on while the WebSocket task still takes
/// messages, and ends once it is gone.
pub fn after_forward(delivered: bool) -> (action: RelayAction)
    ensures
        action == (if delivered {
            RelayAction::Wait
        } else {
            RelayAction::Stop
        }),
{
    if delivered {
        RelayAction::Wait
    } else {
        RelayAction::Stop
    }
}

} // verus!
