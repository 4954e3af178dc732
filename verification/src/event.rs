//! Wire events: the tagged payloads carried by session channels, and the
//! exact server-sent-event frames the HTTP layer must emit for them.

use vstd::prelude::*;
use vstd::string::StringExecFns;

verus! {

/// One event on a session channel, tagged by kind.
#[derive(Clone, Debug, PartialEq)]
pub enum WireEvent {
    /// The synthetic marker a fresh channel receives on registration.
    Connected,
    /// One wire-ready data payload.
    Data(String),
    /// The reaper's liveness probe; surfaced as a comment, never as data.
    Ping,
    /// The terminal marker: this session has ended.
    Done,
}

/// The text an event carries on the wire.
pub open spec fn event_payload_spec(e: WireEvent) -> Seq<char> {
    match e {
        WireEvent::Connected => "connected"@,
        WireEvent::Data(p) => p@,
        WireEvent::Ping => Seq::<char>::empty(),
        WireEvent::Done => "done."@,
    }
}

/// The exact server-sent data frame for a payload.
pub open spec fn data_frame_spec(p: Seq<char>) -> Seq<char> {
    "data: "@ + p + "\n\n"@
}

/// The comment frame used for liveness pings.
pub open spec fn comment_frame_spec() -> Seq<char> {
    ": ping\n\n"@
}

/// The frame the HTTP layer emits for one event.
pub open spec fn frame_spec(e: WireEvent) -> Seq<char> {
    if e is Ping {
        comment_frame_spec()
    } else {
        data_frame_spec(event_payload_spec(e))
    }
}

/// Renders one event as its literal wire frame: `data: <payload>\n\n` for
/// data-bearing events, a comment line for pings.
pub fn frame_event(e: &WireEvent) -> (r: String)
    ensures
        r@ == frame_spec(*e),
{
    match e {
        WireEvent::Connected => {
            let s = String::from_str("data: connected\n\n");
            proof {
                reveal_strlit("data: connected\n\n");
                reveal_strlit("data: ");
                reveal_strlit("connected");
                reveal_strlit("\n\n");
                assert(s@ =~= "data: "@ + "connected"@ + "\n\n"@);
            }
            s
        },
        WireEvent::Data(p) => {
            let s = String::from_str("data: ").concat(p.as_str()).concat("\n\n");
            s
        },
        WireEvent::Ping => String::from_str(": ping\n\n"),
        WireEvent::Done => {
            let s = String::from_str("data: done.\n\n");
            proof {
                reveal_strlit("data: done.\n\n");
                reveal_strlit("data: ");
                reveal_strlit("done.");
                reveal_strlit("\n\n");
                assert(s@ =~= "data: "@ + "done."@ + "\n\n"@);
            }
            s
        },
    }
}

/// The sentinel frame the HTTP layer appends once a session channel closes.
pub fn done_sentinel() -> (r: String)
    ensures
        r@ == "data: [DONE]\n\n"@,
{
    String::from_str("data: [DONE]\n\n")
}

} // verus!
