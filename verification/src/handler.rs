//! The per-connection handler, modelled by the decisions it takes.
//!
//! One handler owns one accepted connection for its whole lifetime. Its
//! loop alternates blocking reads with replies: every read outcome is an
//! event, and [`handle_event`] maps each event to the action the handler
//! performs next. A received line is answered; a connection that closed
//! or failed terminates the handler, and nothing escalates past it — a
//! dead connection never affects the listener or any other connection.

use vstd::prelude::*;
use crate::protocol::{reply_for_line, reply_spec};

verus! {

/// Outcome of one blocking read on a connection, as the handler sees it.
pub enum LineEvent {
    /// A full line arrived, terminator included.
    Line(String),
    /// The peer closed the connection, or reading or writing failed.
    Closed,
}

/// What the handler does next.
pub enum HandlerAction {
    /// Write this reply, then read the next line.
    Reply(String),
    /// Terminate and release the connection.
    Stop,
}

/// One step of the connection handler: a received line is answered with
/// exactly the reply the protocol owes it, and a finished connection
/// stops the handler.
pub fn handle_event(ev: &LineEvent) -> (a: HandlerAction)
    ensures
        (match *ev {
            LineEvent::Line(l) => a matches HandlerAction::Reply(r) && r@ == reply_spec(l@),
            LineEvent::Closed => a is Stop,
        }),
{
    match ev {
        LineEvent::Line(l) => HandlerAction::Reply(reply_for_line(l.as_str())),
        LineEvent::Closed => HandlerAction::Stop,
    }
}

/// Replies owed to a pipelined sequence of lines on one connection:
/// exactly one reply per line, in the order the lines came, none dropped
/// and none interleaved.
pub fn replies_for_lines(lines: &Vec<String>) -> (r: Vec<String>)
    ensures
        r@.len() == lines@.len(),
        forall|i: int| 0 <= i < lines@.len() ==> #[trigger] r@[i]@ == reply_spec(lines@[i]@),
{
    let mut out: Vec<String> = Vec::new();
    let mut k: usize = 0;
    while k < lines.len()
        invariant
            k <= lines@.len(),
            out@.len() == k,
            forall|i: int| 0 <= i < k ==> #[trigger] out@[i]@ == reply_spec(lines@[i]@),
        decreases lines@.len() - k,
    {
        let reply = reply_for_line(lines[k].as_str());
        out.push(reply);
        k = k + 1;
    }
    out
}

} // verus!
