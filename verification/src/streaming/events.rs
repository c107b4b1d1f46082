//! Event types and handlers used when a message stream dispatches callbacks.

use vstd::prelude::*;
use vstd::string::StringExecFns;

verus! {

/// Types of events that can be handled by a message stream.
#[derive(Debug, Clone, PartialEq, Eq, Hash, Structural)]
pub enum EventType {
    /// Raw stream events with message snapshots
    StreamEvent,
    /// Text delta updates
    Text,
    /// Complete message received
    Message,
    /// Final message when stream ends
    FinalMessage,
    /// Error occurred
    Error,
    /// Stream ended
    End,
    /// Stream connected
    Connect,
    /// Stream aborted
    Abort,
}

impl EventType {
    /// The variant's name, as a handler registered for this event type shows it.
    pub open spec fn spec_name(self) -> Seq<char> {
        match self {
            EventType::StreamEvent => "StreamEvent"@,
            EventType::Text => "Text"@,
            EventType::Message => "Message"@,
            EventType::FinalMessage => "FinalMessage"@,
            EventType::Error => "Error"@,
            EventType::End => "End"@,
            EventType::Connect => "Connect"@,
            EventType::Abort => "Abort"@,
        }
    }

    fn name(&self) -> (r: &'static str)
        ensures
            r@ == self.spec_name(),
    {
        match self {
            EventType::StreamEvent => "StreamEvent",
            EventType::Text => "Text",
            EventType::Message => "Message",
            EventType::FinalMessage => "FinalMessage",
            EventType::Error => "Error",
            EventType::End => "End",
            EventType::Connect => "Connect",
            EventType::Abort => "Abort",
        }
    }

    /// The debug text of a handler registered for this event type: the
    /// variant's name with the callback shown as `"<callback>"`, as a tuple.
    pub fn handler_debug_string(&self) -> (r: String)
        ensures
            r@ == self.spec_name() + "(\"<callback>\")"@,
    {
        let mut s = String::from_str(self.name());
        s.append("(\"<callback>\")");
        s
    }
}

} // verus!
