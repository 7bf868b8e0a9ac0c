//! Chat message classification. The message record itself carries a
//! timestamp from the system clock and lives with the embedding
//! application; the classification and its display names live here.

use vstd::prelude::*;

verus! {

/// What role or effect a chat message carries.
#[derive(Debug, Clone, Copy, PartialEq, Eq, Structural)]
pub enum MessageType {
    User,
    Arula,
    System,
    Success,
    Error,
    Info,
    /// A tool call displayed as its own box.
    ToolCall,
}

impl MessageType {
    /// The display name of this message type.
    pub open spec fn as_str_spec(self) -> Seq<char> {
        match self {
            MessageType::User => "user"@,
            MessageType::Arula => "arula"@,
            MessageType::System => "system"@,
            MessageType::Success => "success"@,
            MessageType::Error => "error"@,
            MessageType::Info => "info"@,
            MessageType::ToolCall => "tool_call"@,
        }
    }

    /// The display name of this message type.
    pub fn as_str(&self) -> (r: &str)
        ensures
            r@ == self.as_str_spec(),
    {
        match self {
            MessageType::User => "user",
            MessageType::Arula => "arula",
            MessageType::System => "system",
            MessageType::Success => "success",
            MessageType::Error => "error",
            MessageType::Info => "info",
            MessageType::ToolCall => "tool_call",
        }
    }
}

} // verus!
