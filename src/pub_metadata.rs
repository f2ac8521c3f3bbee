use vstd::prelude::*;

verus! {

/// A channel a publisher writes to.
#[derive(Debug, Clone, PartialEq, Eq, Default)]
pub struct Channel {
    pub name: Option<String>,
    pub index: Option<u32>,
    pub id: Option<u32>,
    pub imported: bool,
    pub message_id: Option<u32>,
}

/// A severity level a publisher defines.
#[derive(Debug, Clone, PartialEq, Eq, Default)]
pub struct Level {
    pub name: Option<String>,
    pub id: Option<u32>,
    pub message_id: Option<u32>,
}

/// A task a publisher defines.
#[derive(Debug, Clone, PartialEq, Eq, Default)]
pub struct Task {
    pub name: Option<String>,
    pub guid: Option<String>,
    pub value: Option<u32>,
    pub message_id: Option<u32>,
}

/// An operation code a publisher defines.
#[derive(Debug, Clone, PartialEq, Eq, Default)]
pub struct OpCode {
    pub name: Option<String>,
    pub opcode_value: Option<u16>,
    pub task_id: Option<u16>,
    pub message_id: Option<u32>,
}

/// A keyword a publisher defines.
#[derive(Debug, Clone, PartialEq, Eq, Default)]
pub struct Keyword {
    pub name: Option<String>,
    pub mask: Option<u64>,
    pub message_id: Option<u32>,
}

/// What is known of one publisher. Absent or malformed fields are `None`.
#[derive(Debug, Clone, PartialEq, Eq, Default)]
pub struct PubMetadata {
    pub guid: Option<String>,
    pub resource_file_path: Option<String>,
    pub parameter_file_path: Option<String>,
    pub message_file_path: Option<String>,
    pub help_link: Option<String>,
    pub message_id: Option<u32>,
    pub channels: Vec<Channel>,
    pub levels: Vec<Level>,
    pub tasks: Vec<Task>,
    pub opcodes: Vec<OpCode>,
    pub keywords: Vec<Keyword>,
}

} // verus!
