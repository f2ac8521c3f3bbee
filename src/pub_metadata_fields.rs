use vstd::prelude::*;

verus! {

/// A property of a publisher's metadata: its identifier and display name.
#[derive(Debug, Clone, Copy, PartialEq, Eq)]
pub struct PubMetaField {
    pub id: u32,
    pub name: &'static str,
}

// Identifiers of the publisher metadata properties, in the service's order.
pub const PUBLISHER_GUID: u32 = 0;
pub const RESOURCE_FILE_PATH: u32 = 1;
pub const PARAMETER_FILE_PATH: u32 = 2;
pub const MESSAGE_FILE_PATH: u32 = 3;
pub const HELP_LINK: u32 = 4;
pub const PUBLISHER_MESSAGE_ID: u32 = 5;
pub const CHANNEL_REFERENCES: u32 = 6;
pub const CHANNEL_REFERENCE_PATH: u32 = 7;
pub const CHANNEL_REFERENCE_INDEX: u32 = 8;
pub const CHANNEL_REFERENCE_ID: u32 = 9;
pub const CHANNEL_REFERENCE_FLAGS: u32 = 10;
pub const CHANNEL_REFERENCE_MESSAGE_ID: u32 = 11;
pub const LEVELS: u32 = 12;
pub const LEVEL_NAME: u32 = 13;
pub const LEVEL_VALUE: u32 = 14;
pub const LEVEL_MESSAGE_ID: u32 = 15;
pub const TASKS: u32 = 16;
pub const TASK_NAME: u32 = 17;
pub const TASK_EVENT_GUID: u32 = 18;
pub const TASK_VALUE: u32 = 19;
pub const TASK_MESSAGE_ID: u32 = 20;
pub const OPCODES: u32 = 21;
pub const OPCODE_NAME: u32 = 22;
pub const OPCODE_VALUE: u32 = 23;
pub const OPCODE_MESSAGE_ID: u32 = 24;
pub const KEYWORDS: u32 = 25;
pub const KEYWORD_NAME: u32 = 26;
pub const KEYWORD_VALUE: u32 = 27;
pub const KEYWORD_MESSAGE_ID: u32 = 28;
pub const PROPERTY_ID_END: u32 = 29;

/// The display name of each property identifier; the identifiers run from 0
/// to `PROPERTY_ID_END`.
pub open spec fn field_name(id: u32) -> Option<&'static str> {
    match id {
        0 => Some("Publisher Guid"),
        1 => Some("Resource File Path"),
        2 => Some("Parameter File Path"),
        3 => Some("Message File Path"),
        4 => Some("Help Link"),
        5 => Some("Publisher Message Id"),
        6 => Some("Channel References"),
        7 => Some("Channel Reference Path"),
        8 => Some("Channel Reference Index"),
        9 => Some("Channel Reference Id"),
        10 => Some("Channel Reference Flags"),
        11 => Some("Channel Reference Message Id"),
        12 => Some("Levels"),
        13 => Some("Level Name"),
        14 => Some("Level Value"),
        15 => Some("Level Message Id"),
        16 => Some("Tasks"),
        17 => Some("Task Name"),
        18 => Some("Task Event Guid"),
        19 => Some("Task Value"),
        20 => Some("Task Message Id"),
        21 => Some("Opcodes"),
        22 => Some("Opcode Name"),
        23 => Some("Opcode Value"),
        24 => Some("Opcode Message Id"),
        25 => Some("Keywords"),
        26 => Some("Keyword Name"),
        27 => Some("Keyword Value"),
        28 => Some("Keyword Message Id"),
        29 => Some("Property Id End"),
        _ => None,
    }
}

/// The catalog entry of a property identifier.
pub fn pub_meta_field(id: u32) -> (r: Option<PubMetaField>)
    ensures
        r is Some <==> field_name(id) is Some,
        r is Some ==> r->0.id == id && r->0.name == field_name(id)->0,
{
    let name: Option<&'static str> = match id {
        PUBLISHER_GUID => Some("Publisher Guid"),
        RESOURCE_FILE_PATH => Some("Resource File Path"),
        PARAMETER_FILE_PATH => Some("Parameter File Path"),
        MESSAGE_FILE_PATH => Some("Message File Path"),
        HELP_LINK => Some("Help Link"),
        PUBLISHER_MESSAGE_ID => Some("Publisher Message Id"),
        CHANNEL_REFERENCES => Some("Channel References"),
        CHANNEL_REFERENCE_PATH => Some("Channel Reference Path"),
        CHANNEL_REFERENCE_INDEX => Some("Channel Reference Index"),
        CHANNEL_REFERENCE_ID => Some("Channel Reference Id"),
        CHANNEL_REFERENCE_FLAGS => Some("Channel Reference Flags"),
        CHANNEL_REFERENCE_MESSAGE_ID => Some("Channel Reference Message Id"),
        LEVELS => Some("Levels"),
        LEVEL_NAME => Some("Level Name"),
        LEVEL_VALUE => Some("Level Value"),
        LEVEL_MESSAGE_ID => Some("Level Message Id"),
        TASKS => Some("Tasks"),
        TASK_NAME => Some("Task Name"),
        TASK_EVENT_GUID => Some("Task Event Guid"),
        TASK_VALUE => Some("Task Value"),
        TASK_MESSAGE_ID => Some("Task Message Id"),
        OPCODES => Some("Opcodes"),
        OPCODE_NAME => Some("Opcode Name"),
        OPCODE_VALUE => Some("Opcode Value"),
        OPCODE_MESSAGE_ID => Some("Opcode Message Id"),
        KEYWORDS => Some("Keywords"),
        KEYWORD_NAME => Some("Keyword Name"),
        KEYWORD_VALUE => Some("Keyword Value"),
        KEYWORD_MESSAGE_ID => Some("Keyword Message Id"),
        PROPERTY_ID_END => Some("Property Id End"),
        _ => None,
    };
    match name {
        Some(name) => Some(PubMetaField { id, name }),
        None => None,
    }
}

/// The whole catalog, ordered by identifier.
pub fn pub_meta_fields() -> (r: Vec<PubMetaField>)
    ensures
        r@.len() == PROPERTY_ID_END + 1,
        forall|i: int|
            0 <= i < r@.len() ==> #[trigger] r@[i].id == i && field_name(i as u32) == Some(
                r@[i].name,
            ),
{
    let mut r: Vec<PubMetaField> = Vec::new();
    let mut id: u32 = 0;
    while id <= PROPERTY_ID_END
        invariant
            id <= PROPERTY_ID_END + 1,
            r@.len() == id,
            forall|i: int|
                0 <= i < r@.len() ==> #[trigger] r@[i].id == i && field_name(i as u32) == Some(
                    r@[i].name,
                ),
        decreases PROPERTY_ID_END + 1 - id,
    {
        match pub_meta_field(id) {
            Some(f) => r.push(f),
            None => {
                return r;
            },
        }
        id = id + 1;
    }
    r
}

} // verus!
