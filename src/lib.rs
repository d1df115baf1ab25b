//! Storage of the call record of each calling group, with conditional
//! create-if-absent and remove-if-unchanged semantics, and the decisions of the
//! background refresher of the storage client's identity token.

pub mod item;
pub mod record;
pub mod table;
pub mod memory;
pub mod dynamo;
pub mod refresher;
