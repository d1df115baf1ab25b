use vstd::prelude::*;

use crate::item::{decode_item, record_from_item, record_to_item, encode_record, Item, CALL_ID_ATTR, GROUP_ID_ATTR, REGION_ATTR};
use crate::record::{opt_view, CallRecord, StorageError};

verus! {

/// The secondary index keyed by backend region.
pub const REGION_INDEX: &'static str = "region-index";

/// The condition of a create: the group holds no record yet.
pub const CREATE_CONDITION: &'static str = "attribute_not_exists(groupConferenceId)";

/// The condition of a remove: the stored call id is the expected one.
pub const REMOVE_CONDITION: &'static str = "jvbConferenceId = :value";

/// The key condition of a region query.
pub const REGION_KEY_CONDITION: &'static str = "#region = :value";

/// The placeholder for the region attribute's name in a region query.
pub const REGION_NAME_PLACEHOLDER: &'static str = "#region";

/// The placeholder for the compared value in a condition.
pub const VALUE_PLACEHOLDER: &'static str = ":value";

/// A point lookup by primary key.
pub struct GetItemRequest {
    pub table_name: String,
    pub key_name: String,
    pub key_value: String,
    pub consistent_read: bool,
}

/// A write of an item, made only where `condition` holds.
pub struct PutItemRequest {
    pub table_name: String,
    pub item: Item,
    pub condition: String,
}

/// A delete by primary key, made only where `condition` holds with
/// `value_placeholder` bound to `value`.
pub struct DeleteItemRequest {
    pub table_name: String,
    pub key_name: String,
    pub key_value: String,
    pub condition: String,
    pub value_placeholder: String,
    pub value: String,
}

/// A query of a secondary index: the items whose attribute `attribute_name`
/// (written `name_placeholder` in `key_condition`) equals `value` (written
/// `value_placeholder`).
pub struct QueryRequest {
    pub table_name: String,
    pub index_name: String,
    pub key_condition: String,
    pub name_placeholder: String,
    pub attribute_name: String,
    pub value_placeholder: String,
    pub value: String,
    pub consistent_read: bool,
}

/// How the backing service answered a conditional write.
pub enum WriteOutcome {
    /// The condition held and the write was made.
    Accepted,
    /// The condition did not hold and nothing was written.
    ConditionFailed,
    /// Any other failure, with its message.
    Failed(String),
}

/// What a create does after the conditional write.
pub enum PutStep {
    /// The record was stored: it is the group's record.
    Added(CallRecord),
    /// Another record won the race: read the group's record back.
    ReadBack(String),
    /// The write failed.
    Failed(StorageError),
}

/// The strongly consistent lookup of the group's record.
pub fn get_request(table_name: &String, group_id: &String) -> (r: GetItemRequest)
    ensures
        r.table_name@ == table_name@,
        r.key_name@ == GROUP_ID_ATTR@,
        r.key_value@ == group_id@,
        r.consistent_read,
{
    GetItemRequest {
        table_name: table_name.clone(),
        key_name: GROUP_ID_ATTR.to_owned(),
        key_value: group_id.clone(),
        consistent_read: true,
    }
}

/// The write of `call`'s item, made only where its group holds no record.
pub fn put_request(table_name: &String, call: &CallRecord) -> (r: PutItemRequest)
    ensures
        r.table_name@ == table_name@,
        r.item@ == encode_record(call@),
        r.condition@ == CREATE_CONDITION@,
{
    PutItemRequest {
        table_name: table_name.clone(),
        item: record_to_item(call),
        condition: CREATE_CONDITION.to_owned(),
    }
}

/// The delete of the group's record, made only where its call id is `call_id`.
pub fn delete_request(table_name: &String, group_id: &String, call_id: &str) -> (r:
    DeleteItemRequest)
    ensures
        r.table_name@ == table_name@,
        r.key_name@ == GROUP_ID_ATTR@,
        r.key_value@ == group_id@,
        r.condition@ == REMOVE_CONDITION@,
        r.value_placeholder@ == VALUE_PLACEHOLDER@,
        r.value@ == call_id@,
{
    DeleteItemRequest {
        table_name: table_name.clone(),
        key_name: GROUP_ID_ATTR.to_owned(),
        key_value: group_id.clone(),
        condition: REMOVE_CONDITION.to_owned(),
        value_placeholder: VALUE_PLACEHOLDER.to_owned(),
        value: call_id.to_owned(),
    }
}

/// The eventually consistent query of the region index for `region`.
pub fn region_query(table_name: &String, region: &str) -> (r: QueryRequest)
    ensures
        r.table_name@ == table_name@,
        r.index_name@ == REGION_INDEX@,
        r.key_condition@ == REGION_KEY_CONDITION@,
        r.name_placeholder@ == REGION_NAME_PLACEHOLDER@,
        r.attribute_name@ == REGION_ATTR@,
        r.value_placeholder@ == VALUE_PLACEHOLDER@,
        r.value@ == region@,
        !r.consistent_read,
{
    QueryRequest {
        table_name: table_name.clone(),
        index_name: REGION_INDEX.to_owned(),
        key_condition: REGION_KEY_CONDITION.to_owned(),
        name_placeholder: REGION_NAME_PLACEHOLDER.to_owned(),
        attribute_name: REGION_ATTR.to_owned(),
        value_placeholder: VALUE_PLACEHOLDER.to_owned(),
        value: region.to_owned(),
        consistent_read: false,
    }
}

/// The failure of a stored item that does not decode.
fn decode_failure() -> (e: StorageError) {
    StorageError::UnexpectedError("failed to convert item to CallRecord".to_owned())
}

/// The result of a lookup from the item found, if any: absence is `None`, an
/// item that does not decode is an error.
pub fn interpret_get(item: Option<Item>) -> (r: Result<Option<CallRecord>, StorageError>)
    ensures
        match item {
            None => r matches Ok(None),
            Some(it) => match r {
                Ok(o) => o is Some && opt_view(o) == decode_item(it@),
                Err(_) => decode_item(it@) is None,
            },
        },
{
    match item {
        None => Ok(None),
        Some(it) => match record_from_item(&it) {
            Some(c) => Ok(Some(c)),
            None => Err(decode_failure()),
        },
    }
}

/// What a create does next, from the outcome of its conditional write.
pub fn after_put(call: CallRecord, outcome: WriteOutcome) -> (r: PutStep)
    ensures
        match outcome {
            WriteOutcome::Accepted => r matches PutStep::Added(c) && c@ == call@,
            WriteOutcome::ConditionFailed => r matches PutStep::ReadBack(g) && g@
                == call.group_id@,
            WriteOutcome::Failed(m) => r matches PutStep::Failed(
                StorageError::UnexpectedError(e),
            ) && e@ == m@,
        },
{
    match outcome {
        WriteOutcome::Accepted => PutStep::Added(call),
        WriteOutcome::ConditionFailed => PutStep::ReadBack(call.group_id),
        WriteOutcome::Failed(m) => PutStep::Failed(StorageError::UnexpectedError(m)),
    }
}

/// The result of a remove from the outcome of its conditional delete: a failed
/// condition means the record is gone or newer, which is no failure.
pub fn after_delete(outcome: WriteOutcome) -> (r: Result<(), StorageError>)
    ensures
        match outcome {
            WriteOutcome::Failed(m) => r matches Err(StorageError::UnexpectedError(e)) && e@
                == m@,
            _ => r is Ok,
        },
{
    match outcome {
        WriteOutcome::Failed(m) => Err(StorageError::UnexpectedError(m)),
        _ => Ok(()),
    }
}

/// The result of a region query from the items returned, in their order: an
/// error where any item does not decode; no items is an empty list.
pub fn interpret_query(items: Option<Vec<Item>>) -> (r: Result<Vec<CallRecord>, StorageError>)
    ensures
        match items {
            None => r matches Ok(v) && v@.len() == 0,
            Some(its) => {
                &&& r is Ok <==> forall|i: int|
                    0 <= i < its@.len() ==> (#[trigger] decode_item(its@[i]@)) is Some
                &&& r matches Ok(v) ==> v@.len() == its@.len() && forall|i: int|
                    0 <= i < its@.len() ==> Some((#[trigger] v@[i])@) == decode_item(its@[i]@)
            },
        },
{
    match items {
        None => Ok(Vec::new()),
        Some(its) => {
            let mut out: Vec<CallRecord> = Vec::new();
            let mut i: usize = 0;
            while i < its.len()
                invariant
                    items == Some(its),
                    i <= its@.len(),
                    out@.len() == i,
                    forall|k: int|
                        0 <= k < i ==> Some((#[trigger] out@[k])@) == decode_item(its@[k]@),
                decreases its.len() - i,
            {
                match record_from_item(&its[i]) {
                    Some(c) => out.push(c),
                    None => {
                        assert(decode_item(its@[i as int]@) is None);
                        return Err(decode_failure());
                    },
                }
                i = i + 1;
            }
            assert forall|k: int| 0 <= k < its@.len() implies (#[trigger] decode_item(
                its@[k]@,
            )) is Some by {
                assert(Some(out@[k]@) == decode_item(its@[k]@));
            }
            Ok(out)
        },
    }
}

} // verus!
