use vstd::prelude::*;

use crate::record::{CallRecord, CallRecordView};

verus! {

/// The attribute that holds the group id: the table's primary key.
pub const GROUP_ID_ATTR: &'static str = "groupConferenceId";

/// The attribute that holds the call id.
pub const CALL_ID_ATTR: &'static str = "jvbConferenceId";

/// The attribute that holds the backend's address.
pub const BACKEND_IP_ATTR: &'static str = "jvbHost";

/// The attribute that holds the backend's region: the region index's key.
pub const REGION_ATTR: &'static str = "region";

/// The attribute that holds the creator.
pub const CREATOR_ATTR: &'static str = "creator";

/// The value of one attribute of a stored item, as far as records read it.
pub enum ItemValue {
    /// A string value.
    S(String),
    /// A value of any other kind.
    Other,
}

/// One named attribute of a stored item.
pub struct Attribute {
    pub name: String,
    pub value: ItemValue,
}

/// A stored item: its attributes, with distinct names.
pub struct Item {
    pub attributes: Vec<Attribute>,
}

/// An attribute as a name and, for a string value, that string.
pub type AttributeView = (Seq<char>, Option<Seq<char>>);

impl View for Attribute {
    type V = AttributeView;

    open spec fn view(&self) -> AttributeView {
        (
            self.name@,
            match self.value {
                ItemValue::S(s) => Some(s@),
                ItemValue::Other => None,
            },
        )
    }
}

impl View for Item {
    type V = Seq<AttributeView>;

    open spec fn view(&self) -> Seq<AttributeView> {
        self.attributes@.map_values(|a: Attribute| a@)
    }
}

/// The string value of the first attribute named `name` at or after `i`.
pub open spec fn lookup_from(attrs: Seq<AttributeView>, name: Seq<char>, i: int) -> Option<
    Seq<char>,
>
    decreases attrs.len() - i,
{
    if i < 0 || i >= attrs.len() {
        None
    } else if attrs[i].0 == name {
        attrs[i].1
    } else {
        lookup_from(attrs, name, i + 1)
    }
}

/// The string value of the attribute named `name`, if there is one.
pub open spec fn lookup(attrs: Seq<AttributeView>, name: Seq<char>) -> Option<Seq<char>> {
    lookup_from(attrs, name, 0)
}

/// The item that stores a record: one string attribute per field.
pub open spec fn encode_record(r: CallRecordView) -> Seq<AttributeView> {
    seq![
        (GROUP_ID_ATTR@, Some(r.group_id)),
        (CALL_ID_ATTR@, Some(r.call_id)),
        (BACKEND_IP_ATTR@, Some(r.backend_ip)),
        (REGION_ATTR@, Some(r.backend_region)),
        (CREATOR_ATTR@, Some(r.creator)),
    ]
}

/// The record that an item stores: defined when each field's attribute holds a
/// string; other attributes are ignored.
pub open spec fn decode_item(attrs: Seq<AttributeView>) -> Option<CallRecordView> {
    match (
        lookup(attrs, GROUP_ID_ATTR@),
        lookup(attrs, CALL_ID_ATTR@),
        lookup(attrs, BACKEND_IP_ATTR@),
        lookup(attrs, REGION_ATTR@),
        lookup(attrs, CREATOR_ATTR@),
    ) {
        (Some(g), Some(c), Some(b), Some(r), Some(u)) => Some(
            CallRecordView { group_id: g, call_id: c, backend_ip: b, backend_region: r, creator: u },
        ),
        _ => None,
    }
}

fn attribute(name: &str, value: &String) -> (a: Attribute)
    ensures
        a@ == (name@, Some(value@)),
{
    Attribute { name: name.to_owned(), value: ItemValue::S(value.clone()) }
}

/// Encodes a record as the item that stores it.
pub fn record_to_item(r: &CallRecord) -> (item: Item)
    ensures
        item@ == encode_record(r@),
{
    let mut attributes: Vec<Attribute> = Vec::new();
    attributes.push(attribute(GROUP_ID_ATTR, &r.group_id));
    attributes.push(attribute(CALL_ID_ATTR, &r.call_id));
    attributes.push(attribute(BACKEND_IP_ATTR, &r.backend_ip));
    attributes.push(attribute(REGION_ATTR, &r.backend_region));
    attributes.push(attribute(CREATOR_ATTR, &r.creator));
    let item = Item { attributes };
    assert(item@ =~= encode_record(r@));
    item
}

/// The string value of the attribute named `name`, if the item has one.
pub fn lookup_string(item: &Item, name: &str) -> (r: Option<String>)
    ensures
        match r {
            Some(s) => lookup(item@, name@) == Some(s@),
            None => lookup(item@, name@) is None,
        },
{
    let wanted = name.to_owned();
    let mut i: usize = 0;
    while i < item.attributes.len()
        invariant
            i <= item.attributes.len(),
            wanted@ == name@,
            lookup_from(item@, name@, i as int) == lookup(item@, name@),
        decreases item.attributes.len() - i,
    {
        let a = &item.attributes[i];
        if a.name == wanted {
            return match &a.value {
                ItemValue::S(s) => Some(s.clone()),
                ItemValue::Other => None,
            };
        }
        i = i + 1;
    }
    None
}

/// Decodes the record that an item stores; `None` where a field's attribute
/// is missing or holds no string.
pub fn record_from_item(item: &Item) -> (r: Option<CallRecord>)
    ensures
        match r {
            Some(c) => decode_item(item@) == Some(c@),
            None => decode_item(item@) is None,
        },
{
    let group_id = lookup_string(item, GROUP_ID_ATTR)?;
    let call_id = lookup_string(item, CALL_ID_ATTR)?;
    let backend_ip = lookup_string(item, BACKEND_IP_ATTR)?;
    let backend_region = lookup_string(item, REGION_ATTR)?;
    let creator = lookup_string(item, CREATOR_ATTR)?;
    Some(CallRecord { group_id, call_id, backend_ip, backend_region, creator })
}

/// Decoding the item that encodes a record gives that record back, field for
/// field.
pub proof fn lemma_item_round_trip(r: CallRecordView)
    ensures
        decode_item(encode_record(r)) == Some(r),
{
    reveal_strlit("groupConferenceId");
    reveal_strlit("jvbConferenceId");
    reveal_strlit("jvbHost");
    reveal_strlit("region");
    reveal_strlit("creator");
    let e = encode_record(r);
    // The five names differ in length or in their first character.
    assert(GROUP_ID_ATTR@.len() == 17 && GROUP_ID_ATTR@[0] == 'g');
    assert(CALL_ID_ATTR@.len() == 15 && CALL_ID_ATTR@[0] == 'j');
    assert(BACKEND_IP_ATTR@.len() == 7 && BACKEND_IP_ATTR@[0] == 'j');
    assert(REGION_ATTR@.len() == 6 && REGION_ATTR@[0] == 'r');
    assert(CREATOR_ATTR@.len() == 7 && CREATOR_ATTR@[0] == 'c');
    reveal_with_fuel(lookup_from, 6);
    assert(lookup(e, GROUP_ID_ATTR@) == Some(r.group_id));
    assert(lookup(e, CALL_ID_ATTR@) == Some(r.call_id));
    assert(lookup(e, BACKEND_IP_ATTR@) == Some(r.backend_ip));
    assert(lookup(e, REGION_ATTR@) == Some(r.backend_region));
    assert(lookup(e, CREATOR_ATTR@) == Some(r.creator));
}

} // verus!
