use vstd::prelude::*;

verus! {

/// The call instance currently running for a group.
#[derive(Clone, Debug, PartialEq, Eq)]
pub struct CallRecord {
    /// The group that the client is authorized to join; the primary key.
    pub group_id: String,
    /// A random id that names this instance (era) of the group's call.
    pub call_id: String,
    /// The address of the backend server that hosts the call.
    pub backend_ip: String,
    /// The region of the backend server that hosts the call.
    pub backend_region: String,
    /// The user that created the call.
    pub creator: String,
}

/// The mathematical value of a `CallRecord`: its five fields as text.
pub struct CallRecordView {
    pub group_id: Seq<char>,
    pub call_id: Seq<char>,
    pub backend_ip: Seq<char>,
    pub backend_region: Seq<char>,
    pub creator: Seq<char>,
}

impl View for CallRecord {
    type V = CallRecordView;

    open spec fn view(&self) -> CallRecordView {
        CallRecordView {
            group_id: self.group_id@,
            call_id: self.call_id@,
            backend_ip: self.backend_ip@,
            backend_region: self.backend_region@,
            creator: self.creator@,
        }
    }
}

/// The view of an optional record.
pub open spec fn opt_view(r: Option<CallRecord>) -> Option<CallRecordView> {
    match r {
        Some(c) => Some(c@),
        None => None,
    }
}

impl CallRecord {
    /// A field-by-field copy of the record.
    pub fn copy(&self) -> (r: CallRecord)
        ensures
            r@ == self@,
    {
        CallRecord {
            group_id: self.group_id.clone(),
            call_id: self.call_id.clone(),
            backend_ip: self.backend_ip.clone(),
            backend_region: self.backend_region.clone(),
            creator: self.creator.clone(),
        }
    }

    /// Whether two records agree on every field.
    pub fn same_as(&self, other: &CallRecord) -> (r: bool)
        ensures
            r == (self@ == other@),
    {
        self.group_id == other.group_id && self.call_id == other.call_id
            && self.backend_ip == other.backend_ip && self.backend_region
            == other.backend_region && self.creator == other.creator
    }
}

/// A failure of the backing store: a transport or service failure, or stored
/// data that does not decode into a `CallRecord`.
#[derive(Debug)]
pub enum StorageError {
    UnexpectedError(String),
}

impl StorageError {
    /// The message that describes the failure.
    pub fn message(&self) -> (r: String)
        ensures
            r@ == match self {
                StorageError::UnexpectedError(m) => m@,
            },
    {
        match self {
            StorageError::UnexpectedError(m) => m.clone(),
        }
    }
}

} // verus!
