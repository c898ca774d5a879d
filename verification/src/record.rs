//! The persisted record as JSON text.
//!
//! The record is a flat JSON object. Writing lists every member, `null`
//! where the record has none. Reading takes each member that is there and
//! has the right type, and leaves the others out; text that is no JSON
//! object gives a record without members.

use vstd::prelude::*;
use vstd::string::*;
use crate::json::{
    JsonMember, JsonScalar, MemberModel, ScalarModel, json_bool_member, json_u64_member,
    member_models, plain_members, pretty_json, pretty_object, read_bool_member, read_u64_member,
    sorts_before, verbatim,
};
use crate::state::PersistedRecord;

verus! {

/// The member that holds a count, `null` where there is none.
pub open spec fn count_member(key: Seq<char>, value: Option<u64>) -> MemberModel {
    MemberModel {
        key,
        value: match value {
            Some(n) => ScalarModel::Number(n as nat),
            None => ScalarModel::Null,
        },
    }
}

/// The member that holds a flag, `null` where there is none.
pub open spec fn flag_member(key: Seq<char>, value: Option<bool>) -> MemberModel {
    MemberModel {
        key,
        value: match value {
            Some(b) => ScalarModel::Bool(b),
            None => ScalarModel::Null,
        },
    }
}

/// The members of a record, in the order of their keys.
pub open spec fn record_members(record: PersistedRecord) -> Seq<MemberModel> {
    seq![
        count_member("cycles_completed"@, record.cycles_completed),
        count_member("elapsed_time"@, record.elapsed_time),
        count_member("end_time"@, record.end_time),
        flag_member("is_running"@, record.is_running),
        count_member("start_time"@, record.start_time),
        count_member("total_time"@, record.total_time),
    ]
}

/// The text of a record: its members, pretty-printed.
pub open spec fn record_text(record: PersistedRecord) -> Seq<char> {
    pretty_object(record_members(record))
}

/// The record that a text holds.
pub open spec fn record_of_text(text: Seq<u8>) -> PersistedRecord {
    PersistedRecord {
        start_time: json_u64_member(text, "start_time"@),
        end_time: json_u64_member(text, "end_time"@),
        total_time: json_u64_member(text, "total_time"@),
        is_running: json_bool_member(text, "is_running"@),
        elapsed_time: json_u64_member(text, "elapsed_time"@),
        cycles_completed: json_u64_member(text, "cycles_completed"@),
    }
}

/// A member for a count.
fn count_json(key: &str, value: Option<u64>) -> (member: JsonMember)
    ensures
        member@ == count_member(key@, value),
{
    JsonMember {
        key: String::from_str(key),
        value: match value {
            Some(n) => JsonScalar::Number(n),
            None => JsonScalar::Null,
        },
    }
}

/// A member for a flag.
fn flag_json(key: &str, value: Option<bool>) -> (member: JsonMember)
    ensures
        member@ == flag_member(key@, value),
{
    JsonMember {
        key: String::from_str(key),
        value: match value {
            Some(b) => JsonScalar::Bool(b),
            None => JsonScalar::Null,
        },
    }
}

/// The keys of a record need no escape and stand in ascending order.
proof fn lemma_record_keys()
    ensures
        verbatim("cycles_completed"@),
        verbatim("elapsed_time"@),
        verbatim("end_time"@),
        verbatim("is_running"@),
        verbatim("start_time"@),
        verbatim("total_time"@),
        sorts_before("cycles_completed"@, "elapsed_time"@),
        sorts_before("elapsed_time"@, "end_time"@),
        sorts_before("end_time"@, "is_running"@),
        sorts_before("is_running"@, "start_time"@),
        sorts_before("start_time"@, "total_time"@),
{
    reveal_strlit("cycles_completed");
    reveal_strlit("elapsed_time");
    reveal_strlit("end_time");
    reveal_strlit("is_running");
    reveal_strlit("start_time");
    reveal_strlit("total_time");
    reveal_with_fuel(sorts_before, 3);
}

impl PersistedRecord {
    /// A record without any member.
    pub fn empty() -> (record: PersistedRecord)
        ensures
            record == PersistedRecord::blank(),
    {
        PersistedRecord {
            start_time: None,
            end_time: None,
            total_time: None,
            is_running: None,
            elapsed_time: None,
            cycles_completed: None,
        }
    }

    /// Whether the members fit together.
    pub fn is_coherent(&self) -> (coherent: bool)
        ensures
            coherent == self.coherent(),
    {
        let running = match self.is_running {
            Some(b) => b,
            None => false,
        };
        (!running || self.start_time.is_some()) && (self.start_time.is_none()
            || self.end_time.is_some())
    }

    /// The record as pretty-printed JSON text.
    pub fn to_json(&self) -> (text: String)
        ensures
            text@ == record_text(*self),
    {
        let mut members: Vec<JsonMember> = Vec::new();
        members.push(count_json("cycles_completed", self.cycles_completed));
        members.push(count_json("elapsed_time", self.elapsed_time));
        members.push(count_json("end_time", self.end_time));
        members.push(flag_json("is_running", self.is_running));
        members.push(count_json("start_time", self.start_time));
        members.push(count_json("total_time", self.total_time));
        proof {
            lemma_record_keys();
            let models = member_models(members@);
            assert(models =~= record_members(*self));
            assert(plain_members(models));
        }
        pretty_json(&members)
    }

    /// The record that a JSON text holds.
    pub fn from_json(text: &[u8]) -> (record: PersistedRecord)
        ensures
            record == record_of_text(text@),
    {
        PersistedRecord {
            start_time: read_u64_member(text, "start_time"),
            end_time: read_u64_member(text, "end_time"),
            total_time: read_u64_member(text, "total_time"),
            is_running: read_bool_member(text, "is_running"),
            elapsed_time: read_u64_member(text, "elapsed_time"),
            cycles_completed: read_u64_member(text, "cycles_completed"),
        }
    }
}

} // verus!
