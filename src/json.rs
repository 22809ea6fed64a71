//! A plain JSON document tree, as handed over by the transport layer.
use vstd::prelude::*;

verus! {

/// One JSON value. Numbers that are integers keep their value; any other
/// number is only known to be a number.
pub enum Json {
    Null,
    Bool(bool),
    Integer(i128),
    NonInteger,
    Str(String),
    Array(Vec<Json>),
    Object(Vec<Member>),
}

/// One `"key": value` pair of a JSON object, in document order.
pub struct Member {
    pub key: String,
    pub value: Json,
}

/// The value that `key` maps to in `members`: the first member with that key.
pub open spec fn member_value(members: Seq<Member>, key: Seq<char>) -> Option<Json>
    decreases members.len(),
{
    if members.len() == 0 {
        None
    } else if members[0].key@ == key {
        Some(members[0].value)
    } else {
        member_value(members.drop_first(), key)
    }
}

/// The value of field `key` when `j` is an object; `None` otherwise or when absent.
pub open spec fn field(j: Json, key: Seq<char>) -> Option<Json> {
    match j {
        Json::Object(members) => member_value(members@, key),
        _ => None,
    }
}

/// Looks up the first member named `key` of an object.
pub fn get_field<'a>(j: &'a Json, key: &str) -> (r: Option<&'a Json>)
    ensures
        r matches Some(v) ==> field(*j, key@) == Some(*v),
        r is None ==> field(*j, key@) is None,
{
    match j {
        Json::Object(members) => {
            let wanted = key.to_owned();
            let mut i: usize = 0;
            assert(members@.subrange(0, members@.len() as int) =~= members@);
            while i < members.len()
                invariant
                    0 <= i <= members@.len(),
                    wanted@ == key@,
                    field(*j, key@) == member_value(members@, key@),
                    member_value(members@, key@) == member_value(members@.subrange(i as int, members@.len() as int), key@),
                decreases members@.len() - i,
            {
                assert(members@.subrange(i as int, members@.len() as int).drop_first() =~= members@.subrange(i + 1, members@.len() as int));
                assert(members@.subrange(i as int, members@.len() as int)[0] == members@[i as int]);
                if members[i].key == wanted {
                    return Some(&members[i].value);
                }
                i = i + 1;
            }
            None
        },
        _ => None,
    }
}

} // verus!
