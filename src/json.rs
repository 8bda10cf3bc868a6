use vstd::prelude::*;

verus! {

/// A JSON document as the library reads it.
///
/// Numbers are kept as their text: nothing in the protocol reads them.
/// An object is a list of members; where a key repeats, the last member
/// with that key is the one that counts.
#[derive(Debug)]
pub enum JsonValue {
    Null,
    Bool(bool),
    Number(String),
    Str(String),
    Array(Vec<JsonValue>),
    Object(Vec<(String, JsonValue)>),
}

/// The value of the last member of `members` whose key is `key`.
pub open spec fn member_of(members: Seq<(String, JsonValue)>, key: Seq<char>) -> Option<JsonValue>
    decreases members.len(),
{
    if members.len() == 0 {
        None
    } else if members.last().0@ == key {
        Some(members.last().1)
    } else {
        member_of(members.drop_last(), key)
    }
}

/// What `v[key]` denotes: the member's value when `v` is an object holding
/// `key`, and nothing otherwise (a missing member reads as null).
pub open spec fn field_of(v: JsonValue, key: Seq<char>) -> Option<JsonValue> {
    match v {
        JsonValue::Object(members) => member_of(members@, key),
        _ => None,
    }
}

/// The text of `v` when it is a JSON string.
pub open spec fn str_of(v: Option<JsonValue>) -> Option<Seq<char>> {
    match v {
        Some(JsonValue::Str(s)) => Some(s@),
        _ => None,
    }
}

/// Whether two strings hold the same characters.
pub fn str_eq(a: &str, b: &str) -> (r: bool)
    ensures
        r == (a@ == b@),
{
    let n = a.unicode_len();
    if n != b.unicode_len() {
        return false;
    }
    let mut i: usize = 0;
    while i < n
        invariant
            n == a@.len(),
            n == b@.len(),
            i <= n,
            forall|j: int| 0 <= j < i ==> a@[j] == b@[j],
        decreases n - i,
    {
        if a.get_char(i) != b.get_char(i) {
            return false;
        }
        i = i + 1;
    }
    assert(a@ =~= b@);
    true
}

impl JsonValue {
    /// The position of the member that `self[key]` reads, if `self` is an
    /// object that holds `key`.
    pub fn find_member(members: &Vec<(String, JsonValue)>, key: &str) -> (r: Option<usize>)
        ensures
            member_of(members@, key@) is None <==> r is None,
            r matches Some(i) ==> i < members@.len() && member_of(members@, key@) == Some(
                members@[i as int].1,
            ),
    {
        let mut found: Option<usize> = None;
        let mut i: usize = 0;
        while i < members.len()
            invariant
                i <= members@.len(),
                member_of(members@.subrange(0, i as int), key@) is None <==> found is None,
                found matches Some(j) ==> j < i && member_of(
                    members@.subrange(0, i as int),
                    key@,
                ) == Some(members@[j as int].1),
            decreases members@.len() - i,
        {
            assert(members@.subrange(0, i + 1).drop_last() =~= members@.subrange(0, i as int));
            if str_eq(members[i].0.as_str(), key) {
                found = Some(i);
            }
            i = i + 1;
        }
        assert(members@.subrange(0, members@.len() as int) =~= members@);
        found
    }

    /// `self[key]`: the value of the member `key` when `self` is an object
    /// that holds it.
    pub fn field(&self, key: &str) -> (r: Option<&JsonValue>)
        ensures
            r matches Some(v) ==> field_of(*self, key@) == Some(*v),
            r is None ==> field_of(*self, key@) is None,
    {
        match self {
            JsonValue::Object(members) => {
                match JsonValue::find_member(members, key) {
                    Some(i) => Some(&members[i].1),
                    None => None,
                }
            },
            _ => None,
        }
    }

    /// The text of `self[key]` when that member is a JSON string.
    pub fn text_field(&self, key: &str) -> (r: Option<String>)
        ensures
            r matches Some(s) ==> str_of(field_of(*self, key@)) == Some(s@),
            r is None <==> str_of(field_of(*self, key@)) is None,
    {
        match self.field(key) {
            Some(JsonValue::Str(s)) => Some(s.clone()),
            _ => None,
        }
    }
}

} // verus!
