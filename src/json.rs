use vstd::prelude::*;

verus! {

/// A JSON number as the transport layer parsed it.
#[derive(Debug, Clone, Copy, PartialEq, Eq)]
pub enum JsonNumber {
    /// A non-negative integer.
    PosInt(u64),
    /// A negative integer.
    NegInt(i64),
    /// A number with a fraction or exponent, kept as its IEEE-754 binary64 bit pattern.
    Float(u64),
}

/// An already-parsed JSON document.
#[derive(Debug, PartialEq, Eq)]
pub enum JsonValue {
    Null,
    Bool(bool),
    Number(JsonNumber),
    String(String),
    Array(Vec<JsonValue>),
    Object(Vec<Member>),
}

/// One `"key": value` entry of a JSON object, in document order.
#[derive(Debug, PartialEq, Eq)]
pub struct Member {
    pub key: String,
    pub value: JsonValue,
}

impl JsonValue {
    /// The members of an object; no members for any other kind of value.
    pub open spec fn members(self) -> Seq<Member> {
        match self {
            JsonValue::Object(ms) => ms@,
            _ => Seq::empty(),
        }
    }

    /// The value under `key` of an object: its first member with that key.
    pub open spec fn field(self, key: Seq<char>) -> Option<JsonValue> {
        lookup(self.members(), key)
    }

    /// Hands out the members of an object, and no members for any other kind of value.
    pub fn into_members(self) -> (r: Vec<Member>)
        ensures
            r@ == self.members(),
    {
        match self {
            JsonValue::Object(ms) => ms,
            _ => Vec::new(),
        }
    }
}

/// The value of the first member whose key is `key`.
pub open spec fn lookup(members: Seq<Member>, key: Seq<char>) -> Option<JsonValue>
    decreases members.len(),
{
    if members.len() == 0 {
        None
    } else if members[0].key@ == key {
        Some(members[0].value)
    } else {
        lookup(members.drop_first(), key)
    }
}

/// Where no member before `i` has `key` and member `i` has it, the lookup finds member `i`.
pub proof fn lemma_lookup_first(members: Seq<Member>, key: Seq<char>, i: int)
    requires
        0 <= i < members.len(),
        members[i].key@ == key,
        forall|j: int| 0 <= j < i ==> members[j].key@ != key,
    ensures
        lookup(members, key) == Some(members[i].value),
    decreases i,
{
    if i > 0 {
        lemma_lookup_first(members.drop_first(), key, i - 1);
    }
}

/// Where no member has `key`, the lookup finds nothing.
pub proof fn lemma_lookup_absent(members: Seq<Member>, key: Seq<char>)
    requires
        forall|j: int| 0 <= j < members.len() ==> members[j].key@ != key,
    ensures
        lookup(members, key) is None,
    decreases members.len(),
{
    if members.len() > 0 {
        lemma_lookup_absent(members.drop_first(), key);
    }
}

/// Removing a member with another key leaves the lookup of `key` as it was.
pub proof fn lemma_lookup_remove(members: Seq<Member>, i: int, key: Seq<char>)
    requires
        0 <= i < members.len(),
        members[i].key@ != key,
    ensures
        lookup(members.remove(i), key) == lookup(members, key),
    decreases i,
{
    if i > 0 {
        assert(members.remove(i).drop_first() =~= members.drop_first().remove(i - 1));
        lemma_lookup_remove(members.drop_first(), i - 1, key);
    } else {
        assert(members.remove(0) =~= members.drop_first());
    }
}

/// Character-wise equality of two strings.
pub fn text_eq(a: &str, b: &str) -> (r: bool)
    ensures
        r == (a@ == b@),
{
    let n = a.unicode_len();
    let m = b.unicode_len();
    if n != m {
        return false;
    }
    let mut i: usize = 0;
    while i < n
        invariant
            n == a@.len(),
            m == b@.len(),
            n == m,
            i <= n,
            forall|j: int| 0 <= j < i ==> a@[j] == b@[j],
        decreases n - i,
    {
        if a.get_char(i) != b.get_char(i) {
            return false;
        }
        i += 1;
    }
    assert(a@ =~= b@);
    true
}

/// Removes the first member whose key is `key` and hands out its value; the
/// lookup of every other key is unchanged.
pub fn take_field(members: &mut Vec<Member>, key: &str) -> (r: Option<JsonValue>)
    ensures
        r == lookup(old(members)@, key@),
        forall|k: Seq<char>| k != key@ ==> lookup(final(members)@, k) == lookup(old(members)@, k),
{
    let mut i: usize = 0;
    while i < members.len()
        invariant
            members@ == old(members)@,
            i <= members@.len(),
            forall|j: int| 0 <= j < i ==> members@[j].key@ != key@,
        decreases members@.len() - i,
    {
        if text_eq(members[i].key.as_str(), key) {
            proof {
                lemma_lookup_first(members@, key@, i as int);
                assert forall|k: Seq<char>| k != key@ implies lookup(
                    members@.remove(i as int),
                    k,
                ) == lookup(members@, k) by {
                    lemma_lookup_remove(members@, i as int, k);
                }
            }
            let m = members.remove(i);
            return Some(m.value);
        }
        i += 1;
    }
    proof {
        lemma_lookup_absent(members@, key@);
    }
    None
}

} // verus!
