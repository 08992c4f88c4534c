use vstd::prelude::*;

verus! {

/// A JSON number as the protocol's JSON layer keeps it: a non-negative
/// integer, a negative integer, or a floating-point number, carried by the
/// bits of its IEEE-754 encoding together with the text in which the JSON
/// layer writes it (as in `1.5` or `1e100`).
#[derive(Debug, PartialEq)]
pub enum JsonNumber {
    PosInt(u64),
    NegInt(i64),
    Float(u64, String),
}

impl JsonNumber {
    /// An equal copy of the number.
    pub fn duplicate(&self) -> (r: JsonNumber)
        ensures
            r == *self,
    {
        match self {
            JsonNumber::PosInt(n) => JsonNumber::PosInt(*n),
            JsonNumber::NegInt(n) => JsonNumber::NegInt(*n),
            JsonNumber::Float(bits, text) => JsonNumber::Float(*bits, text.clone()),
        }
    }
}

/// A JSON document: the messages exchanged with the browser.
/// An object keeps its members in order; a lookup finds the first member
/// with the key.
#[derive(Debug)]
pub enum Json {
    Null,
    Bool(bool),
    Number(JsonNumber),
    Text(String),
    Array(Vec<Json>),
    Object(Vec<(String, Json)>),
}

/// The first member of `entries` whose key is `key`.
pub open spec fn lookup_entries(entries: Seq<(String, Json)>, key: Seq<char>) -> Option<Json>
    decreases entries.len(),
{
    if entries.len() == 0 {
        None
    } else if entries[0].0@ == key {
        Some(entries[0].1)
    } else {
        lookup_entries(entries.drop_first(), key)
    }
}

/// The member found for a key is the first one that carries it.
pub proof fn lemma_lookup_first(entries: Seq<(String, Json)>, key: Seq<char>, i: int)
    requires
        0 <= i < entries.len(),
        entries[i].0@ == key,
        forall|j: int| 0 <= j < i ==> entries[j].0@ != key,
    ensures
        lookup_entries(entries, key) == Some(entries[i].1),
    decreases i,
{
    if i > 0 {
        assert forall|j: int| 0 <= j < i - 1 implies entries.drop_first()[j].0@ != key by {
            assert(entries.drop_first()[j] == entries[j + 1]);
        }
        assert(entries[0].0@ != key);
        lemma_lookup_first(entries.drop_first(), key, i - 1);
    }
}

/// No member is found for a key that no member carries.
pub proof fn lemma_lookup_absent(entries: Seq<(String, Json)>, key: Seq<char>)
    requires
        forall|j: int| 0 <= j < entries.len() ==> entries[j].0@ != key,
    ensures
        lookup_entries(entries, key) is None,
    decreases entries.len(),
{
    if entries.len() > 0 {
        assert(entries[0].0@ != key);
        assert forall|j: int| 0 <= j < entries.drop_first().len() implies entries.drop_first()[j].0@ != key by {
            assert(entries.drop_first()[j] == entries[j + 1]);
        }
        lemma_lookup_absent(entries.drop_first(), key);
    }
}

impl Json {
    /// The members of an object; nothing for any other value.
    pub open spec fn members(self) -> Seq<(String, Json)> {
        match self {
            Json::Object(entries) => entries@,
            _ => Seq::empty(),
        }
    }

    /// The keys of an object's members, in order.
    pub open spec fn keys(self) -> Seq<Seq<char>> {
        self.members().map_values(|e: (String, Json)| e.0@)
    }

    /// The member of an object with the given key, if there is one.
    pub open spec fn member(self, key: Seq<char>) -> Option<Json> {
        lookup_entries(self.members(), key)
    }

    /// `value[key]`: the member with the given key, or `Null` when the value
    /// is not an object or has no such member.
    pub open spec fn at(self, key: Seq<char>) -> Json {
        match self.member(key) {
            Some(v) => v,
            None => Json::Null,
        }
    }

    pub open spec fn u64_value(self) -> Option<u64> {
        match self {
            Json::Number(JsonNumber::PosInt(n)) => Some(n),
            _ => None,
        }
    }

    pub open spec fn i64_value(self) -> Option<i64> {
        match self {
            Json::Number(JsonNumber::PosInt(n)) => if n <= i64::MAX {
                Some(n as i64)
            } else {
                None
            },
            Json::Number(JsonNumber::NegInt(n)) => Some(n),
            _ => None,
        }
    }

    pub open spec fn str_value(self) -> Option<Seq<char>> {
        match self {
            Json::Text(s) => Some(s@),
            _ => None,
        }
    }

    /// A string value.
    pub fn text(s: &str) -> (r: Json)
        ensures
            r.str_value() == Some(s@),
    {
        Json::Text(s.to_owned())
    }

    /// A non-negative integer value.
    pub fn uint(n: u64) -> (r: Json)
        ensures
            r == Json::Number(JsonNumber::PosInt(n)),
    {
        Json::Number(JsonNumber::PosInt(n))
    }

    /// An integer value, held as serde's JSON layer holds it.
    pub fn integer(n: i64) -> (r: Json)
        ensures
            r.i64_value() == Some(n),
            n >= 0 ==> r.u64_value() == Some(n as u64),
            n < 0 ==> r.u64_value() is None,
    {
        if n >= 0 {
            Json::Number(JsonNumber::PosInt(n as u64))
        } else {
            Json::Number(JsonNumber::NegInt(n))
        }
    }

    /// `true` when the value is `Null`.
    pub fn is_null(&self) -> (r: bool)
        ensures
            r == (*self is Null),
    {
        match self {
            Json::Null => true,
            _ => false,
        }
    }

    /// `true` when the value is a string.
    pub fn is_string(&self) -> (r: bool)
        ensures
            r == (*self is Text),
    {
        match self {
            Json::Text(_) => true,
            _ => false,
        }
    }

    /// The value as a `u64`, when it is a non-negative integer.
    pub fn as_u64(&self) -> (r: Option<u64>)
        ensures
            r == self.u64_value(),
    {
        match self {
            Json::Number(JsonNumber::PosInt(n)) => Some(*n),
            _ => None,
        }
    }

    /// The value as an `i64`, when it is an integer that fits.
    pub fn as_i64(&self) -> (r: Option<i64>)
        ensures
            r == self.i64_value(),
    {
        match self {
            Json::Number(JsonNumber::PosInt(n)) => {
                if *n <= 0x7fff_ffff_ffff_ffffu64 {
                    Some(*n as i64)
                } else {
                    None
                }
            },
            Json::Number(JsonNumber::NegInt(n)) => Some(*n),
            _ => None,
        }
    }

    /// The value as a string slice, when it is a string.
    pub fn as_str(&self) -> (r: Option<&str>)
        ensures
            match r {
                Some(s) => self.str_value() == Some(s@),
                None => self.str_value() is None,
            },
    {
        match self {
            Json::Text(s) => Some(s.as_str()),
            _ => None,
        }
    }

    /// The member with the given key, if the value is an object that has one.
    pub fn lookup(&self, key: &str) -> (r: Option<&Json>)
        ensures
            match r {
                Some(v) => self.member(key@) == Some(*v),
                None => self.member(key@) is None,
            },
    {
        let pos = self.position(key);
        match self {
            Json::Object(entries) => match pos {
                Some(i) => Some(&entries[i].1),
                None => None,
            },
            _ => None,
        }
    }

    /// `value[key]`, consuming the value: the member with the given key, or
    /// `Null` when there is none.
    pub fn take(self, key: &str) -> (r: Json)
        ensures
            r == self.at(key@),
    {
        let pos = self.position(key);
        match self {
            Json::Object(members) => {
                match pos {
                    Some(i) => {
                        let mut entries = members;
                        let member = entries.swap_remove(i);
                        member.1
                    },
                    None => Json::Null,
                }
            },
            _ => Json::Null,
        }
    }

    /// The index of the first member with the given key.
    fn position(&self, key: &str) -> (r: Option<usize>)
        ensures
            match r {
                Some(i) => i < self.members().len() && self.member(key@) == Some(
                    self.members()[i as int].1,
                ),
                None => self.member(key@) is None,
            },
    {
        match self {
            Json::Object(entries) => {
                let n = entries.len();
                let wanted = key.to_owned();
                let mut i: usize = 0;
                assert(entries@.skip(0) =~= entries@);
                while i < n
                    invariant
                        n == entries@.len(),
                        i <= n,
                        *self == Json::Object(*entries),
                        wanted@ == key@,
                        lookup_entries(entries@, key@) == lookup_entries(entries@.skip(i as int), key@),
                    decreases n - i,
                {
                    assert(entries@.skip(i as int).drop_first() =~= entries@.skip(i + 1));
                    assert(entries@.skip(i as int)[0] == entries@[i as int]);
                    if entries[i].0 == wanted {
                        return Some(i);
                    }
                    i = i + 1;
                }
                None
            },
            _ => None,
        }
    }
}

/// An object with no members.
pub fn empty_object() -> (r: Json)
    ensures
        r is Object,
        r.keys() == Seq::<Seq<char>>::empty(),
{
    let r = Json::Object(Vec::new());
    assert(r.keys() =~= Seq::<Seq<char>>::empty());
    r
}

/// An object with one member.
pub fn object1(k1: &str, v1: Json) -> (r: Json)
    ensures
        r is Object,
        r.keys() == seq![k1@],
        r.at(k1@) == v1,
{
    let mut m: Vec<(String, Json)> = Vec::new();
    m.push((k1.to_owned(), v1));
    let r = Json::Object(m);
    proof {
        lemma_lookup_first(r.members(), k1@, 0);
        assert(r.keys() =~= seq![k1@]);
    }
    r
}

/// An object with two members of distinct keys.
pub fn object2(k1: &str, v1: Json, k2: &str, v2: Json) -> (r: Json)
    requires
        k1@ != k2@,
    ensures
        r is Object,
        r.keys() == seq![k1@, k2@],
        r.at(k1@) == v1,
        r.at(k2@) == v2,
{
    let mut m: Vec<(String, Json)> = Vec::new();
    m.push((k1.to_owned(), v1));
    m.push((k2.to_owned(), v2));
    let r = Json::Object(m);
    proof {
        lemma_lookup_first(r.members(), k1@, 0);
        lemma_lookup_first(r.members(), k2@, 1);
        assert(r.keys() =~= seq![k1@, k2@]);
    }
    r
}

/// An object with three members of distinct keys.
pub fn object3(k1: &str, v1: Json, k2: &str, v2: Json, k3: &str, v3: Json) -> (r: Json)
    requires
        k1@ != k2@,
        k1@ != k3@,
        k2@ != k3@,
    ensures
        r is Object,
        r.keys() == seq![k1@, k2@, k3@],
        r.at(k1@) == v1,
        r.at(k2@) == v2,
        r.at(k3@) == v3,
{
    let mut m: Vec<(String, Json)> = Vec::new();
    m.push((k1.to_owned(), v1));
    m.push((k2.to_owned(), v2));
    m.push((k3.to_owned(), v3));
    let r = Json::Object(m);
    proof {
        lemma_lookup_first(r.members(), k1@, 0);
        lemma_lookup_first(r.members(), k2@, 1);
        lemma_lookup_first(r.members(), k3@, 2);
        assert(r.keys() =~= seq![k1@, k2@, k3@]);
    }
    r
}

/// An object with four members of distinct keys.
pub fn object4(k1: &str, v1: Json, k2: &str, v2: Json, k3: &str, v3: Json, k4: &str, v4: Json) -> (r: Json)
    requires
        k1@ != k2@,
        k1@ != k3@,
        k1@ != k4@,
        k2@ != k3@,
        k2@ != k4@,
        k3@ != k4@,
    ensures
        r is Object,
        r.keys() == seq![k1@, k2@, k3@, k4@],
        r.at(k1@) == v1,
        r.at(k2@) == v2,
        r.at(k3@) == v3,
        r.at(k4@) == v4,
{
    let mut m: Vec<(String, Json)> = Vec::new();
    m.push((k1.to_owned(), v1));
    m.push((k2.to_owned(), v2));
    m.push((k3.to_owned(), v3));
    m.push((k4.to_owned(), v4));
    let r = Json::Object(m);
    proof {
        lemma_lookup_first(r.members(), k1@, 0);
        lemma_lookup_first(r.members(), k2@, 1);
        lemma_lookup_first(r.members(), k3@, 2);
        lemma_lookup_first(r.members(), k4@, 3);
        assert(r.keys() =~= seq![k1@, k2@, k3@, k4@]);
    }
    r
}

} // verus!
