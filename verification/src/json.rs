//! A JSON document as a tree of plain values.
//!
//! The tools hand their answers over in this shape, and page metadata is kept
//! in it. An object is a list of members in document order; a key is looked up
//! from the front, so that the first member of a name is the one that counts.
use vstd::prelude::*;
use vstd::string::*;

verus! {

/// What a [`JsonNumber`] stands for.
pub enum JsonNumberView {
    PosInt(u64),
    NegInt(i64),
    Float(Seq<char>),
}

/// What a [`JsonValue`] stands for.
pub enum JsonView {
    Null,
    Bool(bool),
    Number(JsonNumberView),
    String(Seq<char>),
    Array(Seq<JsonView>),
    Object(Seq<(Seq<char>, JsonView)>),
}

/// A JSON number: a non-negative integer, a negative integer, or any other
/// number kept as its decimal text.
#[derive(Debug, PartialEq)]
pub enum JsonNumber {
    PosInt(u64),
    NegInt(i64),
    Float(String),
}

/// A JSON value.
#[derive(Debug, PartialEq)]
pub enum JsonValue {
    Null,
    Bool(bool),
    Number(JsonNumber),
    String(String),
    Array(Vec<JsonValue>),
    Object(Vec<(String, JsonValue)>),
}

impl View for JsonNumber {
    type V = JsonNumberView;

    open spec fn view(&self) -> JsonNumberView {
        match self {
            JsonNumber::PosInt(n) => JsonNumberView::PosInt(*n),
            JsonNumber::NegInt(n) => JsonNumberView::NegInt(*n),
            JsonNumber::Float(t) => JsonNumberView::Float(t@),
        }
    }
}

impl JsonValue {
    /// The tree of plain values that this value stands for.
    pub open spec fn model(&self) -> JsonView
        decreases self,
    {
        match self {
            JsonValue::Null => JsonView::Null,
            JsonValue::Bool(b) => JsonView::Bool(*b),
            JsonValue::Number(n) => JsonView::Number(n@),
            JsonValue::String(s) => JsonView::String(s@),
            JsonValue::Array(items) => JsonView::Array(
                Seq::new(
                    items@.len(),
                    |i: int|
                        if 0 <= i < items@.len() {
                            items@[i].model()
                        } else {
                            JsonView::Null
                        },
                ),
            ),
            JsonValue::Object(members) => JsonView::Object(
                Seq::new(
                    members@.len(),
                    |i: int|
                        if 0 <= i < members@.len() {
                            (members@[i].0@, members@[i].1.model())
                        } else {
                            (Seq::empty(), JsonView::Null)
                        },
                ),
            ),
        }
    }
}

impl View for JsonValue {
    type V = JsonView;

    open spec fn view(&self) -> JsonView {
        self.model()
    }
}

/// The views of a list of values, in order.
pub open spec fn items_view(items: Seq<JsonValue>) -> Seq<JsonView> {
    Seq::new(items.len(), |i: int| items[i]@)
}

/// The views of a list of object members, in order.
pub open spec fn members_view(members: Seq<(String, JsonValue)>) -> Seq<(Seq<char>, JsonView)> {
    Seq::new(members.len(), |i: int| (members[i].0@, members[i].1@))
}

/// The value of the first member named `key`, if there is one.
pub open spec fn lookup(members: Seq<(Seq<char>, JsonView)>, key: Seq<char>) -> Option<JsonView>
    decreases members.len(),
{
    if members.len() == 0 {
        None
    } else if members[0].0 == key {
        Some(members[0].1)
    } else {
        lookup(members.drop_first(), key)
    }
}

/// Whether some member is named `key`.
pub open spec fn has_key(members: Seq<(Seq<char>, JsonView)>, key: Seq<char>) -> bool {
    exists|i: int| 0 <= i < members.len() && #[trigger] members[i].0 == key
}

impl JsonView {
    /// The member `key` of an object; `None` for a missing member and for
    /// anything that is no object.
    pub open spec fn get(self, key: Seq<char>) -> Option<JsonView> {
        match self {
            JsonView::Object(members) => lookup(members, key),
            _ => None,
        }
    }

    /// The member `key` of an object, `Null` where `get` has `None`.
    pub open spec fn at(self, key: Seq<char>) -> JsonView {
        match self.get(key) {
            Some(v) => v,
            None => JsonView::Null,
        }
    }

    pub open spec fn as_str(self) -> Option<Seq<char>> {
        match self {
            JsonView::String(s) => Some(s),
            _ => None,
        }
    }

    pub open spec fn as_bool(self) -> Option<bool> {
        match self {
            JsonView::Bool(b) => Some(b),
            _ => None,
        }
    }

    /// The number as a `u64`: only a non-negative integer has one.
    pub open spec fn as_u64(self) -> Option<u64> {
        match self {
            JsonView::Number(JsonNumberView::PosInt(n)) => Some(n),
            _ => None,
        }
    }

    /// The number as an `i64`: an integer that fits has one.
    pub open spec fn as_i64(self) -> Option<i64> {
        match self {
            JsonView::Number(JsonNumberView::PosInt(n)) => if n <= i64::MAX {
                Some(n as i64)
            } else {
                None
            },
            JsonView::Number(JsonNumberView::NegInt(n)) => Some(n),
            _ => None,
        }
    }

    pub open spec fn as_array(self) -> Option<Seq<JsonView>> {
        match self {
            JsonView::Array(items) => Some(items),
            _ => None,
        }
    }

    pub open spec fn as_object(self) -> Option<Seq<(Seq<char>, JsonView)>> {
        match self {
            JsonView::Object(members) => Some(members),
            _ => None,
        }
    }
}

pub proof fn lemma_lookup_some(members: Seq<(Seq<char>, JsonView)>, key: Seq<char>)
    ensures
        lookup(members, key) is Some <==> has_key(members, key),
    decreases members.len(),
{
    if members.len() == 0 {
    } else if members[0].0 == key {
    } else {
        let rest = members.drop_first();
        lemma_lookup_some(rest, key);
        if has_key(rest, key) {
            let i = choose|i: int| 0 <= i < rest.len() && #[trigger] rest[i].0 == key;
            assert(members[i + 1].0 == key);
        }
        if has_key(members, key) {
            let i = choose|i: int| 0 <= i < members.len() && #[trigger] members[i].0 == key;
            assert(rest[i - 1].0 == key);
        }
    }
}

impl JsonNumber {
    /// A copy of this number.
    pub fn copy(&self) -> (r: JsonNumber)
        ensures
            r@ == self@,
    {
        match self {
            JsonNumber::PosInt(n) => JsonNumber::PosInt(*n),
            JsonNumber::NegInt(n) => JsonNumber::NegInt(*n),
            JsonNumber::Float(t) => JsonNumber::Float(t.clone()),
        }
    }
}

impl JsonValue {
    /// A deep copy of this value.
    pub fn copy(&self) -> (r: JsonValue)
        ensures
            r@ == self@,
        decreases self,
    {
        match self {
            JsonValue::Null => JsonValue::Null,
            JsonValue::Bool(b) => JsonValue::Bool(*b),
            JsonValue::Number(n) => JsonValue::Number(n.copy()),
            JsonValue::String(s) => JsonValue::String(s.clone()),
            JsonValue::Array(items) => {
                let mut out: Vec<JsonValue> = Vec::new();
                let mut i: usize = 0;
                while i < items.len()
                    invariant
                        i <= items.len(),
                        self is Array && self->Array_0 == *items,
                        out@.len() == i,
                        forall|k: int| 0 <= k < i ==> out@[k]@ == items@[k]@,
                    decreases items.len() - i,
                {
                    assert(decreases_to!(self => self->Array_0));
                    let item = items[i].copy();
                    out.push(item);
                    i = i + 1;
                }
                let r = JsonValue::Array(out);
                assert(r@ =~= self@) by {
                    assert(r@->Array_0 =~= self@->Array_0);
                }
                r
            },
            JsonValue::Object(members) => {
                let mut out: Vec<(String, JsonValue)> = Vec::new();
                let mut i: usize = 0;
                while i < members.len()
                    invariant
                        i <= members.len(),
                        self is Object && self->Object_0 == *members,
                        out@.len() == i,
                        forall|k: int|
                            0 <= k < i ==> out@[k].0@ == members@[k].0@ && out@[k].1@
                                == members@[k].1@,
                    decreases members.len() - i,
                {
                    assert(decreases_to!(self => self->Object_0));
                    assert(decreases_to!(members => members[i as int]));
                    let value = members[i].1.copy();
                    out.push((members[i].0.clone(), value));
                    i = i + 1;
                }
                let r = JsonValue::Object(out);
                assert(r@ =~= self@) by {
                    assert(r@->Object_0 =~= self@->Object_0);
                }
                r
            },
        }
    }
}

impl JsonValue {
    /// The member `key` of an object: the first one of that name.
    pub fn get(&self, key: &str) -> (r: Option<&JsonValue>)
        ensures
            match r {
                Some(v) => self@.get(key@) == Some(v@),
                None => self@.get(key@) is None,
            },
    {
        match self {
            JsonValue::Object(members) => {
                let ghost all = self@->Object_0;
                let wanted = key.to_owned();
                let mut i: usize = 0;
                assert(all.skip(0) =~= all);
                while i < members.len()
                    invariant
                        i <= members.len(),
                        wanted@ == key@,
                        self@ == JsonView::Object(all),
                        all.len() == members@.len(),
                        forall|k: int|
                            0 <= k < members@.len() ==> all[k] == (members@[k].0@, members@[k].1@),
                        lookup(all, key@) == lookup(all.skip(i as int), key@),
                    decreases members.len() - i,
                {
                    assert(all.skip(i as int)[0] == all[i as int]);
                    assert(all.skip(i as int).drop_first() =~= all.skip(i + 1));
                    if members[i].0 == wanted {
                        return Some(&members[i].1);
                    }
                    i = i + 1;
                }
                None
            },
            _ => None,
        }
    }

    /// The text of a string value.
    pub fn as_str(&self) -> (r: Option<&str>)
        ensures
            match r {
                Some(s) => self@.as_str() == Some(s@),
                None => self@.as_str() is None,
            },
    {
        match self {
            JsonValue::String(s) => Some(s.as_str()),
            _ => None,
        }
    }

    pub fn as_bool(&self) -> (r: Option<bool>)
        ensures
            r == self@.as_bool(),
    {
        match self {
            JsonValue::Bool(b) => Some(*b),
            _ => None,
        }
    }

    /// The number as a `u64`: only a non-negative integer has one.
    pub fn as_u64(&self) -> (r: Option<u64>)
        ensures
            r == self@.as_u64(),
    {
        match self {
            JsonValue::Number(JsonNumber::PosInt(n)) => Some(*n),
            _ => None,
        }
    }

    /// The number as an `i64`: an integer that fits has one.
    pub fn as_i64(&self) -> (r: Option<i64>)
        ensures
            r == self@.as_i64(),
    {
        match self {
            JsonValue::Number(JsonNumber::PosInt(n)) => if *n <= 0x7FFF_FFFF_FFFF_FFFF {
                Some(*n as i64)
            } else {
                None
            },
            JsonValue::Number(JsonNumber::NegInt(n)) => Some(*n),
            _ => None,
        }
    }

    /// The items of an array.
    pub fn as_array(&self) -> (r: Option<&Vec<JsonValue>>)
        ensures
            match r {
                Some(items) => self@.as_array() == Some(items_view(items@)),
                None => self@.as_array() is None,
            },
    {
        match self {
            JsonValue::Array(items) => {
                assert(self@->Array_0 =~= items_view(items@));
                Some(items)
            },
            _ => None,
        }
    }

    /// The members of an object, in document order.
    pub fn as_object(&self) -> (r: Option<&Vec<(String, JsonValue)>>)
        ensures
            match r {
                Some(members) => self@.as_object() == Some(members_view(members@)),
                None => self@.as_object() is None,
            },
    {
        match self {
            JsonValue::Object(members) => {
                assert(self@->Object_0 =~= members_view(members@));
                Some(members)
            },
            _ => None,
        }
    }

    /// The text of the string member `key`.
    pub fn str_at(&self, key: &str) -> (r: Option<&str>)
        ensures
            match r {
                Some(s) => self@.at(key@).as_str() == Some(s@),
                None => self@.at(key@).as_str() is None,
            },
    {
        match self.get(key) {
            Some(v) => v.as_str(),
            None => None,
        }
    }

    pub fn u64_at(&self, key: &str) -> (r: Option<u64>)
        ensures
            r == self@.at(key@).as_u64(),
    {
        match self.get(key) {
            Some(v) => v.as_u64(),
            None => None,
        }
    }

    pub fn i64_at(&self, key: &str) -> (r: Option<i64>)
        ensures
            r == self@.at(key@).as_i64(),
    {
        match self.get(key) {
            Some(v) => v.as_i64(),
            None => None,
        }
    }

    pub fn bool_at(&self, key: &str) -> (r: Option<bool>)
        ensures
            r == self@.at(key@).as_bool(),
    {
        match self.get(key) {
            Some(v) => v.as_bool(),
            None => None,
        }
    }

    /// The items of the array member `key`.
    pub fn array_at(&self, key: &str) -> (r: Option<&Vec<JsonValue>>)
        ensures
            match r {
                Some(items) => self@.at(key@).as_array() == Some(items_view(items@)),
                None => self@.at(key@).as_array() is None,
            },
    {
        match self.get(key) {
            Some(v) => v.as_array(),
            None => None,
        }
    }

    /// The members of the object member `key`.
    pub fn object_at(&self, key: &str) -> (r: Option<&Vec<(String, JsonValue)>>)
        ensures
            match r {
                Some(members) => self@.at(key@).as_object() == Some(members_view(members@)),
                None => self@.at(key@).as_object() is None,
            },
    {
        match self.get(key) {
            Some(v) => v.as_object(),
            None => None,
        }
    }
}

impl JsonValue {
    /// The string value with the text `s`.
    pub fn string(s: &str) -> (r: JsonValue)
        ensures
            r@ == JsonView::String(s@),
    {
        JsonValue::String(s.to_owned())
    }

    /// The number value of a non-negative integer.
    pub fn unsigned(n: u64) -> (r: JsonValue)
        ensures
            r@ == JsonView::Number(JsonNumberView::PosInt(n)),
    {
        JsonValue::Number(JsonNumber::PosInt(n))
    }

    /// The boolean value `b`.
    pub fn boolean(b: bool) -> (r: JsonValue)
        ensures
            r@ == JsonView::Bool(b),
    {
        JsonValue::Bool(b)
    }

    /// The array of the given items.
    pub fn array(items: Vec<JsonValue>) -> (r: JsonValue)
        ensures
            r@ == JsonView::Array(items_view(items@)),
    {
        let r = JsonValue::Array(items);
        assert(r@->Array_0 =~= items_view(items@));
        r
    }

    /// The object of the given members, in that order.
    pub fn object(members: Vec<(String, JsonValue)>) -> (r: JsonValue)
        ensures
            r@ == JsonView::Object(members_view(members@)),
    {
        let r = JsonValue::Object(members);
        assert(r@->Object_0 =~= members_view(members@));
        r
    }
}

/// The rows that `decode` reads from a list of entries, in order; an entry
/// that it reads nothing from is passed over.
pub open spec fn decoded_rows<E, T>(entries: Seq<E>, decode: spec_fn(E) -> Option<T>) -> Seq<T>
    decreases entries.len(),
{
    if entries.len() == 0 {
        Seq::empty()
    } else {
        let front = decoded_rows(entries.drop_last(), decode);
        match decode(entries.last()) {
            Some(row) => front.push(row),
            None => front,
        }
    }
}

/// One more entry adds its row, if it has one, to the rows read so far.
pub proof fn lemma_decoded_rows_step<E, T>(
    entries: Seq<E>,
    decode: spec_fn(E) -> Option<T>,
    i: int,
)
    requires
        0 <= i < entries.len(),
    ensures
        decoded_rows(entries.take(i + 1), decode) == (match decode(entries[i]) {
            Some(row) => decoded_rows(entries.take(i), decode).push(row),
            None => decoded_rows(entries.take(i), decode),
        }),
{
    assert(entries.take(i + 1).drop_last() =~= entries.take(i));
    assert(entries.take(i + 1).last() == entries[i]);
}

impl Clone for JsonNumber {
    fn clone(&self) -> (r: Self)
        ensures
            r@ == self@,
    {
        self.copy()
    }
}

impl Clone for JsonValue {
    fn clone(&self) -> (r: Self)
        ensures
            r@ == self@,
    {
        self.copy()
    }
}

} // verus!
