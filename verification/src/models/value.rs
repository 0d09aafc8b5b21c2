//! The example values of a challenge: numbers, truth values, texts, lists and
//! records, without a type of their own. What a value means is decided by the
//! type that it is rendered against.
use vstd::prelude::*;
use vstd::string::*;
use crate::text::{all_digits, is_digit, to_chars};

verus! {

/// A number, held as the two readings that rendering takes of it.
///
/// `integer` is the number as a signed 64-bit integer; it is `None` where the
/// number was written with a fraction or an exponent, or does not fit.
/// `negative`, `whole` and `fraction` write the number as a real in decimal:
/// its sign, the digits before the point and the digits after it, which are
/// none where the fractional part is zero.
#[derive(Debug, Clone)]
pub struct Number {
    pub integer: Option<i64>,
    pub negative: bool,
    pub whole: String,
    pub fraction: String,
}

/// An example value.
#[derive(Debug)]
pub enum Value {
    Null,
    Bool(bool),
    Number(Number),
    String(String),
    Array(Vec<Value>),
    /// A record: names with their values, in the order they were written.
    /// Where a name stands twice, the first entry counts.
    Object(Vec<(String, Value)>),
}

/// A number as a mathematical value.
pub struct NumberView {
    pub integer: Option<i64>,
    pub negative: bool,
    pub whole: Seq<char>,
    pub fraction: Seq<char>,
}

/// An example value as a mathematical value.
pub enum ValueView {
    Null,
    Bool(bool),
    Number(NumberView),
    String(Seq<char>),
    Array(Seq<ValueView>),
    Object(Seq<(Seq<char>, ValueView)>),
}

impl View for Number {
    type V = NumberView;

    open spec fn view(&self) -> NumberView {
        NumberView {
            integer: self.integer,
            negative: self.negative,
            whole: self.whole@,
            fraction: self.fraction@,
        }
    }
}

impl NumberView {
    /// Whether the number is written as a decimal should be: with at least
    /// one digit before the point, and with digits alone before and after
    /// it.
    pub open spec fn is_valid(self) -> bool {
        &&& self.whole.len() > 0
        &&& all_digits(self.whole, self.whole.len() as int)
        &&& all_digits(self.fraction, self.fraction.len() as int)
    }
}

/// Whether `s` is made of digits alone.
fn only_digits(s: &str) -> (r: bool)
    ensures
        r == all_digits(s@, s@.len() as int),
{
    let chars = to_chars(s);
    let mut i: usize = 0;
    while i < chars.len()
        invariant
            i <= chars@.len(),
            chars@ == s@,
            all_digits(s@, i as int),
        decreases chars@.len() - i,
    {
        let c = chars[i];
        if !('0' <= c && c <= '9') {
            assert(!is_digit(s@[i as int]));
            return false;
        }
        i += 1;
    }
    true
}

impl Number {
    /// The number with the given readings, where they make a valid number.
    pub fn new(integer: Option<i64>, negative: bool, whole: &str, fraction: &str) -> (r: Option<
        Number,
    >)
        ensures
            (match r {
                Some(n) => n@.is_valid() && n@ == (NumberView {
                    integer,
                    negative,
                    whole: whole@,
                    fraction: fraction@,
                }),
                None => !(NumberView { integer, negative, whole: whole@, fraction: fraction@ })
                    .is_valid(),
            }),
    {
        if whole.is_empty() || !only_digits(whole) || !only_digits(fraction) {
            None
        } else {
            Some(
                Number {
                    integer,
                    negative,
                    whole: String::from_str(whole),
                    fraction: String::from_str(fraction),
                },
            )
        }
    }
}

impl View for Value {
    type V = ValueView;

    open spec fn view(&self) -> ValueView
        decreases self,
    {
        match self {
            Value::Null => ValueView::Null,
            Value::Bool(b) => ValueView::Bool(*b),
            Value::Number(n) => ValueView::Number(n@),
            Value::String(s) => ValueView::String(s@),
            Value::Array(items) => ValueView::Array(
                Seq::new(
                    items@.len(),
                    |i: int|
                        if 0 <= i < items@.len() {
                            items@[i].view()
                        } else {
                            ValueView::Null
                        },
                ),
            ),
            Value::Object(entries) => ValueView::Object(
                Seq::new(
                    entries@.len(),
                    |i: int|
                        if 0 <= i < entries@.len() {
                            (entries@[i].0@, entries@[i].1.view())
                        } else {
                            (Seq::empty(), ValueView::Null)
                        },
                ),
            ),
        }
    }
}

impl ValueView {
    /// The value as a signed 64-bit integer, where it is one.
    pub open spec fn integer(self) -> Option<i64> {
        match self {
            ValueView::Number(n) => n.integer,
            _ => None,
        }
    }

    /// The value as a truth value, where it is one.
    pub open spec fn truth(self) -> Option<bool> {
        match self {
            ValueView::Bool(b) => Some(b),
            _ => None,
        }
    }

    /// The value as a text, where it is one.
    pub open spec fn string(self) -> Option<Seq<char>> {
        match self {
            ValueView::String(s) => Some(s),
            _ => None,
        }
    }

    /// The items of the value, where it is a list.
    pub open spec fn items(self) -> Option<Seq<ValueView>> {
        match self {
            ValueView::Array(items) => Some(items),
            _ => None,
        }
    }

    /// The number of items of the value; a value that is no list has none.
    pub open spec fn item_count(self) -> nat {
        match self {
            ValueView::Array(items) => items.len(),
            _ => 0,
        }
    }

    /// The entries of the value, where it is a record.
    pub open spec fn entries(self) -> Option<Seq<(Seq<char>, ValueView)>> {
        match self {
            ValueView::Object(entries) => Some(entries),
            _ => None,
        }
    }
}

/// The entries of a record: names with their values.
pub type Entries = Seq<(Seq<char>, ValueView)>;

/// The index of the first entry at or after `i` that is named `key`, or the
/// number of entries where none is.
pub open spec fn next_entry(entries: Seq<(Seq<char>, ValueView)>, key: Seq<char>, i: int) -> int
    decreases entries.len() - i,
{
    if 0 <= i < entries.len() && entries[i].0 != key {
        next_entry(entries, key, i + 1)
    } else {
        i
    }
}

/// The value of the first entry named `key`.
pub open spec fn member(entries: Seq<(Seq<char>, ValueView)>, key: Seq<char>) -> Option<ValueView> {
    let i = next_entry(entries, key, 0);
    if 0 <= i < entries.len() {
        Some(entries[i].1)
    } else {
        None
    }
}

/// The entries of a record as mathematical values.
pub open spec fn entries_view(entries: Seq<(String, Value)>) -> Seq<(Seq<char>, ValueView)> {
    Seq::new(entries.len(), |i: int| (entries[i].0@, entries[i].1@))
}

/// The items of a list as mathematical values.
pub open spec fn items_view(items: Seq<Value>) -> Seq<ValueView> {
    Seq::new(items.len(), |i: int| items[i]@)
}

/// The view of a list is the list of the views of its items.
pub proof fn lemma_array_view(items: Vec<Value>)
    ensures
        Value::Array(items)@ == ValueView::Array(items_view(items@)),
{
    reveal_with_fuel(<Value as View>::view, 2);
    assert(Value::Array(items)@->Array_0 =~= items_view(items@));
}

/// The view of a record is the list of its names with the views of their values.
pub proof fn lemma_object_view(entries: Vec<(String, Value)>)
    ensures
        Value::Object(entries)@ == ValueView::Object(entries_view(entries@)),
{
    reveal_with_fuel(<Value as View>::view, 2);
    assert(Value::Object(entries)@->Object_0 =~= entries_view(entries@));
}

impl Value {
    /// The value as a signed 64-bit integer, where it is one.
    pub fn as_i64(&self) -> (r: Option<i64>)
        ensures
            r == self@.integer(),
    {
        match self {
            Value::Number(n) => n.integer,
            _ => None,
        }
    }

    /// The value as a truth value, where it is one.
    pub fn as_bool(&self) -> (r: Option<bool>)
        ensures
            r == self@.truth(),
    {
        match self {
            Value::Bool(b) => Some(*b),
            _ => None,
        }
    }

    /// The value as a text, where it is one.
    pub fn as_str(&self) -> (r: Option<&str>)
        ensures
            r is Some <==> self@.string() is Some,
            r matches Some(s) ==> self@.string() == Some(s@),
    {
        match self {
            Value::String(s) => Some(s.as_str()),
            _ => None,
        }
    }

    /// The items of the value, where it is a list.
    pub fn as_array(&self) -> (r: Option<&Vec<Value>>)
        ensures
            r is Some <==> self@.items() is Some,
            r matches Some(items) ==> self@.items() == Some(items_view(items@)),
    {
        match self {
            Value::Array(items) => {
                proof {
                    lemma_array_view(*items);
                }
                Some(items)
            },
            _ => None,
        }
    }

    /// The number of items of the value; a value that is no list has none.
    pub fn item_count(&self) -> (r: usize)
        ensures
            r == self@.item_count(),
    {
        match self.as_array() {
            Some(items) => items.len(),
            None => 0,
        }
    }

    /// The entries of the value, where it is a record.
    pub fn as_object(&self) -> (r: Option<&Vec<(String, Value)>>)
        ensures
            r is Some <==> self@.entries() is Some,
            r matches Some(entries) ==> self@.entries() == Some(entries_view(entries@)),
    {
        match self {
            Value::Object(entries) => {
                proof {
                    lemma_object_view(*entries);
                }
                Some(entries)
            },
            _ => None,
        }
    }
}

/// The value of the first entry named `key`.
pub fn get<'a>(entries: &'a Vec<(String, Value)>, key: &String) -> (r: Option<&'a Value>)
    ensures
        r is Some <==> member(entries_view(entries@), key@) is Some,
        r matches Some(v) ==> member(entries_view(entries@), key@) == Some(v@),
{
    let ghost all = entries_view(entries@);
    let mut i: usize = 0;
    while i < entries.len()
        invariant
            i <= entries.len(),
            all == entries_view(entries@),
            next_entry(all, key@, i as int) == next_entry(all, key@, 0),
        decreases entries.len() - i,
    {
        if entries[i].0 == *key {
            return Some(&entries[i].1);
        }
        i += 1;
    }
    None
}

} // verus!
