use vstd::prelude::*;
use crate::text::{chars_of, decimal, push_char, push_decimal, push_str};

verus! {

/// A number held by a [`Value`]: an integer, or a floating point number kept as the text
/// that its notation gives.
#[derive(Debug, PartialEq)]
pub enum Number {
    PosInt(u64),
    NegInt(i64),
    Float(String),
}

/// A structured value, as the payload of an action or the custom variables of an object carry
/// it.
#[derive(Debug, PartialEq)]
pub enum Value {
    Object(ValueMap),
    Array(Vec<Value>),
    Text(String),
    Number(Number),
    Bool(bool),
    Null,
}

/// A map from keys to values, kept in the order in which its entries are walked. A key that
/// occurs more than once is found at its first occurrence.
#[derive(Debug, PartialEq)]
pub struct ValueMap {
    pub entries: Vec<(String, Value)>,
}


/// The mathematical content of a [`Number`].
pub enum NumberView {
    PosInt(u64),
    NegInt(i64),
    Float(Seq<char>),
}

/// The mathematical content of a [`Value`]: what it holds, whatever memory holds it.
pub enum ValueView {
    Object(Seq<(Seq<char>, ValueView)>),
    Array(Seq<ValueView>),
    Text(Seq<char>),
    Number(NumberView),
    Bool(bool),
    Null,
}

/// The content of `n`.
pub open spec fn number_view(n: Number) -> NumberView {
    match n {
        Number::PosInt(u) => NumberView::PosInt(u),
        Number::NegInt(i) => NumberView::NegInt(i),
        Number::Float(t) => NumberView::Float(t@),
    }
}

/// The content of `v`.
pub open spec fn value_view(v: Value) -> ValueView
    decreases v,
{
    match v {
        Value::Object(m) => ValueView::Object(entries_view(m.entries@)),
        Value::Array(a) => ValueView::Array(items_view(a@)),
        Value::Text(t) => ValueView::Text(t@),
        Value::Number(n) => ValueView::Number(number_view(n)),
        Value::Bool(b) => ValueView::Bool(b),
        Value::Null => ValueView::Null,
    }
}

/// The contents of `items`, in order.
pub open spec fn items_view(items: Seq<Value>) -> Seq<ValueView>
    decreases items,
{
    if items.len() == 0 {
        Seq::empty()
    } else {
        items_view(items.subrange(0, items.len() - 1)).push(value_view(items.last()))
    }
}

/// The contents of `entries`, in order.
pub open spec fn entries_view(entries: Seq<(String, Value)>) -> Seq<(Seq<char>, ValueView)>
    decreases entries,
{
    if entries.len() == 0 {
        Seq::empty()
    } else {
        entries_view(entries.subrange(0, entries.len() - 1)).push(
            (entries.last().0@, value_view(entries.last().1)),
        )
    }
}

impl View for Value {
    type V = ValueView;

    open spec fn view(&self) -> ValueView {
        value_view(*self)
    }
}

impl View for ValueMap {
    type V = Seq<(Seq<char>, ValueView)>;

    open spec fn view(&self) -> Seq<(Seq<char>, ValueView)> {
        entries_view(self.entries@)
    }
}

/// The value stored under `key` in `entries`: that of its first occurrence.
pub open spec fn lookup(entries: Seq<(String, Value)>, key: Seq<char>) -> Option<Value>
    decreases entries.len(),
{
    if entries.len() == 0 {
        None
    } else if entries[0].0@ == key {
        Some(entries[0].1)
    } else {
        lookup(entries.drop_first(), key)
    }
}

/// The keys of `entries`, in order.
pub open spec fn keys(entries: Seq<(String, Value)>) -> Seq<Seq<char>> {
    entries.map_values(|e: (String, Value)| e.0@)
}

/// The notation of an integer, with a minus sign in front of a negative one.
pub open spec fn int_text(i: int) -> Seq<char> {
    if i < 0 {
        seq!['-'] + decimal((-i) as nat)
    } else {
        decimal(i as nat)
    }
}

/// The notation of a number, as `Display` writes it.
pub open spec fn number_text(n: Number) -> Seq<char> {
    match n {
        Number::PosInt(u) => decimal(u as nat),
        Number::NegInt(i) => int_text(i as int),
        Number::Float(text) => text@,
    }
}

/// Appends the notation of `n` to `out`.
pub fn push_number(out: &mut String, n: &Number)
    ensures
        final(out)@ == old(out)@ + number_text(*n),
{
    match n {
        Number::PosInt(u) => push_decimal(out, *u),
        Number::NegInt(i) => {
            if *i < 0 {
                push_char(out, '-');
                let magnitude: u64 = (0i128 - (*i as i128)) as u64;
                push_decimal(out, magnitude);
            } else {
                push_decimal(out, *i as u64);
            }
        },
        Number::Float(text) => push_str(out, text.as_str()),
    }
}

impl ValueMap {
    /// An empty map.
    pub fn new() -> (res: ValueMap)
        ensures
            res.entries@.len() == 0,
    {
        ValueMap { entries: Vec::new() }
    }

    /// The number of entries.
    pub fn len(&self) -> (res: usize)
        ensures
            res == self.entries@.len(),
    {
        self.entries.len()
    }

    /// Whether the map has no entry.
    pub fn is_empty(&self) -> (res: bool)
        ensures
            res == (self.entries@.len() == 0),
    {
        self.entries.len() == 0
    }

    /// The index of the first entry under `key`, if any.
    fn position(&self, key: &str) -> (res: Option<usize>)
        ensures
            match res {
                Some(i) => i < self.entries@.len() && self.entries@[i as int].0@ == key@
                    && forall|k: int| 0 <= k < i ==> self.entries@[k].0@ != key@,
                None => forall|k: int|
                    0 <= k < self.entries@.len() ==> self.entries@[k].0@ != key@,
            },
    {
        let mut i: usize = 0;
        while i < self.entries.len()
            invariant
                i <= self.entries@.len(),
                forall|k: int| 0 <= k < i ==> self.entries@[k].0@ != key@,
            decreases self.entries.len() - i,
        {
            if str_eq(self.entries[i].0.as_str(), key) {
                return Some(i);
            }
            i = i + 1;
        }
        None
    }

    /// The value stored under `key`.
    pub fn get(&self, key: &str) -> (res: Option<&Value>)
        ensures
            match res {
                Some(v) => lookup(self.entries@, key@) == Some(*v),
                None => lookup(self.entries@, key@) is None,
            },
    {
        let pos = self.position(key);
        proof {
            lemma_lookup_position(self.entries@, key@, pos);
        }
        match pos {
            Some(i) => Some(&self.entries[i].1),
            None => None,
        }
    }

    /// Stores `value` under `key`: the first entry under `key` gets the new value, or a new
    /// entry comes last when there is none.
    pub fn insert(&mut self, key: String, value: Value)
        ensures
            lookup(final(self).entries@, key@) == Some(value),
            forall|k: Seq<char>| k != key@ ==> lookup(final(self).entries@, k) == lookup(old(self).entries@, k),
            keys(final(self).entries@) == (if keys(old(self).entries@).contains(key@) {
                keys(old(self).entries@)
            } else {
                keys(old(self).entries@).push(key@)
            }),
    {
        let pos = self.position(key.as_str());
        let ghost old_entries = self.entries@;
        match pos {
            Some(i) => {
                let ghost k = key@;
                self.entries.set(i, (key, value));
                proof {
                    lemma_lookup_update(old_entries, i as int, k, value);
                    assert(keys(self.entries@) =~= keys(old_entries));
                    assert(keys(old_entries)[i as int] == k);
                }
            },
            None => {
                let ghost k = key@;
                self.entries.push((key, value));
                proof {
                    lemma_lookup_push(old_entries, k, value);
                    assert(keys(self.entries@) =~= keys(old_entries).push(k));
                    assert forall|j: int| 0 <= j < keys(old_entries).len() implies keys(old_entries)[j] != k by {
                    }
                }
            },
        }
    }
}

/// Whether two strings hold the same characters.
pub fn str_eq(a: &str, b: &str) -> (res: bool)
    ensures
        res == (a@ == b@),
{
    let x = chars_of(a);
    let y = chars_of(b);
    if x.len() != y.len() {
        return false;
    }
    let mut i: usize = 0;
    while i < x.len()
        invariant
            i <= x.len(),
            x.len() == y.len(),
            x@ == a@,
            y@ == b@,
            forall|k: int| 0 <= k < i ==> x@[k] == y@[k],
        decreases x.len() - i,
    {
        if x[i] != y[i] {
            return false;
        }
        i = i + 1;
    }
    assert(x@ =~= y@);
    true
}

proof fn lemma_lookup_position(entries: Seq<(String, Value)>, key: Seq<char>, pos: Option<usize>)
    requires
        match pos {
            Some(i) => i < entries.len() && entries[i as int].0@ == key
                && forall|k: int| 0 <= k < i ==> entries[k].0@ != key,
            None => forall|k: int| 0 <= k < entries.len() ==> entries[k].0@ != key,
        },
    ensures
        match pos {
            Some(i) => lookup(entries, key) == Some(entries[i as int].1),
            None => lookup(entries, key) is None,
        },
    decreases entries.len(),
{
    if entries.len() > 0 && entries[0].0@ != key {
        let next = match pos {
            Some(i) => Some((i - 1) as usize),
            None => None,
        };
        lemma_lookup_position(entries.drop_first(), key, next);
    }
}

proof fn lemma_lookup_update(entries: Seq<(String, Value)>, i: int, key: Seq<char>, value: Value)
    requires
        0 <= i < entries.len(),
        entries[i].0@ == key,
        forall|k: int| 0 <= k < i ==> entries[k].0@ != key,
    ensures
        forall|s: String| s@ == key ==> lookup(entries.update(i, (s, value)), key) == Some(value),
        forall|s: String, k: Seq<char>| s@ == key && k != key ==> lookup(entries.update(i, (s, value)), k) == lookup(entries, k),
    decreases entries.len(),
{
    assert forall|s: String| s@ == key implies lookup(entries.update(i, (s, value)), key) == Some(value) by {
        lemma_lookup_update_one(entries, i, s, value);
    }
    assert forall|s: String, k: Seq<char>| s@ == key && k != key implies lookup(entries.update(i, (s, value)), k) == lookup(entries, k) by {
        lemma_lookup_update_other(entries, i, s, value, k);
    }
}

proof fn lemma_lookup_update_one(entries: Seq<(String, Value)>, i: int, s: String, value: Value)
    requires
        0 <= i < entries.len(),
        entries[i].0@ == s@,
        forall|k: int| 0 <= k < i ==> entries[k].0@ != s@,
    ensures
        lookup(entries.update(i, (s, value)), s@) == Some(value),
    decreases entries.len(),
{
    if i > 0 {
        assert(entries.update(i, (s, value)).drop_first() =~= entries.drop_first().update(i - 1, (s, value)));
        lemma_lookup_update_one(entries.drop_first(), i - 1, s, value);
    }
}

proof fn lemma_lookup_update_other(entries: Seq<(String, Value)>, i: int, s: String, value: Value, k: Seq<char>)
    requires
        0 <= i < entries.len(),
        entries[i].0@ == s@,
        k != s@,
    ensures
        lookup(entries.update(i, (s, value)), k) == lookup(entries, k),
    decreases entries.len(),
{
    if i > 0 {
        assert(entries.update(i, (s, value)).drop_first() =~= entries.drop_first().update(i - 1, (s, value)));
        lemma_lookup_update_other(entries.drop_first(), i - 1, s, value, k);
    } else {
        assert(entries.update(i, (s, value)).drop_first() =~= entries.drop_first());
    }
}

proof fn lemma_lookup_push(entries: Seq<(String, Value)>, key: Seq<char>, value: Value)
    requires
        forall|k: int| 0 <= k < entries.len() ==> entries[k].0@ != key,
    ensures
        forall|s: String| s@ == key ==> lookup(entries.push((s, value)), key) == Some(value),
        forall|s: String, k: Seq<char>| s@ == key && k != key ==> lookup(entries.push((s, value)), k) == lookup(entries, k),
    decreases entries.len(),
{
    assert forall|s: String| s@ == key implies lookup(entries.push((s, value)), key) == Some(value) by {
        lemma_lookup_push_one(entries, s, value);
    }
    assert forall|s: String, k: Seq<char>| s@ == key && k != key implies lookup(entries.push((s, value)), k) == lookup(entries, k) by {
        lemma_lookup_push_other(entries, s, value, k);
    }
}

proof fn lemma_lookup_push_one(entries: Seq<(String, Value)>, s: String, value: Value)
    requires
        forall|k: int| 0 <= k < entries.len() ==> entries[k].0@ != s@,
    ensures
        lookup(entries.push((s, value)), s@) == Some(value),
    decreases entries.len(),
{
    if entries.len() > 0 {
        assert(entries.push((s, value)).drop_first() =~= entries.drop_first().push((s, value)));
        lemma_lookup_push_one(entries.drop_first(), s, value);
    }
}

proof fn lemma_lookup_push_other(entries: Seq<(String, Value)>, s: String, value: Value, k: Seq<char>)
    requires
        k != s@,
    ensures
        lookup(entries.push((s, value)), k) == lookup(entries, k),
    decreases entries.len(),
{
    if entries.len() > 0 {
        assert(entries.push((s, value)).drop_first() =~= entries.drop_first().push((s, value)));
        lemma_lookup_push_other(entries.drop_first(), s, value, k);
    } else {
        assert(entries.push((s, value)).drop_first() =~= entries);
    }
}

impl Value {
    /// The map this value holds, if it is one.
    pub fn get_map(&self) -> (res: Option<&ValueMap>)
        ensures
            match *self {
                Value::Object(m) => res == Some(&m),
                _ => res is None,
            },
    {
        match self {
            Value::Object(m) => Some(m),
            _ => None,
        }
    }

    /// The text this value holds, if it is one.
    pub fn get_text(&self) -> (res: Option<&String>)
        ensures
            match *self {
                Value::Text(t) => res == Some(&t),
                _ => res is None,
            },
    {
        match self {
            Value::Text(t) => Some(t),
            _ => None,
        }
    }

    /// The boolean this value holds, if it is one.
    pub fn get_bool(&self) -> (res: Option<bool>)
        ensures
            match *self {
                Value::Bool(b) => res == Some(b),
                _ => res is None,
            },
    {
        match self {
            Value::Bool(b) => Some(*b),
            _ => None,
        }
    }
}

/// A floating point number, held as its IEEE 754 bit pattern (`f64::to_bits`).
#[derive(Copy, Clone, Debug, PartialEq, Eq)]
pub struct FloatBits {
    pub bits: u64,
}

/// A copy of `s`.
pub fn copy_string(s: &String) -> (res: String)
    ensures
        res@ == s@,
{
    s.clone()
}

/// A copy of `v`.
pub fn copy_strings(v: &Vec<String>) -> (res: Vec<String>)
    ensures
        res@.len() == v@.len(),
        forall|i: int| 0 <= i < v@.len() ==> #[trigger] res@[i]@ == v@[i]@,
{
    let mut res: Vec<String> = Vec::new();
    let mut i: usize = 0;
    while i < v.len()
        invariant
            i <= v.len(),
            res@.len() == i,
            forall|k: int| 0 <= k < i ==> #[trigger] res@[k]@ == v@[k]@,
        decreases v.len() - i,
    {
        res.push(copy_string(&v[i]));
        i = i + 1;
    }
    res
}

/// A copy of `n`.
pub fn copy_number(n: &Number) -> (res: Number)
    ensures
        number_view(res) == number_view(*n),
        number_text(res) == number_text(*n),
{
    match n {
        Number::PosInt(u) => Number::PosInt(*u),
        Number::NegInt(i) => Number::NegInt(*i),
        Number::Float(t) => Number::Float(t.clone()),
    }
}

proof fn lemma_items_view_push(items: Seq<Value>, v: Value)
    ensures
        items_view(items.push(v)) == items_view(items).push(value_view(v)),
{
    assert(items.push(v).subrange(0, items.len() as int) =~= items);
}

proof fn lemma_entries_view_push(entries: Seq<(String, Value)>, e: (String, Value))
    ensures
        entries_view(entries.push(e)) == entries_view(entries).push((e.0@, value_view(e.1))),
{
    assert(entries.push(e).subrange(0, entries.len() as int) =~= entries);
}

proof fn lemma_items_view_prefix(items: Seq<Value>, i: int)
    requires
        0 <= i < items.len(),
    ensures
        items_view(items.subrange(0, i + 1)) == items_view(items.subrange(0, i)).push(value_view(items[i])),
{
    assert(items.subrange(0, i + 1).subrange(0, i) =~= items.subrange(0, i));
}

proof fn lemma_entries_view_prefix(entries: Seq<(String, Value)>, i: int)
    requires
        0 <= i < entries.len(),
    ensures
        entries_view(entries.subrange(0, i + 1)) == entries_view(entries.subrange(0, i)).push(
            (entries[i].0@, value_view(entries[i].1)),
        ),
{
    assert(entries.subrange(0, i + 1).subrange(0, i) =~= entries.subrange(0, i));
}

/// A copy of `v`.
pub fn copy_value(v: &Value) -> (res: Value)
    ensures
        res@ == v@,
    decreases *v, 1nat,
{
    match v {
        Value::Object(m) => Value::Object(copy_map(m)),
        Value::Array(a) => {
            let mut items: Vec<Value> = Vec::new();
            let mut i: usize = 0;
            while i < a.len()
                invariant
                    i <= a.len(),
                    *v == Value::Array(*a),
                    items_view(items@) == items_view(a@.subrange(0, i as int)),
                decreases a.len() - i,
            {
                assert(decreases_to!(*v => (*v)->Array_0));
                assert(decreases_to!((*v)->Array_0 => (*v)->Array_0@));
                assert(decreases_to!((*v)->Array_0@ => (*v)->Array_0@[i as int]));
                let item = copy_value(&a[i]);
                proof {
                    lemma_items_view_push(items@, item);
                    lemma_items_view_prefix(a@, i as int);
                }
                items.push(item);
                i = i + 1;
            }
            assert(a@.subrange(0, a.len() as int) =~= a@);
            Value::Array(items)
        },
        Value::Text(t) => Value::Text(t.clone()),
        Value::Number(n) => Value::Number(copy_number(n)),
        Value::Bool(b) => Value::Bool(*b),
        Value::Null => Value::Null,
    }
}

/// A copy of `m`.
pub fn copy_map(m: &ValueMap) -> (res: ValueMap)
    ensures
        res@ == m@,
    decreases *m, 0nat,
{
    let mut entries: Vec<(String, Value)> = Vec::new();
    let mut i: usize = 0;
    while i < m.entries.len()
        invariant
            i <= m.entries.len(),
            entries_view(entries@) == entries_view(m.entries@.subrange(0, i as int)),
        decreases m.entries.len() - i,
    {
        assert(decreases_to!(*m => m.entries@[i as int].1));
        let key = m.entries[i].0.clone();
        let value = copy_value(&m.entries[i].1);
        proof {
            lemma_entries_view_push(entries@, (key, value));
            lemma_entries_view_prefix(m.entries@, i as int);
        }
        entries.push((key, value));
        i = i + 1;
    }
    assert(m.entries@.subrange(0, m.entries.len() as int) =~= m.entries@);
    ValueMap { entries }
}

/// A copy of `m`, if there is one.
pub fn copy_opt_map(m: &Option<ValueMap>) -> (res: Option<ValueMap>)
    ensures
        res is Some == m is Some,
        res is Some ==> res->0@ == m->0@,
{
    match m {
        Some(m) => Some(copy_map(m)),
        None => None,
    }
}

/// A copy of `s`, if there is one.
pub fn copy_opt_string(s: &Option<String>) -> (res: Option<String>)
    ensures
        res == *s,
{
    match s {
        Some(s) => Some(s.clone()),
        None => None,
    }
}

} // verus!
