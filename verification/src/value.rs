//! The values that a configuration file holds, and how they are read as the
//! type that a field is declared with.

use vstd::prelude::*;

verus! {

/// One value of a configuration file: a scalar, or a table of named values.
#[derive(Debug, PartialEq, Eq)]
pub enum Value {
    /// A string.
    String(String),
    /// A boolean.
    Boolean(bool),
    /// A signed integer.
    Integer(i64),
    /// A table: named values, in the order in which the file gives them.
    Table(Vec<(String, Value)>),
}

/// A value as contracts see it, with every text as a sequence of characters.
pub enum ValueView {
    String(Seq<char>),
    Boolean(bool),
    Integer(int),
    Table(TableView),
}

/// Named values as contracts see them, in the order of the file.
pub type TableView = Seq<(Seq<char>, ValueView)>;

/// What `value` holds.
pub open spec fn value_view(value: Value) -> ValueView
    decreases value,
{
    match value {
        Value::String(s) => ValueView::String(s@),
        Value::Boolean(b) => ValueView::Boolean(b),
        Value::Integer(i) => ValueView::Integer(i as int),
        Value::Table(entries) => ValueView::Table(entries_view(entries@)),
    }
}

/// What `entries` hold: the name and the value of each, in order.
pub open spec fn entries_view(entries: Seq<(String, Value)>) -> TableView
    decreases entries,
{
    Seq::new(
        entries.len(),
        |i: int|
            if 0 <= i < entries.len() {
                (entries[i].0@, value_view(entries[i].1))
            } else {
                (Seq::<char>::empty(), ValueView::Boolean(false))
            },
    )
}

impl View for Value {
    type V = ValueView;

    open spec fn view(&self) -> ValueView {
        value_view(*self)
    }
}

/// The value that `entries` give to `key`: that of the first entry of that
/// name, or nothing where no entry has it.
pub open spec fn lookup(entries: TableView, key: Seq<char>) -> Option<ValueView>
    decreases entries.len(),
{
    if entries.len() == 0 {
        None
    } else if entries[0].0 == key {
        Some(entries[0].1)
    } else {
        lookup(entries.drop_first(), key)
    }
}

/// What a name finds is the value of the first entry of that name, and a
/// name finds nothing exactly if no entry has it.
pub proof fn lemma_lookup_first(entries: TableView, key: Seq<char>)
    ensures
        match lookup(entries, key) {
            Some(value) => exists|i: int|
                0 <= i < entries.len() && entries[i] == (key, value) && forall|j: int|
                    0 <= j < i ==> entries[j].0 != key,
            None => forall|i: int| 0 <= i < entries.len() ==> entries[i].0 != key,
        },
    decreases entries.len(),
{
    if entries.len() > 0 && entries[0].0 != key {
        let rest = entries.drop_first();
        lemma_lookup_first(rest, key);
        match lookup(rest, key) {
            Some(value) => {
                let i = choose|i: int|
                    0 <= i < rest.len() && rest[i] == (key, value) && forall|j: int|
                        0 <= j < i ==> rest[j].0 != key;
                assert forall|j: int| 0 < j < i + 1 implies entries[j].0 != key by {
                    assert(rest[j - 1] == entries[j]);
                }
                assert(entries[i + 1] == (key, value));
            },
            None => {
                assert forall|i: int| 0 < i < entries.len() implies entries[i].0 != key by {
                    assert(rest[i - 1] == entries[i]);
                }
            },
        }
    }
}

/// The text `true` reads as true and `false` as false; nothing else is a boolean.
pub open spec fn bool_named(text: Seq<char>) -> Option<bool> {
    if text == "true"@ {
        Some(true)
    } else if text == "false"@ {
        Some(false)
    } else {
        None
    }
}

/// The character that stands for the digit `d`.
pub open spec fn digit_char(d: int) -> char {
    if d == 0 {
        '0'
    } else if d == 1 {
        '1'
    } else if d == 2 {
        '2'
    } else if d == 3 {
        '3'
    } else if d == 4 {
        '4'
    } else if d == 5 {
        '5'
    } else if d == 6 {
        '6'
    } else if d == 7 {
        '7'
    } else if d == 8 {
        '8'
    } else {
        '9'
    }
}

/// The decimal digits of `n`, most significant first, without leading zeros.
pub open spec fn digits(n: nat) -> Seq<char>
    decreases n,
{
    if n < 10 {
        seq![digit_char(n as int)]
    } else {
        digits(n / 10).push(digit_char((n % 10) as int))
    }
}

/// The decimal text of `i`: its digits, after a minus sign where it is negative.
pub open spec fn decimal(i: int) -> Seq<char> {
    if i < 0 {
        seq!['-'] + digits((-i) as nat)
    } else {
        digits(i as nat)
    }
}

/// The digits of `n` followed by `suffix`, where no digits stand for zero.
spec fn digits_before(n: nat, suffix: Seq<char>) -> Seq<char> {
    if n == 0 {
        suffix
    } else {
        digits(n) + suffix
    }
}

impl ValueView {
    /// The value that this table gives to `name`. A scalar has no fields.
    pub open spec fn field(self, name: Seq<char>) -> Option<ValueView> {
        match self {
            ValueView::Table(entries) => lookup(entries, name),
            _ => None,
        }
    }

    /// The text that stands for this value: a string is its own text, a
    /// boolean is `true` or `false`, an integer is its decimal text. A table
    /// has no text.
    pub open spec fn text(self) -> Option<Seq<char>> {
        match self {
            ValueView::String(s) => Some(s),
            ValueView::Boolean(b) => Some(
                if b {
                    "true"@
                } else {
                    "false"@
                },
            ),
            ValueView::Integer(i) => Some(decimal(i)),
            ValueView::Table(_) => None,
        }
    }

    /// The boolean that this value stands for: a boolean is itself, and a
    /// string is one where its text reads as a boolean. Nothing else is.
    pub open spec fn truth(self) -> Option<bool> {
        match self {
            ValueView::Boolean(b) => Some(b),
            ValueView::String(s) => bool_named(s),
            _ => None,
        }
    }
}

impl Clone for Value {
    /// A copy of this value, with a copy of everything in it.
    fn clone(&self) -> (r: Self)
        ensures
            r@ == self@,
        decreases self,
    {
        match self {
            Value::String(s) => Value::String(s.clone()),
            Value::Boolean(b) => Value::Boolean(*b),
            Value::Integer(i) => Value::Integer(*i),
            Value::Table(entries) => Value::Table(copy_entries(entries)),
        }
    }
}

/// A copy of `entries`, with a copy of everything in them.
pub fn copy_entries(entries: &Vec<(String, Value)>) -> (r: Vec<(String, Value)>)
    ensures
        entries_view(r@) == entries_view(entries@),
    decreases entries,
{
    let mut copied: Vec<(String, Value)> = Vec::new();
    let mut i: usize = 0;
    while i < entries.len()
        invariant
            i <= entries.len(),
            copied@.len() == i,
            forall|j: int|
                0 <= j < i ==> copied@[j].0@ == entries@[j].0@ && copied@[j].1@ == entries@[j].1@,
        decreases entries.len() - i,
    {
        let name = entries[i].0.clone();
        let value = entries[i].1.clone();
        copied.push((name, value));
        i += 1;
    }
    copied
}

impl Value {
    /// Looks `name` up in this table.
    pub fn get(&self, name: &str) -> (r: Option<&Value>)
        ensures
            match r {
                Some(v) => self@.field(name@) == Some(v@),
                None => self@.field(name@) is None,
            },
    {
        match self {
            Value::Table(entries) => find(entries, name),
            _ => None,
        }
    }

    /// Reads this value as text, for a field that is declared as a string
    /// or as a path.
    pub fn to_text(&self) -> (r: Option<String>)
        ensures
            match r {
                Some(t) => self@.text() == Some(t@),
                None => self@.text() is None,
            },
    {
        match self {
            Value::String(s) => Some(s.clone()),
            Value::Boolean(b) => {
                if *b {
                    Some("true".to_owned())
                } else {
                    Some("false".to_owned())
                }
            },
            Value::Integer(i) => Some(integer_text(*i)),
            Value::Table(_) => None,
        }
    }

    /// Reads this value as a boolean, for a field that is declared as one.
    pub fn to_bool(&self) -> (r: Option<bool>)
        ensures
            r == self@.truth(),
    {
        match self {
            Value::Boolean(b) => Some(*b),
            Value::String(s) => parse_bool(s.as_str()),
            _ => None,
        }
    }
}

/// Finds the value of the first entry named `key`.
pub fn find<'a>(entries: &'a Vec<(String, Value)>, key: &str) -> (r: Option<&'a Value>)
    ensures
        match r {
            Some(v) => lookup(entries_view(entries@), key@) == Some(v@),
            None => lookup(entries_view(entries@), key@) is None,
        },
{
    let wanted: String = key.to_owned();
    let ghost table = entries_view(entries@);
    let mut i: usize = 0;
    assert(table.skip(0) =~= table);
    while i < entries.len()
        invariant
            i <= entries.len(),
            wanted@ == key@,
            table == entries_view(entries@),
            lookup(table, key@) == lookup(table.skip(i as int), key@),
        decreases entries.len() - i,
    {
        assert(table.skip(i as int).drop_first() =~= table.skip(i + 1));
        if entries[i].0 == wanted {
            return Some(&entries[i].1);
        }
        i += 1;
    }
    None
}

/// Reads `true` or `false`; any other text is no boolean.
pub fn parse_bool(text: &str) -> (r: Option<bool>)
    ensures
        r == bool_named(text@),
{
    let owned: String = text.to_owned();
    if owned == "true".to_owned() {
        Some(true)
    } else if owned == "false".to_owned() {
        Some(false)
    } else {
        None
    }
}

/// The one-character text of a digit.
fn digit_text(d: u64) -> (r: &'static str)
    requires
        d < 10,
    ensures
        r@ == seq![digit_char(d as int)],
{
    proof {
        reveal_strlit("0");
        reveal_strlit("1");
        reveal_strlit("2");
        reveal_strlit("3");
        reveal_strlit("4");
        reveal_strlit("5");
        reveal_strlit("6");
        reveal_strlit("7");
        reveal_strlit("8");
        reveal_strlit("9");
    }
    if d == 0 {
        "0"
    } else if d == 1 {
        "1"
    } else if d == 2 {
        "2"
    } else if d == 3 {
        "3"
    } else if d == 4 {
        "4"
    } else if d == 5 {
        "5"
    } else if d == 6 {
        "6"
    } else if d == 7 {
        "7"
    } else if d == 8 {
        "8"
    } else {
        "9"
    }
}

/// Writes an integer in decimal.
pub fn integer_text(i: i64) -> (r: String)
    ensures
        r@ == decimal(i as int),
{
    let negative: bool = i < 0;
    let magnitude: u64 = if negative {
        (-(i + 1)) as u64 + 1
    } else {
        i as u64
    };
    let mut text: String = digit_text(magnitude % 10).to_owned();
    let mut rest: u64 = magnitude / 10;
    while rest > 0
        invariant
            digits(magnitude as nat) == digits_before(rest as nat, text@),
        decreases rest,
    {
        text = digit_text(rest % 10).to_owned().concat(text.as_str());
        rest = rest / 10;
    }
    if negative {
        proof {
            reveal_strlit("-");
        }
        text = "-".to_owned().concat(text.as_str());
    }
    text
}

} // verus!
