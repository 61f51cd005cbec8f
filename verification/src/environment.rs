//! The variables that a template reads, and the values bound to them.

use crate::plain::chars_of;
use crate::text::text_eq;
use crate::types::{numbers, signed_numbers};
use vstd::prelude::*;
use vstd::string::*;

verus! {

/// A value that a template variable can hold.
#[derive(Clone, Debug, PartialEq)]
pub enum Value {
    Int(i64),
    UInt(u64),
    Text(String),
    IntList(Vec<i64>),
    UIntList(Vec<u64>),
    UIntTable(Vec<Vec<u64>>),
    TextList(Vec<String>),
}

/// What a template sees of a value: a number, a text, or a list of values.
/// There is one kind of list, so that a list without elements is one value,
/// whatever it was meant to hold.
pub enum ValueView {
    Number(int),
    Text(Seq<char>),
    List(Seq<ValueView>),
}

impl ValueView {
    /// The list of the given numbers.
    pub open spec fn numbers(items: Seq<int>) -> ValueView {
        ValueView::List(Seq::new(items.len(), |i: int| ValueView::Number(items[i])))
    }

    /// The list of the given texts.
    pub open spec fn texts(items: Seq<Seq<char>>) -> ValueView {
        ValueView::List(Seq::new(items.len(), |i: int| ValueView::Text(items[i])))
    }

    /// The list of the given rows, each a list of numbers.
    pub open spec fn rows(items: Seq<Seq<int>>) -> ValueView {
        ValueView::List(Seq::new(items.len(), |i: int| ValueView::numbers(items[i])))
    }
}

/// The rows of integers that rows of machine words hold.
pub open spec fn table(rows: Seq<Vec<u64>>) -> Seq<Seq<int>> {
    Seq::new(rows.len(), |i: int| numbers(rows[i]@))
}

impl View for Value {
    type V = ValueView;

    open spec fn view(&self) -> ValueView {
        match self {
            Value::Int(i) => ValueView::Number(*i as int),
            Value::UInt(u) => ValueView::Number(*u as int),
            Value::Text(s) => ValueView::Text(s@),
            Value::IntList(l) => ValueView::numbers(signed_numbers(l@)),
            Value::UIntList(l) => ValueView::numbers(numbers(l@)),
            Value::UIntTable(t) => ValueView::rows(table(t@)),
            Value::TextList(l) => ValueView::texts(l.deep_view()),
        }
    }
}

/// A variable and its value.
#[derive(Clone, Debug, PartialEq)]
pub struct Binding {
    pub name: String,
    pub value: Value,
}

/// The variables of an environment by name.
pub type Bindings = Map<Seq<char>, ValueView>;

/// The variables that the first `upto` bindings of a list define, a later
/// binding of a name replacing an earlier one.
pub open spec fn bound(bindings: Seq<Binding>, upto: int) -> Bindings
    decreases upto,
{
    if upto <= 0 {
        Map::empty()
    } else {
        bound(bindings, upto - 1).insert(bindings[upto - 1].name@, bindings[upto - 1].value@)
    }
}

/// The bindings of variables in the order in which they were made.
#[derive(Clone, Debug, PartialEq)]
pub struct Environment {
    pub bindings: Vec<Binding>,
}

impl View for Environment {
    type V = Bindings;

    open spec fn view(&self) -> Bindings {
        bound(self.bindings@, self.bindings@.len() as int)
    }
}

proof fn lemma_bound_prefix(a: Seq<Binding>, b: Seq<Binding>, upto: int)
    requires
        0 <= upto <= a.len(),
        upto <= b.len(),
        forall|i: int| 0 <= i < upto ==> a[i] == b[i],
    ensures
        bound(a, upto) == bound(b, upto),
    decreases upto,
{
    if upto > 0 {
        lemma_bound_prefix(a, b, upto - 1);
    }
}

proof fn lemma_bound_lookup(bindings: Seq<Binding>, upto: int, name: Seq<char>, at: int)
    requires
        0 <= upto <= bindings.len(),
        -1 <= at < upto,
        at >= 0 ==> bindings[at].name@ == name,
        forall|j: int| at < j < upto ==> bindings[j].name@ != name,
    ensures
        at >= 0 ==> bound(bindings, upto).dom().contains(name) && bound(bindings, upto)[name]
            == bindings[at].value@,
        at < 0 ==> !bound(bindings, upto).dom().contains(name),
    decreases upto,
{
    if upto > 0 && at < upto - 1 {
        lemma_bound_lookup(bindings, upto - 1, name, at);
    }
}

impl Environment {
    /// An environment without variables.
    pub fn new() -> (r: Environment)
        ensures
            r@ == Bindings::empty(),
    {
        Environment { bindings: Vec::new() }
    }

    /// Binds `name` to `value`, in place of what it was bound to.
    pub fn bind(&mut self, name: &str, value: Value)
        ensures
            final(self)@ == old(self)@.insert(name@, value@),
    {
        let ghost before = self.bindings@;
        self.bindings.push(Binding { name: String::from_str(name), value });
        proof {
            lemma_bound_prefix(before, self.bindings@, before.len() as int);
        }
    }

    /// The value that `name` is bound to.
    pub fn get(&self, name: &str) -> (r: Option<&Value>)
        ensures
            match r {
                Some(value) => self@.dom().contains(name@) && self@[name@] == value@,
                None => !self@.dom().contains(name@),
            },
    {
        let mut k: usize = self.bindings.len();
        while k > 0
            invariant
                k <= self.bindings.len(),
                forall|j: int| k <= j < self.bindings.len() ==> self.bindings@[j].name@ != name@,
            decreases k,
        {
            k -= 1;
            if text_eq(self.bindings[k].name.as_str(), name) {
                proof {
                    lemma_bound_lookup(
                        self.bindings@,
                        self.bindings@.len() as int,
                        name@,
                        k as int,
                    );
                }
                return Some(&self.bindings[k].value);
            }
        }
        proof {
            lemma_bound_lookup(self.bindings@, self.bindings@.len() as int, name@, -1);
        }
        None
    }
}

/// Whether a character is a printable one of the first 128, a tabulator or a
/// line feed. In a text of such characters every character stands by itself,
/// so that a loop over the text takes as many steps as it has characters.
pub open spec fn is_simple_char(c: char) -> bool {
    (0x20 <= c as u32 <= 0x7e) || c == '\t' || c == '\n'
}

/// Whether a text holds simple characters only.
pub open spec fn is_simple_text(text: Seq<char>) -> bool {
    forall|i: int| 0 <= i < text.len() ==> is_simple_char(#[trigger] text[i])
}

/// Whether a value is a number, a simple text, or a list of numbers, simple
/// texts and lists of numbers.
pub open spec fn is_simple_value(value: ValueView) -> bool {
    match value {
        ValueView::Number(_) => true,
        ValueView::Text(text) => is_simple_text(text),
        ValueView::List(items) => forall|i: int|
            0 <= i < items.len() ==> match #[trigger] items[i] {
                ValueView::Number(_) => true,
                ValueView::Text(text) => is_simple_text(text),
                ValueView::List(row) => forall|j: int|
                    0 <= j < row.len() ==> (#[trigger] row[j]) is Number,
            },
    }
}

/// Whether every variable holds a simple value.
pub open spec fn is_simple(bindings: Bindings) -> bool {
    forall|name: Seq<char>| bindings.dom().contains(name) ==> is_simple_value(#[trigger] bindings[name])
}

proof fn lemma_bound_source(bindings: Seq<Binding>, upto: int, name: Seq<char>) -> (at: int)
    requires
        0 <= upto <= bindings.len(),
        bound(bindings, upto).dom().contains(name),
    ensures
        0 <= at < upto,
        bindings[at].name@ == name,
        bound(bindings, upto)[name] == bindings[at].value@,
        forall|j: int| at < j < upto ==> bindings[j].name@ != name,
    decreases upto,
{
    if bindings[upto - 1].name@ == name {
        upto - 1
    } else {
        lemma_bound_source(bindings, upto - 1, name)
    }
}

/// Whether a text holds simple characters only.
pub fn text_is_simple(text: &str) -> (r: bool)
    ensures
        r == is_simple_text(text@),
{
    let chars = chars_of(text);
    let mut i: usize = 0;
    while i < chars.len()
        invariant
            i <= chars.len(),
            chars@ == text@,
            forall|j: int| 0 <= j < i ==> is_simple_char(#[trigger] text@[j]),
        decreases chars.len() - i,
    {
        let c = chars[i];
        let code = c as u32;
        if !((0x20 <= code && code <= 0x7e) || c == '\t' || c == '\n') {
            return false;
        }
        i += 1;
    }
    true
}

impl Value {
    /// Whether the value is simple.
    #[verifier::loop_isolation(false)]
    pub fn is_simple(&self) -> (r: bool)
        ensures
            r == is_simple_value(self@),
    {
        match self {
            Value::Text(text) => text_is_simple(text.as_str()),
            Value::TextList(texts) => {
                let mut i: usize = 0;
                while i < texts.len()
                    invariant
                        i <= texts.len(),
                        forall|j: int| 0 <= j < i ==> is_simple_text(#[trigger] texts@[j]@),
                    decreases texts.len() - i,
                {
                    if !text_is_simple(texts[i].as_str()) {
                        assert(texts.deep_view()[i as int] == texts@[i as int]@);
                        assert(self@->List_0[i as int] == ValueView::Text(texts@[i as int]@));
                        return false;
                    }
                    i += 1;
                }
                assert forall|k: int| 0 <= k < texts.deep_view().len() implies is_simple_text(
                    #[trigger] texts.deep_view()[k],
                ) by {
                    assert(texts.deep_view()[k] == texts@[k]@);
                }
                true
            },
            _ => true,
        }
    }
}

impl Environment {
    /// Whether every variable holds a simple value.
    pub fn is_simple(&self) -> (r: bool)
        ensures
            r == is_simple(self@),
    {
        let n = self.bindings.len();
        let mut i: usize = 0;
        while i < n
            invariant
                i <= n,
                n == self.bindings@.len(),
                forall|j: int|
                    0 <= j < i && (forall|k: int|
                        j < k < n ==> self.bindings@[k].name@ != self.bindings@[j].name@)
                        ==> is_simple_value(#[trigger] self.bindings@[j].value@),
            decreases n - i,
        {
            if !self.bindings[i].value.is_simple() {
                let mut replaced = false;
                let mut k: usize = i + 1;
                while k < n
                    invariant
                        i < k <= n,
                        n == self.bindings@.len(),
                        replaced <==> exists|j: int|
                            i < j < k && self.bindings@[j].name@ == self.bindings@[i as int].name@,
                    decreases n - k,
                {
                    if text_eq(self.bindings[k].name.as_str(), self.bindings[i].name.as_str()) {
                        replaced = true;
                    }
                    k += 1;
                }
                if !replaced {
                    proof {
                        lemma_bound_lookup(
                            self.bindings@,
                            n as int,
                            self.bindings@[i as int].name@,
                            i as int,
                        );
                    }
                    return false;
                }
            }
            i += 1;
        }
        proof {
            assert forall|name: Seq<char>| self@.dom().contains(name) implies is_simple_value(
                #[trigger] self@[name],
            ) by {
                let at = lemma_bound_source(self.bindings@, n as int, name);
                assert(is_simple_value(self.bindings@[at].value@));
            }
        }
        true
    }
}

} // verus!
