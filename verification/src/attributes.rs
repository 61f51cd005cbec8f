//! Operator nodes and the typed reading of their attributes.

use crate::text::text_eq;
use vstd::prelude::*;
use vstd::string::*;

verus! {

/// A real number, held as the decimal literal that is written into shader
/// source. The compiler hands such numbers on and never computes with them.
#[derive(Clone, Debug, PartialEq, Eq)]
pub struct Real(pub String);

impl DeepView for Real {
    type V = Seq<char>;

    open spec fn deep_view(&self) -> Seq<char> {
        self.0@
    }
}

/// The value of an attribute, tagged with its kind.
#[derive(Clone, Debug, PartialEq)]
pub enum AttributeValue {
    Int(i64),
    Real(Real),
    Text(String),
    Ints(Vec<i64>),
    Reals(Vec<Real>),
}

/// The mathematical value of an attribute value.
pub enum AttributeValueView {
    Int(i64),
    Real(Seq<char>),
    Text(Seq<char>),
    Ints(Seq<i64>),
    Reals(Seq<Seq<char>>),
}

impl DeepView for AttributeValue {
    type V = AttributeValueView;

    open spec fn deep_view(&self) -> AttributeValueView {
        match self {
            AttributeValue::Int(i) => AttributeValueView::Int(*i),
            AttributeValue::Real(r) => AttributeValueView::Real(r.deep_view()),
            AttributeValue::Text(s) => AttributeValueView::Text(s@),
            AttributeValue::Ints(l) => AttributeValueView::Ints(l@),
            AttributeValue::Reals(l) => AttributeValueView::Reals(l.deep_view()),
        }
    }
}

/// A named attribute of a node.
#[derive(Clone, Debug, PartialEq)]
pub struct Attribute {
    pub name: String,
    pub value: AttributeValue,
}

/// The mathematical value of an attribute.
pub struct AttributeView {
    pub name: Seq<char>,
    pub value: AttributeValueView,
}

impl DeepView for Attribute {
    type V = AttributeView;

    open spec fn deep_view(&self) -> AttributeView {
        AttributeView { name: self.name@, value: self.value.deep_view() }
    }
}

/// One operator of a graph: its operator type, the names of the tensors it
/// reads and writes, and its attributes.
#[derive(Clone, Debug, PartialEq)]
pub struct Node {
    pub op_type: String,
    pub inputs: Vec<String>,
    pub outputs: Vec<String>,
    pub attributes: Vec<Attribute>,
}

/// The mathematical value of a node.
pub struct NodeView {
    pub op_type: Seq<char>,
    pub inputs: Seq<Seq<char>>,
    pub outputs: Seq<Seq<char>>,
    pub attributes: Seq<AttributeView>,
}

impl View for Node {
    type V = NodeView;

    open spec fn view(&self) -> NodeView {
        NodeView {
            op_type: self.op_type@,
            inputs: self.inputs.deep_view(),
            outputs: self.outputs.deep_view(),
            attributes: self.attributes.deep_view(),
        }
    }
}

/// A required attribute that a node does not have.
#[derive(Clone, Debug, PartialEq, Eq)]
pub struct AttributeNotFoundError {
    pub attribute: String,
    pub op_type: String,
}

/// The mathematical value of the error.
pub struct AttributeNotFoundErrorView {
    pub attribute: Seq<char>,
    pub op_type: Seq<char>,
}

impl View for AttributeNotFoundError {
    type V = AttributeNotFoundErrorView;

    open spec fn view(&self) -> AttributeNotFoundErrorView {
        AttributeNotFoundErrorView { attribute: self.attribute@, op_type: self.op_type@ }
    }
}

/// The value of the first attribute named `name` at or after position `from`.
pub open spec fn find_attribute_from(
    attributes: Seq<AttributeView>,
    name: Seq<char>,
    from: int,
) -> Option<AttributeValueView>
    decreases attributes.len() - from,
{
    if from < 0 || from >= attributes.len() {
        None
    } else if attributes[from].name == name {
        Some(attributes[from].value)
    } else {
        find_attribute_from(attributes, name, from + 1)
    }
}

/// The value of the first attribute named `name`.
pub open spec fn find_attribute(attributes: Seq<AttributeView>, name: Seq<char>) -> Option<
    AttributeValueView,
> {
    find_attribute_from(attributes, name, 0)
}

/// A type that an attribute can be read as. A value of another kind reads as
/// the zero or the empty value of the type, as an absent field of the exchange
/// format does.
pub trait AttributeType: DeepView + Sized {
    spec fn decoded(value: AttributeValueView) -> Self::V;

    fn decode(value: &AttributeValue) -> (r: Self)
        ensures
            r.deep_view() == Self::decoded(value.deep_view()),
    ;
}

impl AttributeType for i64 {
    open spec fn decoded(value: AttributeValueView) -> i64 {
        match value {
            AttributeValueView::Int(i) => i,
            _ => 0,
        }
    }

    fn decode(value: &AttributeValue) -> (r: i64) {
        match value {
            AttributeValue::Int(i) => *i,
            _ => 0,
        }
    }
}

impl AttributeType for Real {
    open spec fn decoded(value: AttributeValueView) -> Seq<char> {
        match value {
            AttributeValueView::Real(r) => r,
            _ => "0"@,
        }
    }

    fn decode(value: &AttributeValue) -> (r: Real) {
        match value {
            AttributeValue::Real(r) => Real(r.0.clone()),
            _ => Real(String::from_str("0")),
        }
    }
}

impl AttributeType for String {
    open spec fn decoded(value: AttributeValueView) -> Seq<char> {
        match value {
            AttributeValueView::Text(s) => s,
            _ => Seq::empty(),
        }
    }

    fn decode(value: &AttributeValue) -> (r: String) {
        match value {
            AttributeValue::Text(s) => s.clone(),
            _ => String::new(),
        }
    }
}

impl AttributeType for Vec<i64> {
    open spec fn decoded(value: AttributeValueView) -> Seq<i64> {
        match value {
            AttributeValueView::Ints(l) => l,
            _ => Seq::empty(),
        }
    }

    fn decode(value: &AttributeValue) -> (r: Vec<i64>) {
        let mut out: Vec<i64> = Vec::new();
        match value {
            AttributeValue::Ints(l) => {
                let mut i: usize = 0;
                while i < l.len()
                    invariant
                        i <= l.len(),
                        out@ == l@.subrange(0, i as int),
                    decreases l.len() - i,
                {
                    out.push(l[i]);
                    assert(out@ =~= l@.subrange(0, i + 1));
                    i += 1;
                }
                assert(out@ =~= l@);
            },
            _ => {},
        }
        assert(out.deep_view() =~= out@);
        out
    }
}

impl AttributeType for Vec<Real> {
    open spec fn decoded(value: AttributeValueView) -> Seq<Seq<char>> {
        match value {
            AttributeValueView::Reals(l) => l,
            _ => Seq::empty(),
        }
    }

    fn decode(value: &AttributeValue) -> (r: Vec<Real>) {
        let mut out: Vec<Real> = Vec::new();
        match value {
            AttributeValue::Reals(l) => {
                let mut i: usize = 0;
                while i < l.len()
                    invariant
                        i <= l.len(),
                        out@.len() == i,
                        forall|j: int| 0 <= j < i ==> (#[trigger] out@[j]).0@ == l@[j].0@,
                    decreases l.len() - i,
                {
                    out.push(Real(l[i].0.clone()));
                    i += 1;
                }
                assert(out.deep_view() =~= l.deep_view());
            },
            _ => {
                assert(out.deep_view() =~= Seq::<Seq<char>>::empty());
            },
        }
        out
    }
}

/// What reading the attribute `name` of a node as a `T` gives: the value of the
/// attribute where the node has one, else the default, else an error.
pub open spec fn attribute_of<T: AttributeType>(
    node: NodeView,
    name: Seq<char>,
    default: Option<T::V>,
) -> Result<T::V, AttributeNotFoundErrorView> {
    match find_attribute(node.attributes, name) {
        Some(value) => Ok(T::decoded(value)),
        None => match default {
            Some(d) => Ok(d),
            None => Err(AttributeNotFoundErrorView { attribute: name, op_type: node.op_type }),
        },
    }
}

/// Reads the attribute `attribute` of `node` as a `T`.
pub fn get_attribute<T: AttributeType>(attribute: &str, default: Option<T>, node: &Node) -> (r:
    Result<T, AttributeNotFoundError>)
    ensures
        match attribute_of::<T>(node@, attribute@, default.deep_view()) {
            Ok(value) => r is Ok && r->Ok_0.deep_view() == value,
            Err(e) => r is Err && r->Err_0@ == e,
        },
{
    let ghost all = node@.attributes;
    let mut i: usize = 0;
    while i < node.attributes.len()
        invariant
            i <= node.attributes.len(),
            all == node@.attributes,
            find_attribute(all, attribute@) == find_attribute_from(all, attribute@, i as int),
        decreases node.attributes.len() - i,
    {
        assert(all[i as int] == node.attributes[i as int].deep_view());
        if text_eq(node.attributes[i].name.as_str(), attribute) {
            return Ok(T::decode(&node.attributes[i].value));
        }
        i += 1;
    }
    match default {
        Some(d) => Ok(d),
        None => Err(
            AttributeNotFoundError {
                attribute: String::from_str(attribute),
                op_type: node.op_type.clone(),
            },
        ),
    }
}

} // verus!
