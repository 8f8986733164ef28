//! Typed field values and validation predicates.
//!
//! A configuration field holds one [`Value`]: a text, an integer, a boolean
//! or a list of integers. [`ValueModel`] is the mathematical image of a
//! value, used by every contract; [`Pred`] is the small language of
//! validation predicates a schema can attach to a field.

use vstd::prelude::*;
use vstd::string::StrSliceExecFns;

verus! {

/// The kinds of values a configuration field can hold.
#[derive(Clone, Copy, PartialEq, Eq, Structural, Debug)]
pub enum TypeTag {
    TText,
    TInt,
    TBool,
    TIntList,
}

/// Mathematical image of a [`Value`]: text as a sequence of characters,
/// a list as a sequence of integers.
pub enum ValueModel {
    Text(Seq<char>),
    Int(i64),
    Bool(bool),
    IntList(Seq<i64>),
}

/// A concrete value held by one configuration field.
#[derive(Debug)]
pub enum Value {
    VText(String),
    VInt(i64),
    VBool(bool),
    VIntList(Vec<i64>),
}

impl View for Value {
    type V = ValueModel;

    open spec fn view(&self) -> ValueModel {
        match self {
            Value::VText(s) => ValueModel::Text(s@),
            Value::VInt(n) => ValueModel::Int(*n),
            Value::VBool(b) => ValueModel::Bool(*b),
            Value::VIntList(l) => ValueModel::IntList(l@),
        }
    }
}

/// The kind of a value, used to tie runtime values to their declared type.
pub open spec fn tag_of(v: ValueModel) -> TypeTag {
    match v {
        ValueModel::Text(_) => TypeTag::TText,
        ValueModel::Int(_) => TypeTag::TInt,
        ValueModel::Bool(_) => TypeTag::TBool,
        ValueModel::IntList(_) => TypeTag::TIntList,
    }
}

impl Value {
    /// An identical copy of the value.
    pub fn duplicate(&self) -> (r: Value)
        ensures
            r@ == self@,
    {
        match self {
            Value::VText(s) => Value::VText(s.clone()),
            Value::VInt(n) => Value::VInt(*n),
            Value::VBool(b) => Value::VBool(*b),
            Value::VIntList(l) => Value::VIntList(copy_int_list(l)),
        }
    }
}

/// An element-by-element copy of a list of integers.
fn copy_int_list(l: &Vec<i64>) -> (r: Vec<i64>)
    ensures
        r@ == l@,
{
    let mut r: Vec<i64> = Vec::new();
    let mut i: usize = 0;
    while i < l.len()
        invariant
            i <= l.len(),
            r@ == l@.take(i as int),
        decreases l.len() - i,
    {
        r.push(l[i]);
        i = i + 1;
        proof {
            assert(r@ =~= l@.take(i as int));
        }
    }
    proof {
        assert(r@ =~= l@);
    }
    r
}

impl PartialEq for Value {
    fn eq(&self, other: &Value) -> (r: bool) {
        match (self, other) {
            (Value::VText(a), Value::VText(b)) => *a == *b,
            (Value::VInt(a), Value::VInt(b)) => *a == *b,
            (Value::VBool(a), Value::VBool(b)) => *a == *b,
            (Value::VIntList(a), Value::VIntList(b)) => int_list_eq(a, b),
            _ => false,
        }
    }
}

impl vstd::std_specs::cmp::PartialEqSpecImpl for Value {
    open spec fn obeys_eq_spec() -> bool {
        true
    }

    open spec fn eq_spec(&self, other: &Value) -> bool {
        self@ == other@
    }
}

/// Element-by-element comparison of two integer lists.
fn int_list_eq(a: &Vec<i64>, b: &Vec<i64>) -> (r: bool)
    ensures
        r == (a@ == b@),
{
    if a.len() != b.len() {
        proof {
            assert(a@ !~= b@);
        }
        return false;
    }
    let mut i: usize = 0;
    while i < a.len()
        invariant
            i <= a.len(),
            a.len() == b.len(),
            forall|j: int| 0 <= j < i ==> a@[j] == b@[j],
        decreases a.len() - i,
    {
        if a[i] != b[i] {
            return false;
        }
        i = i + 1;
    }
    proof {
        assert(a@ =~= b@);
    }
    true
}

/// A validation predicate over one field's value.
///
/// A predicate names the shape of value it applies to; a value of any other
/// shape does not satisfy it. `Always` accepts every value.
#[derive(Clone, Copy, Debug)]
pub enum Pred {
    Always,
    IntLt(i64),
    IntGt(i64),
    TextLenGt(usize),
    TextLenLt(usize),
    ListLenGt(usize),
    ListLenLt(usize),
}

/// What it means for a value to satisfy a predicate.
pub open spec fn pred_holds(p: Pred, v: ValueModel) -> bool {
    match p {
        Pred::Always => true,
        Pred::IntLt(b) => v matches ValueModel::Int(n) && n < b,
        Pred::IntGt(b) => v matches ValueModel::Int(n) && n > b,
        Pred::TextLenGt(b) => v matches ValueModel::Text(s) && s.len() > b,
        Pred::TextLenLt(b) => v matches ValueModel::Text(s) && s.len() < b,
        Pred::ListLenGt(b) => v matches ValueModel::IntList(l) && l.len() > b,
        Pred::ListLenLt(b) => v matches ValueModel::IntList(l) && l.len() < b,
    }
}

/// Applies a predicate to a value.
pub fn eval_pred(p: &Pred, v: &Value) -> (r: bool)
    ensures
        r == pred_holds(*p, v@),
{
    match p {
        Pred::Always => true,
        Pred::IntLt(b) => match v {
            Value::VInt(n) => *n < *b,
            _ => false,
        },
        Pred::IntGt(b) => match v {
            Value::VInt(n) => *n > *b,
            _ => false,
        },
        Pred::TextLenGt(b) => match v {
            Value::VText(s) => s.as_str().unicode_len() > *b,
            _ => false,
        },
        Pred::TextLenLt(b) => match v {
            Value::VText(s) => s.as_str().unicode_len() < *b,
            _ => false,
        },
        Pred::ListLenGt(b) => match v {
            Value::VIntList(l) => l.len() > *b,
            _ => false,
        },
        Pred::ListLenLt(b) => match v {
            Value::VIntList(l) => l.len() < *b,
            _ => false,
        },
    }
}

} // verus!
