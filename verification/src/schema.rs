//! The schema of a service: its methods, their arguments and what each
//! method resolves to.

use vstd::prelude::*;

verus! {

/// The views of the elements of a sequence, in order.
pub open spec fn views<T: View>(items: Seq<T>) -> Seq<T::V> {
    Seq::new(items.len(), |i: int| items[i]@)
}

/// Adding an element adds its view.
pub proof fn lemma_views_push<T: View>(items: Seq<T>, item: T)
    ensures
        views(items.push(item)) == views(items).push(item@),
{
    assert(views(items.push(item)) =~= views(items).push(item@));
}

/// One argument of a method: its name and its type.
#[derive(Debug, Clone, PartialEq, Eq)]
pub struct Argument {
    /// The name that the argument is bound to
    pub name: String,
    /// The argument's type
    pub ty: String,
}

/// The contents of [`Argument`], with its texts as sequences of characters.
pub struct ArgumentView {
    pub name: Seq<char>,
    pub ty: Seq<char>,
}

impl View for Argument {
    type V = ArgumentView;

    open spec fn view(&self) -> ArgumentView {
        ArgumentView { name: self.name@, ty: self.ty@ }
    }
}

/// What a method resolves to.
#[derive(Debug, Clone, PartialEq, Eq)]
pub enum ReturnKind {
    /// A single value of the named type
    Simple(String),
    /// A handle to the named sub-service, to which a second message is sent
    Nested(String),
    /// Any number of values of the named type, delivered over time
    Streaming(String),
}

/// The contents of [`ReturnKind`], with its texts as sequences of characters.
pub enum ReturnKindView {
    Simple(Seq<char>),
    Nested(Seq<char>),
    Streaming(Seq<char>),
}

impl View for ReturnKind {
    type V = ReturnKindView;

    open spec fn view(&self) -> ReturnKindView {
        match self {
            ReturnKind::Simple(ty) => ReturnKindView::Simple(ty@),
            ReturnKind::Nested(service) => ReturnKindView::Nested(service@),
            ReturnKind::Streaming(item) => ReturnKindView::Streaming(item@),
        }
    }
}

/// One callable operation of a service.
#[derive(Debug, Clone, PartialEq, Eq)]
pub struct Method {
    /// The method's name, unique within its service
    pub name: String,
    /// The arguments, in the order of their declaration
    pub args: Vec<Argument>,
    /// What the method resolves to
    pub ret: ReturnKind,
}

/// The contents of [`Method`], with its texts as sequences of characters.
pub struct MethodView {
    pub name: Seq<char>,
    pub args: Seq<ArgumentView>,
    pub ret: ReturnKindView,
}

impl View for Method {
    type V = MethodView;

    open spec fn view(&self) -> MethodView {
        MethodView { name: self.name@, args: views(self.args@), ret: self.ret@ }
    }
}

/// A service definition: a name and its methods in order.
#[derive(Debug, Clone, PartialEq, Eq)]
pub struct Link {
    /// The service's name
    pub name: String,
    /// The methods, in the order of their declaration
    pub methods: Vec<Method>,
}

/// The contents of [`Link`], with its texts as sequences of characters.
pub struct LinkView {
    pub name: Seq<char>,
    pub methods: Seq<MethodView>,
}

impl View for Link {
    type V = LinkView;

    open spec fn view(&self) -> LinkView {
        LinkView { name: self.name@, methods: views(self.methods@) }
    }
}

/// Whether two of the methods share a name.
pub open spec fn has_duplicate(methods: Seq<MethodView>) -> bool {
    exists|i: int, j: int|
        0 <= i < j < methods.len() && (#[trigger] methods[i]).name == (#[trigger] methods[j]).name
}

impl LinkView {
    /// A schema is valid when no two of its methods share a name.
    pub open spec fn valid(self) -> bool {
        !has_duplicate(self.methods)
    }
}

/// Whether one of the methods before `upto` has the name of the method at `upto`.
pub open spec fn repeats(methods: Seq<MethodView>, upto: int) -> bool {
    exists|i: int| 0 <= i < upto && (#[trigger] methods[i]).name == methods[upto].name
}

/// Whether the name of the method at `upto` occurs before it.
fn name_seen_before(methods: &Vec<Method>, upto: usize) -> (seen: bool)
    requires
        upto < methods@.len(),
    ensures
        seen == repeats(views(methods@), upto as int),
{
    let mut i: usize = 0;
    while i < upto
        invariant
            i <= upto < methods@.len(),
            forall|k: int| 0 <= k < i ==> methods@[k].name@ != methods@[upto as int].name@,
        decreases upto - i,
    {
        if methods[i].name == methods[upto].name {
            assert(views(methods@)[i as int].name == views(methods@)[upto as int].name);
            return true;
        }
        i += 1;
    }
    assert forall|k: int| 0 <= k < upto implies (#[trigger] views(methods@)[k]).name != views(
        methods@,
    )[upto as int].name by {
        assert(views(methods@)[k] == methods@[k]@);
    }
    false
}

impl Link {
    /// Whether no two methods of the service share a name.
    pub fn is_valid(&self) -> (valid: bool)
        ensures
            valid == self@.valid(),
    {
        let ghost all = views(self.methods@);
        let mut j: usize = 0;
        while j < self.methods.len()
            invariant
                j <= self.methods@.len(),
                all == views(self.methods@),
                forall|a: int, b: int|
                    0 <= a < b < j ==> (#[trigger] all[a]).name != (#[trigger] all[b]).name,
            decreases self.methods@.len() - j,
        {
            if name_seen_before(&self.methods, j) {
                return false;
            }
            j += 1;
        }
        true
    }
}

} // verus!
