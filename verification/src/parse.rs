//! Reading a service definition: a declared trait is checked item by item and
//! turned into a schema, or rejected with the first fault found.

use crate::schema::{
    lemma_views_push, views, Argument, ArgumentView, Link, LinkView, Method, MethodView,
    ReturnKind, ReturnKindView,
};
use vstd::prelude::*;

verus! {

/// Why a definition is rejected.
#[derive(Debug, Clone, Copy, PartialEq, Eq, Structural)]
pub enum DefinitionError {
    /// Only fn items are permitted within a service
    NotAFunction,
    /// A fn with a default body is not supported
    DefaultBody,
    /// A const fn is not supported
    ConstFn,
    /// fn items must be async
    NotAsync,
    /// An unsafe fn is not supported
    UnsafeFn,
    /// A fn cannot have several receivers
    MultipleReceivers,
    /// A fn cannot take self by value
    OwnedSelf,
    /// A fn cannot take a mutable reference to self
    MutableSelf,
    /// The receiver must be a plain reference to the implementing type
    SmartPointerSelf,
    /// A fn must have a receiver
    MissingSelf,
    /// A nested return must be bound by exactly one sub-service
    NestedBound,
    /// A streaming return must name exactly one item type
    StreamItem,
    /// Two methods of a service share a name
    DuplicateMethod,
}

impl DefinitionError {
    /// The fault as a sentence.
    pub fn message(&self) -> (text: &'static str)
        ensures
            text@ == match self {
                DefinitionError::NotAFunction =>
                    "Only fn items are permitted within linked traits"@,
                DefinitionError::DefaultBody => "default fn is not supported"@,
                DefinitionError::ConstFn => "const fn is not supported"@,
                DefinitionError::NotAsync => "fn items must be async"@,
                DefinitionError::UnsafeFn => "unsafe fn is not supported"@,
                DefinitionError::MultipleReceivers => "cannot have multiple receivers"@,
                DefinitionError::OwnedSelf => "cannot take owned self value"@,
                DefinitionError::MutableSelf => "cannot take a mutable self reference"@,
                DefinitionError::SmartPointerSelf =>
                    "cannot use a smart pointer for self type, must use &Self"@,
                DefinitionError::MissingSelf => "missing self"@,
                DefinitionError::NestedBound =>
                    "a nested service must be bound by exactly one service"@,
                DefinitionError::StreamItem => "a stream must have exactly one item type"@,
                DefinitionError::DuplicateMethod => "method names must be unique"@,
            },
    {
        match self {
            DefinitionError::NotAFunction => "Only fn items are permitted within linked traits",
            DefinitionError::DefaultBody => "default fn is not supported",
            DefinitionError::ConstFn => "const fn is not supported",
            DefinitionError::NotAsync => "fn items must be async",
            DefinitionError::UnsafeFn => "unsafe fn is not supported",
            DefinitionError::MultipleReceivers => "cannot have multiple receivers",
            DefinitionError::OwnedSelf => "cannot take owned self value",
            DefinitionError::MutableSelf => "cannot take a mutable self reference",
            DefinitionError::SmartPointerSelf =>
                "cannot use a smart pointer for self type, must use &Self",
            DefinitionError::MissingSelf => "missing self",
            DefinitionError::NestedBound => "a nested service must be bound by exactly one service",
            DefinitionError::StreamItem => "a stream must have exactly one item type",
            DefinitionError::DuplicateMethod => "method names must be unique",
        }
    }
}

/// The receiver of a declared fn.
#[derive(Debug, Clone, Copy, PartialEq, Eq, Structural)]
pub struct Receiver {
    /// Whether self is taken by reference
    pub reference: bool,
    /// Whether self is taken mutably
    pub mutable: bool,
    /// Whether the receiver's type is a shared reference to the implementing
    /// type itself, rather than a pointer around it
    pub plain: bool,
}

/// One input of a declared fn.
#[derive(Debug, Clone, PartialEq, Eq)]
pub enum FnArg {
    /// The receiver
    Receiver(Receiver),
    /// A named and typed argument
    Typed(Argument),
}

/// The contents of [`FnArg`], with its texts as sequences of characters.
pub enum FnArgView {
    Receiver(Receiver),
    Typed(ArgumentView),
}

impl View for FnArg {
    type V = FnArgView;

    open spec fn view(&self) -> FnArgView {
        match self {
            FnArg::Receiver(receiver) => FnArgView::Receiver(*receiver),
            FnArg::Typed(arg) => FnArgView::Typed(arg@),
        }
    }
}

/// The declared return type of a fn.
#[derive(Debug, Clone, PartialEq, Eq)]
pub enum ReturnType {
    /// None is written: the fn returns the unit type
    Default,
    /// An ordinary type
    Type(String),
    /// Some implementation of the listed service bounds
    ImplTrait(Vec<String>),
    /// A stream with the listed item types
    Stream(Vec<String>),
}

/// The contents of [`ReturnType`], with its texts as sequences of characters.
pub enum ReturnTypeView {
    Default,
    Type(Seq<char>),
    ImplTrait(Seq<Seq<char>>),
    Stream(Seq<Seq<char>>),
}

impl View for ReturnType {
    type V = ReturnTypeView;

    open spec fn view(&self) -> ReturnTypeView {
        match self {
            ReturnType::Default => ReturnTypeView::Default,
            ReturnType::Type(ty) => ReturnTypeView::Type(ty@),
            ReturnType::ImplTrait(bounds) => ReturnTypeView::ImplTrait(views(bounds@)),
            ReturnType::Stream(items) => ReturnTypeView::Stream(views(items@)),
        }
    }
}

/// A declared fn of a service.
#[derive(Debug, Clone, PartialEq, Eq)]
pub struct TraitItemFn {
    /// The fn's name
    pub name: String,
    /// Whether the fn has a default body
    pub default: bool,
    /// Whether the fn is const
    pub constness: bool,
    /// Whether the fn is async
    pub asyncness: bool,
    /// Whether the fn is unsafe
    pub unsafety: bool,
    /// The inputs in order, the receiver among them
    pub inputs: Vec<FnArg>,
    /// The return type
    pub output: ReturnType,
}

/// The contents of [`TraitItemFn`], with its texts as sequences of characters.
pub struct TraitItemFnView {
    pub name: Seq<char>,
    pub default: bool,
    pub constness: bool,
    pub asyncness: bool,
    pub unsafety: bool,
    pub inputs: Seq<FnArgView>,
    pub output: ReturnTypeView,
}

impl View for TraitItemFn {
    type V = TraitItemFnView;

    open spec fn view(&self) -> TraitItemFnView {
        TraitItemFnView {
            name: self.name@,
            default: self.default,
            constness: self.constness,
            asyncness: self.asyncness,
            unsafety: self.unsafety,
            inputs: views(self.inputs@),
            output: self.output@,
        }
    }
}

/// One item of a declared service.
#[derive(Debug, Clone, PartialEq, Eq)]
pub enum TraitItem {
    /// A fn
    Fn(TraitItemFn),
    /// Anything else: a constant, a type, a macro
    Other,
}

/// The contents of [`TraitItem`], with its texts as sequences of characters.
pub enum TraitItemView {
    Fn(TraitItemFnView),
    Other,
}

impl View for TraitItem {
    type V = TraitItemView;

    open spec fn view(&self) -> TraitItemView {
        match self {
            TraitItem::Fn(item) => TraitItemView::Fn(item@),
            TraitItem::Other => TraitItemView::Other,
        }
    }
}

/// A declared service: its name and its items in order.
#[derive(Debug, Clone, PartialEq, Eq)]
pub struct ItemTrait {
    /// The service's name
    pub name: String,
    /// The items in order
    pub items: Vec<TraitItem>,
}

/// The contents of [`ItemTrait`], with its texts as sequences of characters.
pub struct ItemTraitView {
    pub name: Seq<char>,
    pub items: Seq<TraitItemView>,
}

impl View for ItemTrait {
    type V = ItemTraitView;

    open spec fn view(&self) -> ItemTraitView {
        ItemTraitView { name: self.name@, items: views(self.items@) }
    }
}

/// The type that a fn without a written return type returns.
pub open spec fn unit_type() -> Seq<char> {
    seq!['(', ')']
}

/// The fault of a receiver, if it has one; `seen` says whether another
/// receiver came before it.
pub open spec fn receiver_fault(receiver: Receiver, seen: bool) -> Option<DefinitionError> {
    if seen {
        Some(DefinitionError::MultipleReceivers)
    } else if !receiver.reference {
        Some(DefinitionError::OwnedSelf)
    } else if receiver.mutable {
        Some(DefinitionError::MutableSelf)
    } else if !receiver.plain {
        Some(DefinitionError::SmartPointerSelf)
    } else {
        None
    }
}

/// The typed arguments among the inputs, in order, and whether a receiver is
/// among them; or the fault of the first faulty receiver.
pub open spec fn scan_inputs(inputs: Seq<FnArgView>) -> Result<
    (Seq<ArgumentView>, bool),
    DefinitionError,
>
    decreases inputs.len(),
{
    if inputs.len() == 0 {
        Ok((Seq::empty(), false))
    } else {
        match scan_inputs(inputs.drop_last()) {
            Err(fault) => Err(fault),
            Ok((args, seen)) => match inputs.last() {
                FnArgView::Typed(arg) => Ok((args.push(arg), seen)),
                FnArgView::Receiver(receiver) => match receiver_fault(receiver, seen) {
                    Some(fault) => Err(fault),
                    None => Ok((args, true)),
                },
            },
        }
    }
}

/// What a declared return type means for the method.
pub open spec fn classify(output: ReturnTypeView) -> Result<ReturnKindView, DefinitionError> {
    match output {
        ReturnTypeView::Default => Ok(ReturnKindView::Simple(unit_type())),
        ReturnTypeView::Type(ty) => Ok(ReturnKindView::Simple(ty)),
        ReturnTypeView::ImplTrait(bounds) => if bounds.len() == 1 {
            Ok(ReturnKindView::Nested(bounds[0]))
        } else {
            Err(DefinitionError::NestedBound)
        },
        ReturnTypeView::Stream(items) => if items.len() == 1 {
            Ok(ReturnKindView::Streaming(items[0]))
        } else {
            Err(DefinitionError::StreamItem)
        },
    }
}

/// The method that a declared item stands for, or the first fault in it: the
/// item's kind and modifiers are checked first, then its inputs from left to
/// right, then that it has a receiver, then its return type.
pub open spec fn parse_method(item: TraitItemView) -> Result<MethodView, DefinitionError> {
    match item {
        TraitItemView::Other => Err(DefinitionError::NotAFunction),
        TraitItemView::Fn(item) => if item.default {
            Err(DefinitionError::DefaultBody)
        } else if item.constness {
            Err(DefinitionError::ConstFn)
        } else if !item.asyncness {
            Err(DefinitionError::NotAsync)
        } else if item.unsafety {
            Err(DefinitionError::UnsafeFn)
        } else {
            match scan_inputs(item.inputs) {
                Err(fault) => Err(fault),
                Ok((args, seen)) => if !seen {
                    Err(DefinitionError::MissingSelf)
                } else {
                    match classify(item.output) {
                        Err(fault) => Err(fault),
                        Ok(ret) => Ok(MethodView { name: item.name, args, ret }),
                    }
                },
            }
        },
    }
}

/// The methods of the items in order, or the fault of the first faulty item.
pub open spec fn parse_methods(items: Seq<TraitItemView>) -> Result<
    Seq<MethodView>,
    DefinitionError,
>
    decreases items.len(),
{
    if items.len() == 0 {
        Ok(Seq::empty())
    } else {
        match parse_methods(items.drop_last()) {
            Err(fault) => Err(fault),
            Ok(methods) => match parse_method(items.last()) {
                Err(fault) => Err(fault),
                Ok(method) => Ok(methods.push(method)),
            },
        }
    }
}

/// The schema of a declared service: the first fault of an item, else a
/// repeated method name, rejects it.
pub open spec fn parse_link(input: ItemTraitView) -> Result<LinkView, DefinitionError> {
    match parse_methods(input.items) {
        Err(fault) => Err(fault),
        Ok(methods) => {
            let link = LinkView { name: input.name, methods };
            if link.valid() {
                Ok(link)
            } else {
                Err(DefinitionError::DuplicateMethod)
            }
        },
    }
}

/// Whether a result carries the given view, or the same fault.
pub open spec fn agrees<T: View>(got: Result<T, DefinitionError>, want: Result<
    T::V,
    DefinitionError,
>) -> bool {
    match got {
        Ok(value) => want == Ok::<T::V, DefinitionError>(value@),
        Err(fault) => want == Err::<T::V, DefinitionError>(fault),
    }
}

/// Says what a declared return type means for the method.
pub fn classify_return(output: ReturnType) -> (kind: Result<ReturnKind, DefinitionError>)
    ensures
        agrees(kind, classify(output@)),
{
    match output {
        ReturnType::Default => {
            proof {
                reveal_strlit("()");
            }
            let unit = String::from_str("()");
            assert(unit@ =~= unit_type());
            Ok(ReturnKind::Simple(unit))
        },
        ReturnType::Type(ty) => Ok(ReturnKind::Simple(ty)),
        ReturnType::ImplTrait(bounds) => {
            let mut bounds = bounds;
            if bounds.len() == 1 {
                let ghost before = bounds@;
                let service = bounds.remove(0);
                assert(views(before)[0] == service@);
                Ok(ReturnKind::Nested(service))
            } else {
                Err(DefinitionError::NestedBound)
            }
        },
        ReturnType::Stream(items) => {
            let mut items = items;
            if items.len() == 1 {
                let ghost before = items@;
                let item = items.remove(0);
                assert(views(before)[0] == item@);
                Ok(ReturnKind::Streaming(item))
            } else {
                Err(DefinitionError::StreamItem)
            }
        },
    }
}

/// Checks one receiver; `seen` says whether another came before it.
pub fn check_receiver(receiver: Receiver, seen: bool) -> (fault: Option<DefinitionError>)
    ensures
        fault == receiver_fault(receiver, seen),
{
    if seen {
        Some(DefinitionError::MultipleReceivers)
    } else if !receiver.reference {
        Some(DefinitionError::OwnedSelf)
    } else if receiver.mutable {
        Some(DefinitionError::MutableSelf)
    } else if !receiver.plain {
        Some(DefinitionError::SmartPointerSelf)
    } else {
        None
    }
}

impl Method {
    /// Reads one declared item as a method of the service.
    pub fn try_from(item: TraitItem) -> (method: Result<Method, DefinitionError>)
        ensures
            agrees(method, parse_method(item@)),
    {
                let found = match item {
            TraitItem::Fn(found) => found,
            TraitItem::Other => {
                return Err(DefinitionError::NotAFunction);
            },
        };
        let ghost decl = found@;
        if found.default {
            return Err(DefinitionError::DefaultBody);
        }
        if found.constness {
            return Err(DefinitionError::ConstFn);
        }
        if !found.asyncness {
            return Err(DefinitionError::NotAsync);
        }
        if found.unsafety {
            return Err(DefinitionError::UnsafeFn);
        }
        let TraitItemFn { name, inputs, output, .. } = found;
        let ghost all = views(inputs@);
        let mut args: Vec<Argument> = Vec::new();
        let mut has_self = false;
        let mut i: usize = 0;
        assert(all.take(0) =~= Seq::<FnArgView>::empty());
        assert(views(args@) =~= Seq::<ArgumentView>::empty());
        while i < inputs.len()
            invariant
                i <= inputs@.len(),
                all == views(inputs@),
                item@ == TraitItemView::Fn(decl),
                decl.inputs == all,
                !decl.default && !decl.constness && decl.asyncness && !decl.unsafety,
                scan_inputs(all.take(i as int)) == Ok::<
                    (Seq<ArgumentView>, bool),
                    DefinitionError,
                >((views(args@), has_self)),
            decreases inputs@.len() - i,
        {
            proof {
                assert(all.take(i + 1).drop_last() =~= all.take(i as int));
                assert(all.take(i + 1).last() == inputs@[i as int]@);
            }
            match &inputs[i] {
                FnArg::Receiver(receiver) => {
                    match check_receiver(*receiver, has_self) {
                        Some(fault) => {
                            proof {
                                assert(scan_inputs(all.take(i + 1)) == Err::<
                                    (Seq<ArgumentView>, bool),
                                    DefinitionError,
                                >(fault));
                                lemma_scan_fault_stays(all, i + 1);
                            }
                            return Err(fault);
                        },
                        None => {
                            has_self = true;
                        },
                    }
                },
                FnArg::Typed(arg) => {
                    let arg = Argument { name: arg.name.clone(), ty: arg.ty.clone() };
                    proof {
                        lemma_views_push(args@, arg);
                    }
                    args.push(arg);
                },
            }
            i += 1;
        }
        assert(all.take(i as int) =~= all);
        if !has_self {
            return Err(DefinitionError::MissingSelf);
        }
        let ret = match classify_return(output) {
            Ok(ret) => ret,
            Err(fault) => {
                return Err(fault);
            },
        };
        Ok(Method { name, args, ret })
    }
}

/// A fault among the first inputs is the fault of all of them.
pub proof fn lemma_scan_fault_stays(inputs: Seq<FnArgView>, upto: int)
    requires
        0 <= upto <= inputs.len(),
        scan_inputs(inputs.take(upto)) is Err,
    ensures
        scan_inputs(inputs) == scan_inputs(inputs.take(upto)),
    decreases inputs.len() - upto,
{
    if upto < inputs.len() {
        assert(inputs.take(upto + 1).drop_last() =~= inputs.take(upto));
        lemma_scan_fault_stays(inputs, upto + 1);
    } else {
        assert(inputs.take(upto) =~= inputs);
    }
}

/// A fault among the first items is the fault of all of them.
pub proof fn lemma_parse_fault_stays(items: Seq<TraitItemView>, upto: int)
    requires
        0 <= upto <= items.len(),
        parse_methods(items.take(upto)) is Err,
    ensures
        parse_methods(items) == parse_methods(items.take(upto)),
    decreases items.len() - upto,
{
    if upto < items.len() {
        assert(items.take(upto + 1).drop_last() =~= items.take(upto));
        lemma_parse_fault_stays(items, upto + 1);
    } else {
        assert(items.take(upto) =~= items);
    }
}

impl Link {
    /// Reads a declared service as a schema.
    pub fn try_from(input: ItemTrait) -> (link: Result<Link, DefinitionError>)
        ensures
            agrees(link, parse_link(input@)),
            link matches Ok(schema) ==> schema@.valid(),
    {
        let ItemTrait { name, items } = input;
        let ghost all = views(items@);
        let mut items = items;
        let mut methods: Vec<Method> = Vec::new();
        let mut i: usize = 0;
        let count = items.len();
        assert(all.take(0) =~= Seq::<TraitItemView>::empty());
        assert(views(methods@) =~= Seq::<MethodView>::empty());
        while i < count
            invariant
                i <= count,
                count == all.len(),
                input@.items == all,
                items@.len() == count - i,
                forall|k: int| 0 <= k < items@.len() ==> (#[trigger] items@[k])@ == all[i + k],
                parse_methods(all.take(i as int)) == Ok::<Seq<MethodView>, DefinitionError>(
                    views(methods@),
                ),
            decreases count - i,
        {
            proof {
                assert(all.take(i + 1).drop_last() =~= all.take(i as int));
            }
            let ghost rest = items@;
            let item = items.remove(0);
            assert(item == rest[0]);
            assert(item@ == all[i as int]);
            assert forall|k: int| 0 <= k < items@.len() implies (#[trigger] items@[k])@ == all[i
                + 1 + k] by {
                assert(items@[k] == rest[k + 1]);
            }
            match Method::try_from(item) {
                Ok(method) => {
                    proof {
                        assert(all.take(i + 1).last() == all[i as int]);
                        lemma_views_push(methods@, method);
                    }
                    methods.push(method);
                },
                Err(fault) => {
                    proof {
                        assert(all.take(i + 1).last() == all[i as int]);
                        assert(parse_methods(all.take(i + 1)) == Err::<
                            Seq<MethodView>,
                            DefinitionError,
                        >(fault));
                        lemma_parse_fault_stays(all, i + 1);
                    }
                    return Err(fault);
                },
            }
            i += 1;
        }
        assert(all.take(i as int) =~= all);
        let link = Link { name, methods };
        if link.is_valid() {
            Ok(link)
        } else {
            Err(DefinitionError::DuplicateMethod)
        }
    }
}

/// Reads a declared service as a schema, or rejects it. A definition is never
/// mended silently.
pub fn link(input: ItemTrait) -> (schema: Result<Link, DefinitionError>)
    ensures
        agrees(schema, parse_link(input@)),
        schema matches Ok(link) ==> link@.valid(),
{
    Link::try_from(input)
}

} // verus!
