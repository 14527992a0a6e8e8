//! Requests and responses as tagged values, and the steps that clients and
//! handlers take on them: unwrapping the expected variant, tunnelling the
//! messages of a sub-service through those of its parent, and choosing the
//! entry point of a handler.

use crate::compiler::ServerDecl;
use crate::error::{call_of, call_then, WrongResponseType, WrongResponseTypeView};
use crate::text::same_text;
use vstd::prelude::*;

verus! {

/// A request: one variant per method, told apart by the method's name.
#[derive(Debug, PartialEq, Eq)]
pub enum Request<A> {
    /// A call of a method that resolves to one value
    Simple {
        /// The method's name
        method: String,
        /// The method's arguments
        args: A,
    },
    /// A call of a method that leads to a sub-service, with the request for
    /// that sub-service
    Nested {
        /// The method's name
        method: String,
        /// The method's arguments
        args: A,
        /// The request for the sub-service
        inner: Box<Request<A>>,
    },
    /// A call of a method that resolves to a stream of values
    Streaming {
        /// The method's name
        method: String,
        /// The method's arguments
        args: A,
    },
}

/// A response: one variant per method, told apart by the method's name.
#[derive(Debug, PartialEq, Eq)]
pub enum Response<R> {
    /// The value of a method
    Simple {
        /// The method's name
        method: String,
        /// The value
        result: R,
    },
    /// The response of the sub-service that a method leads to
    Nested {
        /// The method's name
        method: String,
        /// The response of the sub-service
        inner: Box<Response<R>>,
    },
    /// One item of the stream of a method
    Streaming {
        /// The method's name
        method: String,
        /// The item
        item: R,
    },
}

impl<A> Request<A> {
    /// The name of the method that the request calls.
    pub open spec fn tag(&self) -> Seq<char> {
        match self {
            Request::Simple { method, .. } => method@,
            Request::Nested { method, .. } => method@,
            Request::Streaming { method, .. } => method@,
        }
    }

    /// Whether the request is answered by a stream: it calls a streaming
    /// method, on this service or on the sub-service it reaches.
    pub open spec fn streams(&self) -> bool
        decreases self,
    {
        match self {
            Request::Simple { .. } => false,
            Request::Nested { inner, .. } => inner.streams(),
            Request::Streaming { .. } => true,
        }
    }

    /// The name of the method that the request calls.
    pub fn fn_name(&self) -> (name: &str)
        ensures
            name@ == self.tag(),
    {
        match self {
            Request::Simple { method, .. } => method.as_str(),
            Request::Nested { method, .. } => method.as_str(),
            Request::Streaming { method, .. } => method.as_str(),
        }
    }

    /// Whether the request belongs to the streaming entry point of a handler.
    pub fn is_streaming_response(&self) -> (streaming: bool)
        ensures
            streaming == self.streams(),
        decreases self,
    {
        match self {
            Request::Simple { .. } => false,
            Request::Nested { inner, .. } => inner.is_streaming_response(),
            Request::Streaming { .. } => true,
        }
    }
}

impl<R> Response<R> {
    /// The name of the method that the response belongs to.
    pub open spec fn tag(&self) -> Seq<char> {
        match self {
            Response::Simple { method, .. } => method@,
            Response::Nested { method, .. } => method@,
            Response::Streaming { method, .. } => method@,
        }
    }

    /// The name of the method that the response belongs to.
    pub fn fn_name(&self) -> (name: &str)
        ensures
            name@ == self.tag(),
    {
        match self {
            Response::Simple { method, .. } => method.as_str(),
            Response::Nested { method, .. } => method.as_str(),
            Response::Streaming { method, .. } => method.as_str(),
        }
    }
}

/// The mismatch between the method `expected` and the method `actual`.
pub open spec fn mismatch(expected: Seq<char>, actual: Seq<char>) -> WrongResponseTypeView {
    WrongResponseTypeView { expected: call_of(expected), actual: call_of(actual) }
}

/// A mismatch as it reaches the client of the sub-service behind the method
/// `name`: both paths go on through `name`.
pub open spec fn within(name: Seq<char>, wrong: WrongResponseTypeView) -> WrongResponseTypeView {
    WrongResponseTypeView {
        expected: call_then(wrong.expected, name),
        actual: call_then(wrong.actual, name),
    }
}

/// What the caller of the simple method `expected` gets for a response: the
/// value of the matching variant, else the mismatch.
pub open spec fn unwrapped<R>(expected: Seq<char>, response: Response<R>) -> Result<
    R,
    WrongResponseTypeView,
> {
    match response {
        Response::Simple { method, result } if method@ == expected => Ok(result),
        _ => Err(mismatch(expected, response.tag())),
    }
}

/// What the subscriber of the streaming method `expected` gets for a
/// response: the item of the matching variant, else the mismatch.
pub open spec fn unwrapped_item<R>(expected: Seq<char>, response: Response<R>) -> Result<
    R,
    WrongResponseTypeView,
> {
    match response {
        Response::Streaming { method, item } if method@ == expected => Ok(item),
        _ => Err(mismatch(expected, response.tag())),
    }
}

/// What the client of the sub-service behind `name` gets for what the outer
/// client returned: the embedded response of the matching variant; for
/// another variant the mismatch; and a mismatch from further out with `name`
/// added to its paths.
pub open spec fn inner_of<R>(
    name: Seq<char>,
    outer: Result<Response<R>, WrongResponseTypeView>,
) -> Result<Response<R>, WrongResponseTypeView> {
    match outer {
        Ok(Response::Nested { method, inner }) if method@ == name => Ok(*inner),
        Ok(other) => Err(mismatch(name, other.tag())),
        Err(wrong) => Err(within(name, wrong)),
    }
}

/// Whether a result carries the given value, or an error with the given view.
pub open spec fn yields<T>(
    got: Result<T, WrongResponseType>,
    want: Result<T, WrongResponseTypeView>,
) -> bool {
    match got {
        Ok(value) => want == Ok::<T, WrongResponseTypeView>(value),
        Err(wrong) => want == Err::<T, WrongResponseTypeView>(wrong@),
    }
}

/// Unwraps the response to a call of the simple method `expected`. Any
/// other variant, also one of another method that is well formed in itself,
/// is reported as a mismatch.
pub fn unwrap_response<R>(expected: &str, response: Response<R>) -> (value: Result<
    R,
    WrongResponseType,
>)
    ensures
        yields(value, unwrapped(expected@, response)),
{
    match response {
        Response::Simple { method, result } => {
            if same_text(method.as_str(), expected) {
                Ok(result)
            } else {
                Err(WrongResponseType::new(expected, method.as_str()))
            }
        },
        other => Err(WrongResponseType::new(expected, other.fn_name())),
    }
}

/// Unwraps one response in the stream of the streaming method `expected`.
pub fn unwrap_item<R>(expected: &str, response: Response<R>) -> (item: Result<
    R,
    WrongResponseType,
>)
    ensures
        yields(item, unwrapped_item(expected@, response)),
{
    match response {
        Response::Streaming { method, item } => {
            if same_text(method.as_str(), expected) {
                Ok(item)
            } else {
                Err(WrongResponseType::new(expected, method.as_str()))
            }
        },
        other => Err(WrongResponseType::new(expected, other.fn_name())),
    }
}

/// The inner step of the client of the sub-service behind the method `name`.
pub fn to_inner<R>(name: &str, outer: Result<Response<R>, WrongResponseType>) -> (inner: Result<
    Response<R>,
    WrongResponseType,
>)
    ensures
        seen(inner) == inner_of(name@, seen(outer)),
{
    match outer {
        Ok(Response::Nested { method, inner }) => {
            if same_text(method.as_str(), name) {
                Ok(*inner)
            } else {
                Err(WrongResponseType::new(name, method.as_str()))
            }
        },
        Ok(other) => Err(WrongResponseType::new(name, other.fn_name())),
        Err(wrong) => Err(wrong.in_subservice(name)),
    }
}

/// The outer step of the client of the sub-service behind the method `name`:
/// the request of the outer service that carries `inner` and the arguments of
/// the call that led to the sub-service.
pub fn to_outer<A>(name: &str, args: A, inner: Request<A>) -> (outer: Request<A>)
    ensures
        outer matches Request::Nested { method, args: carried, inner: embedded } && method@
            == name@ && carried == args && *embedded == inner,
{
    Request::Nested { method: String::from_str(name), args, inner: Box::new(inner) }
}

/// The response of the outer service that carries `inner` as the response of
/// the sub-service behind the method `name`.
pub fn wrap_response<R>(name: &str, inner: Response<R>) -> (outer: Response<R>)
    ensures
        outer matches Response::Nested { method, inner: embedded } && method@ == name@
            && *embedded == inner,
        inner_of(name@, Ok(outer)) == Ok::<Response<R>, WrongResponseTypeView>(inner),
{
    Response::Nested { method: String::from_str(name), inner: Box::new(inner) }
}

/// What came back from the outer client, with a mismatch taken by its view.
pub open spec fn seen<R>(outer: Result<Response<R>, WrongResponseType>) -> Result<
    Response<R>,
    WrongResponseTypeView,
> {
    match outer {
        Ok(response) => Ok(response),
        Err(wrong) => Err(wrong@),
    }
}

/// What the client of the sub-service behind the first `upto` methods of
/// `path` receives when the outermost client received `response`: each level
/// applies its inner step to what the level before it received.
pub open spec fn tunnelled<R>(path: Seq<Seq<char>>, upto: int, response: Response<R>) -> Result<
    Response<R>,
    WrongResponseTypeView,
>
    decreases upto,
{
    if upto <= 0 {
        Ok(response)
    } else {
        inner_of(path[upto - 1], tunnelled(path, upto - 1, response))
    }
}

/// What a call of the simple method `leaf`, made through the nested methods
/// of `path`, gets when the outermost client received `response`.
pub open spec fn resolved<R>(path: Seq<Seq<char>>, leaf: Seq<char>, response: Response<R>) -> Result<
    R,
    WrongResponseTypeView,
> {
    match tunnelled(path, path.len() as int, response) {
        Ok(inner) => unwrapped(leaf, inner),
        Err(wrong) => Err(wrong),
    }
}

/// The response found by following the variants of the first `upto` methods
/// of `path` into `response`, if they are all there.
pub open spec fn descend<R>(response: Response<R>, path: Seq<Seq<char>>, upto: int) -> Option<
    Response<R>,
>
    decreases upto,
{
    if upto <= 0 {
        Some(response)
    } else {
        match descend(response, path, upto - 1) {
            Some(Response::Nested { method, inner }) if method@ == path[upto - 1] => Some(*inner),
            _ => None,
        }
    }
}

/// A mismatch after the levels `from..upto` of `path` have each added their
/// name to its paths, the innermost last.
pub open spec fn annotated(
    path: Seq<Seq<char>>,
    from: int,
    upto: int,
    wrong: WrongResponseTypeView,
) -> WrongResponseTypeView
    decreases upto - from,
{
    if upto <= from {
        wrong
    } else {
        within(path[upto - 1], annotated(path, from, upto - 1, wrong))
    }
}

/// The names as texts.
pub open spec fn names_of(path: Seq<String>) -> Seq<Seq<char>> {
    Seq::new(path.len(), |i: int| path[i]@)
}

/// Resolves the response to a call of the simple method `leaf` that was made
/// through the nested methods `path`, outermost first: every level takes its
/// inner step, then the method unwraps its variant.
pub fn resolve<R>(path: &Vec<String>, leaf: &str, response: Response<R>) -> (value: Result<
    R,
    WrongResponseType,
>)
    ensures
        yields(value, resolved(names_of(path@), leaf@, response)),
{
    let ghost names = names_of(path@);
    let mut current: Result<Response<R>, WrongResponseType> = Ok(response);
    let mut i: usize = 0;
    while i < path.len()
        invariant
            i <= path@.len(),
            names == names_of(path@),
            seen(current) == tunnelled(names, i as int, response),
        decreases path@.len() - i,
    {
        assert(names[i as int] == path@[i as int]@);
        current = to_inner(path[i].as_str(), current);
        i += 1;
    }
    match current {
        Ok(inner) => unwrap_response(leaf, inner),
        Err(wrong) => Err(wrong),
    }
}

/// The request for a call that is made through the nested methods of
/// `path`, each with its arguments, outermost first: `leaf`, the request for
/// the method called, wrapped in the variant of each of them.
pub fn request_through<A>(path: Vec<(String, A)>, leaf: Request<A>) -> (outer: Request<A>)
    ensures
        addressed(outer, path@, 0, leaf),
{
    let ghost all = path@;
    let mut path = path;
    let mut request = leaf;
    while path.len() > 0
        invariant
            path@.len() <= all.len(),
            path@ == all.take(path@.len() as int),
            addressed(request, all, path@.len() as int, leaf),
        decreases path@.len(),
    {
        let ghost before = path@;
        match path.pop() {
            Some((name, args)) => {
                assert(before.last() == all[path@.len() as int]);
                assert(path@ =~= all.take(path@.len() as int));
                request = to_outer(name.as_str(), args, request);
            },
            None => {},
        }
    }
    request
}

/// Whether `request` is `leaf` wrapped in the variants of the nested methods
/// of `path` from `start` on, each with its arguments, outermost first.
pub open spec fn addressed<A>(
    request: Request<A>,
    path: Seq<(String, A)>,
    start: int,
    leaf: Request<A>,
) -> bool
    decreases path.len() - start,
{
    if 0 <= start < path.len() {
        request matches Request::Nested { method, args, inner } && method@ == path[start].0@
            && args == path[start].1 && addressed(*inner, path, start + 1, leaf)
    } else {
        request == leaf
    }
}

/// A request that reaches its method through nested methods is answered by
/// a stream exactly when that method is a streaming one.
pub proof fn lemma_streaming_through_nesting<A>(
    request: Request<A>,
    path: Seq<(String, A)>,
    start: int,
    leaf: Request<A>,
)
    requires
        0 <= start,
        addressed(request, path, start, leaf),
    ensures
        request.streams() == leaf.streams(),
    decreases path.len() - start,
{
    if start < path.len() {
        match request {
            Request::Nested { inner, .. } => {
                lemma_streaming_through_nesting(*inner, path, start + 1, leaf);
            },
            _ => {},
        }
    }
}

/// Following the variants of the nested methods is what their clients do:
/// where all the variants are there, the innermost client receives the
/// response that they carry.
pub proof fn lemma_tunnel_follows_variants<R>(
    path: Seq<Seq<char>>,
    upto: int,
    response: Response<R>,
)
    requires
        descend(response, path, upto) is Some,
    ensures
        tunnelled(path, upto, response) == Ok::<Response<R>, WrongResponseTypeView>(
            descend(response, path, upto)->Some_0,
        ),
    decreases upto,
{
    if upto > 0 {
        lemma_tunnel_follows_variants(path, upto - 1, response);
    }
}

/// What the clients of the first levels receive depends on the names of
/// those levels alone.
pub proof fn lemma_tunnel_reads_prefix<R>(
    path: Seq<Seq<char>>,
    other: Seq<Seq<char>>,
    upto: int,
    response: Response<R>,
)
    requires
        upto <= path.len(),
        upto <= other.len(),
        forall|i: int| 0 <= i < upto ==> path[i] == other[i],
    ensures
        tunnelled(path, upto, response) == tunnelled(other, upto, response),
    decreases upto,
{
    if upto > 0 {
        lemma_tunnel_reads_prefix(path, other, upto - 1, response);
    }
}

/// What the levels `first` and then `second` make of a response together:
/// what `second` makes of what `first` made of it, where a mismatch that
/// `first` reports gets the name of every level of `second` added.
pub open spec fn tunnelled_in_turn<R>(
    first: Seq<Seq<char>>,
    second: Seq<Seq<char>>,
    upto: int,
    response: Response<R>,
) -> Result<Response<R>, WrongResponseTypeView> {
    match tunnelled(first, first.len() as int, response) {
        Ok(inner) => tunnelled(second, upto, inner),
        Err(wrong) => Err(annotated(second, 0, upto, wrong)),
    }
}

/// Nesting composes: going through the levels of `first` and then through
/// those of `second` is going through the levels of both in a row. Every
/// level adds exactly one annotation to a mismatch from before it; none is
/// merged or lost, however the levels are grouped.
pub proof fn lemma_nesting_composes<R>(
    first: Seq<Seq<char>>,
    second: Seq<Seq<char>>,
    upto: int,
    response: Response<R>,
)
    requires
        0 <= upto <= second.len(),
    ensures
        tunnelled(first + second, first.len() + upto, response) == tunnelled_in_turn(
            first,
            second,
            upto,
            response,
        ),
    decreases upto,
{
    let both = first + second;
    if upto == 0 {
        lemma_tunnel_reads_prefix(both, first, first.len() as int, response);
    } else {
        lemma_nesting_composes(first, second, upto - 1, response);
        assert(both[first.len() + upto - 1] == second[upto - 1]);
    }
}

/// The matching response gives the value back unchanged: when the response
/// carries, through the variants of all the nested methods, the variant of the
/// method that was called, the caller gets the value in it.
pub proof fn lemma_matching_response_resolves<R>(
    path: Seq<Seq<char>>,
    leaf: Seq<char>,
    response: Response<R>,
    method: String,
    result: R,
)
    requires
        method@ == leaf,
        descend(response, path, path.len() as int) == Some(Response::Simple { method, result }),
    ensures
        resolved(path, leaf, response) == Ok::<R, WrongResponseTypeView>(result),
{
    lemma_tunnel_follows_variants(path, path.len() as int, response);
}

/// Whether a response is the variant of the simple method `leaf`.
pub open spec fn answers<R>(response: Response<R>, leaf: Seq<char>) -> bool {
    response matches Response::Simple { method, .. } && method@ == leaf
}

/// Any other variant is a mismatch: when the response carries, through the
/// variants of all the nested methods, a variant that is not the one of the
/// method called, the caller gets a mismatch that names the method called
/// and the method received.
pub proof fn lemma_other_variant_is_mismatch<R>(
    path: Seq<Seq<char>>,
    leaf: Seq<char>,
    response: Response<R>,
    innermost: Response<R>,
)
    requires
        descend(response, path, path.len() as int) == Some(innermost),
        !answers(innermost, leaf),
    ensures
        resolved(path, leaf, response) == Err::<R, WrongResponseTypeView>(
            mismatch(leaf, innermost.tag()),
        ),
{
    lemma_tunnel_follows_variants(path, path.len() as int, response);
}

/// A wrong variant at a nested level is reported with one name for every
/// level from that one inwards: the level that found it names the method
/// expected and the method received, and each level after it adds its own
/// name. No name is lost and none is made up.
pub proof fn lemma_wrong_variant_at_level<R>(
    path: Seq<Seq<char>>,
    level: int,
    upto: int,
    response: Response<R>,
    found: Response<R>,
)
    requires
        0 <= level < upto <= path.len(),
        descend(response, path, level) == Some(found),
        !(found matches Response::Nested { method, .. } && method@ == path[level]),
    ensures
        tunnelled(path, upto, response) == Err::<Response<R>, WrongResponseTypeView>(
            annotated(path, level + 1, upto, mismatch(path[level], found.tag())),
        ),
    decreases upto - level,
{
    if upto == level + 1 {
        lemma_tunnel_follows_variants(path, level, response);
    } else {
        lemma_wrong_variant_at_level(path, level, upto - 1, response, found);
    }
}

/// The call path `start` followed by the methods `from..upto` of `path`, in
/// the order in which a call goes through them: one `.name()` for each.
pub open spec fn extended(start: Seq<char>, path: Seq<Seq<char>>, from: int, upto: int) -> Seq<
    char,
>
    decreases upto - from,
{
    if upto <= from {
        start
    } else {
        call_then(extended(start, path, from, upto - 1), path[upto - 1])
    }
}

/// The call path through all the methods of `path`, in the order in which a
/// call goes through them: one `name()` per level, joined by dots.
pub open spec fn dotted(path: Seq<Seq<char>>) -> Seq<char>
    recommends
        path.len() > 0,
{
    extended(call_of(path[0]), path, 1, path.len() as int)
}

/// Annotations spell the path: after the levels `from..upto` have each added
/// their name to a mismatch, both of its paths hold the name of each of these
/// levels, once and in the order in which the call went through them.
pub proof fn lemma_annotations_extend_paths(
    path: Seq<Seq<char>>,
    from: int,
    upto: int,
    wrong: WrongResponseTypeView,
)
    ensures
        annotated(path, from, upto, wrong) == (WrongResponseTypeView {
            expected: extended(wrong.expected, path, from, upto),
            actual: extended(wrong.actual, path, from, upto),
        }),
    decreases upto - from,
{
    if upto > from {
        lemma_annotations_extend_paths(path, from, upto - 1, wrong);
    }
}

/// A wrong variant at the outermost level is reported with the whole path:
/// when the response is not the variant of the first nested method, the
/// caller gets a mismatch whose expected path names all the nested methods
/// in the order in which the call went through them; the other path starts
/// with the method received instead.
pub proof fn lemma_wrong_variant_names_path<R>(
    path: Seq<Seq<char>>,
    leaf: Seq<char>,
    response: Response<R>,
)
    requires
        path.len() > 0,
        !(response matches Response::Nested { method, .. } && method@ == path[0]),
    ensures
        resolved(path, leaf, response) == Err::<R, WrongResponseTypeView>(
            WrongResponseTypeView {
                expected: dotted(path),
                actual: extended(call_of(response.tag()), path, 1, path.len() as int),
            },
        ),
{
    lemma_wrong_variant_at_level(path, 0, path.len() as int, response, response);
    lemma_annotations_extend_paths(
        path,
        1,
        path.len() as int,
        mismatch(path[0], response.tag()),
    );
}

/// A wrong variant at a nested level reaches the caller as it left the
/// innermost level.
pub proof fn lemma_wrong_variant_reaches_caller<R>(
    path: Seq<Seq<char>>,
    level: int,
    leaf: Seq<char>,
    response: Response<R>,
    found: Response<R>,
)
    requires
        0 <= level < path.len(),
        descend(response, path, level) == Some(found),
        !(found matches Response::Nested { method, .. } && method@ == path[level]),
    ensures
        resolved(path, leaf, response) == Err::<R, WrongResponseTypeView>(
            annotated(path, level + 1, path.len() as int, mismatch(path[level], found.tag())),
        ),
{
    lemma_wrong_variant_at_level(path, level, path.len() as int, response, found);
}

/// The server side of one service: it receives a request and produces the
/// response.
pub trait Handler<A, R> {
    /// Handles a request that is answered by one response. A request that is
    /// answered by a stream belongs to the streaming entry point: whoever
    /// routes requests tells the two apart with
    /// [`Request::is_streaming_response`] before calling.
    fn handle(&self, request: Request<A>) -> (response: Response<R>)
        requires
            !request.streams(),
    ;
}

/// The entry point of a handler.
#[derive(Debug, Clone, Copy, PartialEq, Eq, Structural)]
pub enum EntryPoint {
    /// The entry point for requests answered by one response
    Handle,
    /// The entry point for requests answered by a stream
    HandleStream,
}

/// Chooses the entry point of the handler for a request.
pub fn entry_point<A>(request: &Request<A>) -> (entry: EntryPoint)
    ensures
        entry == if request.streams() {
            EntryPoint::HandleStream
        } else {
            EntryPoint::Handle
        },
{
    if request.is_streaming_response() {
        EntryPoint::HandleStream
    } else {
        EntryPoint::Handle
    }
}

/// Handles the request for a sub-service: the handler of the sub-service,
/// which the nested method `name` gave, handles the embedded request, and its
/// response is wrapped back into the variant of `name`.
pub fn handle_nested<A, R, H: Handler<A, R>>(sub: &H, name: &str, inner: Request<A>) -> (response:
    Response<R>)
    requires
        !inner.streams(),
    ensures
        response matches Response::Nested { method, inner: embedded } && method@ == name@
            && call_ensures(<H as Handler<A, R>>::handle, (sub, inner), *embedded),
        inner_of(name@, Ok(response)) is Ok,
{
    wrap_response(name, sub.handle(inner))
}

/// Whether the dispatcher has a case for the method `name` before `upto`.
pub open spec fn serves(decl: ServerDecl, name: Seq<char>, upto: int) -> bool {
    exists|i: int| 0 <= i < upto && (#[trigger] decl.arms@[i]).method@ == name
}

/// Finds the dispatcher's case for a request: the first one for the method
/// that the request names, or none where the service has no such method.
pub fn find_arm<A>(decl: &ServerDecl, request: &Request<A>) -> (found: Option<usize>)
    ensures
        match found {
            Some(i) => i < decl.arms@.len() && decl.arms@[i as int].method@ == request.tag()
                && !serves(*decl, request.tag(), i as int),
            None => !serves(*decl, request.tag(), decl.arms@.len() as int),
        },
{
    let name = request.fn_name();
    let mut i: usize = 0;
    while i < decl.arms.len()
        invariant
            i <= decl.arms@.len(),
            name@ == request.tag(),
            !serves(*decl, request.tag(), i as int),
        decreases decl.arms@.len() - i,
    {
        if same_text(decl.arms[i].method.as_str(), name) {
            return Some(i);
        }
        i += 1;
    }
    None
}

} // verus!
