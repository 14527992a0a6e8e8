//! The client side of the runtime: the contracts of transports and clients,
//! the client that pairs one format with one transport, and the client that
//! reaches a sub-service through the client of its parent.

use crate::error::WrongResponseType;
use crate::format::Format;
use core::marker::PhantomData;
use vstd::prelude::*;
use vstd::std_specs::convert::FromSpec;

verus! {

/// Indicates that the transport was successful, but the response indicated some problem
#[derive(Debug, Clone, PartialEq, Eq)]
pub enum ResponseError {
    /// Request was improperly formatted
    BadRequest(String),
    /// Internal Server Error
    InternalServerError(String),
    /// Unexpected response
    Unexpected,
}

impl ResponseError {
    /// The error as a sentence.
    pub fn message(&self) -> (text: String)
        ensures
            text@ == match self {
                ResponseError::BadRequest(detail) => "Request was rejected: "@ + detail@,
                ResponseError::InternalServerError(detail) => "Internal Server Error: "@
                    + detail@,
                ResponseError::Unexpected => "Unexpected response"@,
            },
    {
        match self {
            ResponseError::BadRequest(detail) => String::from_str("Request was rejected: ").concat(
                detail.as_str(),
            ),
            ResponseError::InternalServerError(detail) => String::from_str(
                "Internal Server Error: ",
            ).concat(detail.as_str()),
            ResponseError::Unexpected => String::from_str("Unexpected response"),
        }
    }
}

/// This is an error that the client may return after a request
#[derive(Debug, PartialEq, Eq)]
pub enum RpcError<T> {
    /// The transport layer returned an error
    Transport(T),
    /// The remote end rejected the call
    Response(ResponseError),
    /// Failed to serialize the request
    Serialize(String),
    /// Failed to deserialize the response
    Deserialize(String),
    /// Response was the wrong type, sent a request for one function, but received the response of a different one
    WrongResponseType(WrongResponseType),
}

/// An error which might be a [`WrongResponseType`] error
pub trait MaybeWrongResponse: Sized {
    /// The mismatch that the error stands for, if it stands for one.
    spec fn wrong_response(&self) -> Option<WrongResponseType>;

    /// Try to cast to a [`WrongResponseType`]; an error of another kind comes
    /// back unchanged.
    fn into_wrong_response(self) -> (cast: Result<WrongResponseType, Self>)
        ensures
            match cast {
                Ok(wrong) => self.wrong_response() == Some(wrong),
                Err(other) => self.wrong_response() is None && other == self,
            },
    ;
}

impl<T> MaybeWrongResponse for RpcError<T> {
    open spec fn wrong_response(&self) -> Option<WrongResponseType> {
        match self {
            RpcError::WrongResponseType(wrong) => Some(*wrong),
            _ => None,
        }
    }

    fn into_wrong_response(self) -> (cast: Result<WrongResponseType, Self>) {
        match self {
            RpcError::WrongResponseType(wrong) => Ok(wrong),
            other => Err(other),
        }
    }
}

impl<T> From<WrongResponseType> for RpcError<T> {
    fn from(wrong: WrongResponseType) -> (error: Self) {
        RpcError::WrongResponseType(wrong)
    }
}

impl<T> vstd::std_specs::convert::FromSpecImpl<WrongResponseType> for RpcError<T> {
    open spec fn obeys_from_spec() -> bool {
        true
    }

    open spec fn from_spec(wrong: WrongResponseType) -> Self {
        RpcError::WrongResponseType(wrong)
    }
}

impl<T> From<ResponseError> for RpcError<T> {
    fn from(rejection: ResponseError) -> (error: Self) {
        RpcError::Response(rejection)
    }
}

impl<T> vstd::std_specs::convert::FromSpecImpl<ResponseError> for RpcError<T> {
    open spec fn obeys_from_spec() -> bool {
        true
    }

    open spec fn from_spec(rejection: ResponseError) -> Self {
        RpcError::Response(rejection)
    }
}

/// What a transport's answer means for the call: the body of an accepted
/// call, else the rejection or the transport's own error.
pub open spec fn reply_outcome<E>(reply: Result<Result<Vec<u8>, ResponseError>, E>) -> Result<
    Vec<u8>,
    RpcError<E>,
> {
    match reply {
        Ok(Ok(body)) => Ok(body),
        Ok(Err(rejection)) => Err(RpcError::Response(rejection)),
        Err(error) => Err(RpcError::Transport(error)),
    }
}

/// Sorts a transport's answer: a rejection by the remote end is kept apart
/// from a failure of the transport.
pub fn settle_reply<E>(reply: Result<Result<Vec<u8>, ResponseError>, E>) -> (outcome: Result<
    Vec<u8>,
    RpcError<E>,
>)
    ensures
        outcome == reply_outcome(reply),
{
    match reply {
        Ok(Ok(body)) => Ok(body),
        Ok(Err(rejection)) => Err(RpcError::Response(rejection)),
        Err(error) => Err(RpcError::Transport(error)),
    }
}

/// This trait describes the transport layer of a client,
///
/// It is responsible for sending the request and waiting for a response.
/// It is not tied to any particular form of serialisation or communication.
pub trait BlockingTransport {
    /// This is the error type which is returned in the case that some part of the transport failed
    type Error;

    /// Sends the request and returns the response
    fn send(&self, request: Vec<u8>, content_type: &str) -> (reply: Result<
        Result<Vec<u8>, ResponseError>,
        Self::Error,
    >);
}

/// A client implementation for sending requests in a blocking manner
pub trait BlockingClient<Req, Resp> {
    /// The error that can happen during send
    type Error: MaybeWrongResponse + From<WrongResponseType>;

    /// Send a request and receive a response
    fn send(&self, request: Req) -> (response: Result<Resp, Self::Error>);
}

/// A client builder for building any kind of client
#[derive(Debug, Clone, Copy, PartialEq, Eq)]
pub struct Builder;

/// Return a client builder
pub fn builder() -> (made: Builder) {
    Builder
}

impl Builder {
    /// Build an asynchronous client from a format and a transport
    pub fn non_blocking<F, T>(self, format: F, transport: T) -> (client: SimpleClient<F, T>)
        ensures
            client.format == format,
            client.transport == transport,
    {
        SimpleClient { format, transport }
    }

    /// Build a blocking client from a format and a transport
    pub fn blocking<F, T: BlockingTransport>(self, format: F, transport: T) -> (client:
        SimpleClient<F, T>)
        ensures
            client.format == format,
            client.transport == transport,
    {
        SimpleClient { format, transport }
    }
}

/// A simple client which has a transport and format specified
#[derive(Debug, Clone, Copy, PartialEq, Eq)]
pub struct SimpleClient<F, T> {
    /// The format of requests and responses
    pub format: F,
    /// The transport that carries them
    pub transport: T,
}

impl<F, T, Req, Resp> BlockingClient<Req, Resp> for SimpleClient<F, T> where
    F: Format<Resp, Req>,
    T: BlockingTransport,
 {
    type Error = RpcError<T::Error>;

    /// Writes the request, sends it, and reads the response. An error of
    /// the format or of the transport ends the call where it occurs; none of
    /// them is reported as a response of the wrong method.
    fn send(&self, request: Req) -> (response: Result<Resp, Self::Error>)
        ensures
            called::<F, T, Req, Resp>(*self, request, response),
            response matches Err(error) ==> error.wrong_response() is None,
    {
        let written = self.format.write(request);
        let bytes = match written {
            Ok(bytes) => bytes,
            Err(error) => {
                return Err(RpcError::Serialize(error));
            },
        };
        let name = self.format.content_type();
        let reply = self.transport.send(bytes, name);
        let body = match settle_reply(reply) {
            Ok(body) => body,
            Err(error) => {
                assert(sent_as::<F, T, Req, Resp>(*self, bytes, Err(error)));
                return Err(error);
            },
        };
        let slice = body.as_slice();
        let read = self.format.read(slice);
        let response = match read {
            Ok(response) => Ok(response),
            Err(error) => Err(RpcError::Deserialize(error)),
        };
        assert(read_from::<F, T, Req, Resp>(*self, body, response));
        assert(sent_as::<F, T, Req, Resp>(*self, bytes, response));
        response
    }
}

/// What a call comes to once the format has read the body: the response, or
/// the format's failure to read it.
pub open spec fn read_outcome<Resp, E>(read: Result<Resp, String>) -> Result<Resp, RpcError<E>> {
    match read {
        Ok(response) => Ok(response),
        Err(detail) => Err(RpcError::Deserialize(detail)),
    }
}

/// Whether `response` is what a call comes to after the transport returned
/// `body`: the client's format was given these bytes to read, and the call
/// comes to what it made of them.
pub open spec fn read_from<F, T, Req, Resp>(
    client: SimpleClient<F, T>,
    body: Vec<u8>,
    response: Result<Resp, RpcError<T::Error>>,
) -> bool where F: Format<Resp, Req>, T: BlockingTransport {
    exists|bytes: &[u8], read: Result<Resp, String>|
        #![trigger call_ensures(<F as Format<Resp, Req>>::read, (&client.format, bytes), read)]
        bytes@ == body@ && call_ensures(
            <F as Format<Resp, Req>>::read,
            (&client.format, bytes),
            read,
        ) && response == read_outcome::<Resp, T::Error>(read)
}

/// Whether `response` is what a call comes to after the request was written
/// as `bytes`: the client's transport was given these bytes under the
/// format's content type, and the call comes to its error, to the rejection
/// it reports, or to what the format reads from the body it returns.
pub open spec fn sent_as<F, T, Req, Resp>(
    client: SimpleClient<F, T>,
    bytes: Vec<u8>,
    response: Result<Resp, RpcError<T::Error>>,
) -> bool where F: Format<Resp, Req>, T: BlockingTransport {
    exists|name: &'static str, reply: Result<Result<Vec<u8>, ResponseError>, T::Error>|
        #![trigger call_ensures(<T as BlockingTransport>::send, (&client.transport, bytes, name), reply)]
        call_ensures(<F as Format<Resp, Req>>::content_type, (&client.format,), name)
            && call_ensures(
            <T as BlockingTransport>::send,
            (&client.transport, bytes, name),
            reply,
        ) && match reply_outcome(reply) {
            Ok(body) => read_from::<F, T, Req, Resp>(client, body, response),
            Err(error) => response == Err::<Resp, RpcError<T::Error>>(error),
        }
}

/// Whether `response` is what a call with `request` comes to: the client's
/// format was given the request to write; where it failed, the call comes to
/// that failure, else to what follows from sending what it wrote.
pub open spec fn called<F, T, Req, Resp>(
    client: SimpleClient<F, T>,
    request: Req,
    response: Result<Resp, RpcError<T::Error>>,
) -> bool where F: Format<Resp, Req>, T: BlockingTransport {
    exists|written: Result<Vec<u8>, String>|
        #![trigger call_ensures(<F as Format<Resp, Req>>::write, (&client.format, request), written)]
        call_ensures(<F as Format<Resp, Req>>::write, (&client.format, request), written)
            && match written {
            Ok(bytes) => sent_as::<F, T, Req, Resp>(client, bytes, response),
            Err(detail) => response == Err::<Resp, RpcError<T::Error>>(
                RpcError::Serialize(detail),
            ),
        }
}

/// Whether the two steps of a nested client accept whatever they are given.
pub open spec fn steps_total<InnerReq, OuterReq, InnerResp, OuterResp, Args, ToInner, ToOuter>(
    args: Args,
    to_inner: ToInner,
    to_outer: ToOuter,
) -> bool where
    ToInner: Fn(Result<OuterResp, WrongResponseType>) -> Result<InnerResp, WrongResponseType>,
    ToOuter: Fn(&Args, InnerReq) -> OuterReq,
 {
    &&& forall|request: InnerReq| #[trigger] call_requires(to_outer, (&args, request))
    &&& forall|outcome: Result<OuterResp, WrongResponseType>| #[trigger]
        call_requires(to_inner, (outcome,))
}

/// This is a client used for nesting services: it sends the requests of a
/// sub-service through the client of the service that leads to it.
#[verifier::reject_recursive_types(InnerReq)]
#[verifier::reject_recursive_types(OuterReq)]
#[verifier::reject_recursive_types(InnerResp)]
#[verifier::reject_recursive_types(OuterResp)]
#[verifier::reject_recursive_types(Args)]
pub struct MappedClient<T, InnerReq, OuterReq, InnerResp, OuterResp, Args, ToInner, ToOuter> where
    ToInner: Fn(Result<OuterResp, WrongResponseType>) -> Result<InnerResp, WrongResponseType>,
    ToOuter: Fn(&Args, InnerReq) -> OuterReq,
 {
    outer: T,
    args: Args,
    to_inner: ToInner,
    to_outer: ToOuter,
    messages: PhantomData<(InnerReq, OuterReq, InnerResp, OuterResp)>,
}

impl<
    T,
    InnerReq,
    OuterReq,
    InnerResp,
    OuterResp,
    Args,
    ToInner,
    ToOuter,
> MappedClient<T, InnerReq, OuterReq, InnerResp, OuterResp, Args, ToInner, ToOuter> where
    ToInner: Fn(Result<OuterResp, WrongResponseType>) -> Result<InnerResp, WrongResponseType>,
    ToOuter: Fn(&Args, InnerReq) -> OuterReq,
 {
    /// The client through which the requests are sent.
    pub closed spec fn outer(&self) -> T {
        self.outer
    }

    /// The arguments of the call that led to the sub-service.
    pub closed spec fn args(&self) -> Args {
        self.args
    }

    /// The step from a response of the outer service to one of the sub-service.
    pub closed spec fn to_inner(&self) -> ToInner {
        self.to_inner
    }

    /// The step from a request of the sub-service to one of the outer service.
    pub closed spec fn to_outer(&self) -> ToOuter {
        self.to_outer
    }

    /// Both steps accept whatever they are given.
    #[verifier::type_invariant]
    spec fn total(self) -> bool {
        steps_total::<InnerReq, OuterReq, InnerResp, OuterResp, Args, ToInner, ToOuter>(
            self.args,
            self.to_inner,
            self.to_outer,
        )
    }

    /// A client for the sub-service reached by a call with `args` on `inner`.
    /// The two steps must accept whatever they are given.
    pub fn new(inner: T, args: Args, to_inner: ToInner, to_outer: ToOuter) -> (client: Self)
        requires
            steps_total::<InnerReq, OuterReq, InnerResp, OuterResp, Args, ToInner, ToOuter>(
                args,
                to_inner,
                to_outer,
            ),
        ensures
            client.outer() == inner,
            client.args() == args,
            client.to_inner() == to_inner,
            client.to_outer() == to_outer,
    {
        MappedClient { outer: inner, args, to_inner, to_outer, messages: PhantomData }
    }

    /// The client through which the requests are sent.
    pub fn outer_client(&self) -> (outer: &T)
        ensures
            *outer == self.outer(),
    {
        &self.outer
    }

    /// Wraps a request of the sub-service into the request of the outer
    /// service that carries it.
    pub fn wrap(&self, request: InnerReq) -> (outer: OuterReq)
        ensures
            call_ensures(self.to_outer(), (&self.args(), request), outer),
    {
        proof {
            use_type_invariant(self);
            assert(call_requires(self.to_outer, (&self.args, request)));
        }
        (self.to_outer)(&self.args, request)
    }

    /// Turns what the outer client returned into what the caller of the
    /// sub-service gets. A response goes through the inner step; so does a
    /// mismatch reported further out, which the step annotates. Any other
    /// error of the outer client is handed on unchanged.
    pub fn settle<E: MaybeWrongResponse + From<WrongResponseType>>(&self, outcome: Result<OuterResp, E>) -> (settled:
        Result<InnerResp, E>)
        ensures
            self.settles_to(outcome, settled),
    {
        let seen = match outcome {
            Ok(response) => Ok(response),
            Err(error) => match error.into_wrong_response() {
                Ok(wrong) => Err(wrong),
                Err(other) => {
                    return Err(other);
                },
            },
        };
        proof {
            use_type_invariant(self);
            assert(call_requires(self.to_inner, (seen,)));
        }
        let inner = (self.to_inner)(seen);
        let settled = match inner {
            Ok(response) => Ok(response),
            Err(wrong) => Err(E::from(wrong)),
        };
        assert(call_ensures(self.to_inner(), (seen,), inner));
        settled
    }

    /// Whether `settled` is what the caller of the sub-service gets when the
    /// outer client returned `outcome`.
    pub open spec fn settles_to<E: MaybeWrongResponse + From<WrongResponseType>>(
        &self,
        outcome: Result<OuterResp, E>,
        settled: Result<InnerResp, E>,
    ) -> bool {
        match outcome {
            Ok(response) => self.unwrapped(Ok(response), settled),
            Err(error) => match error.wrong_response() {
                Some(wrong) => self.unwrapped(Err(wrong), settled),
                None => settled == Err::<InnerResp, E>(error),
            },
        }
    }

    /// Whether `settled` is what the inner step makes of `seen`: its response,
    /// or the mismatch it reports, turned into the client's error.
    pub open spec fn unwrapped<E: MaybeWrongResponse + From<WrongResponseType>>(
        &self,
        seen: Result<OuterResp, WrongResponseType>,
        settled: Result<InnerResp, E>,
    ) -> bool {
        exists|inner: Result<InnerResp, WrongResponseType>|
            #![trigger call_ensures(self.to_inner(), (seen,), inner)]
            call_ensures(self.to_inner(), (seen,), inner) && match inner {
                Ok(response) => settled == Ok::<InnerResp, E>(response),
                Err(wrong) => settled is Err && (E::obeys_from_spec() ==> settled->Err_0
                    == E::from_spec(wrong)),
            }
    }
}

impl<
    T: Clone,
    InnerReq,
    OuterReq,
    InnerResp,
    OuterResp,
    Args: Copy,
    ToInner: Copy,
    ToOuter: Copy,
> Clone for MappedClient<T, InnerReq, OuterReq, InnerResp, OuterResp, Args, ToInner, ToOuter> where
    ToInner: Fn(Result<OuterResp, WrongResponseType>) -> Result<InnerResp, WrongResponseType>,
    ToOuter: Fn(&Args, InnerReq) -> OuterReq,
 {
    /// A second client for the same sub-service, with the same arguments and
    /// steps, over a copy of the outer client.
    fn clone(&self) -> (copy: Self)
        ensures
            copy.args() == self.args(),
            copy.to_inner() == self.to_inner(),
            copy.to_outer() == self.to_outer(),
    {
        proof {
            use_type_invariant(self);
        }
        MappedClient {
            outer: self.outer.clone(),
            args: self.args,
            to_inner: self.to_inner,
            to_outer: self.to_outer,
            messages: PhantomData,
        }
    }
}

impl<
    T,
    InnerReq,
    OuterReq,
    InnerResp,
    OuterResp,
    Args,
    ToInner,
    ToOuter,
> BlockingClient<InnerReq, InnerResp> for MappedClient<
    T,
    InnerReq,
    OuterReq,
    InnerResp,
    OuterResp,
    Args,
    ToInner,
    ToOuter,
> where
    T: BlockingClient<OuterReq, OuterResp>,
    ToInner: Fn(Result<OuterResp, WrongResponseType>) -> Result<InnerResp, WrongResponseType>,
    ToOuter: Fn(&Args, InnerReq) -> OuterReq,
 {
    type Error = T::Error;

    /// Wraps the request, sends it through the outer client and settles
    /// what comes back: the outer client is given what the outer step made of
    /// the request, and whatever it returned, the caller gets what the
    /// settling makes of it.
    fn send(&self, request: InnerReq) -> (response: Result<InnerResp, Self::Error>)
        ensures
            exists|wrapped: OuterReq, outcome: Result<OuterResp, T::Error>|
                #![trigger self.settles_to(outcome, response), call_ensures(self.to_outer(), (&self.args(), request), wrapped)]
                call_ensures(self.to_outer(), (&self.args(), request), wrapped) && call_ensures(
                    <T as BlockingClient<OuterReq, OuterResp>>::send,
                    (&self.outer(), wrapped),
                    outcome,
                ) && self.settles_to(outcome, response),
    {
        let wrapped = self.wrap(request);
        let outcome = self.outer.send(wrapped);
        let response = self.settle(outcome);
        assert(call_ensures(self.to_outer(), (&self.args(), request), wrapped));
        assert(self.settles_to(outcome, response));
        response
    }
}

} // verus!
