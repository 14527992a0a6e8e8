use trait_link::client::{
    builder, settle_reply, BlockingClient, BlockingTransport, MappedClient, MaybeWrongResponse,
    ResponseError, RpcError,
};
use trait_link::error::WrongResponseType;
use trait_link::format::{DynFormat, Format};
use trait_link::message::{to_inner, to_outer, unwrap_response, Request, Response};

#[derive(Debug, Clone, Copy, PartialEq)]
struct Lines;

impl Format<Response<u8>, Request<u8>> for Lines {
    fn content_type(&self) -> &'static str {
        "text/lines"
    }

    fn read(&self, bytes: &[u8]) -> Result<Response<u8>, String> {
        let text = String::from_utf8(bytes.to_vec()).map_err(|err| err.to_string())?;
        let mut names: Vec<&str> = text.split('/').collect();
        let result: u8 = names.pop().unwrap().parse().map_err(|_| "no value".to_string())?;
        let leaf = names.pop().ok_or("no method".to_string())?;
        let mut response = Response::Simple { method: leaf.to_string(), result };
        while let Some(name) = names.pop() {
            response = Response::Nested { method: name.to_string(), inner: Box::new(response) };
        }
        Ok(response)
    }

    fn write(&self, value: Request<u8>) -> Result<Vec<u8>, String> {
        let mut text = String::new();
        let mut request = value;
        loop {
            match request {
                Request::Nested { method, args, inner } => {
                    text += &format!("{method}:{args}/");
                    request = *inner;
                },
                Request::Simple { method, args } => {
                    text += &format!("{method}:{args}");
                    return Ok(text.into_bytes());
                },
                Request::Streaming { .. } => return Err("streams are not written".to_string()),
            }
        }
    }
}

#[derive(Debug, Clone, PartialEq)]
struct Canned {
    expect: &'static str,
    reply: Result<Result<Vec<u8>, ResponseError>, String>,
}

impl BlockingTransport for Canned {
    type Error = String;

    fn send(
        &self,
        request: Vec<u8>,
        content_type: &str,
    ) -> Result<Result<Vec<u8>, ResponseError>, String> {
        assert_eq!(content_type, "text/lines");
        assert_eq!(String::from_utf8(request).unwrap(), self.expect);
        self.reply.clone()
    }
}

fn canned(expect: &'static str, reply: &str) -> Canned {
    Canned { expect, reply: Ok(Ok(reply.as_bytes().to_vec())) }
}

fn get(id: u8) -> Request<u8> {
    Request::Simple { method: "get".to_string(), args: id }
}

#[test]
fn replies_are_sorted_into_outcomes() {
    assert_eq!(settle_reply::<String>(Ok(Ok(vec![1]))), Ok(vec![1]));
    assert_eq!(
        settle_reply::<String>(Ok(Err(ResponseError::Unexpected))),
        Err(RpcError::Response(ResponseError::Unexpected))
    );
    assert_eq!(
        settle_reply::<String>(Ok(Err(ResponseError::BadRequest("no".to_string())))),
        Err(RpcError::Response(ResponseError::BadRequest("no".to_string())))
    );
    assert_eq!(
        settle_reply(Err("down".to_string())),
        Err(RpcError::Transport("down".to_string()))
    );
}

#[test]
fn only_a_mismatch_casts_to_a_mismatch() {
    let wrong = WrongResponseType::new("a", "b");
    let error: RpcError<String> = RpcError::WrongResponseType(wrong.clone());
    assert_eq!(error.into_wrong_response(), Ok(wrong.clone()));
    let other: RpcError<String> = RpcError::Serialize("bad".to_string());
    assert_eq!(other.into_wrong_response(), Err(RpcError::Serialize("bad".to_string())));
    let transport: RpcError<String> = RpcError::Transport("down".to_string());
    assert_eq!(transport.into_wrong_response(), Err(RpcError::Transport("down".to_string())));
    assert_eq!(RpcError::<String>::from(wrong.clone()), RpcError::WrongResponseType(wrong));
    assert_eq!(
        RpcError::<String>::from(ResponseError::Unexpected),
        RpcError::Response(ResponseError::Unexpected)
    );
}

#[test]
fn simple_client_writes_sends_and_reads() {
    let client = builder().blocking(Lines, canned("get:7", "get/9"));
    let response: Result<Response<u8>, RpcError<String>> = client.send(get(7));
    assert_eq!(response, Ok(Response::Simple { method: "get".to_string(), result: 9 }));
    assert_eq!(unwrap_response("get", response.unwrap()), Ok(9));
}

#[test]
fn simple_client_reports_each_failure() {
    let send = |transport: Canned, request: Request<u8>| -> Result<Response<u8>, RpcError<String>> {
        builder().blocking(Lines, transport).send(request)
    };
    let streaming = Request::Streaming { method: "watch".to_string(), args: 0 };
    assert_eq!(
        send(canned("", ""), streaming),
        Err(RpcError::Serialize("streams are not written".to_string()))
    );
    let down = Canned { expect: "get:1", reply: Err("down".to_string()) };
    assert_eq!(send(down, get(1)), Err(RpcError::Transport("down".to_string())));
    let rejected = Canned {
        expect: "get:1",
        reply: Ok(Err(ResponseError::InternalServerError("boom".to_string()))),
    };
    assert_eq!(
        send(rejected, get(1)),
        Err(RpcError::Response(ResponseError::InternalServerError("boom".to_string())))
    );
    assert_eq!(
        send(canned("get:1", "get/x"), get(1)),
        Err(RpcError::Deserialize("no value".to_string()))
    );
}

#[test]
fn builder_keeps_format_and_transport() {
    let client = builder().non_blocking(Lines, 5u8);
    assert_eq!(client.format, Lines);
    assert_eq!(client.transport, 5);
    let blocking = builder().blocking(Lines, canned("a", "b"));
    assert_eq!(blocking.transport, canned("a", "b"));
}

fn users_inner(
    outer: Result<Response<u8>, WrongResponseType>,
) -> Result<Response<u8>, WrongResponseType> {
    to_inner("users", outer)
}

fn users_outer(args: &u8, inner: Request<u8>) -> Request<u8> {
    to_outer("users", *args, inner)
}

fn by_id_inner(
    outer: Result<Response<u8>, WrongResponseType>,
) -> Result<Response<u8>, WrongResponseType> {
    to_inner("by_id", outer)
}

fn by_id_outer(args: &u8, inner: Request<u8>) -> Request<u8> {
    to_outer("by_id", *args, inner)
}

#[test]
fn mapped_client_tunnels_through_its_parent() {
    let root = builder().blocking(Lines, canned("users:0/by_id:3/get:7", "users/by_id/get/5"));
    let users = MappedClient::new(root, 0u8, users_inner, users_outer);
    let user = MappedClient::new(users, 3u8, by_id_inner, by_id_outer);
    let response = user.send(get(7));
    assert_eq!(response, Ok(Response::Simple { method: "get".to_string(), result: 5 }));
}

#[test]
fn mapped_client_wraps_requests() {
    let root = builder().blocking(Lines, canned("", ""));
    let users = MappedClient::new(root, 4u8, users_inner, users_outer);
    assert_eq!(
        users.wrap(get(1)),
        Request::Nested { method: "users".to_string(), args: 4, inner: Box::new(get(1)) }
    );
}

#[test]
fn mapped_client_reports_the_level_of_a_mismatch() {
    let root = builder().blocking(Lines, canned("users:0/by_id:3/get:7", "users/current/get/5"));
    let users = MappedClient::new(root, 0u8, users_inner, users_outer);
    let user = MappedClient::new(users, 3u8, by_id_inner, by_id_outer);
    assert_eq!(
        user.send(get(7)),
        Err(RpcError::WrongResponseType(WrongResponseType {
            expected: "by_id()".to_string(),
            actual: "current()".to_string(),
        }))
    );
    let root = builder().blocking(Lines, canned("users:0/by_id:3/get:7", "login/5"));
    let users = MappedClient::new(root, 0u8, users_inner, users_outer);
    let user = MappedClient::new(users, 3u8, by_id_inner, by_id_outer);
    assert_eq!(
        user.send(get(7)),
        Err(RpcError::WrongResponseType(WrongResponseType {
            expected: "users().by_id()".to_string(),
            actual: "login().by_id()".to_string(),
        }))
    );
}

#[test]
fn mapped_client_hands_other_errors_on() {
    let down = Canned { expect: "users:0/get:7", reply: Err("down".to_string()) };
    let users = MappedClient::new(builder().blocking(Lines, down), 0u8, users_inner, users_outer);
    assert_eq!(users.send(get(7)), Err(RpcError::Transport("down".to_string())));
    let settled: Result<Response<u8>, RpcError<String>> =
        users.settle(Err(RpcError::Deserialize("bad".to_string())));
    assert_eq!(settled, Err(RpcError::Deserialize("bad".to_string())));
}

#[test]
fn mapped_client_annotates_mismatches_from_further_out() {
    let root = builder().blocking(Lines, canned("", ""));
    let users = MappedClient::new(root, 0u8, users_inner, users_outer);
    let outer: RpcError<String> =
        RpcError::WrongResponseType(WrongResponseType::new("accounts", "login"));
    assert_eq!(
        users.settle(Err(outer)),
        Err(RpcError::WrongResponseType(WrongResponseType {
            expected: "accounts().users()".to_string(),
            actual: "login().users()".to_string(),
        }))
    );
}

#[test]
fn every_format_is_a_dyn_format() {
    let info = DynFormat::<Response<u8>, Request<u8>>::info(&Lines);
    assert_eq!(info.http_content_type, "text/lines");
    let bytes = DynFormat::<Response<u8>, Request<u8>>::write(&Lines, get(2)).unwrap();
    assert_eq!(bytes, b"get:2".to_vec());
    let read = DynFormat::<Response<u8>, Request<u8>>::read(&Lines, b"get/2");
    assert_eq!(read, Ok(Response::Simple { method: "get".to_string(), result: 2 }));
}
