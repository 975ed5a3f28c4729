//! Requests and notifications.

use crate::error::{CodecError, Field};
use crate::fields::{required, required_spec, required_string, result_view, string_of};
use crate::header::{entry, id_of, read_id, read_version, version_of};
use crate::id::{IdView, RequestId};
use crate::json::{entry_views, lemma_object_view, Json, JsonView, Member};
use crate::version::ProtocolVersion;
use vstd::prelude::*;

verus! {

/// Represents a request.
#[derive(Debug, PartialEq, Eq)]
pub struct Request<P = Json> {
    pub jsonrpc: ProtocolVersion,
    pub id: RequestId,
    pub method: String,
    pub params: P,
}

/// Represents a notification.
#[derive(Debug, PartialEq, Eq)]
pub struct Notification<P = Json> {
    pub jsonrpc: ProtocolVersion,
    pub method: String,
    pub params: P,
}

impl<P: Clone> Clone for Request<P> {
    fn clone(&self) -> (r: Self)
        ensures
            r.jsonrpc == self.jsonrpc,
            r.id@ == self.id@,
            r.method@ == self.method@,
            cloned(self.params, r.params),
    {
        Request {
            jsonrpc: self.jsonrpc,
            id: self.id.clone(),
            method: self.method.clone(),
            params: self.params.clone(),
        }
    }
}

impl<P: Clone> Clone for Notification<P> {
    fn clone(&self) -> (r: Self)
        ensures
            r.jsonrpc == self.jsonrpc,
            r.method@ == self.method@,
            cloned(self.params, r.params),
    {
        Notification {
            jsonrpc: self.jsonrpc,
            method: self.method.clone(),
            params: self.params.clone(),
        }
    }
}

/// The mathematical value of a request.
pub struct RequestView<P> {
    pub jsonrpc: ProtocolVersion,
    pub id: IdView,
    pub method: Seq<char>,
    pub params: P,
}

/// The mathematical value of a notification.
pub struct NotificationView<P> {
    pub jsonrpc: ProtocolVersion,
    pub method: Seq<char>,
    pub params: P,
}

impl<P: View> View for Request<P> {
    type V = RequestView<P::V>;

    open spec fn view(&self) -> RequestView<P::V> {
        RequestView {
            jsonrpc: self.jsonrpc,
            id: self.id@,
            method: self.method@,
            params: self.params@,
        }
    }
}

impl<P: View> View for Notification<P> {
    type V = NotificationView<P::V>;

    open spec fn view(&self) -> NotificationView<P::V> {
        NotificationView { jsonrpc: self.jsonrpc, method: self.method@, params: self.params@ }
    }
}

impl RequestView<JsonView> {
    /// The JSON object of a request: its four fields, in this order.
    pub open spec fn encode(self) -> JsonView {
        JsonView::Object(
            seq![
                (Field::Jsonrpc.key(), self.jsonrpc.encode()),
                (Field::Id.key(), self.id.encode()),
                (Field::Method.key(), JsonView::String(self.method)),
                (Field::Params.key(), self.params),
            ],
        )
    }

    /// The request that a JSON value stands for. The value must be an
    /// object that holds each of the four fields once; other entries are
    /// passed over. The fields are held to account in the order `jsonrpc`,
    /// `id`, `method`, `params`, and the first that fails gives the error.
    pub open spec fn decode(value: JsonView) -> Result<RequestView<JsonView>, CodecError> {
        match value {
            JsonView::Object(entries) => {
                let jsonrpc = version_of(entries);
                let id = id_of(entries);
                let method = required_string(entries, Field::Method);
                let params = required_spec(entries, Field::Params);
                if jsonrpc is Err {
                    Err(jsonrpc->Err_0)
                } else if id is Err {
                    Err(id->Err_0)
                } else if method is Err {
                    Err(method->Err_0)
                } else if params is Err {
                    Err(params->Err_0)
                } else {
                    Ok(
                        RequestView {
                            jsonrpc: jsonrpc->Ok_0,
                            id: id->Ok_0,
                            method: method->Ok_0,
                            params: params->Ok_0,
                        },
                    )
                }
            },
            _ => Err(CodecError::NotAnObject),
        }
    }
}

impl NotificationView<JsonView> {
    /// The JSON object of a notification: its three fields, in this order.
    pub open spec fn encode(self) -> JsonView {
        JsonView::Object(
            seq![
                (Field::Jsonrpc.key(), self.jsonrpc.encode()),
                (Field::Method.key(), JsonView::String(self.method)),
                (Field::Params.key(), self.params),
            ],
        )
    }

    /// The notification that a JSON value stands for, read as a request is
    /// but for the identifier.
    pub open spec fn decode(value: JsonView) -> Result<NotificationView<JsonView>, CodecError> {
        match value {
            JsonView::Object(entries) => {
                let jsonrpc = version_of(entries);
                let method = required_string(entries, Field::Method);
                let params = required_spec(entries, Field::Params);
                if jsonrpc is Err {
                    Err(jsonrpc->Err_0)
                } else if method is Err {
                    Err(method->Err_0)
                } else if params is Err {
                    Err(params->Err_0)
                } else {
                    Ok(
                        NotificationView {
                            jsonrpc: jsonrpc->Ok_0,
                            method: method->Ok_0,
                            params: params->Ok_0,
                        },
                    )
                }
            },
            _ => Err(CodecError::NotAnObject),
        }
    }
}

/// Reads a required string field out of an object.
pub fn read_string(members: &Vec<Member>, field: Field) -> (r: Result<String, CodecError>)
    ensures
        result_view(r) == required_string(entry_views(members@), field),
{
    match required(members, field) {
        Ok(value) => string_of(value, field),
        Err(e) => Err(e),
    }
}

impl Request<Json> {
    /// Encodes the request as a JSON object.
    pub fn to_json(&self) -> (json: Json)
        ensures
            json@ == self@.encode(),
    {
        let mut members: Vec<Member> = Vec::new();
        members.push(entry(Field::Jsonrpc, self.jsonrpc.to_json()));
        members.push(entry(Field::Id, self.id.to_json()));
        members.push(entry(Field::Method, Json::String(self.method.clone())));
        members.push(entry(Field::Params, self.params.clone()));
        proof {
            lemma_object_view(members);
            assert(entry_views(members@) =~= self@.encode()->Object_0);
        }
        Json::Object(members)
    }

    /// Decodes a request from a JSON value.
    pub fn from_json(json: &Json) -> (r: Result<Request<Json>, CodecError>)
        ensures
            result_view(r) == RequestView::decode(json@),
    {
        let members = match json {
            Json::Object(members) => members,
            _ => {
                return Err(CodecError::NotAnObject);
            },
        };
        proof {
            lemma_object_view(*members);
        }
        let jsonrpc = match read_version(members) {
            Ok(jsonrpc) => jsonrpc,
            Err(e) => {
                return Err(e);
            },
        };
        let id = match read_id(members) {
            Ok(id) => id,
            Err(e) => {
                return Err(e);
            },
        };
        let method = match read_string(members, Field::Method) {
            Ok(method) => method,
            Err(e) => {
                return Err(e);
            },
        };
        let params = match required(members, Field::Params) {
            Ok(params) => params.clone(),
            Err(e) => {
                return Err(e);
            },
        };
        Ok(Request { jsonrpc, id, method, params })
    }
}

impl Notification<Json> {
    /// Encodes the notification as a JSON object.
    pub fn to_json(&self) -> (json: Json)
        ensures
            json@ == self@.encode(),
    {
        let mut members: Vec<Member> = Vec::new();
        members.push(entry(Field::Jsonrpc, self.jsonrpc.to_json()));
        members.push(entry(Field::Method, Json::String(self.method.clone())));
        members.push(entry(Field::Params, self.params.clone()));
        proof {
            lemma_object_view(members);
            assert(entry_views(members@) =~= self@.encode()->Object_0);
        }
        Json::Object(members)
    }

    /// Decodes a notification from a JSON value.
    pub fn from_json(json: &Json) -> (r: Result<Notification<Json>, CodecError>)
        ensures
            result_view(r) == NotificationView::decode(json@),
    {
        let members = match json {
            Json::Object(members) => members,
            _ => {
                return Err(CodecError::NotAnObject);
            },
        };
        proof {
            lemma_object_view(*members);
        }
        let jsonrpc = match read_version(members) {
            Ok(jsonrpc) => jsonrpc,
            Err(e) => {
                return Err(e);
            },
        };
        let method = match read_string(members, Field::Method) {
            Ok(method) => method,
            Err(e) => {
                return Err(e);
            },
        };
        let params = match required(members, Field::Params) {
            Ok(params) => params.clone(),
            Err(e) => {
                return Err(e);
            },
        };
        Ok(Notification { jsonrpc, method, params })
    }
}

} // verus!
