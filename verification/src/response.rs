//! Responses: a result or an error, never both and never neither.

use crate::error::{CodecError, Field};
use crate::fields::{
    integer_of, optional, optional_spec, present, present_spec, required, required_integer,
    required_string, result_view,
};
use crate::header::{entry, id_of, read_id, read_version, version_of};
use crate::id::{IdView, RequestId};
use crate::json::{entry_views, lemma_object_view, Json, JsonNumber, JsonView, Member};
use crate::request::read_string;
use crate::version::ProtocolVersion;
use vstd::prelude::*;

verus! {

/// Represents a successful response.
#[derive(Debug, PartialEq, Eq)]
pub struct ResultRes<R> {
    pub jsonrpc: ProtocolVersion,
    pub id: RequestId,
    pub result: R,
}

/// Represents a failed response.
#[derive(Debug, PartialEq, Eq)]
pub struct ErrorRes<E> {
    pub jsonrpc: ProtocolVersion,
    pub id: RequestId,
    pub code: i64,
    pub message: String,
    pub data: Option<E>,
}

/// Represents a response which can be successful or failed.
#[derive(Debug, PartialEq, Eq)]
pub struct Response<R = Json, E = Json>(Result<ResultRes<R>, ErrorRes<E>>);

/// The `error` member of a response as it stands on the wire.
#[derive(Debug, PartialEq, Eq)]
pub struct RawError<E> {
    pub code: i64,
    pub message: String,
    pub data: Option<E>,
}

/// A response as it stands on the wire, before it is known whether it
/// holds a result, an error, both or neither.
#[derive(Debug, PartialEq, Eq)]
pub struct RawResponse<R, E> {
    pub jsonrpc: ProtocolVersion,
    pub id: RequestId,
    pub result: Option<R>,
    pub error: Option<RawError<E>>,
}

/// One payload that may be absent is a copy of another.
pub open spec fn cloned_option<T: Clone>(source: Option<T>, copy: Option<T>) -> bool {
    match (source, copy) {
        (Some(a), Some(b)) => cloned(a, b),
        (None, None) => true,
        _ => false,
    }
}

/// One successful response is a copy of another.
pub open spec fn cloned_result<R: Clone>(source: ResultRes<R>, copy: ResultRes<R>) -> bool {
    &&& copy.jsonrpc == source.jsonrpc
    &&& copy.id@ == source.id@
    &&& cloned(source.result, copy.result)
}

/// One `error` member is a copy of another.
pub open spec fn cloned_raw_error<E: Clone>(source: RawError<E>, copy: RawError<E>) -> bool {
    &&& copy.code == source.code
    &&& copy.message@ == source.message@
    &&& cloned_option(source.data, copy.data)
}

/// One failed response is a copy of another.
pub open spec fn cloned_error<E: Clone>(source: ErrorRes<E>, copy: ErrorRes<E>) -> bool {
    &&& copy.jsonrpc == source.jsonrpc
    &&& copy.id@ == source.id@
    &&& copy.code == source.code
    &&& copy.message@ == source.message@
    &&& cloned_option(source.data, copy.data)
}

impl<R: Clone> Clone for ResultRes<R> {
    fn clone(&self) -> (r: Self)
        ensures
            cloned_result(*self, r),
    {
        ResultRes { jsonrpc: self.jsonrpc, id: self.id.clone(), result: self.result.clone() }
    }
}

/// A copy of a payload that may be absent.
fn clone_option<T: Clone>(value: &Option<T>) -> (r: Option<T>)
    ensures
        cloned_option(*value, r),
{
    match value {
        Some(inner) => Some(inner.clone()),
        None => None,
    }
}

impl<E: Clone> Clone for ErrorRes<E> {
    fn clone(&self) -> (r: Self)
        ensures
            cloned_error(*self, r),
    {
        ErrorRes {
            jsonrpc: self.jsonrpc,
            id: self.id.clone(),
            code: self.code,
            message: self.message.clone(),
            data: clone_option(&self.data),
        }
    }
}

impl<R: Clone, E: Clone> Clone for Response<R, E> {
    fn clone(&self) -> (r: Self)
        ensures
            match (self.outcome(), r.outcome()) {
                (Ok(source), Ok(copy)) => cloned_result(source, copy),
                (Err(source), Err(copy)) => cloned_error(source, copy),
                _ => false,
            },
    {
        match &self.0 {
            Ok(res) => Response(Ok(res.clone())),
            Err(res) => Response(Err(res.clone())),
        }
    }
}

impl<E: Clone> Clone for RawError<E> {
    fn clone(&self) -> (r: Self)
        ensures
            cloned_raw_error(*self, r),
    {
        RawError {
            code: self.code,
            message: self.message.clone(),
            data: clone_option(&self.data),
        }
    }
}

impl<R: Clone, E: Clone> Clone for RawResponse<R, E> {
    fn clone(&self) -> (r: Self)
        ensures
            r.jsonrpc == self.jsonrpc,
            r.id@ == self.id@,
            cloned_option(self.result, r.result),
            match (self.error, r.error) {
                (Some(source), Some(copy)) => cloned_raw_error(source, copy),
                (None, None) => true,
                _ => false,
            },
    {
        RawResponse {
            jsonrpc: self.jsonrpc,
            id: self.id.clone(),
            result: clone_option(&self.result),
            error: match &self.error {
                Some(error) => Some(error.clone()),
                None => None,
            },
        }
    }
}

/// The mathematical value of a successful response.
pub struct ResultResView<R> {
    pub jsonrpc: ProtocolVersion,
    pub id: IdView,
    pub result: R,
}

/// The mathematical value of a failed response.
pub struct ErrorResView<E> {
    pub jsonrpc: ProtocolVersion,
    pub id: IdView,
    pub code: i64,
    pub message: Seq<char>,
    pub data: Option<E>,
}

/// The mathematical value of an `error` member.
pub struct RawErrorView<E> {
    pub code: i64,
    pub message: Seq<char>,
    pub data: Option<E>,
}

/// The mathematical value of a response as it stands on the wire.
pub struct RawResponseView<R, E> {
    pub jsonrpc: ProtocolVersion,
    pub id: IdView,
    pub result: Option<R>,
    pub error: Option<RawErrorView<E>>,
}

/// The view of a value that may be absent.
pub open spec fn option_view<T: View>(value: Option<T>) -> Option<T::V> {
    match value {
        Some(inner) => Some(inner@),
        None => None,
    }
}

impl<R: View> View for ResultRes<R> {
    type V = ResultResView<R::V>;

    open spec fn view(&self) -> ResultResView<R::V> {
        ResultResView { jsonrpc: self.jsonrpc, id: self.id@, result: self.result@ }
    }
}

impl<E: View> View for ErrorRes<E> {
    type V = ErrorResView<E::V>;

    open spec fn view(&self) -> ErrorResView<E::V> {
        ErrorResView {
            jsonrpc: self.jsonrpc,
            id: self.id@,
            code: self.code,
            message: self.message@,
            data: option_view(self.data),
        }
    }
}

impl<E: View> View for RawError<E> {
    type V = RawErrorView<E::V>;

    open spec fn view(&self) -> RawErrorView<E::V> {
        RawErrorView { code: self.code, message: self.message@, data: option_view(self.data) }
    }
}

impl<R: View, E: View> View for RawResponse<R, E> {
    type V = RawResponseView<R::V, E::V>;

    open spec fn view(&self) -> RawResponseView<R::V, E::V> {
        RawResponseView {
            jsonrpc: self.jsonrpc,
            id: self.id@,
            result: option_view(self.result),
            error: option_view(self.error),
        }
    }
}

impl<R: View, E: View> View for Response<R, E> {
    type V = Result<ResultResView<R::V>, ErrorResView<E::V>>;

    open spec fn view(&self) -> Result<ResultResView<R::V>, ErrorResView<E::V>> {
        match self.outcome() {
            Ok(res) => Ok(res@),
            Err(res) => Err(res@),
        }
    }
}

/// The JSON number of a signed integer.
pub open spec fn integer_json(n: i64) -> JsonView {
    if n < 0 {
        JsonView::Number(JsonNumber::NegInt(n))
    } else {
        JsonView::Number(JsonNumber::PosInt(n as u64))
    }
}

/// The JSON value of a payload that may be absent: `null` where it is.
pub open spec fn nullable_json(value: Option<JsonView>) -> JsonView {
    match value {
        Some(inner) => inner,
        None => JsonView::Null,
    }
}

impl ResultResView<JsonView> {
    /// The JSON object of a successful response: its three fields, in this
    /// order.
    pub open spec fn encode(self) -> JsonView {
        JsonView::Object(
            seq![
                (Field::Jsonrpc.key(), self.jsonrpc.encode()),
                (Field::Id.key(), self.id.encode()),
                (Field::Outcome.key(), self.result),
            ],
        )
    }
}

impl ErrorResView<JsonView> {
    /// The JSON object of a failed response: its five fields side by side,
    /// in this order, with `null` for data that is absent.
    pub open spec fn encode(self) -> JsonView {
        JsonView::Object(
            seq![
                (Field::Jsonrpc.key(), self.jsonrpc.encode()),
                (Field::Id.key(), self.id.encode()),
                (Field::Code.key(), integer_json(self.code)),
                (Field::Message.key(), JsonView::String(self.message)),
                (Field::Data.key(), nullable_json(self.data)),
            ],
        )
    }
}

/// The JSON object of a response: that of the result or of the error it
/// holds, with nothing around it.
pub open spec fn encode_response(
    response: Result<ResultResView<JsonView>, ErrorResView<JsonView>>,
) -> JsonView {
    match response {
        Ok(res) => res.encode(),
        Err(res) => res.encode(),
    }
}

impl RawErrorView<JsonView> {
    /// The `error` member that a JSON value stands for: an object with an
    /// integer `code`, a string `message` and, if it is there, `data`.
    pub open spec fn decode(value: JsonView) -> Result<RawErrorView<JsonView>, CodecError> {
        match value {
            JsonView::Object(entries) => {
                let code = required_integer(entries, Field::Code);
                let message = required_string(entries, Field::Message);
                let data = optional_spec(entries, Field::Data);
                if code is Err {
                    Err(code->Err_0)
                } else if message is Err {
                    Err(message->Err_0)
                } else if data is Err {
                    Err(data->Err_0)
                } else {
                    Ok(RawErrorView { code: code->Ok_0, message: message->Ok_0, data: data->Ok_0 })
                }
            },
            _ => Err(CodecError::WrongType(Field::Failure)),
        }
    }
}

/// The `error` member that an object's entries give, if they give one.
pub open spec fn failure_of(entries: Seq<(Seq<char>, JsonView)>) -> Result<
    Option<RawErrorView<JsonView>>,
    CodecError,
> {
    match optional_spec(entries, Field::Failure) {
        Ok(Some(value)) => match RawErrorView::decode(value) {
            Ok(error) => Ok(Some(error)),
            Err(e) => Err(e),
        },
        Ok(None) => Ok(None),
        Err(e) => Err(e),
    }
}

impl RawResponseView<JsonView, JsonView> {
    /// The response that a JSON value holds on the wire. The value must be
    /// an object; `jsonrpc` and `id` must be there, `result` and `error`
    /// may be. A `result` is there when its key is, whatever it holds; an
    /// `error` that holds `null` counts as left out. The fields are held to
    /// account in the order `jsonrpc`, `id`, `result`, `error`, and the
    /// first that fails gives the error.
    pub open spec fn decode(value: JsonView) -> Result<
        RawResponseView<JsonView, JsonView>,
        CodecError,
    > {
        match value {
            JsonView::Object(entries) => {
                let jsonrpc = version_of(entries);
                let id = id_of(entries);
                let result = present_spec(entries, Field::Outcome);
                let error = failure_of(entries);
                if jsonrpc is Err {
                    Err(jsonrpc->Err_0)
                } else if id is Err {
                    Err(id->Err_0)
                } else if result is Err {
                    Err(result->Err_0)
                } else if error is Err {
                    Err(error->Err_0)
                } else {
                    Ok(
                        RawResponseView {
                            jsonrpc: jsonrpc->Ok_0,
                            id: id->Ok_0,
                            result: result->Ok_0,
                            error: error->Ok_0,
                        },
                    )
                }
            },
            _ => Err(CodecError::NotAnObject),
        }
    }
}

/// The rule of the union: a response holds a result or an error, one of
/// the two and not both.
pub open spec fn settle<R, E>(raw: RawResponseView<R, E>) -> Result<
    Result<ResultResView<R>, ErrorResView<E>>,
    CodecError,
> {
    match (raw.result, raw.error) {
        (Some(result), None) => Ok(Ok(ResultResView { jsonrpc: raw.jsonrpc, id: raw.id, result })),
        (None, Some(error)) => Ok(
            Err(
                ErrorResView {
                    jsonrpc: raw.jsonrpc,
                    id: raw.id,
                    code: error.code,
                    message: error.message,
                    data: error.data,
                },
            ),
        ),
        (None, None) => Err(CodecError::NeitherResultNorError),
        (Some(_), Some(_)) => Err(CodecError::BothResultAndError),
    }
}

/// The response that a JSON value stands for.
pub open spec fn decode_response(value: JsonView) -> Result<
    Result<ResultResView<JsonView>, ErrorResView<JsonView>>,
    CodecError,
> {
    match RawResponseView::decode(value) {
        Ok(raw) => settle(raw),
        Err(e) => Err(e),
    }
}

impl<R, E> Response<R, E> {
    /// What the response holds: the result or the error.
    pub closed spec fn outcome(self) -> Result<ResultRes<R>, ErrorRes<E>> {
        self.0
    }

    pub fn id(&self) -> (id: &RequestId)
        ensures
            *id == match self.outcome() {
                Ok(res) => res.id,
                Err(res) => res.id,
            },
    {
        match self {
            Response(Ok(res)) => &res.id,
            Response(Err(res)) => &res.id,
        }
    }

    pub fn as_result(&self) -> (r: &Result<ResultRes<R>, ErrorRes<E>>)
        ensures
            *r == self.outcome(),
    {
        &self.0
    }

    pub fn into_result(self) -> (r: Result<ResultRes<R>, ErrorRes<E>>)
        ensures
            r == self.outcome(),
    {
        self.0
    }

    /// Settles what a response on the wire holds. Exactly one of `result`
    /// and `error` must be there: with both, or with neither, there is no
    /// response.
    pub fn from_raw(raw: RawResponse<R, E>) -> (r: Result<Response<R, E>, CodecError>)
        ensures
            match (raw.result, raw.error) {
                (Some(result), None) => r is Ok && r->Ok_0.outcome() == Ok::<
                    ResultRes<R>,
                    ErrorRes<E>,
                >(ResultRes { jsonrpc: raw.jsonrpc, id: raw.id, result }),
                (None, Some(error)) => r is Ok && r->Ok_0.outcome() == Err::<
                    ResultRes<R>,
                    ErrorRes<E>,
                >(
                    ErrorRes {
                        jsonrpc: raw.jsonrpc,
                        id: raw.id,
                        code: error.code,
                        message: error.message,
                        data: error.data,
                    },
                ),
                (None, None) => r is Err && r->Err_0 == CodecError::NeitherResultNorError,
                (Some(_), Some(_)) => r is Err && r->Err_0 == CodecError::BothResultAndError,
            },
    {
        let RawResponse { jsonrpc, id, result, error } = raw;
        match (result, error) {
            (Some(result), None) => Ok(Response(Ok(ResultRes { jsonrpc, id, result }))),
            (None, Some(error)) => Ok(
                Response(
                    Err(
                        ErrorRes {
                            jsonrpc,
                            id,
                            code: error.code,
                            message: error.message,
                            data: error.data,
                        },
                    ),
                ),
            ),
            (None, None) => Err(CodecError::NeitherResultNorError),
            (Some(_), Some(_)) => Err(CodecError::BothResultAndError),
        }
    }
}

/// The JSON number of a signed integer.
pub fn integer_to_json(n: i64) -> (json: Json)
    ensures
        json@ == integer_json(n),
{
    if n < 0 {
        Json::Number(JsonNumber::NegInt(n))
    } else {
        Json::Number(JsonNumber::PosInt(n as u64))
    }
}

impl ResultRes<Json> {
    /// Encodes the response as a JSON object.
    pub fn to_json(&self) -> (json: Json)
        ensures
            json@ == self@.encode(),
    {
        let mut members: Vec<Member> = Vec::new();
        members.push(entry(Field::Jsonrpc, self.jsonrpc.to_json()));
        members.push(entry(Field::Id, self.id.to_json()));
        members.push(entry(Field::Outcome, self.result.clone()));
        proof {
            lemma_object_view(members);
            assert(entry_views(members@) =~= self@.encode()->Object_0);
        }
        Json::Object(members)
    }
}

impl ErrorRes<Json> {
    /// Encodes the response as a JSON object.
    pub fn to_json(&self) -> (json: Json)
        ensures
            json@ == self@.encode(),
    {
        let data = match &self.data {
            Some(data) => data.clone(),
            None => Json::Null,
        };
        let mut members: Vec<Member> = Vec::new();
        members.push(entry(Field::Jsonrpc, self.jsonrpc.to_json()));
        members.push(entry(Field::Id, self.id.to_json()));
        members.push(entry(Field::Code, integer_to_json(self.code)));
        members.push(entry(Field::Message, Json::String(self.message.clone())));
        members.push(entry(Field::Data, data));
        proof {
            lemma_object_view(members);
            assert(entry_views(members@) =~= self@.encode()->Object_0);
        }
        Json::Object(members)
    }
}

impl RawError<Json> {
    /// Decodes an `error` member from a JSON value.
    pub fn from_json(json: &Json) -> (r: Result<RawError<Json>, CodecError>)
        ensures
            result_view(r) == RawErrorView::decode(json@),
    {
        let members = match json {
            Json::Object(members) => members,
            _ => {
                return Err(CodecError::WrongType(Field::Failure));
            },
        };
        proof {
            lemma_object_view(*members);
        }
        let code = match required(members, Field::Code) {
            Ok(value) => match integer_of(value, Field::Code) {
                Ok(code) => code,
                Err(e) => {
                    return Err(e);
                },
            },
            Err(e) => {
                return Err(e);
            },
        };
        let message = match read_string(members, Field::Message) {
            Ok(message) => message,
            Err(e) => {
                return Err(e);
            },
        };
        let data = match optional(members, Field::Data) {
            Ok(Some(data)) => Some(data.clone()),
            Ok(None) => None,
            Err(e) => {
                return Err(e);
            },
        };
        Ok(RawError { code, message, data })
    }
}

impl RawResponse<Json, Json> {
    /// Decodes a response as it stands on the wire from a JSON value.
    pub fn from_json(json: &Json) -> (r: Result<RawResponse<Json, Json>, CodecError>)
        ensures
            result_view(r) == RawResponseView::decode(json@),
    {
        let members = match json {
            Json::Object(members) => members,
            _ => {
                return Err(CodecError::NotAnObject);
            },
        };
        proof {
            lemma_object_view(*members);
        }
        let jsonrpc = match read_version(members) {
            Ok(jsonrpc) => jsonrpc,
            Err(e) => {
                return Err(e);
            },
        };
        let id = match read_id(members) {
            Ok(id) => id,
            Err(e) => {
                return Err(e);
            },
        };
        let result = match present(members, Field::Outcome) {
            Ok(Some(result)) => Some(result.clone()),
            Ok(None) => None,
            Err(e) => {
                return Err(e);
            },
        };
        let error = match optional(members, Field::Failure) {
            Ok(Some(value)) => match RawError::from_json(value) {
                Ok(error) => Some(error),
                Err(e) => {
                    return Err(e);
                },
            },
            Ok(None) => None,
            Err(e) => {
                return Err(e);
            },
        };
        Ok(RawResponse { jsonrpc, id, result, error })
    }
}

impl Response<Json, Json> {
    /// Encodes the response as the JSON object of what it holds.
    pub fn to_json(&self) -> (json: Json)
        ensures
            json@ == encode_response(self@),
    {
        match &self.0 {
            Ok(res) => res.to_json(),
            Err(res) => res.to_json(),
        }
    }

    /// Decodes a response from a JSON value.
    pub fn from_json(json: &Json) -> (r: Result<Response<Json, Json>, CodecError>)
        ensures
            result_view(r) == decode_response(json@),
    {
        match RawResponse::from_json(json) {
            Ok(raw) => Response::from_raw(raw),
            Err(e) => Err(e),
        }
    }
}

} // verus!
