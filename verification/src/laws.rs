//! What holds of the codec as a whole.

use crate::error::{CodecError, Field};
use crate::fields::{optional_spec, required_spec};
use crate::id::IdView;
use crate::json::{
    distinct_keys, lemma_lookup_absent, lemma_lookup_distinct, JsonNumber, JsonView,
};
use crate::request::{NotificationView, RequestView};
use crate::response::{decode_response, encode_response, ErrorResView, ResultResView};
use vstd::prelude::*;

verus! {

/// No two fields share a key.
pub proof fn lemma_field_keys_differ(a: Field, b: Field)
    requires
        a != b,
    ensures
        a.key() != b.key(),
{
    reveal_strlit("jsonrpc");
    reveal_strlit("id");
    reveal_strlit("method");
    reveal_strlit("params");
    reveal_strlit("result");
    reveal_strlit("error");
    reveal_strlit("code");
    reveal_strlit("message");
    reveal_strlit("data");
    assert(Field::Jsonrpc.key().len() == 7 && Field::Jsonrpc.key()[0] == 'j');
    assert(Field::Id.key().len() == 2);
    assert(Field::Method.key().len() == 6 && Field::Method.key()[0] == 'm');
    assert(Field::Params.key().len() == 6 && Field::Params.key()[0] == 'p');
    assert(Field::Outcome.key().len() == 6 && Field::Outcome.key()[0] == 'r');
    assert(Field::Failure.key().len() == 5);
    assert(Field::Code.key().len() == 4 && Field::Code.key()[0] == 'c');
    assert(Field::Message.key().len() == 7 && Field::Message.key()[0] == 'm');
    assert(Field::Data.key().len() == 4 && Field::Data.key()[0] == 'd');
}

/// The fields of an encoded request can each be found again.
proof fn lemma_request_fields(request: RequestView<JsonView>)
    ensures
        distinct_keys(request.encode()->Object_0),
        required_spec(request.encode()->Object_0, Field::Jsonrpc) == Ok::<JsonView, CodecError>(
            request.jsonrpc.encode(),
        ),
        required_spec(request.encode()->Object_0, Field::Id) == Ok::<JsonView, CodecError>(
            request.id.encode(),
        ),
        required_spec(request.encode()->Object_0, Field::Method) == Ok::<JsonView, CodecError>(
            JsonView::String(request.method),
        ),
        required_spec(request.encode()->Object_0, Field::Params) == Ok::<JsonView, CodecError>(
            request.params,
        ),
{
    let entries = request.encode()->Object_0;
    lemma_field_keys_differ(Field::Jsonrpc, Field::Id);
    lemma_field_keys_differ(Field::Jsonrpc, Field::Method);
    lemma_field_keys_differ(Field::Jsonrpc, Field::Params);
    lemma_field_keys_differ(Field::Id, Field::Method);
    lemma_field_keys_differ(Field::Id, Field::Params);
    lemma_field_keys_differ(Field::Method, Field::Params);
    assert(distinct_keys(entries));
    lemma_lookup_distinct(entries, 0);
    lemma_lookup_distinct(entries, 1);
    lemma_lookup_distinct(entries, 2);
    lemma_lookup_distinct(entries, 3);
}

/// Encoding a request and decoding what comes out gives the request back,
/// whatever its method, its identifier and its parameters.
pub proof fn law_request_round_trip(request: RequestView<JsonView>)
    ensures
        RequestView::decode(request.encode()) == Ok::<RequestView<JsonView>, CodecError>(request),
{
    lemma_request_fields(request);
}

/// Encoding a notification and decoding what comes out gives the
/// notification back.
pub proof fn law_notification_round_trip(notification: NotificationView<JsonView>)
    ensures
        NotificationView::decode(notification.encode()) == Ok::<
            NotificationView<JsonView>,
            CodecError,
        >(notification),
{
    let entries = notification.encode()->Object_0;
    lemma_field_keys_differ(Field::Jsonrpc, Field::Method);
    lemma_field_keys_differ(Field::Jsonrpc, Field::Params);
    lemma_field_keys_differ(Field::Method, Field::Params);
    assert(distinct_keys(entries));
    lemma_lookup_distinct(entries, 0);
    lemma_lookup_distinct(entries, 1);
    lemma_lookup_distinct(entries, 2);
}

/// Encoding a successful response and decoding what comes out gives the
/// response back, whatever its identifier and its result, `null` included.
pub proof fn law_result_round_trip(res: ResultResView<JsonView>)
    ensures
        decode_response(encode_response(Ok(res))) == Ok::<
            Result<ResultResView<JsonView>, ErrorResView<JsonView>>,
            CodecError,
        >(Ok(res)),
{
    let entries = res.encode()->Object_0;
    lemma_field_keys_differ(Field::Jsonrpc, Field::Id);
    lemma_field_keys_differ(Field::Jsonrpc, Field::Outcome);
    lemma_field_keys_differ(Field::Id, Field::Outcome);
    lemma_field_keys_differ(Field::Failure, Field::Jsonrpc);
    lemma_field_keys_differ(Field::Failure, Field::Id);
    lemma_field_keys_differ(Field::Failure, Field::Outcome);
    assert(distinct_keys(entries));
    lemma_lookup_distinct(entries, 0);
    lemma_lookup_distinct(entries, 1);
    lemma_lookup_distinct(entries, 2);
    lemma_lookup_absent(entries, Field::Failure.key());
}

/// A failed response is written with its fields side by side, and read
/// from an `error` member: so its own encoding is not read back, but
/// refused as holding neither a result nor an error.
pub proof fn law_failed_response_is_written_flat(res: ErrorResView<JsonView>)
    ensures
        decode_response(encode_response(Err(res))) == Err::<
            Result<ResultResView<JsonView>, ErrorResView<JsonView>>,
            CodecError,
        >(CodecError::NeitherResultNorError),
{
    let entries = res.encode()->Object_0;
    lemma_field_keys_differ(Field::Jsonrpc, Field::Id);
    lemma_field_keys_differ(Field::Jsonrpc, Field::Code);
    lemma_field_keys_differ(Field::Jsonrpc, Field::Message);
    lemma_field_keys_differ(Field::Jsonrpc, Field::Data);
    lemma_field_keys_differ(Field::Id, Field::Code);
    lemma_field_keys_differ(Field::Id, Field::Message);
    lemma_field_keys_differ(Field::Id, Field::Data);
    lemma_field_keys_differ(Field::Code, Field::Message);
    lemma_field_keys_differ(Field::Code, Field::Data);
    lemma_field_keys_differ(Field::Message, Field::Data);
    lemma_field_keys_differ(Field::Outcome, Field::Jsonrpc);
    lemma_field_keys_differ(Field::Outcome, Field::Id);
    lemma_field_keys_differ(Field::Outcome, Field::Code);
    lemma_field_keys_differ(Field::Outcome, Field::Message);
    lemma_field_keys_differ(Field::Outcome, Field::Data);
    lemma_field_keys_differ(Field::Failure, Field::Jsonrpc);
    lemma_field_keys_differ(Field::Failure, Field::Id);
    lemma_field_keys_differ(Field::Failure, Field::Code);
    lemma_field_keys_differ(Field::Failure, Field::Message);
    lemma_field_keys_differ(Field::Failure, Field::Data);
    assert(distinct_keys(entries));
    lemma_lookup_distinct(entries, 0);
    lemma_lookup_distinct(entries, 1);
    lemma_lookup_absent(entries, Field::Outcome.key());
    lemma_lookup_absent(entries, Field::Failure.key());
}

/// A string and a number are different identifiers, whatever they hold: the
/// string `"1"` and the number `1` decode to identifiers that are not equal.
pub proof fn law_id_kinds_differ(text: Seq<char>, n: u64)
    ensures
        IdView::decode(JsonView::String(text)) == Ok::<IdView, CodecError>(IdView::String(text)),
        IdView::decode(JsonView::Number(JsonNumber::PosInt(n))) == Ok::<IdView, CodecError>(
            IdView::Number(n),
        ),
        IdView::String(text) != IdView::Number(n),
{
}

/// Encoding an identifier and decoding what comes out gives it back.
pub proof fn law_id_round_trip(id: IdView)
    ensures
        IdView::decode(id.encode()) == Ok::<IdView, CodecError>(id),
{
}

/// A request is well formed as JSON exactly when its parameters are.
pub proof fn lemma_request_well_formed(request: RequestView<JsonView>)
    ensures
        request.encode().wf() <==> request.params.wf(),
{
    lemma_request_fields(request);
    let entries = request.encode()->Object_0;
    assert(entries[3].1 == request.params);
    if request.params.wf() {
        assert forall|i: int| 0 <= i < entries.len() implies (#[trigger] entries[i]).1.wf() by {
            if i == 0 {
            } else if i == 1 {
            } else if i == 2 {
            } else {
            }
        }
    }
}

} // verus!
