//! Consuming a body: the guard that lets one consumption through, the
//! packaging of the bytes by the representation asked for, and the
//! settling of the promise.

use vstd::prelude::*;
use vstd::utf8::{decode_utf8, valid_utf8};
use crate::form::{
    accepts_form_fields, form_data_from_pairs, form_pairs, is_form_urlencoded, mime_essence,
    parse_mime, parse_urlencoded,
};
use crate::promise::{Promise, PromiseModel};
use crate::runtime::{Context, RuntimeCall, ScriptRuntime};
use crate::text::{
    decode_lossy, encode_utf16, lossy_text, text_or_empty, utf16_text, utf8_or_empty,
};
use crate::types::{
    disturbed_message, fallible_model, inappropriate_mime_message, Blob, BodyType, DataModel,
    Error, ErrorModel, Fallible, FetchedData, JsObject, JsValue,
};

verus! {

/// Where the bytes of a body are: still on their way, waiting to be taken,
/// or taken. A body only moves forward through these.
pub enum BodyState {
    Incoming,
    Complete(Seq<u8>),
    Taken,
}

impl BodyState {
    /// The state after an attempt to take the bytes.
    pub open spec fn after_take(self) -> BodyState {
        match self {
            BodyState::Complete(_) => BodyState::Taken,
            other => other,
        }
    }
}

/// What the consumption asks of the request or response that owns a body.
pub trait BodyOperations {
    /// Whether a consumption has ever begun.
    spec fn body_used(&self) -> bool;

    /// Whether a reader holds the body.
    spec fn locked(&self) -> bool;

    /// Where the bytes are.
    spec fn body(&self) -> BodyState;

    /// The declared content type, as raw bytes.
    spec fn mime_type(&self) -> Seq<u8>;

    /// The representation of the consumption that is under way, if any.
    spec fn consuming(&self) -> Option<BodyType>;

    fn get_body_used(&self) -> (used: bool)
        ensures
            used == self.body_used(),
    ;

    /// Records the promise and the representation of the consumption that
    /// begins, and marks the body as used.
    fn set_body_promise(&mut self, p: &Promise, body_type: BodyType)
        requires
            !old(self).body_used(),
        ensures
            final(self).body_used(),
            final(self).consuming() == Some(body_type),
            final(self).locked() == old(self).locked(),
            final(self).body() == old(self).body(),
            final(self).mime_type() == old(self).mime_type(),
    ;

    /// Returns `Some(_)` if the body is complete, `None` if there is more to
    /// come. The bytes leave with the call, and are not handed out again.
    fn take_body(&mut self) -> (taken: Option<Vec<u8>>)
        ensures
            match taken {
                Some(bytes) => old(self).body() == BodyState::Complete(bytes@),
                None => !(old(self).body() is Complete),
            },
            final(self).body() == old(self).body().after_take(),
            final(self).body_used() == old(self).body_used(),
            final(self).locked() == old(self).locked(),
            final(self).mime_type() == old(self).mime_type(),
            final(self).consuming() == old(self).consuming(),
    ;

    fn is_locked(&self) -> (locked: bool)
        ensures
            locked == self.locked(),
    ;

    fn get_mime_type(&self) -> (mime: &Vec<u8>)
        ensures
            mime@ == self.mime_type(),
    ;
}

/// Two states of a body owner that differ in nothing the consumption sees.
pub open spec fn same_source<T: BodyOperations>(a: T, b: T) -> bool {
    &&& a.body_used() == b.body_used()
    &&& a.locked() == b.locked()
    &&& a.body() == b.body()
    &&& a.mime_type() == b.mime_type()
    &&& a.consuming() == b.consuming()
}

/// A body with its flags and declared content type, as a request or
/// response holds it. The bytes arrive once and leave once.
#[derive(Debug)]
pub struct BodySource {
    used: bool,
    locked: bool,
    content_type: Vec<u8>,
    buffer: Option<Vec<u8>>,
    taken: bool,
    consuming: Option<BodyType>,
}

impl BodySource {
    /// A body of the given declared type whose bytes have not arrived yet.
    pub fn new(content_type: Vec<u8>) -> (source: BodySource)
        ensures
            !source.body_used(),
            !source.locked(),
            source.body() == BodyState::Incoming,
            source.mime_type() == content_type@,
            source.consuming() is None,
    {
        BodySource {
            used: false,
            locked: false,
            content_type,
            buffer: None,
            taken: false,
            consuming: None,
        }
    }

    /// Hands the source its bytes, once the transport has them all. They are
    /// accepted once, and never after the bytes have been taken: the result
    /// says whether they were.
    pub fn complete(&mut self, bytes: Vec<u8>) -> (accepted: bool)
        ensures
            accepted == (old(self).body() is Incoming),
            final(self).body() == if accepted {
                BodyState::Complete(bytes@)
            } else {
                old(self).body()
            },
            final(self).body_used() == old(self).body_used(),
            final(self).locked() == old(self).locked(),
            final(self).mime_type() == old(self).mime_type(),
            final(self).consuming() == old(self).consuming(),
    {
        if self.taken || self.buffer.is_some() {
            false
        } else {
            self.buffer = Some(bytes);
            true
        }
    }

    /// Sets whether a reader holds the body.
    pub fn set_locked(&mut self, locked: bool)
        ensures
            final(self).locked() == locked,
            final(self).body_used() == old(self).body_used(),
            final(self).body() == old(self).body(),
            final(self).mime_type() == old(self).mime_type(),
            final(self).consuming() == old(self).consuming(),
    {
        self.locked = locked;
    }

    /// The representation of the consumption under way, if one has begun.
    pub fn body_type(&self) -> (kind: Option<BodyType>)
        ensures
            kind == self.consuming(),
    {
        self.consuming
    }
}

impl BodyOperations for BodySource {
    closed spec fn body_used(&self) -> bool {
        self.used
    }

    closed spec fn locked(&self) -> bool {
        self.locked
    }

    closed spec fn body(&self) -> BodyState {
        if self.taken {
            BodyState::Taken
        } else {
            match self.buffer {
                Some(bytes) => BodyState::Complete(bytes@),
                None => BodyState::Incoming,
            }
        }
    }

    closed spec fn mime_type(&self) -> Seq<u8> {
        self.content_type@
    }

    closed spec fn consuming(&self) -> Option<BodyType> {
        self.consuming
    }

    fn get_body_used(&self) -> (used: bool) {
        self.used
    }

    fn set_body_promise(&mut self, p: &Promise, body_type: BodyType) {
        self.used = true;
        self.consuming = Some(body_type);
    }

    fn take_body(&mut self) -> (taken: Option<Vec<u8>>) {
        if self.taken {
            None
        } else {
            let bytes = self.buffer.take();
            if bytes.is_some() {
                self.taken = true;
            }
            bytes
        }
    }

    fn is_locked(&self) -> (locked: bool) {
        self.locked
    }

    fn get_mime_type(&self) -> (mime: &Vec<u8>) {
        &self.content_type
    }
}

/// Packages bytes as text. Never fails: ill-formed UTF-8 is replaced, and
/// well-formed UTF-8 is decoded as it stands.
pub fn run_text_data_algorithm(bytes: Vec<u8>) -> (r: Fallible<FetchedData>)
    ensures
        fallible_model(r) == Ok::<DataModel, ErrorModel>(DataModel::Text(lossy_text(bytes@))),
        valid_utf8(bytes@) ==> fallible_model(r) == Ok::<DataModel, ErrorModel>(
            DataModel::Text(decode_utf8(bytes@)),
        ),
{
    Ok(FetchedData::Text(decode_lossy(bytes.as_slice())))
}

/// What the runtime's parser made of a text, as packaged data: the parsed
/// value, or the exception that was retrieved after it failed.
pub fn json_outcome(parsed: Result<JsValue, JsValue>) -> (data: FetchedData)
    ensures
        data@ == match parsed {
            Ok(value) => DataModel::Json(value),
            Err(exception) => DataModel::JSException(exception),
        },
{
    match parsed {
        Ok(value) => FetchedData::Json(value),
        Err(exception) => FetchedData::JSException(exception),
    }
}

/// The text that the runtime's parser is given for a body: the bytes decoded
/// as lossy UTF-8, in UTF-16 code units.
pub fn json_text_units(bytes: &[u8]) -> (units: Vec<u16>)
    ensures
        units@ == utf16_text(lossy_text(bytes@)),
{
    let json_text = decode_lossy(bytes);
    encode_utf16(json_text.as_str())
}

/// The results that packaging as JSON can have, each with the calls that
/// lead to it: the value that one parse gave, or, after a parse that failed,
/// the exception that the retrieval which follows it gave. Never an error of
/// this library.
pub open spec fn json_packaged(
    bytes: Seq<u8>,
    r: Result<DataModel, ErrorModel>,
    calls_before: Seq<RuntimeCall>,
    calls: Seq<RuntimeCall>,
) -> bool {
    let text = utf16_text(lossy_text(bytes));
    match r {
        Ok(DataModel::Json(value)) => calls == calls_before.push(
            RuntimeCall::Parse(text, Some(value)),
        ),
        Ok(DataModel::JSException(exception)) => calls == calls_before.push(
            RuntimeCall::Parse(text, None),
        ).push(RuntimeCall::TakeFailure(exception)),
        _ => false,
    }
}

/// Packages bytes as JSON. The runtime's parser is given the text of
/// [`json_text_units`]. Where the parser fails, its pending exception is
/// retrieved and cleared at once, and becomes the result: no exception is
/// left pending when this returns.
pub fn run_json_data_algorithm<R: ScriptRuntime>(cx: &mut Context<R>, bytes: Vec<u8>) -> (r:
    Fallible<FetchedData>)
    requires
        !old(cx).failure_pending(),
    ensures
        !final(cx).failure_pending(),
        json_packaged(bytes@, fallible_model(r), old(cx).calls(), final(cx).calls()),
{
    let units = json_text_units(bytes.as_slice());
    let parsed = match cx.parse_structured(&units) {
        Ok(value) => Ok(value),
        Err(_) => Err(cx.get_and_clear_pending_failure()),
    };
    Ok(json_outcome(parsed))
}

/// Packages bytes as a blob under the declared type, or under the empty
/// type where the declared type is not well-formed UTF-8. Never fails.
pub fn run_blob_data_algorithm(bytes: Vec<u8>, mime: &[u8]) -> (r: Fallible<FetchedData>)
    ensures
        fallible_model(r) == Ok::<DataModel, ErrorModel>(
            DataModel::BlobData(bytes@, text_or_empty(mime@)),
        ),
        !valid_utf8(mime@) ==> fallible_model(r) == Ok::<DataModel, ErrorModel>(
            DataModel::BlobData(bytes@, Seq::empty()),
        ),
{
    let mime_string = utf8_or_empty(mime);
    let blob = Blob::new(bytes, mime_string);
    Ok(FetchedData::BlobData(blob))
}

/// The result of packaging bytes as form data under a declared type: the
/// url-encoded fields where the type is `application/x-www-form-urlencoded`,
/// a type error under every other type and where the type does not parse.
pub open spec fn form_packaged(bytes: Seq<u8>, mime: Seq<u8>) -> Result<DataModel, ErrorModel> {
    if is_form_urlencoded(mime_essence(text_or_empty(mime))) {
        Ok(DataModel::FormData(form_pairs(bytes)))
    } else {
        Err(ErrorModel::Type(inappropriate_mime_message()))
    }
}

/// Packages bytes as form data. Multipart bodies are not taken apart: they
/// are refused like every other type but the url-encoded one.
pub fn run_form_data_algorithm(bytes: Vec<u8>, mime: &[u8]) -> (r: Fallible<FetchedData>)
    ensures
        fallible_model(r) == form_packaged(bytes@, mime@),
{
    let mime_str = utf8_or_empty(mime);
    let essence = parse_mime(mime_str.as_str());
    if accepts_form_fields(&essence) {
        let entries = parse_urlencoded(bytes.as_slice());
        let formdata = form_data_from_pairs(&entries);
        return Ok(FetchedData::FormData(formdata));
    }
    Err(Error::inappropriate_mime())
}

/// What the runtime's allocation gave, as a packaging result: the buffer,
/// or the error that says no more than that the runtime failed.
pub fn array_buffer_outcome(allocated: Result<JsObject, ()>) -> (r: Fallible<FetchedData>)
    ensures
        fallible_model(r) == match allocated {
            Ok(buffer) => Ok::<DataModel, ErrorModel>(DataModel::ArrayBuffer(buffer)),
            Err(_) => Err::<DataModel, ErrorModel>(ErrorModel::JSFailed),
        },
{
    match allocated {
        Ok(buffer) => Ok(FetchedData::ArrayBuffer(buffer)),
        Err(_) => Err(Error::JSFailed),
    }
}

/// The results that packaging as an array buffer can have, after the one
/// allocation that was asked of the runtime: the buffer that it gave, or,
/// where it gave none, the error that the runtime failed.
pub open spec fn array_buffer_packaged(
    bytes: Seq<u8>,
    r: Result<DataModel, ErrorModel>,
    calls_before: Seq<RuntimeCall>,
    calls: Seq<RuntimeCall>,
) -> bool {
    match r {
        Ok(DataModel::ArrayBuffer(buffer)) => calls == calls_before.push(
            RuntimeCall::Allocate(bytes, Some(buffer)),
        ),
        Err(ErrorModel::JSFailed) => calls == calls_before.push(
            RuntimeCall::Allocate(bytes, None),
        ),
        _ => false,
    }
}

/// Packages bytes as an array buffer that the runtime allocates and fills.
pub fn run_array_buffer_data_algorithm<R: ScriptRuntime>(
    cx: &mut Context<R>,
    bytes: Vec<u8>,
) -> (r: Fallible<FetchedData>)
    requires
        !old(cx).failure_pending(),
    ensures
        !final(cx).failure_pending(),
        array_buffer_packaged(bytes@, fallible_model(r), old(cx).calls(), final(cx).calls()),
{
    let allocated = cx.allocate_binary_buffer(&bytes);
    array_buffer_outcome(allocated)
}

/// Whether `r` is a result of packaging `bytes`, declared as `mime`, in the
/// representation `body_type`, with `calls` the calls into the runtime once
/// it is done. For text, blob and form data the bytes decide the result and
/// the runtime is not called; for JSON and array buffers the runtime has
/// its say.
pub open spec fn packaged(
    body_type: BodyType,
    bytes: Seq<u8>,
    mime: Seq<u8>,
    r: Result<DataModel, ErrorModel>,
    calls_before: Seq<RuntimeCall>,
    calls: Seq<RuntimeCall>,
) -> bool {
    match body_type {
        BodyType::Text => {
            &&& r == Ok::<DataModel, ErrorModel>(DataModel::Text(lossy_text(bytes)))
            &&& calls == calls_before
        },
        BodyType::Json => json_packaged(bytes, r, calls_before, calls),
        BodyType::Blob => {
            &&& r == Ok::<DataModel, ErrorModel>(DataModel::BlobData(bytes, text_or_empty(mime)))
            &&& calls == calls_before
        },
        BodyType::FormData => {
            &&& r == form_packaged(bytes, mime)
            &&& calls == calls_before
        },
        BodyType::ArrayBuffer => array_buffer_packaged(bytes, r, calls_before, calls),
    }
}

/// Packages bytes in the representation asked for.
pub fn run_package_data_algorithm<R: ScriptRuntime>(
    cx: &mut Context<R>,
    bytes: Vec<u8>,
    body_type: BodyType,
    mime: &[u8],
) -> (r: Fallible<FetchedData>)
    requires
        !old(cx).failure_pending(),
    ensures
        !final(cx).failure_pending(),
        packaged(body_type, bytes@, mime@, fallible_model(r), old(cx).calls(), final(cx).calls()),
{
    match body_type {
        BodyType::Text => run_text_data_algorithm(bytes),
        BodyType::Json => run_json_data_algorithm(cx, bytes),
        BodyType::Blob => run_blob_data_algorithm(bytes, mime),
        BodyType::FormData => run_form_data_algorithm(bytes, mime),
        BodyType::ArrayBuffer => run_array_buffer_data_algorithm(cx, bytes),
    }
}

/// The state in which a packaging result leaves a promise: resolved with
/// the data, rejected with the error, or rejected with the runtime's own
/// exception where that is what the data is.
pub open spec fn settled(r: Result<DataModel, ErrorModel>) -> PromiseModel {
    match r {
        Ok(DataModel::JSException(exception)) => PromiseModel::RejectedNative(exception),
        Ok(data) => PromiseModel::Resolved(data),
        Err(error) => PromiseModel::RejectedError(error),
    }
}

/// Settles a pending promise with a packaging result.
pub fn settle(promise: &mut Promise, result: Fallible<FetchedData>)
    requires
        old(promise)@ == PromiseModel::Pending,
    ensures
        final(promise)@ == settled(fallible_model(result)),
{
    match result {
        Ok(results) => {
            match results {
                FetchedData::JSException(e) => promise.reject_native(e),
                other => promise.resolve_native(other),
            }
        },
        Err(err) => promise.reject_error(err),
    }
}

/// Whether a promise stands as one packaging of the bytes leaves it, with
/// `calls` the calls into the runtime after that packaging.
pub open spec fn consumed_as(
    promise: PromiseModel,
    body_type: BodyType,
    bytes: Seq<u8>,
    mime: Seq<u8>,
    calls_before: Seq<RuntimeCall>,
    calls: Seq<RuntimeCall>,
) -> bool {
    exists|r: Result<DataModel, ErrorModel>|
        packaged(body_type, bytes, mime, r, calls_before, calls) && promise == #[trigger] settled(
            r,
        )
}

/// What one run of the driver does: the bytes, where they wait, are taken,
/// packaged once and settle the promise; where none wait, the promise stays
/// as it was and the runtime is not called. The flags and the declared type
/// stay as they are.
pub open spec fn driven<T: BodyOperations>(
    before: T,
    after: T,
    body_type: BodyType,
    promise_before: PromiseModel,
    promise: PromiseModel,
    calls_before: Seq<RuntimeCall>,
    calls: Seq<RuntimeCall>,
) -> bool {
    &&& after.body_used() == before.body_used()
    &&& after.locked() == before.locked()
    &&& after.mime_type() == before.mime_type()
    &&& after.consuming() == before.consuming()
    &&& after.body() == before.body().after_take()
    &&& match before.body() {
        BodyState::Complete(bytes) => consumed_as(
            promise,
            body_type,
            bytes,
            before.mime_type(),
            calls_before,
            calls,
        ),
        _ => promise == promise_before && calls == calls_before,
    }
}

/// Drives a consumption that has begun: takes the body if it is complete,
/// packages it and settles the promise. Where the body is not complete yet,
/// nothing changes and the call may be made again.
pub fn consume_body_with_promise<T: BodyOperations, R: ScriptRuntime>(
    object: &mut T,
    body_type: BodyType,
    promise: &mut Promise,
    cx: &mut Context<R>,
)
    requires
        old(object).body() is Complete ==> old(promise)@ == PromiseModel::Pending,
        !old(cx).failure_pending(),
    ensures
        !final(cx).failure_pending(),
        driven(
            *old(object),
            *final(object),
            body_type,
            old(promise)@,
            final(promise)@,
            old(cx).calls(),
            final(cx).calls(),
        ),
{
    let body = match object.take_body() {
        Some(body) => body,
        None => return,
    };
    let ghost bytes = body@;
    let pkg_data_results = run_package_data_algorithm(
        cx,
        body,
        body_type,
        object.get_mime_type().as_slice(),
    );
    let ghost model = fallible_model(pkg_data_results);
    settle(promise, pkg_data_results);
    assert(packaged(body_type, bytes, object.mime_type(), model, old(cx).calls(), cx.calls())
        && promise@ == settled(model));
}

/// The state in which a consumption that is refused leaves its promise.
pub open spec fn disturbed_rejection() -> PromiseModel {
    PromiseModel::RejectedError(ErrorModel::Type(disturbed_message()))
}

/// What a request to consume does. Of a body that is used or locked nothing
/// is touched, the runtime is not called and the promise is rejected. Any
/// other body is marked as used with the representation asked for, and
/// driven once.
pub open spec fn begun<T: BodyOperations>(
    before: T,
    after: T,
    body_type: BodyType,
    promise: PromiseModel,
    calls_before: Seq<RuntimeCall>,
    calls: Seq<RuntimeCall>,
) -> bool {
    if before.body_used() || before.locked() {
        &&& promise == disturbed_rejection()
        &&& same_source(before, after)
        &&& calls == calls_before
    } else {
        &&& after.body_used()
        &&& after.consuming() == Some(body_type)
        &&& after.locked() == before.locked()
        &&& after.mime_type() == before.mime_type()
        &&& after.body() == before.body().after_take()
        &&& match before.body() {
            BodyState::Complete(bytes) => consumed_as(
                promise,
                body_type,
                bytes,
                before.mime_type(),
                calls_before,
                calls,
            ),
            _ => promise == PromiseModel::Pending && calls == calls_before,
        }
    }
}

/// Begins the one consumption that a body allows, and returns its promise:
/// rejected at once where the body is used or locked, settled where the
/// bytes were there, pending where they are still to come.
pub fn consume_body<T: BodyOperations, R: ScriptRuntime>(
    object: &mut T,
    body_type: BodyType,
    cx: &mut Context<R>,
) -> (promise: Promise)
    requires
        !old(cx).failure_pending(),
    ensures
        !final(cx).failure_pending(),
        begun(*old(object), *final(object), body_type, promise@, old(cx).calls(), final(cx).calls()),
{
    let mut promise = Promise::new();
    if object.get_body_used() || object.is_locked() {
        promise.reject_error(Error::disturbed());
        return promise;
    }
    object.set_body_promise(&promise, body_type);
    consume_body_with_promise(object, body_type, &mut promise, cx);
    promise
}

/// A body is consumed at most once: whatever the first request asked for
/// and however it ended, the request that follows it is refused, touches
/// nothing and calls nothing.
pub proof fn lemma_second_consumption_rejected<T: BodyOperations>(
    start: T,
    between: T,
    end: T,
    first: BodyType,
    second: BodyType,
    first_promise: PromiseModel,
    second_promise: PromiseModel,
    calls_start: Seq<RuntimeCall>,
    calls_between: Seq<RuntimeCall>,
    calls_end: Seq<RuntimeCall>,
)
    requires
        begun(start, between, first, first_promise, calls_start, calls_between),
        begun(between, end, second, second_promise, calls_between, calls_end),
    ensures
        second_promise == disturbed_rejection(),
        same_source(between, end),
        calls_end == calls_between,
{
}

/// Driving a body whose bytes have not arrived changes nothing: a pending
/// promise stays pending and the body is no more used than before.
pub proof fn lemma_not_ready_changes_nothing<T: BodyOperations>(
    before: T,
    after: T,
    body_type: BodyType,
    promise_before: PromiseModel,
    promise: PromiseModel,
    calls_before: Seq<RuntimeCall>,
    calls: Seq<RuntimeCall>,
)
    requires
        driven(before, after, body_type, promise_before, promise, calls_before, calls),
        !(before.body() is Complete),
    ensures
        promise == promise_before,
        same_source(before, after),
        calls == calls_before,
{
}

/// The bytes are packaged at most once: a run that found them settles the
/// promise and leaves them taken, and the run that follows finds nothing,
/// whatever representation it asks for.
pub proof fn lemma_bytes_taken_once<T: BodyOperations>(
    start: T,
    between: T,
    end: T,
    first: BodyType,
    second: BodyType,
    first_promise: PromiseModel,
    second_promise: PromiseModel,
    calls_start: Seq<RuntimeCall>,
    calls_between: Seq<RuntimeCall>,
    calls_end: Seq<RuntimeCall>,
)
    requires
        driven(
            start,
            between,
            first,
            PromiseModel::Pending,
            first_promise,
            calls_start,
            calls_between,
        ),
        driven(between, end, second, first_promise, second_promise, calls_between, calls_end),
        start.body() is Complete,
    ensures
        first_promise != PromiseModel::Pending,
        between.body() == BodyState::Taken,
        second_promise == first_promise,
        same_source(between, end),
        calls_end == calls_between,
{
}

/// The four ways in which a promise is rejected differ from one another: a
/// used or locked body, an unsupported content type, a failed allocation,
/// and an exception of the runtime.
pub proof fn lemma_rejections_differ(exception: JsValue)
    ensures
        disturbed_rejection() != settled(Err(ErrorModel::Type(inappropriate_mime_message()))),
        disturbed_rejection() != settled(Err(ErrorModel::JSFailed)),
        disturbed_rejection() != settled(Ok(DataModel::JSException(exception))),
        settled(Err(ErrorModel::Type(inappropriate_mime_message()))) != settled(
            Err(ErrorModel::JSFailed),
        ),
        settled(Err(ErrorModel::Type(inappropriate_mime_message()))) != settled(
            Ok(DataModel::JSException(exception)),
        ),
        settled(Err(ErrorModel::JSFailed)) != settled(Ok(DataModel::JSException(exception))),
{
    reveal_strlit("The response's stream is disturbed or locked");
    reveal_strlit("Inappropriate MIME-type for Body");
    assert(disturbed_message().len() == 44);
    assert(inappropriate_mime_message().len() == 32);
}

} // verus!
