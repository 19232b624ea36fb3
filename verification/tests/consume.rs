use body_consume::body::{
    consume_body, consume_body_with_promise, settle, BodyOperations, BodySource,
};
use body_consume::promise::{Promise, PromiseState};
use body_consume::runtime::{Context, ScriptRuntime};
use body_consume::types::{BodyType, Error, FetchedData, JsObject, JsValue};

/// A runtime that accepts the texts `{}` and `[1]`, raises on every other
/// text, and allocates buffers of up to `limit` bytes.
struct FakeRuntime {
    pending: Option<JsValue>,
    next_handle: u64,
    limit: usize,
    parsed: Vec<Vec<u16>>,
    allocated: Vec<Vec<u8>>,
}

impl FakeRuntime {
    fn new() -> FakeRuntime {
        FakeRuntime { pending: None, next_handle: 1, limit: 16, parsed: Vec::new(), allocated: Vec::new() }
    }

    fn fresh(&mut self) -> u64 {
        let h = self.next_handle;
        self.next_handle += 1;
        h
    }
}

impl ScriptRuntime for FakeRuntime {
    fn parse_structured(&mut self, text: &Vec<u16>) -> Result<JsValue, ()> {
        assert!(self.pending.is_none());
        self.parsed.push(text.clone());
        let s = String::from_utf16(text).unwrap();
        let handle = self.fresh();
        if s == "{}" || s == "[1]" {
            Ok(JsValue { handle })
        } else {
            self.pending = Some(JsValue { handle: handle + 1000 });
            Err(())
        }
    }

    fn get_and_clear_pending_failure(&mut self) -> JsValue {
        self.pending.take().unwrap()
    }

    fn allocate_binary_buffer(&mut self, bytes: &Vec<u8>) -> Result<JsObject, ()> {
        if bytes.len() > self.limit {
            return Err(());
        }
        self.allocated.push(bytes.clone());
        let handle = self.fresh();
        Ok(JsObject { handle })
    }
}

fn source_with(content_type: &[u8], bytes: &[u8]) -> BodySource {
    let mut source = BodySource::new(content_type.to_vec());
    assert!(source.complete(bytes.to_vec()));
    source
}

fn disturbed() -> PromiseState {
    PromiseState::RejectedError(Error::Type(
        "The response's stream is disturbed or locked".to_string(),
    ))
}

#[test]
fn text_body_resolves_with_its_text() {
    let mut rt = Context::new(FakeRuntime::new());
    let mut source = source_with(b"text/plain", b"hello");
    let promise = consume_body(&mut source, BodyType::Text, &mut rt);
    assert_eq!(
        promise.state(),
        &PromiseState::Resolved(FetchedData::Text("hello".to_string()))
    );
    assert!(source.get_body_used());
    assert_eq!(source.body_type(), Some(BodyType::Text));
    assert_eq!(source.take_body(), None);
}

#[test]
fn second_consumption_is_rejected() {
    let mut rt = Context::new(FakeRuntime::new());
    let mut source = source_with(b"text/plain", b"hello");
    let first = consume_body(&mut source, BodyType::Text, &mut rt);
    assert!(!first.is_pending());
    let second = consume_body(&mut source, BodyType::Blob, &mut rt);
    assert_eq!(second.state(), &disturbed());
    assert_eq!(source.body_type(), Some(BodyType::Text));
}

#[test]
fn second_consumption_is_rejected_while_first_is_pending() {
    let mut rt = Context::new(FakeRuntime::new());
    let mut source = BodySource::new(b"text/plain".to_vec());
    let first = consume_body(&mut source, BodyType::Json, &mut rt);
    assert!(first.is_pending());
    let second = consume_body(&mut source, BodyType::Json, &mut rt);
    assert_eq!(second.state(), &disturbed());
    assert!(rt.runtime().parsed.is_empty());
}

#[test]
fn locked_body_is_rejected_and_left_untouched() {
    let mut rt = Context::new(FakeRuntime::new());
    let mut source = source_with(b"text/plain", b"hello");
    source.set_locked(true);
    let promise = consume_body(&mut source, BodyType::Text, &mut rt);
    assert_eq!(promise.state(), &disturbed());
    assert!(!source.get_body_used());
    assert_eq!(source.body_type(), None);
    source.set_locked(false);
    assert!(source.is_locked() == false);
    let promise = consume_body(&mut source, BodyType::Text, &mut rt);
    assert_eq!(
        promise.state(),
        &PromiseState::Resolved(FetchedData::Text("hello".to_string()))
    );
}

#[test]
fn driver_leaves_promise_pending_until_body_arrives() {
    let mut rt = Context::new(FakeRuntime::new());
    let mut source = BodySource::new(b"text/plain".to_vec());
    let mut promise = consume_body(&mut source, BodyType::Text, &mut rt);
    assert_eq!(promise.state(), &PromiseState::Pending);
    assert!(source.get_body_used());
    consume_body_with_promise(&mut source, BodyType::Text, &mut promise, &mut rt);
    consume_body_with_promise(&mut source, BodyType::Text, &mut promise, &mut rt);
    assert_eq!(promise.state(), &PromiseState::Pending);
    assert!(source.get_body_used());
    assert_eq!(source.body_type(), Some(BodyType::Text));
    assert!(source.complete(b"late".to_vec()));
    consume_body_with_promise(&mut source, BodyType::Text, &mut promise, &mut rt);
    assert_eq!(
        promise.state(),
        &PromiseState::Resolved(FetchedData::Text("late".to_string()))
    );
}

#[test]
fn driver_on_unused_source_without_body_marks_nothing() {
    let mut rt = Context::new(FakeRuntime::new());
    let mut source = BodySource::new(Vec::new());
    let mut promise = Promise::new();
    consume_body_with_promise(&mut source, BodyType::Blob, &mut promise, &mut rt);
    assert!(promise.is_pending());
    assert!(!source.get_body_used());
    assert_eq!(source.body_type(), None);
}

#[test]
fn bytes_arrive_once_and_leave_once() {
    let mut source = BodySource::new(Vec::new());
    assert_eq!(source.take_body(), None);
    assert!(source.complete(vec![1, 2, 3]));
    assert!(!source.complete(vec![4]));
    assert_eq!(source.take_body(), Some(vec![1, 2, 3]));
    assert_eq!(source.take_body(), None);
    assert!(!source.complete(vec![5]));
    assert_eq!(source.take_body(), None);
    assert_eq!(source.get_mime_type(), &Vec::<u8>::new());
}

#[test]
fn json_body_resolves_with_parsed_value() {
    let mut rt = Context::new(FakeRuntime::new());
    let mut source = source_with(b"application/json", b"{}");
    let promise = consume_body(&mut source, BodyType::Json, &mut rt);
    assert_eq!(
        promise.state(),
        &PromiseState::Resolved(FetchedData::Json(JsValue { handle: 1 }))
    );
    assert_eq!(rt.runtime().parsed, vec![vec![0x7Bu16, 0x7D]]);
}

#[test]
fn json_failure_rejects_with_exception_and_clears_it() {
    let mut rt = Context::new(FakeRuntime::new());
    let mut source = source_with(b"application/json", b"{invalid");
    let promise = consume_body(&mut source, BodyType::Json, &mut rt);
    assert_eq!(
        promise.state(),
        &PromiseState::RejectedNative(JsValue { handle: 1001 })
    );
    assert!(rt.runtime().pending.is_none());
    let mut other = source_with(b"application/json", b"[1]");
    let promise = consume_body(&mut other, BodyType::Json, &mut rt);
    assert_eq!(
        promise.state(),
        &PromiseState::Resolved(FetchedData::Json(JsValue { handle: 2 }))
    );
    assert!(rt.runtime().pending.is_none());
}

#[test]
fn array_buffer_body_resolves_with_buffer() {
    let mut rt = Context::new(FakeRuntime::new());
    let mut source = source_with(b"", &[0, 255, 7]);
    let promise = consume_body(&mut source, BodyType::ArrayBuffer, &mut rt);
    assert_eq!(
        promise.state(),
        &PromiseState::Resolved(FetchedData::ArrayBuffer(JsObject { handle: 1 }))
    );
    assert_eq!(rt.runtime().allocated, vec![vec![0u8, 255, 7]]);
}

#[test]
fn array_buffer_failure_rejects_with_runtime_failure() {
    let mut rt = Context::new(FakeRuntime::new());
    let mut source = source_with(b"", &[0u8; 17]);
    let promise = consume_body(&mut source, BodyType::ArrayBuffer, &mut rt);
    assert_eq!(promise.state(), &PromiseState::RejectedError(Error::JSFailed));
    assert!(rt.runtime().pending.is_none());
}

#[test]
fn blob_body_resolves_with_bytes_and_type() {
    let mut rt = Context::new(FakeRuntime::new());
    let mut source = source_with(b"image/png", &[137, 80, 78, 71]);
    let promise = consume_body(&mut source, BodyType::Blob, &mut rt);
    match promise.state() {
        PromiseState::Resolved(FetchedData::BlobData(blob)) => {
            assert_eq!(blob.bytes(), &vec![137u8, 80, 78, 71]);
            assert_eq!(blob.type_string(), "image/png");
        }
        other => panic!("unexpected state {:?}", other),
    }
}

#[test]
fn form_body_resolves_with_fields() {
    let mut rt = Context::new(FakeRuntime::new());
    let mut source = source_with(b"application/x-www-form-urlencoded", b"a=1&b=2+two");
    let promise = consume_body(&mut source, BodyType::FormData, &mut rt);
    match promise.state() {
        PromiseState::Resolved(FetchedData::FormData(form)) => {
            assert_eq!(
                form.entries(),
                &vec![
                    ("a".to_string(), "1".to_string()),
                    ("b".to_string(), "2 two".to_string())
                ]
            );
        }
        other => panic!("unexpected state {:?}", other),
    }
}

#[test]
fn multipart_form_body_is_rejected() {
    let mut rt = Context::new(FakeRuntime::new());
    let mut source = source_with(b"multipart/form-data; boundary=x", b"--x\r\n\r\n--x--");
    let promise = consume_body(&mut source, BodyType::FormData, &mut rt);
    assert_eq!(
        promise.state(),
        &PromiseState::RejectedError(Error::Type(
            "Inappropriate MIME-type for Body".to_string()
        ))
    );
    assert!(source.get_body_used());
    assert_eq!(source.take_body(), None);
}

#[test]
fn settle_resolves_with_data() {
    let mut promise = Promise::new();
    settle(&mut promise, Ok(FetchedData::Text("x".to_string())));
    assert_eq!(
        promise.state(),
        &PromiseState::Resolved(FetchedData::Text("x".to_string()))
    );
    assert!(!promise.is_pending());
}

#[test]
fn settle_rejects_with_error() {
    let mut promise = Promise::new();
    settle(&mut promise, Err(Error::JSFailed));
    assert_eq!(promise.state(), &PromiseState::RejectedError(Error::JSFailed));
}

#[test]
fn settle_rejects_with_exception() {
    let mut promise = Promise::new();
    settle(&mut promise, Ok(FetchedData::JSException(JsValue { handle: 5 })));
    assert_eq!(
        promise.state(),
        &PromiseState::RejectedNative(JsValue { handle: 5 })
    );
}

#[test]
fn promise_is_assigned_by_each_method() {
    let mut p = Promise::new();
    assert!(p.is_pending());
    p.resolve_native(FetchedData::ArrayBuffer(JsObject { handle: 3 }));
    assert_eq!(
        p.state(),
        &PromiseState::Resolved(FetchedData::ArrayBuffer(JsObject { handle: 3 }))
    );
    let mut q = Promise::new();
    q.reject_error(Error::disturbed());
    assert_eq!(q.state(), &disturbed());
    let mut r = Promise::new();
    r.reject_native(JsValue { handle: 8 });
    assert_eq!(r.state(), &PromiseState::RejectedNative(JsValue { handle: 8 }));
}

#[test]
fn four_rejections_are_told_apart() {
    let a = disturbed();
    let b = PromiseState::RejectedError(Error::inappropriate_mime());
    let c = PromiseState::RejectedError(Error::JSFailed);
    let d = PromiseState::RejectedNative(JsValue { handle: 0 });
    assert_ne!(a, b);
    assert_ne!(a, c);
    assert_ne!(a, d);
    assert_ne!(b, c);
    assert_ne!(b, d);
    assert_ne!(c, d);
    assert_eq!(Error::disturbed().message(), "The response's stream is disturbed or locked");
    assert_eq!(Error::inappropriate_mime().message(), "Inappropriate MIME-type for Body");
    assert_eq!(Error::JSFailed.message(), "The script runtime failed");
}
