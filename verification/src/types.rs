//! The values that a consumed body is packaged into, and their models.

use vstd::prelude::*;

verus! {

/// The representation that a caller asks a body to be packaged as.
#[derive(Clone, Copy, Debug, PartialEq, Eq, Structural)]
pub enum BodyType {
    Blob,
    FormData,
    Json,
    Text,
    ArrayBuffer,
}

/// A value that lives in the script runtime, held by the handle that the
/// runtime gave out for it.
#[derive(Clone, Copy, Debug, PartialEq, Eq, Structural)]
pub struct JsValue {
    pub handle: u64,
}

/// An object that lives in the script runtime, held by the handle that the
/// runtime gave out for it.
#[derive(Clone, Copy, Debug, PartialEq, Eq, Structural)]
pub struct JsObject {
    pub handle: u64,
}

/// Why a body could not be packaged, or could not be consumed at all.
#[derive(Debug, PartialEq, Eq)]
pub enum Error {
    /// A type error with its message.
    Type(String),
    /// The script runtime failed and left nothing to retrieve.
    JSFailed,
}

pub type Fallible<T> = Result<T, Error>;

/// What an [`Error`] is, with its message as a sequence of characters.
pub enum ErrorModel {
    Type(Seq<char>),
    JSFailed,
}

impl View for Error {
    type V = ErrorModel;

    open spec fn view(&self) -> ErrorModel {
        match self {
            Error::Type(message) => ErrorModel::Type(message@),
            Error::JSFailed => ErrorModel::JSFailed,
        }
    }
}

/// The message of the error that meets a body which is already used, or
/// locked by a reader.
pub open spec fn disturbed_message() -> Seq<char> {
    "The response's stream is disturbed or locked"@
}

/// The message of the error that meets form data under a content type other
/// than the url-encoded one.
pub open spec fn inappropriate_mime_message() -> Seq<char> {
    "Inappropriate MIME-type for Body"@
}

impl Error {
    /// The error for a body that is already used or locked.
    pub fn disturbed() -> (e: Error)
        ensures
            e@ == ErrorModel::Type(disturbed_message()),
    {
        Error::Type("The response's stream is disturbed or locked".to_owned())
    }

    /// The error for form data under an unsupported content type.
    pub fn inappropriate_mime() -> (e: Error)
        ensures
            e@ == ErrorModel::Type(inappropriate_mime_message()),
    {
        Error::Type("Inappropriate MIME-type for Body".to_owned())
    }

    /// The text that describes this error.
    pub fn message(&self) -> (s: String)
        ensures
            s@ == match self@ {
                ErrorModel::Type(m) => m,
                ErrorModel::JSFailed => "The script runtime failed"@,
            },
    {
        match self {
            Error::Type(m) => m.clone(),
            Error::JSFailed => "The script runtime failed".to_owned(),
        }
    }
}

/// Raw bytes together with the type string they were declared under.
#[derive(Debug, PartialEq, Eq)]
pub struct Blob {
    bytes: Vec<u8>,
    type_string: String,
}

impl Blob {
    pub closed spec fn spec_bytes(&self) -> Seq<u8> {
        self.bytes@
    }

    pub closed spec fn spec_type_string(&self) -> Seq<char> {
        self.type_string@
    }

    pub fn new(bytes: Vec<u8>, type_string: String) -> (blob: Blob)
        ensures
            blob.spec_bytes() == bytes@,
            blob.spec_type_string() == type_string@,
    {
        Blob { bytes, type_string }
    }

    pub fn bytes(&self) -> (b: &Vec<u8>)
        ensures
            b@ == self.spec_bytes(),
    {
        &self.bytes
    }

    pub fn type_string(&self) -> (s: &String)
        ensures
            s@ == self.spec_type_string(),
    {
        &self.type_string
    }
}

/// The fields of a pair list, each name and value as a sequence of
/// characters, in the order of the list.
pub open spec fn pairs_model(pairs: Seq<(String, String)>) -> Seq<(Seq<char>, Seq<char>)> {
    Seq::new(pairs.len(), |i: int| (pairs[i].0@, pairs[i].1@))
}

/// An ordered list of form fields. A name may occur any number of times.
#[derive(Debug, PartialEq, Eq)]
pub struct FormData {
    entries: Vec<(String, String)>,
}

impl View for FormData {
    type V = Seq<(Seq<char>, Seq<char>)>;

    closed spec fn view(&self) -> Seq<(Seq<char>, Seq<char>)> {
        pairs_model(self.entries@)
    }
}

impl FormData {
    pub fn new() -> (form: FormData)
        ensures
            form@ == Seq::<(Seq<char>, Seq<char>)>::empty(),
    {
        let form = FormData { entries: Vec::new() };
        assert(form@ =~= Seq::<(Seq<char>, Seq<char>)>::empty());
        form
    }

    /// Adds one field behind those already there.
    pub fn append(&mut self, name: String, value: String)
        ensures
            final(self)@ == old(self)@.push((name@, value@)),
    {
        self.entries.push((name, value));
        assert(self@ =~= old(self)@.push((name@, value@)));
    }

    pub fn len(&self) -> (n: usize)
        ensures
            n == self@.len(),
    {
        self.entries.len()
    }

    /// The fields in order, each as a pair of name and value.
    pub fn entries(&self) -> (e: &Vec<(String, String)>)
        ensures
            pairs_model(e@) == self@,
    {
        &self.entries
    }
}

/// A body packaged as one of the representations, or the exception that the
/// script runtime raised while parsing it.
#[derive(Debug, PartialEq, Eq)]
pub enum FetchedData {
    Text(String),
    Json(JsValue),
    BlobData(Blob),
    FormData(FormData),
    ArrayBuffer(JsObject),
    JSException(JsValue),
}

/// What a [`FetchedData`] holds, over sequences.
pub enum DataModel {
    Text(Seq<char>),
    Json(JsValue),
    BlobData(Seq<u8>, Seq<char>),
    FormData(Seq<(Seq<char>, Seq<char>)>),
    ArrayBuffer(JsObject),
    JSException(JsValue),
}

impl View for FetchedData {
    type V = DataModel;

    open spec fn view(&self) -> DataModel {
        match self {
            FetchedData::Text(s) => DataModel::Text(s@),
            FetchedData::Json(v) => DataModel::Json(*v),
            FetchedData::BlobData(b) => DataModel::BlobData(b.spec_bytes(), b.spec_type_string()),
            FetchedData::FormData(f) => DataModel::FormData(f@),
            FetchedData::ArrayBuffer(o) => DataModel::ArrayBuffer(*o),
            FetchedData::JSException(e) => DataModel::JSException(*e),
        }
    }
}

/// The model of a packaging result.
pub open spec fn fallible_model(r: Fallible<FetchedData>) -> Result<DataModel, ErrorModel> {
    match r {
        Ok(d) => Ok(d@),
        Err(e) => Err(e@),
    }
}

} // verus!
