//! Request records and how the values of one run override a stored record.

use vstd::prelude::*;
use vstd::string::*;

use serde_json::Value;

use crate::error::Error;
use crate::headers::{is_first_malformed, lines_map, parse_headers, HeaderSet};
use crate::json::{body_from_text, body_of_text, json_string, string_value};
use crate::location::{config_path_text, is_url, is_url_text, lemma_resolve_injective};
use crate::method::Method;
use crate::text::{texts, uppercased};

verus! {

/// The timeout, in seconds, of a run that names none.
pub const DEFAULT_TIMEOUT: u64 = 30;

/// A request definition as it is stored and sent. Every field may be
/// absent.
#[derive(Debug, Clone)]
pub struct Record {
    /// The destination.
    pub url: Option<String>,
    /// The method.
    pub method: Option<String>,
    /// The headers.
    pub headers: Option<HeaderSet>,
    /// The body.
    pub data: Option<Value>,
    /// The timeout, in whole seconds.
    pub timeout: Option<u64>,
}

/// What a record holds.
#[verifier::ext_equal]
pub struct RecordView {
    pub url: Option<Seq<char>>,
    pub method: Option<Seq<char>>,
    pub headers: Option<Map<Seq<char>, Seq<char>>>,
    pub data: Option<Value>,
    pub timeout: Option<u64>,
}

impl View for Record {
    type V = RecordView;

    open spec fn view(&self) -> RecordView {
        RecordView {
            url: self.url.deep_view(),
            method: self.method.deep_view(),
            headers: match self.headers {
                Some(headers) => Some(headers@),
                None => None,
            },
            data: self.data,
            timeout: self.timeout,
        }
    }
}

impl RecordView {
    /// The record in which nothing is set.
    pub open spec fn empty() -> RecordView {
        RecordView { url: None, method: None, headers: None, data: None, timeout: None }
    }
}

impl Record {
    /// The record in which nothing is set: what stands for a record that
    /// was never stored.
    pub fn new() -> (record: Record)
        ensures
            record@ == RecordView::empty(),
    {
        Record { url: None, method: None, headers: None, data: None, timeout: None }
    }
}

impl Default for Record {
    /// The record in which nothing is set.
    fn default() -> (record: Record)
        ensures
            record@ == RecordView::empty(),
    {
        Record::new()
    }
}

/// The typed flags and values of one run.
#[derive(Debug, Clone)]
pub struct Invocation {
    /// The method, as it was typed.
    pub method: String,
    /// The headers, each as `Name: Value`.
    pub headers: Vec<String>,
    /// A body given as plain data.
    pub data: Option<String>,
    /// A body given as a value that may be JSON.
    pub value: Option<String>,
    /// A body given as JSON.
    pub json: Option<String>,
    /// The destination.
    pub url: Option<String>,
    /// The timeout, in whole seconds.
    pub timeout: Option<u64>,
    /// Whether the request that is sent is to be stored.
    pub save: bool,
    /// The namespace, or a destination in its place.
    pub target: Option<String>,
    /// Whether the stored record of the namespace and method is to be
    /// deleted.
    pub delete: bool,
    /// Whether the namespace is to be deleted with all below it.
    pub delete_all: bool,
    /// Whether the namespace is to be picked by walking the storage tree.
    pub comp: bool,
    /// Whether the storage root is to be shown.
    pub show_default_dir: bool,
}

/// What a run holds.
pub struct InvocationView {
    pub method: Seq<char>,
    pub headers: Seq<Seq<char>>,
    pub data: Option<Seq<char>>,
    pub value: Option<Seq<char>>,
    pub json: Option<Seq<char>>,
    pub url: Option<Seq<char>>,
    pub timeout: Option<u64>,
    pub save: bool,
    pub target: Option<Seq<char>>,
    pub delete: bool,
    pub delete_all: bool,
    pub comp: bool,
    pub show_default_dir: bool,
}

impl View for Invocation {
    type V = InvocationView;

    open spec fn view(&self) -> InvocationView {
        InvocationView {
            method: self.method@,
            headers: texts(self.headers@),
            data: self.data.deep_view(),
            value: self.value.deep_view(),
            json: self.json.deep_view(),
            url: self.url.deep_view(),
            timeout: self.timeout,
            save: self.save,
            target: self.target.deep_view(),
            delete: self.delete,
            delete_all: self.delete_all,
            comp: self.comp,
            show_default_dir: self.show_default_dir,
        }
    }
}

/// Which of the inputs of a run supplies the body.
#[derive(Debug, Clone, Copy, PartialEq, Eq, Structural)]
pub enum BodySource {
    /// The body given as JSON.
    Json,
    /// The body given as a value that may be JSON.
    Value,
    /// The body given as plain data.
    Data,
    /// None of them: the stored body stays.
    Stored,
}

/// Which input supplies the body, given which inputs are there: JSON
/// before a value, a value before plain data.
pub open spec fn body_source_of(json: bool, value: bool, data: bool) -> BodySource {
    if json {
        BodySource::Json
    } else if value {
        BodySource::Value
    } else if data {
        BodySource::Data
    } else {
        BodySource::Stored
    }
}

/// The destination that a run itself names: its own, or else a target
/// that is a destination; empty where it names none.
pub open spec fn given_url(run: InvocationView) -> Seq<char> {
    match run.url {
        Some(url) => url,
        None => match run.target {
            Some(target) => if is_url_text(target) {
                target
            } else {
                Seq::empty()
            },
            None => Seq::empty(),
        },
    }
}

/// The destination of the request: the one that the run names, else the
/// stored one.
pub open spec fn effective_url(stored: Option<Seq<char>>, run: InvocationView) -> Option<Seq<char>> {
    if given_url(run).len() > 0 {
        Some(given_url(run))
    } else {
        stored
    }
}

/// The headers of the request: the stored ones, each replaced by a header
/// of the run with the same name, and the other headers of the run.
pub open spec fn effective_headers(
    stored: Option<Map<Seq<char>, Seq<char>>>,
    run: InvocationView,
) -> Map<Seq<char>, Seq<char>> {
    let kept = match stored {
        Some(headers) => headers,
        None => Map::empty(),
    };
    kept.union_prefer_right(lines_map(run.headers))
}

/// The body of the request: the one that the run supplies, whole, else the
/// stored one.
pub open spec fn effective_body(stored: Option<Value>, run: InvocationView) -> Option<Value> {
    match body_source_of(run.json is Some, run.value is Some, run.data is Some) {
        BodySource::Json => Some(body_of_text(run.json->0)),
        BodySource::Value => Some(body_of_text(run.value->0)),
        BodySource::Data => Some(json_string(run.data->0)),
        BodySource::Stored => stored,
    }
}

/// The timeout of the request: that of the run, or the default.
pub open spec fn effective_timeout(run: InvocationView) -> u64 {
    match run.timeout {
        Some(seconds) => seconds,
        None => DEFAULT_TIMEOUT,
    }
}

/// The request that a run sends, given the stored record: what `merge`
/// returns where the headers of the run are well formed.
pub open spec fn effective_record(stored: RecordView, run: InvocationView) -> RecordView {
    RecordView {
        url: effective_url(stored.url, run),
        method: Some(uppercased(run.method)),
        headers: Some(effective_headers(stored.headers, run)),
        data: effective_body(stored.data, run),
        timeout: Some(effective_timeout(run)),
    }
}

/// Tells which input of a run supplies the body.
pub fn body_source(
    json: &Option<String>,
    value: &Option<String>,
    data: &Option<String>,
) -> (source: BodySource)
    ensures
        source == body_source_of(json is Some, value is Some, data is Some),
{
    if json.is_some() {
        BodySource::Json
    } else if value.is_some() {
        BodySource::Value
    } else if data.is_some() {
        BodySource::Data
    } else {
        BodySource::Stored
    }
}

/// Combines a stored record with the values of one run into the request
/// to send. The method is always that of the run, in upper case. The
/// destination is that of the run where it names one, else the stored one.
/// The headers of the run are added to the stored ones and replace those
/// of the same name. A body that the run supplies replaces the stored one.
/// The timeout is that of the run, or the default. A run with a header
/// that has no colon is refused.
pub fn merge(stored: Record, run: &Invocation) -> (merged: Result<Record, Error>)
    ensures
        match merged {
            Ok(record) => {
                &&& forall|i: int|
                    0 <= i < run@.headers.len() ==> (#[trigger] run@.headers[i]).contains(':')
                &&& record@ == effective_record(stored@, run@)
            },
            Err(e) => exists|i: int|
                {
                    &&& #[trigger] is_first_malformed(run@.headers, i)
                    &&& e matches Error::InvalidHeader(kept)
                    &&& kept@ == run@.headers[i]
                    &&& e.is_validation()
                },
        },
{
    let method = run.method.as_str().to_uppercase();
    let url = match &run.url {
        Some(url) => url.clone(),
        None => match &run.target {
            Some(target) => if is_url(target.as_str()) {
                target.clone()
            } else {
                String::new()
            },
            None => String::new(),
        },
    };
    let url = if url.as_str().unicode_len() > 0 {
        Some(url)
    } else {
        stored.url
    };
    let given = match parse_headers(run.headers.as_slice()) {
        Ok(given) => given,
        Err(e) => {
            return Err(e);
        },
    };
    let mut headers = match stored.headers {
        Some(headers) => headers,
        None => HeaderSet::new(),
    };
    headers.extend(given);
    let data = match body_source(&run.json, &run.value, &run.data) {
        BodySource::Json => Some(body_from_text(run.json.as_ref().unwrap().as_str())),
        BodySource::Value => Some(body_from_text(run.value.as_ref().unwrap().as_str())),
        BodySource::Data => Some(string_value(run.data.as_ref().unwrap().as_str())),
        BodySource::Stored => stored.data,
    };
    let timeout = match run.timeout {
        Some(seconds) => seconds,
        None => DEFAULT_TIMEOUT,
    };
    Ok(Record { url, method: Some(method), headers: Some(headers), data, timeout: Some(timeout) })
}

/// The method of the run always overrides: whatever is stored, the method
/// of the request is that of the run, in upper case. And a request sent
/// with another method than the stored one has another place than the
/// stored one, so that storing it leaves the stored one as it is.
pub proof fn lemma_method_always_overrides(
    stored: RecordView,
    run: InvocationView,
    base: Seq<char>,
    namespace: Seq<char>,
    stored_method: Method,
    sent_method: Method,
)
    ensures
        effective_record(stored, run).method == Some(uppercased(run.method)),
        stored_method != sent_method ==> config_path_text(base, namespace, sent_method.name_text())
            != config_path_text(base, namespace, stored_method.name_text()),
{
    if config_path_text(base, namespace, sent_method.name_text()) == config_path_text(
        base,
        namespace,
        stored_method.name_text(),
    ) {
        lemma_resolve_injective(base, namespace, sent_method, namespace, stored_method);
    }
}

/// The headers of the run are added to the stored ones: under each name
/// the request has the header of the run where the run has one of that
/// name, else the stored one, and it has no other headers.
pub proof fn lemma_headers_are_added(stored: RecordView, run: InvocationView, name: Seq<char>)
    ensures
        ({
            let kept = match stored.headers {
                Some(headers) => headers,
                None => Map::empty(),
            };
            let given = lines_map(run.headers);
            let sent = effective_record(stored, run).headers->0;
            &&& effective_record(stored, run).headers is Some
            &&& sent.contains_key(name) <==> given.contains_key(name) || kept.contains_key(name)
            &&& given.contains_key(name) ==> sent[name] == given[name]
            &&& !given.contains_key(name) && kept.contains_key(name) ==> sent[name] == kept[name]
        }),
{
}

/// Of the bodies that a run supplies one counts, and it replaces the
/// stored body whole: the body given as JSON before the one given as a
/// value, that one before plain data. Only a run that supplies none keeps
/// the stored body.
pub proof fn lemma_body_precedence(stored: RecordView, run: InvocationView)
    ensures
        run.json is Some ==> effective_record(stored, run).data == Some(body_of_text(run.json->0)),
        run.json is None && run.value is Some ==> effective_record(stored, run).data == Some(
            body_of_text(run.value->0),
        ),
        run.json is None && run.value is None && run.data is Some ==> effective_record(
            stored,
            run,
        ).data == Some(json_string(run.data->0)),
        run.json is None && run.value is None && run.data is None ==> effective_record(
            stored,
            run,
        ).data == stored.data,
{
}

} // verus!
