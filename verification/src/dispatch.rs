//! From a record to the request that is handed to the sender.

use vstd::prelude::*;
use vstd::string::*;

use serde_json::Value;

use crate::error::Error;
use crate::headers::HeaderSet;
use crate::method::Method;
use crate::record::{Record, RecordView, DEFAULT_TIMEOUT};

verus! {

/// A request that can be sent: everything in it is settled.
#[derive(Debug, Clone)]
pub struct Dispatch {
    /// The method.
    pub method: Method,
    /// The destination.
    pub url: String,
    /// The headers.
    pub headers: HeaderSet,
    /// The body, if there is one.
    pub body: Option<Value>,
    /// The timeout, in whole seconds.
    pub timeout: u64,
}

/// Whether a record can be sent: it names a destination, and its method
/// is one of GET, POST, PUT and DELETE.
pub open spec fn dispatchable(record: RecordView) -> bool {
    &&& record.url is Some
    &&& record.method is Some
    &&& Method::named(record.method->0) is Some
}

/// Whether `e` is the error of a record that cannot be sent: the missing
/// destination comes first, then the missing method, then the method that
/// is not supported.
pub open spec fn is_dispatch_error(record: RecordView, e: Error) -> bool {
    if record.url is None {
        e == Error::MissingUrl
    } else if record.method is None {
        e == Error::MissingMethod
    } else {
        &&& Method::named(record.method->0) is None
        &&& e matches Error::UnsupportedMethod(kept)
        &&& kept@ == record.method->0
    }
}

/// Whether `request` is what is sent for a record that can be sent: the
/// destination, the headers and the body of the record, its method, and
/// its timeout or the default.
pub open spec fn is_dispatch_of(record: RecordView, request: Dispatch) -> bool {
    &&& record.url == Some(request.url@)
    &&& Method::named(record.method->0) == Some(request.method)
    &&& request.headers@ == match record.headers {
        Some(headers) => headers,
        None => Map::empty(),
    }
    &&& request.body == record.data
    &&& request.timeout == match record.timeout {
        Some(seconds) => seconds,
        None => DEFAULT_TIMEOUT,
    }
}

/// Settles a record for sending, or says why it cannot be sent. Nothing
/// is sent for a record without a destination or with a method that is
/// not supported.
pub fn prepare_dispatch(record: Record) -> (prepared: Result<Dispatch, Error>)
    ensures
        prepared is Ok <==> dispatchable(record@),
        match prepared {
            Ok(request) => is_dispatch_of(record@, request),
            Err(e) => is_dispatch_error(record@, e) && e.is_validation(),
        },
{
    let url = match record.url {
        Some(url) => url,
        None => {
            return Err(Error::MissingUrl);
        },
    };
    let name = match record.method {
        Some(name) => name,
        None => {
            return Err(Error::MissingMethod);
        },
    };
    let method = match Method::from_name(name.as_str()) {
        Some(method) => method,
        None => {
            return Err(Error::UnsupportedMethod(name));
        },
    };
    let headers = match record.headers {
        Some(headers) => headers,
        None => HeaderSet::new(),
    };
    let timeout = match record.timeout {
        Some(seconds) => seconds,
        None => DEFAULT_TIMEOUT,
    };
    Ok(Dispatch { method, url, headers, body: record.data, timeout })
}

} // verus!
