//! The adapter's error type.

use vstd::prelude::*;
use crate::text::{concat, decimal, u64_to_decimal};
use crate::json::{json_string, opt_seq, spec_json_string};

verus! {

/// An error of the adapter.
pub enum AdapterError {
    /// Invalid client request.
    BadRequest { message: String, param: Option<String> },
    /// The upstream provider returned an error.
    Upstream { status: u16, message: String, provider: String, model: String },
    /// Protocol translation failed.
    Bridge { code: String, message: String, provider: String, model: String },
    /// Internal server error.
    Internal { message: String },
}

/// The HTTP status an error is answered with.
pub open spec fn status_code_spec(e: AdapterError) -> u16 {
    match e {
        AdapterError::BadRequest { .. } => 400,
        AdapterError::Upstream { status, .. } => status,
        AdapterError::Bridge { .. } => 502,
        AdapterError::Internal { .. } => 500,
    }
}

/// The human-readable text of an error.
pub open spec fn message_spec(e: AdapterError) -> Seq<char> {
    match e {
        AdapterError::BadRequest { message, param } => "Bad request"@ + match param {
            Some(p) => " (param: "@ + p@ + ")"@,
            None => Seq::<char>::empty(),
        } + ": "@ + message@,
        AdapterError::Upstream { status, message, provider, model } => "Upstream "@ + decimal(
            status as nat,
        ) + " error: "@ + message@ + " on "@ + provider@ + "/"@ + model@,
        AdapterError::Bridge { code, message, provider, model } => "Bridge error ["@ + code@ + "]: "@
            + message@ + " (provider="@ + provider@ + ", model="@ + model@ + ")"@,
        AdapterError::Internal { message } => "Internal error: "@ + message@,
    }
}

/// The `type` an error is reported under in a JSON error body.
pub open spec fn error_type_spec(e: AdapterError) -> Seq<char> {
    match e {
        AdapterError::BadRequest { .. } => "invalid_request_error"@,
        AdapterError::Upstream { .. } => "upstream_error"@,
        AdapterError::Bridge { .. } => "bridge_error"@,
        AdapterError::Internal { .. } => "server_error"@,
    }
}

/// The `param` of the JSON error body: only a bad request has one.
pub open spec fn param_spec(e: AdapterError) -> Option<Seq<char>> {
    match e {
        AdapterError::BadRequest { param, .. } => opt_seq(param),
        _ => None,
    }
}

/// The JSON error body as `serde_json` writes it (members in sorted order):
/// `{"error":{"message":..,"param":..,"type":..}}`, `param` only when there
/// is one.
pub open spec fn error_json_spec(e: AdapterError) -> Seq<char> {
    "{\"error\":{\"message\":"@ + spec_json_string(message_spec(e)) + match param_spec(e) {
        Some(p) => ",\"param\":"@ + spec_json_string(p),
        None => ""@,
    } + ",\"type\":"@ + spec_json_string(error_type_spec(e)) + "}}"@
}

impl AdapterError {
    /// The HTTP status code: 400 for a bad request, the upstream's own status,
    /// 502 for a translation error, 500 for an internal one.
    pub fn status_code(&self) -> (r: u16)
        ensures
            r == status_code_spec(*self),
    {
        match self {
            AdapterError::BadRequest { .. } => 400,
            AdapterError::Upstream { status, .. } => *status,
            AdapterError::Bridge { .. } => 502,
            AdapterError::Internal { .. } => 500,
        }
    }

    /// The error's text (what `Display` shows).
    pub fn message(&self) -> (r: String)
        ensures
            r@ == message_spec(*self),
    {
        match self {
            AdapterError::BadRequest { message, param } => {
                let mut s = String::new();
                s.append("Bad request");
                if let Some(p) = param {
                    s.append(" (param: ");
                    s.append(p.as_str());
                    s.append(")");
                }
                s.append(": ");
                s.append(message.as_str());
                s
            },
            AdapterError::Upstream { status, message, provider, model } => {
                let mut s = concat("Upstream ", u64_to_decimal(*status as u64).as_str());
                s.append(" error: ");
                s.append(message.as_str());
                s.append(" on ");
                s.append(provider.as_str());
                s.append("/");
                s.append(model.as_str());
                s
            },
            AdapterError::Bridge { code, message, provider, model } => {
                let mut s = concat("Bridge error [", code.as_str());
                s.append("]: ");
                s.append(message.as_str());
                s.append(" (provider=");
                s.append(provider.as_str());
                s.append(", model=");
                s.append(model.as_str());
                s.append(")");
                s
            },
            AdapterError::Internal { message } => concat("Internal error: ", message.as_str()),
        }
    }

    /// The `type` of the JSON error body.
    pub fn error_type(&self) -> (r: &'static str)
        ensures
            r@ == error_type_spec(*self),
    {
        match self {
            AdapterError::BadRequest { .. } => "invalid_request_error",
            AdapterError::Upstream { .. } => "upstream_error",
            AdapterError::Bridge { .. } => "bridge_error",
            AdapterError::Internal { .. } => "server_error",
        }
    }

    /// The `param` of the JSON error body: only a bad request has one.
    pub fn param(&self) -> (r: Option<String>)
        ensures
            opt_seq(r) == param_spec(*self),
    {
        match self {
            AdapterError::BadRequest { param, .. } => param.clone(),
            _ => None,
        }
    }

    /// The JSON error body (see [`error_json_spec`]).
    pub fn to_json(&self) -> (r: String)
        ensures
            r@ == error_json_spec(*self),
    {
        let mut s = String::new();
        s.append("{\"error\":{\"message\":");
        s.append(json_string(self.message().as_str()).as_str());
        if let Some(p) = self.param() {
            s.append(",\"param\":");
            s.append(json_string(p.as_str()).as_str());
        }
        s.append(",\"type\":");
        s.append(json_string(self.error_type()).as_str());
        s.append("}}");
        proof {
            reveal_strlit("");
        }
        s
    }
}

} // verus!
