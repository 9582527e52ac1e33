//! Inbound webhook authentication: each connector supplies the steps that
//! decode a body and verify its source, and the three extractions that turn
//! it into a canonical event.

use vstd::prelude::*;

use vstd::string::StringSliceAdditionalSpecFns;

use crate::crypto::{copy_bytes, decoded_by, verdict_of, DecodeAlgorithm, VerifyAlgorithm};
use crate::enums::IntentStatus;
use crate::errors::ConnectorError;
use crate::time_util::Timestamp;

verus! {

/// Which kind of object a merchant's webhook event concerns.
#[derive(Clone, Copy, Debug, PartialEq, Eq, Structural)]
pub enum WebhookFlow {
    Payment,
    Refund,
    Subscription,
}

/// A verified inbound webhook, in canonical form.
#[derive(Clone, Debug, PartialEq, Eq)]
pub struct IncomingWebhookDetails {
    pub object_reference_id: String,
    pub connector_event_type: String,
    pub resource_object: Vec<u8>,
}

/// Kind of event that the router announces to a merchant.
#[derive(Clone, Copy, Debug, PartialEq, Eq, Structural)]
pub enum EventType {
    PaymentSucceeded,
}

/// The state of a payment as announced to a merchant.
#[derive(Clone, Debug, PartialEq, Eq)]
pub struct PaymentsResponse {
    pub payment_id: Option<String>,
    pub merchant_id: Option<String>,
    pub status: IntentStatus,
    pub amount: i64,
    pub amount_received: Option<i64>,
    pub currency: String,
    pub customer_id: Option<String>,
    pub description: Option<String>,
    pub client_secret: Option<String>,
}

/// What an outgoing webhook carries.
#[derive(Clone, Debug, PartialEq, Eq)]
pub enum OutgoingWebhookContent {
    PaymentDetails(PaymentsResponse),
}

/// A webhook that the router sends to a merchant.
#[derive(Clone, Debug, PartialEq, Eq)]
pub struct OutgoingWebhook {
    pub merchant_id: String,
    pub event_id: String,
    pub event_type: EventType,
    pub content: OutgoingWebhookContent,
    pub timestamp: Timestamp,
}

/// The reply that acknowledges a webhook to its connector.
#[derive(Debug)]
pub enum WebhookApiResponse {
    /// HTTP 200 with an empty JSON body.
    StatusOk,
    /// HTTP 200 with this JSON body.
    Json(serde_json::Value),
}

/// The headers of an inbound request, in the order received: name, then
/// value, both as bytes.
#[derive(Clone, Debug, PartialEq, Eq)]
pub struct WebhookHeaders {
    pub entries: Vec<(Vec<u8>, Vec<u8>)>,
}

/// An ASCII byte in lower case.
pub open spec fn ascii_lower(b: u8) -> u8 {
    if 65 <= b && b <= 90 {
        (b + 32) as u8
    } else {
        b
    }
}

/// Whether two header names are equal, ignoring ASCII case.
pub open spec fn same_header_name(a: Seq<u8>, b: Seq<u8>) -> bool {
    a.len() == b.len() && forall|i: int| 0 <= i < a.len() ==> ascii_lower(#[trigger] a[i]) == ascii_lower(b[i])
}

fn lower_byte(b: u8) -> (r: u8)
    ensures
        r == ascii_lower(b),
{
    if 65 <= b && b <= 90 {
        b + 32
    } else {
        b
    }
}

fn names_match(a: &[u8], b: &[u8]) -> (r: bool)
    ensures
        r == same_header_name(a@, b@),
{
    if a.len() != b.len() {
        return false;
    }
    let mut i: usize = 0;
    while i < a.len()
        invariant
            a@.len() == b@.len(),
            i <= a@.len(),
            forall|j: int| 0 <= j < i ==> ascii_lower(#[trigger] a@[j]) == ascii_lower(b@[j]),
        decreases a@.len() - i,
    {
        if lower_byte(a[i]) != lower_byte(b[i]) {
            return false;
        }
        i = i + 1;
    }
    true
}

impl WebhookHeaders {
    /// The value of the first header named `name`, ignoring ASCII case.
    pub fn get(&self, name: &str) -> (r: Option<Vec<u8>>)
        ensures
            match r {
                Some(v) => exists|i: int|
                    0 <= i < self.entries@.len() && same_header_name(
                        #[trigger] self.entries@[i].0@,
                        name.spec_bytes(),
                    ) && self.entries@[i].1@ == v@ && forall|j: int|
                        0 <= j < i ==> !same_header_name(
                            #[trigger] self.entries@[j].0@,
                            name.spec_bytes(),
                        ),
                None => forall|i: int|
                    0 <= i < self.entries@.len() ==> !same_header_name(
                        #[trigger] self.entries@[i].0@,
                        name.spec_bytes(),
                    ),
            },
    {
        let wanted = name.as_bytes();
        let mut i: usize = 0;
        while i < self.entries.len()
            invariant
                i <= self.entries@.len(),
                wanted@ == name.spec_bytes(),
                forall|j: int|
                    0 <= j < i ==> !same_header_name(
                        #[trigger] self.entries@[j].0@,
                        name.spec_bytes(),
                    ),
            decreases self.entries@.len() - i,
        {
            let entry = &self.entries[i];
            if names_match(entry.0.as_slice(), wanted) {
                return Some(copy_bytes(entry.1.as_slice()));
            }
            i = i + 1;
        }
        None
    }
}

/// What decoding a body gives, from the results of its steps: a failure of
/// any step is `WebhookBodyDecodingFailed`, else the decoded message.
pub open spec fn decoding_result(
    algorithm: Result<DecodeAlgorithm, ConnectorError>,
    message: Result<Seq<u8>, ConnectorError>,
    secret: Result<Seq<u8>, ConnectorError>,
) -> Result<Seq<u8>, ConnectorError> {
    match algorithm {
        Err(_) => Err(ConnectorError::WebhookBodyDecodingFailed),
        Ok(alg) => match (message, secret) {
            (Ok(m), Ok(s)) => match decoded_by(alg, s, m) {
                Ok(d) => Ok(d),
                Err(_) => Err(ConnectorError::WebhookBodyDecodingFailed),
            },
            _ => Err(ConnectorError::WebhookBodyDecodingFailed),
        },
    }
}

/// What verifying the source gives, from the results of its steps: any
/// failure is `WebhookSourceVerificationFailed`, else the algorithm's verdict.
pub open spec fn verification_result(
    algorithm: Result<VerifyAlgorithm, ConnectorError>,
    signature: Result<Seq<u8>, ConnectorError>,
    message: Result<Seq<u8>, ConnectorError>,
    secret: Result<Seq<u8>, ConnectorError>,
) -> Result<bool, ConnectorError> {
    match (algorithm, signature, message, secret) {
        (Ok(alg), Ok(sig), Ok(m), Ok(s)) => match verdict_of(alg, s, sig, m) {
            Ok(b) => Ok(b),
            Err(_) => Err(ConnectorError::WebhookSourceVerificationFailed),
        },
        _ => Err(ConnectorError::WebhookSourceVerificationFailed),
    }
}

/// The view of a step result that holds bytes.
pub open spec fn bytes_view(r: Result<Vec<u8>, ConnectorError>) -> Result<Seq<u8>, ConnectorError> {
    match r {
        Ok(v) => Ok(v@),
        Err(e) => Err(e),
    }
}

/// Decodes a body from the results of the decoding steps.
pub fn decode_with(
    algorithm: Result<DecodeAlgorithm, ConnectorError>,
    message: Result<Vec<u8>, ConnectorError>,
    secret: Result<Vec<u8>, ConnectorError>,
) -> (r: Result<Vec<u8>, ConnectorError>)
    ensures
        bytes_view(r) == decoding_result(algorithm, bytes_view(message), bytes_view(secret)),
{
    let alg = match algorithm {
        Err(_) => return Err(ConnectorError::WebhookBodyDecodingFailed),
        Ok(a) => a,
    };
    let m = match message {
        Err(_) => return Err(ConnectorError::WebhookBodyDecodingFailed),
        Ok(m) => m,
    };
    let s = match secret {
        Err(_) => return Err(ConnectorError::WebhookBodyDecodingFailed),
        Ok(s) => s,
    };
    match alg.decode_message(s.as_slice(), m.as_slice()) {
        Ok(d) => Ok(d),
        Err(_) => Err(ConnectorError::WebhookBodyDecodingFailed),
    }
}

/// Verifies a source from the results of the verification steps.
pub fn verify_with(
    algorithm: Result<VerifyAlgorithm, ConnectorError>,
    signature: Result<Vec<u8>, ConnectorError>,
    message: Result<Vec<u8>, ConnectorError>,
    secret: Result<Vec<u8>, ConnectorError>,
) -> (r: Result<bool, ConnectorError>)
    ensures
        r == verification_result(
            algorithm,
            bytes_view(signature),
            bytes_view(message),
            bytes_view(secret),
        ),
{
    let alg = match algorithm {
        Err(_) => return Err(ConnectorError::WebhookSourceVerificationFailed),
        Ok(a) => a,
    };
    let sig = match signature {
        Err(_) => return Err(ConnectorError::WebhookSourceVerificationFailed),
        Ok(v) => v,
    };
    let m = match message {
        Err(_) => return Err(ConnectorError::WebhookSourceVerificationFailed),
        Ok(v) => v,
    };
    let s = match secret {
        Err(_) => return Err(ConnectorError::WebhookSourceVerificationFailed),
        Ok(v) => v,
    };
    match alg.verify_signature(s.as_slice(), sig.as_slice(), m.as_slice()) {
        Ok(b) => Ok(b),
        Err(_) => Err(ConnectorError::WebhookSourceVerificationFailed),
    }
}

/// Whether `r` is the webhook built from the verdict and the extractions:
/// an unauthentic source fails with `WebhookSourceVerificationFailed`, a
/// failed extraction passes its error on, the first failure in that order
/// wins, and otherwise the details hold the three extracted values.
pub open spec fn is_details_result(
    verified: bool,
    reference: Result<String, ConnectorError>,
    event_type: Result<String, ConnectorError>,
    resource: Result<Vec<u8>, ConnectorError>,
    r: Result<IncomingWebhookDetails, ConnectorError>,
) -> bool {
    if !verified {
        r == Err::<IncomingWebhookDetails, ConnectorError>(
            ConnectorError::WebhookSourceVerificationFailed,
        )
    } else {
        match (reference, event_type, resource) {
            (Err(e), _, _) => r == Err::<IncomingWebhookDetails, ConnectorError>(e),
            (Ok(_), Err(e), _) => r == Err::<IncomingWebhookDetails, ConnectorError>(e),
            (Ok(_), Ok(_), Err(e)) => r == Err::<IncomingWebhookDetails, ConnectorError>(e),
            (Ok(id), Ok(ev), Ok(obj)) => r == Ok::<IncomingWebhookDetails, ConnectorError>(
                IncomingWebhookDetails {
                    object_reference_id: id,
                    connector_event_type: ev,
                    resource_object: obj,
                },
            ),
        }
    }
}

/// Builds the canonical webhook once its source is judged.
pub fn webhook_details_from(
    verified: bool,
    reference: Result<String, ConnectorError>,
    event_type: Result<String, ConnectorError>,
    resource: Result<Vec<u8>, ConnectorError>,
) -> (r: Result<IncomingWebhookDetails, ConnectorError>)
    ensures
        is_details_result(verified, reference, event_type, resource, r),
{
    if !verified {
        return Err(ConnectorError::WebhookSourceVerificationFailed);
    }
    let object_reference_id = match reference {
        Err(e) => return Err(e),
        Ok(v) => v,
    };
    let connector_event_type = match event_type {
        Err(e) => return Err(e),
        Ok(v) => v,
    };
    let resource_object = match resource {
        Err(e) => return Err(e),
        Ok(v) => v,
    };
    Ok(IncomingWebhookDetails { object_reference_id, connector_event_type, resource_object })
}

/// A webhook whose signature is not the HMAC-SHA-256 tag of its message
/// under the merchant's secret is refused with
/// `WebhookSourceVerificationFailed`, and no details are built from it.
pub proof fn lemma_tampered_webhook_is_refused(
    signature: Seq<u8>,
    message: Seq<u8>,
    secret: Seq<u8>,
    reference: Result<String, ConnectorError>,
    event_type: Result<String, ConnectorError>,
    resource: Result<Vec<u8>, ConnectorError>,
    r: Result<IncomingWebhookDetails, ConnectorError>,
)
    requires
        crate::crypto::hmac_sha256_of(secret, message) != signature,
        verification_result(Ok(VerifyAlgorithm::HmacSha256), Ok(signature), Ok(message), Ok(secret))
            matches Ok(verdict) && is_details_result(verdict, reference, event_type, resource, r),
    ensures
        verification_result(Ok(VerifyAlgorithm::HmacSha256), Ok(signature), Ok(message), Ok(secret))
            == Ok::<bool, ConnectorError>(false),
        r == Err::<IncomingWebhookDetails, ConnectorError>(
            ConnectorError::WebhookSourceVerificationFailed,
        ),
{
}

/// Relies on serde_json::to_vec: the compact JSON text of a document. It
/// fails only for a failing `Serialize` impl or a map with non-string keys,
/// and a `Value` has neither.
#[verifier::external_body]
fn json_to_vec(value: &serde_json::Value) -> (r: Option<Vec<u8>>)
    ensures
        r is Some,
{
    serde_json::to_vec(value).ok()
}

/// The default decoding algorithm: none, the body is sent in the clear.
pub fn default_decoding_algorithm() -> (r: Result<DecodeAlgorithm, ConnectorError>)
    ensures
        r == Ok::<DecodeAlgorithm, ConnectorError>(DecodeAlgorithm::NoAlgorithm),
{
    Ok(DecodeAlgorithm::NoAlgorithm)
}

/// The default merchant secret, for decoding and verification alike: empty.
pub fn default_merchant_secret() -> (r: Result<Vec<u8>, ConnectorError>)
    ensures
        r is Ok && r->Ok_0@ == Seq::<u8>::empty(),
{
    Ok(Vec::new())
}

/// The default message to decode: the raw body.
pub fn default_decoding_message(body: &[u8]) -> (r: Result<Vec<u8>, ConnectorError>)
    ensures
        r is Ok && r->Ok_0@ == body@,
{
    Ok(copy_bytes(body))
}

/// The default verification algorithm: none, every webhook is authentic.
pub fn default_verification_algorithm() -> (r: Result<VerifyAlgorithm, ConnectorError>)
    ensures
        r == Ok::<VerifyAlgorithm, ConnectorError>(VerifyAlgorithm::NoAlgorithm),
{
    Ok(VerifyAlgorithm::NoAlgorithm)
}

/// The default signature, and the default message it covers: empty.
pub fn default_verification_bytes() -> (r: Result<Vec<u8>, ConnectorError>)
    ensures
        r is Ok && r->Ok_0@ == Seq::<u8>::empty(),
{
    Ok(Vec::new())
}

/// The default reply to the connector: an acknowledgment with an empty JSON
/// body.
pub fn default_api_response() -> (r: Result<WebhookApiResponse, ConnectorError>)
    ensures
        r matches Ok(WebhookApiResponse::StatusOk),
{
    Ok(WebhookApiResponse::StatusOk)
}

/// With the default steps, a webhook is decoded to its raw body and judged
/// authentic, so its details are exactly what the extractions give; the
/// first failed extraction is the result otherwise.
pub proof fn lemma_default_steps_accept(
    body: Seq<u8>,
    reference: Result<String, ConnectorError>,
    event_type: Result<String, ConnectorError>,
    resource: Result<Vec<u8>, ConnectorError>,
    r: Result<IncomingWebhookDetails, ConnectorError>,
)
    requires
        verification_result(
            Ok(VerifyAlgorithm::NoAlgorithm),
            Ok(Seq::<u8>::empty()),
            Ok(Seq::<u8>::empty()),
            Ok(Seq::<u8>::empty()),
        ) matches Ok(verdict) && is_details_result(verdict, reference, event_type, resource, r),
    ensures
        decoding_result(Ok(DecodeAlgorithm::NoAlgorithm), Ok(body), Ok(Seq::<u8>::empty()))
            == Ok::<Seq<u8>, ConnectorError>(body),
        verification_result(
            Ok(VerifyAlgorithm::NoAlgorithm),
            Ok(Seq::<u8>::empty()),
            Ok(Seq::<u8>::empty()),
            Ok(Seq::<u8>::empty()),
        ) == Ok::<bool, ConnectorError>(true),
        (reference matches Ok(id) && event_type matches Ok(ev) && resource matches Ok(obj)) ==> r
            == Ok::<IncomingWebhookDetails, ConnectorError>(
            IncomingWebhookDetails {
                object_reference_id: reference->Ok_0,
                connector_event_type: event_type->Ok_0,
                resource_object: resource->Ok_0,
            },
        ),
{
}

/// The webhook steps of one connector. Every step but the three extractions
/// has a default for a connector that neither encodes nor signs its webhooks.
pub trait IncomingWebhook {
    /// The algorithm that decodes the body; by default none.
    fn get_webhook_body_decoding_algorithm(
        &self,
        headers: &WebhookHeaders,
        body: &[u8],
    ) -> Result<DecodeAlgorithm, ConnectorError> {
        default_decoding_algorithm()
    }

    /// The merchant's decoding secret; by default empty.
    fn get_webhook_body_decoding_merchant_secret(&self, merchant_id: &str) -> Result<
        Vec<u8>,
        ConnectorError,
    > {
        default_merchant_secret()
    }

    /// The bytes to decode; by default the body.
    fn get_webhook_body_decoding_message(&self, headers: &WebhookHeaders, body: &[u8]) -> Result<
        Vec<u8>,
        ConnectorError,
    > {
        default_decoding_message(body)
    }

    /// The body decoded with this connector's steps.
    fn decode_webhook_body(&self, headers: &WebhookHeaders, body: &[u8], merchant_id: &str) -> (r:
        Result<Vec<u8>, ConnectorError>)
        ensures
            r matches Err(e) ==> e == ConnectorError::WebhookBodyDecodingFailed,
    {
        let algorithm = self.get_webhook_body_decoding_algorithm(headers, body);
        if algorithm.is_err() {
            return Err(ConnectorError::WebhookBodyDecodingFailed);
        }
        let message = self.get_webhook_body_decoding_message(headers, body);
        if message.is_err() {
            return Err(ConnectorError::WebhookBodyDecodingFailed);
        }
        let secret = self.get_webhook_body_decoding_merchant_secret(merchant_id);
        decode_with(algorithm, message, secret)
    }

    /// The algorithm that authenticates the source; by default none.
    fn get_webhook_source_verification_algorithm(
        &self,
        headers: &WebhookHeaders,
        body: &[u8],
    ) -> Result<VerifyAlgorithm, ConnectorError> {
        default_verification_algorithm()
    }

    /// The merchant's verification secret; by default empty.
    fn get_webhook_source_verification_merchant_secret(&self, merchant_id: &str) -> Result<
        Vec<u8>,
        ConnectorError,
    > {
        default_merchant_secret()
    }

    /// The signature sent with the webhook; by default empty.
    fn get_webhook_source_verification_signature(
        &self,
        headers: &WebhookHeaders,
        body: &[u8],
    ) -> Result<Vec<u8>, ConnectorError> {
        default_verification_bytes()
    }

    /// The bytes that the signature covers; by default empty.
    fn get_webhook_source_verification_message(
        &self,
        headers: &WebhookHeaders,
        body: &[u8],
    ) -> Result<Vec<u8>, ConnectorError> {
        default_verification_bytes()
    }

    /// Whether the webhook comes from the connector, by this connector's steps.
    fn verify_webhook_source(&self, headers: &WebhookHeaders, body: &[u8], merchant_id: &str) -> (r:
        Result<bool, ConnectorError>)
        ensures
            r matches Err(e) ==> e == ConnectorError::WebhookSourceVerificationFailed,
    {
        let algorithm = self.get_webhook_source_verification_algorithm(headers, body);
        if algorithm.is_err() {
            return Err(ConnectorError::WebhookSourceVerificationFailed);
        }
        let signature = self.get_webhook_source_verification_signature(headers, body);
        if signature.is_err() {
            return Err(ConnectorError::WebhookSourceVerificationFailed);
        }
        let message = self.get_webhook_source_verification_message(headers, body);
        if message.is_err() {
            return Err(ConnectorError::WebhookSourceVerificationFailed);
        }
        let secret = self.get_webhook_source_verification_merchant_secret(merchant_id);
        verify_with(algorithm, signature, message, secret)
    }

    /// The id of the object that the webhook concerns.
    fn get_webhook_object_reference_id(&self, body: &[u8]) -> Result<String, ConnectorError>;

    /// The connector's name of the event.
    fn get_webhook_event_type(&self, body: &[u8]) -> Result<String, ConnectorError>;

    /// The object that the webhook carries.
    fn get_webhook_resource_object(&self, body: &[u8]) -> Result<serde_json::Value, ConnectorError>;

    /// The reply to the connector; by default an empty acknowledgment.
    fn get_webhook_api_response(&self) -> Result<WebhookApiResponse, ConnectorError> {
        default_api_response()
    }
}

/// Authenticates an inbound webhook with `connector`'s steps and turns it
/// into its canonical form: the body is decoded, the source verified on the
/// raw body, and the three extractions made on the decoded body. Any failure
/// aborts the whole webhook.
pub fn get_incoming_webhook_details<C: IncomingWebhook>(
    connector: &C,
    headers: &WebhookHeaders,
    body: &[u8],
    merchant_id: &str,
) -> (r: Result<IncomingWebhookDetails, ConnectorError>)
{
    let decoded = match connector.decode_webhook_body(headers, body, merchant_id) {
        Err(e) => return Err(e),
        Ok(d) => d,
    };
    let verified = match connector.verify_webhook_source(headers, body, merchant_id) {
        Err(e) => return Err(e),
        Ok(v) => v,
    };
    if !verified {
        return Err(ConnectorError::WebhookSourceVerificationFailed);
    }
    let reference = connector.get_webhook_object_reference_id(decoded.as_slice());
    if let Err(e) = reference {
        return Err(e);
    }
    let event_type = connector.get_webhook_event_type(decoded.as_slice());
    if let Err(e) = event_type {
        return Err(e);
    }
    let resource = match connector.get_webhook_resource_object(decoded.as_slice()) {
        Err(e) => Err(e),
        Ok(v) => match json_to_vec(&v) {
            Some(bytes) => Ok(bytes),
            None => Err(ConnectorError::WebhookResourceObjectNotFound),
        },
    };
    webhook_details_from(verified, reference, event_type, resource)
}

} // verus!
