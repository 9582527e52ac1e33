//! The envelope of one call to a connector, typed by its flow, request and
//! response.

use vstd::prelude::*;

use core::marker::PhantomData;

verus! {

/// Marker of the flow that obtains a connector access token.
#[derive(Clone, Copy, Debug)]
pub struct AccessTokenAuth;

/// Marker of the flow that authorizes a payment.
#[derive(Clone, Copy, Debug)]
pub struct Authorize;

/// State of one attempt to run a payment through a connector.
#[derive(Clone, Copy, Debug, PartialEq, Eq, Structural)]
pub enum AttemptStatus {
    Started,
    AuthenticationFailed,
    PendingVbv,
    VbvSuccessful,
    Authorized,
    AuthorizationFailed,
    Charged,
    Authorizing,
    CodInitiated,
    Voided,
    VoidInitiated,
    CaptureInitiated,
    CaptureFailed,
    VoidFailed,
    AutoRefunded,
    PartialCharged,
    Pending,
    Failure,
    PaymentMethodAwaited,
    ConfirmationAwaited,
}

/// Kind of payment method used by an attempt.
#[derive(Clone, Copy, Debug, PartialEq, Eq, Structural)]
pub enum PaymentMethodType {
    Card,
    PayLater,
    Wallet,
    BankTransfer,
    Netbanking,
    Upi,
    OpenBanking,
    ConsumerFinance,
}

/// Whether the payment goes through 3-D Secure authentication.
#[derive(Clone, Copy, Debug, PartialEq, Eq, Structural)]
pub enum AuthenticationType {
    ThreeDs,
    NoThreeDs,
}

/// A postal address of the customer.
#[derive(Clone, Debug, PartialEq, Eq)]
pub struct AddressDetails {
    pub city: Option<String>,
    pub country: Option<String>,
    pub line1: Option<String>,
    pub line2: Option<String>,
    pub zip: Option<String>,
    pub state: Option<String>,
    pub first_name: Option<String>,
    pub last_name: Option<String>,
}

/// Shipping and billing addresses of a payment.
#[derive(Clone, Debug, PartialEq, Eq)]
pub struct PaymentAddress {
    pub shipping: Option<AddressDetails>,
    pub billing: Option<AddressDetails>,
}

/// The credentials a merchant holds with a connector.
#[derive(Clone, Debug, PartialEq, Eq)]
pub enum ConnectorAuthType {
    HeaderKey { api_key: String },
    BodyKey { api_key: String, key1: String },
    SignatureKey { api_key: String, key1: String, api_secret: String },
}

impl ConnectorAuthType {
    /// A copy of these credentials.
    pub fn duplicate(&self) -> (r: Self)
        ensures
            r == *self,
    {
        match self {
            ConnectorAuthType::HeaderKey { api_key } => ConnectorAuthType::HeaderKey {
                api_key: api_key.clone(),
            },
            ConnectorAuthType::BodyKey { api_key, key1 } => ConnectorAuthType::BodyKey {
                api_key: api_key.clone(),
                key1: key1.clone(),
            },
            ConnectorAuthType::SignatureKey { api_key, key1, api_secret } =>
                ConnectorAuthType::SignatureKey {
                api_key: api_key.clone(),
                key1: key1.clone(),
                api_secret: api_secret.clone(),
            },
        }
    }
}

/// A bearer credential issued by a connector, valid for `expires` seconds.
#[derive(Clone, Debug, PartialEq, Eq)]
pub struct AccessToken {
    pub token: String,
    pub expires: i64,
}

/// The request of the access-token flow.
#[derive(Clone, Debug, PartialEq, Eq)]
pub struct AccessTokenRequestData {
    pub app_id: String,
    pub id: Option<String>,
}

/// The access-token request made from a merchant's credentials: the API key
/// becomes the application id; the first key, where there is one, the id.
pub open spec fn token_request_of(auth: ConnectorAuthType) -> AccessTokenRequestData {
        match auth {
            ConnectorAuthType::HeaderKey { api_key } => AccessTokenRequestData {
                app_id: api_key,
                id: None,
            },
            ConnectorAuthType::BodyKey { api_key, key1 } => AccessTokenRequestData {
                app_id: api_key,
                id: Some(key1),
            },
            ConnectorAuthType::SignatureKey { api_key, key1, .. } => AccessTokenRequestData {
                app_id: api_key,
                id: Some(key1),
            },
        }
}

impl From<ConnectorAuthType> for AccessTokenRequestData {
    fn from(auth: ConnectorAuthType) -> (r: Self) {
        match auth {
            ConnectorAuthType::HeaderKey { api_key } => AccessTokenRequestData {
                app_id: api_key,
                id: None,
            },
            ConnectorAuthType::BodyKey { api_key, key1 } => AccessTokenRequestData {
                app_id: api_key,
                id: Some(key1),
            },
            ConnectorAuthType::SignatureKey { api_key, key1, .. } => AccessTokenRequestData {
                app_id: api_key,
                id: Some(key1),
            },
        }
    }
}

impl vstd::std_specs::convert::FromSpecImpl<ConnectorAuthType> for AccessTokenRequestData {
    open spec fn obeys_from_spec() -> bool {
        true
    }

    open spec fn from_spec(auth: ConnectorAuthType) -> Self {
        token_request_of(auth)
    }
}

/// A failure reported by a connector.
#[derive(Clone, Debug, PartialEq, Eq)]
pub struct ErrorResponse {
    pub code: String,
    pub message: String,
    pub reason: Option<String>,
    pub status_code: u16,
}

/// The placeholder error of a response not yet received.
pub open spec fn is_default_error(e: ErrorResponse) -> bool {
    &&& e.code@ == "HE_00"@
    &&& e.message@ == "Something went wrong"@
    &&& e.reason is None
    &&& e.status_code == 500
}

impl Default for ErrorResponse {
    fn default() -> (r: Self)
        ensures
            is_default_error(r),
    {
        proof {
            reveal_strlit("HE_00");
            reveal_strlit("Something went wrong");
        }
        ErrorResponse {
            code: String::from_str("HE_00"),
            message: String::from_str("Something went wrong"),
            reason: None,
            status_code: 500,
        }
    }
}

/// The envelope of one connector call in flow `F`, with request `Req` and
/// response `Res`, and the context that every flow shares.
#[derive(Debug)]
pub struct RouterData<F, Req, Res> {
    pub flow: PhantomData<F>,
    pub merchant_id: String,
    pub connector: String,
    pub payment_id: String,
    pub attempt_id: String,
    pub status: AttemptStatus,
    pub payment_method: PaymentMethodType,
    pub connector_auth_type: ConnectorAuthType,
    pub description: Option<String>,
    pub return_url: Option<String>,
    pub router_return_url: Option<String>,
    pub address: PaymentAddress,
    pub auth_type: AuthenticationType,
    pub connector_meta_data: Option<serde_json::Value>,
    pub amount_captured: Option<i64>,
    pub payment_method_id: Option<String>,
    pub access_token: Option<AccessToken>,
    pub request: Req,
    pub response: Result<Res, ErrorResponse>,
}

/// Whether two envelopes carry the same shared context.
pub open spec fn same_context<F1, Req1, Res1, F2, Req2, Res2>(
    a: RouterData<F1, Req1, Res1>,
    b: RouterData<F2, Req2, Res2>,
) -> bool {
    &&& a.merchant_id == b.merchant_id
    &&& a.connector == b.connector
    &&& a.payment_id == b.payment_id
    &&& a.attempt_id == b.attempt_id
    &&& a.status == b.status
    &&& a.payment_method == b.payment_method
    &&& a.connector_auth_type == b.connector_auth_type
    &&& a.description == b.description
    &&& a.return_url == b.return_url
    &&& a.router_return_url == b.router_return_url
    &&& a.address == b.address
    &&& a.auth_type == b.auth_type
    &&& a.connector_meta_data == b.connector_meta_data
    &&& a.amount_captured == b.amount_captured
    &&& a.payment_method_id == b.payment_method_id
    &&& a.access_token == b.access_token
}

} // verus!
