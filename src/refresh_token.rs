//! The connector access-token coordinator: a cached token is used where one
//! is there; on a miss the connector is asked for a fresh one, which is
//! written back to the cache on a best-effort basis. The caller performs each
//! step's action and hands its result to the next step.

use vstd::prelude::*;

use core::marker::PhantomData;

use crate::errors::{ApiErrorResponse, StorageError};
use crate::router_data::{
    same_context, AccessToken, AccessTokenAuth, AccessTokenRequestData, ErrorResponse,
    RouterData, is_default_error, token_request_of,
};

verus! {

/// The payment connectors the router talks to.
#[derive(Clone, Copy, Debug, PartialEq, Eq, Structural)]
pub enum Connector {
    Aci,
    Adyen,
    Authorizedotnet,
    Braintree,
    Checkout,
    Cybersource,
    Fiserv,
    Globalpay,
    Klarna,
    Payu,
    Rapyd,
    Shift4,
    Stripe,
    Worldline,
    Worldpay,
}

/// The identifier of a connector, as its integration names itself.
pub open spec fn connector_id_of(c: Connector) -> Seq<char> {
    match c {
        Connector::Aci => "aci"@,
        Connector::Adyen => "adyen"@,
        Connector::Authorizedotnet => "authorizedotnet"@,
        Connector::Braintree => "braintree"@,
        Connector::Checkout => "checkout"@,
        Connector::Cybersource => "cybersource"@,
        Connector::Fiserv => "fiserv"@,
        Connector::Globalpay => "globalpay"@,
        Connector::Klarna => "klarna"@,
        Connector::Payu => "payu"@,
        Connector::Rapyd => "rapyd"@,
        Connector::Shift4 => "shift4"@,
        Connector::Stripe => "stripe"@,
        Connector::Worldline => "worldline"@,
        Connector::Worldpay => "worldpay"@,
    }
}

impl Connector {
    /// The identifier of this connector.
    pub fn id(&self) -> (r: &'static str)
        ensures
            r@ == connector_id_of(*self),
    {
        match self {
            Connector::Aci => {
                proof { reveal_strlit("aci"); }
                "aci"
            },
            Connector::Adyen => {
                proof { reveal_strlit("adyen"); }
                "adyen"
            },
            Connector::Authorizedotnet => {
                proof { reveal_strlit("authorizedotnet"); }
                "authorizedotnet"
            },
            Connector::Braintree => {
                proof { reveal_strlit("braintree"); }
                "braintree"
            },
            Connector::Checkout => {
                proof { reveal_strlit("checkout"); }
                "checkout"
            },
            Connector::Cybersource => {
                proof { reveal_strlit("cybersource"); }
                "cybersource"
            },
            Connector::Fiserv => {
                proof { reveal_strlit("fiserv"); }
                "fiserv"
            },
            Connector::Globalpay => {
                proof { reveal_strlit("globalpay"); }
                "globalpay"
            },
            Connector::Klarna => {
                proof { reveal_strlit("klarna"); }
                "klarna"
            },
            Connector::Payu => {
                proof { reveal_strlit("payu"); }
                "payu"
            },
            Connector::Rapyd => {
                proof { reveal_strlit("rapyd"); }
                "rapyd"
            },
            Connector::Shift4 => {
                proof { reveal_strlit("shift4"); }
                "shift4"
            },
            Connector::Stripe => {
                proof { reveal_strlit("stripe"); }
                "stripe"
            },
            Connector::Worldline => {
                proof { reveal_strlit("worldline"); }
                "worldline"
            },
            Connector::Worldpay => {
                proof { reveal_strlit("worldpay"); }
                "worldpay"
            },
        }
    }
}

/// The connector that a call goes to.
#[derive(Clone, Copy, Debug, PartialEq, Eq, Structural)]
pub struct ConnectorData {
    pub connector_name: Connector,
}

/// The connectors that authenticate with bearer tokens.
pub open spec fn uses_access_token(c: Connector) -> bool {
    c == Connector::Globalpay || c == Connector::Payu
}

/// Whether the connector authenticates with bearer tokens.
pub fn connector_supports_access_token(connector: &ConnectorData) -> (r: bool)
    ensures
        r == uses_access_token(connector.connector_name),
{
    match connector.connector_name {
        Connector::Globalpay | Connector::Payu => true,
        Connector::Stripe => false,
        _ => false,
    }
}

/// The envelope `router_data` retyped to another flow: the shared context is
/// kept, the request and response are the given ones.
pub fn router_data_type_conversion<F1, F2, Req1, Req2, Res1, Res2>(
    router_data: RouterData<F1, Req1, Res1>,
    request: Req2,
    response: Result<Res2, ErrorResponse>,
) -> (r: RouterData<F2, Req2, Res2>)
    ensures
        same_context(router_data, r),
        r.request == request,
        r.response == response,
{
    RouterData {
        flow: PhantomData,
        request,
        response,
        merchant_id: router_data.merchant_id,
        address: router_data.address,
        amount_captured: router_data.amount_captured,
        auth_type: router_data.auth_type,
        connector: router_data.connector,
        connector_auth_type: router_data.connector_auth_type,
        connector_meta_data: router_data.connector_meta_data,
        description: router_data.description,
        router_return_url: router_data.router_return_url,
        payment_id: router_data.payment_id,
        payment_method: router_data.payment_method,
        payment_method_id: router_data.payment_method_id,
        return_url: router_data.return_url,
        status: router_data.status,
        attempt_id: router_data.attempt_id,
        access_token: router_data.access_token,
    }
}

/// What `add_access_token` hands back: the token (or the connector's error)
/// and whether a token was called for at all.
pub type AccessTokenResult = (Result<Option<AccessToken>, ErrorResponse>, bool);

/// The next action of the coordinator.
#[derive(Debug)]
pub enum AccessTokenStep {
    /// Read the cached token of this merchant and connector.
    LookUpCache { merchant_id: String, connector_id: String },
    /// Ask the connector for a fresh token with this envelope.
    Refresh(RouterData<AccessTokenAuth, AccessTokenRequestData, AccessToken>),
    /// Write the fresh token back to the cache, then finish with it.
    StoreToken { merchant_id: String, connector_id: String, token: AccessToken },
    /// Finished with this result.
    Done(Result<AccessTokenResult, ApiErrorResponse>),
}

/// Whether `step` is the first step for this connector and merchant: a
/// connector without bearer tokens finishes at once with a placeholder error
/// and no attempt; any other one looks up the cache.
pub open spec fn is_start_step(connector: ConnectorData, merchant_id: Seq<char>, step: AccessTokenStep) -> bool {
    if uses_access_token(connector.connector_name) {
        match step {
            AccessTokenStep::LookUpCache { merchant_id: m, connector_id: k } => m@ == merchant_id
                && k@ == connector_id_of(connector.connector_name),
            _ => false,
        }
    } else {
        match step {
            AccessTokenStep::Done(Ok((Err(e), attempted))) => is_default_error(e) && !attempted,
            _ => false,
        }
    }
}

/// Whether `step` follows a cache lookup: a failed lookup is an internal
/// error, a hit finishes with the cached token, and a miss asks for a refresh
/// with the envelope retyped to the access-token flow, whose request is made
/// from the merchant's credentials and whose response is a placeholder error.
pub open spec fn is_step_after_lookup<F, Req, Res>(
    lookup: Result<Option<AccessToken>, StorageError>,
    router_data: RouterData<F, Req, Res>,
    step: AccessTokenStep,
) -> bool {
    match lookup {
        Err(_) => step == AccessTokenStep::Done(Err(ApiErrorResponse::InternalServerError)),
        Ok(Some(token)) => step == AccessTokenStep::Done(Ok((Ok(Some(token)), true))),
        Ok(None) => match step {
            AccessTokenStep::Refresh(rd) => {
                &&& same_context(router_data, rd)
                &&& rd.request == token_request_of(router_data.connector_auth_type)
                &&& rd.response matches Err(e) && is_default_error(e)
            },
            _ => false,
        },
    }
}

/// Whether `step` follows the refresh call: a call that could not be made is
/// an internal error, an error from the connector is handed to the caller, and
/// a fresh token is to be written back.
pub open spec fn is_step_after_refresh(
    refreshed: Result<Result<AccessToken, ErrorResponse>, ApiErrorResponse>,
    merchant_id: Seq<char>,
    connector: ConnectorData,
    step: AccessTokenStep,
) -> bool {
    match refreshed {
        Err(_) => step == AccessTokenStep::Done(Err(ApiErrorResponse::InternalServerError)),
        Ok(Err(e)) => step == AccessTokenStep::Done(Ok((Err(e), true))),
        Ok(Ok(token)) => match step {
            AccessTokenStep::StoreToken { merchant_id: m, connector_id: k, token: t } => m@
                == merchant_id && k@ == connector_id_of(connector.connector_name) && t == token,
            _ => false,
        },
    }
}

/// The result once the write-back is done: the fresh token, whether or not it
/// could be cached.
pub open spec fn step_after_store(token: AccessToken) -> AccessTokenStep {
    AccessTokenStep::Done(Ok((Ok(Some(token)), true)))
}

/// The first step of obtaining an access token for `connector` on behalf of
/// `merchant_id`.
pub fn add_access_token(connector: &ConnectorData, merchant_id: &str) -> (r: AccessTokenStep)
    ensures
        is_start_step(*connector, merchant_id@, r),
{
    if connector_supports_access_token(connector) {
        AccessTokenStep::LookUpCache {
            merchant_id: String::from_str(merchant_id),
            connector_id: String::from_str(connector.connector_name.id()),
        }
    } else {
        AccessTokenStep::Done(Ok((Err(ErrorResponse::default()), false)))
    }
}

/// The step after the cache lookup, for the call that `router_data` stands
/// for.
pub fn on_cached_token<F, Req, Res>(
    lookup: Result<Option<AccessToken>, StorageError>,
    router_data: RouterData<F, Req, Res>,
) -> (r: AccessTokenStep)
    ensures
        is_step_after_lookup(lookup, router_data, r),
{
    match lookup {
        Err(_) => AccessTokenStep::Done(Err(ApiErrorResponse::InternalServerError)),
        Ok(Some(token)) => AccessTokenStep::Done(Ok((Ok(Some(token)), true))),
        Ok(None) => {
            let request = AccessTokenRequestData::from(router_data.connector_auth_type.duplicate());
            let response: Result<AccessToken, ErrorResponse> = Err(ErrorResponse::default());
            let refresh_data = router_data_type_conversion::<
                F,
                AccessTokenAuth,
                Req,
                AccessTokenRequestData,
                Res,
                AccessToken,
            >(router_data, request, response);
            AccessTokenStep::Refresh(refresh_data)
        },
    }
}

/// The step after the refresh call to the connector.
pub fn on_refreshed(
    refreshed: Result<Result<AccessToken, ErrorResponse>, ApiErrorResponse>,
    merchant_id: &str,
    connector: &ConnectorData,
) -> (r: AccessTokenStep)
    ensures
        is_step_after_refresh(refreshed, merchant_id@, *connector, r),
{
    match refreshed {
        Err(_) => AccessTokenStep::Done(Err(ApiErrorResponse::InternalServerError)),
        Ok(Err(e)) => AccessTokenStep::Done(Ok((Err(e), true))),
        Ok(Ok(token)) => AccessTokenStep::StoreToken {
            merchant_id: String::from_str(merchant_id),
            connector_id: String::from_str(connector.connector_name.id()),
            token,
        },
    }
}

/// The step after the write-back of `token`: a failed write is not fatal,
/// the token is returned either way.
pub fn on_token_stored(token: AccessToken, stored: Result<(), StorageError>) -> (r: AccessTokenStep)
    ensures
        r == step_after_store(token),
{
    AccessTokenStep::Done(Ok((Ok(Some(token)), true)))
}

/// Cached tokens, by merchant id and connector id.
pub type TokenCache = Map<(Seq<char>, Seq<char>), AccessToken>;

/// What a lookup in `cache` reads.
pub open spec fn cache_read(cache: TokenCache, merchant_id: Seq<char>, connector_id: Seq<char>) -> Result<
    Option<AccessToken>,
    StorageError,
> {
    if cache.contains_key((merchant_id, connector_id)) {
        Ok(Some(cache[(merchant_id, connector_id)]))
    } else {
        Ok(None)
    }
}

/// Whether `next` follows `step` when the caller performs `step` against
/// `cache`, gets `refreshed` from the connector and `stored` from the
/// write-back.
pub open spec fn follows<F, Req, Res>(
    step: AccessTokenStep,
    next: AccessTokenStep,
    cache: TokenCache,
    connector: ConnectorData,
    merchant_id: Seq<char>,
    router_data: RouterData<F, Req, Res>,
    refreshed: Result<Result<AccessToken, ErrorResponse>, ApiErrorResponse>,
) -> bool {
    match step {
        AccessTokenStep::LookUpCache { merchant_id: m, connector_id: k } => is_step_after_lookup(
            cache_read(cache, m@, k@),
            router_data,
            next,
        ),
        AccessTokenStep::Refresh(_) => is_step_after_refresh(refreshed, merchant_id, connector, next),
        AccessTokenStep::StoreToken { token, .. } => next == step_after_store(token),
        AccessTokenStep::Done(_) => false,
    }
}

/// Whether `steps` is a whole run of the coordinator, from its first step to
/// its result.
pub open spec fn is_run<F, Req, Res>(
    steps: Seq<AccessTokenStep>,
    cache: TokenCache,
    connector: ConnectorData,
    merchant_id: Seq<char>,
    router_data: RouterData<F, Req, Res>,
    refreshed: Result<Result<AccessToken, ErrorResponse>, ApiErrorResponse>,
) -> bool {
    &&& steps.len() >= 1
    &&& is_start_step(connector, merchant_id, steps[0])
    &&& forall|i: int|
        0 <= i < steps.len() - 1 ==> #[trigger] follows(
            steps[i],
            steps[i + 1],
            cache,
            connector,
            merchant_id,
            router_data,
            refreshed,
        )
    &&& steps.last() is Done
}

/// How many refresh calls to the connector a run makes.
pub open spec fn refresh_calls(steps: Seq<AccessTokenStep>) -> nat
    decreases steps.len(),
{
    if steps.len() == 0 {
        0
    } else {
        refresh_calls(steps.drop_last()) + if steps.last() is Refresh {
            1nat
        } else {
            0nat
        }
    }
}

/// The cache after a run whose write-back got `stored`.
pub open spec fn cache_after(cache: TokenCache, steps: Seq<AccessTokenStep>, stored: Result<(), StorageError>) -> TokenCache
    decreases steps.len(),
{
    if steps.len() == 0 {
        cache
    } else {
        let before = cache_after(cache, steps.drop_last(), stored);
        match steps.last() {
            AccessTokenStep::StoreToken { merchant_id, connector_id, token } => if stored is Ok {
                before.insert((merchant_id@, connector_id@), token)
            } else {
                before
            },
            _ => before,
        }
    }
}

proof fn lemma_step_follows<F, Req, Res>(
    steps: Seq<AccessTokenStep>,
    cache: TokenCache,
    connector: ConnectorData,
    merchant_id: Seq<char>,
    router_data: RouterData<F, Req, Res>,
    refreshed: Result<Result<AccessToken, ErrorResponse>, ApiErrorResponse>,
    i: int,
)
    requires
        is_run(steps, cache, connector, merchant_id, router_data, refreshed),
        0 <= i < steps.len() - 1,
    ensures
        follows(steps[i], steps[i + 1], cache, connector, merchant_id, router_data, refreshed),
{
}

/// Cache-aside: on a cold cache a run makes exactly one refresh call; where
/// that call returns, the run reports that a token was called for, and where
/// it cannot be made, the run ends in an internal error. Once its fresh token
/// has been written back, a second run for the same merchant and connector
/// makes none and returns that token.
pub proof fn lemma_token_cache_aside<F, Req, Res>(
    cache: TokenCache,
    connector: ConnectorData,
    merchant_id: Seq<char>,
    router_data: RouterData<F, Req, Res>,
    refreshed: Result<Result<AccessToken, ErrorResponse>, ApiErrorResponse>,
    stored: Result<(), StorageError>,
    first: Seq<AccessTokenStep>,
    second_router_data: RouterData<F, Req, Res>,
    second_refreshed: Result<Result<AccessToken, ErrorResponse>, ApiErrorResponse>,
    second: Seq<AccessTokenStep>,
)
    requires
        uses_access_token(connector.connector_name),
        !cache.contains_key((merchant_id, connector_id_of(connector.connector_name))),
        is_run(first, cache, connector, merchant_id, router_data, refreshed),
        is_run(
            second,
            cache_after(cache, first, stored),
            connector,
            merchant_id,
            second_router_data,
            second_refreshed,
        ),
    ensures
        refresh_calls(first) == 1,
        refreshed is Ok ==> (first.last() matches AccessTokenStep::Done(Ok((_, attempted))) && attempted),
        refreshed is Err ==> first.last() == AccessTokenStep::Done(
            Err(ApiErrorResponse::InternalServerError),
        ),
        refreshed is Ok && refreshed->Ok_0 is Ok && stored is Ok ==> {
            &&& refresh_calls(second) == 0
            &&& second.last() == AccessTokenStep::Done(Ok((Ok(Some(refreshed->Ok_0->Ok_0)), true)))
        },
{
    let cid = connector_id_of(connector.connector_name);
    let lookup_key = (merchant_id, cid);
    assert(first[0] is LookUpCache);
    assert(first.len() >= 2) by {
        if first.len() == 1 {
            assert(first.last() == first[0]);
        }
    }
    lemma_step_follows(first, cache, connector, merchant_id, router_data, refreshed, 0);
    assert(first[1] is Refresh);
    assert(first.len() >= 3) by {
        if first.len() == 2 {
            assert(first.last() == first[1]);
        }
    }
    lemma_step_follows(first, cache, connector, merchant_id, router_data, refreshed, 1);
    if !(refreshed is Ok && refreshed->Ok_0 is Ok) {
        assert(first[2] is Done);
        assert(first.len() == 3) by {
            if first.len() > 3 {
                lemma_step_follows(first, cache, connector, merchant_id, router_data, refreshed, 2);
            }
        }
        let q2 = first.drop_last();
        let q1 = q2.drop_last();
        assert(q1.drop_last() =~= Seq::<AccessTokenStep>::empty());
        assert(q1.last() == first[0]);
        assert(q2.last() == first[1]);
        assert(refresh_calls(q1.drop_last()) == 0);
        assert(refresh_calls(q1) == 0);
        assert(refresh_calls(q2) == 1);
    } else {
        let fresh = refreshed->Ok_0->Ok_0;
        assert(first[2] is StoreToken);
        assert(first.len() >= 4) by {
            if first.len() == 3 {
                assert(first.last() == first[2]);
            }
        }
        lemma_step_follows(first, cache, connector, merchant_id, router_data, refreshed, 2);
        assert(first[3] is Done);
        assert(first.len() == 4) by {
            if first.len() > 4 {
                lemma_step_follows(first, cache, connector, merchant_id, router_data, refreshed, 3);
            }
        }
        let p3 = first.drop_last();
        let p2 = p3.drop_last();
        let p1 = p2.drop_last();
        assert(p1.drop_last() =~= Seq::<AccessTokenStep>::empty());
        assert(p3.last() == first[2]);
        assert(p2.last() == first[1]);
        assert(p1.last() == first[0]);
        assert(refresh_calls(p1.drop_last()) == 0);
        assert(refresh_calls(p1) == 0);
        assert(refresh_calls(p2) == 1);
        assert(refresh_calls(p3) == 1);
        if stored is Ok {
            let c1 = cache_after(cache, first, stored);
            assert(cache_after(cache, p1.drop_last(), stored) == cache);
            assert(cache_after(cache, p1, stored) == cache);
            assert(cache_after(cache, p2, stored) == cache);
            assert(cache_after(cache, p3, stored) == cache.insert(lookup_key, fresh));
            assert(c1 == cache_after(cache, p3, stored));
            assert(second[0] is LookUpCache);
            assert(second.len() >= 2) by {
                if second.len() == 1 {
                    assert(second.last() == second[0]);
                }
            }
            lemma_step_follows(second, c1, connector, merchant_id, second_router_data, second_refreshed, 0);
            assert(second[1] is Done);
            assert(second.len() == 2) by {
                if second.len() > 2 {
                    lemma_step_follows(second, c1, connector, merchant_id, second_router_data, second_refreshed, 1);
                }
            }
            let r1 = second.drop_last();
            assert(r1.drop_last() =~= Seq::<AccessTokenStep>::empty());
            assert(r1.last() == second[0]);
            assert(refresh_calls(r1.drop_last()) == 0);
            assert(refresh_calls(r1) == 0);
        }
    }
}

} // verus!
