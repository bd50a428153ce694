//! The quote router: given a quote request, decide the route — one direct
//! price query when one side of the pair is the bridge asset, a two-hop
//! sequence through the bridge asset otherwise — and describe the remote
//! call(s) to issue. The hosting environment performs the calls; the
//! continuation decision that joins the two hops is
//! [`Contract::get_return_token_out`].

use vstd::prelude::*;
use crate::codec::amount_json_of;
use crate::codec::decode_amount;
use crate::registry::Registry;
use crate::registry::add_pool_map;

verus! {

/// Execution budget attached to each outbound price query.
pub const REMOTE_CALL_BUDGET: u64 = 5_000_000_000_000;

/// Execution budget the environment must reserve for the continuation stage
/// of a two-hop quote.
pub const CONTINUATION_BUDGET: u64 = 15_000_000_000_000;

/// One outbound price query, ready for the environment to issue: ask
/// `receiver` what `amount_in` of `token_in` returns in `token_out` on pool
/// `pool_id`, with `budget` units of execution budget attached.
#[derive(Debug, Clone, PartialEq, Eq)]
pub struct RemoteCall {
    /// The account of the remote exchange service.
    pub receiver: String,
    /// The exchange's handle for the pool to query.
    pub pool_id: u64,
    /// The asset offered.
    pub token_in: String,
    /// The amount of `token_in` offered.
    pub amount_in: u128,
    /// The asset whose returned amount is quoted.
    pub token_out: String,
    /// The execution budget pre-allocated for the call.
    pub budget: u64,
}

/// The mathematical content of a [`RemoteCall`].
pub struct RemoteCallModel {
    /// The account of the remote exchange service.
    pub receiver: Seq<char>,
    /// The exchange's handle for the pool to query.
    pub pool_id: u64,
    /// The asset offered.
    pub token_in: Seq<char>,
    /// The amount of `token_in` offered.
    pub amount_in: u128,
    /// The asset whose returned amount is quoted.
    pub token_out: Seq<char>,
    /// The execution budget pre-allocated for the call.
    pub budget: u64,
}

impl View for RemoteCall {
    type V = RemoteCallModel;

    open spec fn view(&self) -> RemoteCallModel {
        RemoteCallModel {
            receiver: self.receiver@,
            pool_id: self.pool_id,
            token_in: self.token_in@,
            amount_in: self.amount_in,
            token_out: self.token_out@,
            budget: self.budget,
        }
    }
}

/// The route a quote request takes.
#[derive(Debug, Clone, PartialEq, Eq)]
pub enum QuoteAction {
    /// One remote call settles the quote; its result is the final answer.
    Direct(RemoteCall),
    /// A two-hop route: issue `hop1`, then resume the continuation with
    /// hop 1's outcome and the stashed final target asset.
    TwoHop {
        /// The first remote call, quoting `token_in` into the bridge asset.
        hop1: RemoteCall,
        /// The final target asset, which must survive across the suspend
        /// point between hop 1 and hop 2.
        stashed_token_out: String,
    },
}

/// Why a quote request failed.
#[derive(Debug, Clone, PartialEq, Eq)]
pub enum QuoteError {
    /// A required pool lookup missed: the route cannot be built.
    RouteUnavailable,
    /// An issued remote call did not complete successfully.
    RemoteCallFailed,
    /// A remote call succeeded but its payload did not decode as the
    /// expected amount type.
    MalformedResult,
    /// The continuation was invoked but the expected prior call result is
    /// absent.
    InvalidContinuationState,
}

/// What the environment reports of a completed (or missing) remote call when
/// it resumes the continuation.
#[derive(Debug, Clone, PartialEq, Eq)]
pub enum CallOutcome {
    /// The call completed and returned this payload.
    Successful(Vec<u8>),
    /// The call did not complete successfully.
    Failed,
    /// No result is available in the environment's call-result slot.
    NotReady,
}

/// The quoting service: the pool registry together with the configuration
/// injected at startup — the bridge asset's identifier and the remote
/// exchange's account.
pub struct Contract {
    registry: Registry,
    bridge_asset: String,
    exchange_account: String,
}

impl Contract {
    /// The registry's mapping from directed asset pairs to pool ids.
    pub closed spec fn pools(&self) -> Map<(Seq<char>, Seq<char>), u64> {
        self.registry@
    }

    /// The bridge asset's identifier.
    pub closed spec fn bridge(&self) -> Seq<char> {
        self.bridge_asset@
    }

    /// The remote exchange's account.
    pub closed spec fn exchange(&self) -> Seq<char> {
        self.exchange_account@
    }

    /// A quote is a direct trade against the bridge when either side of the
    /// requested pair is the bridge asset.
    pub open spec fn direct_route(&self, token_in: Seq<char>, token_out: Seq<char>) -> bool {
        token_in == self.bridge() || token_out == self.bridge()
    }

    /// The sole call of a direct route, and equally hop 1 of a two-hop
    /// route: quote `amount_in` of `token_in` into the bridge asset, on the
    /// pool registered for (`token_in`, bridge).
    pub open spec fn outbound_quote(&self, token_in: Seq<char>, amount_in: u128) -> RemoteCallModel {
        RemoteCallModel {
            receiver: self.exchange(),
            pool_id: self.pools()[(token_in, self.bridge())],
            token_in: token_in,
            amount_in: amount_in,
            token_out: self.bridge(),
            budget: REMOTE_CALL_BUDGET,
        }
    }

    /// Hop 2 of a two-hop route: quote the bridge-denominated amount that
    /// hop 1 returned into `token_out`, on the pool registered for
    /// (`token_out`, bridge).
    pub open spec fn continuation_quote(&self, token_out: Seq<char>, amount_bridge: u128) -> RemoteCallModel {
        RemoteCallModel {
            receiver: self.exchange(),
            pool_id: self.pools()[(token_out, self.bridge())],
            token_in: self.bridge(),
            amount_in: amount_bridge,
            token_out: token_out,
            budget: REMOTE_CALL_BUDGET,
        }
    }

    /// A service with an empty registry and the given configuration.
    pub fn new(bridge_asset: String, exchange_account: String) -> (r: Contract)
        ensures
            r.pools() == Map::<(Seq<char>, Seq<char>), u64>::empty(),
            r.bridge() == bridge_asset@,
            r.exchange() == exchange_account@,
    {
        Contract {
            registry: Registry::new(),
            bridge_asset: bridge_asset,
            exchange_account: exchange_account,
        }
    }

    /// Registers a pool for the unordered pair, in both directions; the
    /// latest registration for a given directed pair wins. Never fails.
    pub fn add_pool(&mut self, token_1: String, token_2: String, pool_id: u64)
        ensures
            final(self).pools() == add_pool_map(old(self).pools(), token_1@, token_2@, pool_id),
            final(self).bridge() == old(self).bridge(),
            final(self).exchange() == old(self).exchange(),
    {
        self.registry.add_pool(token_1, token_2, pool_id);
    }

    /// Decides the route of a quote request and describes what to issue.
    ///
    /// Whichever branch applies, the one lookup made is for the pair
    /// (`token_in`, bridge), and the call described quotes into the bridge
    /// asset — also on the direct branch where `token_in` itself is the
    /// bridge. The request fails with `RouteUnavailable`, before any remote
    /// call is described, exactly when that pair is unregistered. Nothing is
    /// mutated: quoting is a pure read.
    pub fn get_return(&self, token_in: String, amount_in: u128, token_out: String) -> (r: Result<
        QuoteAction,
        QuoteError,
    >)
        ensures
            r is Ok <==> self.pools().contains_key((token_in@, self.bridge())),
            r matches Err(e) ==> e == QuoteError::RouteUnavailable,
            r matches Ok(a) ==> if self.direct_route(token_in@, token_out@) {
                a matches QuoteAction::Direct(c) && c@ == self.outbound_quote(token_in@, amount_in)
            } else {
                a matches QuoteAction::TwoHop { hop1, stashed_token_out }
                    && hop1@ == self.outbound_quote(token_in@, amount_in)
                    && stashed_token_out@ == token_out@
            },
    {
        let pool_id = match self.registry.lookup(&token_in, &self.bridge_asset) {
            Ok(p) => p,
            Err(_) => {
                return Err(QuoteError::RouteUnavailable);
            },
        };
        let direct = token_in == self.bridge_asset || token_out == self.bridge_asset;
        let call = RemoteCall {
            receiver: self.exchange_account.clone(),
            pool_id: pool_id,
            token_in: token_in,
            amount_in: amount_in,
            token_out: self.bridge_asset.clone(),
            budget: REMOTE_CALL_BUDGET,
        };
        if direct {
            Ok(QuoteAction::Direct(call))
        } else {
            Ok(QuoteAction::TwoHop { hop1: call, stashed_token_out: token_out })
        }
    }

    /// The continuation of a two-hop quote: consumes hop 1's outcome exactly
    /// once and describes hop 2, quoting the bridge-denominated amount into
    /// the stashed `token_out`.
    ///
    /// Hop 2 is never described unless hop 1 completed successfully: a failed
    /// hop 1 short-circuits to `RemoteCallFailed`, an absent result to
    /// `InvalidContinuationState`, a payload that does not decode as the
    /// amount type to `MalformedResult`, and a missing (`token_out`, bridge)
    /// pool to `RouteUnavailable`. Nothing is mutated.
    pub fn get_return_token_out(&self, token_out: String, hop1_outcome: CallOutcome) -> (r: Result<
        RemoteCall,
        QuoteError,
    >)
        ensures
            match hop1_outcome {
                CallOutcome::Failed => r matches Err(e) && e == QuoteError::RemoteCallFailed,
                CallOutcome::NotReady => r matches Err(e) && e
                    == QuoteError::InvalidContinuationState,
                CallOutcome::Successful(payload) => match amount_json_of(payload@) {
                    None => r matches Err(e) && e == QuoteError::MalformedResult,
                    Some(amount_bridge) => if self.pools().contains_key(
                        (token_out@, self.bridge()),
                    ) {
                        r matches Ok(c) && c@ == self.continuation_quote(token_out@, amount_bridge)
                    } else {
                        r matches Err(e) && e == QuoteError::RouteUnavailable
                    },
                },
            },
    {
        let payload = match hop1_outcome {
            CallOutcome::Successful(p) => p,
            CallOutcome::Failed => {
                return Err(QuoteError::RemoteCallFailed);
            },
            CallOutcome::NotReady => {
                return Err(QuoteError::InvalidContinuationState);
            },
        };
        let amount_bridge = match decode_amount(&payload) {
            Some(a) => a,
            None => {
                return Err(QuoteError::MalformedResult);
            },
        };
        let pool_id = match self.registry.lookup(&token_out, &self.bridge_asset) {
            Ok(p) => p,
            Err(_) => {
                return Err(QuoteError::RouteUnavailable);
            },
        };
        Ok(RemoteCall {
            receiver: self.exchange_account.clone(),
            pool_id: pool_id,
            token_in: self.bridge_asset.clone(),
            amount_in: amount_bridge,
            token_out: token_out,
            budget: REMOTE_CALL_BUDGET,
        })
    }
}

/// A single swap action, as the remote exchange's swap method takes it.
pub struct SwapAction {
    /// Pool which should be used for swapping.
    pub pool_id: u64,
    /// Token to swap from.
    pub token_in: String,
    /// Amount to exchange. If `amount_in` is `None`, it will take the amount
    /// from the previous step; that is invalid on the first step.
    pub amount_in: Option<u128>,
    /// Token to swap into.
    pub token_out: String,
    /// Required minimum amount of `token_out`.
    pub min_amount_out: u128,
}

} // verus!
