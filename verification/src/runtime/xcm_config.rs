//! The handling of cross-chain messages in the test runtime: a router that
//! sends nothing, an asset transactor that always agrees, and a weight
//! trader that charges everything.

use crate::runtime::weight::Weight;
use crate::xcm_builder::fungibles_adapter::XcmError;
use vstd::prelude::*;

verus! {

/// The most instructions that a message may hold.
pub const MAX_INSTRUCTIONS: u32 = 100;

/// The most assets that may lie in the holding register.
pub const MAX_ASSETS_INTO_HOLDING: u32 = 16;

/// The amount that the dummy transactor hands out on every withdrawal.
pub const DUMMY_WITHDRAWAL: u128 = 100_000;

/// Why a message could not be sent.
#[derive(Debug, Clone, Copy, PartialEq, Eq)]
pub enum SendError {
    /// The router does not serve the destination.
    NotApplicable,
    /// The transport failed, with the text of the failure.
    Transport(&'static str),
    /// No route leads to the destination.
    Unroutable,
    /// The destination does not understand the message's version.
    DestinationUnsupported,
    /// The message is too long.
    ExceedsMaxMessageSize,
    /// The destination or the message is missing.
    MissingArgument,
    /// The fees could not be paid.
    Fees,
}

/// An amount of the token of the chain above this one.
#[derive(Debug, Clone, Copy, PartialEq, Eq, Structural)]
pub struct ParentAsset {
    /// How many chains up the token lives.
    pub parents: u8,
    /// The amount.
    pub amount: u128,
}

/// A router that agrees to send every message and sends none.
#[derive(Debug, Clone, Copy, PartialEq, Eq, Structural)]
pub struct DoNothingRouter;

impl DoNothingRouter {
    /// Agrees to send, for no fee, without taking the destination or the
    /// message out of their places.
    pub fn validate<Destination, Message, Asset>(
        _dest: &mut Option<Destination>,
        _msg: &mut Option<Message>,
    ) -> (r: Result<((), Vec<Asset>), SendError>)
        ensures
            r matches Ok((_, fee)) && fee@.len() == 0,
            *final(_dest) == *old(_dest),
            *final(_msg) == *old(_msg),
    {
        Ok(((), Vec::new()))
    }

    /// Delivers nothing and reports the hash of nothing: 32 zero bytes.
    pub fn deliver(_ticket: ()) -> (r: Result<[u8; 32], SendError>)
        ensures
            r matches Ok(hash) && forall|i: int| 0 <= i < 32 ==> hash@[i] == 0,
    {
        Ok([0u8;32])
    }
}

/// An asset transactor that holds no accounts: every deposit is taken and
/// every withdrawal hands out the same amount.
#[derive(Debug, Clone, Copy, PartialEq, Eq, Structural)]
pub struct DummyAssetTransactor;

impl DummyAssetTransactor {
    /// Takes the asset, whatever it is and whoever it is for.
    pub fn deposit_asset<Asset, Location>(_what: &Asset, _who: &Location) -> (r: Result<
        (),
        XcmError,
    >)
        ensures
            r is Ok,
    {
        Ok(())
    }

    /// Hands out `DUMMY_WITHDRAWAL` of the parent chain's token, whatever was
    /// asked for.
    pub fn withdraw_asset<Asset, Location>(_what: &Asset, _who: &Location) -> (r: Result<
        ParentAsset,
        XcmError,
    >)
        ensures
            r == Ok::<ParentAsset, XcmError>(
                ParentAsset { parents: 1, amount: DUMMY_WITHDRAWAL },
            ),
    {
        Ok(ParentAsset { parents: 1, amount: DUMMY_WITHDRAWAL })
    }
}

/// A weight trader that sells any weight for all that is offered.
#[derive(Debug, Clone, Copy, PartialEq, Eq, Structural)]
pub struct DummyWeightTrader;

impl DummyWeightTrader {
    /// A trader.
    pub fn new() -> (trader: DummyWeightTrader) {
        DummyWeightTrader
    }

    /// Sells the weight and keeps the payment: nothing is handed back.
    pub fn buy_weight<Asset>(&mut self, _weight: Weight, _payment: Vec<Asset>) -> (r: Result<
        Vec<Asset>,
        XcmError,
    >)
        ensures
            r matches Ok(unused) && unused@.len() == 0,
    {
        Ok(Vec::new())
    }
}

/// The configuration of the executor of cross-chain messages in the test
/// runtime: it sends through `DoNothingRouter`, transacts through
/// `DummyAssetTransactor` and trades weight through `DummyWeightTrader`.
#[derive(Debug, Clone, Copy, PartialEq, Eq, Structural)]
pub struct XcmConfig;

impl XcmConfig {
    /// The most instructions that a message may hold.
    pub fn max_instructions() -> (limit: u32)
        ensures
            limit == MAX_INSTRUCTIONS,
    {
        MAX_INSTRUCTIONS
    }

    /// The most assets that may lie in the holding register.
    pub fn max_assets_into_holding() -> (limit: u32)
        ensures
            limit == MAX_ASSETS_INTO_HOLDING,
    {
        MAX_ASSETS_INTO_HOLDING
    }
}

} // verus!
