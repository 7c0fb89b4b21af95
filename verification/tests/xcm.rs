use polkadot::xcm_builder::fungibles_adapter::{
    Checking, FungiblesAdapter, FungiblesMutateAdapter, FungiblesTransferAdapter, MatchError,
    XcmError,
};
use polkadot::runtime::weight::Weight;
use polkadot::runtime::xcm_config::{
    DoNothingRouter, DummyAssetTransactor, DummyWeightTrader, ParentAsset, SendError, XcmConfig,
};
use std::cell::RefCell;

type Asset = (u32, u128);
type Location = &'static str;
type Account = u64;

fn matcher(what: &Asset) -> Result<(u32, u128), MatchError> {
    match what.0 {
        0 => Err(MatchError::AssetNotHandled),
        99 => Err(MatchError::AmountToBalanceConversionFailed),
        98 => Err(MatchError::AssetIdConversionFailed),
        97 => Err(MatchError::InstanceConversionFailed),
        id => Ok((id, what.1)),
    }
}

fn account(location: &Location) -> Result<Account, ()> {
    match *location {
        "alice" => Ok(1),
        "bob" => Ok(2),
        _ => Err(()),
    }
}

#[test]
fn match_errors_become_xcm_errors() {
    assert_eq!(XcmError::from_match_error(MatchError::AssetNotHandled), XcmError::AssetNotFound);
    assert_eq!(
        XcmError::from_match_error(MatchError::AccountIdConversionFailed),
        XcmError::FailedToTransactAsset("AccountIdConversionFailed")
    );
    assert_eq!(
        XcmError::from_match_error(MatchError::AmountToBalanceConversionFailed),
        XcmError::FailedToTransactAsset("AmountToBalanceConversionFailed")
    );
    assert_eq!(
        XcmError::from_match_error(MatchError::AssetIdConversionFailed),
        XcmError::FailedToTransactAsset("AssetIdConversionFailed")
    );
    assert_eq!(
        XcmError::from_match_error(MatchError::InstanceConversionFailed),
        XcmError::FailedToTransactAsset("InstanceConversionFailed")
    );
}

#[test]
fn transfer_moves_between_the_converted_accounts() {
    let log = RefCell::new(Vec::new());
    let what: Asset = (7, 500);
    let r = FungiblesTransferAdapter::internal_transfer_asset(
        &what,
        &"alice",
        &"bob",
        matcher,
        account,
        |id: u32, source: &Account, dest: &Account, amount: u128, keep_alive: bool| {
            log.borrow_mut().push((id, *source, *dest, amount, keep_alive));
            Ok(())
        },
    );
    assert_eq!(r, Ok(&what));
    assert_eq!(*log.borrow(), vec![(7, 1, 2, 500, true)]);
}

#[test]
fn transfer_stops_at_the_first_failure() {
    let calls = RefCell::new(0u32);
    let transfer = |_: u32, _: &Account, _: &Account, _: u128, _: bool| -> Result<(), &'static str> {
        *calls.borrow_mut() += 1;
        Err("FundsUnavailable")
    };
    let unhandled: Asset = (0, 1);
    assert_eq!(
        FungiblesTransferAdapter::internal_transfer_asset(&unhandled, &"alice", &"bob", matcher, account, transfer),
        Err(XcmError::AssetNotFound)
    );
    let what: Asset = (7, 1);
    assert_eq!(
        FungiblesTransferAdapter::internal_transfer_asset(&what, &"nobody", &"bob", matcher, account, transfer),
        Err(XcmError::FailedToTransactAsset("AccountIdConversionFailed"))
    );
    assert_eq!(
        FungiblesTransferAdapter::internal_transfer_asset(&what, &"alice", &"nobody", matcher, account, transfer),
        Err(XcmError::FailedToTransactAsset("AccountIdConversionFailed"))
    );
    assert_eq!(*calls.borrow(), 0);
    assert_eq!(
        FungiblesTransferAdapter::internal_transfer_asset(&what, &"alice", &"bob", matcher, account, transfer),
        Err(XcmError::FailedToTransactAsset("FundsUnavailable"))
    );
    assert_eq!(*calls.borrow(), 1);
    assert_eq!(
        FungiblesAdapter::internal_transfer_asset(&what, &"alice", &"bob", matcher, account, transfer),
        Err(XcmError::FailedToTransactAsset("FundsUnavailable"))
    );
}

#[test]
fn can_check_in_asks_the_checking_account_only_for_recorded_assets() {
    let asked = RefCell::new(Vec::new());
    let what: Asset = (7, 40);
    let can_withdraw = |id: u32, who: &Account, amount: u128| -> Result<(), &'static str> {
        asked.borrow_mut().push((id, *who, amount));
        if amount <= 50 { Ok(()) } else { Err("BalanceLow") }
    };
    assert_eq!(
        FungiblesMutateAdapter::can_check_in(&"origin", &what, matcher, |_: &u32| false, || 9u64, can_withdraw),
        Ok(())
    );
    assert!(asked.borrow().is_empty());
    assert_eq!(
        FungiblesMutateAdapter::can_check_in(&"origin", &what, matcher, |id: &u32| *id == 7, || 9u64, can_withdraw),
        Ok(())
    );
    assert_eq!(*asked.borrow(), vec![(7, 9, 40)]);
    let much: Asset = (7, 51);
    assert_eq!(
        FungiblesMutateAdapter::can_check_in(&"origin", &much, matcher, |_: &u32| true, || 9u64, can_withdraw),
        Err(XcmError::NotWithdrawable)
    );
    assert_eq!(
        FungiblesAdapter::can_check_in(&"origin", &much, matcher, |_: &u32| true, || 9u64, can_withdraw),
        Err(XcmError::NotWithdrawable)
    );
    let unhandled: Asset = (0, 1);
    assert_eq!(
        FungiblesMutateAdapter::can_check_in(&"origin", &unhandled, matcher, |_: &u32| true, || 9u64, can_withdraw),
        Err(XcmError::AssetNotFound)
    );
    let odd: Asset = (98, 1);
    assert_eq!(
        FungiblesMutateAdapter::can_check_in(&"origin", &odd, matcher, |_: &u32| true, || 9u64, can_withdraw),
        Err(XcmError::FailedToTransactAsset("AssetIdConversionFailed"))
    );
}

#[test]
fn check_in_burns_and_check_out_mints_at_the_checking_account() {
    let ledger = RefCell::new(Vec::new());
    let what: Asset = (3, 10);
    let burn = |id: u32, who: &Account, amount: u128| -> Result<(), &'static str> {
        ledger.borrow_mut().push(("burn", id, *who, amount));
        Ok(())
    };
    let mint = |id: u32, who: &Account, amount: u128| -> Result<(), &'static str> {
        ledger.borrow_mut().push(("mint", id, *who, amount));
        Ok(())
    };
    assert_eq!(
        FungiblesMutateAdapter::check_in(&"origin", &what, matcher, |_: &u32| true, || 9u64, burn),
        Checking::Done
    );
    assert_eq!(
        FungiblesMutateAdapter::check_out(&"dest", &what, matcher, |_: &u32| true, || 9u64, mint),
        Checking::Done
    );
    assert_eq!(
        FungiblesAdapter::check_in(&"origin", &what, matcher, |_: &u32| false, || 9u64, burn),
        Checking::NotRecorded
    );
    assert_eq!(
        FungiblesAdapter::check_out(&"dest", &(0u32, 1u128), matcher, |_: &u32| true, || 9u64, mint),
        Checking::NotHandled(MatchError::AssetNotHandled)
    );
    assert_eq!(*ledger.borrow(), vec![("burn", 3, 9, 10), ("mint", 3, 9, 10)]);
    assert_eq!(
        FungiblesMutateAdapter::check_in(
            &"origin",
            &what,
            matcher,
            |_: &u32| true,
            || 9u64,
            |_: u32, _: &Account, _: u128| -> Result<(), &'static str> { Err("BalanceLow") },
        ),
        Checking::Failed("BalanceLow")
    );
}

#[test]
fn deposit_mints_into_the_account() {
    let ledger = RefCell::new(Vec::new());
    let what: Asset = (3, 10);
    let mint = |id: u32, who: &Account, amount: u128| -> Result<(), &'static str> {
        ledger.borrow_mut().push((id, *who, amount));
        if *who == 2 { Err("Overflow") } else { Ok(()) }
    };
    assert_eq!(FungiblesMutateAdapter::deposit_asset(&what, &"alice", matcher, account, mint), Ok(()));
    assert_eq!(
        FungiblesMutateAdapter::deposit_asset(&what, &"bob", matcher, account, mint),
        Err(XcmError::FailedToTransactAsset("Overflow"))
    );
    assert_eq!(
        FungiblesMutateAdapter::deposit_asset(&what, &"nobody", matcher, account, mint),
        Err(XcmError::FailedToTransactAsset("AccountIdConversionFailed"))
    );
    assert_eq!(
        FungiblesAdapter::deposit_asset(&(99u32, 1u128), &"alice", matcher, account, mint),
        Err(XcmError::FailedToTransactAsset("AmountToBalanceConversionFailed"))
    );
    assert_eq!(*ledger.borrow(), vec![(3, 1, 10), (3, 2, 10)]);
}

#[test]
fn withdraw_burns_and_hands_the_asset_back() {
    let ledger = RefCell::new(Vec::new());
    let what: Asset = (3, 10);
    let burn = |id: u32, who: &Account, amount: u128| -> Result<(), &'static str> {
        ledger.borrow_mut().push((id, *who, amount));
        if *who == 2 { Err("FundsUnavailable") } else { Ok(()) }
    };
    assert_eq!(
        FungiblesMutateAdapter::withdraw_asset(&what, &"alice", matcher, account, burn),
        Ok(&what)
    );
    assert_eq!(
        FungiblesAdapter::withdraw_asset(&what, &"bob", matcher, account, burn),
        Err(XcmError::FailedToTransactAsset("FundsUnavailable"))
    );
    assert_eq!(
        FungiblesMutateAdapter::withdraw_asset(&what, &"nobody", matcher, account, burn),
        Err(XcmError::FailedToTransactAsset("AccountIdConversionFailed"))
    );
    assert_eq!(
        FungiblesMutateAdapter::withdraw_asset(&(97u32, 1u128), &"alice", matcher, account, burn),
        Err(XcmError::FailedToTransactAsset("InstanceConversionFailed"))
    );
    assert_eq!(*ledger.borrow(), vec![(3, 1, 10), (3, 2, 10)]);
}

#[test]
fn router_sends_nothing_and_takes_nothing() {
    let mut dest = Some("para 2000");
    let mut message = Some(vec![1u8, 2, 3]);
    let r: Result<((), Vec<Asset>), SendError> = DoNothingRouter::validate(&mut dest, &mut message);
    assert_eq!(r, Ok(((), vec![])));
    assert_eq!(dest, Some("para 2000"));
    assert_eq!(message, Some(vec![1u8, 2, 3]));
    let mut nowhere: Option<u8> = None;
    let mut nothing: Option<u8> = None;
    let r: Result<((), Vec<Asset>), SendError> = DoNothingRouter::validate(&mut nowhere, &mut nothing);
    assert_eq!(r, Ok(((), vec![])));
    assert_eq!(DoNothingRouter::deliver(()), Ok([0u8; 32]));
}

#[test]
fn dummy_transactor_agrees_to_everything() {
    let what: Asset = (1, 5);
    assert_eq!(DummyAssetTransactor::deposit_asset(&what, &"alice"), Ok(()));
    assert_eq!(
        DummyAssetTransactor::withdraw_asset(&what, &"alice"),
        Ok(ParentAsset { parents: 1, amount: 100_000 })
    );
    assert_eq!(
        DummyAssetTransactor::withdraw_asset(&(), &()),
        Ok(ParentAsset { parents: 1, amount: 100_000 })
    );
}

#[test]
fn dummy_trader_keeps_the_payment() {
    let mut trader = DummyWeightTrader::new();
    let payment: Vec<Asset> = vec![(1, 5), (2, 6)];
    assert_eq!(trader.buy_weight(Weight::from_parts(1_000, 64), payment), Ok(vec![]));
    assert_eq!(trader.buy_weight(Weight::zero(), Vec::<Asset>::new()), Ok(vec![]));
}

#[test]
fn executor_limits() {
    assert_eq!(XcmConfig::max_instructions(), 100);
    assert_eq!(XcmConfig::max_assets_into_holding(), 16);
}
