//! Adapters that carry out the asset instructions of cross-chain messages on
//! a set of fungible tokens. The tokens, the matching of an asset to a token
//! and the conversion of a location to an account are the caller's: the
//! adapters know them only as functions, and decide in which order they are
//! asked and what each answer leads to.

use vstd::prelude::*;

verus! {

/// Why an asset could not be matched to a token.
#[derive(Debug, Clone, Copy, PartialEq, Eq, Structural)]
pub enum MatchError {
    /// The asset is none that this adapter handles.
    AssetNotHandled,
    /// The location is no account.
    AccountIdConversionFailed,
    /// The amount does not fit the token's balance.
    AmountToBalanceConversionFailed,
    /// The asset's identifier is none of a token.
    AssetIdConversionFailed,
    /// The asset's instance is none of a token.
    InstanceConversionFailed,
}

/// Why an asset instruction failed.
#[derive(Debug, Clone, Copy, PartialEq, Eq)]
pub enum XcmError {
    /// No adapter handles the asset.
    AssetNotFound,
    /// The asset is handled, but the operation on the token failed; the
    /// text names the failure.
    FailedToTransactAsset(&'static str),
    /// The checking account cannot give the amount.
    NotWithdrawable,
}

/// The text that names a failure of matching.
pub open spec fn spec_match_error_text(error: MatchError) -> Seq<char> {
    match error {
        MatchError::AssetNotHandled => "AssetNotHandled"@,
        MatchError::AccountIdConversionFailed => "AccountIdConversionFailed"@,
        MatchError::AmountToBalanceConversionFailed => "AmountToBalanceConversionFailed"@,
        MatchError::AssetIdConversionFailed => "AssetIdConversionFailed"@,
        MatchError::InstanceConversionFailed => "InstanceConversionFailed"@,
    }
}

/// Whether `error` is the failure of an instruction that a failure of
/// matching leads to: an asset that is not handled is not found, and every
/// other failure of matching is a failed transaction that names it.
pub open spec fn spec_from_match_error(cause: MatchError, error: XcmError) -> bool {
    match cause {
        MatchError::AssetNotHandled => error == XcmError::AssetNotFound,
        _ => error matches XcmError::FailedToTransactAsset(text) && text@
            == spec_match_error_text(cause),
    }
}

/// Whether `error` is the failed transaction that a failure of the token
/// leads to: it carries the text of that failure.
pub open spec fn spec_from_dispatch_error(cause: &'static str, error: XcmError) -> bool {
    error == XcmError::FailedToTransactAsset(cause)
}

impl XcmError {
    /// The failure of an instruction that a failure of matching leads to.
    pub fn from_match_error(cause: MatchError) -> (error: XcmError)
        ensures
            spec_from_match_error(cause, error),
    {
        match cause {
            MatchError::AssetNotHandled => XcmError::AssetNotFound,
            MatchError::AccountIdConversionFailed => XcmError::FailedToTransactAsset(
                "AccountIdConversionFailed",
            ),
            MatchError::AmountToBalanceConversionFailed => XcmError::FailedToTransactAsset(
                "AmountToBalanceConversionFailed",
            ),
            MatchError::AssetIdConversionFailed => XcmError::FailedToTransactAsset(
                "AssetIdConversionFailed",
            ),
            MatchError::InstanceConversionFailed => XcmError::FailedToTransactAsset(
                "InstanceConversionFailed",
            ),
        }
    }
}

/// Moves tokens between two accounts.
#[derive(Debug, Clone, Copy, PartialEq, Eq, Structural)]
pub struct FungiblesTransferAdapter;

/// Whether a transfer may be asked for: the asset can be matched; where
/// it matches, the origin can be converted; where that gives an account,
/// the destination can be converted; and where that gives one too, the
/// tokens matched can be moved between the two accounts. Nothing is asked
/// of a function for arguments that it is never called with.
pub open spec fn spec_may_transfer<Asset, Location, AssetId, Balance, AccountId, M, C, T>(
    what: &Asset,
    from: &Location,
    to: &Location,
    matches_fungibles: M,
    convert: C,
    transfer: T,
) -> bool where
    M: FnOnce(&Asset) -> Result<(AssetId, Balance), MatchError>,
    C: Fn(&Location) -> Result<AccountId, ()>,
    T: FnOnce(AssetId, &AccountId, &AccountId, Balance, bool) -> Result<(), &'static str>,
 {
    &&& matches_fungibles.requires((what,))
    &&& forall|asset_id: AssetId, amount: Balance| #[trigger]
        matches_fungibles.ensures(
            (what,),
            Ok::<(AssetId, Balance), MatchError>((asset_id, amount)),
        ) ==> {
            &&& convert.requires((from,))
            &&& forall|source: AccountId| #[trigger]
                convert.ensures((from,), Ok::<AccountId, ()>(source)) ==> {
                    &&& convert.requires((to,))
                    &&& forall|dest: AccountId| #[trigger]
                        convert.ensures((to,), Ok::<AccountId, ()>(dest)) ==> transfer.requires(
                            (asset_id, &source, &dest, amount, true),
                        )
                }
        }
}

/// Whether `r` is what a transfer comes to once the asset is matched to
/// `asset_id` and `amount`, the origin is the account `source`, and
/// converting the destination gave `converted`.
pub open spec fn spec_transfer_to<Asset, AssetId, Balance, AccountId, T>(
    what: &Asset,
    asset_id: AssetId,
    amount: Balance,
    source: AccountId,
    converted: Result<AccountId, ()>,
    transfer: T,
    r: Result<&Asset, XcmError>,
) -> bool where T: FnOnce(AssetId, &AccountId, &AccountId, Balance, bool) -> Result<(), &'static str> {
    match converted {
        Err(_) => r is Err && spec_from_match_error(
            MatchError::AccountIdConversionFailed,
            r->Err_0,
        ),
        Ok(dest) => exists|moved: Result<(), &'static str>|
            #![trigger transfer.ensures((asset_id, &source, &dest, amount, true), moved)]
            transfer.ensures((asset_id, &source, &dest, amount, true), moved) && match moved {
                Err(cause) => r is Err && spec_from_dispatch_error(cause, r->Err_0),
                Ok(_) => r == Ok::<&Asset, XcmError>(what),
            },
    }
}

/// Whether `r` is what a transfer comes to once the asset is matched to
/// `asset_id` and `amount` and converting the origin gave `converted`.
pub open spec fn spec_transfer_from<Asset, Location, AssetId, Balance, AccountId, C, T>(
    what: &Asset,
    to: &Location,
    asset_id: AssetId,
    amount: Balance,
    converted: Result<AccountId, ()>,
    convert: C,
    transfer: T,
    r: Result<&Asset, XcmError>,
) -> bool where
    C: Fn(&Location) -> Result<AccountId, ()>,
    T: FnOnce(AssetId, &AccountId, &AccountId, Balance, bool) -> Result<(), &'static str>,
 {
    match converted {
        Err(_) => r is Err && spec_from_match_error(
            MatchError::AccountIdConversionFailed,
            r->Err_0,
        ),
        Ok(source) => exists|converted_dest: Result<AccountId, ()>|
            #![trigger convert.ensures((to,), converted_dest)]
            convert.ensures((to,), converted_dest) && spec_transfer_to(
                what,
                asset_id,
                amount,
                source,
                converted_dest,
                transfer,
                r,
            ),
    }
}

/// Whether `r` is what a transfer comes to once matching the asset gave
/// `matched`.
pub open spec fn spec_transfer_matched<Asset, Location, AssetId, Balance, AccountId, C, T>(
    what: &Asset,
    from: &Location,
    to: &Location,
    matched: Result<(AssetId, Balance), MatchError>,
    convert: C,
    transfer: T,
    r: Result<&Asset, XcmError>,
) -> bool where
    C: Fn(&Location) -> Result<AccountId, ()>,
    T: FnOnce(AssetId, &AccountId, &AccountId, Balance, bool) -> Result<(), &'static str>,
 {
    match matched {
        Err(cause) => r is Err && spec_from_match_error(cause, r->Err_0),
        Ok((asset_id, amount)) => exists|converted: Result<AccountId, ()>|
            #![trigger convert.ensures((from,), converted)]
            convert.ensures((from,), converted) && spec_transfer_from(
                what,
                to,
                asset_id,
                amount,
                converted,
                convert,
                transfer,
                r,
            ),
    }
}

impl FungiblesTransferAdapter {
    /// Moves the tokens that `what` stands for from the account at `from`
    /// to the account at `to`. The asset is matched first; then the origin
    /// is converted, then the destination; then the tokens are moved, keeping
    /// the origin's account alive. The first step that fails ends the
    /// instruction with its failure, and no later step is taken. On success
    /// the asset moved is handed back.
    pub fn internal_transfer_asset<'a, Asset, Location, AssetId, Balance, AccountId, M, C, T>(
        what: &'a Asset,
        from: &Location,
        to: &Location,
        matches_fungibles: M,
        convert: C,
        transfer: T,
    ) -> (r: Result<&'a Asset, XcmError>) where
        M: FnOnce(&Asset) -> Result<(AssetId, Balance), MatchError>,
        C: Fn(&Location) -> Result<AccountId, ()>,
        T: FnOnce(AssetId, &AccountId, &AccountId, Balance, bool) -> Result<(), &'static str>,

        requires
            spec_may_transfer(what, from, to, matches_fungibles, convert, transfer),
        ensures
            exists|matched: Result<(AssetId, Balance), MatchError>|
                #![trigger matches_fungibles.ensures((what,), matched)]
                matches_fungibles.ensures((what,), matched) && spec_transfer_matched(
                    what,
                    from,
                    to,
                    matched,
                    convert,
                    transfer,
                    r,
                ),
    {
        let matched = matches_fungibles(what);
        let ghost seen_match = matched;
        let (asset_id, amount) = match matched {
            Err(cause) => {
                let r = Err(XcmError::from_match_error(cause));
                assert(spec_transfer_matched(what, from, to, seen_match, convert, transfer, r));
                return r;
            },
            Ok(found) => found,
        };
        let converted_source = convert(from);
        let ghost seen_source = converted_source;
        let source = match converted_source {
            Err(_) => {
                let r = Err(XcmError::from_match_error(MatchError::AccountIdConversionFailed));
                assert(spec_transfer_from(
                    what,
                    to,
                    asset_id,
                    amount,
                    seen_source,
                    convert,
                    transfer,
                    r,
                ));
                assert(spec_transfer_matched(what, from, to, seen_match, convert, transfer, r));
                return r;
            },
            Ok(account) => account,
        };
        let converted_dest = convert(to);
        let ghost seen_dest = converted_dest;
        let dest = match converted_dest {
            Err(_) => {
                let r = Err(XcmError::from_match_error(MatchError::AccountIdConversionFailed));
                assert(spec_transfer_to(what, asset_id, amount, source, seen_dest, transfer, r));
                assert(spec_transfer_from(
                    what,
                    to,
                    asset_id,
                    amount,
                    seen_source,
                    convert,
                    transfer,
                    r,
                ));
                assert(spec_transfer_matched(what, from, to, seen_match, convert, transfer, r));
                return r;
            },
            Ok(account) => account,
        };
        let moved = transfer(asset_id, &source, &dest, amount, true);
        let r = match moved {
            Err(cause) => Err(XcmError::FailedToTransactAsset(cause)),
            Ok(_) => Ok(what),
        };
        assert(transfer.ensures((asset_id, &source, &dest, amount, true), moved));
        assert(spec_transfer_to(what, asset_id, amount, source, seen_dest, transfer, r));
        assert(spec_transfer_from(what, to, asset_id, amount, seen_source, convert, transfer, r));
        assert(spec_transfer_matched(what, from, to, seen_match, convert, transfer, r));
        r
    }
}

/// What became of an asset at the checking account.
#[derive(Debug, Clone, Copy, PartialEq, Eq)]
pub enum Checking {
    /// The asset is none that the adapter handles.
    NotHandled(MatchError),
    /// The asset is handled, but its teleports are not recorded: the
    /// checking account was not touched.
    NotRecorded,
    /// The operation on the checking account was carried out.
    Done,
    /// The operation on the checking account failed, with the text of the
    /// failure.
    Failed(&'static str),
}

/// Whether `outcome` is what an operation on the checking account comes to
/// once the asset is matched to `asset_id` and `amount` and the question
/// whether its teleports are recorded had the answer `recorded`.
pub open spec fn spec_checked_tracked<AssetId, Balance, AccountId, G, O>(
    asset_id: AssetId,
    amount: Balance,
    recorded: bool,
    checking_account: G,
    operate: O,
    outcome: Checking,
) -> bool where
    G: FnOnce() -> AccountId,
    O: FnOnce(AssetId, &AccountId, Balance) -> Result<(), &'static str>,
 {
    if !recorded {
        outcome == Checking::NotRecorded
    } else {
        exists|account: AccountId, operated: Result<(), &'static str>|
            #![trigger
                checking_account.ensures((), account),
                operate.ensures((asset_id, &account, amount), operated)
            ]
            checking_account.ensures((), account) && operate.ensures(
                (asset_id, &account, amount),
                operated,
            ) && outcome == (match operated {
                Ok(_) => Checking::Done,
                Err(cause) => Checking::Failed(cause),
            })
    }
}

/// Whether `outcome` is what an operation on the checking account comes to
/// once matching the asset gave `matched`.
pub open spec fn spec_checked<AssetId, Balance, AccountId, K, G, O>(
    matched: Result<(AssetId, Balance), MatchError>,
    contains: K,
    checking_account: G,
    operate: O,
    outcome: Checking,
) -> bool where
    K: FnOnce(&AssetId) -> bool,
    G: FnOnce() -> AccountId,
    O: FnOnce(AssetId, &AccountId, Balance) -> Result<(), &'static str>,
 {
    match matched {
        Err(cause) => outcome == Checking::NotHandled(cause),
        Ok((asset_id, amount)) => exists|recorded: bool|
            #![trigger contains.ensures((&asset_id,), recorded)]
            contains.ensures((&asset_id,), recorded) && spec_checked_tracked(
                asset_id,
                amount,
                recorded,
                checking_account,
                operate,
                outcome,
            ),
    }
}

/// Whether `r` is what an operation on the account at a location comes to
/// once matching the asset gave `matched`.
pub open spec fn spec_transacted<Location, AssetId, Balance, AccountId, C, O>(
    who: &Location,
    matched: Result<(AssetId, Balance), MatchError>,
    convert: C,
    operate: O,
    r: Result<(), XcmError>,
) -> bool where
    C: FnOnce(&Location) -> Result<AccountId, ()>,
    O: FnOnce(AssetId, &AccountId, Balance) -> Result<(), &'static str>,
 {
    match matched {
        Err(cause) => r is Err && spec_from_match_error(cause, r->Err_0),
        Ok((asset_id, amount)) => exists|converted: Result<AccountId, ()>|
            #![trigger convert.ensures((who,), converted)]
            convert.ensures((who,), converted) && match converted {
                Err(_) => r is Err && spec_from_match_error(
                    MatchError::AccountIdConversionFailed,
                    r->Err_0,
                ),
                Ok(account) => exists|operated: Result<(), &'static str>|
                    #![trigger operate.ensures((asset_id, &account, amount), operated)]
                    operate.ensures((asset_id, &account, amount), operated) && match operated {
                        Err(cause) => r is Err && spec_from_dispatch_error(cause, r->Err_0),
                        Ok(_) => r is Ok,
                    },
            },
    }
}

/// Whether an operation on the checking account may be asked for: the
/// asset can be matched; where it matches, the question whether its
/// teleports are recorded can be asked; where they are, the checking account
/// can be asked for; and the operation can be carried out on the account
/// given, for the token and the amount matched.
pub open spec fn spec_may_check<Asset, AssetId, Balance, AccountId, M, K, G, O>(
    what: &Asset,
    matches_fungibles: M,
    contains: K,
    checking_account: G,
    operate: O,
) -> bool where
    M: FnOnce(&Asset) -> Result<(AssetId, Balance), MatchError>,
    K: FnOnce(&AssetId) -> bool,
    G: FnOnce() -> AccountId,
    O: FnOnce(AssetId, &AccountId, Balance) -> Result<(), &'static str>,
 {
    &&& matches_fungibles.requires((what,))
    &&& forall|asset_id: AssetId, amount: Balance| #[trigger]
        matches_fungibles.ensures(
            (what,),
            Ok::<(AssetId, Balance), MatchError>((asset_id, amount)),
        ) ==> {
            &&& contains.requires((&asset_id,))
            &&& contains.ensures((&asset_id,), true) ==> {
                &&& checking_account.requires(())
                &&& forall|account: AccountId| #[trigger]
                    checking_account.ensures((), account) ==> operate.requires(
                        (asset_id, &account, amount),
                    )
            }
        }
}

/// Whether an operation on the account at a location may be asked for: the
/// asset can be matched; where it matches, the location can be converted;
/// and where that gives an account, the operation can be carried out on it,
/// for the token and the amount matched.
pub open spec fn spec_may_transact<Asset, Location, AssetId, Balance, AccountId, M, C, O>(
    what: &Asset,
    who: &Location,
    matches_fungibles: M,
    convert: C,
    operate: O,
) -> bool where
    M: FnOnce(&Asset) -> Result<(AssetId, Balance), MatchError>,
    C: FnOnce(&Location) -> Result<AccountId, ()>,
    O: FnOnce(AssetId, &AccountId, Balance) -> Result<(), &'static str>,
 {
    &&& matches_fungibles.requires((what,))
    &&& forall|asset_id: AssetId, amount: Balance| #[trigger]
        matches_fungibles.ensures(
            (what,),
            Ok::<(AssetId, Balance), MatchError>((asset_id, amount)),
        ) ==> {
            &&& convert.requires((who,))
            &&& forall|account: AccountId| #[trigger]
                convert.ensures((who,), Ok::<AccountId, ()>(account)) ==> operate.requires(
                    (asset_id, &account, amount),
                )
        }
}

/// Matches the asset, asks whether its teleports are recorded and, if so,
/// carries out `operate` on the checking account.
fn check_with<Asset, AssetId, Balance, AccountId, M, K, G, O>(
    what: &Asset,
    matches_fungibles: M,
    contains: K,
    checking_account: G,
    operate: O,
) -> (outcome: Checking) where
    M: FnOnce(&Asset) -> Result<(AssetId, Balance), MatchError>,
    K: FnOnce(&AssetId) -> bool,
    G: FnOnce() -> AccountId,
    O: FnOnce(AssetId, &AccountId, Balance) -> Result<(), &'static str>,

    requires
        spec_may_check(what, matches_fungibles, contains, checking_account, operate),
    ensures
        exists|matched: Result<(AssetId, Balance), MatchError>|
            #![trigger matches_fungibles.ensures((what,), matched)]
            matches_fungibles.ensures((what,), matched) && spec_checked(
                matched,
                contains,
                checking_account,
                operate,
                outcome,
            ),
{
    let matched = matches_fungibles(what);
    let ghost seen_match = matched;
    let (asset_id, amount) = match matched {
        Err(cause) => {
            assert(spec_checked(
                seen_match,
                contains,
                checking_account,
                operate,
                Checking::NotHandled(cause),
            ));
            return Checking::NotHandled(cause);
        },
        Ok(found) => found,
    };
    let recorded = contains(&asset_id);
    if !recorded {
        assert(spec_checked_tracked(
            asset_id,
            amount,
            recorded,
            checking_account,
            operate,
            Checking::NotRecorded,
        ));
        assert(spec_checked(seen_match, contains, checking_account, operate, Checking::NotRecorded));
        return Checking::NotRecorded;
    }
    let account = checking_account();
    let operated = operate(asset_id, &account, amount);
    let outcome = match operated {
        Ok(_) => Checking::Done,
        Err(cause) => Checking::Failed(cause),
    };
    assert(checking_account.ensures((), account));
    assert(operate.ensures((asset_id, &account, amount), operated));
    assert(spec_checked_tracked(asset_id, amount, recorded, checking_account, operate, outcome));
    assert(spec_checked(seen_match, contains, checking_account, operate, outcome));
    outcome
}

/// Matches the asset, converts the location to an account and carries out
/// `operate` on that account.
fn transact_with<Asset, Location, AssetId, Balance, AccountId, M, C, O>(
    what: &Asset,
    who: &Location,
    matches_fungibles: M,
    convert: C,
    operate: O,
) -> (r: Result<(), XcmError>) where
    M: FnOnce(&Asset) -> Result<(AssetId, Balance), MatchError>,
    C: FnOnce(&Location) -> Result<AccountId, ()>,
    O: FnOnce(AssetId, &AccountId, Balance) -> Result<(), &'static str>,

    requires
        spec_may_transact(what, who, matches_fungibles, convert, operate),
    ensures
        exists|matched: Result<(AssetId, Balance), MatchError>|
            #![trigger matches_fungibles.ensures((what,), matched)]
            matches_fungibles.ensures((what,), matched) && spec_transacted(
                who,
                matched,
                convert,
                operate,
                r,
            ),
{
    let matched = matches_fungibles(what);
    let ghost seen_match = matched;
    let (asset_id, amount) = match matched {
        Err(cause) => {
            let r = Err(XcmError::from_match_error(cause));
            assert(spec_transacted(who, seen_match, convert, operate, r));
            return r;
        },
        Ok(found) => found,
    };
    let converted = convert(who);
    let ghost seen_account = converted;
    let account = match converted {
        Err(_) => {
            let r = Err(XcmError::from_match_error(MatchError::AccountIdConversionFailed));
            assert(convert.ensures((who,), seen_account));
            assert(spec_transacted(who, seen_match, convert, operate, r));
            return r;
        },
        Ok(account) => account,
    };
    let operated = operate(asset_id, &account, amount);
    let r = match operated {
        Err(cause) => Err(XcmError::FailedToTransactAsset(cause)),
        Ok(_) => Ok(()),
    };
    assert(convert.ensures((who,), seen_account));
    assert(operate.ensures((asset_id, &account, amount), operated));
    assert(spec_transacted(who, seen_match, convert, operate, r));
    r
}

/// What the check before a teleport into this chain says, given what
/// became of the asset at the checking account: an asset that is not handled
/// fails as matching failed; one that the checking account cannot give is
/// not withdrawable; any other may come in.
pub open spec fn spec_can_check_in(outcome: Checking, r: Result<(), XcmError>) -> bool {
    match outcome {
        Checking::NotHandled(cause) => r is Err && spec_from_match_error(cause, r->Err_0),
        Checking::NotRecorded => r is Ok,
        Checking::Done => r is Ok,
        Checking::Failed(_) => r == Err::<(), XcmError>(XcmError::NotWithdrawable),
    }
}

/// Mints and burns tokens as assets come into this chain and leave it, and
/// keeps the checking account that mirrors what is abroad.
#[derive(Debug, Clone, Copy, PartialEq, Eq, Structural)]
pub struct FungiblesMutateAdapter;

impl FungiblesMutateAdapter {
    /// Whether the asset may be teleported into this chain. An asset whose
    /// teleports are recorded may come in only if the checking account can
    /// give its amount; one whose teleports are not recorded may always.
    pub fn can_check_in<Asset, Location, AssetId, Balance, AccountId, M, K, G, W>(
        _origin: &Location,
        what: &Asset,
        matches_fungibles: M,
        contains: K,
        checking_account: G,
        can_withdraw: W,
    ) -> (r: Result<(), XcmError>) where
        M: FnOnce(&Asset) -> Result<(AssetId, Balance), MatchError>,
        K: FnOnce(&AssetId) -> bool,
        G: FnOnce() -> AccountId,
        W: FnOnce(AssetId, &AccountId, Balance) -> Result<(), &'static str>,

        requires
            spec_may_check(what, matches_fungibles, contains, checking_account, can_withdraw),
        ensures
            exists|matched: Result<(AssetId, Balance), MatchError>, outcome: Checking|
                #![trigger
                    matches_fungibles.ensures((what,), matched),
                    spec_can_check_in(outcome, r)
                ]
                matches_fungibles.ensures((what,), matched) && spec_checked(
                    matched,
                    contains,
                    checking_account,
                    can_withdraw,
                    outcome,
                ) && spec_can_check_in(outcome, r),
    {
        let outcome = check_with(what, matches_fungibles, contains, checking_account, can_withdraw);
        let r = match outcome {
            Checking::NotHandled(cause) => Err(XcmError::from_match_error(cause)),
            Checking::NotRecorded => Ok(()),
            Checking::Done => Ok(()),
            Checking::Failed(_) => Err(XcmError::NotWithdrawable),
        };
        assert(spec_can_check_in(outcome, r));
        r
    }

    /// Takes a teleported asset in: where its teleports are recorded, its
    /// amount is burnt from the checking account. Says what became of it; a
    /// burn that fails after `can_check_in` allowed the asset is the
    /// caller's to deal with.
    pub fn check_in<Asset, Location, AssetId, Balance, AccountId, M, K, G, B>(
        _origin: &Location,
        what: &Asset,
        matches_fungibles: M,
        contains: K,
        checking_account: G,
        burn_from: B,
    ) -> (outcome: Checking) where
        M: FnOnce(&Asset) -> Result<(AssetId, Balance), MatchError>,
        K: FnOnce(&AssetId) -> bool,
        G: FnOnce() -> AccountId,
        B: FnOnce(AssetId, &AccountId, Balance) -> Result<(), &'static str>,

        requires
            spec_may_check(what, matches_fungibles, contains, checking_account, burn_from),
        ensures
            exists|matched: Result<(AssetId, Balance), MatchError>|
                #![trigger matches_fungibles.ensures((what,), matched)]
                matches_fungibles.ensures((what,), matched) && spec_checked(
                    matched,
                    contains,
                    checking_account,
                    burn_from,
                    outcome,
                ),
    {
        check_with(what, matches_fungibles, contains, checking_account, burn_from)
    }

    /// Lets a teleported asset out: where its teleports are recorded, its
    /// amount is minted into the checking account. Says what became of it.
    pub fn check_out<Asset, Location, AssetId, Balance, AccountId, M, K, G, N>(
        _dest: &Location,
        what: &Asset,
        matches_fungibles: M,
        contains: K,
        checking_account: G,
        mint_into: N,
    ) -> (outcome: Checking) where
        M: FnOnce(&Asset) -> Result<(AssetId, Balance), MatchError>,
        K: FnOnce(&AssetId) -> bool,
        G: FnOnce() -> AccountId,
        N: FnOnce(AssetId, &AccountId, Balance) -> Result<(), &'static str>,

        requires
            spec_may_check(what, matches_fungibles, contains, checking_account, mint_into),
        ensures
            exists|matched: Result<(AssetId, Balance), MatchError>|
                #![trigger matches_fungibles.ensures((what,), matched)]
                matches_fungibles.ensures((what,), matched) && spec_checked(
                    matched,
                    contains,
                    checking_account,
                    mint_into,
                    outcome,
                ),
    {
        check_with(what, matches_fungibles, contains, checking_account, mint_into)
    }

    /// Gives the asset to the account at `who` by minting its amount there.
    /// The asset is matched first, then the location converted, then the
    /// amount minted; the first step that fails ends the instruction.
    pub fn deposit_asset<Asset, Location, AssetId, Balance, AccountId, M, C, N>(
        what: &Asset,
        who: &Location,
        matches_fungibles: M,
        convert: C,
        mint_into: N,
    ) -> (r: Result<(), XcmError>) where
        M: FnOnce(&Asset) -> Result<(AssetId, Balance), MatchError>,
        C: FnOnce(&Location) -> Result<AccountId, ()>,
        N: FnOnce(AssetId, &AccountId, Balance) -> Result<(), &'static str>,

        requires
            spec_may_transact(what, who, matches_fungibles, convert, mint_into),
        ensures
            exists|matched: Result<(AssetId, Balance), MatchError>|
                #![trigger matches_fungibles.ensures((what,), matched)]
                matches_fungibles.ensures((what,), matched) && spec_transacted(
                    who,
                    matched,
                    convert,
                    mint_into,
                    r,
                ),
    {
        transact_with(what, who, matches_fungibles, convert, mint_into)
    }

    /// Takes the asset from the account at `who` by burning its amount
    /// there, and hands back the asset taken. The asset is matched first,
    /// then the location converted, then the amount burnt; the first step
    /// that fails ends the instruction.
    pub fn withdraw_asset<'a, Asset, Location, AssetId, Balance, AccountId, M, C, B>(
        what: &'a Asset,
        who: &Location,
        matches_fungibles: M,
        convert: C,
        burn_from: B,
    ) -> (r: Result<&'a Asset, XcmError>) where
        M: FnOnce(&Asset) -> Result<(AssetId, Balance), MatchError>,
        C: FnOnce(&Location) -> Result<AccountId, ()>,
        B: FnOnce(AssetId, &AccountId, Balance) -> Result<(), &'static str>,

        requires
            spec_may_transact(what, who, matches_fungibles, convert, burn_from),
        ensures
            exists|matched: Result<(AssetId, Balance), MatchError>, burnt: Result<(), XcmError>|
                #![trigger
                    matches_fungibles.ensures((what,), matched),
                    spec_withdrawn(what, burnt, r)
                ]
                matches_fungibles.ensures((what,), matched) && spec_transacted(
                    who,
                    matched,
                    convert,
                    burn_from,
                    burnt,
                ) && spec_withdrawn(what, burnt, r),
    {
        let burnt = transact_with(what, who, matches_fungibles, convert, burn_from);
        let r = match burnt {
            Ok(_) => Ok(what),
            Err(error) => Err(error),
        };
        assert(spec_withdrawn(what, burnt, r));
        r
    }
}

/// What a withdrawal hands back, given how the burn went: the asset where
/// the burn was carried out, and the failure of the burn otherwise.
pub open spec fn spec_withdrawn<Asset>(
    what: &Asset,
    burnt: Result<(), XcmError>,
    r: Result<&Asset, XcmError>,
) -> bool {
    match burnt {
        Ok(_) => r == Ok::<&Asset, XcmError>(what),
        Err(error) => r == Err::<&Asset, XcmError>(error),
    }
}

/// Both adapters in one: moves tokens between accounts, and mints and burns
/// them as assets come in and leave.
#[derive(Debug, Clone, Copy, PartialEq, Eq, Structural)]
pub struct FungiblesAdapter;

impl FungiblesAdapter {
    /// As `FungiblesMutateAdapter::can_check_in`.
    pub fn can_check_in<Asset, Location, AssetId, Balance, AccountId, M, K, G, W>(
        _origin: &Location,
        what: &Asset,
        matches_fungibles: M,
        contains: K,
        checking_account: G,
        can_withdraw: W,
    ) -> (r: Result<(), XcmError>) where
        M: FnOnce(&Asset) -> Result<(AssetId, Balance), MatchError>,
        K: FnOnce(&AssetId) -> bool,
        G: FnOnce() -> AccountId,
        W: FnOnce(AssetId, &AccountId, Balance) -> Result<(), &'static str>,

        requires
            spec_may_check(what, matches_fungibles, contains, checking_account, can_withdraw),
        ensures
            exists|matched: Result<(AssetId, Balance), MatchError>, outcome: Checking|
                #![trigger
                    matches_fungibles.ensures((what,), matched),
                    spec_can_check_in(outcome, r)
                ]
                matches_fungibles.ensures((what,), matched) && spec_checked(
                    matched,
                    contains,
                    checking_account,
                    can_withdraw,
                    outcome,
                ) && spec_can_check_in(outcome, r),
    {
        FungiblesMutateAdapter::can_check_in(
            _origin,
            what,
            matches_fungibles,
            contains,
            checking_account,
            can_withdraw,
        )
    }

    /// As `FungiblesMutateAdapter::check_in`.
    pub fn check_in<Asset, Location, AssetId, Balance, AccountId, M, K, G, B>(
        _origin: &Location,
        what: &Asset,
        matches_fungibles: M,
        contains: K,
        checking_account: G,
        burn_from: B,
    ) -> (outcome: Checking) where
        M: FnOnce(&Asset) -> Result<(AssetId, Balance), MatchError>,
        K: FnOnce(&AssetId) -> bool,
        G: FnOnce() -> AccountId,
        B: FnOnce(AssetId, &AccountId, Balance) -> Result<(), &'static str>,

        requires
            spec_may_check(what, matches_fungibles, contains, checking_account, burn_from),
        ensures
            exists|matched: Result<(AssetId, Balance), MatchError>|
                #![trigger matches_fungibles.ensures((what,), matched)]
                matches_fungibles.ensures((what,), matched) && spec_checked(
                    matched,
                    contains,
                    checking_account,
                    burn_from,
                    outcome,
                ),
    {
        FungiblesMutateAdapter::check_in(
            _origin,
            what,
            matches_fungibles,
            contains,
            checking_account,
            burn_from,
        )
    }

    /// As `FungiblesMutateAdapter::check_out`.
    pub fn check_out<Asset, Location, AssetId, Balance, AccountId, M, K, G, N>(
        _dest: &Location,
        what: &Asset,
        matches_fungibles: M,
        contains: K,
        checking_account: G,
        mint_into: N,
    ) -> (outcome: Checking) where
        M: FnOnce(&Asset) -> Result<(AssetId, Balance), MatchError>,
        K: FnOnce(&AssetId) -> bool,
        G: FnOnce() -> AccountId,
        N: FnOnce(AssetId, &AccountId, Balance) -> Result<(), &'static str>,

        requires
            spec_may_check(what, matches_fungibles, contains, checking_account, mint_into),
        ensures
            exists|matched: Result<(AssetId, Balance), MatchError>|
                #![trigger matches_fungibles.ensures((what,), matched)]
                matches_fungibles.ensures((what,), matched) && spec_checked(
                    matched,
                    contains,
                    checking_account,
                    mint_into,
                    outcome,
                ),
    {
        FungiblesMutateAdapter::check_out(
            _dest,
            what,
            matches_fungibles,
            contains,
            checking_account,
            mint_into,
        )
    }

    /// As `FungiblesMutateAdapter::deposit_asset`.
    pub fn deposit_asset<Asset, Location, AssetId, Balance, AccountId, M, C, N>(
        what: &Asset,
        who: &Location,
        matches_fungibles: M,
        convert: C,
        mint_into: N,
    ) -> (r: Result<(), XcmError>) where
        M: FnOnce(&Asset) -> Result<(AssetId, Balance), MatchError>,
        C: FnOnce(&Location) -> Result<AccountId, ()>,
        N: FnOnce(AssetId, &AccountId, Balance) -> Result<(), &'static str>,

        requires
            spec_may_transact(what, who, matches_fungibles, convert, mint_into),
        ensures
            exists|matched: Result<(AssetId, Balance), MatchError>|
                #![trigger matches_fungibles.ensures((what,), matched)]
                matches_fungibles.ensures((what,), matched) && spec_transacted(
                    who,
                    matched,
                    convert,
                    mint_into,
                    r,
                ),
    {
        FungiblesMutateAdapter::deposit_asset(what, who, matches_fungibles, convert, mint_into)
    }

    /// As `FungiblesMutateAdapter::withdraw_asset`.
    pub fn withdraw_asset<'a, Asset, Location, AssetId, Balance, AccountId, M, C, B>(
        what: &'a Asset,
        who: &Location,
        matches_fungibles: M,
        convert: C,
        burn_from: B,
    ) -> (r: Result<&'a Asset, XcmError>) where
        M: FnOnce(&Asset) -> Result<(AssetId, Balance), MatchError>,
        C: FnOnce(&Location) -> Result<AccountId, ()>,
        B: FnOnce(AssetId, &AccountId, Balance) -> Result<(), &'static str>,

        requires
            spec_may_transact(what, who, matches_fungibles, convert, burn_from),
        ensures
            exists|matched: Result<(AssetId, Balance), MatchError>, burnt: Result<(), XcmError>|
                #![trigger
                    matches_fungibles.ensures((what,), matched),
                    spec_withdrawn(what, burnt, r)
                ]
                matches_fungibles.ensures((what,), matched) && spec_transacted(
                    who,
                    matched,
                    convert,
                    burn_from,
                    burnt,
                ) && spec_withdrawn(what, burnt, r),
    {
        FungiblesMutateAdapter::withdraw_asset(what, who, matches_fungibles, convert, burn_from)
    }

    /// As `FungiblesTransferAdapter::internal_transfer_asset`.
    pub fn internal_transfer_asset<'a, Asset, Location, AssetId, Balance, AccountId, M, C, T>(
        what: &'a Asset,
        from: &Location,
        to: &Location,
        matches_fungibles: M,
        convert: C,
        transfer: T,
    ) -> (r: Result<&'a Asset, XcmError>) where
        M: FnOnce(&Asset) -> Result<(AssetId, Balance), MatchError>,
        C: Fn(&Location) -> Result<AccountId, ()>,
        T: FnOnce(AssetId, &AccountId, &AccountId, Balance, bool) -> Result<(), &'static str>,

        requires
            spec_may_transfer(what, from, to, matches_fungibles, convert, transfer),
        ensures
            exists|matched: Result<(AssetId, Balance), MatchError>|
                #![trigger matches_fungibles.ensures((what,), matched)]
                matches_fungibles.ensures((what,), matched) && spec_transfer_matched(
                    what,
                    from,
                    to,
                    matched,
                    convert,
                    transfer,
                    r,
                ),
    {
        FungiblesTransferAdapter::internal_transfer_asset(
            what,
            from,
            to,
            matches_fungibles,
            convert,
            transfer,
        )
    }
}

} // verus!
