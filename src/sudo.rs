//! Governance: parameter updates and the hook registries.
use crate::error::{ContractError, HookError};
use crate::market::{Marketplace, Outcome, texts_distinct};
use crate::msg::SudoMsg;
use vstd::prelude::*;

verus! {

/// `hook` is registered in `hooks`.
pub open spec fn hook_listed(hooks: Seq<String>, hook: Seq<char>) -> bool {
    exists|i: int| 0 <= i < hooks.len() && #[trigger] hooks[i]@ == hook
}

/// Registers `hook`, unless it is registered already.
fn add_hook(hooks: &mut Vec<String>, hook: String) -> (r: Result<(), HookError>)
    requires
        texts_distinct(old(hooks)@),
    ensures
        texts_distinct(final(hooks)@),
        hook_listed(old(hooks)@, hook@) ==> r == Err::<(), HookError>(HookError::HookAlreadyRegistered {})
            && final(hooks)@ == old(hooks)@,
        !hook_listed(old(hooks)@, hook@) ==> r is Ok && final(hooks)@ == old(hooks)@.push(hook),
{
    let mut i: usize = 0;
    while i < hooks.len()
        invariant
            i <= hooks.len(),
            hooks@ == old(hooks)@,
            texts_distinct(old(hooks)@),
            forall|j: int| 0 <= j < i ==> hooks@[j]@ != hook@,
        decreases hooks.len() - i,
    {
        if hooks[i] == hook {
            assert(hooks@[i as int]@ == hook@);
            return Err(HookError::HookAlreadyRegistered {});
        }
        i += 1;
    }
    let ghost before = hooks@;
    hooks.push(hook);
    assert forall|a: int, b: int| 0 <= a < b < hooks.len() implies hooks@[a]@ != hooks@[b]@ by {
        assert(hooks@[a] == before[a]);
        if b < before.len() {
            assert(hooks@[b] == before[b]);
        }
    }
    Ok(())
}

/// Unregisters `hook`, which must be registered.
fn remove_hook(hooks: &mut Vec<String>, hook: &String) -> (r: Result<(), HookError>)
    requires
        texts_distinct(old(hooks)@),
    ensures
        texts_distinct(final(hooks)@),
        !hook_listed(final(hooks)@, hook@),
        !hook_listed(old(hooks)@, hook@) ==> r == Err::<(), HookError>(HookError::HookNotRegistered {})
            && final(hooks)@ == old(hooks)@,
        hook_listed(old(hooks)@, hook@) ==> r is Ok && exists|i: int|
            0 <= i < old(hooks).len() && old(hooks)@[i]@ == hook@ && (forall|j: int|
                0 <= j < i ==> old(hooks)@[j]@ != hook@) && final(hooks)@ == old(hooks)@.remove(i),
{
    let mut i: usize = 0;
    while i < hooks.len()
        invariant
            i <= hooks.len(),
            hooks@ == old(hooks)@,
            texts_distinct(old(hooks)@),
            forall|j: int| 0 <= j < i ==> hooks@[j]@ != hook@,
        decreases hooks.len() - i,
    {
        if hooks[i] == *hook {
            assert(hooks@[i as int]@ == hook@);
            let ghost before = hooks@;
            hooks.remove(i);
            assert forall|a: int, b: int| 0 <= a < b < hooks.len() implies hooks@[a]@ != hooks@[b]@ by {
                let a0 = if a < i { a } else { a + 1 };
                let b0 = if b < i { b } else { b + 1 };
                assert(hooks@[a] == before[a0]);
                assert(hooks@[b] == before[b0]);
            }
            assert forall|k: int| 0 <= k < hooks.len() implies #[trigger] hooks@[k]@ != hook@ by {
                let k0 = if k < i { k } else { k + 1 };
                assert(hooks@[k] == before[k0]);
                assert(k0 != i);
            }
            return Ok(());
        }
        i += 1;
    }
    Err(HookError::HookNotRegistered {})
}

/// The parameters after an update that sets the fields given and keeps the
/// others.
pub open spec fn params_updated(
    m: Marketplace,
    trading_fee_percent: Option<u32>,
    ask_expiry: Option<(u64, u64)>,
    bid_expiry: Option<(u64, u64)>,
    operators: Option<Vec<String>>,
    n: Marketplace,
) -> bool {
    &&& n.params.trading_fee_percent == trading_fee_percent.unwrap_or(m.params.trading_fee_percent)
    &&& n.params.ask_expiry == ask_expiry.unwrap_or(m.params.ask_expiry)
    &&& n.params.bid_expiry == bid_expiry.unwrap_or(m.params.bid_expiry)
    &&& n.params.operators == operators.unwrap_or(m.params.operators)
    &&& n.admin == m.admin
    &&& n.asks == m.asks
    &&& n.bids == m.bids
    &&& n.listed_hooks == m.listed_hooks
    &&& n.sale_finalized_hooks == m.sale_finalized_hooks
    &&& n.pending == m.pending
}

/// A trading fee above 100 percent is asked for.
pub open spec fn fee_out_of_range(trading_fee_percent: Option<u32>) -> bool {
    trading_fee_percent is Some && trading_fee_percent->Some_0 > 100
}

/// The outcome of a parameter update: refused, with nothing changed, when
/// the trading fee asked for is above 100 percent; else the given fields are
/// set and no action is returned.
pub open spec fn params_outcome(
    m: Marketplace,
    trading_fee_percent: Option<u32>,
    ask_expiry: Option<(u64, u64)>,
    bid_expiry: Option<(u64, u64)>,
    operators: Option<Vec<String>>,
    n: Marketplace,
    r: Outcome,
) -> bool {
    &&& fee_out_of_range(trading_fee_percent) ==> r == Outcome::Err(
        ContractError::InvalidTradingFee {},
    ) && n == m
    &&& !fee_out_of_range(trading_fee_percent) ==> r is Ok && r->Ok_0@.len() == 0 && params_updated(
        m,
        trading_fee_percent,
        ask_expiry,
        bid_expiry,
        operators,
        n,
    )
}

/// Governance entry point: applies one governance message.
pub fn sudo(market: &mut Marketplace, msg: SudoMsg) -> (r: Outcome)
    requires
        old(market).wf(),
    ensures
        final(market).wf(),
        match msg {
            SudoMsg::UpdateParams { trading_fee_percent, ask_expiry, bid_expiry, operators } =>
                params_outcome(
                *old(market),
                trading_fee_percent,
                ask_expiry,
                bid_expiry,
                operators,
                *final(market),
                r,
            ),
            SudoMsg::AddSaleFinalizedHook { hook } => hook_added(
                old(market).sale_finalized_hooks@,
                hook,
                final(market).sale_finalized_hooks@,
                r,
            ) && final(market).with_sale_hooks(old(market).sale_finalized_hooks) == *old(market),
            SudoMsg::AddListedHook { hook } => hook_added(
                old(market).listed_hooks@,
                hook,
                final(market).listed_hooks@,
                r,
            ) && final(market).with_listed_hooks(old(market).listed_hooks) == *old(market),
            SudoMsg::RemoveSaleFinalizedHook { hook } => hook_removed(
                old(market).sale_finalized_hooks@,
                hook@,
                final(market).sale_finalized_hooks@,
                r,
            ) && final(market).with_sale_hooks(old(market).sale_finalized_hooks) == *old(market),
            SudoMsg::RemoveListedHook { hook } => hook_removed(
                old(market).listed_hooks@,
                hook@,
                final(market).listed_hooks@,
                r,
            ) && final(market).with_listed_hooks(old(market).listed_hooks) == *old(market),
        },
{
    match msg {
        SudoMsg::UpdateParams { trading_fee_percent, ask_expiry, bid_expiry, operators } =>
            sudo_update_params(market, trading_fee_percent, ask_expiry, bid_expiry, operators),
        SudoMsg::AddSaleFinalizedHook { hook } => sudo_add_sale_finalized_hook(market, hook),
        SudoMsg::AddListedHook { hook } => sudo_add_listed_hook(market, hook),
        SudoMsg::RemoveSaleFinalizedHook { hook } => sudo_remove_sale_finalized_hook(market, &hook),
        SudoMsg::RemoveListedHook { hook } => sudo_remove_listed_hook(market, &hook),
    }
}

/// Overwrites the parameters that are given and keeps the others; a given
/// operator list replaces the old one whole. A trading fee above 100
/// percent is refused.
pub fn sudo_update_params(
    market: &mut Marketplace,
    trading_fee_percent: Option<u32>,
    ask_expiry: Option<(u64, u64)>,
    bid_expiry: Option<(u64, u64)>,
    operators: Option<Vec<String>>,
) -> (r: Outcome)
    requires
        old(market).wf(),
    ensures
        final(market).wf(),
        params_outcome(
            *old(market),
            trading_fee_percent,
            ask_expiry,
            bid_expiry,
            operators,
            *final(market),
            r,
        ),
{
    if let Some(p) = trading_fee_percent {
        if p > 100 {
            return Err(ContractError::InvalidTradingFee {});
        }
    }
    match trading_fee_percent {
        Some(p) => {
            market.params.trading_fee_percent = p;
        },
        None => {},
    }
    match ask_expiry {
        Some(e) => {
            market.params.ask_expiry = e;
        },
        None => {},
    }
    match bid_expiry {
        Some(e) => {
            market.params.bid_expiry = e;
        },
        None => {},
    }
    match operators {
        Some(ops) => {
            market.params.operators = ops;
        },
        None => {},
    }
    Ok(Vec::new())
}

/// The outcome of registering `hook`: refused when it is registered already,
/// else appended.
pub open spec fn hook_added(before: Seq<String>, hook: String, after: Seq<String>, r: Outcome) -> bool {
    &&& hook_listed(before, hook@) ==> r == Outcome::Err(
        ContractError::Hook(HookError::HookAlreadyRegistered {}),
    ) && after == before
    &&& !hook_listed(before, hook@) ==> r is Ok && r->Ok_0@.len() == 0 && after == before.push(hook)
}

/// The outcome of unregistering `hook`: refused when it is not registered,
/// else its first occurrence is removed.
pub open spec fn hook_removed(before: Seq<String>, hook: Seq<char>, after: Seq<String>, r: Outcome) -> bool {
    &&& !hook_listed(before, hook) ==> r == Outcome::Err(
        ContractError::Hook(HookError::HookNotRegistered {}),
    ) && after == before
    &&& hook_listed(before, hook) ==> r is Ok && r->Ok_0@.len() == 0 && exists|i: int|
        0 <= i < before.len() && before[i]@ == hook && (forall|j: int|
            0 <= j < i ==> before[j]@ != hook) && after == before.remove(i)
    &&& !hook_listed(after, hook)
}

fn hook_outcome(r: Result<(), HookError>) -> (o: Outcome)
    ensures
        r is Ok ==> o is Ok && o->Ok_0@.len() == 0,
        r is Err ==> o == Outcome::Err(ContractError::Hook(r->Err_0)),
{
    match r {
        Ok(()) => Ok(Vec::new()),
        Err(e) => Err(ContractError::Hook(e)),
    }
}

impl Marketplace {
    pub open spec fn with_listed_hooks(self, hooks: Vec<String>) -> Marketplace {
        Marketplace { listed_hooks: hooks, ..self }
    }

    pub open spec fn with_sale_hooks(self, hooks: Vec<String>) -> Marketplace {
        Marketplace { sale_finalized_hooks: hooks, ..self }
    }
}

/// Registers a "sale-finalized" subscriber.
pub fn sudo_add_sale_finalized_hook(market: &mut Marketplace, hook: String) -> (r: Outcome)
    requires
        old(market).wf(),
    ensures
        final(market).wf(),
        hook_added(old(market).sale_finalized_hooks@, hook, final(market).sale_finalized_hooks@, r),
        final(market).with_sale_hooks(old(market).sale_finalized_hooks) == *old(market),
{
    let r = add_hook(&mut market.sale_finalized_hooks, hook);
    hook_outcome(r)
}

/// Registers a "listed" subscriber.
pub fn sudo_add_listed_hook(market: &mut Marketplace, hook: String) -> (r: Outcome)
    requires
        old(market).wf(),
    ensures
        final(market).wf(),
        hook_added(old(market).listed_hooks@, hook, final(market).listed_hooks@, r),
        final(market).with_listed_hooks(old(market).listed_hooks) == *old(market),
{
    let r = add_hook(&mut market.listed_hooks, hook);
    hook_outcome(r)
}

/// Unregisters a "sale-finalized" subscriber.
pub fn sudo_remove_sale_finalized_hook(market: &mut Marketplace, hook: &String) -> (r: Outcome)
    requires
        old(market).wf(),
    ensures
        final(market).wf(),
        hook_removed(old(market).sale_finalized_hooks@, hook@, final(market).sale_finalized_hooks@, r),
        final(market).with_sale_hooks(old(market).sale_finalized_hooks) == *old(market),
{
    let r = remove_hook(&mut market.sale_finalized_hooks, hook);
    hook_outcome(r)
}

/// Unregisters a "listed" subscriber.
pub fn sudo_remove_listed_hook(market: &mut Marketplace, hook: &String) -> (r: Outcome)
    requires
        old(market).wf(),
    ensures
        final(market).wf(),
        hook_removed(old(market).listed_hooks@, hook@, final(market).listed_hooks@, r),
        final(market).with_listed_hooks(old(market).listed_hooks) == *old(market),
{
    let r = remove_hook(&mut market.listed_hooks, hook);
    hook_outcome(r)
}

} // verus!
