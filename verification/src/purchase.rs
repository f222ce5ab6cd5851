//! Purchase engine: converts an external-currency payment into minted
//! tokens at the configured unit price, subject to the supply cap.

use vstd::prelude::*;

use crate::state::GameError;
use crate::state::GameState;
use crate::state::TokensPurchased;
use crate::state::AccountId;
use crate::state::TOKEN_SCALE;

verus! {

/// Token subunits a payment of `amount` minor units buys at `price`
/// minor units per whole token. The division truncates; repeated tiny
/// purchases lose the remainder to rounding by design.
pub open spec fn tokens_for_payment(amount: int, price: int) -> int {
    amount * TOKEN_SCALE / price
}

/// Whether a purchase of `amount` fits under the supply cap of `s`.
pub open spec fn purchase_fits(s: GameState, amount: u64) -> bool {
    s.total_supply + tokens_for_payment(amount as int, s.token_price as int) <= s.max_supply
}

/// Converts a payment into freshly minted tokens for `buyer`.
///
/// On success the running supply grows by exactly the computed mint
/// and the returned notification doubles as the order handed to the
/// issuance service: mint `amount` subunits to `buyer`, at a recorded
/// cost of the payment. When the mint would push the supply past the
/// cap, the purchase fails with `ExceedsMaxSupply` and nothing
/// changes; no partial mint occurs. A zero payment is not rejected
/// here: it mints zero tokens and succeeds.
pub fn purchase_tokens(state: &mut GameState, buyer: AccountId, amount: u64) -> (r: Result<
    TokensPurchased,
    GameError,
>)
    requires
        old(state).wf(),
        amount * TOKEN_SCALE <= u64::MAX,
    ensures
        final(state).wf(),
        final(state).authority == old(state).authority,
        final(state).token_price == old(state).token_price,
        final(state).max_supply == old(state).max_supply,
        r is Ok <==> purchase_fits(*old(state), amount),
        r is Ok ==> final(state).total_supply == old(state).total_supply + tokens_for_payment(
            amount as int,
            old(state).token_price as int,
        ),
        r is Ok ==> r->Ok_0 == (TokensPurchased {
            buyer,
            amount: tokens_for_payment(amount as int, old(state).token_price as int) as u64,
            cost: amount,
        }),
        r is Err ==> *final(state) == *old(state) && r->Err_0 == GameError::ExceedsMaxSupply,
{
    let tokens_to_mint: u64 = (amount * TOKEN_SCALE) / state.token_price;
    if tokens_to_mint > state.max_supply - state.total_supply {
        return Err(GameError::ExceedsMaxSupply);
    }
    state.total_supply = state.total_supply + tokens_to_mint;
    Ok(TokensPurchased { buyer, amount: tokens_to_mint, cost: amount })
}

/// A purchase that fits under the cap leaves the supply within the cap:
/// the grown supply is exactly the old supply plus the computed mint,
/// and still at most `max_supply`.
pub proof fn lemma_purchase_keeps_cap(s: GameState, amount: u64)
    requires
        s.wf(),
        purchase_fits(s, amount),
    ensures
        s.total_supply + tokens_for_payment(amount as int, s.token_price as int)
            <= s.max_supply,
        tokens_for_payment(amount as int, s.token_price as int) >= 0,
{
    vstd::arithmetic::div_mod::lemma_div_pos_is_pos(amount * TOKEN_SCALE, s.token_price as int);
}

} // verus!
