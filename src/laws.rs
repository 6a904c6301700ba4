//! Properties of the raffle that span several operations, proved over the
//! relations that the operations' contracts state.

use vstd::prelude::*;

use crate::ledger::{free_of, spendable};
use crate::pallet::{
    drawn, due, entered, entry_refusal, is_manager, purchased, sale_end, settled, signer, start,
    start_refusal, started, tick, valid, Event, RaffleView, RoundView,
};
use crate::types::{AccountId, Balance, BlockNumber, CallId, Error, Origin, Ticket};

verus! {

/// A run of operations within one ticket window: step `i` is a sale to
/// `buyers[i]`, made below the largest ticket count, or, where `buyers[i]`
/// is `None`, an operation that leaves the window as it was (a refused
/// operation, a new list of allowed calls, a round started, a hook with
/// nothing due).
pub open spec fn window_run(
    views: Seq<RaffleView>,
    buyers: Seq<Option<(AccountId, CallId)>>,
) -> bool {
    &&& views.len() == buyers.len() + 1
    &&& forall|i: int|
        0 <= i < buyers.len() ==> match #[trigger] buyers[i] {
            Some((who, id)) => views[i].tickets_count < u32::MAX && views[i + 1] == entered(
                views[i],
                who,
                id,
            ),
            None => views[i + 1].tickets_count == views[i].tickets_count && views[i + 1].tickets
                == views[i].tickets,
        }
}

/// The buyers of a run, in the order of their purchases.
pub open spec fn sales(buyers: Seq<Option<(AccountId, CallId)>>) -> Seq<AccountId>
    decreases buyers.len(),
{
    if buyers.len() == 0 {
        Seq::empty()
    } else {
        let earlier = sales(buyers.drop_last());
        match buyers.last() {
            Some((who, _)) => earlier.push(who),
            None => earlier,
        }
    }
}

/// Within a window that starts empty, the ticket count is the number of
/// purchases, and the k-th purchase holds ticket k - 1: numbers are given
/// in order, with no gap and none given twice.
pub proof fn lemma_ticket_numbering(
    views: Seq<RaffleView>,
    buyers: Seq<Option<(AccountId, CallId)>>,
)
    requires
        window_run(views, buyers),
        views[0].tickets_count == 0,
    ensures
        views.last().tickets_count == sales(buyers).len(),
        views.last().tickets_count <= views.last().tickets.len(),
        forall|k: int|
            0 <= k < sales(buyers).len() ==> views.last().tickets[k] == #[trigger] sales(buyers)[k],
    decreases buyers.len(),
{
    if buyers.len() > 0 {
        let n = buyers.len() - 1;
        let earlier_views = views.subrange(0, n + 1);
        let earlier_buyers = buyers.drop_last();
        assert forall|i: int| 0 <= i < earlier_buyers.len() implies match #[trigger] earlier_buyers[i] {
            Some((who, id)) => earlier_views[i].tickets_count < u32::MAX && earlier_views[i + 1]
                == entered(earlier_views[i], who, id),
            None => earlier_views[i + 1].tickets_count == earlier_views[i].tickets_count
                && earlier_views[i + 1].tickets == earlier_views[i].tickets,
        } by {
            assert(buyers[i] == earlier_buyers[i]);
        }
        lemma_ticket_numbering(earlier_views, earlier_buyers);
        assert(earlier_views.last() == views[n]);
        assert(buyers[n] == buyers.last());
    }
}

/// A round settles with no ticket left in the window, whether it ends the
/// raffle or hands back a call that starts the next round; a hook with
/// nothing due leaves the count as it was.
pub proof fn lemma_settlement_resets_count(
    v0: RaffleView,
    v1: RaffleView,
    b0: Map<AccountId, nat>,
    b1: Map<AccountId, nat>,
    minimum: nat,
    n: BlockNumber,
    t: Option<Ticket>,
    r: Result<crate::pallet::TickOutcome, crate::types::LedgerError>,
)
    requires
        tick(v0, v1, b0, b1, minimum, n, t, r),
    ensures
        due(v0, n) && r is Ok ==> v1.tickets_count == 0 && v1.round is None,
        !due(v0, n) ==> v1.tickets_count == v0.tickets_count,
{
}

/// Within a round, an account that bought a ticket with a call cannot buy a
/// second one with a call of the same identifier, whatever tickets were
/// bought in between (`others`, in order): while the round still sells
/// tickets, the second purchase is refused as already participating.
pub proof fn lemma_no_second_entry(
    v: RaffleView,
    who: AccountId,
    id: CallId,
    now: BlockNumber,
    others: Seq<(AccountId, CallId)>,
    later: BlockNumber,
)
    requires
        valid(v),
        entry_refusal(v, who, id, now) is None,
    ensures
        ({
            let after = entered(v, who, id);
            let v2 = others.fold_left(after, |w: RaffleView, e: (AccountId, CallId)| entered(w, e.0, e.1));
            purchased(v2, who).contains(id) && (later < sale_end(v2.round.unwrap())
                && v2.tickets_count < u32::MAX ==> entry_refusal(v2, who, id, later) == Some(
                Error::AlreadyParticipating,
            ))
        }),
{
    let after = entered(v, who, id);
    assert(purchased(after, who).last() == id);
    assert(purchased(after, who).contains(id));
    lemma_entries_kept(after, who, id, others);
}

/// Purchases by anyone keep, within the round, the entries of `who`.
proof fn lemma_entries_kept(v: RaffleView, who: AccountId, id: CallId, others: Seq<(AccountId, CallId)>)
    requires
        purchased(v, who).contains(id),
        v.round is Some,
    ensures
        ({
            let v2 = others.fold_left(v, |w: RaffleView, e: (AccountId, CallId)| entered(w, e.0, e.1));
            &&& purchased(v2, who).contains(id)
            &&& v2.round == v.round
            &&& v2.index == v.index
        }),
    decreases others.len(),
{
    if others.len() > 0 {
        let f = |w: RaffleView, e: (AccountId, CallId)| entered(w, e.0, e.1);
        let rest = others.drop_last();
        lemma_entries_kept(v, who, id, rest);
        let w = rest.fold_left(v, f);
        let e = others.last();
        let w2 = entered(w, e.0, e.1);
        if e.0 == who {
            let j = choose|j: int| 0 <= j < purchased(w, who).len() && purchased(w, who)[j] == id;
            assert(purchased(w2, who)[j] == id);
        } else {
            assert(purchased(w2, who) == purchased(w, who));
        }
        assert(others.drop_last() == rest);
    }
}

/// Once a new round has started, an account's entries from earlier rounds
/// no longer count: a call it played before buys a ticket again, as long as
/// the round sells tickets and the window is not full. The ledger may still
/// refuse the payment.
pub proof fn lemma_new_round_admits(
    v: RaffleView,
    v1: RaffleView,
    b0: Map<AccountId, nat>,
    b1: Map<AccountId, nat>,
    minimum: nat,
    origin: Origin,
    price: Balance,
    length: BlockNumber,
    delay: BlockNumber,
    next_raffle_call: Option<Seq<u8>>,
    start_block: BlockNumber,
    who: AccountId,
    id: CallId,
    now: BlockNumber,
)
    requires
        valid(v),
        start(v, v1, b0, b1, minimum, origin, price, length, delay, next_raffle_call, start_block, Ok(())),
        now < sale_end(v1.round.unwrap()),
        v1.tickets_count < u32::MAX,
        v1.config.max_calls > 0,
    ensures
        purchased(v1, who) == Seq::<CallId>::empty(),
        entry_refusal(v1, who, id, now) is None,
{
    assert(start_refusal(v, origin) is None);
    if v.participants.contains_key(who) {
        assert(v.participants[who].0 <= v.index);
    }
}

/// Starting a round while one is in progress is refused, and changes
/// neither the raffle nor the ledger; for an origin that may start rounds,
/// the refusal is that a round is already active.
pub proof fn lemma_start_while_active(
    v0: RaffleView,
    v1: RaffleView,
    b0: Map<AccountId, nat>,
    b1: Map<AccountId, nat>,
    minimum: nat,
    origin: Origin,
    price: Balance,
    length: BlockNumber,
    delay: BlockNumber,
    next_raffle_call: Option<Seq<u8>>,
    now: BlockNumber,
    r: Result<(), Error>,
)
    requires
        v0.round is Some,
        start(v0, v1, b0, b1, minimum, origin, price, length, delay, next_raffle_call, now, r),
    ensures
        r is Err,
        v1 == v0,
        b1 == b0,
        is_manager(v0.config, origin) && signer(origin) is Some ==> r == Err::<(), Error>(
            Error::AlreadyActive,
        ),
{
}

/// A settlement that pays a winner other than the pot account moves the
/// whole pot: the pot afterwards is the pot before less the payout, and the
/// winner's balance grows by exactly the pot before.
pub proof fn lemma_payout_moves_pot(
    v0: RaffleView,
    v1: RaffleView,
    b0: Map<AccountId, nat>,
    b1: Map<AccountId, nat>,
    minimum: nat,
    n: BlockNumber,
    t: Option<Ticket>,
    r: Result<crate::pallet::TickOutcome, crate::types::LedgerError>,
)
    requires
        valid(v0),
        due(v0, n),
        t is Some,
        drawn(t, v0.tickets_count),
        tick(v0, v1, b0, b1, minimum, n, t, r),
        r is Ok,
        v0.tickets[t.unwrap() as int] != v0.pot_account,
    ensures
        ({
            let winner = v0.tickets[t.unwrap() as int];
            let pot_before = spendable(b0, v0.pot_account, minimum);
            let payout = pot_before;
            &&& spendable(b1, v0.pot_account, minimum) == pot_before - payout
            &&& free_of(b1, winner) == free_of(b0, winner) + pot_before
            &&& v1.events.last() == Event::Winner { winner, raffle_balance: payout as Balance }
        }),
{
}

/// A settlement that hands back the round's call, followed by the runtime
/// running it as a start with the round's parameters on behalf of the
/// round's manager, leaves a new round in progress from block `n`, with the
/// round index one higher and no ticket in the window.
pub proof fn lemma_repeat_starts_next_round(
    v0: RaffleView,
    v1: RaffleView,
    v2: RaffleView,
    b0: Map<AccountId, nat>,
    b1: Map<AccountId, nat>,
    b2: Map<AccountId, nat>,
    minimum: nat,
    n: BlockNumber,
    t: Option<Ticket>,
    r: Result<crate::pallet::TickOutcome, crate::types::LedgerError>,
    r2: Result<(), Error>,
)
    requires
        due(v0, n),
        tick(v0, v1, b0, b1, minimum, n, t, r),
        r is Ok,
        v0.round.unwrap().next_raffle_call is Some,
        v0.round.unwrap().manager == v0.config.manager,
        v0.index < u32::MAX,
        start(
            v1,
            v2,
            b1,
            b2,
            minimum,
            Origin::Signed(v0.round.unwrap().manager),
            v0.round.unwrap().price,
            v0.round.unwrap().length,
            v0.round.unwrap().delay,
            v0.round.unwrap().next_raffle_call,
            n,
            r2,
        ),
    ensures
        ({
            let c = v0.round.unwrap();
            &&& r2 == Ok::<(), Error>(())
            &&& r matches Ok(crate::pallet::TickOutcome::Repeat { manager, call }) && manager
                == c.manager && call@ == c.next_raffle_call.unwrap()
            &&& v2.round == Some(
                RoundView {
                    price: c.price,
                    start: n,
                    length: c.length,
                    delay: c.delay,
                    manager: c.manager,
                    next_raffle_call: c.next_raffle_call,
                },
            )
            &&& v2.index == v0.index + 1
            &&& v2.tickets_count == 0
        }),
{
}

} // verus!
