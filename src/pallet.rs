//! The raffle controller: rounds, ticket sales, settlement and the allowed
//! calls.

use std::collections::HashMap;
use vstd::prelude::*;

use crate::host::{
    decode_u32, encode_subject, le_u32, random_subject, DispatchError, Dispatcher, Randomness,
};
use crate::ledger::{free_of, moved, spendable, topped_up, Currency};
use crate::types::{
    call_id, fingerprint, same_call_id, AccountId, Balance, BlockNumber, CallId, Error, LedgerError,
    Origin, Ticket,
};
use crate::validate::ValidateCall;

verus! {

broadcast use vstd::std_specs::hash::group_hash_axioms;

/// Settings fixed when the raffle is set up.
#[derive(Clone, Copy, Debug, PartialEq, Eq)]
pub struct Config {
    /// The raffle's identifier, from which its pot account is derived.
    pub pallet_id: [u8; 8],
    /// How many calls the allowed list, and one account's entries in a round,
    /// may hold.
    pub max_calls: u32,
    /// How many draws a fairer winner selection could spend. The draw takes
    /// one random number and does not use it.
    pub max_generate_random: u32,
    /// The account that, besides the root origin, may manage the raffle.
    pub manager: AccountId,
}

/// The round in progress.
#[derive(Clone, Debug, PartialEq, Eq)]
pub struct RaffleConfig {
    /// Price of one ticket.
    pub price: Balance,
    /// Block at which the round started.
    pub start: BlockNumber,
    /// Blocks during which tickets are sold, from `start`.
    pub length: BlockNumber,
    /// Blocks between the end of the sale and the draw.
    pub delay: BlockNumber,
    /// The account that started the round.
    pub manager: AccountId,
    /// The encoded call to run, on behalf of `manager`, when the round is
    /// settled.
    pub next_raffle_call: Option<Vec<u8>>,
}

/// The mathematical value of a round; the fields are those of
/// [`RaffleConfig`].
pub struct RoundView {
    pub price: Balance,
    pub start: BlockNumber,
    pub length: BlockNumber,
    pub delay: BlockNumber,
    pub manager: AccountId,
    pub next_raffle_call: Option<Seq<u8>>,
}

impl RaffleConfig {
    /// The mathematical value of the round.
    pub open spec fn round(&self) -> RoundView {
        RoundView {
            price: self.price,
            start: self.start,
            length: self.length,
            delay: self.delay,
            manager: self.manager,
            next_raffle_call: match self.next_raffle_call {
                Some(c) => Some(c@),
                None => None,
            },
        }
    }
}

/// What the raffle reports of its work.
#[derive(Clone, Copy, Debug, PartialEq, Eq)]
pub enum Event {
    /// A round has started.
    RaffleStarted,
    /// The allowed calls have been replaced.
    CallsUpdated,
    /// The holder of the drawn ticket received the pot.
    Winner { winner: AccountId, raffle_balance: Balance },
    /// An account bought a ticket.
    TicketBought { who: AccountId },
}

/// What a block's hook did.
#[derive(Clone, Debug, PartialEq, Eq)]
pub enum TickOutcome {
    /// No round was due for settlement.
    Idle,
    /// The round was settled and the raffle is now inactive.
    Ended,
    /// The round was settled and the raffle is inactive; the runtime must now
    /// run `call` on behalf of `manager`, which starts the next round. That
    /// call failing leaves the raffle broken and must halt the runtime.
    Repeat { manager: AccountId, call: Vec<u8> },
}

/// An account's entries: the round they belong to and the identifiers of
/// the calls it played in that round.
struct Participant {
    round_index: u32,
    calls: Vec<CallId>,
}

/// The mathematical value of the raffle's state.
pub struct RaffleView {
    /// The settings the raffle was set up with.
    pub config: Config,
    /// The account that holds the pot.
    pub pot_account: AccountId,
    /// How many rounds were started.
    pub index: u32,
    /// The round in progress, if any.
    pub round: Option<RoundView>,
    /// Each account's last entries: the round index and the call identifiers.
    pub participants: Map<AccountId, (u32, Seq<CallId>)>,
    /// Tickets sold in the current window.
    pub tickets_count: Ticket,
    /// Ticket owners, by ticket number; entries from `tickets_count` on are
    /// left over from earlier windows.
    pub tickets: Seq<AccountId>,
    /// Identifiers of the calls that the allow-list policy accepts.
    pub allowed: Seq<CallId>,
    /// Everything reported so far, oldest first.
    pub events: Seq<Event>,
}

/// The account that a raffle identifier owns: the bytes `modl` followed by
/// the identifier, read as a little-endian integer.
pub open spec fn account_of(id: Seq<u8>) -> int {
    0x6c64_6f6d + 0x1_0000_0000 * id[0] + 0x100_0000_0000 * id[1] + 0x1_0000_0000_0000 * id[2]
        + 0x100_0000_0000_0000 * id[3]
}

/// Derives the pot account from the raffle identifier.
pub fn derive_account(pallet_id: &[u8; 8]) -> (r: AccountId)
    ensures
        r as int == account_of(pallet_id@),
{
    0x6c64_6f6d + 0x1_0000_0000 * (pallet_id[0] as u64) + 0x100_0000_0000 * (pallet_id[1] as u64)
        + 0x1_0000_0000_0000 * (pallet_id[2] as u64) + 0x100_0000_0000_0000 * (
    pallet_id[3] as u64)
}

/// The state invariant.
pub open spec fn valid(v: RaffleView) -> bool {
    &&& v.tickets_count <= v.tickets.len()
    &&& v.pot_account as int == account_of(v.config.pallet_id@)
    &&& forall|a: AccountId| #[trigger]
        v.participants.contains_key(a) ==> v.participants[a].0 <= v.index
}

/// The state of a raffle that was just set up.
pub open spec fn initial(config: Config) -> RaffleView {
    RaffleView {
        config,
        pot_account: account_of(config.pallet_id@) as AccountId,
        index: 0,
        round: None,
        participants: Map::empty(),
        tickets_count: 0,
        tickets: Seq::empty(),
        allowed: Seq::empty(),
        events: Seq::empty(),
    }
}

/// `a + b`, or the largest block number where that does not fit.
pub open spec fn sat_add(a: BlockNumber, b: BlockNumber) -> BlockNumber {
    if a + b > u64::MAX {
        u64::MAX
    } else {
        (a + b) as BlockNumber
    }
}

/// The block from which a round is settled.
pub open spec fn payout_block(round: RoundView) -> BlockNumber {
    sat_add(sat_add(round.start, round.length), round.delay)
}

/// Whether a round is due for settlement at block `n`.
pub open spec fn due(v: RaffleView, n: BlockNumber) -> bool {
    v.round matches Some(round) && payout_block(round) <= n
}

/// Whether `t` can be the ticket drawn among `total`: none when no ticket
/// was sold, else one of them.
pub open spec fn drawn(t: Option<Ticket>, total: Ticket) -> bool {
    if total == 0 {
        t is None
    } else {
        t matches Some(k) && k < total
    }
}

/// The state after a settlement: no tickets in the window and no round.
pub open spec fn settled(v: RaffleView) -> RaffleView {
    RaffleView { tickets_count: 0, round: None, ..v }
}

/// Whether the hook's outcome is the one that ends `round`.
pub open spec fn ends_as(o: TickOutcome, round: RoundView) -> bool {
    match round.next_raffle_call {
        None => o is Ended,
        Some(c) => o matches TickOutcome::Repeat { manager, call } && manager == round.manager
            && call@ == c,
    }
}

/// A settlement of the due round in `v0` with ticket `t` drawn, from
/// balances `b0` to balances `b1`. The pot goes to the owner of the drawn
/// ticket; a refused payout changes nothing.
pub open spec fn settlement(
    v0: RaffleView,
    v1: RaffleView,
    b0: Map<AccountId, nat>,
    b1: Map<AccountId, nat>,
    minimum: nat,
    t: Option<Ticket>,
    r: Result<TickOutcome, LedgerError>,
) -> bool {
    let round = v0.round.unwrap();
    let amount = spendable(b0, v0.pot_account, minimum);
    match t {
        None => b1 == b0 && v1 == settled(v0) && (r matches Ok(o) && ends_as(o, round)),
        Some(k) => {
            let winner = v0.tickets[k as int];
            match r {
                Ok(o) => {
                    &&& ends_as(o, round)
                    &&& b1 == moved(b0, v0.pot_account, winner, amount)
                    &&& v1 == settled(
                        RaffleView {
                            events: v0.events.push(
                                Event::Winner { winner, raffle_balance: amount as Balance },
                            ),
                            ..v0
                        },
                    )
                },
                Err(_) => b1 == b0 && v1 == v0,
            }
        },
    }
}

/// What a block's hook does at block `n`: settle the round if it is due,
/// else nothing.
pub open spec fn tick(
    v0: RaffleView,
    v1: RaffleView,
    b0: Map<AccountId, nat>,
    b1: Map<AccountId, nat>,
    minimum: nat,
    n: BlockNumber,
    t: Option<Ticket>,
    r: Result<TickOutcome, LedgerError>,
) -> bool {
    if due(v0, n) {
        settlement(v0, v1, b0, b1, minimum, t, r)
    } else {
        r == Ok::<TickOutcome, LedgerError>(TickOutcome::Idle) && v1 == v0 && b1 == b0
    }
}

/// Whether `origin` may manage the raffle: the root origin or the manager.
pub open spec fn is_manager(config: Config, origin: Origin) -> bool {
    match origin {
        Origin::Root => true,
        Origin::Signed(who) => who == config.manager,
    }
}

/// The account that signed `origin`, if one did.
pub open spec fn signer(origin: Origin) -> Option<AccountId> {
    match origin {
        Origin::Root => None,
        Origin::Signed(who) => Some(who),
    }
}

/// Why starting a round is refused, if it is.
pub open spec fn start_refusal(v: RaffleView, origin: Origin) -> Option<Error> {
    if !is_manager(v.config, origin) || signer(origin) is None {
        Some(Error::BadOrigin)
    } else if v.round is Some {
        Some(Error::AlreadyActive)
    } else if v.index == u32::MAX {
        Some(Error::Overflow)
    } else {
        None
    }
}

/// The state after `who` started a round at block `now`.
pub open spec fn started(
    v: RaffleView,
    who: AccountId,
    price: Balance,
    length: BlockNumber,
    delay: BlockNumber,
    next_raffle_call: Option<Seq<u8>>,
    now: BlockNumber,
) -> RaffleView {
    RaffleView {
        index: (v.index + 1) as u32,
        round: Some(
            RoundView { price, start: now, length, delay, manager: who, next_raffle_call },
        ),
        events: v.events.push(Event::RaffleStarted),
        ..v
    }
}

/// What starting a round does: on success the round is stored, the round
/// index grows by one and the pot account is credited the minimum balance
/// if it held nothing; a refusal changes nothing.
pub open spec fn start(
    v0: RaffleView,
    v1: RaffleView,
    b0: Map<AccountId, nat>,
    b1: Map<AccountId, nat>,
    minimum: nat,
    origin: Origin,
    price: Balance,
    length: BlockNumber,
    delay: BlockNumber,
    next_raffle_call: Option<Seq<u8>>,
    now: BlockNumber,
    r: Result<(), Error>,
) -> bool {
    match start_refusal(v0, origin) {
        Some(e) => r == Err::<(), Error>(e) && v1 == v0 && b1 == b0,
        None => {
            &&& r == Ok::<(), Error>(())
            &&& v1 == started(v0, signer(origin).unwrap(), price, length, delay, next_raffle_call, now)
            &&& b1 == topped_up(b0, v0.pot_account, minimum)
        },
    }
}

/// Why replacing the allowed calls with `calls` is refused, if it is.
pub open spec fn calls_refusal(v: RaffleView, origin: Origin, calls: Seq<Seq<u8>>) -> Option<Error> {
    if !is_manager(v.config, origin) {
        Some(Error::BadOrigin)
    } else if calls.len() > v.config.max_calls {
        Some(Error::TooManyCalls)
    } else if exists|i: int| 0 <= i < calls.len() && #[trigger] calls[i].len() < 2 {
        Some(Error::EncodingFailed)
    } else {
        None
    }
}

/// The state after the allowed calls were replaced with `calls`.
pub open spec fn calls_set(v: RaffleView, calls: Seq<Seq<u8>>) -> RaffleView {
    RaffleView {
        allowed: calls.map_values(|c: Seq<u8>| fingerprint(c)),
        events: v.events.push(Event::CallsUpdated),
        ..v
    }
}

/// The block from which a round sells no more tickets.
pub open spec fn sale_end(round: RoundView) -> BlockNumber {
    sat_add(round.start, round.length)
}

/// The identifiers of the calls that `who` played in the current round.
/// Entries stamped with an earlier round count as none.
pub open spec fn purchased(v: RaffleView, who: AccountId) -> Seq<CallId> {
    if v.participants.contains_key(who) && v.participants[who].0 == v.index {
        v.participants[who].1
    } else {
        Seq::empty()
    }
}

/// Why `who` may not buy a ticket with the call identified by `id` at block
/// `now`, if it may not. The ledger may still refuse the payment.
pub open spec fn entry_refusal(v: RaffleView, who: AccountId, id: CallId, now: BlockNumber) -> Option<
    Error,
> {
    match v.round {
        None => Some(Error::NotConfigured),
        Some(round) => if now >= sale_end(round) {
            Some(Error::AlreadyEnded)
        } else if v.tickets_count == u32::MAX {
            Some(Error::Overflow)
        } else if purchased(v, who).contains(id) {
            Some(Error::AlreadyParticipating)
        } else if purchased(v, who).len() >= v.config.max_calls {
            Some(Error::TooManyCalls)
        } else {
            None
        },
    }
}

/// The ticket registry with ticket `k` given to `who`.
pub open spec fn assign(tickets: Seq<AccountId>, k: Ticket, who: AccountId) -> Seq<AccountId> {
    if k < tickets.len() {
        tickets.update(k as int, who)
    } else {
        tickets.push(who)
    }
}

/// The state after `who` bought the next ticket with the call identified by
/// `id`.
pub open spec fn entered(v: RaffleView, who: AccountId, id: CallId) -> RaffleView {
    RaffleView {
        participants: v.participants.insert(who, (v.index, purchased(v, who).push(id))),
        tickets_count: (v.tickets_count + 1) as Ticket,
        tickets: assign(v.tickets, v.tickets_count, who),
        events: v.events.push(Event::TicketBought { who }),
        ..v
    }
}

/// What buying a ticket does once the played call has run: on success the
/// price moves from `who`, which held it and keeps at least the minimum
/// balance, to the pot, and `who` owns the next ticket; a refusal, by the
/// raffle or by the ledger, changes nothing.
pub open spec fn entry(
    v0: RaffleView,
    v1: RaffleView,
    b0: Map<AccountId, nat>,
    b1: Map<AccountId, nat>,
    minimum: nat,
    who: AccountId,
    id: CallId,
    now: BlockNumber,
    r: Result<(), Error>,
) -> bool {
    match entry_refusal(v0, who, id, now) {
        Some(e) => r == Err::<(), Error>(e) && v1 == v0 && b1 == b0,
        None => match r {
            Ok(()) => {
                let price = v0.round.unwrap().price as nat;
                &&& v1 == entered(v0, who, id)
                &&& b1 == moved(b0, who, v0.pot_account, price)
                &&& who != v0.pot_account ==> free_of(b0, who) >= price
                &&& who != v0.pot_account && price > 0 ==> free_of(b0, who) - price >= minimum
            },
            Err(e) => e is Funds && v1 == v0 && b1 == b0,
        },
    }
}

/// Whether `r` reports that the played call itself did not run through.
pub open spec fn dispatch_failed(r: Result<(), Error>) -> bool {
    r == Err::<(), Error>(Error::UndecodableCall) || r matches Err(Error::Dispatch(_))
}

/// The random number that `beacon` holds for the raffle identified by `id`
/// and the seed `seed`.
pub open spec fn beacon_number<R: Randomness>(beacon: &R, id: Seq<u8>, seed: u32) -> u32 {
    le_u32(beacon.material(random_subject(id, seed))) as u32
}

/// The ticket that a random number `draw` selects among `total`.
pub open spec fn ticket_of(total: Ticket, draw: u32) -> Option<Ticket> {
    if total == 0 {
        None
    } else {
        Some((draw % total) as Ticket)
    }
}

/// Selects a ticket among `total` from the random number `draw`. The
/// remainder of a single draw: for a `total` that is not a power of two,
/// low ticket numbers are slightly favoured.
pub fn winning_ticket(total: Ticket, draw: u32) -> (r: Option<Ticket>)
    ensures
        r == ticket_of(total, draw),
        drawn(r, total),
{
    if total == 0 {
        return None;
    }
    Some(draw % total)
}

/// The raffle controller, with the policy `P` that decides which calls buy
/// a ticket.
pub struct Pallet<P> {
    config: Config,
    policy: P,
    pot_account: AccountId,
    raffle_index: u32,
    raffle: Option<RaffleConfig>,
    participants: HashMap<AccountId, Participant>,
    tickets_count: Ticket,
    tickets: Vec<AccountId>,
    call_indices: Vec<CallId>,
    events: Vec<Event>,
}

impl<P> View for Pallet<P> {
    type V = RaffleView;

    closed spec fn view(&self) -> RaffleView {
        RaffleView {
            config: self.config,
            pot_account: self.pot_account,
            index: self.raffle_index,
            round: match self.raffle {
                Some(c) => Some(c.round()),
                None => None,
            },
            participants: self.participants@.map_values(
                |p: Participant| (p.round_index, p.calls@),
            ),
            tickets_count: self.tickets_count,
            tickets: self.tickets@,
            allowed: self.call_indices@,
            events: self.events@,
        }
    }
}

impl<P: ValidateCall> Pallet<P> {
    /// The policy that decides which calls buy a ticket.
    pub closed spec fn policy(&self) -> P {
        self.policy
    }

    /// The state invariant.
    pub open spec fn wf(&self) -> bool {
        valid(self@)
    }

    /// A raffle with no round, no allowed call and no ticket.
    pub fn new(config: Config, policy: P) -> (r: Self)
        ensures
            r.wf(),
            r@ == initial(config),
            r.policy() == policy,
    {
        let pot_account = derive_account(&config.pallet_id);
        let r = Pallet {
            config,
            policy,
            pot_account,
            raffle_index: 0,
            raffle: None,
            participants: HashMap::new(),
            tickets_count: 0,
            tickets: Vec::new(),
            call_indices: Vec::new(),
            events: Vec::new(),
        };
        assert(r@.participants =~= Map::empty());
        r
    }

    /// The account that holds the pot.
    pub fn account_id(&self) -> (r: AccountId)
        requires
            self.wf(),
        ensures
            r == self@.pot_account,
            r as int == account_of(self@.config.pallet_id@),
    {
        self.pot_account
    }

    /// How many rounds were started.
    pub fn raffle_index(&self) -> (r: u32)
        ensures
            r == self@.index,
    {
        self.raffle_index
    }

    /// The round in progress, if any.
    pub fn raffle(&self) -> (r: Option<&RaffleConfig>)
        ensures
            match r {
                Some(c) => self@.round == Some(c.round()),
                None => self@.round is None,
            },
    {
        self.raffle.as_ref()
    }

    /// How many tickets the current window has sold.
    pub fn tickets_count(&self) -> (r: Ticket)
        ensures
            r == self@.tickets_count,
    {
        self.tickets_count
    }

    /// The owner of ticket `ticket` in the current window; `None` for a
    /// number that the window has not sold.
    pub fn tickets(&self, ticket: Ticket) -> (r: Option<AccountId>)
        requires
            self.wf(),
        ensures
            r == (if ticket < self@.tickets_count {
                Some(self@.tickets[ticket as int])
            } else {
                None::<AccountId>
            }),
    {
        if ticket < self.tickets_count {
            Some(self.tickets[ticket as usize])
        } else {
            None
        }
    }

    /// The record kept for `who`: the round it was stamped with and the
    /// identifiers of the calls played in that round; `(0, [])` for an
    /// account that never bought a ticket.
    pub fn participants(&self, who: AccountId) -> (r: (u32, Vec<CallId>))
        ensures
            self@.participants.contains_key(who) ==> r.0 == self@.participants[who].0 && r.1@
                == self@.participants[who].1,
            !self@.participants.contains_key(who) ==> r.0 == 0 && r.1@ == Seq::<CallId>::empty(),
    {
        let mut calls: Vec<CallId> = Vec::new();
        match self.participants.get(&who) {
            Some(participant) => {
                let mut i: usize = 0;
                while i < participant.calls.len()
                    invariant
                        i <= participant.calls@.len(),
                        calls@ == participant.calls@.subrange(0, i as int),
                    decreases participant.calls@.len() - i,
                {
                    calls.push(participant.calls[i]);
                    i = i + 1;
                }
                assert(calls@ == participant.calls@);
                (participant.round_index, calls)
            },
            None => (0, calls),
        }
    }

    /// The identifiers of the calls that the allow-list policy accepts.
    pub fn call_indices(&self) -> (r: &Vec<CallId>)
        ensures
            r@ == self@.allowed,
    {
        &self.call_indices
    }

    /// Everything the raffle reported, oldest first.
    pub fn events(&self) -> (r: &Vec<Event>)
        ensures
            r@ == self@.events,
    {
        &self.events
    }

    /// The settings the raffle was set up with.
    pub fn config(&self) -> (r: Config)
        ensures
            r == self@.config,
    {
        self.config
    }

    /// The pot account and the funds in it beyond the minimum balance, which
    /// stays so that the account is never removed.
    pub fn pot<L: Currency>(&self, ledger: &L) -> (r: (AccountId, Balance))
        ensures
            r.0 == self@.pot_account,
            r.1 as nat == spendable(ledger.balances(), self@.pot_account, ledger.existential_deposit()),
    {
        let account_id = self.pot_account;
        let balance = ledger.free_balance(account_id).saturating_sub(ledger.minimum_balance());
        (account_id, balance)
    }

    /// Draws a random number for `seed` from the current block's randomness:
    /// the first four bytes, little-endian, of the material for the raffle's
    /// identifier followed by the seed.
    pub fn generate_random_number<R: Randomness>(&self, beacon: &R, seed: u32) -> (r: u32)
        ensures
            r as int == le_u32(beacon.material(random_subject(self@.config.pallet_id@, seed))),
            r == beacon_number(beacon, self@.config.pallet_id@, seed),
    {
        let subject = encode_subject(&self.config.pallet_id, seed);
        let random_seed = beacon.random(&subject);
        decode_u32(&random_seed)
    }

    /// Draws one of `total` tickets, or none when `total` is zero: one random
    /// number, for seed 0, taken modulo `total`.
    pub fn choose_ticket<R: Randomness>(&self, beacon: &R, total: Ticket) -> (r: Option<Ticket>)
        ensures
            r == ticket_of(total, beacon_number(beacon, self@.config.pallet_id@, 0)),
            drawn(r, total),
            total == 0 ==> r is None,
            total > 0 ==> (r matches Some(t) && t < total),
    {
        if total == 0 {
            return None;
        }
        let random_number = self.generate_random_number(beacon, 0);
        winning_ticket(total, random_number)
    }

    /// The identifiers of the calls that `who` played in the current round,
    /// or `None` where `id` is among them. A record from an earlier round
    /// counts as no entry.
    fn entries_without(&self, who: AccountId, id: CallId) -> (r: Option<Vec<CallId>>)
        ensures
            match r {
                Some(calls) => calls@ == purchased(self@, who) && !purchased(self@, who).contains(
                    id,
                ),
                None => purchased(self@, who).contains(id),
            },
    {
        let mut calls: Vec<CallId> = Vec::new();
        match self.participants.get(&who) {
            Some(participant) => {
                if participant.round_index == self.raffle_index {
                    assert(purchased(self@, who) == participant.calls@);
                    let mut i: usize = 0;
                    while i < participant.calls.len()
                        invariant
                            purchased(self@, who) == participant.calls@,
                            i <= participant.calls@.len(),
                            calls@ == participant.calls@.subrange(0, i as int),
                            forall|j: int| 0 <= j < i ==> participant.calls@[j] != id,
                        decreases participant.calls@.len() - i,
                    {
                        let c = participant.calls[i];
                        if same_call_id(c, id) {
                            assert(purchased(self@, who)[i as int] == id);
                            return None;
                        }
                        calls.push(c);
                        i = i + 1;
                    }
                    assert(calls@ == purchased(self@, who));
                }
            },
            None => {},
        }
        Some(calls)
    }

    /// Sells `caller` the next ticket for the call identified by `id`, at
    /// block `now`, once the played call has run.
    fn enter_raffle<L: Currency>(
        &mut self,
        ledger: &mut L,
        caller: AccountId,
        id: CallId,
        now: BlockNumber,
    ) -> (r: Result<(), Error>)
        requires
            old(self).wf(),
        ensures
            final(self).wf(),
            final(self).policy() == old(self).policy(),
            final(ledger).existential_deposit() == old(ledger).existential_deposit(),
            entry(
                old(self)@,
                final(self)@,
                old(ledger).balances(),
                final(ledger).balances(),
                old(ledger).existential_deposit(),
                caller,
                id,
                now,
                r,
            ),
    {
        let price = match &self.raffle {
            None => return Err(Error::NotConfigured),
            Some(config) => {
                if now >= config.start.saturating_add(config.length) {
                    return Err(Error::AlreadyEnded);
                }
                config.price
            },
        };
        if self.tickets_count == u32::MAX {
            return Err(Error::Overflow);
        }
        let index = self.raffle_index;
        let mut calls = match self.entries_without(caller, id) {
            Some(calls) => calls,
            None => return Err(Error::AlreadyParticipating),
        };
        if calls.len() >= self.config.max_calls as usize {
            return Err(Error::TooManyCalls);
        }
        calls.push(id);
        match ledger.transfer_keep_alive(caller, self.pot_account, price) {
            Ok(()) => {},
            Err(e) => return Err(Error::Funds(e)),
        }
        let ghost before = self@;
        let ticket = self.tickets_count;
        if (ticket as usize) < self.tickets.len() {
            self.tickets.set(ticket as usize, caller);
        } else {
            self.tickets.push(caller);
        }
        self.tickets_count = ticket + 1;
        self.participants.insert(caller, Participant { round_index: index, calls });
        self.events.push(Event::TicketBought { who: caller });
        assert(self@.participants =~= entered(before, caller, id).participants);
        assert(self@ == entered(before, caller, id));
        Ok(())
    }

    /// Plays `encoded_call` on behalf of `origin` and, if it ran through,
    /// sells the caller a ticket for it at block `now`. The call must be one
    /// that the policy accepts; what it did stays done even where no ticket
    /// is sold.
    pub fn play<L: Currency, D: Dispatcher>(
        &mut self,
        ledger: &mut L,
        runtime: &mut D,
        origin: Origin,
        encoded_call: Vec<u8>,
        now: BlockNumber,
    ) -> (r: Result<(), Error>)
        requires
            old(self).wf(),
        ensures
            final(self).wf(),
            final(self).policy() == old(self).policy(),
            final(ledger).existential_deposit() == old(ledger).existential_deposit(),
            signer(origin) is None ==> {
                &&& r == Err::<(), Error>(Error::BadOrigin)
                &&& final(self)@ == old(self)@
                &&& final(ledger).balances() == old(ledger).balances()
                &&& *final(runtime) == *old(runtime)
            },
            signer(origin) is Some && !old(self).policy().accepts(encoded_call@, old(self)@.allowed)
                ==> {
                &&& r == Err::<(), Error>(Error::InvalidCall)
                &&& final(self)@ == old(self)@
                &&& final(ledger).balances() == old(ledger).balances()
                &&& *final(runtime) == *old(runtime)
            },
            signer(origin) is Some && old(self).policy().accepts(encoded_call@, old(self)@.allowed)
                ==> encoded_call@.len() >= 2 && if dispatch_failed(r) {
                final(self)@ == old(self)@ && final(ledger).balances() == old(ledger).balances()
            } else {
                entry(
                    old(self)@,
                    final(self)@,
                    old(ledger).balances(),
                    final(ledger).balances(),
                    old(ledger).existential_deposit(),
                    signer(origin).unwrap(),
                    fingerprint(encoded_call@),
                    now,
                    r,
                )
            },
    {
        let caller = match origin {
            Origin::Signed(who) => who,
            Origin::Root => return Err(Error::BadOrigin),
        };
        if !self.policy.validate_call(&encoded_call, &self.call_indices) {
            return Err(Error::InvalidCall);
        }
        match runtime.dispatch(caller, &encoded_call) {
            Ok(()) => {},
            Err(DispatchError::Undecodable) => return Err(Error::UndecodableCall),
            Err(DispatchError::Failed(code)) => return Err(Error::Dispatch(code)),
        }
        let id = match call_id(&encoded_call) {
            Ok(id) => id,
            Err(e) => return Err(e),
        };
        self.enter_raffle(ledger, caller, id, now)
    }

    /// Replaces the calls that the allow-list policy accepts with those
    /// whose encodings are `calls`. Only the root origin or the manager may
    /// do so; an empty list accepts nothing.
    pub fn set_calls(&mut self, origin: Origin, calls: Vec<Vec<u8>>) -> (r: Result<(), Error>)
        requires
            old(self).wf(),
        ensures
            final(self).wf(),
            final(self).policy() == old(self).policy(),
            ({
                let encodings = calls@.map_values(|c: Vec<u8>| c@);
                match calls_refusal(old(self)@, origin, encodings) {
                    Some(e) => r == Err::<(), Error>(e) && final(self)@ == old(self)@,
                    None => r == Ok::<(), Error>(()) && final(self)@ == calls_set(
                        old(self)@,
                        encodings,
                    ),
                }
            }),
    {
        let ghost encodings = calls@.map_values(|c: Vec<u8>| c@);
        let may_manage = match origin {
            Origin::Root => true,
            Origin::Signed(who) => who == self.config.manager,
        };
        if !may_manage {
            return Err(Error::BadOrigin);
        }
        if calls.len() > self.config.max_calls as usize {
            return Err(Error::TooManyCalls);
        }
        let mut indices: Vec<CallId> = Vec::new();
        let mut i: usize = 0;
        while i < calls.len()
            invariant
                i <= calls@.len(),
                self@ == old(self)@,
                self.policy() == old(self).policy(),
                old(self).wf(),
                is_manager(self@.config, origin),
                calls@.len() <= self@.config.max_calls,
                encodings == calls@.map_values(|c: Vec<u8>| c@),
                indices@ == encodings.subrange(0, i as int).map_values(
                    |c: Seq<u8>| fingerprint(c),
                ),
                forall|j: int| 0 <= j < i ==> encodings[j].len() >= 2,
            decreases calls@.len() - i,
        {
            match call_id(&calls[i]) {
                Ok(id) => indices.push(id),
                Err(e) => {
                    assert(encodings[i as int].len() < 2);
                    return Err(e);
                },
            }
            i = i + 1;
            assert(indices@ =~= encodings.subrange(0, i as int).map_values(
                |c: Seq<u8>| fingerprint(c),
            ));
        }
        assert(encodings.subrange(0, i as int) =~= encodings);
        assert(!exists|j: int| 0 <= j < encodings.len() && #[trigger] encodings[j].len() < 2);
        self.call_indices = indices;
        self.events.push(Event::CallsUpdated);
        Ok(())
    }

    /// Starts a round at block `now` that sells tickets at `price` for
    /// `length` blocks and is settled `delay` blocks later; when settled, the
    /// round hands back `next_raffle_call` to run on behalf of its starter.
    /// Only the manager, signing, may start one, and only while no round is
    /// in progress. The pot account is credited the minimum balance if it
    /// holds nothing, so that it is never removed.
    pub fn start_raffle<L: Currency>(
        &mut self,
        ledger: &mut L,
        origin: Origin,
        price: Balance,
        length: BlockNumber,
        delay: BlockNumber,
        next_raffle_call: Option<Vec<u8>>,
        now: BlockNumber,
    ) -> (r: Result<(), Error>)
        requires
            old(self).wf(),
        ensures
            final(self).wf(),
            final(self).policy() == old(self).policy(),
            final(ledger).existential_deposit() == old(ledger).existential_deposit(),
            start(
                old(self)@,
                final(self)@,
                old(ledger).balances(),
                final(ledger).balances(),
                old(ledger).existential_deposit(),
                origin,
                price,
                length,
                delay,
                match next_raffle_call {
                    Some(c) => Some(c@),
                    None => None,
                },
                now,
                r,
            ),
    {
        let manager = match origin {
            Origin::Signed(who) => {
                if who != self.config.manager {
                    return Err(Error::BadOrigin);
                }
                who
            },
            Origin::Root => return Err(Error::BadOrigin),
        };
        if self.raffle.is_some() {
            return Err(Error::AlreadyActive);
        }
        let new_index = match self.raffle_index.checked_add(1) {
            Some(index) => index,
            None => return Err(Error::Overflow),
        };
        self.raffle = Some(RaffleConfig { price, start: now, length, delay, manager, next_raffle_call });
        self.raffle_index = new_index;
        let raffle_account = self.pot_account;
        let minimum = ledger.minimum_balance();
        ledger.deposit_if_empty(raffle_account, minimum);
        self.events.push(Event::RaffleStarted);
        Ok(())
    }

    /// Settles the due round with ticket `ticket` drawn.
    fn settle<L: Currency>(&mut self, ledger: &mut L, ticket: Option<Ticket>) -> (r: Result<
        TickOutcome,
        LedgerError,
    >)
        requires
            old(self).wf(),
            old(self)@.round is Some,
            drawn(ticket, old(self)@.tickets_count),
        ensures
            final(self).wf(),
            final(self).policy() == old(self).policy(),
            final(ledger).existential_deposit() == old(ledger).existential_deposit(),
            settlement(
                old(self)@,
                final(self)@,
                old(ledger).balances(),
                final(ledger).balances(),
                old(ledger).existential_deposit(),
                ticket,
                r,
            ),
    {
        let (pot_account, raffle_balance) = self.pot(ledger);
        if let Some(t) = ticket {
            let winner = self.tickets[t as usize];
            match ledger.transfer_keep_alive(pot_account, winner, raffle_balance) {
                Ok(()) => {},
                Err(e) => return Err(e),
            }
            self.events.push(Event::Winner { winner, raffle_balance });
        }
        self.tickets_count = 0;
        let outcome = match self.raffle.take() {
            Some(config) => match config.next_raffle_call {
                Some(call) => TickOutcome::Repeat { manager: config.manager, call },
                None => TickOutcome::Ended,
            },
            None => TickOutcome::Ended,
        };
        assert(self@.participants == old(self)@.participants);
        Ok(outcome)
    }

    /// The hook run at the start of block `n`: settles the round if its
    /// payout block has come. The winner is the owner of the ticket that
    /// `choose_ticket` draws from the block's randomness. `Err` is a refused payout, which leaves the
    /// state as it was and must halt the runtime.
    pub fn on_initialize<L: Currency, R: Randomness>(
        &mut self,
        ledger: &mut L,
        beacon: &R,
        n: BlockNumber,
    ) -> (r: Result<TickOutcome, LedgerError>)
        requires
            old(self).wf(),
        ensures
            final(self).wf(),
            final(self).policy() == old(self).policy(),
            final(ledger).existential_deposit() == old(ledger).existential_deposit(),
            tick(
                old(self)@,
                final(self)@,
                old(ledger).balances(),
                final(ledger).balances(),
                old(ledger).existential_deposit(),
                n,
                ticket_of(
                    old(self)@.tickets_count,
                    beacon_number(beacon, old(self)@.config.pallet_id@, 0),
                ),
                r,
            ),
    {
        let is_due = match &self.raffle {
            Some(config) => config.start.saturating_add(config.length).saturating_add(config.delay)
                <= n,
            None => false,
        };
        if !is_due {
            return Ok(TickOutcome::Idle);
        }
        let ticket = self.choose_ticket(beacon, self.tickets_count);
        self.settle(ledger, ticket)
    }
}

} // verus!
