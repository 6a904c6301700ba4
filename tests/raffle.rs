use raffle::host::{encode_subject, DispatchError, Dispatcher, FixedRandomness};
use raffle::ledger::{Balances, Currency};
use raffle::pallet::{winning_ticket, Config, Event, Pallet, TickOutcome};
use raffle::types::{AccountId, Error, LedgerError, Origin};
use raffle::validate::{AllowList, RejectAll};

const ALICE: AccountId = 1;
const BOB: AccountId = 2;
const CHARLIE: AccountId = 3;
const DAVE: AccountId = 4;
const EVE: AccountId = 5;

const POKER: u8 = 7;
const START_GAME: [u8; 2] = [POKER, 0];
const JOIN_GAME: [u8; 2] = [POKER, 1];
const END_GAME: [u8; 2] = [POKER, 2];
const DEAL_HAND: [u8; 2] = [POKER, 3];

const PALLET_ID: [u8; 8] = *b"py/rffle";

/// A runtime that knows the card game's calls and records what it ran.
struct Runtime {
    ran: Vec<(AccountId, Vec<u8>)>,
    failing: Option<u32>,
}

impl Runtime {
    fn new() -> Self {
        Runtime { ran: Vec::new(), failing: None }
    }
}

impl Dispatcher for Runtime {
    fn dispatch(&mut self, origin: AccountId, encoded_call: &Vec<u8>) -> Result<(), DispatchError> {
        if encoded_call.len() != 2 || encoded_call[0] != POKER || encoded_call[1] > 3 {
            return Err(DispatchError::Undecodable);
        }
        if let Some(code) = self.failing {
            return Err(DispatchError::Failed(code));
        }
        self.ran.push((origin, encoded_call.clone()));
        Ok(())
    }
}

/// Randomness whose material begins with `first`, little-endian.
fn material_from(first: u32) -> FixedRandomness {
    let mut material = [0xAAu8; 32];
    material[..4].copy_from_slice(&first.to_le_bytes());
    FixedRandomness { material }
}

fn config() -> Config {
    Config { pallet_id: PALLET_ID, max_calls: 10, max_generate_random: 10, manager: ALICE }
}

fn funded_ledger() -> Balances {
    let mut ledger = Balances::new(1);
    for who in [ALICE, BOB, CHARLIE, DAVE, EVE] {
        ledger.set_balance(who, 4096);
    }
    ledger
}

fn allowed_calls() -> Vec<Vec<u8>> {
    vec![START_GAME.to_vec(), JOIN_GAME.to_vec(), END_GAME.to_vec(), DEAL_HAND.to_vec()]
}

fn winners(raffle: &Pallet<AllowList>) -> Vec<(AccountId, u128)> {
    raffle
        .events()
        .iter()
        .filter_map(|e| match e {
            Event::Winner { winner, raffle_balance } => Some((*winner, *raffle_balance)),
            _ => None,
        })
        .collect()
}

/// Runs the block hook from block `from` up to and including block `to`.
fn run_to(
    raffle: &mut Pallet<AllowList>,
    ledger: &mut Balances,
    beacon: &FixedRandomness,
    from: u64,
    to: u64,
) -> Vec<TickOutcome> {
    (from..=to).map(|n| raffle.on_initialize(ledger, beacon, n).unwrap()).collect()
}

#[test]
fn raffle_end_to_end() {
    let calls = vec![START_GAME.to_vec(), JOIN_GAME.to_vec()];
    let mut raffle = Pallet::new(config(), AllowList);
    let mut ledger = funded_ledger();
    let mut runtime = Runtime::new();
    let beacon = material_from(7);

    assert_eq!(raffle.set_calls(Origin::Root, calls), Ok(()));

    let block = 1;
    let price = 10;
    let length = 20;
    let delay = 5;

    let winner_balance = ledger.free_balance(EVE);
    let draw_block = length + delay + block;
    assert_eq!(winner_balance, 4096);

    assert_eq!(
        raffle.start_raffle(&mut ledger, Origin::Signed(ALICE), price, length, delay, None, block),
        Ok(())
    );

    assert_eq!(
        raffle.play(&mut ledger, &mut runtime, Origin::Signed(BOB), START_GAME.to_vec(), block),
        Ok(())
    );
    assert_eq!(raffle.participants(BOB).1.len(), 1);
    assert_eq!(raffle.tickets_count(), 1);
    // BOB owns ticket 0.
    assert_eq!(raffle.tickets(0), Some(BOB));

    // More ticket purchases.
    assert_eq!(ledger.free_balance(EVE), 4096);
    assert_eq!(ledger.free_balance(CHARLIE), 4096);
    assert_eq!(ledger.free_balance(DAVE), 4096);

    assert_eq!(
        raffle.play(&mut ledger, &mut runtime, Origin::Signed(ALICE), JOIN_GAME.to_vec(), block),
        Ok(())
    );
    assert_eq!(
        raffle.play(&mut ledger, &mut runtime, Origin::Signed(CHARLIE), JOIN_GAME.to_vec(), block),
        Ok(())
    );
    assert_eq!(
        raffle.play(&mut ledger, &mut runtime, Origin::Signed(DAVE), JOIN_GAME.to_vec(), block),
        Ok(())
    );

    assert_eq!(raffle.tickets_count(), 4);

    // Go to payout.
    run_to(&mut raffle, &mut ledger, &beacon, block, draw_block);
    assert_eq!(winners(&raffle).len(), 1);
}

#[test]
fn four_buyers_one_winner_at_settlement() {
    let mut raffle = Pallet::new(config(), AllowList);
    let mut ledger = funded_ledger();
    let mut runtime = Runtime::new();
    // 4 tickets, draw 5: ticket 1, which CHARLIE bought.
    let beacon = material_from(5);
    assert_eq!(raffle.set_calls(Origin::Root, vec![START_GAME.to_vec(), JOIN_GAME.to_vec()]), Ok(()));
    let start = 3;
    assert_eq!(raffle.start_raffle(&mut ledger, Origin::Signed(ALICE), 10, 20, 5, None, start), Ok(()));
    let minimum = ledger.minimum_balance();
    assert_eq!(ledger.free_balance(raffle.account_id()), minimum);
    let buys = [(BOB, START_GAME), (CHARLIE, JOIN_GAME), (DAVE, START_GAME), (EVE, JOIN_GAME)];
    for (who, call) in buys {
        assert_eq!(raffle.play(&mut ledger, &mut runtime, Origin::Signed(who), call.to_vec(), start + 1), Ok(()));
    }
    assert_eq!(raffle.tickets_count(), 4);
    let (pot_account, pot_before) = raffle.pot(&ledger);
    assert_eq!(pot_before, 40);
    let charlie_before = ledger.free_balance(CHARLIE);

    // Nothing happens before start + length + delay.
    let outcomes = run_to(&mut raffle, &mut ledger, &beacon, start, start + 24);
    assert!(outcomes.iter().all(|o| *o == TickOutcome::Idle));
    assert_eq!(raffle.tickets_count(), 4);
    assert!(winners(&raffle).is_empty());

    assert_eq!(raffle.on_initialize(&mut ledger, &beacon, start + 25), Ok(TickOutcome::Ended));
    assert_eq!(winners(&raffle), vec![(CHARLIE, 40)]);
    assert_eq!(raffle.tickets_count(), 0);
    assert!(raffle.raffle().is_none());
    assert_eq!(ledger.free_balance(CHARLIE), charlie_before + pot_before);
    assert_eq!(raffle.pot(&ledger), (pot_account, 0));
    assert_eq!(ledger.free_balance(pot_account), minimum);

    // Later blocks do nothing.
    assert_eq!(raffle.on_initialize(&mut ledger, &beacon, start + 26), Ok(TickOutcome::Idle));
    assert_eq!(winners(&raffle).len(), 1);
}

#[test]
fn repeat_call_starts_next_round() {
    let mut raffle = Pallet::new(config(), AllowList);
    let mut ledger = funded_ledger();
    let mut runtime = Runtime::new();
    let beacon = material_from(1);
    assert_eq!(raffle.set_calls(Origin::Root, vec![START_GAME.to_vec(), JOIN_GAME.to_vec()]), Ok(()));
    // The runtime's encoding of "start a round of price 10, length 20, delay 5".
    let repeat = vec![9, 2, 10, 20, 5];
    assert_eq!(
        raffle.start_raffle(&mut ledger, Origin::Signed(ALICE), 10, 20, 5, Some(repeat.clone()), 1),
        Ok(())
    );
    assert_eq!(raffle.raffle_index(), 1);
    for who in [BOB, CHARLIE] {
        assert_eq!(raffle.play(&mut ledger, &mut runtime, Origin::Signed(who), START_GAME.to_vec(), 2), Ok(()));
    }
    let outcome = raffle.on_initialize(&mut ledger, &beacon, 26).unwrap();
    assert_eq!(outcome, TickOutcome::Repeat { manager: ALICE, call: repeat.clone() });
    assert_eq!(raffle.tickets_count(), 0);
    assert_eq!(winners(&raffle), vec![(CHARLIE, 20)]);

    // The runtime runs the call on behalf of the manager, in the same block.
    if let TickOutcome::Repeat { manager, call } = outcome {
        assert_eq!(call[..2], [9, 2]);
        let (price, length, delay) = (call[2] as u128, call[3] as u64, call[4] as u64);
        assert_eq!(
            raffle.start_raffle(&mut ledger, Origin::Signed(manager), price, length, delay, Some(call.clone()), 26),
            Ok(())
        );
    }
    let round = raffle.raffle().expect("a round is in progress");
    assert_eq!((round.price, round.start, round.length, round.delay), (10, 26, 20, 5));
    assert_eq!(raffle.raffle_index(), 2);
    assert_eq!(raffle.tickets_count(), 0);
}

#[test]
fn tickets_are_numbered_in_order_of_purchase() {
    let mut raffle = Pallet::new(config(), AllowList);
    let mut ledger = funded_ledger();
    let mut runtime = Runtime::new();
    let beacon = material_from(0);
    assert_eq!(raffle.set_calls(Origin::Root, allowed_calls()), Ok(()));
    assert_eq!(raffle.start_raffle(&mut ledger, Origin::Signed(ALICE), 10, 20, 5, None, 1), Ok(()));
    let buyers = [DAVE, BOB, DAVE, EVE, BOB];
    let calls = [START_GAME, START_GAME, JOIN_GAME, DEAL_HAND, END_GAME];
    for (k, (who, call)) in buyers.iter().zip(calls.iter()).enumerate() {
        assert_eq!(raffle.play(&mut ledger, &mut runtime, Origin::Signed(*who), call.to_vec(), 2), Ok(()));
        assert_eq!(raffle.tickets_count(), k as u32 + 1);
        assert_eq!(raffle.tickets(k as u32), Some(*who));
    }
    for (k, who) in buyers.iter().enumerate() {
        assert_eq!(raffle.tickets(k as u32), Some(*who));
    }
    assert_eq!(raffle.tickets(5), None);

    // A new window numbers from zero again; older entries are not read.
    run_to(&mut raffle, &mut ledger, &beacon, 2, 26);
    assert_eq!(raffle.tickets(0), None);
    assert_eq!(raffle.start_raffle(&mut ledger, Origin::Signed(ALICE), 10, 20, 5, None, 27), Ok(()));
    assert_eq!(raffle.play(&mut ledger, &mut runtime, Origin::Signed(CHARLIE), START_GAME.to_vec(), 28), Ok(()));
    assert_eq!(raffle.tickets_count(), 1);
    assert_eq!(raffle.tickets(0), Some(CHARLIE));
    assert_eq!(raffle.tickets(1), None);
}

#[test]
fn ticket_count_follows_successful_purchases_only() {
    let mut raffle = Pallet::new(config(), AllowList);
    let mut ledger = funded_ledger();
    ledger.set_balance(EVE, 5);
    let mut runtime = Runtime::new();
    let beacon = material_from(3);
    assert_eq!(raffle.set_calls(Origin::Root, vec![START_GAME.to_vec(), JOIN_GAME.to_vec()]), Ok(()));
    assert_eq!(raffle.start_raffle(&mut ledger, Origin::Signed(ALICE), 10, 20, 5, None, 1), Ok(()));
    let attempts = [
        (BOB, START_GAME, Ok(())),
        (BOB, START_GAME, Err(Error::AlreadyParticipating)),
        (EVE, START_GAME, Err(Error::Funds(LedgerError::InsufficientBalance))),
        (CHARLIE, END_GAME, Err(Error::InvalidCall)),
        (CHARLIE, JOIN_GAME, Ok(())),
        (BOB, JOIN_GAME, Ok(())),
    ];
    let mut sold = 0;
    for (who, call, expected) in attempts {
        let r = raffle.play(&mut ledger, &mut runtime, Origin::Signed(who), call.to_vec(), 2);
        assert_eq!(r, expected);
        if r.is_ok() {
            sold += 1;
        }
        assert_eq!(raffle.tickets_count(), sold);
    }
    assert_eq!(raffle.tickets_count(), 3);
    // Past the sale: refused, and the count stays.
    assert_eq!(
        raffle.play(&mut ledger, &mut runtime, Origin::Signed(DAVE), START_GAME.to_vec(), 21),
        Err(Error::AlreadyEnded)
    );
    assert_eq!(raffle.on_initialize(&mut ledger, &beacon, 25), Ok(TickOutcome::Idle));
    assert_eq!(raffle.tickets_count(), 3);
    assert_eq!(raffle.on_initialize(&mut ledger, &beacon, 26), Ok(TickOutcome::Ended));
    assert_eq!(raffle.tickets_count(), 0);
}

#[test]
fn same_call_twice_in_a_round_is_refused_and_allowed_in_the_next() {
    let mut raffle = Pallet::new(config(), AllowList);
    let mut ledger = funded_ledger();
    let mut runtime = Runtime::new();
    let beacon = material_from(0);
    assert_eq!(raffle.set_calls(Origin::Root, vec![START_GAME.to_vec()]), Ok(()));
    assert_eq!(raffle.start_raffle(&mut ledger, Origin::Signed(ALICE), 10, 20, 5, None, 1), Ok(()));
    assert_eq!(raffle.play(&mut ledger, &mut runtime, Origin::Signed(BOB), START_GAME.to_vec(), 2), Ok(()));
    assert_eq!(raffle.play(&mut ledger, &mut runtime, Origin::Signed(DAVE), START_GAME.to_vec(), 3), Ok(()));
    let bob_before = ledger.free_balance(BOB);
    assert_eq!(
        raffle.play(&mut ledger, &mut runtime, Origin::Signed(BOB), START_GAME.to_vec(), 4),
        Err(Error::AlreadyParticipating)
    );
    assert_eq!(ledger.free_balance(BOB), bob_before);
    assert_eq!(raffle.tickets_count(), 2);

    run_to(&mut raffle, &mut ledger, &beacon, 2, 26);
    assert_eq!(raffle.start_raffle(&mut ledger, Origin::Signed(ALICE), 10, 20, 5, None, 27), Ok(()));
    // The stale record still holds the call until it is written again.
    assert_eq!(raffle.participants(BOB), (1, vec![(POKER, 0, 2)]));
    assert_eq!(raffle.play(&mut ledger, &mut runtime, Origin::Signed(BOB), START_GAME.to_vec(), 28), Ok(()));
    assert_eq!(raffle.participants(BOB), (2, vec![(POKER, 0, 2)]));
}

#[test]
fn starting_while_active_is_refused_without_change() {
    let mut raffle = Pallet::new(config(), AllowList);
    let mut ledger = funded_ledger();
    assert_eq!(raffle.start_raffle(&mut ledger, Origin::Signed(ALICE), 10, 20, 5, None, 1), Ok(()));
    let events_before = raffle.events().clone();
    let round_before = raffle.raffle().cloned();
    let pot_balance = ledger.free_balance(raffle.account_id());
    assert_eq!(
        raffle.start_raffle(&mut ledger, Origin::Signed(ALICE), 99, 9, 9, Some(vec![1, 2]), 5),
        Err(Error::AlreadyActive)
    );
    assert_eq!(raffle.raffle_index(), 1);
    assert_eq!(raffle.raffle().cloned(), round_before);
    assert_eq!(raffle.events(), &events_before);
    assert_eq!(ledger.free_balance(raffle.account_id()), pot_balance);
}

#[test]
fn start_needs_the_signing_manager() {
    let mut raffle = Pallet::new(config(), AllowList);
    let mut ledger = funded_ledger();
    assert_eq!(raffle.start_raffle(&mut ledger, Origin::Root, 10, 20, 5, None, 1), Err(Error::BadOrigin));
    assert_eq!(raffle.start_raffle(&mut ledger, Origin::Signed(BOB), 10, 20, 5, None, 1), Err(Error::BadOrigin));
    assert_eq!(raffle.raffle_index(), 0);
    assert!(raffle.raffle().is_none());
    assert!(raffle.events().is_empty());
    assert_eq!(raffle.start_raffle(&mut ledger, Origin::Signed(ALICE), 10, 20, 5, None, 1), Ok(()));
    assert_eq!(raffle.events(), &vec![Event::RaffleStarted]);
    assert_eq!(raffle.raffle().map(|c| c.manager), Some(ALICE));
}

#[test]
fn start_funds_an_empty_pot_only() {
    let mut raffle = Pallet::new(config(), AllowList);
    let mut ledger = Balances::new(3);
    let pot = raffle.account_id();
    assert_eq!(ledger.free_balance(pot), 0);
    assert_eq!(raffle.start_raffle(&mut ledger, Origin::Signed(ALICE), 10, 20, 5, None, 1), Ok(()));
    assert_eq!(ledger.free_balance(pot), 3);

    let mut other = Pallet::new(config(), AllowList);
    let mut rich = Balances::new(3);
    rich.set_balance(pot, 50);
    assert_eq!(other.start_raffle(&mut rich, Origin::Signed(ALICE), 10, 20, 5, None, 1), Ok(()));
    assert_eq!(rich.free_balance(pot), 50);
}

#[test]
fn play_errors() {
    let mut raffle = Pallet::new(config(), AllowList);
    let mut ledger = funded_ledger();
    let mut runtime = Runtime::new();
    assert_eq!(raffle.set_calls(Origin::Root, vec![START_GAME.to_vec(), vec![POKER, 9]]), Ok(()));

    // Not configured: the call still ran.
    assert_eq!(
        raffle.play(&mut ledger, &mut runtime, Origin::Signed(BOB), START_GAME.to_vec(), 1),
        Err(Error::NotConfigured)
    );
    assert_eq!(runtime.ran, vec![(BOB, START_GAME.to_vec())]);

    assert_eq!(raffle.start_raffle(&mut ledger, Origin::Signed(ALICE), 10, 20, 5, None, 1), Ok(()));
    assert_eq!(
        raffle.play(&mut ledger, &mut runtime, Origin::Root, START_GAME.to_vec(), 2),
        Err(Error::BadOrigin)
    );
    assert_eq!(
        raffle.play(&mut ledger, &mut runtime, Origin::Signed(BOB), JOIN_GAME.to_vec(), 2),
        Err(Error::InvalidCall)
    );
    assert_eq!(raffle.play(&mut ledger, &mut runtime, Origin::Signed(BOB), vec![POKER], 2), Err(Error::InvalidCall));
    assert_eq!(
        raffle.play(&mut ledger, &mut runtime, Origin::Signed(BOB), vec![POKER, 9], 2),
        Err(Error::UndecodableCall)
    );
    runtime.failing = Some(42);
    assert_eq!(
        raffle.play(&mut ledger, &mut runtime, Origin::Signed(BOB), START_GAME.to_vec(), 2),
        Err(Error::Dispatch(42))
    );
    runtime.failing = None;
    assert_eq!(
        raffle.play(&mut ledger, &mut runtime, Origin::Signed(BOB), START_GAME.to_vec(), 21),
        Err(Error::AlreadyEnded)
    );
    ledger.set_balance(CHARLIE, 10);
    assert_eq!(
        raffle.play(&mut ledger, &mut runtime, Origin::Signed(CHARLIE), START_GAME.to_vec(), 2),
        Err(Error::Funds(LedgerError::KeepAlive))
    );
    assert_eq!(ledger.free_balance(CHARLIE), 10);
    assert_eq!(raffle.tickets_count(), 0);
    assert!(raffle.events().iter().all(|e| !matches!(e, Event::TicketBought { .. })));
}

#[test]
fn entries_per_round_are_bounded() {
    let mut small = config();
    small.max_calls = 2;
    let mut raffle = Pallet::new(small, AllowList);
    let mut ledger = funded_ledger();
    let mut runtime = Runtime::new();
    assert_eq!(
        raffle.set_calls(Origin::Root, vec![START_GAME.to_vec(), JOIN_GAME.to_vec(), END_GAME.to_vec()]),
        Err(Error::TooManyCalls)
    );
    assert!(raffle.call_indices().is_empty());
    assert_eq!(raffle.set_calls(Origin::Root, vec![START_GAME.to_vec(), JOIN_GAME.to_vec()]), Ok(()));
    assert_eq!(raffle.start_raffle(&mut ledger, Origin::Signed(ALICE), 10, 20, 5, None, 1), Ok(()));
    assert_eq!(raffle.play(&mut ledger, &mut runtime, Origin::Signed(BOB), START_GAME.to_vec(), 2), Ok(()));
    assert_eq!(raffle.play(&mut ledger, &mut runtime, Origin::Signed(BOB), JOIN_GAME.to_vec(), 2), Ok(()));
    // A third allowed call would exceed the bound.
    assert_eq!(raffle.set_calls(Origin::Root, vec![END_GAME.to_vec(), DEAL_HAND.to_vec()]), Ok(()));
    assert_eq!(
        raffle.play(&mut ledger, &mut runtime, Origin::Signed(BOB), END_GAME.to_vec(), 2),
        Err(Error::TooManyCalls)
    );
    assert_eq!(raffle.tickets_count(), 2);
}

#[test]
fn set_calls_replaces_the_allow_list() {
    let mut raffle = Pallet::new(config(), AllowList);
    assert_eq!(raffle.set_calls(Origin::Signed(BOB), vec![START_GAME.to_vec()]), Err(Error::BadOrigin));
    assert_eq!(
        raffle.set_calls(Origin::Root, vec![START_GAME.to_vec(), vec![POKER]]),
        Err(Error::EncodingFailed)
    );
    assert!(raffle.call_indices().is_empty());
    assert_eq!(raffle.set_calls(Origin::Signed(ALICE), vec![START_GAME.to_vec(), vec![1, 2, 3, 4]]), Ok(()));
    assert_eq!(raffle.call_indices(), &vec![(POKER, 0, 2), (1, 2, 4)]);
    // The length counts modulo 256.
    let long = vec![5u8; 258];
    assert_eq!(raffle.set_calls(Origin::Root, vec![long]), Ok(()));
    assert_eq!(raffle.call_indices(), &vec![(5, 5, 2)]);
    assert_eq!(raffle.set_calls(Origin::Root, vec![]), Ok(()));
    assert!(raffle.call_indices().is_empty());
    assert_eq!(raffle.events(), &vec![Event::CallsUpdated; 3]);
}

#[test]
fn reject_all_policy_sells_nothing() {
    let mut raffle = Pallet::new(config(), RejectAll);
    let mut ledger = funded_ledger();
    let mut runtime = Runtime::new();
    assert_eq!(raffle.set_calls(Origin::Root, vec![START_GAME.to_vec()]), Ok(()));
    assert_eq!(raffle.start_raffle(&mut ledger, Origin::Signed(ALICE), 10, 20, 5, None, 1), Ok(()));
    assert_eq!(
        raffle.play(&mut ledger, &mut runtime, Origin::Signed(BOB), START_GAME.to_vec(), 2),
        Err(Error::InvalidCall)
    );
    assert!(runtime.ran.is_empty());
}

#[test]
fn choose_ticket_draws_within_range() {
    let raffle = Pallet::new(config(), AllowList);
    let beacon = material_from(10);
    assert_eq!(raffle.choose_ticket(&beacon, 0), None);
    assert_eq!(raffle.choose_ticket(&beacon, 4), Some(2));
    assert_eq!(raffle.choose_ticket(&beacon, 1), Some(0));
    assert_eq!(raffle.choose_ticket(&beacon, 11), Some(10));
    assert_eq!(raffle.choose_ticket(&beacon, 1000), Some(10));
    for n in 1..50u32 {
        let t = raffle.choose_ticket(&material_from(0xDEAD_BEEF), n).unwrap();
        assert!(t < n);
    }
    assert_eq!(winning_ticket(0, 99), None);
    assert_eq!(winning_ticket(7, 99), Some(1));
    assert_eq!(winning_ticket(3, u32::MAX), Some(0));
}

#[test]
fn random_number_is_read_from_the_subject_of_the_raffle() {
    let raffle = Pallet::new(config(), AllowList);
    let beacon = material_from(0x0403_0201);
    assert_eq!(raffle.generate_random_number(&beacon, 0x0A0B_0C0D), 0x0403_0201);
    let mut expected = PALLET_ID.to_vec();
    expected.extend_from_slice(&[0x0D, 0x0C, 0x0B, 0x0A]);
    assert_eq!(encode_subject(&PALLET_ID, 0x0A0B_0C0D), expected);
}

#[test]
fn pot_account_is_derived_from_the_identifier() {
    let raffle = Pallet::new(config(), AllowList);
    let expected = u64::from_le_bytes([b'm', b'o', b'd', b'l', PALLET_ID[0], PALLET_ID[1], PALLET_ID[2], PALLET_ID[3]]);
    assert_eq!(raffle.account_id(), expected);
    assert_eq!(raffle::pallet::derive_account(&[0; 8]), 0x6c64_6f6d);
}

#[test]
fn refused_payout_leaves_the_round_in_place() {
    let mut raffle = Pallet::new(config(), AllowList);
    let mut ledger = Balances::new(1);
    ledger.set_balance(BOB, 100);
    let mut runtime = Runtime::new();
    let beacon = material_from(0);
    assert_eq!(raffle.set_calls(Origin::Root, vec![START_GAME.to_vec()]), Ok(()));
    assert_eq!(raffle.start_raffle(&mut ledger, Origin::Signed(ALICE), 10, 20, 5, None, 1), Ok(()));
    assert_eq!(raffle.play(&mut ledger, &mut runtime, Origin::Signed(BOB), START_GAME.to_vec(), 2), Ok(()));
    // The winner's balance would overflow.
    ledger.set_balance(BOB, u128::MAX);
    assert_eq!(raffle.on_initialize(&mut ledger, &beacon, 26), Err(LedgerError::Overflow));
    assert_eq!(raffle.tickets_count(), 1);
    assert!(raffle.raffle().is_some());
    assert_eq!(ledger.free_balance(raffle.account_id()), 11);
}

#[test]
fn settlement_without_tickets_pays_nobody() {
    let mut raffle = Pallet::new(config(), AllowList);
    let mut ledger = funded_ledger();
    let beacon = material_from(0);
    assert_eq!(raffle.start_raffle(&mut ledger, Origin::Signed(ALICE), 10, 0, 0, None, 4), Ok(()));
    assert_eq!(raffle.on_initialize(&mut ledger, &beacon, 3), Ok(TickOutcome::Idle));
    assert_eq!(raffle.on_initialize(&mut ledger, &beacon, 4), Ok(TickOutcome::Ended));
    assert!(winners(&raffle).is_empty());
}

#[test]
fn payout_block_saturates() {
    let mut raffle = Pallet::new(config(), AllowList);
    let mut ledger = funded_ledger();
    let beacon = material_from(0);
    assert_eq!(raffle.start_raffle(&mut ledger, Origin::Signed(ALICE), 10, u64::MAX, 5, None, 4), Ok(()));
    assert_eq!(raffle.on_initialize(&mut ledger, &beacon, u64::MAX - 1), Ok(TickOutcome::Idle));
    assert_eq!(raffle.on_initialize(&mut ledger, &beacon, u64::MAX), Ok(TickOutcome::Ended));
}
