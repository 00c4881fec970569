use std::collections::HashMap;

use raffle::address::Address;
use raffle::host::{Env, Receipt, Transfer};
use raffle::multi_raffle::queries::{saturating_cost, saturating_sum};
use raffle::multi_raffle::{
    Contract, Error, Event, PaginationMeta, Raffle, RaffleFinalized, RaffleStats, RaffleStatus,
    Ticket, TicketPurchased,
};

/// Token balances, moved by the transfers that the contract orders.
struct Bank {
    balances: HashMap<Address, i128>,
}

impl Bank {
    fn new() -> Self {
        Bank { balances: HashMap::new() }
    }

    fn mint(&mut self, to: &Address, amount: i128) {
        *self.balances.entry(*to).or_insert(0) += amount;
    }

    fn balance(&self, who: &Address) -> i128 {
        self.balances.get(who).copied().unwrap_or(0)
    }

    fn apply(&mut self, transfers: &[Transfer]) {
        for t in transfers {
            assert!(t.amount >= 0, "negative amount");
            assert!(self.balance(&t.from) >= t.amount, "insufficient balance");
            *self.balances.entry(t.from).or_insert(0) -= t.amount;
            *self.balances.entry(t.to).or_insert(0) += t.amount;
        }
    }
}

fn account(n: u128) -> Address {
    Address::account(0, n)
}

fn token() -> Address {
    Address::contract(0, 500)
}

/// The contract with a bank beside it: every call goes through with the
/// signature it needs, its transfers are carried out and its events kept.
struct Client {
    contract: Contract,
    bank: Bank,
    timestamp: u64,
    sequence: u32,
    events: Vec<Event>,
}

impl Client {
    fn new() -> Self {
        Client {
            contract: Contract::new(Address::contract(0, 300)),
            bank: Bank::new(),
            timestamp: 0,
            sequence: 0,
            events: Vec::new(),
        }
    }

    fn env(&self, who: &Address) -> Env {
        Env::new(self.timestamp, self.sequence, *who)
    }

    fn settle<T>(&mut self, receipt: Receipt<T, Event>) -> T {
        assert!(self.contract.is_well_formed());
        self.bank.apply(&receipt.transfers);
        self.events.extend(receipt.events);
        receipt.value
    }

    fn create_raffle(
        &mut self,
        creator: &Address,
        description: &str,
        end_time: u64,
        max_tickets: u32,
        allow_multiple: bool,
        ticket_price: i128,
        payment_token: &Address,
        prize_amount: i128,
    ) -> u64 {
        let env = self.env(creator);
        let receipt = self
            .contract
            .create_raffle(
                &env,
                *creator,
                String::from(description),
                end_time,
                max_tickets,
                allow_multiple,
                ticket_price,
                *payment_token,
                prize_amount,
            )
            .unwrap();
        self.settle(receipt)
    }

    fn deposit_prize(&mut self, raffle_id: u64) {
        let creator = self.contract.get_raffle(raffle_id).unwrap().creator;
        let env = self.env(&creator);
        let receipt = self.contract.deposit_prize(&env, raffle_id).unwrap();
        self.settle(receipt)
    }

    fn buy_ticket(&mut self, raffle_id: u64, buyer: &Address) -> u32 {
        let env = self.env(buyer);
        let receipt = self.contract.buy_ticket(&env, raffle_id, *buyer).unwrap();
        self.settle(receipt)
    }

    fn buy_tickets(&mut self, raffle_id: u64, buyer: &Address, quantity: u32) -> u32 {
        let env = self.env(buyer);
        let receipt = self.contract.buy_tickets(&env, raffle_id, *buyer, quantity).unwrap();
        self.settle(receipt)
    }

    fn finalize_raffle(&mut self, raffle_id: u64, source: &str) -> Address {
        let creator = self.contract.get_raffle(raffle_id).unwrap().creator;
        let env = self.env(&creator);
        let receipt =
            self.contract.finalize_raffle(&env, raffle_id, String::from(source)).unwrap();
        self.settle(receipt)
    }

    fn claim_prize(&mut self, raffle_id: u64, winner: &Address) -> i128 {
        let env = self.env(winner);
        let receipt = self.contract.claim_prize(&env, raffle_id, *winner).unwrap();
        self.settle(receipt)
    }

    fn purchases(&self, raffle_id: u64) -> Vec<TicketPurchased> {
        self.events
            .iter()
            .filter_map(|e| match e {
                Event::TicketPurchased(p) if p.raffle_id == raffle_id => Some(p.clone()),
                _ => None,
            })
            .collect()
    }
}

/// Standardized setup: creator and buyer with 1000 each, and one raffle of
/// 10 tickets at 10 for a prize of 100, one ticket per buyer.
fn setup_raffle_env_at(timestamp: u64) -> (Client, Address, Address, u64) {
    let creator = account(1);
    let buyer = account(2);
    let mut client = Client::new();
    client.timestamp = timestamp;
    client.bank.mint(&creator, 1_000i128);
    client.bank.mint(&buyer, 1_000i128);
    let raffle_id =
        client.create_raffle(&creator, "Audit Raffle", 0, 10, false, 10i128, &token(), 100i128);
    (client, creator, buyer, raffle_id)
}

fn setup_raffle_env() -> (Client, Address, Address, u64) {
    setup_raffle_env_at(0)
}

fn error_of<T>(res: Result<Receipt<T, Event>, Error>) -> Error {
    match res {
        Ok(_) => panic!("the call succeeded"),
        Err(e) => e,
    }
}

// --- 1. FUNCTIONAL FLOW TESTS ---

#[test]
fn test_basic_raffle_flow() {
    let (mut client, creator, buyer, raffle_id) = setup_raffle_env();

    client.deposit_prize(raffle_id);
    client.buy_ticket(raffle_id, &buyer);

    let winner = client.finalize_raffle(raffle_id, "prng");
    let claimed_amount = client.claim_prize(raffle_id, &winner);

    assert_eq!(client.bank.balance(&winner), 1_090i128);
    assert_eq!(client.bank.balance(&creator), 900i128);
    assert_eq!(claimed_amount, 100i128);
    // the price of the ticket stays with the contract
    assert_eq!(client.bank.balance(&client.contract.address), 10i128);
}

// --- 2. RANDOMNESS SOURCE TESTS ---

#[test]
fn test_randomness_source_prng() {
    let (mut client, _, buyer, raffle_id) = setup_raffle_env();

    client.deposit_prize(raffle_id);
    client.buy_ticket(raffle_id, &buyer);

    let winner = client.finalize_raffle(raffle_id, "prng");

    assert_eq!(winner, buyer);
}

#[test]
fn test_randomness_source_oracle() {
    let (mut client, _, buyer, raffle_id) = setup_raffle_env();

    client.deposit_prize(raffle_id);
    client.buy_ticket(raffle_id, &buyer);

    let winner = client.finalize_raffle(raffle_id, "oracle");

    assert_eq!(winner, buyer);
}

// --- 3. EVENT AUDIT & STATE VALIDATION ---

#[test]
fn test_raffle_finalized_event_audit() {
    let expected_timestamp = 123456789;
    let (mut client, _, buyer_1, raffle_id) = setup_raffle_env_at(expected_timestamp);

    let buyer_2 = account(3);
    client.bank.mint(&buyer_2, 1_000i128);

    client.deposit_prize(raffle_id);
    client.buy_ticket(raffle_id, &buyer_1);
    client.buy_ticket(raffle_id, &buyer_2);

    let source = "oracle";
    let winner = client.finalize_raffle(raffle_id, source);

    let last_event = client.events.last().expect("No event emitted");
    let event_data: RaffleFinalized = match last_event {
        Event::RaffleFinalized(f) => f.clone(),
        other => panic!("unexpected event {:?}", other),
    };

    assert_eq!(event_data.raffle_id, raffle_id);
    assert_eq!(event_data.winner, winner);
    assert_eq!(event_data.total_tickets_sold, 2);
    assert_eq!(event_data.randomness_source, source);
    assert_eq!(event_data.finalized_at, expected_timestamp);
    assert!(event_data.winning_ticket_id < 2);
    // 123456789 is odd: the second pool entry wins
    assert_eq!(event_data.winning_ticket_id, 1);
    assert_eq!(winner, buyer_2);
}

#[test]
fn test_single_ticket_purchase_event() {
    let creator = account(1);
    let buyer = account(2);
    let mut client = Client::new();
    client.bank.mint(&creator, 1_000);
    client.bank.mint(&buyer, 1_000);

    let raffle_id = client.create_raffle(
        &creator,
        "Test Raffle",
        0u64,
        10u32,
        true, // allow_multiple
        10i128,
        &token(),
        100i128,
    );

    client.deposit_prize(raffle_id);

    // Clear events before purchase
    client.events.clear();

    let timestamp_before = client.timestamp;
    client.buy_ticket(raffle_id, &buyer);
    let timestamp_after = client.timestamp;

    let found = client.purchases(raffle_id);
    let event_count = found.len();

    assert_eq!(event_count, 1, "Should emit exactly one TicketPurchased event");
    let event = found.first().expect("Should have found TicketPurchased event");

    // Verify all 6 required fields
    assert_eq!(event.raffle_id, raffle_id);
    assert_eq!(event.buyer, buyer);
    assert_eq!(event.quantity, 1u32);
    assert_eq!(event.total_paid, 10i128); // ticket_price * quantity
    assert!(event.timestamp >= timestamp_before && event.timestamp <= timestamp_after);
    assert_eq!(event.ticket_ids.len(), 1);
    assert_eq!(event.ticket_ids[0], 1u32); // First ticket is ID 1
}

#[test]
fn test_batch_ticket_purchase_event() {
    let creator = account(1);
    let buyer = account(2);
    let mut client = Client::new();
    client.bank.mint(&creator, 1_000);
    client.bank.mint(&buyer, 1_000);

    let raffle_id = client.create_raffle(
        &creator,
        "Batch Test Raffle",
        0u64,
        10u32,
        true, // allow_multiple
        10i128,
        &token(),
        100i128,
    );

    client.deposit_prize(raffle_id);

    // Clear events before purchase
    client.events.clear();

    let quantity = 3u32;
    let timestamp_before = client.timestamp;
    client.buy_tickets(raffle_id, &buyer, quantity);
    let timestamp_after = client.timestamp;

    let found = client.purchases(raffle_id);
    let event_count = found.len();

    assert_eq!(event_count, 1, "Should emit exactly one TicketPurchased event for batch purchase");
    let event = found.first().expect("Should have found TicketPurchased event");

    // Verify all 6 required fields
    assert_eq!(event.raffle_id, raffle_id);
    assert_eq!(event.buyer, buyer);
    assert_eq!(event.quantity, quantity);
    assert_eq!(event.total_paid, 30i128); // ticket_price (10) * quantity (3)
    assert!(event.timestamp >= timestamp_before && event.timestamp <= timestamp_after);

    // Verify ticket_ids contains all purchased ticket IDs
    assert_eq!(event.ticket_ids.len() as u32, quantity);
    assert_eq!(event.ticket_ids[0], 1u32); // First ticket
    assert_eq!(event.ticket_ids[1], 2u32); // Second ticket
    assert_eq!(event.ticket_ids[2], 3u32); // Third ticket

    // one payment for the batch
    assert_eq!(client.events.len(), 1);
    assert_eq!(client.bank.balance(&buyer), 970);
}

#[test]
fn test_multiple_single_purchases_emit_multiple_events() {
    let creator = account(1);
    let buyer1 = account(2);
    let buyer2 = account(3);
    let mut client = Client::new();
    client.bank.mint(&creator, 1_000);
    client.bank.mint(&buyer1, 1_000);
    client.bank.mint(&buyer2, 1_000);

    let raffle_id = client.create_raffle(
        &creator,
        "Multi Purchase Test",
        0u64,
        10u32,
        true, // allow_multiple
        10i128,
        &token(),
        100i128,
    );

    client.deposit_prize(raffle_id);

    // First purchase and get its event
    client.buy_ticket(raffle_id, &buyer1);
    let event1 = client.purchases(raffle_id).into_iter().find(|e| e.buyer == buyer1);

    // Second purchase and get its event
    client.buy_ticket(raffle_id, &buyer2);
    let event2 = client.purchases(raffle_id).into_iter().find(|e| e.buyer == buyer2);

    assert!(event1.is_some(), "Should have found event for buyer1");
    assert!(event2.is_some(), "Should have found event for buyer2");

    let e1 = event1.unwrap();
    let e2 = event2.unwrap();
    assert_eq!(e1.buyer, buyer1);
    assert_eq!(e1.ticket_ids[0], 1u32);
    assert_eq!(e2.buyer, buyer2);
    assert_eq!(e2.ticket_ids[0], 2u32);
}

#[test]
fn test_pagination_get_all_raffle_ids() {
    let creator = account(1);
    let mut client = Client::new();

    // Create 5 raffles
    for _ in 0..5 {
        client.create_raffle(&creator, "Test Raffle", 0u64, 10u32, true, 1i128, &token(), 10i128);
    }

    // Test offset 0, limit 3
    let result = client.contract.get_all_raffle_ids(0, 3, false);
    assert_eq!(result.data.len(), 3);
    assert_eq!(result.meta.total, 5);
    assert_eq!(result.meta.offset, 0);
    assert_eq!(result.meta.limit, 3);
    assert!(result.meta.has_more);
    assert_eq!(result.data, vec![0u64, 1, 2]);

    // Test offset 3, limit 3 (should get 2 items)
    let result = client.contract.get_all_raffle_ids(3, 3, false);
    assert_eq!(result.data.len(), 2);
    assert_eq!(result.meta.total, 5);
    assert_eq!(result.meta.offset, 3);
    assert!(!result.meta.has_more);
    assert_eq!(result.data, vec![3u64, 4]);

    // Test offset beyond total
    let result = client.contract.get_all_raffle_ids(10, 3, false);
    assert_eq!(result.data.len(), 0);
    assert_eq!(result.meta.total, 5);
    assert!(!result.meta.has_more);

    // Test newest_first
    let result = client.contract.get_all_raffle_ids(0, 3, true);
    assert_eq!(result.data[0], 4u64); // newest first
    assert_eq!(result.data[2], 2u64);
}

#[test]
fn test_pagination_limit_enforced() {
    let creator = account(1);
    let mut client = Client::new();

    // Create 5 raffles
    for _ in 0..5 {
        client.create_raffle(&creator, "Test Raffle", 0u64, 10u32, true, 1i128, &token(), 10i128);
    }

    // Request limit > 100, should be capped
    let result = client.contract.get_all_raffle_ids(0, 200, false);
    assert_eq!(result.meta.limit, 100); // Capped at 100
    assert_eq!(result.data.len(), 5);
}

#[test]
fn test_pagination_empty_results() {
    let client = Client::new();

    // Test with 0 raffles
    let result = client.contract.get_all_raffle_ids(0, 10, false);
    assert_eq!(result.data.len(), 0);
    assert_eq!(result.meta.total, 0);
    assert!(!result.meta.has_more);
}

// --- USER PARTICIPATION TESTS ---

#[test]
fn test_user_raffle_index_maintained_on_single_ticket() {
    let (mut client, _creator, buyer, raffle_id) = setup_raffle_env();

    client.deposit_prize(raffle_id);
    client.buy_ticket(raffle_id, &buyer);

    let participation = client.contract.get_user_raffle_participation(buyer, 0, 100);
    assert_eq!(participation.raffle_ids.len(), 1);
    assert_eq!(participation.raffle_ids[0], raffle_id);
    assert_eq!(participation.ticket_counts.len(), 1);
    assert_eq!(participation.ticket_counts[0], 1u32);
    assert_eq!(participation.total_spent, 10i128); // 1 ticket * 10 price
    assert_eq!(participation.win_count, 0u32);
    assert_eq!(participation.total_winnings, 0i128);
}

#[test]
fn test_user_participation_multiple_raffles() {
    let creator = account(1);
    let buyer = account(2);
    let mut client = Client::new();
    client.bank.mint(&creator, 1_000i128);
    client.bank.mint(&buyer, 1_000i128);

    // Create 3 raffles
    let raffle1 = client.create_raffle(&creator, "Raffle 1", 0, 10, true, 10i128, &token(), 100i128);
    let raffle2 = client.create_raffle(&creator, "Raffle 2", 0, 10, true, 20i128, &token(), 200i128);
    let raffle3 = client.create_raffle(&creator, "Raffle 3", 0, 10, true, 5i128, &token(), 50i128);

    // Deposit prizes
    client.deposit_prize(raffle1);
    client.deposit_prize(raffle2);
    client.deposit_prize(raffle3);

    // Buy tickets in different raffles
    client.buy_ticket(raffle1, &buyer); // 1 ticket * 10 = 10
    client.buy_tickets(raffle2, &buyer, 2); // 2 tickets * 20 = 40
    client.buy_ticket(raffle3, &buyer); // 1 ticket * 5 = 5

    let participation = client.contract.get_user_raffle_participation(buyer, 0, 100);
    assert_eq!(participation.raffle_ids.len(), 3);
    assert_eq!(participation.total_spent, 55i128); // 10 + 40 + 5
    assert_eq!(participation.ticket_counts.len(), 3);
    assert_eq!(participation.ticket_counts[0], 1u32);
    assert_eq!(participation.ticket_counts[1], 2u32);
    assert_eq!(participation.ticket_counts[2], 1u32);
}

#[test]
fn test_user_participation_with_win() {
    let (mut client, _creator, buyer, raffle_id) = setup_raffle_env();

    client.deposit_prize(raffle_id);
    client.buy_ticket(raffle_id, &buyer);

    // Finalize and buyer wins
    let winner = client.finalize_raffle(raffle_id, "prng");

    // Claim prize if buyer won
    if winner == buyer {
        client.claim_prize(raffle_id, &buyer);
    }

    let participation = client.contract.get_user_raffle_participation(buyer, 0, 100);
    assert_eq!(participation.raffle_ids.len(), 1);
    assert_eq!(participation.total_spent, 10i128);

    if winner == buyer {
        assert_eq!(participation.win_count, 1u32);
        assert_eq!(participation.total_winnings, 100i128); // prize_amount - platform_fee (0)
    } else {
        assert_eq!(participation.win_count, 0u32);
        assert_eq!(participation.total_winnings, 0i128);
    }
    // the only ticket holder wins
    assert_eq!(winner, buyer);
}

#[test]
fn test_user_participation_pagination() {
    let creator = account(1);
    let buyer = account(2);
    let mut client = Client::new();
    client.bank.mint(&creator, 1_000i128);
    client.bank.mint(&buyer, 1_000i128);

    // Create 5 raffles
    for _i in 0..5 {
        let raffle_id =
            client.create_raffle(&creator, "Raffle", 0, 10, true, 10i128, &token(), 100i128);
        client.deposit_prize(raffle_id);
        client.buy_ticket(raffle_id, &buyer);
    }

    // Test pagination: first page
    let participation = client.contract.get_user_raffle_participation(buyer, 0, 3);
    assert_eq!(participation.raffle_ids.len(), 3);
    assert_eq!(participation.ticket_counts.len(), 3);
    assert_eq!(participation.total_spent, 30i128); // 3 raffles * 10

    // Test pagination: second page
    let participation = client.contract.get_user_raffle_participation(buyer, 3, 3);
    assert_eq!(participation.raffle_ids.len(), 2);
    assert_eq!(participation.ticket_counts.len(), 2);
    assert_eq!(participation.total_spent, 20i128); // 2 raffles * 10
    assert_eq!(participation.raffle_ids, vec![3u64, 4]);
}

#[test]
fn test_user_participation_empty() {
    let buyer = account(2);
    let client = Client::new();

    // User with no raffles
    let participation = client.contract.get_user_raffle_participation(buyer, 0, 100);
    assert_eq!(participation.raffle_ids.len(), 0);
    assert_eq!(participation.ticket_counts.len(), 0);
    assert_eq!(participation.total_spent, 0i128);
    assert_eq!(participation.win_count, 0u32);
    assert_eq!(participation.total_winnings, 0i128);
}

#[test]
fn test_user_participation_multiple_wins() {
    let creator = account(1);
    let buyer = account(2);
    let mut client = Client::new();
    client.bank.mint(&creator, 10_000i128);
    client.bank.mint(&buyer, 1_000i128);

    // Create 3 raffles where buyer is the only participant (guaranteed win)
    for i in 0..3 {
        let prize_amount = 100i128 + i as i128 * 50;
        let raffle_id =
            client.create_raffle(&creator, "Raffle", 0, 10, true, 10i128, &token(), prize_amount);
        client.deposit_prize(raffle_id);
        client.buy_ticket(raffle_id, &buyer);

        let winner = client.finalize_raffle(raffle_id, "prng");
        if winner == buyer {
            let _claimed = client.claim_prize(raffle_id, &buyer);
        }
    }

    let participation = client.contract.get_user_raffle_participation(buyer, 0, 100);
    assert_eq!(participation.raffle_ids.len(), 3);
    assert_eq!(participation.total_spent, 30i128); // 3 raffles * 1 ticket * 10
    // Win count and total winnings should match what was actually won
    assert!(participation.win_count <= 3);
    assert!(participation.total_winnings >= 0);
    assert_eq!(participation.win_count, 3);
    assert_eq!(participation.total_winnings, 100 + 150 + 200);
}

// A batch, or a second ticket, needs a raffle that lets a buyer hold
// several tickets.

#[test]
fn test_user_raffle_index_maintained_on_batch_tickets() {
    let creator = account(1);
    let buyer = account(2);
    let mut client = Client::new();
    client.bank.mint(&creator, 1_000i128);
    client.bank.mint(&buyer, 1_000i128);
    let raffle_id =
        client.create_raffle(&creator, "Audit Raffle", 0, 10, true, 10i128, &token(), 100i128);

    client.deposit_prize(raffle_id);
    client.buy_tickets(raffle_id, &buyer, 3);

    let participation = client.contract.get_user_raffle_participation(buyer, 0, 100);
    assert_eq!(participation.raffle_ids.len(), 1);
    assert_eq!(participation.raffle_ids[0], raffle_id);
    assert_eq!(participation.ticket_counts.len(), 1);
    assert_eq!(participation.ticket_counts[0], 3u32);
    assert_eq!(participation.total_spent, 30i128); // 3 tickets * 10 price
}

#[test]
fn test_user_participation_no_duplicate_raffles() {
    let creator = account(1);
    let buyer = account(2);
    let mut client = Client::new();
    client.bank.mint(&creator, 1_000i128);
    client.bank.mint(&buyer, 1_000i128);
    let raffle_id =
        client.create_raffle(&creator, "Audit Raffle", 0, 10, true, 10i128, &token(), 100i128);

    client.deposit_prize(raffle_id);

    // Buy multiple tickets in the same raffle
    client.buy_ticket(raffle_id, &buyer);
    client.buy_ticket(raffle_id, &buyer);
    client.buy_ticket(raffle_id, &buyer);

    let participation = client.contract.get_user_raffle_participation(buyer, 0, 100);
    // Should only appear once in raffle_ids
    assert_eq!(participation.raffle_ids.len(), 1);
    assert_eq!(participation.raffle_ids[0], raffle_id);
    // But ticket count should reflect all purchases
    assert_eq!(participation.ticket_counts[0], 3u32);
    assert_eq!(participation.total_spent, 30i128); // 3 tickets * 10
    assert_eq!(client.contract.participations.len(), 1);
}

// --- ERRORS, ONE BY ONE ---

#[test]
fn batch_purchase_is_refused_where_one_ticket_per_buyer() {
    let (mut client, _, buyer, raffle_id) = setup_raffle_env();
    client.deposit_prize(raffle_id);
    let env = client.env(&buyer);
    let res = client.contract.buy_tickets(&env, raffle_id, buyer, 2);
    assert_eq!(error_of(res), Error::MultipleTicketsNotAllowed);
    assert_eq!(client.contract.get_user_tickets(raffle_id, buyer), 0);
    assert_eq!(client.bank.balance(&buyer), 1_000);

    // one is fine, a second one is not
    assert_eq!(client.buy_tickets(raffle_id, &buyer, 1), 1);
    let res = client.contract.buy_tickets(&env, raffle_id, buyer, 1);
    assert_eq!(error_of(res), Error::MultipleTicketsNotAllowed);
    let res = client.contract.buy_ticket(&env, raffle_id, buyer);
    assert_eq!(error_of(res), Error::MultipleTicketsNotAllowed);
}

#[test]
fn create_raffle_rejects_bad_terms() {
    let creator = account(1);
    let stranger = account(9);
    let mut client = Client::new();
    client.timestamp = 100;
    let env = client.env(&creator);
    let c = &mut client.contract;
    let text = || String::from("Terms");
    let res = c.create_raffle(&env, creator, text(), 99, 10, true, 10, token(), 100);
    assert_eq!(error_of(res), Error::InvalidParameters);
    let res = c.create_raffle(&env, creator, text(), 0, 0, true, 10, token(), 100);
    assert_eq!(error_of(res), Error::InvalidParameters);
    let res = c.create_raffle(&env, creator, text(), 0, 10, true, 0, token(), 100);
    assert_eq!(error_of(res), Error::InvalidParameters);
    let res = c.create_raffle(&env, creator, text(), 0, 10, true, 10, token(), 0);
    assert_eq!(error_of(res), Error::InvalidParameters);
    let res = c.create_raffle(&Env::new(100, 0, stranger), creator, text(), 0, 10, true, 10, token(), 100);
    assert_eq!(error_of(res), Error::NotAuthorized);
    assert_eq!(c.get_all_raffle_ids(0, 10, false).meta.total, 0);

    let receipt = c.create_raffle(&env, creator, text(), 100, 10, true, 10, token(), 100).unwrap();
    assert_eq!(receipt.value, 0);
    assert_eq!(receipt.events.len(), 1);
    assert!(matches!(&receipt.events[0], Event::RaffleCreated(e)
        if e.raffle_id == 0 && e.creator == creator && e.end_time == 100 && e.max_tickets == 10
            && e.ticket_price == 10 && e.payment_token == token() && e.description == "Terms"));
    let raffle: Raffle = c.get_raffle(0).unwrap();
    assert_eq!(raffle.id, 0);
    assert!(raffle.is_active && !raffle.prize_deposited && !raffle.prize_claimed);
    assert_eq!(raffle.winner, None);
    assert_eq!(raffle.prize_amount, 100);
    assert_eq!(c.active_raffles, vec![0u64]);
}

#[test]
fn unknown_raffle_is_not_found() {
    let mut client = Client::new();
    let who = account(1);
    let env = client.env(&who);
    let c = &mut client.contract;
    assert_eq!(error_of(c.deposit_prize(&env, 7)), Error::RaffleNotFound);
    assert_eq!(error_of(c.buy_ticket(&env, 7, who)), Error::RaffleNotFound);
    assert_eq!(error_of(c.buy_tickets(&env, 7, who, 1)), Error::RaffleNotFound);
    assert_eq!(error_of(c.finalize_raffle(&env, 7, String::from("prng"))), Error::RaffleNotFound);
    assert_eq!(error_of(c.claim_prize(&env, 7, who)), Error::RaffleNotFound);
    assert_eq!(c.get_raffle(7), Err(Error::RaffleNotFound));
    assert_eq!(c.get_raffle_by_id(7).err(), Some(Error::RaffleNotFound));
    assert_eq!(c.get_raffle_status(7), Err(Error::RaffleNotFound));
    assert_eq!(c.get_raffle_stats(7), Err(Error::RaffleNotFound));
    assert_eq!(c.get_tickets(7), Err(Error::RaffleNotFound));
    assert_eq!(c.get_tickets_by_buyer(7, who), Err(Error::RaffleNotFound));
    assert_eq!(c.get_ticket(7, 1), None);
    assert_eq!(c.get_user_tickets(7, who), 0);
    assert!(c.read_tickets(7).is_empty());
}

#[test]
fn deposit_errors() {
    let (mut client, creator, buyer, raffle_id) = setup_raffle_env();
    let env = client.env(&buyer);
    assert_eq!(error_of(client.contract.deposit_prize(&env, raffle_id)), Error::NotAuthorized);
    client.deposit_prize(raffle_id);
    assert_eq!(client.bank.balance(&creator), 900);
    assert!(client.contract.get_raffle(raffle_id).unwrap().prize_deposited);
    let env = client.env(&creator);
    assert_eq!(
        error_of(client.contract.deposit_prize(&env, raffle_id)),
        Error::PrizeAlreadyDeposited
    );
    client.buy_ticket(raffle_id, &buyer);
    client.finalize_raffle(raffle_id, "prng");
    assert_eq!(error_of(client.contract.deposit_prize(&env, raffle_id)), Error::RaffleInactive);
}

#[test]
fn buy_tickets_errors_in_order() {
    let creator = account(1);
    let buyer = account(2);
    let mut client = Client::new();
    client.timestamp = 10;
    client.bank.mint(&buyer, 1_000);
    let raffle_id = client.create_raffle(&creator, "Sale", 50, 4, true, 10, &token(), 100);
    let env = client.env(&buyer);
    let other = client.env(&creator);

    let c = &mut client.contract;
    assert_eq!(error_of(c.buy_tickets(&other, raffle_id, buyer, 1)), Error::NotAuthorized);
    assert_eq!(error_of(c.buy_tickets(&env, raffle_id, buyer, 0)), Error::InvalidParameters);
    assert_eq!(error_of(c.buy_tickets(&env, raffle_id, buyer, 5)), Error::InsufficientTickets);
    let late = Env::new(51, 0, buyer);
    assert_eq!(error_of(c.buy_tickets(&late, raffle_id, buyer, 1)), Error::RaffleEnded);
    assert_eq!(error_of(c.buy_ticket(&late, raffle_id, buyer)), Error::RaffleEnded);

    assert_eq!(client.buy_tickets(raffle_id, &buyer, 3), 3);
    let c = &mut client.contract;
    assert_eq!(error_of(c.buy_tickets(&env, raffle_id, buyer, 2)), Error::InsufficientTickets);
    assert_eq!(client.buy_tickets(raffle_id, &buyer, 1), 4);
    let c = &mut client.contract;
    assert_eq!(error_of(c.buy_ticket(&env, raffle_id, buyer)), Error::TicketsSoldOut);
    assert_eq!(error_of(c.buy_tickets(&env, raffle_id, buyer, 1)), Error::InsufficientTickets);

    client.timestamp = 50;
    client.finalize_raffle(raffle_id, "prng");
    let c = &mut client.contract;
    assert_eq!(error_of(c.buy_ticket(&env, raffle_id, buyer)), Error::RaffleInactive);
    assert_eq!(error_of(c.buy_tickets(&env, raffle_id, buyer, 1)), Error::RaffleInactive);
}

#[test]
fn batch_cost_that_does_not_fit_is_an_overflow() {
    let creator = account(1);
    let buyer = account(2);
    let mut client = Client::new();
    let raffle_id = client.create_raffle(&creator, "Dear", 0, 10, true, i128::MAX, &token(), 100);
    let env = client.env(&buyer);
    let res = client.contract.buy_tickets(&env, raffle_id, buyer, 2);
    assert_eq!(error_of(res), Error::ArithmeticOverflow);
    assert_eq!(client.contract.get_raffle(raffle_id).unwrap().tickets_sold, 0);
    let receipt = client.contract.buy_tickets(&env, raffle_id, buyer, 1).unwrap();
    assert_eq!(receipt.transfers[0].amount, i128::MAX);
    // two tickets at this price: the revenue does not fit either
    client.contract.buy_ticket(&env, raffle_id, buyer).unwrap();
    assert_eq!(client.contract.get_raffle_stats(raffle_id), Err(Error::ArithmeticOverflow));
    assert_eq!(client.contract.get_raffle_by_id(raffle_id).err(), Some(Error::ArithmeticOverflow));
    // and what the buyer is said to have spent stops at the largest amount
    let p = client.contract.get_user_raffle_participation(buyer, 0, 10);
    assert_eq!(p.ticket_counts, vec![2u32]);
    assert_eq!(p.total_spent, i128::MAX);
}

#[test]
fn totals_saturate() {
    assert_eq!(saturating_cost(10, 3), 30);
    assert_eq!(saturating_cost(0, u32::MAX), 0);
    assert_eq!(saturating_cost(-7, 2), -14);
    assert_eq!(saturating_cost(i128::MAX, 1), i128::MAX);
    assert_eq!(saturating_cost(i128::MAX, 2), i128::MAX);
    assert_eq!(saturating_cost(i128::MAX / 2 + 1, 2), i128::MAX);
    assert_eq!(saturating_cost(i128::MIN, 2), i128::MIN);
    assert_eq!(saturating_sum(40, 2), 42);
    assert_eq!(saturating_sum(i128::MAX, 0), i128::MAX);
    assert_eq!(saturating_sum(i128::MAX, 1), i128::MAX);
    assert_eq!(saturating_sum(i128::MAX - 5, 9), i128::MAX);
    assert_eq!(saturating_sum(i128::MIN, -1), i128::MIN);
    assert_eq!(saturating_sum(i128::MAX, i128::MIN), -1);
}

#[test]
fn winnings_saturate_over_several_raffles() {
    let creator = account(1);
    let buyer = account(2);
    let mut client = Client::new();
    client.bank.mint(&buyer, 100);
    for _ in 0..2 {
        let id = client.create_raffle(&creator, "Big", 0, 1, false, 1, &token(), i128::MAX);
        client.buy_ticket(id, &buyer);
        assert_eq!(client.finalize_raffle(id, "prng"), buyer);
    }
    let p = client.contract.get_user_raffle_participation(buyer, 0, 10);
    assert_eq!(p.raffle_ids, vec![0u64, 1]);
    assert_eq!(p.total_spent, 2);
    assert_eq!(p.win_count, 2);
    assert_eq!(p.total_winnings, i128::MAX);
    let p = client.contract.get_user_raffle_participation(buyer, 1, 10);
    assert_eq!(p.win_count, 1);
    assert_eq!(p.total_winnings, i128::MAX);
}

#[test]
fn sold_out_raffle_is_finalized_before_its_deadline() {
    let creator = account(1);
    let buyer = account(2);
    let mut client = Client::new();
    client.bank.mint(&creator, 1_000);
    client.bank.mint(&buyer, 1_000);
    let raffle_id = client.create_raffle(&creator, "R", 1000, 1, false, 10, &token(), 100);
    client.deposit_prize(raffle_id);
    // on sale, deadline ahead, nothing sold
    let env = client.env(&creator);
    let res = client.contract.finalize_raffle(&env, raffle_id, String::from("prng"));
    assert_eq!(error_of(res), Error::RaffleStillRunning);
    assert_eq!(client.buy_ticket(raffle_id, &buyer), 1);
    // sold out at time 0, deadline 1000
    assert_eq!(client.finalize_raffle(raffle_id, "prng"), buyer);
    let raffle = client.contract.get_raffle(raffle_id).unwrap();
    assert_eq!(raffle.winner, Some(buyer));
    assert!(!raffle.is_active);
    assert_eq!(client.claim_prize(raffle_id, &buyer), 100);
}

#[test]
fn raffle_with_tickets_left_runs_until_its_deadline() {
    let creator = account(1);
    let buyer = account(2);
    let mut client = Client::new();
    client.bank.mint(&buyer, 1_000);
    let raffle_id = client.create_raffle(&creator, "R", 1000, 2, false, 10, &token(), 100);
    client.buy_ticket(raffle_id, &buyer);
    let source = || String::from("prng");
    let c = &mut client.contract;
    assert_eq!(
        error_of(c.finalize_raffle(&Env::new(999, 0, creator), raffle_id, source())),
        Error::RaffleStillRunning
    );
    assert!(c.finalize_raffle(&Env::new(1000, 0, creator), raffle_id, source()).is_ok());
}

#[test]
fn finalize_errors_in_order() {
    let creator = account(1);
    let buyer = account(2);
    let mut client = Client::new();
    client.timestamp = 10;
    client.bank.mint(&buyer, 1_000);
    let raffle_id = client.create_raffle(&creator, "Draw", 50, 4, true, 10, &token(), 100);
    let source = || String::from("prng");
    let c = &mut client.contract;
    assert_eq!(
        error_of(c.finalize_raffle(&Env::new(60, 0, buyer), raffle_id, source())),
        Error::NotAuthorized
    );
    assert_eq!(
        error_of(c.finalize_raffle(&Env::new(49, 0, creator), raffle_id, source())),
        Error::RaffleStillRunning
    );
    assert_eq!(
        error_of(c.finalize_raffle(&Env::new(50, 0, creator), raffle_id, source())),
        Error::NoTicketsSold
    );
    client.buy_tickets(raffle_id, &buyer, 2);
    client.timestamp = 50;
    client.sequence = 1;
    assert_eq!(client.contract.active_raffles, vec![raffle_id]);
    let winner = client.finalize_raffle(raffle_id, "prng");
    assert_eq!(winner, buyer);
    assert!(client.contract.active_raffles.is_empty());
    let raffle = client.contract.get_raffle(raffle_id).unwrap();
    assert!(!raffle.is_active);
    assert_eq!(raffle.winner, Some(buyer));
    assert!(matches!(client.events.last(), Some(Event::RaffleFinalized(f))
        if f.winning_ticket_id == 1 && f.total_tickets_sold == 2 && f.finalized_at == 50));
    // the draw is not run twice
    let c = &mut client.contract;
    assert_eq!(
        error_of(c.finalize_raffle(&Env::new(60, 0, creator), raffle_id, source())),
        Error::RaffleInactive
    );
}

#[test]
fn claim_prize_errors_in_order() {
    let (mut client, _creator, buyer, raffle_id) = setup_raffle_env();
    let other = account(3);
    client.bank.mint(&other, 100);
    client.buy_ticket(raffle_id, &buyer);
    client.buy_ticket(raffle_id, &other);
    let env = client.env(&buyer);
    assert_eq!(error_of(client.contract.claim_prize(&env, raffle_id, buyer)), Error::NotWinner);
    let winner = client.finalize_raffle(raffle_id, "prng");
    assert_eq!(winner, buyer);
    let c = &mut client.contract;
    assert_eq!(error_of(c.claim_prize(&env, raffle_id, other)), Error::NotAuthorized);
    assert_eq!(
        error_of(c.claim_prize(&Env::new(0, 0, other), raffle_id, other)),
        Error::NotWinner
    );
    // the prize was never put into escrow
    assert_eq!(error_of(c.claim_prize(&env, raffle_id, buyer)), Error::PrizeNotDeposited);
}

#[test]
fn prize_is_claimed_once() {
    let (mut client, _creator, buyer, raffle_id) = setup_raffle_env();
    client.deposit_prize(raffle_id);
    client.buy_ticket(raffle_id, &buyer);
    assert_eq!(client.contract.get_raffle_status(raffle_id), Ok(RaffleStatus::Active));
    client.finalize_raffle(raffle_id, "prng");
    assert_eq!(client.contract.get_raffle_status(raffle_id), Ok(RaffleStatus::Finalized));
    client.events.clear();
    assert_eq!(client.claim_prize(raffle_id, &buyer), 100);
    assert_eq!(client.contract.get_raffle_status(raffle_id), Ok(RaffleStatus::Claimed));
    assert!(matches!(&client.events[0], Event::PrizeClaimed(c)
        if c.raffle_id == raffle_id && c.winner == buyer && c.gross_amount == 100
            && c.net_amount == 100 && c.platform_fee == 0));
    let env = client.env(&buyer);
    let res = client.contract.claim_prize(&env, raffle_id, buyer);
    assert_eq!(error_of(res), Error::InvalidStateTransition);
    // whoever claims: the raffle is past its payout
    let other = account(3);
    let res = client.contract.claim_prize(&Env::new(0, 0, other), raffle_id, other);
    assert_eq!(error_of(res), Error::InvalidStateTransition);
    assert_eq!(client.bank.balance(&buyer), 1_090);
    assert_eq!(client.contract.get_raffle_status(raffle_id), Ok(RaffleStatus::Claimed));
    assert!(client.contract.get_raffle(raffle_id).unwrap().prize_claimed);
}

// --- QUERIES ---

#[test]
fn tickets_are_numbered_from_one() {
    let creator = account(1);
    let a = account(2);
    let b = account(3);
    let mut client = Client::new();
    client.timestamp = 5;
    client.bank.mint(&a, 100);
    client.bank.mint(&b, 100);
    let first = client.create_raffle(&creator, "First", 0, 10, true, 10, &token(), 100);
    let second = client.create_raffle(&creator, "Second", 0, 10, true, 10, &token(), 100);
    client.buy_tickets(second, &a, 2);
    client.timestamp = 6;
    client.buy_ticket(second, &b);
    client.buy_ticket(second, &a);

    let ticket = |id: u32, buyer: Address, purchase_time: u64| Ticket {
        id,
        raffle_id: second,
        buyer,
        purchase_time,
        ticket_number: id,
    };
    let c = &client.contract;
    assert_eq!(
        c.get_tickets(second).unwrap(),
        vec![ticket(1, a, 5), ticket(2, a, 5), ticket(3, b, 6), ticket(4, a, 6)]
    );
    assert_eq!(
        c.get_tickets_by_buyer(second, a).unwrap(),
        vec![ticket(1, a, 5), ticket(2, a, 5), ticket(4, a, 6)]
    );
    assert_eq!(c.get_tickets_by_buyer(second, creator).unwrap(), vec![]);
    assert_eq!(c.get_ticket(second, 3), Some(ticket(3, b, 6)));
    assert_eq!(c.get_ticket(second, 0), None);
    assert_eq!(c.get_ticket(second, 5), None);
    assert_eq!(c.get_user_tickets(second, a), 3);
    assert_eq!(c.get_user_tickets(second, b), 1);
    assert_eq!(c.get_user_tickets(first, a), 0);
    assert_eq!(c.read_tickets(second), vec![a, a, b, a]);
    assert!(c.get_tickets(first).unwrap().is_empty());
    assert_eq!(c.ledgers[second as usize].count_for(&a), 3);
}

#[test]
fn stats_follow_the_sale() {
    let (mut client, _creator, buyer, raffle_id) = setup_raffle_env();
    let other = account(3);
    client.bank.mint(&other, 100);
    assert_eq!(
        client.contract.get_raffle_stats(raffle_id),
        Ok(RaffleStats { tickets_sold: 0, max_tickets: 10, tickets_remaining: 10, total_revenue: 0 })
    );
    client.buy_ticket(raffle_id, &buyer);
    client.buy_ticket(raffle_id, &other);
    let stats =
        RaffleStats { tickets_sold: 2, max_tickets: 10, tickets_remaining: 8, total_revenue: 20 };
    assert_eq!(client.contract.get_raffle_stats(raffle_id), Ok(stats));
    let both = client.contract.get_raffle_by_id(raffle_id).unwrap();
    assert_eq!(both.stats, stats);
    assert_eq!(both.raffle, client.contract.get_raffle(raffle_id).unwrap());
    assert_eq!(both.raffle.description, "Audit Raffle");
}

#[test]
fn page_of_all_ids_at_the_boundaries() {
    let creator = account(1);
    let mut client = Client::new();
    for _ in 0..5 {
        client.create_raffle(&creator, "Raffle", 0, 10, true, 1, &token(), 10);
    }
    let c = &client.contract;
    // offset at the total: empty, nothing more
    let page = c.get_all_raffle_ids(5, 10, false);
    assert!(page.data.is_empty());
    assert_eq!(page.meta, PaginationMeta { total: 5, offset: 5, limit: 10, has_more: false });
    // newest first from the middle
    let page = c.get_all_raffle_ids(1, 2, true);
    assert_eq!(page.data, vec![3u64, 2]);
    assert_eq!(page.meta, PaginationMeta { total: 5, offset: 1, limit: 2, has_more: true });
    let page = c.get_all_raffle_ids(3, 200, true);
    assert_eq!(page.data, vec![1u64, 0]);
    assert_eq!(page.meta, PaginationMeta { total: 5, offset: 3, limit: 100, has_more: false });
    // a limit of 0 shows nothing; there is more behind it
    let page = c.get_all_raffle_ids(2, 0, false);
    assert!(page.data.is_empty());
    assert_eq!(page.meta, PaginationMeta { total: 5, offset: 2, limit: 0, has_more: true });
    let page = c.get_all_raffle_ids(u32::MAX, u32::MAX, true);
    assert!(page.data.is_empty());
    assert!(!page.meta.has_more);
}

#[test]
fn page_is_capped_at_one_hundred() {
    let creator = account(1);
    let mut client = Client::new();
    for _ in 0..150 {
        client.create_raffle(&creator, "Raffle", 0, 10, true, 1, &token(), 10);
    }
    let page = client.contract.get_all_raffle_ids(20, 200, false);
    assert_eq!(page.data.len(), 100);
    assert_eq!(page.data[0], 20);
    assert_eq!(page.data[99], 119);
    assert_eq!(page.meta, PaginationMeta { total: 150, offset: 20, limit: 100, has_more: true });
    let page = client.contract.get_all_raffle_ids(0, 100, true);
    assert_eq!(page.data[0], 149);
    assert_eq!(page.data[99], 50);
}

#[test]
fn active_listing_holds_raffles_without_a_deadline_or_with_one_ahead() {
    let creator = account(1);
    let buyer = account(2);
    let mut client = Client::new();
    client.timestamp = 10;
    client.bank.mint(&buyer, 100);
    let open_ended = client.create_raffle(&creator, "Open", 0, 10, true, 1, &token(), 10);
    let soon = client.create_raffle(&creator, "Soon", 20, 10, true, 1, &token(), 10);
    let later = client.create_raffle(&creator, "Later", 90, 10, true, 1, &token(), 10);
    let last = client.create_raffle(&creator, "Last", 95, 10, true, 1, &token(), 10);

    let page = client.contract.get_active_raffle_ids(&Env::new(10, 0, buyer), 0, 10);
    assert_eq!(page.data, vec![open_ended, soon, later, last]);
    assert_eq!(page.meta, PaginationMeta { total: 4, offset: 0, limit: 10, has_more: false });
    let page = client.contract.get_active_raffle_ids(&Env::new(10, 0, buyer), 1, 2);
    assert_eq!(page.data, vec![soon, later]);
    assert_eq!(page.meta, PaginationMeta { total: 4, offset: 1, limit: 2, has_more: true });
    let page = client.contract.get_active_raffle_ids(&Env::new(10, 0, buyer), 0, 2);
    assert_eq!(page.data, vec![open_ended, soon]);
    assert_eq!(page.meta, PaginationMeta { total: 4, offset: 0, limit: 2, has_more: true });
    let page = client.contract.get_active_raffle_ids(&Env::new(10, 0, buyer), 3, 2);
    assert_eq!(page.data, vec![last]);
    assert_eq!(page.meta, PaginationMeta { total: 4, offset: 3, limit: 2, has_more: false });
    let page = client.contract.get_active_raffle_ids(&Env::new(10, 0, buyer), 4, 2);
    assert!(page.data.is_empty());
    assert_eq!(page.meta, PaginationMeta { total: 4, offset: 4, limit: 2, has_more: false });
    let page = client.contract.get_active_raffle_ids(&Env::new(10, 0, buyer), 1, 0);
    assert!(page.data.is_empty());
    assert_eq!(page.meta, PaginationMeta { total: 4, offset: 1, limit: 0, has_more: true });

    // past the first deadline
    let page = client.contract.get_active_raffle_ids(&Env::new(20, 0, buyer), 0, 200);
    assert_eq!(page.data, vec![open_ended, later, last]);
    assert_eq!(page.meta, PaginationMeta { total: 3, offset: 0, limit: 100, has_more: false });

    // a finalized raffle leaves the listing
    client.buy_ticket(later, &buyer);
    client.timestamp = 90;
    client.finalize_raffle(later, "prng");
    let page = client.contract.get_active_raffle_ids(&Env::new(91, 0, buyer), 0, 10);
    assert_eq!(page.data, vec![open_ended, last]);
    assert_eq!(page.meta.total, 2);

    // with every deadline behind, the raffle without one is left
    let page = client.contract.get_active_raffle_ids(&Env::new(95, 0, buyer), 0, 10);
    assert_eq!(page.data, vec![open_ended]);
    assert_eq!(page.meta, PaginationMeta { total: 1, offset: 0, limit: 10, has_more: false });
}

#[test]
fn one_raffle_without_a_deadline_is_listed_as_active() {
    let creator = account(1);
    let mut client = Client::new();
    let page = client.contract.get_active_raffle_ids(&Env::new(0, 0, creator), 0, 10);
    assert!(page.data.is_empty());
    assert_eq!(page.meta, PaginationMeta { total: 0, offset: 0, limit: 10, has_more: false });

    let raffle_id = client.create_raffle(&creator, "R", 0, 10, true, 10, &token(), 100);
    let page = client.contract.get_active_raffle_ids(&Env::new(0, 0, creator), 0, 10);
    assert_eq!(page.data, vec![raffle_id]);
    assert_eq!(page.meta, PaginationMeta { total: 1, offset: 0, limit: 10, has_more: false });
}

#[test]
fn participation_skips_to_the_offset() {
    let creator = account(1);
    let buyer = account(2);
    let other = account(3);
    let mut client = Client::new();
    client.bank.mint(&buyer, 1_000);
    client.bank.mint(&other, 1_000);
    for price in 1..=4i128 {
        let id = client.create_raffle(&creator, "Raffle", 0, 10, true, price, &token(), 10);
        client.buy_ticket(id, &other);
        if id != 1 {
            client.buy_tickets(id, &buyer, id as u32 + 1);
        }
    }
    // buyer joined 0, 2, 3 with 1, 3, 4 tickets at 1, 3, 4
    let p = client.contract.get_user_raffle_participation(buyer, 1, 100);
    assert_eq!(p.raffle_ids, vec![2u64, 3]);
    assert_eq!(p.ticket_counts, vec![3u32, 4]);
    assert_eq!(p.total_spent, 9 + 16);
    let p = client.contract.get_user_raffle_participation(buyer, 0, 0);
    assert!(p.raffle_ids.is_empty());
    assert_eq!(p.total_spent, 0);
    let p = client.contract.get_user_raffle_participation(buyer, 3, 5);
    assert!(p.raffle_ids.is_empty());
    let p = client.contract.get_user_raffle_participation(other, 0, 2);
    assert_eq!(p.raffle_ids, vec![0u64, 1]);
    assert_eq!(p.total_spent, 1 + 2);
}

#[test]
fn raffle_invariants_hold_along_a_life() {
    let (mut client, _creator, buyer, raffle_id) = setup_raffle_env();
    let check = |client: &Client| {
        let r = client.contract.get_raffle(raffle_id).unwrap();
        assert!(r.tickets_sold <= r.max_tickets);
        assert_eq!(client.contract.read_tickets(raffle_id).len() as u32, r.tickets_sold);
        let status = client.contract.get_raffle_status(raffle_id).unwrap();
        let settled = status == RaffleStatus::Finalized || status == RaffleStatus::Claimed;
        assert_eq!(r.winner.is_some(), settled);
        assert!(client.contract.is_well_formed());
    };
    check(&client);
    client.deposit_prize(raffle_id);
    check(&client);
    client.buy_ticket(raffle_id, &buyer);
    check(&client);
    client.finalize_raffle(raffle_id, "prng");
    check(&client);
    client.claim_prize(raffle_id, &buyer);
    check(&client);
}

#[test]
fn a_corrupt_contract_is_not_well_formed() {
    let (mut client, _creator, buyer, raffle_id) = setup_raffle_env();
    client.buy_ticket(raffle_id, &buyer);
    assert!(client.contract.is_well_formed());
    client.contract.raffles[0].tickets_sold = 2;
    assert!(!client.contract.is_well_formed());
    client.contract.raffles[0].tickets_sold = 1;
    client.contract.raffles[0].id = 4;
    assert!(!client.contract.is_well_formed());
    client.contract.raffles[0].id = 0;
    client.contract.ledgers[0].tickets[0].id = 2;
    assert!(!client.contract.is_well_formed());
    client.contract.ledgers[0].tickets[0].id = 1;
    assert!(client.contract.is_well_formed());
    client.contract.ledgers.pop();
    assert!(!client.contract.is_well_formed());
}

#[test]
fn events_carry_their_topics() {
    let (mut client, _creator, buyer, raffle_id) = setup_raffle_env();
    client.deposit_prize(raffle_id);
    client.buy_ticket(raffle_id, &buyer);
    client.finalize_raffle(raffle_id, "prng");
    client.claim_prize(raffle_id, &buyer);
    let topics: Vec<(&str, &str)> = client.events.iter().map(|e| e.topics()).collect();
    assert_eq!(
        topics,
        vec![
            ("RaffleCreated", "raffle_id"),
            ("TicketPurchased", "raffle_id"),
            ("RaffleFinalized", "raffle_id"),
            ("PrizeClaimed", "raffle_id"),
        ]
    );
}

#[test]
fn contract_errors_keep_their_numbers() {
    assert_eq!(Error::RaffleNotFound.code(), 1);
    assert_eq!(Error::RaffleInactive.code(), 2);
    assert_eq!(Error::TicketsSoldOut.code(), 3);
    assert_eq!(Error::InsufficientTickets.code(), 10);
    assert_eq!(Error::RaffleStillRunning.code(), 12);
    assert_eq!(Error::NotWinner.code(), 16);
    assert_eq!(Error::ArithmeticOverflow.code(), 17);
    assert_eq!(Error::InvalidStateTransition.code(), 20);
    assert_eq!(
        Error::InvalidStateTransition.code(),
        raffle::instance::Error::InvalidStateTransition.code()
    );
}
