use escrow_nft::address::authorize_as;
use escrow_nft::address::Address;
use escrow_nft::initialize;
use escrow_nft::ledger::Ledger;
use escrow_nft::ledger::Phase;
use escrow_nft::make;
use escrow_nft::refund;
use escrow_nft::take;
use escrow_nft::Errors;
use escrow_nft::EscrowState;
use escrow_nft::Initialize;
use escrow_nft::Make;
use escrow_nft::Refund;
use escrow_nft::Take;

const BOND: u64 = 2_000;
const SEED: u64 = 42;
const PRICE: u64 = 1_000_000;

fn party(tag: u8) -> Address {
    Address::new([tag; 32])
}

fn alice() -> Address {
    party(1)
}

fn bob() -> Address {
    party(2)
}

fn carol() -> Address {
    party(3)
}

fn usdc() -> Address {
    party(50)
}

fn asset_x() -> Address {
    party(60)
}

fn alice_usdc() -> Address {
    party(11)
}

fn bob_usdc() -> Address {
    party(12)
}

fn carol_usdc() -> Address {
    party(13)
}

fn vault() -> Address {
    party(70)
}

fn escrow() -> Address {
    escrow_nft::address::derive(SEED).unwrap().0
}

fn nonce() -> u8 {
    escrow_nft::address::derive(SEED).unwrap().1
}

fn asset_data(owner: &Address) -> Vec<u8> {
    let mut data: Vec<u8> = vec![1];
    data.extend_from_slice(&owner.bytes);
    data.push(0);
    data.extend_from_slice(&1u32.to_le_bytes());
    data.extend_from_slice(b"X");
    data.extend_from_slice(&0u32.to_le_bytes());
    data.push(0);
    data
}

/// Alice holds asset X and funds for bonds; Bob and Carol hold USDC.
fn world() -> Ledger {
    let mut ledger = Ledger::new(BOND);
    ledger.store.deposit(alice(), 10_000).unwrap();
    ledger.store.deposit(carol(), 10_000).unwrap();
    ledger.assets.register(asset_x(), alice(), asset_data(&alice()));
    ledger.tokens.ensure_account(bob_usdc(), bob(), usdc()).unwrap();
    ledger.tokens.mint_to(bob_usdc(), 3_000_000).unwrap();
    ledger.tokens.ensure_account(carol_usdc(), carol(), usdc()).unwrap();
    ledger.tokens.mint_to(carol_usdc(), 1_000_000).unwrap();
    ledger
}

fn opening() -> Initialize {
    Initialize {
        maker: alice(),
        mint_sol: usdc(),
        asset: asset_x(),
        escrow: escrow(),
        vault: vault(),
        maker_ata_sol: alice_usdc(),
    }
}

fn listing() -> Make {
    Make { maker: alice(), asset: asset_x(), escrow: escrow(), vault: vault() }
}

fn taking() -> Take {
    Take {
        taker: bob(),
        maker: alice(),
        mint_sol: usdc(),
        asset: asset_x(),
        escrow: escrow(),
        maker_ata_sol: alice_usdc(),
        taker_ata_sol: bob_usdc(),
    }
}

fn cancelling() -> Refund {
    Refund { maker: alice(), asset: asset_x(), escrow: escrow() }
}

fn opened() -> Ledger {
    let mut ledger = world();
    initialize(&mut ledger, &opening(), SEED, PRICE).unwrap();
    ledger
}

fn listed() -> Ledger {
    let mut ledger = opened();
    make(&mut ledger, &listing(), 0, SEED).unwrap();
    ledger
}

fn balance(ledger: &Ledger, account: Address) -> u64 {
    ledger.tokens.account(&account).unwrap().amount
}

#[test]
fn open_writes_the_record() {
    let ledger = opened();
    assert_eq!(
        ledger.store.read(&escrow()),
        Ok(EscrowState {
            seed: SEED,
            maker: alice(),
            nft_mint: asset_x(),
            currency_mint: usdc(),
            price: PRICE,
            vault_ata: vault(),
            escrow_bump: nonce(),
            fee_percent: 5,
        })
    );
}

#[test]
fn open_posts_the_bond_and_opens_both_currency_accounts() {
    let ledger = opened();
    assert_eq!(ledger.store.balance(&alice()), 8_000);
    let payee = ledger.tokens.account(&alice_usdc()).unwrap();
    assert_eq!((payee.owner, payee.mint, payee.amount), (alice(), usdc(), 0));
    let kept = ledger.tokens.account(&vault()).unwrap();
    assert_eq!((kept.owner, kept.mint, kept.amount), (escrow(), usdc(), 0));
}

#[test]
fn open_leaves_the_asset_with_the_maker() {
    let ledger = opened();
    assert_eq!(ledger.assets.owner_of(&asset_x()), Some(alice()));
}

#[test]
fn open_refuses_a_price_of_zero() {
    let mut ledger = world();
    assert_eq!(initialize(&mut ledger, &opening(), SEED, 0), Err(Errors::InvalidPrice));
    assert_eq!(ledger.store.read(&escrow()), Err(Errors::NotFound));
    assert_eq!(ledger.store.balance(&alice()), 10_000);
    assert_eq!(ledger.tokens.account(&vault()), None);
}

#[test]
fn open_refuses_another_record_address() {
    let mut ledger = world();
    let mut accounts = opening();
    accounts.escrow = party(99);
    assert_eq!(initialize(&mut ledger, &accounts, SEED, PRICE), Err(Errors::AddressMismatch));
    assert_eq!(initialize(&mut ledger, &opening(), SEED + 1, PRICE), Err(Errors::AddressMismatch));
    assert_eq!(ledger.store.read(&party(99)), Err(Errors::NotFound));
}

#[test]
fn open_refuses_a_maker_without_the_bond() {
    let mut ledger = world();
    let mut accounts = opening();
    accounts.maker = bob();
    accounts.maker_ata_sol = bob_usdc();
    assert_eq!(initialize(&mut ledger, &accounts, SEED, PRICE), Err(Errors::InsufficientFunds));
    assert_eq!(ledger.store.read(&escrow()), Err(Errors::NotFound));
    assert_eq!(ledger.tokens.account(&vault()), None);
}

#[test]
fn open_refuses_a_foreign_currency_account() {
    let mut ledger = world();
    let mut accounts = opening();
    accounts.maker_ata_sol = bob_usdc();
    assert_eq!(initialize(&mut ledger, &accounts, SEED, PRICE), Err(Errors::AccountMismatch));
    let mut accounts = opening();
    accounts.vault = bob_usdc();
    assert_eq!(initialize(&mut ledger, &accounts, SEED, PRICE), Err(Errors::AccountMismatch));
    let mut accounts = opening();
    accounts.vault = alice_usdc();
    assert_eq!(initialize(&mut ledger, &accounts, SEED, PRICE), Err(Errors::AccountMismatch));
    assert_eq!(ledger.store.read(&escrow()), Err(Errors::NotFound));
    assert_eq!(ledger.store.balance(&alice()), 10_000);
    assert_eq!(ledger.tokens.account(&alice_usdc()), None);
}

#[test]
fn open_given_no_derived_address_is_refused() {
    let mut ledger = world();
    assert_eq!(
        opening().initialize_escrow(&mut ledger, SEED, None, PRICE),
        Err(Errors::AddressMismatch)
    );
    assert_eq!(
        opening().initialize_escrow(&mut ledger, SEED, Some((escrow(), 7)), PRICE),
        Ok(())
    );
    assert_eq!(ledger.store.read(&escrow()).unwrap().escrow_bump, 7);
}

#[test]
fn reopen_overwrites_the_price() {
    let mut ledger = world();
    initialize(&mut ledger, &opening(), SEED, 1_000).unwrap();
    initialize(&mut ledger, &opening(), SEED, 2_500).unwrap();
    assert_eq!(ledger.store.read(&escrow()).unwrap().price, 2_500);
    assert_eq!(ledger.store.balance(&alice()), 8_000);
}

#[test]
fn reopen_by_another_maker_overwrites_the_record() {
    let mut ledger = opened();
    let mut accounts = opening();
    accounts.maker = carol();
    accounts.maker_ata_sol = carol_usdc();
    accounts.asset = party(61);
    assert_eq!(initialize(&mut ledger, &accounts, SEED, 77), Ok(()));
    let record = ledger.store.read(&escrow()).unwrap();
    assert_eq!((record.maker, record.nft_mint, record.price), (carol(), party(61), 77));
    assert_eq!(ledger.store.balance(&carol()), 10_000);
}

#[test]
fn list_moves_the_asset_to_the_derived_address() {
    let ledger = listed();
    assert_eq!(ledger.assets.owner_of(&asset_x()), Some(escrow()));
    assert_eq!(ledger.store.read(&escrow()).unwrap().price, PRICE);
    assert_eq!(ledger.store.balance(&alice()), 8_000);
}

#[test]
fn list_requires_ownership() {
    let mut ledger = opened();
    ledger.assets.register(asset_x(), bob(), asset_data(&bob()));
    assert_eq!(make(&mut ledger, &listing(), 0, SEED), Err(Errors::InvalidAsset));
    assert_eq!(ledger.assets.owner_of(&asset_x()), Some(bob()));
}

#[test]
fn list_refuses_a_second_listing() {
    let mut ledger = listed();
    assert_eq!(make(&mut ledger, &listing(), 0, SEED), Err(Errors::InvalidAsset));
    assert_eq!(ledger.assets.owner_of(&asset_x()), Some(escrow()));
}

#[test]
fn list_refuses_a_malformed_or_unknown_asset() {
    let mut ledger = opened();
    ledger.assets.register(asset_x(), alice(), vec![0, 1, 2]);
    assert_eq!(make(&mut ledger, &listing(), 0, SEED), Err(Errors::InvalidAsset));
    assert_eq!(ledger.assets.owner_of(&asset_x()), Some(alice()));
    let mut ledger = Ledger::new(BOND);
    ledger.store.deposit(alice(), 10_000).unwrap();
    initialize(&mut ledger, &opening(), SEED, PRICE).unwrap();
    assert_eq!(make(&mut ledger, &listing(), 0, SEED), Err(Errors::InvalidAsset));
}

#[test]
fn list_refuses_an_asset_or_vault_other_than_the_recorded_one() {
    let mut ledger = opened();
    ledger.assets.register(party(61), alice(), asset_data(&alice()));
    let mut accounts = listing();
    accounts.asset = party(61);
    assert_eq!(make(&mut ledger, &accounts, 0, SEED), Err(Errors::InvalidAsset));
    let mut accounts = listing();
    accounts.vault = alice_usdc();
    assert_eq!(make(&mut ledger, &accounts, 0, SEED), Err(Errors::InvalidAsset));
    assert_eq!(ledger.assets.owner_of(&party(61)), Some(alice()));
    assert_eq!(ledger.assets.owner_of(&asset_x()), Some(alice()));
}

#[test]
fn list_refuses_a_signer_other_than_the_maker() {
    let mut ledger = opened();
    let mut accounts = listing();
    accounts.maker = bob();
    assert_eq!(make(&mut ledger, &accounts, 0, SEED), Err(Errors::Unauthorized));
    assert_eq!(ledger.assets.owner_of(&asset_x()), Some(alice()));
}

#[test]
fn list_without_a_record_is_not_found() {
    let mut ledger = world();
    assert_eq!(make(&mut ledger, &listing(), 0, SEED), Err(Errors::NotFound));
}

#[test]
fn list_refuses_a_seed_that_does_not_reproduce_the_address() {
    let mut ledger = opened();
    assert_eq!(make(&mut ledger, &listing(), 0, SEED + 1), Err(Errors::AddressMismatch));
    assert_eq!(ledger.assets.owner_of(&asset_x()), Some(alice()));
}

#[test]
fn list_ignores_the_amount() {
    let mut ledger = opened();
    assert_eq!(make(&mut ledger, &listing(), 123_456, SEED), Ok(()));
    assert_eq!(ledger.store.read(&escrow()).unwrap().price, PRICE);
    assert_eq!(ledger.assets.owner_of(&asset_x()), Some(escrow()));
}

#[test]
fn end_to_end_take() {
    let mut ledger = world();
    assert_eq!(initialize(&mut ledger, &opening(), SEED, PRICE), Ok(()));
    assert_eq!(make(&mut ledger, &listing(), 0, SEED), Ok(()));
    assert_eq!(ledger.assets.owner_of(&asset_x()), Some(escrow()));
    assert_eq!(ledger.store.balance(&alice()), 8_000);
    assert_eq!(take(&mut ledger, &taking(), SEED), Ok(()));
    assert_eq!(balance(&ledger, bob_usdc()), 2_000_000);
    assert_eq!(balance(&ledger, alice_usdc()), 1_000_000);
    assert_eq!(balance(&ledger, vault()), 0);
    assert_eq!(ledger.assets.owner_of(&asset_x()), Some(bob()));
    assert_eq!(ledger.store.read(&escrow()), Err(Errors::NotFound));
    assert_eq!(ledger.store.balance(&alice()), 10_000);
}

#[test]
fn cancel_scenario() {
    let mut ledger = listed();
    assert_eq!(refund(&mut ledger, &cancelling(), SEED), Ok(()));
    assert_eq!(ledger.assets.owner_of(&asset_x()), Some(alice()));
    assert_eq!(balance(&ledger, bob_usdc()), 3_000_000);
    assert_eq!(balance(&ledger, carol_usdc()), 1_000_000);
    assert_eq!(balance(&ledger, alice_usdc()), 0);
    assert_eq!(balance(&ledger, vault()), 0);
    assert_eq!(ledger.store.read(&escrow()), Err(Errors::NotFound));
    assert_eq!(ledger.store.balance(&alice()), 10_000);
}

#[test]
fn take_pays_the_recorded_price_in_full() {
    let mut ledger = listed();
    assert_eq!(ledger.store.read(&escrow()).unwrap().fee_percent, 5);
    take(&mut ledger, &taking(), SEED).unwrap();
    assert_eq!(balance(&ledger, alice_usdc()), 1_000_000);
    assert_ne!(balance(&ledger, alice_usdc()), 950_000);
    assert_eq!(balance(&ledger, bob_usdc()), 3_000_000 - 1_000_000);
}

#[test]
fn take_is_open_to_any_signer() {
    let mut ledger = listed();
    let mut accounts = taking();
    accounts.taker = carol();
    accounts.taker_ata_sol = carol_usdc();
    assert_eq!(take(&mut ledger, &accounts, SEED), Ok(()));
    assert_eq!(ledger.assets.owner_of(&asset_x()), Some(carol()));
    assert_eq!(balance(&ledger, carol_usdc()), 0);
    assert_eq!(balance(&ledger, bob_usdc()), 3_000_000);
    assert_eq!(balance(&ledger, alice_usdc()), 1_000_000);
}

#[test]
fn take_by_the_maker_itself_moves_no_currency() {
    let mut ledger = listed();
    ledger.tokens.mint_to(alice_usdc(), PRICE).unwrap();
    let mut accounts = taking();
    accounts.taker = alice();
    accounts.taker_ata_sol = alice_usdc();
    assert_eq!(take(&mut ledger, &accounts, SEED), Ok(()));
    assert_eq!(balance(&ledger, alice_usdc()), PRICE);
    assert_eq!(ledger.assets.owner_of(&asset_x()), Some(alice()));
}

#[test]
fn take_closes_the_record_and_frees_the_seed() {
    let mut ledger = listed();
    take(&mut ledger, &taking(), SEED).unwrap();
    assert_eq!(ledger.store.read(&escrow()), Err(Errors::NotFound));
    assert_eq!(take(&mut ledger, &taking(), SEED), Err(Errors::NotFound));
    assert_eq!(refund(&mut ledger, &cancelling(), SEED), Err(Errors::NotFound));
    let mut again = opening();
    again.maker = carol();
    again.maker_ata_sol = carol_usdc();
    again.asset = party(61);
    assert_eq!(initialize(&mut ledger, &again, SEED, 5), Ok(()));
    let record = ledger.store.read(&escrow()).unwrap();
    assert_eq!((record.maker, record.nft_mint, record.price), (carol(), party(61), 5));
    assert_eq!(ledger.store.balance(&carol()), 8_000);
}

#[test]
fn cancel_closes_the_record_and_frees_the_seed() {
    let mut ledger = listed();
    refund(&mut ledger, &cancelling(), SEED).unwrap();
    assert_eq!(ledger.store.read(&escrow()), Err(Errors::NotFound));
    assert_eq!(refund(&mut ledger, &cancelling(), SEED), Err(Errors::NotFound));
    assert_eq!(initialize(&mut ledger, &opening(), SEED, 9), Ok(()));
    assert_eq!(ledger.store.read(&escrow()).unwrap().price, 9);
    assert_eq!(ledger.store.balance(&alice()), 8_000);
}

#[test]
fn cancel_refuses_a_signer_other_than_the_maker() {
    let mut ledger = listed();
    let mut accounts = cancelling();
    accounts.maker = bob();
    assert_eq!(refund(&mut ledger, &accounts, SEED), Err(Errors::Unauthorized));
    assert_eq!(ledger.assets.owner_of(&asset_x()), Some(escrow()));
    assert_eq!(ledger.store.read(&escrow()).unwrap().maker, alice());
}

#[test]
fn cancel_of_an_unlisted_escrow_has_nothing_to_refund() {
    let mut ledger = opened();
    assert_eq!(refund(&mut ledger, &cancelling(), SEED), Err(Errors::InvalidAsset));
    assert_eq!(ledger.store.read(&escrow()).unwrap().price, PRICE);
    assert_eq!(ledger.assets.owner_of(&asset_x()), Some(alice()));
    assert_eq!(ledger.store.balance(&alice()), 8_000);
}

#[test]
fn cancel_refuses_an_asset_other_than_the_recorded_one() {
    let mut ledger = listed();
    let mut accounts = cancelling();
    accounts.asset = party(61);
    assert_eq!(refund(&mut ledger, &accounts, SEED), Err(Errors::InvalidAsset));
}

#[test]
fn cancel_refuses_a_seed_that_does_not_reproduce_the_address() {
    let mut ledger = listed();
    assert_eq!(refund(&mut ledger, &cancelling(), SEED + 1), Err(Errors::AddressMismatch));
    assert_eq!(ledger.assets.owner_of(&asset_x()), Some(escrow()));
}

#[test]
fn cancel_refuses_a_refund_that_does_not_fit() {
    let mut ledger = listed();
    ledger.store.deposit(alice(), u64::MAX - 8_000).unwrap();
    assert_eq!(refund(&mut ledger, &cancelling(), SEED), Err(Errors::Overflow));
    assert_eq!(ledger.assets.owner_of(&asset_x()), Some(escrow()));
    assert_eq!(ledger.store.read(&escrow()).unwrap().price, PRICE);
}

#[test]
fn take_of_an_unlisted_escrow_changes_nothing() {
    let mut ledger = opened();
    assert_eq!(take(&mut ledger, &taking(), SEED), Err(Errors::OwnershipConflict));
    assert_eq!(balance(&ledger, bob_usdc()), 3_000_000);
    assert_eq!(balance(&ledger, alice_usdc()), 0);
    assert_eq!(ledger.assets.owner_of(&asset_x()), Some(alice()));
    assert_eq!(ledger.store.read(&escrow()).unwrap().price, PRICE);
    assert_eq!(ledger.store.balance(&alice()), 8_000);
}

#[test]
fn take_refuses_a_taker_short_of_the_price() {
    let mut ledger = listed();
    ledger.tokens.ensure_account(party(14), party(4), usdc()).unwrap();
    ledger.tokens.mint_to(party(14), PRICE - 1).unwrap();
    let mut accounts = taking();
    accounts.taker = party(4);
    accounts.taker_ata_sol = party(14);
    assert_eq!(take(&mut ledger, &accounts, SEED), Err(Errors::InsufficientFunds));
    assert_eq!(balance(&ledger, party(14)), PRICE - 1);
    assert_eq!(balance(&ledger, alice_usdc()), 0);
    assert_eq!(ledger.assets.owner_of(&asset_x()), Some(escrow()));
    assert_eq!(ledger.store.read(&escrow()).unwrap().price, PRICE);
}

#[test]
fn take_refuses_accounts_other_than_the_recorded_ones() {
    let mut ledger = listed();
    let mut accounts = taking();
    accounts.maker = carol();
    assert_eq!(take(&mut ledger, &accounts, SEED), Err(Errors::AddressMismatch));
    let mut accounts = taking();
    accounts.mint_sol = party(51);
    assert_eq!(take(&mut ledger, &accounts, SEED), Err(Errors::AddressMismatch));
    let mut accounts = taking();
    accounts.asset = party(61);
    assert_eq!(take(&mut ledger, &accounts, SEED), Err(Errors::InvalidAsset));
    let mut accounts = taking();
    accounts.maker_ata_sol = carol_usdc();
    assert_eq!(take(&mut ledger, &accounts, SEED), Err(Errors::AccountMismatch));
    let mut accounts = taking();
    accounts.maker_ata_sol = party(15);
    assert_eq!(take(&mut ledger, &accounts, SEED), Err(Errors::AccountMismatch));
    let mut accounts = taking();
    accounts.taker_ata_sol = carol_usdc();
    assert_eq!(take(&mut ledger, &accounts, SEED), Err(Errors::AccountMismatch));
    assert_eq!(take(&mut ledger, &taking(), SEED + 1), Err(Errors::AddressMismatch));
    assert_eq!(balance(&ledger, bob_usdc()), 3_000_000);
    assert_eq!(balance(&ledger, carol_usdc()), 1_000_000);
    assert_eq!(ledger.assets.owner_of(&asset_x()), Some(escrow()));
}

#[test]
fn take_refuses_a_malformed_asset_before_any_payment() {
    let mut ledger = listed();
    ledger.assets.register(asset_x(), escrow(), vec![7]);
    assert_eq!(take(&mut ledger, &taking(), SEED), Err(Errors::InvalidAsset));
    assert_eq!(balance(&ledger, bob_usdc()), 3_000_000);
    assert_eq!(balance(&ledger, alice_usdc()), 0);
}

#[test]
fn take_refuses_a_refund_that_does_not_fit() {
    let mut ledger = listed();
    ledger.store.deposit(alice(), u64::MAX - 8_000).unwrap();
    assert_eq!(take(&mut ledger, &taking(), SEED), Err(Errors::Overflow));
    assert_eq!(balance(&ledger, bob_usdc()), 3_000_000);
    assert_eq!(balance(&ledger, alice_usdc()), 0);
    assert_eq!(ledger.assets.owner_of(&asset_x()), Some(escrow()));
}

#[test]
fn take_given_no_leave_or_a_failed_validation_is_refused() {
    let mut ledger = listed();
    assert_eq!(taking().take_nft(&mut ledger, SEED, None, true), Err(Errors::AddressMismatch));
    let leave = authorize_as(escrow(), SEED, nonce()).ok();
    assert_eq!(taking().take_nft(&mut ledger, SEED, leave, false), Err(Errors::InvalidAsset));
    let leave = authorize_as(escrow(), SEED, nonce()).ok();
    assert_eq!(taking().take_nft(&mut ledger, SEED, leave, true), Ok(()));
    assert_eq!(ledger.assets.owner_of(&asset_x()), Some(bob()));
}

#[test]
fn list_and_cancel_given_no_leave_or_a_failed_validation_are_refused() {
    let mut ledger = opened();
    assert_eq!(
        listing().make_listing(&mut ledger, 0, SEED, None, true),
        Err(Errors::AddressMismatch)
    );
    let leave = authorize_as(escrow(), SEED, nonce()).ok();
    assert_eq!(
        listing().make_listing(&mut ledger, 0, SEED, leave, false),
        Err(Errors::InvalidAsset)
    );
    let leave = authorize_as(escrow(), SEED, nonce()).ok();
    assert_eq!(listing().make_listing(&mut ledger, 0, SEED, leave, true), Ok(()));
    assert_eq!(
        cancelling().refund_nft(&mut ledger, SEED, None, true),
        Err(Errors::AddressMismatch)
    );
    let leave = authorize_as(escrow(), SEED, nonce()).ok();
    assert_eq!(
        cancelling().refund_nft(&mut ledger, SEED, leave, false),
        Err(Errors::InvalidAsset)
    );
    let leave = authorize_as(escrow(), SEED, nonce()).ok();
    assert_eq!(cancelling().refund_nft(&mut ledger, SEED, leave, true), Ok(()));
    assert_eq!(ledger.assets.owner_of(&asset_x()), Some(alice()));
}

#[test]
fn escrows_over_different_seeds_do_not_meet() {
    let mut ledger = listed();
    let (other_escrow, _) = escrow_nft::address::derive(7).unwrap();
    ledger.assets.register(party(61), carol(), asset_data(&carol()));
    let accounts = Initialize {
        maker: carol(),
        mint_sol: usdc(),
        asset: party(61),
        escrow: other_escrow,
        vault: party(71),
        maker_ata_sol: carol_usdc(),
    };
    assert_eq!(initialize(&mut ledger, &accounts, 7, 10), Ok(()));
    assert_eq!(ledger.store.read(&escrow()).unwrap().price, PRICE);
    assert_eq!(ledger.store.read(&other_escrow).unwrap().price, 10);
    take(&mut ledger, &taking(), SEED).unwrap();
    assert_eq!(ledger.store.read(&other_escrow).unwrap().maker, carol());
    assert_eq!(ledger.assets.owner_of(&party(61)), Some(carol()));
}

#[test]
fn phase_is_read_off_the_registry() {
    let mut ledger = world();
    assert_eq!(ledger.phase(&escrow()), Phase::Absent);
    initialize(&mut ledger, &opening(), SEED, PRICE).unwrap();
    assert_eq!(ledger.phase(&escrow()), Phase::Open);
    make(&mut ledger, &listing(), 0, SEED).unwrap();
    assert_eq!(ledger.phase(&escrow()), Phase::Listed);
    take(&mut ledger, &taking(), SEED).unwrap();
    assert_eq!(ledger.phase(&escrow()), Phase::Absent);
}

#[test]
fn phase_returns_to_absent_after_cancel() {
    let mut ledger = listed();
    assert_eq!(ledger.phase(&escrow()), Phase::Listed);
    refund(&mut ledger, &cancelling(), SEED).unwrap();
    assert_eq!(ledger.phase(&escrow()), Phase::Absent);
}

#[test]
fn phase_of_a_record_whose_asset_is_unknown_is_open() {
    let mut ledger = Ledger::new(BOND);
    ledger.store.deposit(alice(), 10_000).unwrap();
    initialize(&mut ledger, &opening(), SEED, PRICE).unwrap();
    assert_eq!(ledger.assets.owner_of(&asset_x()), None);
    assert_eq!(ledger.phase(&escrow()), Phase::Open);
}

#[test]
fn reopen_over_a_listed_escrow_overwrites_it_all_the_same() {
    let mut ledger = listed();
    let mut accounts = opening();
    accounts.maker = carol();
    accounts.maker_ata_sol = carol_usdc();
    accounts.asset = party(61);
    assert_eq!(initialize(&mut ledger, &accounts, SEED, 3), Ok(()));
    assert_eq!(ledger.store.read(&escrow()).unwrap().maker, carol());
    assert_eq!(ledger.assets.owner_of(&asset_x()), Some(escrow()));
    assert_eq!(ledger.phase(&escrow()), Phase::Open);
}

#[test]
fn new_record_carries_the_named_accounts_and_the_fixed_fee() {
    let record = opening().new_record(SEED, 9, 77);
    assert_eq!(
        record,
        EscrowState {
            seed: SEED,
            maker: alice(),
            nft_mint: asset_x(),
            currency_mint: usdc(),
            price: 77,
            vault_ata: vault(),
            escrow_bump: 9,
            fee_percent: 5,
        }
    );
}

#[test]
fn errors_say_what_went_wrong() {
    assert_eq!(Errors::InvalidAsset.message(), "Invalid Asset");
    assert_eq!(Errors::NotListed.message(), "Escrow is not listed");
    assert_eq!(Errors::Unauthorized.message(), "Signer is not authorized");
    assert_eq!(Errors::AddressMismatch.message(), "Address does not match the derivation");
    assert_eq!(Errors::NotFound.message(), "Escrow not found");
    assert_eq!(Errors::InvalidPrice.message(), "Price must be positive");
    assert_eq!(Errors::InsufficientFunds.message(), "Insufficient funds");
    assert_eq!(Errors::AccountMismatch.message(), "Currency account mismatch");
    assert_eq!(Errors::OwnershipConflict.message(), "Asset is held by another owner");
    assert_eq!(Errors::Overflow.message(), "Balance overflow");
}
