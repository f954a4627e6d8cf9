use audio_token_platform::constants::CREATION_FEE;
use audio_token_platform::constants::INITIAL_SOL_RESERVE;
use audio_token_platform::create_audio_token;
use audio_token_platform::settlement::Party;
use audio_token_platform::settlement::Request;
use audio_token_platform::ErrorCode;

const MINT: [u8; 32] = [7; 32];
const CREATOR: [u8; 32] = [9; 32];

fn text(len: usize) -> String {
    "a".repeat(len)
}

#[test]
fn creation_seeds_both_reserves() {
    let pool = create_audio_token(
        MINT,
        CREATOR,
        254,
        253,
        String::from("Night Drive"),
        String::from("NDRV"),
        String::from("ipfs://bafy/night-drive.json"),
        1_000_000_000_000,
        1_700_000_000,
    )
    .unwrap();
    let config = &pool.token_config;
    assert_eq!(config.mint, MINT);
    assert_eq!(config.creator, CREATOR);
    assert_eq!(config.name, "Night Drive");
    assert_eq!(config.symbol, "NDRV");
    assert_eq!(config.metadata_uri, "ipfs://bafy/night-drive.json");
    assert_eq!(config.total_supply, 1_000_000_000_000);
    assert_eq!(config.initial_supply, 100_000_000_000);
    assert_eq!(config.token_reserves, 100_000_000_000);
    assert_eq!(config.sol_reserves, 10_000_000);
    assert_eq!(config.sol_reserves, INITIAL_SOL_RESERVE);
    assert_eq!(config.tokens_sold, 0);
    assert_eq!(config.total_volume, 0);
    assert_eq!(config.created_at, 1_700_000_000);
    assert_eq!(config.bump, 254);

    let ledger = &pool.lp_account;
    assert_eq!(ledger.mint, MINT);
    assert_eq!(ledger.liquidity, 10_000_000);
    assert_eq!(ledger.timestamp, 1_700_000_000);
    assert_eq!(ledger.bump, 253);

    assert_eq!(pool.platform_fee, 20_000_000);
    assert_eq!(pool.platform_fee, CREATION_FEE);
    assert_eq!(pool.tokens_minted, 100_000_000_000);
}

#[test]
fn seeded_token_reserve_rounds_down() {
    let pool =
        create_audio_token(MINT, CREATOR, 1, 2, text(1), text(1), text(1), 1_009, 0).unwrap();
    assert_eq!(pool.token_config.token_reserves, 100);
    assert_eq!(pool.token_config.initial_supply, 100);
    assert_eq!(pool.tokens_minted, 100);

    let tiny = create_audio_token(MINT, CREATOR, 1, 2, text(1), text(1), text(1), 9, 0).unwrap();
    assert_eq!(tiny.token_config.token_reserves, 0);
}

#[test]
fn strings_at_their_bounds_are_accepted() {
    let pool =
        create_audio_token(MINT, CREATOR, 1, 2, text(32), text(10), text(200), 1_000, -5).unwrap();
    assert_eq!(pool.token_config.name.len(), 32);
    assert_eq!(pool.token_config.symbol.len(), 10);
    assert_eq!(pool.token_config.metadata_uri.len(), 200);
    assert_eq!(pool.token_config.created_at, -5);
    assert_eq!(pool.lp_account.timestamp, -5);
}

#[test]
fn empty_strings_are_accepted() {
    let pool = create_audio_token(
        MINT,
        CREATOR,
        1,
        2,
        String::new(),
        String::new(),
        String::new(),
        100,
        0,
    )
    .unwrap();
    assert_eq!(pool.token_config.name, "");
    assert_eq!(pool.token_config.token_reserves, 10);
}

#[test]
fn name_beyond_its_bound_is_invalid_input() {
    let r = create_audio_token(MINT, CREATOR, 1, 2, text(33), text(10), text(200), 1_000, 0);
    assert_eq!(r, Err(ErrorCode::InvalidInput));
}

#[test]
fn symbol_beyond_its_bound_is_invalid_input() {
    let r = create_audio_token(MINT, CREATOR, 1, 2, text(32), text(11), text(200), 1_000, 0);
    assert_eq!(r, Err(ErrorCode::InvalidInput));
}

#[test]
fn uri_beyond_its_bound_is_invalid_input() {
    let r = create_audio_token(MINT, CREATOR, 1, 2, text(32), text(10), text(201), 1_000, 0);
    assert_eq!(r, Err(ErrorCode::InvalidInput));
}

#[test]
fn bounds_count_bytes_not_characters() {
    // Sixteen two-byte characters fill the name; seventeen overflow it.
    let fits = "é".repeat(16);
    let too_long = "é".repeat(17);
    assert_eq!(fits.chars().count(), 16);
    assert_eq!(fits.len(), 32);
    assert!(create_audio_token(MINT, CREATOR, 1, 2, fits, text(1), text(1), 1_000, 0).is_ok());
    assert_eq!(
        create_audio_token(MINT, CREATOR, 1, 2, too_long, text(1), text(1), 1_000, 0),
        Err(ErrorCode::InvalidInput)
    );
}

#[test]
fn zero_supply_is_invalid_amount() {
    let r = create_audio_token(MINT, CREATOR, 1, 2, text(3), text(3), text(3), 0, 0);
    assert_eq!(r, Err(ErrorCode::InvalidAmount));
}

#[test]
fn string_bounds_are_checked_before_the_supply() {
    let r = create_audio_token(MINT, CREATOR, 1, 2, text(33), text(3), text(3), 0, 0);
    assert_eq!(r, Err(ErrorCode::InvalidInput));
}

#[test]
fn supply_whose_share_overflows_is_math_overflow() {
    let r = create_audio_token(MINT, CREATOR, 1, 2, text(3), text(3), text(3), u64::MAX, 0);
    assert_eq!(r, Err(ErrorCode::MathOverflow));
    let just_over = u64::MAX / 10 + 1;
    let r = create_audio_token(MINT, CREATOR, 1, 2, text(3), text(3), text(3), just_over, 0);
    assert_eq!(r, Err(ErrorCode::MathOverflow));
}

#[test]
fn largest_supply_whose_share_computes() {
    let largest = u64::MAX / 10;
    let pool =
        create_audio_token(MINT, CREATOR, 1, 2, text(3), text(3), text(3), largest, 0).unwrap();
    assert_eq!(largest, 1_844_674_407_370_955_161);
    assert_eq!(pool.token_config.token_reserves, 184_467_440_737_095_516);
}

#[test]
fn creation_asks_for_fee_mint_and_metadata() {
    let pool = create_audio_token(
        MINT,
        CREATOR,
        1,
        2,
        text(3),
        text(3),
        text(3),
        1_000_000_000_000,
        0,
    )
    .unwrap();
    assert_eq!(
        pool.requests(),
        vec![
            Request::TransferSol { from: Party::Signer, to: Party::Platform, amount: 20_000_000 },
            Request::MintTokens { amount: 100_000_000_000 },
            Request::RegisterMetadata,
        ]
    );
}

#[test]
fn error_messages() {
    assert_eq!(ErrorCode::InvalidAmount.message(), "Invalid amount");
    assert_eq!(ErrorCode::InvalidInput.message(), "Invalid input");
    assert_eq!(ErrorCode::MathOverflow.message(), "Math overflow");
    assert_eq!(ErrorCode::InsufficientLiquidity.message(), "Insufficient liquidity");
    assert_eq!(ErrorCode::SlippageExceeded.message(), "Slippage exceeded");
    assert_eq!(ErrorCode::InvalidPriceRatio.message(), "Invalid price ratio");
}
