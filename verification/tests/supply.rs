use monarca_solana::{
    burn_tokens, initialize_mint, mint_tokens, Address, BurnTokens, ErrorCode, InitializeMint,
    MintAccount, MintRecord, MintTokens, Signer, TokenAccount, MINT_ACCOUNT_SIZE,
    MONARCA_DECIMALS, PROGRAM_ID,
};

const RENT: u64 = 1_461_600;

fn program() -> Address {
    Address::new(PROGRAM_ID)
}

fn mint_authority() -> Signer {
    Signer { address: Address::new([1u8; 32]), lamports: 5_000_000 }
}

fn owner_a() -> Signer {
    Signer { address: Address::new([2u8; 32]), lamports: 0 }
}

fn stranger() -> Signer {
    Signer { address: Address::new([9u8; 32]), lamports: 0 }
}

fn fresh() -> InitializeMint {
    InitializeMint {
        mint: MintAccount::locate(&program()).expect("an address exists"),
        authority: mint_authority(),
        rent: RENT,
    }
}

fn initialized() -> MintRecord {
    let mut ctx = fresh();
    assert_eq!(initialize_mint(&mut ctx), Ok(()));
    ctx.mint.record().expect("the mint exists")
}

fn account_a(mint: &MintRecord, balance: u64) -> TokenAccount {
    TokenAccount { mint: mint.address(), owner: owner_a().address, balance }
}

fn record_with_supply(supply: u64) -> MintRecord {
    MintAccount::existing(&program(), 6, mint_authority().address, mint_authority().address, supply)
        .expect("an address exists")
        .record()
        .expect("the mint exists")
}

/// Mint initialized, one million tokens issued to account A.
fn after_issue() -> MintTokens {
    let mint = initialized();
    let mut ctx = MintTokens {
        mint,
        destination: account_a(&mint, 0),
        authority: mint_authority(),
    };
    assert_eq!(mint_tokens(&mut ctx, 1_000_000), Ok(()));
    ctx
}

/// From `after_issue`, 400 000 tokens destroyed by the owner of account A.
fn after_burn() -> BurnTokens {
    let issued = after_issue();
    let mut ctx = BurnTokens { mint: issued.mint, source: issued.destination, authority: owner_a() };
    assert_eq!(burn_tokens(&mut ctx, 400_000), Ok(()));
    ctx
}

#[test]
fn constants_of_the_mint() {
    assert_eq!(MONARCA_DECIMALS, 6);
    assert_eq!(MINT_ACCOUNT_SIZE, 82);
}

#[test]
fn initialize_creates_the_record() {
    let mut ctx = fresh();
    let address = ctx.mint.address();
    assert_eq!(initialize_mint(&mut ctx), Ok(()));
    assert!(ctx.mint.is_initialized());
    assert_eq!(ctx.mint.address(), address);
    assert_eq!(ctx.mint.space(), 82);
    let record = ctx.mint.record().expect("the mint exists");
    assert_eq!(record.address(), address);
    assert_eq!(record.program_id(), program());
    assert_eq!(record.decimals(), 6);
    assert_eq!(record.mint_authority(), mint_authority().address);
    assert_eq!(record.freeze_authority(), mint_authority().address);
    assert_eq!(record.supply(), 0);
    assert_eq!(ctx.authority.address, mint_authority().address);
    assert_eq!(ctx.authority.lamports, 5_000_000 - 1_461_600);
    assert_eq!(ctx.rent, RENT);
}

#[test]
fn initialize_twice_is_refused() {
    let mut ctx = fresh();
    assert_eq!(initialize_mint(&mut ctx), Ok(()));
    let left = ctx;
    assert_eq!(initialize_mint(&mut ctx), Err(ErrorCode::AlreadyInitialized));
    assert_eq!(ctx, left);
}

#[test]
fn initialize_again_by_another_signer_is_refused() {
    let mut first = fresh();
    assert_eq!(initialize_mint(&mut first), Ok(()));
    let mut second = InitializeMint {
        mint: first.mint,
        authority: Signer { address: stranger().address, lamports: 9_000_000 },
        rent: 0,
    };
    let before = second;
    assert_eq!(initialize_mint(&mut second), Err(ErrorCode::AlreadyInitialized));
    assert_eq!(second, before);
    let record = second.mint.record().expect("the mint exists");
    assert_eq!(record.mint_authority(), mint_authority().address);
}

#[test]
fn initialize_on_an_existing_mint_is_refused() {
    let mint = MintAccount::existing(
        &program(),
        6,
        mint_authority().address,
        mint_authority().address,
        77,
    )
        .expect("an address exists");
    let mut ctx = InitializeMint { mint, authority: mint_authority(), rent: RENT };
    let before = ctx;
    assert_eq!(initialize_mint(&mut ctx), Err(ErrorCode::AlreadyInitialized));
    assert_eq!(ctx, before);
    assert_eq!(ctx.mint.record().expect("the mint exists").supply(), 77);
}

#[test]
fn initialize_without_funds_is_refused() {
    let mut ctx = fresh();
    ctx.authority.lamports = RENT - 1;
    let before = ctx;
    assert_eq!(initialize_mint(&mut ctx), Err(ErrorCode::AllocationFailed));
    assert_eq!(ctx, before);
    assert!(!ctx.mint.is_initialized());
}

#[test]
fn initialize_with_exactly_the_rent() {
    let mut ctx = fresh();
    ctx.authority.lamports = RENT;
    assert_eq!(initialize_mint(&mut ctx), Ok(()));
    assert_eq!(ctx.authority.lamports, 0);
    assert!(ctx.mint.is_initialized());
}

#[test]
fn already_initialized_comes_before_allocation_failed() {
    let mint = MintAccount::existing(
        &program(),
        6,
        mint_authority().address,
        mint_authority().address,
        0,
    )
        .expect("an address exists");
    let mut ctx = InitializeMint {
        mint,
        authority: Signer { address: mint_authority().address, lamports: 0 },
        rent: RENT,
    };
    assert_eq!(initialize_mint(&mut ctx), Err(ErrorCode::AlreadyInitialized));
}

#[test]
fn existing_account_holds_what_it_was_given() {
    let account = MintAccount::existing(
        &program(),
        6,
        mint_authority().address,
        mint_authority().address,
        1_234,
    )
        .expect("an address exists");
    let located = MintAccount::locate(&program()).expect("an address exists");
    assert_eq!(account.address(), located.address());
    assert_eq!(account.space(), 82);
    let record = account.record().expect("the mint exists");
    assert_eq!(record.address(), located.address());
    assert_eq!(record.decimals(), 6);
    assert_eq!(record.mint_authority(), mint_authority().address);
    assert_eq!(record.freeze_authority(), mint_authority().address);
    assert_eq!(record.supply(), 1_234);
}

#[test]
fn scenario_issue_one_million() {
    let ctx = after_issue();
    assert_eq!(ctx.destination.balance, 1_000_000);
    assert_eq!(ctx.mint.supply(), 1_000_000);
    assert_eq!(ctx.destination.owner, owner_a().address);
    assert_eq!(ctx.destination.mint, ctx.mint.address());
    assert_eq!(ctx.mint.decimals(), 6);
    assert_eq!(ctx.mint.mint_authority(), mint_authority().address);
    assert_eq!(ctx.authority, mint_authority());
}

#[test]
fn scenario_burn_four_hundred_thousand() {
    let ctx = after_burn();
    assert_eq!(ctx.source.balance, 600_000);
    assert_eq!(ctx.mint.supply(), 600_000);
    assert_eq!(ctx.mint.decimals(), 6);
    assert_eq!(ctx.authority, owner_a());
}

#[test]
fn scenario_burn_more_than_the_balance() {
    let mut ctx = after_burn();
    let before = ctx;
    assert_eq!(burn_tokens(&mut ctx, 700_000), Err(ErrorCode::InsufficientBalance));
    assert_eq!(ctx.source.balance, 600_000);
    assert_eq!(ctx.mint.supply(), 600_000);
    assert_eq!(ctx, before);
}

#[test]
fn scenario_issue_by_a_stranger() {
    let burned = after_burn();
    let mut ctx = MintTokens { mint: burned.mint, destination: burned.source, authority: stranger() };
    let before = ctx;
    assert_eq!(mint_tokens(&mut ctx, 100), Err(ErrorCode::Unauthorized));
    assert_eq!(ctx.destination.balance, 600_000);
    assert_eq!(ctx.mint.supply(), 600_000);
    assert_eq!(ctx, before);
}

#[test]
fn issue_by_the_account_owner_is_refused() {
    let mint = initialized();
    let mut ctx = MintTokens { mint, destination: account_a(&mint, 5), authority: owner_a() };
    assert_eq!(mint_tokens(&mut ctx, 1), Err(ErrorCode::Unauthorized));
    assert_eq!(ctx.destination.balance, 5);
    assert_eq!(ctx.mint.supply(), 0);
}

#[test]
fn issue_of_nothing_is_refused() {
    let mint = initialized();
    let mut ctx = MintTokens { mint, destination: account_a(&mint, 5), authority: mint_authority() };
    let before = ctx;
    assert_eq!(mint_tokens(&mut ctx, 0), Err(ErrorCode::InvalidAmount));
    assert_eq!(ctx, before);
    let mut ctx = MintTokens { mint, destination: account_a(&mint, 5), authority: stranger() };
    assert_eq!(mint_tokens(&mut ctx, 0), Err(ErrorCode::InvalidAmount));
    assert_eq!(ctx.destination.balance, 5);
}

#[test]
fn burn_of_nothing_is_refused() {
    let mint = record_with_supply(10);
    let mut ctx = BurnTokens { mint, source: account_a(&mint, 10), authority: owner_a() };
    let before = ctx;
    assert_eq!(burn_tokens(&mut ctx, 0), Err(ErrorCode::InvalidAmount));
    assert_eq!(ctx, before);
    let mut ctx = BurnTokens { mint, source: account_a(&mint, 0), authority: stranger() };
    assert_eq!(burn_tokens(&mut ctx, 0), Err(ErrorCode::InvalidAmount));
    assert_eq!(ctx.mint.supply(), 10);
}

#[test]
fn issue_to_an_account_of_another_mint_is_refused() {
    let mint = initialized();
    let foreign = TokenAccount {
        mint: Address::new([7u8; 32]),
        owner: owner_a().address,
        balance: 3,
    };
    for (amount, authority) in [
        (100u64, mint_authority()),
        (0u64, mint_authority()),
        (100u64, stranger()),
        (0u64, stranger()),
        (u64::MAX, mint_authority()),
    ] {
        let mut ctx = MintTokens { mint, destination: foreign, authority };
        let before = ctx;
        assert_eq!(mint_tokens(&mut ctx, amount), Err(ErrorCode::MintMismatch));
        assert_eq!(ctx, before);
    }
}

#[test]
fn burn_from_an_account_of_another_mint_is_refused() {
    let mint = record_with_supply(1_000);
    let foreign = TokenAccount {
        mint: Address::new([7u8; 32]),
        owner: owner_a().address,
        balance: 500,
    };
    for (amount, authority) in [
        (100u64, owner_a()),
        (0u64, owner_a()),
        (100u64, stranger()),
        (501u64, owner_a()),
        (0u64, stranger()),
    ] {
        let mut ctx = BurnTokens { mint, source: foreign, authority };
        let before = ctx;
        assert_eq!(burn_tokens(&mut ctx, amount), Err(ErrorCode::MintMismatch));
        assert_eq!(ctx, before);
    }
}

#[test]
fn burn_by_the_mint_authority_is_refused() {
    let mint = record_with_supply(1_000);
    let mut ctx = BurnTokens { mint, source: account_a(&mint, 500), authority: mint_authority() };
    let before = ctx;
    assert_eq!(burn_tokens(&mut ctx, 100), Err(ErrorCode::Unauthorized));
    assert_eq!(ctx, before);
}

#[test]
fn insufficient_balance_comes_before_unauthorized() {
    let mint = record_with_supply(1_000);
    let mut ctx = BurnTokens { mint, source: account_a(&mint, 500), authority: stranger() };
    assert_eq!(burn_tokens(&mut ctx, 501), Err(ErrorCode::InsufficientBalance));
    assert_eq!(burn_tokens(&mut ctx, 500), Err(ErrorCode::Unauthorized));
    assert_eq!(ctx.source.balance, 500);
    assert_eq!(ctx.mint.supply(), 1_000);
}

#[test]
fn burn_of_the_whole_balance() {
    let mint = record_with_supply(1_000);
    let mut ctx = BurnTokens { mint, source: account_a(&mint, 500), authority: owner_a() };
    assert_eq!(burn_tokens(&mut ctx, 500), Ok(()));
    assert_eq!(ctx.source.balance, 0);
    assert_eq!(ctx.mint.supply(), 500);
    assert_eq!(burn_tokens(&mut ctx, 1), Err(ErrorCode::InsufficientBalance));
}

#[test]
fn burn_of_more_than_circulates_is_refused() {
    let mint = record_with_supply(10);
    let mut ctx = BurnTokens { mint, source: account_a(&mint, 500), authority: owner_a() };
    let before = ctx;
    assert_eq!(burn_tokens(&mut ctx, 11), Err(ErrorCode::InsufficientBalance));
    assert_eq!(ctx, before);
    assert_eq!(burn_tokens(&mut ctx, 10), Ok(()));
    assert_eq!(ctx.source.balance, 490);
    assert_eq!(ctx.mint.supply(), 0);
}

#[test]
fn issue_up_to_the_largest_supply() {
    let mint = record_with_supply(u64::MAX - 10);
    let mut ctx = MintTokens { mint, destination: account_a(&mint, 0), authority: mint_authority() };
    assert_eq!(mint_tokens(&mut ctx, 10), Ok(()));
    assert_eq!(ctx.mint.supply(), u64::MAX);
    assert_eq!(ctx.destination.balance, 10);
    let before = ctx;
    assert_eq!(mint_tokens(&mut ctx, 1), Err(ErrorCode::AllocationFailed));
    assert_eq!(ctx, before);
}

#[test]
fn issue_past_the_largest_balance_is_refused() {
    let mint = record_with_supply(0);
    let mut ctx = MintTokens {
        mint,
        destination: account_a(&mint, u64::MAX),
        authority: mint_authority(),
    };
    let before = ctx;
    assert_eq!(mint_tokens(&mut ctx, 1), Err(ErrorCode::AllocationFailed));
    assert_eq!(ctx, before);
}

#[test]
fn unauthorized_comes_before_allocation_failed() {
    let mint = record_with_supply(u64::MAX);
    let mut ctx = MintTokens { mint, destination: account_a(&mint, 0), authority: stranger() };
    assert_eq!(mint_tokens(&mut ctx, 1), Err(ErrorCode::Unauthorized));
}

#[test]
fn issue_twice_adds_up() {
    let mut ctx = after_issue();
    assert_eq!(mint_tokens(&mut ctx, 250), Ok(()));
    assert_eq!(ctx.destination.balance, 1_000_250);
    assert_eq!(ctx.mint.supply(), 1_000_250);
}

#[test]
fn issue_to_a_second_account_raises_the_supply_only_once() {
    let issued = after_issue();
    let other = TokenAccount {
        mint: issued.mint.address(),
        owner: stranger().address,
        balance: 0,
    };
    let mut ctx = MintTokens { mint: issued.mint, destination: other, authority: mint_authority() };
    assert_eq!(mint_tokens(&mut ctx, 40), Ok(()));
    assert_eq!(ctx.destination.balance, 40);
    assert_eq!(ctx.mint.supply(), 1_000_040);
}

#[test]
fn existing_account_of_another_precision_is_refused() {
    let a = mint_authority().address;
    assert_eq!(MintAccount::existing(&program(), 9, a, a, 0), None);
    assert_eq!(MintAccount::existing(&program(), 0, a, a, 0), None);
    assert!(MintAccount::existing(&program(), 6, a, a, 0).is_some());
}

#[test]
fn existing_account_with_two_authorities_is_refused() {
    let a = mint_authority().address;
    let b = stranger().address;
    assert_eq!(MintAccount::existing(&program(), 6, a, b, 0), None);
    assert_eq!(MintAccount::existing(&program(), 6, b, a, 0), None);
}
