use defi_trading_platform::{
    create_token_offering, initialize_platform, participate_in_offering, register_company,
    Address, Company, DefiTradingError, OfferingParticipation, OfferingStatus, Platform,
    TokenOffering,
};

fn key(tag: u8) -> Address {
    Address::new([tag; 32])
}

fn setup() -> (Platform, Company) {
    let mut p = initialize_platform(key(100));
    let c = register_company(
        &mut p,
        key(1),
        key(9),
        "Acme".to_string(),
        "ACM".to_string(),
        String::new(),
        1_000,
    )
    .unwrap();
    (p, c)
}

fn offering() -> TokenOffering {
    let (mut p, mut c) = setup();
    create_token_offering(&mut p, &mut c, key(1), 1_000, 5, 2_000, 3_000, 1_500).unwrap()
}

#[test]
fn offering_is_created_pending() {
    let (mut p, mut c) = setup();
    c.total_supply = 40;
    p.total_offerings = 2;
    let o = create_token_offering(&mut p, &mut c, key(1), 1_000, 5, 2_000, 3_000, 1_500).unwrap();
    assert_eq!(
        o,
        TokenOffering {
            id: 3,
            company_id: 1,
            company_authority: key(1),
            token_mint: key(9),
            total_supply: 1_000,
            remaining_supply: 1_000,
            price_per_token: 5,
            offering_start: 2_000,
            offering_end: 3_000,
            total_raised: 0,
            participants_count: 0,
            status: OfferingStatus::Pending,
            created_at: 1_500,
        }
    );
    assert_eq!(p.total_offerings, 3);
    assert_eq!(c.total_supply, 1_040);
}

#[test]
fn offering_refusals() {
    let (mut p, mut c) = setup();
    let (p0, c0) = (p, c.clone());
    let mut attempt = |p: &mut Platform, c: &mut Company, who, supply, price, start, end, now| {
        create_token_offering(p, c, who, supply, price, start, end, now).unwrap_err()
    };
    assert_eq!(attempt(&mut p, &mut c, key(1), 0, 5, 2_000, 3_000, 1_500), DefiTradingError::InvalidOfferingParams);
    assert_eq!(attempt(&mut p, &mut c, key(1), 10, 0, 2_000, 3_000, 1_500), DefiTradingError::InvalidOfferingParams);
    assert_eq!(attempt(&mut p, &mut c, key(1), 10, 5, 1_500, 3_000, 1_500), DefiTradingError::InvalidTimestamp);
    assert_eq!(attempt(&mut p, &mut c, key(1), 10, 5, 2_000, 2_000, 1_500), DefiTradingError::InvalidTimestamp);
    assert_eq!(attempt(&mut p, &mut c, key(2), 10, 5, 2_000, 3_000, 1_500), DefiTradingError::Unauthorized);
    assert_eq!((p, c.clone()), (p0, c0.clone()));
    c.total_supply = u64::MAX;
    assert_eq!(attempt(&mut p, &mut c, key(1), 1, 5, 2_000, 3_000, 1_500), DefiTradingError::ArithmeticOverflow);
    assert_eq!((p.total_offerings, c.total_supply), (0, u64::MAX));
    c.total_supply = 0;
    p.total_offerings = u64::MAX;
    assert_eq!(attempt(&mut p, &mut c, key(1), 1, 5, 2_000, 3_000, 1_500), DefiTradingError::ArithmeticOverflow);
    assert_eq!(c.total_supply, 0);
    p.is_paused = true;
    assert_eq!(attempt(&mut p, &mut c, key(1), 0, 0, 0, 0, 1_500), DefiTradingError::PlatformPaused);
}

#[test]
fn participation_buys_at_the_fixed_price_rounded_down() {
    let mut o = offering();
    assert_eq!(
        participate_in_offering(&mut o, key(2), 52, 2_000),
        Ok(OfferingParticipation {
            user: key(2),
            offering_id: 1,
            company_id: 1,
            amount_invested: 52,
            tokens_received: 10,
            participated_at: 2_000,
        })
    );
    assert_eq!(o.status, OfferingStatus::Active);
    assert_eq!(o.remaining_supply, 990);
    assert_eq!(o.total_raised, 52);
    assert_eq!(o.participants_count, 1);
}

#[test]
fn offering_completes_when_nothing_is_left() {
    let mut o = offering();
    participate_in_offering(&mut o, key(2), 4_000, 2_500).unwrap();
    assert_eq!((o.status, o.remaining_supply), (OfferingStatus::Active, 200));
    let last = participate_in_offering(&mut o, key(3), 1_000, 3_000).unwrap();
    assert_eq!(last.tokens_received, 200);
    assert_eq!((o.status, o.remaining_supply), (OfferingStatus::Completed, 0));
    assert_eq!((o.total_raised, o.participants_count), (5_000, 2));
}

#[test]
fn participation_refusals() {
    let mut o = offering();
    let before = o;
    assert_eq!(participate_in_offering(&mut o, key(2), 50, 1_999), Err(DefiTradingError::OfferingNotStarted));
    assert_eq!(participate_in_offering(&mut o, key(2), 50, 3_001), Err(DefiTradingError::OfferingEnded));
    assert_eq!(participate_in_offering(&mut o, key(2), 0, 2_500), Err(DefiTradingError::InvalidOfferingParams));
    assert_eq!(participate_in_offering(&mut o, key(2), 5_005, 2_500), Err(DefiTradingError::InsufficientTokens));
    assert_eq!(o, before);
    o.price_per_token = 0;
    assert_eq!(participate_in_offering(&mut o, key(2), 50, 2_500), Err(DefiTradingError::DivisionByZero));
    o.price_per_token = 5;
    o.total_raised = u64::MAX - 49;
    assert_eq!(participate_in_offering(&mut o, key(2), 50, 2_500), Err(DefiTradingError::ArithmeticOverflow));
    o.total_raised = 0;
    o.participants_count = u64::MAX;
    assert_eq!(participate_in_offering(&mut o, key(2), 50, 2_500), Err(DefiTradingError::ArithmeticOverflow));
    assert_eq!((o.remaining_supply, o.status), (1_000, OfferingStatus::Pending));
}
