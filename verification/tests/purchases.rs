use crypto_coffee::accounts::{
    AccountRef, AddCreatorFeeDiscount, BuyCoffee, InitializePlatform, RemoveCreatorDiscount,
    SYSTEM_PROGRAM_ID,
};
use crypto_coffee::errors::ErrorCode;
use crypto_coffee::events::CoffeePurchased;
use crypto_coffee::platform::{CoffeePlatform, Transfer};

const AUTHORITY: u64 = 1;
const FEE_DEST: u64 = 2;
const CONTRIBUTOR: u64 = 5;
const CREATOR: u64 = 6;

fn initialized_platform(fee_percentage: u64) -> CoffeePlatform {
    let mut platform = CoffeePlatform::new();
    platform
        .initialize_platform(
            InitializePlatform {
                authority: AUTHORITY,
                fee_destination: AccountRef { key: FEE_DEST, owner: SYSTEM_PROGRAM_ID },
            },
            fee_percentage,
        )
        .unwrap();
    platform
}

fn buy_ctx() -> BuyCoffee {
    BuyCoffee { contributor: CONTRIBUTOR, creator: CREATOR, fee_destination: FEE_DEST }
}

#[test]
fn end_to_end_default_rate() {
    // initialize at 10%, buy 3 units at 100: total 300, fee 30, creator 270,
    // exactly two transfers: contributor->fee destination 30, contributor->creator 270
    let platform = initialized_platform(10);
    let receipt = platform.buy_coffee(buy_ctx(), 3, 100).unwrap();
    assert_eq!(
        receipt.fee_transfer,
        Transfer { from: CONTRIBUTOR, to: FEE_DEST, amount: 30 }
    );
    assert_eq!(
        receipt.creator_transfer,
        Transfer { from: CONTRIBUTOR, to: CREATOR, amount: 270 }
    );
    assert_eq!(
        receipt.event,
        CoffeePurchased {
            contributor: CONTRIBUTOR,
            creator: CREATOR,
            total_amount: 300,
            fee_amount: 30,
            creator_amount: 270,
        }
    );
}

#[test]
fn discount_overrides_default() {
    // an active 5% discount supersedes the 20% platform default
    let mut platform = initialized_platform(20);
    platform
        .add_creator_fee_discount(AddCreatorFeeDiscount { authority: AUTHORITY, creator: CREATOR }, 5)
        .unwrap();
    let receipt = platform.buy_coffee(buy_ctx(), 3, 100).unwrap();
    assert_eq!(receipt.fee_transfer.amount, 15);
    assert_eq!(receipt.creator_transfer.amount, 285);
}

#[test]
fn higher_discount_also_overrides() {
    let mut platform = initialized_platform(10);
    platform
        .add_creator_fee_discount(AddCreatorFeeDiscount { authority: AUTHORITY, creator: CREATOR }, 50)
        .unwrap();
    let receipt = platform.buy_coffee(buy_ctx(), 2, 100).unwrap();
    assert_eq!(receipt.fee_transfer.amount, 100);
    assert_eq!(receipt.creator_transfer.amount, 100);
}

#[test]
fn discount_applies_only_to_its_creator() {
    let mut platform = initialized_platform(20);
    platform
        .add_creator_fee_discount(AddCreatorFeeDiscount { authority: AUTHORITY, creator: 777 }, 5)
        .unwrap();
    let receipt = platform.buy_coffee(buy_ctx(), 3, 100).unwrap();
    assert_eq!(receipt.fee_transfer.amount, 60);
}

#[test]
fn removed_discount_restores_default() {
    // after removal, purchases resolve to the platform default, not the removed rate
    let mut platform = initialized_platform(20);
    platform
        .add_creator_fee_discount(AddCreatorFeeDiscount { authority: AUTHORITY, creator: CREATOR }, 5)
        .unwrap();
    platform
        .remove_creator_discount(RemoveCreatorDiscount { authority: AUTHORITY, creator: CREATOR })
        .unwrap();
    let receipt = platform.buy_coffee(buy_ctx(), 3, 100).unwrap();
    assert_eq!(receipt.fee_transfer.amount, 60);
    assert_eq!(receipt.creator_transfer.amount, 240);
}

#[test]
fn updated_fee_applies_to_later_purchases() {
    let mut platform = initialized_platform(10);
    platform
        .update_fee(crypto_coffee::accounts::UpdateFee { authority: AUTHORITY }, 25)
        .unwrap();
    let receipt = platform.buy_coffee(buy_ctx(), 4, 100).unwrap();
    assert_eq!(receipt.fee_transfer.amount, 100);
    assert_eq!(receipt.creator_transfer.amount, 300);
}

#[test]
fn overflow_owes_no_transfer() {
    // u64::MAX units at price 2 overflows before any transfer is owed
    let platform = initialized_platform(10);
    let r = platform.buy_coffee(buy_ctx(), u64::MAX, 2);
    assert_eq!(r, Err(ErrorCode::ArithmeticOverflow));
}

#[test]
fn overflow_in_fee_scaling() {
    let platform = initialized_platform(100);
    let r = platform.buy_coffee(buy_ctx(), u64::MAX, 1);
    assert_eq!(r, Err(ErrorCode::ArithmeticOverflow));
}

#[test]
fn zero_units_rejected() {
    let platform = initialized_platform(10);
    assert_eq!(platform.buy_coffee(buy_ctx(), 0, 100), Err(ErrorCode::InvalidUnits));
}

#[test]
fn zero_unit_price_rejected() {
    let platform = initialized_platform(10);
    assert_eq!(platform.buy_coffee(buy_ctx(), 3, 0), Err(ErrorCode::InvalidUnitPrice));
}

#[test]
fn mismatched_fee_destination_rejected() {
    // redirecting the platform's cut is refused
    let platform = initialized_platform(10);
    let ctx = BuyCoffee { contributor: CONTRIBUTOR, creator: CREATOR, fee_destination: 999 };
    assert_eq!(platform.buy_coffee(ctx, 3, 100), Err(ErrorCode::InvalidFeeDestination));
}

#[test]
fn purchase_before_initialization_rejected() {
    let platform = CoffeePlatform::new();
    assert_eq!(platform.buy_coffee(buy_ctx(), 3, 100), Err(ErrorCode::AccountNotFound));
}

#[test]
fn zero_fee_platform_sends_all_to_creator() {
    let platform = initialized_platform(0);
    let receipt = platform.buy_coffee(buy_ctx(), 3, 100).unwrap();
    assert_eq!(receipt.fee_transfer.amount, 0);
    assert_eq!(receipt.creator_transfer.amount, 300);
}

#[test]
fn purchase_mutates_nothing() {
    let mut platform = initialized_platform(10);
    platform
        .add_creator_fee_discount(AddCreatorFeeDiscount { authority: AUTHORITY, creator: CREATOR }, 5)
        .unwrap();
    let before = platform.platform_config();
    platform.buy_coffee(buy_ctx(), 3, 100).unwrap();
    assert_eq!(platform.platform_config(), before);
    assert_eq!(platform.discount_for(CREATOR), Some(5));
}
