//! The platform: configuration store, discount registry, and purchase
//! executor.
//!
//! [`CoffeePlatform`] holds the one deployment's mutable state: the
//! platform-wide configuration singleton and the registry of per-creator fee
//! discounts, keyed by creator identity with at most one live discount per
//! creator. Every mutation is gated on the caller matching the stored
//! authority and either applies completely or leaves the state exactly as it
//! was.
//!
//! A purchase mutates nothing: [`CoffeePlatform::buy_coffee`] validates the
//! request, resolves the effective fee rate, computes the split, and returns
//! a [`PurchaseReceipt`] naming the two transfers owed. The enclosing runtime
//! must perform both as one atomic unit; a rejected purchase returns an error
//! and owes no transfer at all.

use vstd::prelude::*;

use crate::accounts::AddCreatorFeeDiscount;
use crate::accounts::BuyCoffee;
use crate::accounts::CreatorFeeDiscount;
use crate::accounts::InitializePlatform;
use crate::accounts::PlatformState;
use crate::accounts::RemoveCreatorDiscount;
use crate::accounts::UpdateCreatorFeeDiscount;
use crate::accounts::UpdateFee;
use crate::accounts::UpdateFeeDestination;
use crate::accounts::SYSTEM_PROGRAM_ID;
use crate::errors::ErrorCode;
use crate::events::CoffeePurchased;
use crate::events::CreatorFeeDiscountAdded;
use crate::events::CreatorFeeDiscountRemoved;
use crate::events::CreatorFeeDiscountUpdated;
use crate::events::FeeDestinationUpdated;
use crate::events::FeeUpdated;
use crate::events::PlatformInitialized;
use crate::fees::compute_split;
use crate::fees::resolve_fee;
use crate::fees::spec_creator_amount;
use crate::fees::spec_fee_amount;
use crate::fees::spec_total_amount;
use crate::fees::split_fits;

verus! {

/// One value movement owed to the ledger's transfer primitive.
#[derive(Clone, Copy, Debug, PartialEq, Eq, Structural)]
pub struct Transfer {
    pub from: u64,
    pub to: u64,
    pub amount: u64,
}

/// The outcome of a successful purchase: the two transfers the runtime must
/// perform, in order and as one atomic unit, and the completion notification
/// to publish once both have succeeded.
#[derive(Clone, Copy, Debug, PartialEq, Eq, Structural)]
pub struct PurchaseReceipt {
    /// Contributor pays the platform's cut to the fee destination.
    pub fee_transfer: Transfer,
    /// Contributor pays the remainder to the creator.
    pub creator_transfer: Transfer,
    /// The purchase-completed notification.
    pub event: CoffeePurchased,
}

/// The registry a discount sequence stands for: the map from each creator
/// identity to its override percentage.
pub open spec fn discounts_map(s: Seq<CreatorFeeDiscount>) -> Map<u64, u64>
    decreases s.len(),
{
    if s.len() == 0 {
        Map::empty()
    } else {
        discounts_map(s.drop_last()).insert(s.last().creator, s.last().fee_percentage)
    }
}

/// Well-formedness of the stored discount records: at most one per creator,
/// every percentage within bound.
pub open spec fn registry_wf(s: Seq<CreatorFeeDiscount>) -> bool {
    &&& forall|i: int, j: int|
        0 <= i < j < s.len() ==> (#[trigger] s[i]).creator != (#[trigger] s[j]).creator
    &&& forall|i: int| 0 <= i < s.len() ==> (#[trigger] s[i]).fee_percentage <= 100
}

/// Whether some stored record belongs to `creator`.
pub open spec fn has_creator(s: Seq<CreatorFeeDiscount>, creator: u64) -> bool {
    exists|i: int| 0 <= i < s.len() && (#[trigger] s[i]).creator == creator
}

/// The registry map contains exactly the creators of the stored records,
/// and, when the records are well formed, maps each to that record's
/// percentage.
pub proof fn lemma_discounts_map_characterization(s: Seq<CreatorFeeDiscount>)
    ensures
        forall|c: u64| #[trigger] discounts_map(s).dom().contains(c) <==> has_creator(s, c),
        registry_wf(s) ==> forall|i: int|
            0 <= i < s.len() ==> discounts_map(s)[(#[trigger] s[i]).creator]
                == s[i].fee_percentage,
    decreases s.len(),
{
    if s.len() == 0 {
        assert(forall|c: u64| !has_creator(s, c));
    } else {
        let s0 = s.drop_last();
        let last = s.last();
        lemma_discounts_map_characterization(s0);
        assert forall|c: u64| #[trigger] discounts_map(s).dom().contains(c) implies has_creator(
            s,
            c,
        ) by {
            if c == last.creator {
                assert(0 <= s.len() - 1 < s.len() && s[s.len() - 1].creator == c);
            } else {
                assert(discounts_map(s0).dom().contains(c));
                let i = choose|i: int| 0 <= i < s0.len() && (#[trigger] s0[i]).creator == c;
                assert(s[i] == s0[i]);
            }
        }
        assert forall|c: u64| has_creator(s, c) implies #[trigger] discounts_map(
            s,
        ).dom().contains(c) by {
            let i = choose|i: int| 0 <= i < s.len() && (#[trigger] s[i]).creator == c;
            if i < s.len() - 1 {
                assert(s0[i] == s[i]);
                assert(has_creator(s0, c));
            }
        }
        if registry_wf(s) {
            assert forall|i: int, j: int|
                0 <= i < j < s0.len() implies (#[trigger] s0[i]).creator
                != (#[trigger] s0[j]).creator by {
                assert(s0[i] == s[i] && s0[j] == s[j]);
            }
            assert forall|i: int| 0 <= i < s0.len() implies (#[trigger] s0[i]).fee_percentage
                <= 100 by {
                assert(s0[i] == s[i]);
            }
            assert(registry_wf(s0));
            assert forall|i: int| 0 <= i < s.len() implies discounts_map(s)[(
            #[trigger] s[i]).creator] == s[i].fee_percentage by {
                if i < s.len() - 1 {
                    assert(s0[i] == s[i]);
                    assert(s[i].creator != last.creator);
                    assert(discounts_map(s0)[s0[i].creator] == s0[i].fee_percentage);
                }
            }
        }
    }
}

/// The deployment's state: the configuration singleton (absent until
/// initialization) and the per-creator discount registry.
pub struct CoffeePlatform {
    state: Option<PlatformState>,
    discounts: Vec<CreatorFeeDiscount>,
}

impl CoffeePlatform {
    /// The configuration singleton, if the platform has been initialized.
    pub closed spec fn config(self) -> Option<PlatformState> {
        self.state
    }

    /// The discount registry as a map from creator identity to override
    /// percentage.
    pub closed spec fn discount_map(self) -> Map<u64, u64> {
        discounts_map(self.discounts@)
    }

    /// Internal consistency: well-formed discount records, configuration
    /// percentage within bound, and no discounts before initialization.
    pub closed spec fn inv(self) -> bool {
        &&& registry_wf(self.discounts@)
        &&& (self.state matches Some(st) ==> st.fee_percentage <= 100)
        &&& (self.state is None ==> self.discounts@.len() == 0)
    }

    /// Whether the configuration singleton exists.
    pub open spec fn is_initialized(self) -> bool {
        self.config() is Some
    }

    /// The stored authority (meaningful once initialized).
    pub open spec fn authority(self) -> u64 {
        self.config()->0.authority
    }

    /// The stored fee destination (meaningful once initialized).
    pub open spec fn fee_destination(self) -> u64 {
        self.config()->0.fee_destination
    }

    /// The platform default fee percentage (meaningful once initialized).
    pub open spec fn fee_percentage(self) -> u64 {
        self.config()->0.fee_percentage
    }

    /// Whether a discount is registered for `creator`.
    pub open spec fn has_discount(self, creator: u64) -> bool {
        self.discount_map().dom().contains(creator)
    }

    /// The fee rate a purchase for `creator` is charged at: the creator's
    /// discount while one exists, else the platform default.
    pub open spec fn effective_fee(self, creator: u64) -> u64 {
        if self.has_discount(creator) {
            self.discount_map()[creator]
        } else {
            self.fee_percentage()
        }
    }

    /// Observational equality: same configuration, same registry.
    pub open spec fn same_state(self, other: CoffeePlatform) -> bool {
        self.config() == other.config() && self.discount_map() == other.discount_map()
    }

    /// The error initialization returns when it fails.
    pub open spec fn initialize_error(self, ctx: InitializePlatform, fee_percentage: u64) -> ErrorCode {
        if self.is_initialized() {
            ErrorCode::AccountAlreadyExists
        } else if !ctx.fee_destination.is_externally_owned() {
            ErrorCode::InvalidFeeDestination
        } else {
            ErrorCode::InvalidFeePercentage
        }
    }

    /// The error a default-fee update returns when it fails.
    pub open spec fn update_fee_error(self, ctx: UpdateFee, new_fee_percentage: u64) -> ErrorCode {
        if !self.is_initialized() {
            ErrorCode::AccountNotFound
        } else if ctx.authority != self.authority() {
            ErrorCode::Unauthorized
        } else {
            ErrorCode::InvalidFeePercentage
        }
    }

    /// The error a fee-destination update returns when it fails.
    pub open spec fn update_fee_destination_error(self, ctx: UpdateFeeDestination) -> ErrorCode {
        if !self.is_initialized() {
            ErrorCode::AccountNotFound
        } else if ctx.authority != self.authority() {
            ErrorCode::Unauthorized
        } else {
            ErrorCode::InvalidFeeDestination
        }
    }

    /// The error discount creation returns when it fails.
    pub open spec fn add_discount_error(self, ctx: AddCreatorFeeDiscount, fee_percentage: u64) -> ErrorCode {
        if !self.is_initialized() {
            ErrorCode::AccountNotFound
        } else if ctx.authority != self.authority() {
            ErrorCode::Unauthorized
        } else if fee_percentage > 100 {
            ErrorCode::InvalidFeePercentage
        } else {
            ErrorCode::AccountAlreadyExists
        }
    }

    /// The error a discount update returns when it fails.
    pub open spec fn update_discount_error(
        self,
        ctx: UpdateCreatorFeeDiscount,
        new_fee_percentage: u64,
    ) -> ErrorCode {
        if !self.is_initialized() {
            ErrorCode::AccountNotFound
        } else if ctx.authority != self.authority() {
            ErrorCode::Unauthorized
        } else if new_fee_percentage > 100 {
            ErrorCode::InvalidFeePercentage
        } else {
            ErrorCode::AccountNotFound
        }
    }

    /// The error discount removal returns when it fails.
    pub open spec fn remove_discount_error(self, ctx: RemoveCreatorDiscount) -> ErrorCode {
        if !self.is_initialized() {
            ErrorCode::AccountNotFound
        } else if ctx.authority != self.authority() {
            ErrorCode::Unauthorized
        } else {
            ErrorCode::AccountNotFound
        }
    }

    /// The error a purchase returns when it fails.
    pub open spec fn buy_error(self, ctx: BuyCoffee, units_bought: u64, unit_price: u64) -> ErrorCode {
        if !self.is_initialized() {
            ErrorCode::AccountNotFound
        } else if ctx.fee_destination != self.fee_destination() {
            ErrorCode::InvalidFeeDestination
        } else if units_bought == 0 {
            ErrorCode::InvalidUnits
        } else if unit_price == 0 {
            ErrorCode::InvalidUnitPrice
        } else {
            ErrorCode::ArithmeticOverflow
        }
    }

    /// A fresh deployment: no configuration, no discounts.
    pub fn new() -> (platform: CoffeePlatform)
        ensures
            platform.inv(),
            !platform.is_initialized(),
            platform.discount_map() == Map::<u64, u64>::empty(),
    {
        CoffeePlatform { state: None, discounts: Vec::new() }
    }

    /// Reads the configuration singleton.
    pub fn platform_config(&self) -> (r: Option<PlatformState>)
        ensures
            r == self.config(),
    {
        self.state
    }

    /// The index of the discount record for `creator`, if one exists.
    fn find_discount_index(&self, creator: u64) -> (r: Option<usize>)
        ensures
            r matches Some(i) ==> i < self.discounts@.len() && self.discounts@[i as int].creator
                == creator,
            r is None ==> !has_creator(self.discounts@, creator),
    {
        let n = self.discounts.len();
        let mut i: usize = 0;
        while i < n
            invariant
                n == self.discounts@.len(),
                i <= n,
                forall|j: int| 0 <= j < i ==> (#[trigger] self.discounts@[j]).creator != creator,
            decreases n - i,
        {
            if self.discounts[i].creator == creator {
                return Some(i);
            }
            i = i + 1;
        }
        None
    }

    /// Reads the discount percentage registered for `creator`, if any.
    pub fn discount_for(&self, creator: u64) -> (r: Option<u64>)
        requires
            self.inv(),
        ensures
            r == (if self.has_discount(creator) {
                Some(self.discount_map()[creator])
            } else {
                None::<u64>
            }),
            r matches Some(fee_percentage) ==> fee_percentage <= 100,
    {
        proof {
            lemma_discounts_map_characterization(self.discounts@);
        }
        match self.find_discount_index(creator) {
            Some(i) => Some(self.discounts[i].fee_percentage),
            None => None,
        }
    }

    /// Creates the configuration singleton. Fails if it already exists, if
    /// the fee destination is not externally owned, or if the percentage is
    /// out of bound; the caller becomes the platform authority.
    pub fn initialize_platform(
        &mut self,
        ctx: InitializePlatform,
        platform_fee_percentage: u64,
    ) -> (r: Result<PlatformInitialized, ErrorCode>)
        requires
            old(self).inv(),
        ensures
            final(self).inv(),
            r is Ok <==> {
                &&& !old(self).is_initialized()
                &&& ctx.fee_destination.is_externally_owned()
                &&& platform_fee_percentage <= 100
            },
            r matches Ok(ev) ==> {
                &&& final(self).config() == Some(
                    PlatformState {
                        authority: ctx.authority,
                        fee_destination: ctx.fee_destination.key,
                        fee_percentage: platform_fee_percentage,
                    },
                )
                &&& final(self).discount_map() == old(self).discount_map()
                &&& ev == (PlatformInitialized {
                    authority: ctx.authority,
                    fee_destination: ctx.fee_destination.key,
                    fee_percentage: platform_fee_percentage,
                })
            },
            r matches Err(e) ==> final(self).same_state(*old(self)) && e == old(
                self,
            ).initialize_error(ctx, platform_fee_percentage),
    {
        if self.state.is_some() {
            return Err(ErrorCode::AccountAlreadyExists);
        }
        if ctx.fee_destination.owner != SYSTEM_PROGRAM_ID {
            return Err(ErrorCode::InvalidFeeDestination);
        }
        if platform_fee_percentage > 100 {
            return Err(ErrorCode::InvalidFeePercentage);
        }
        self.state = Some(
            PlatformState {
                authority: ctx.authority,
                fee_destination: ctx.fee_destination.key,
                fee_percentage: platform_fee_percentage,
            },
        );
        Ok(
            PlatformInitialized {
                authority: ctx.authority,
                fee_destination: ctx.fee_destination.key,
                fee_percentage: platform_fee_percentage,
            },
        )
    }

    /// Changes the platform default fee percentage. Only the stored
    /// authority may do so, and only to a value within bound.
    pub fn update_fee(&mut self, ctx: UpdateFee, new_fee_percentage: u64) -> (r: Result<
        FeeUpdated,
        ErrorCode,
    >)
        requires
            old(self).inv(),
        ensures
            final(self).inv(),
            r is Ok <==> {
                &&& old(self).is_initialized()
                &&& ctx.authority == old(self).authority()
                &&& new_fee_percentage <= 100
            },
            r matches Ok(ev) ==> {
                &&& final(self).config() == Some(
                    PlatformState {
                        authority: old(self).authority(),
                        fee_destination: old(self).fee_destination(),
                        fee_percentage: new_fee_percentage,
                    },
                )
                &&& final(self).discount_map() == old(self).discount_map()
                &&& ev == (FeeUpdated { new_fee_percentage })
            },
            r matches Err(e) ==> final(self).same_state(*old(self)) && e == old(
                self,
            ).update_fee_error(ctx, new_fee_percentage),
    {
        let st = match self.state {
            Some(st) => st,
            None => {
                return Err(ErrorCode::AccountNotFound);
            },
        };
        if ctx.authority != st.authority {
            return Err(ErrorCode::Unauthorized);
        }
        if new_fee_percentage > 100 {
            return Err(ErrorCode::InvalidFeePercentage);
        }
        self.state = Some(
            PlatformState {
                authority: st.authority,
                fee_destination: st.fee_destination,
                fee_percentage: new_fee_percentage,
            },
        );
        Ok(FeeUpdated { new_fee_percentage })
    }

    /// Changes the account receiving the platform's cut. Only the stored
    /// authority may do so, and only to an externally-owned account.
    pub fn update_fee_destination(&mut self, ctx: UpdateFeeDestination) -> (r: Result<
        FeeDestinationUpdated,
        ErrorCode,
    >)
        requires
            old(self).inv(),
        ensures
            final(self).inv(),
            r is Ok <==> {
                &&& old(self).is_initialized()
                &&& ctx.authority == old(self).authority()
                &&& ctx.new_fee_destination.is_externally_owned()
            },
            r matches Ok(ev) ==> {
                &&& final(self).config() == Some(
                    PlatformState {
                        authority: old(self).authority(),
                        fee_destination: ctx.new_fee_destination.key,
                        fee_percentage: old(self).fee_percentage(),
                    },
                )
                &&& final(self).discount_map() == old(self).discount_map()
                &&& ev == (FeeDestinationUpdated {
                    new_fee_destination: ctx.new_fee_destination.key,
                })
            },
            r matches Err(e) ==> final(self).same_state(*old(self)) && e == old(
                self,
            ).update_fee_destination_error(ctx),
    {
        let st = match self.state {
            Some(st) => st,
            None => {
                return Err(ErrorCode::AccountNotFound);
            },
        };
        if ctx.authority != st.authority {
            return Err(ErrorCode::Unauthorized);
        }
        if ctx.new_fee_destination.owner != SYSTEM_PROGRAM_ID {
            return Err(ErrorCode::InvalidFeeDestination);
        }
        self.state = Some(
            PlatformState {
                authority: st.authority,
                fee_destination: ctx.new_fee_destination.key,
                fee_percentage: st.fee_percentage,
            },
        );
        Ok(FeeDestinationUpdated { new_fee_destination: ctx.new_fee_destination.key })
    }

    /// Registers a discount for a creator. Only the stored authority may do
    /// so; creation fails, rather than overwriting, when a discount for that
    /// creator already exists.
    pub fn add_creator_fee_discount(
        &mut self,
        ctx: AddCreatorFeeDiscount,
        fee_percentage: u64,
    ) -> (r: Result<CreatorFeeDiscountAdded, ErrorCode>)
        requires
            old(self).inv(),
        ensures
            final(self).inv(),
            r is Ok <==> {
                &&& old(self).is_initialized()
                &&& ctx.authority == old(self).authority()
                &&& fee_percentage <= 100
                &&& !old(self).has_discount(ctx.creator)
            },
            r matches Ok(ev) ==> {
                &&& final(self).config() == old(self).config()
                &&& final(self).discount_map() == old(self).discount_map().insert(
                    ctx.creator,
                    fee_percentage,
                )
                &&& ev == (CreatorFeeDiscountAdded { creator: ctx.creator, fee_percentage })
            },
            r matches Err(e) ==> final(self).same_state(*old(self)) && e == old(
                self,
            ).add_discount_error(ctx, fee_percentage),
    {
        let st = match self.state {
            Some(st) => st,
            None => {
                return Err(ErrorCode::AccountNotFound);
            },
        };
        if ctx.authority != st.authority {
            return Err(ErrorCode::Unauthorized);
        }
        if fee_percentage > 100 {
            return Err(ErrorCode::InvalidFeePercentage);
        }
        proof {
            lemma_discounts_map_characterization(self.discounts@);
        }
        match self.find_discount_index(ctx.creator) {
            Some(_) => Err(ErrorCode::AccountAlreadyExists),
            None => {
                let ghost s0 = self.discounts@;
                self.discounts.push(CreatorFeeDiscount { creator: ctx.creator, fee_percentage });
                proof {
                    let s1 = self.discounts@;
                    assert(s1.drop_last() =~= s0);
                    assert forall|i: int, j: int|
                        0 <= i < j < s1.len() implies (#[trigger] s1[i]).creator
                        != (#[trigger] s1[j]).creator by {
                        if j == s1.len() - 1 {
                            assert(s1[i] == s0[i]);
                            if s1[i].creator == ctx.creator {
                                assert(0 <= i < s0.len() && (s0[i]).creator == ctx.creator);
                                assert(has_creator(s0, ctx.creator));
                            }
                        } else {
                            assert(s1[i] == s0[i] && s1[j] == s0[j]);
                        }
                    }
                    assert forall|i: int| 0 <= i < s1.len() implies (
                    #[trigger] s1[i]).fee_percentage <= 100 by {
                        if i < s1.len() - 1 {
                            assert(s1[i] == s0[i]);
                        }
                    }
                }
                Ok(CreatorFeeDiscountAdded { creator: ctx.creator, fee_percentage })
            },
        }
    }

    /// Changes an existing discount in place. Only the stored authority may
    /// do so; the discount record for the creator must already exist.
    pub fn update_creator_fee_discount(
        &mut self,
        ctx: UpdateCreatorFeeDiscount,
        new_fee_percentage: u64,
    ) -> (r: Result<CreatorFeeDiscountUpdated, ErrorCode>)
        requires
            old(self).inv(),
        ensures
            final(self).inv(),
            r is Ok <==> {
                &&& old(self).is_initialized()
                &&& ctx.authority == old(self).authority()
                &&& new_fee_percentage <= 100
                &&& old(self).has_discount(ctx.creator)
            },
            r matches Ok(ev) ==> {
                &&& final(self).config() == old(self).config()
                &&& final(self).discount_map() == old(self).discount_map().insert(
                    ctx.creator,
                    new_fee_percentage,
                )
                &&& ev == (CreatorFeeDiscountUpdated { creator: ctx.creator, new_fee_percentage })
            },
            r matches Err(e) ==> final(self).same_state(*old(self)) && e == old(
                self,
            ).update_discount_error(ctx, new_fee_percentage),
    {
        let st = match self.state {
            Some(st) => st,
            None => {
                return Err(ErrorCode::AccountNotFound);
            },
        };
        if ctx.authority != st.authority {
            return Err(ErrorCode::Unauthorized);
        }
        if new_fee_percentage > 100 {
            return Err(ErrorCode::InvalidFeePercentage);
        }
        proof {
            lemma_discounts_map_characterization(self.discounts@);
        }
        match self.find_discount_index(ctx.creator) {
            None => Err(ErrorCode::AccountNotFound),
            Some(i) => {
                let ghost s0 = self.discounts@;
                self.discounts[i] = CreatorFeeDiscount {
                    creator: ctx.creator,
                    fee_percentage: new_fee_percentage,
                };
                proof {
                    let s1 = self.discounts@;
                    assert forall|j: int| 0 <= j < s1.len() implies (#[trigger] s1[j]).creator
                        == s0[j].creator by {}
                    assert forall|a: int, b: int|
                        0 <= a < b < s1.len() implies (#[trigger] s1[a]).creator
                        != (#[trigger] s1[b]).creator by {
                        assert(s1[a].creator == s0[a].creator && s1[b].creator == s0[b].creator);
                    }
                    assert forall|j: int| 0 <= j < s1.len() implies (
                    #[trigger] s1[j]).fee_percentage <= 100 by {
                        if j != i {
                            assert(s1[j] == s0[j]);
                        }
                    }
                    lemma_discounts_map_characterization(s1);
                    let m0 = discounts_map(s0);
                    let m1 = discounts_map(s1);
                    assert forall|c: u64| #[trigger] m1.dom().contains(c) implies m0.insert(
                        ctx.creator,
                        new_fee_percentage,
                    ).dom().contains(c) by {
                        let j = choose|j: int| 0 <= j < s1.len() && (#[trigger] s1[j]).creator == c;
                        if c != ctx.creator {
                            assert(s0[j].creator == c);
                            assert(has_creator(s0, c));
                        }
                    }
                    assert forall|c: u64|
                        m0.insert(ctx.creator, new_fee_percentage).dom().contains(
                            c,
                        ) implies #[trigger] m1.dom().contains(c) by {
                        if c == ctx.creator {
                            assert(s1[i as int].creator == c);
                            assert(has_creator(s1, c));
                        } else {
                            let j = choose|j: int|
                                0 <= j < s0.len() && (#[trigger] s0[j]).creator == c;
                            assert(s1[j].creator == c);
                            assert(has_creator(s1, c));
                        }
                    }
                    assert forall|c: u64| #[trigger] m1.dom().contains(c) implies m1[c] == m0.insert(
                        ctx.creator,
                        new_fee_percentage,
                    )[c] by {
                        if c == ctx.creator {
                            assert(s1[i as int].creator == c);
                            assert(m1[s1[i as int].creator] == s1[i as int].fee_percentage);
                        } else {
                            let j = choose|j: int|
                                0 <= j < s1.len() && (#[trigger] s1[j]).creator == c;
                            assert(j != i);
                            assert(s1[j] == s0[j]);
                            assert(m1[s1[j].creator] == s1[j].fee_percentage);
                            assert(m0[s0[j].creator] == s0[j].fee_percentage);
                        }
                    }
                    assert(m1 =~= m0.insert(ctx.creator, new_fee_percentage));
                }
                Ok(CreatorFeeDiscountUpdated { creator: ctx.creator, new_fee_percentage })
            },
        }
    }

    /// Destroys the discount record for a creator, reclaiming its storage to
    /// the authority. Only the stored authority may do so; the record must
    /// exist.
    pub fn remove_creator_discount(&mut self, ctx: RemoveCreatorDiscount) -> (r: Result<
        CreatorFeeDiscountRemoved,
        ErrorCode,
    >)
        requires
            old(self).inv(),
        ensures
            final(self).inv(),
            r is Ok <==> {
                &&& old(self).is_initialized()
                &&& ctx.authority == old(self).authority()
                &&& old(self).has_discount(ctx.creator)
            },
            r matches Ok(ev) ==> {
                &&& final(self).config() == old(self).config()
                &&& final(self).discount_map() == old(self).discount_map().remove(ctx.creator)
                &&& ev == (CreatorFeeDiscountRemoved { creator: ctx.creator })
            },
            r matches Err(e) ==> final(self).same_state(*old(self)) && e == old(
                self,
            ).remove_discount_error(ctx),
    {
        let st = match self.state {
            Some(st) => st,
            None => {
                return Err(ErrorCode::AccountNotFound);
            },
        };
        if ctx.authority != st.authority {
            return Err(ErrorCode::Unauthorized);
        }
        proof {
            lemma_discounts_map_characterization(self.discounts@);
        }
        match self.find_discount_index(ctx.creator) {
            None => Err(ErrorCode::AccountNotFound),
            Some(i) => {
                let ghost s0 = self.discounts@;
                self.discounts.remove(i);
                proof {
                    let s1 = self.discounts@;
                    s0.remove_ensures(i as int);
                    assert forall|a: int, b: int|
                        0 <= a < b < s1.len() implies (#[trigger] s1[a]).creator
                        != (#[trigger] s1[b]).creator by {
                        let a0: int = if a < i { a } else { a + 1 };
                        let b0: int = if b < i { b } else { b + 1 };
                        assert(s1[a] == s0[a0] && s1[b] == s0[b0]);
                    }
                    assert forall|j: int| 0 <= j < s1.len() implies (
                    #[trigger] s1[j]).fee_percentage <= 100 by {
                        let j0: int = if j < i { j } else { j + 1 };
                        assert(s1[j] == s0[j0]);
                    }
                    lemma_discounts_map_characterization(s1);
                    let m0 = discounts_map(s0);
                    let m1 = discounts_map(s1);
                    assert forall|c: u64| #[trigger] m1.dom().contains(c) implies m0.remove(
                        ctx.creator,
                    ).dom().contains(c) by {
                        let j = choose|j: int| 0 <= j < s1.len() && (#[trigger] s1[j]).creator == c;
                        let j0: int = if j < i { j } else { j + 1 };
                        assert(s1[j] == s0[j0]);
                        assert(has_creator(s0, c));
                        assert(j0 != i);
                        assert(c != ctx.creator);
                    }
                    assert forall|c: u64| m0.remove(ctx.creator).dom().contains(
                        c,
                    ) implies #[trigger] m1.dom().contains(c) by {
                        let j0 = choose|j0: int|
                            0 <= j0 < s0.len() && (#[trigger] s0[j0]).creator == c;
                        assert(j0 != i);
                        let j: int = if j0 < i { j0 } else { j0 - 1 };
                        assert(s1[j] == s0[j0]);
                        assert(has_creator(s1, c));
                    }
                    assert forall|c: u64| #[trigger] m1.dom().contains(c) implies m1[c] == m0.remove(
                        ctx.creator,
                    )[c] by {
                        let j = choose|j: int| 0 <= j < s1.len() && (#[trigger] s1[j]).creator == c;
                        let j0: int = if j < i { j } else { j + 1 };
                        assert(s1[j] == s0[j0]);
                        assert(m1[s1[j].creator] == s1[j].fee_percentage);
                        assert(m0[s0[j0].creator] == s0[j0].fee_percentage);
                    }
                    assert(m1 =~= m0.remove(ctx.creator));
                }
                Ok(CreatorFeeDiscountRemoved { creator: ctx.creator })
            },
        }
    }

    /// Executes one purchase against the current state: validates the
    /// request, resolves the effective fee rate, computes the split, and
    /// returns the receipt naming the two transfers owed. Mutates nothing;
    /// on any failure, overflow included, no transfer is owed at all.
    pub fn buy_coffee(&self, ctx: BuyCoffee, units_bought: u64, unit_price: u64) -> (r: Result<
        PurchaseReceipt,
        ErrorCode,
    >)
        requires
            self.inv(),
        ensures
            r is Ok <==> {
                &&& self.is_initialized()
                &&& ctx.fee_destination == self.fee_destination()
                &&& units_bought > 0
                &&& unit_price > 0
                &&& split_fits(units_bought, unit_price, self.effective_fee(ctx.creator))
            },
            r matches Ok(receipt) ==> {
                let pct = self.effective_fee(ctx.creator);
                &&& receipt.fee_transfer == (Transfer {
                    from: ctx.contributor,
                    to: self.fee_destination(),
                    amount: spec_fee_amount(units_bought, unit_price, pct) as u64,
                })
                &&& receipt.creator_transfer == (Transfer {
                    from: ctx.contributor,
                    to: ctx.creator,
                    amount: spec_creator_amount(units_bought, unit_price, pct) as u64,
                })
                &&& receipt.fee_transfer.amount + receipt.creator_transfer.amount
                    == spec_total_amount(units_bought, unit_price)
                &&& receipt.event == (CoffeePurchased {
                    contributor: ctx.contributor,
                    creator: ctx.creator,
                    total_amount: spec_total_amount(units_bought, unit_price) as u64,
                    fee_amount: receipt.fee_transfer.amount,
                    creator_amount: receipt.creator_transfer.amount,
                })
            },
            r matches Err(e) ==> e == self.buy_error(ctx, units_bought, unit_price),
    {
        let st = match self.state {
            Some(st) => st,
            None => {
                return Err(ErrorCode::AccountNotFound);
            },
        };
        if ctx.fee_destination != st.fee_destination {
            return Err(ErrorCode::InvalidFeeDestination);
        }
        if units_bought == 0 {
            return Err(ErrorCode::InvalidUnits);
        }
        if unit_price == 0 {
            return Err(ErrorCode::InvalidUnitPrice);
        }
        let discount = self.discount_for(ctx.creator);
        let fee_percentage = resolve_fee(st.fee_percentage, discount);
        match compute_split(units_bought, unit_price, fee_percentage) {
            Err(e) => Err(e),
            Ok((total_amount, fee_amount, creator_amount)) => Ok(
                PurchaseReceipt {
                    fee_transfer: Transfer {
                        from: ctx.contributor,
                        to: st.fee_destination,
                        amount: fee_amount,
                    },
                    creator_transfer: Transfer {
                        from: ctx.contributor,
                        to: ctx.creator,
                        amount: creator_amount,
                    },
                    event: CoffeePurchased {
                        contributor: ctx.contributor,
                        creator: ctx.creator,
                        total_amount,
                        fee_amount,
                        creator_amount,
                    },
                },
            ),
        }
    }
}

/// Adding a discount is not an overwrite: once a discount for a creator
/// exists, a second creation attempt for the same creator is rejected with
/// `AccountAlreadyExists` — whatever percentage it proposes and before it
/// touches any state — and the first record keeps its percentage.
pub proof fn lemma_add_discount_not_overwrite(
    pre: CoffeePlatform,
    mid: CoffeePlatform,
    ctx1: AddCreatorFeeDiscount,
    ctx2: AddCreatorFeeDiscount,
    fee_percentage1: u64,
    fee_percentage2: u64,
)
    requires
        // the first creation succeeded, taking `pre` to `mid`:
        pre.is_initialized(),
        ctx1.authority == pre.authority(),
        fee_percentage1 <= 100,
        !pre.has_discount(ctx1.creator),
        mid.config() == pre.config(),
        mid.discount_map() == pre.discount_map().insert(ctx1.creator, fee_percentage1),
        // the second creation names the same creator:
        ctx2.creator == ctx1.creator,
    ensures
        mid.has_discount(ctx2.creator),
        ctx2.authority == mid.authority() && fee_percentage2 <= 100 ==> mid.add_discount_error(
            ctx2,
            fee_percentage2,
        ) == ErrorCode::AccountAlreadyExists,
        mid.discount_map()[ctx1.creator] == fee_percentage1,
{
}

/// Once a creator's discount is removed, the platform default applies to
/// that creator again: the removed rate has no further effect on purchases.
pub proof fn lemma_remove_restores_default(
    pre: CoffeePlatform,
    post: CoffeePlatform,
    ctx: RemoveCreatorDiscount,
)
    requires
        // the removal succeeded, taking `pre` to `post`:
        post.config() == pre.config(),
        post.discount_map() == pre.discount_map().remove(ctx.creator),
    ensures
        !post.has_discount(ctx.creator),
        post.effective_fee(ctx.creator) == post.fee_percentage(),
        post.fee_percentage() == pre.fee_percentage(),
{
}

/// Every configuration mutation is rejected as `Unauthorized` when the
/// caller is any identity other than the stored authority; together with
/// each operation's contract (a failed call leaves the state unchanged),
/// no other party can mutate platform or discount state.
pub proof fn lemma_unauthorized_callers_rejected(
    platform: CoffeePlatform,
    uf: UpdateFee,
    ufd: UpdateFeeDestination,
    ad: AddCreatorFeeDiscount,
    ud: UpdateCreatorFeeDiscount,
    rd: RemoveCreatorDiscount,
    fee_percentage: u64,
)
    requires
        platform.is_initialized(),
        uf.authority != platform.authority(),
        ufd.authority != platform.authority(),
        ad.authority != platform.authority(),
        ud.authority != platform.authority(),
        rd.authority != platform.authority(),
    ensures
        platform.update_fee_error(uf, fee_percentage) == ErrorCode::Unauthorized,
        platform.update_fee_destination_error(ufd) == ErrorCode::Unauthorized,
        platform.add_discount_error(ad, fee_percentage) == ErrorCode::Unauthorized,
        platform.update_discount_error(ud, fee_percentage) == ErrorCode::Unauthorized,
        platform.remove_discount_error(rd) == ErrorCode::Unauthorized,
{
}

} // verus!
