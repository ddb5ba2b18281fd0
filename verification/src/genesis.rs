use crate::currency::low_bits;
use crate::percent::Percent;
use vstd::prelude::*;

verus! {

/// Account ids of the runtime fixture.
pub type AccountId = u64;

/// Balances of the runtime fixture.
pub type Balance = u128;

/// The accounts that start with an ordinary endowment, in genesis order.
pub open spec fn endowed_accounts() -> Seq<AccountId> {
    seq![1u64, 2u64, 3u64, 4u64, 10u64, 11u64, 20u64, 21u64, 30u64, 31u64, 40u64, 41u64, 100u64, 101u64]
}

/// The account whose large endowment makes the staking payout non-zero.
pub open spec fn payout_account() -> AccountId {
    999
}

/// The endowment of the payout account.
pub open spec fn payout_endowment() -> Balance {
    1_000_000_000_000
}

/// The multiplier on ordinary endowments: 256 when the builder asks for an
/// existential deposit, 1 otherwise.
pub open spec fn balance_factor(existential_deposit: u64) -> Balance {
    if existential_deposit > 0 {
        256
    } else {
        1
    }
}

/// The ordinary endowment under a given multiplier.
pub open spec fn ordinary_endowment(factor: Balance) -> Balance {
    (10_000_000_000 * factor) as u128
}

/// The genesis balances: every ordinary account with the ordinary endowment,
/// in order, followed by the payout account.
pub open spec fn endowments(factor: Balance) -> Seq<(AccountId, Balance)> {
    endowed_accounts().map_values(|a: AccountId| (a, ordinary_endowment(factor))).push(
        (payout_account(), payout_endowment()),
    )
}

/// The treasury reward recipients when the caller names none.
pub open spec fn default_recipients() -> Seq<AccountId> {
    seq![1u64, 2u64, 3u64]
}

/// Whether `pcts` is the default allocation: three shares of ten percent.
pub open spec fn is_default_percentages(pcts: Seq<Percent>) -> bool {
    &&& pcts.len() == 3
    &&& forall|i: int| 0 <= i < 3 ==> #[trigger] pcts[i].parts() == 10
}

/// The staking pallet's part of genesis: no stakers, two validators wanted,
/// no minimum, no invulnerables, and a tenth of each slash for reporters.
pub struct StakingGenesis {
    pub validator_count: u32,
    pub minimum_validator_count: u32,
    pub invulnerables: Vec<AccountId>,
    pub slash_reward_fraction: Percent,
}

/// The treasury reward pallet's part of genesis.
pub struct TreasuryRewardGenesis {
    pub current_payout: Balance,
    pub minting_interval: u64,
    pub recipients: Vec<AccountId>,
    pub recipient_percentages: Vec<Percent>,
}

/// Everything the externalities builder puts into genesis storage besides
/// the system pallet's defaults.
pub struct GenesisPlan {
    pub balances: Vec<(AccountId, Balance)>,
    pub staking: StakingGenesis,
    pub treasury_reward: TreasuryRewardGenesis,
}

/// Builds the genesis state of the runtime fixture.
pub struct ExtBuilder {
    existential_deposit: u64,
}

impl Default for ExtBuilder {
    /// A builder that asks for no existential deposit.
    fn default() -> (b: Self)
        ensures
            b.existential_deposit() == 0,
    {
        ExtBuilder { existential_deposit: 0 }
    }
}

impl ExtBuilder {
    /// The existential deposit the builder was asked for.
    pub closed spec fn existential_deposit(self) -> u64 {
        self.existential_deposit
    }

    /// The genesis plan for the given treasury reward recipients and their
    /// percentages; the recipients default to accounts 1, 2 and 3, and the
    /// percentages to ten percent each.
    pub fn build(self, recipients: Option<Vec<AccountId>>, pcts: Option<Vec<Percent>>) -> (g:
        GenesisPlan)
        ensures
            g.balances@ == endowments(balance_factor(self.existential_deposit())),
            g.balances@.len() == 15,
            g.balances@.map_values(|b: (AccountId, Balance)| b.0) == seq![
                1u64,
                2u64,
                3u64,
                4u64,
                10u64,
                11u64,
                20u64,
                21u64,
                30u64,
                31u64,
                40u64,
                41u64,
                100u64,
                101u64,
                999u64,
            ],
            forall|i: int|
                0 <= i < 14 ==> #[trigger] g.balances@[i].1 == if self.existential_deposit() > 0 {
                    2_560_000_000_000u128
                } else {
                    10_000_000_000u128
                },
            g.balances@[14].1 == 1_000_000_000_000u128,
            recipients is None ==> g.treasury_reward.recipients@ == default_recipients(),
            pcts is None ==> is_default_percentages(g.treasury_reward.recipient_percentages@),
            g.staking.validator_count == 2,
            g.staking.minimum_validator_count == 0,
            g.staking.invulnerables@ == Seq::<AccountId>::empty(),
            g.staking.slash_reward_fraction.parts() == 10,
            g.treasury_reward.current_payout == 9_500_000,
            g.treasury_reward.minting_interval == 1,
            g.treasury_reward.recipients@ == match recipients {
                Some(r) => r@,
                None => seq![1u64, 2u64, 3u64],
            },
            match pcts {
                Some(p) => g.treasury_reward.recipient_percentages@ == p@,
                None => {
                    &&& g.treasury_reward.recipient_percentages@.len() == 3
                    &&& forall|i: int|
                        0 <= i < 3 ==> #[trigger] g.treasury_reward.recipient_percentages@[i].parts()
                            == 10
                },
            },
    {
        let balance_factor: Balance = if self.existential_deposit > 0 {
            256
        } else {
            1
        };
        let recipients = match recipients {
            Some(r) => r,
            None => vec![1, 2, 3],
        };
        let pcts = match pcts {
            Some(p) => p,
            None => vec![
                Percent::from_percent(10),
                Percent::from_percent(10),
                Percent::from_percent(10),
            ],
        };
        let balances = endow(balance_factor);
        proof {
            lemma_endowments_listed(balance_factor);
            assert(balances@.map_values(|b: (AccountId, Balance)| b.0) =~= seq![
                1u64,
                2u64,
                3u64,
                4u64,
                10u64,
                11u64,
                20u64,
                21u64,
                30u64,
                31u64,
                40u64,
                41u64,
                100u64,
                101u64,
                999u64,
            ]);
        }
        GenesisPlan {
            balances,
            staking: StakingGenesis {
                validator_count: 2,
                minimum_validator_count: 0,
                invulnerables: Vec::new(),
                slash_reward_fraction: Percent::from_percent(10),
            },
            treasury_reward: TreasuryRewardGenesis {
                current_payout: 9_500_000,
                minting_interval: 1,
                recipients,
                recipient_percentages: pcts,
            },
        }
    }
}

/// The genesis balances under the multiplier `factor`.
fn endow(factor: Balance) -> (r: Vec<(AccountId, Balance)>)
    requires
        factor == 1 || factor == 256,
    ensures
        r@ == endowments(factor),
{
    let e: Balance = 10_000_000_000 * factor;
    let r: Vec<(AccountId, Balance)> = vec![
        (1, e),
        (2, e),
        (3, e),
        (4, e),
        (10, e),
        (11, e),
        (20, e),
        (21, e),
        (30, e),
        (31, e),
        (40, e),
        (41, e),
        (100, e),
        (101, e),
        (999, 1_000_000_000_000),
    ];
    assert(r@ =~= endowments(factor));
    r
}

/// The genesis balances written out one by one.
proof fn lemma_endowments_listed(factor: Balance)
    ensures
        endowments(factor) == seq![
            (1u64, ordinary_endowment(factor)),
            (2u64, ordinary_endowment(factor)),
            (3u64, ordinary_endowment(factor)),
            (4u64, ordinary_endowment(factor)),
            (10u64, ordinary_endowment(factor)),
            (11u64, ordinary_endowment(factor)),
            (20u64, ordinary_endowment(factor)),
            (21u64, ordinary_endowment(factor)),
            (30u64, ordinary_endowment(factor)),
            (31u64, ordinary_endowment(factor)),
            (40u64, ordinary_endowment(factor)),
            (41u64, ordinary_endowment(factor)),
            (100u64, ordinary_endowment(factor)),
            (101u64, ordinary_endowment(factor)),
            (999u64, payout_endowment()),
        ],
{
    assert(endowments(factor) =~= seq![
        (1u64, ordinary_endowment(factor)),
        (2u64, ordinary_endowment(factor)),
        (3u64, ordinary_endowment(factor)),
        (4u64, ordinary_endowment(factor)),
        (10u64, ordinary_endowment(factor)),
        (11u64, ordinary_endowment(factor)),
        (20u64, ordinary_endowment(factor)),
        (21u64, ordinary_endowment(factor)),
        (30u64, ordinary_endowment(factor)),
        (31u64, ordinary_endowment(factor)),
        (40u64, ordinary_endowment(factor)),
        (41u64, ordinary_endowment(factor)),
        (100u64, ordinary_endowment(factor)),
        (101u64, ordinary_endowment(factor)),
        (999u64, payout_endowment()),
    ]);
}

/// No account is endowed twice, every endowment is at least the ordinary one
/// of a builder without existential deposit, and the payout account comes last.
pub proof fn lemma_endowments_well_formed(existential_deposit: u64)
    ensures
        endowments(balance_factor(existential_deposit)).len() == 15,
        forall|i: int, j: int|
            0 <= i < j < endowments(balance_factor(existential_deposit)).len()
                ==> #[trigger] endowments(balance_factor(existential_deposit))[i].0
                != #[trigger] endowments(balance_factor(existential_deposit))[j].0,
        forall|i: int|
            0 <= i < endowments(balance_factor(existential_deposit)).len()
                ==> #[trigger] endowments(balance_factor(existential_deposit))[i].1
                >= 10_000_000_000,
        endowments(balance_factor(existential_deposit)).last() == (
            payout_account(),
            payout_endowment(),
        ),
{
    lemma_endowments_listed(balance_factor(existential_deposit));
}

/// Every genesis endowment fits in a `u64`, so the currency-to-vote handler's
/// `u128` to `u64` conversion turns it into a vote weight without loss.
pub proof fn lemma_endowments_convert_losslessly(existential_deposit: u64)
    ensures
        forall|i: int|
            0 <= i < endowments(balance_factor(existential_deposit)).len() ==> low_bits(
                #[trigger] endowments(balance_factor(existential_deposit))[i].1,
            ) == endowments(balance_factor(existential_deposit))[i].1,
{
    lemma_endowments_listed(balance_factor(existential_deposit));
}

} // verus!
