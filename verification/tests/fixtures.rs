use edge_treasury_reward::currency::{Convert, CurrencyToVoteHandler};
use edge_treasury_reward::genesis::ExtBuilder;
use edge_treasury_reward::percent::Percent;
use edge_treasury_reward::session::{SessionRecord, TestSessionHandler};
use edge_treasury_reward::tippers::TenToFourteen;

#[test]
fn u64_amount_converts_to_itself() {
    assert_eq!(<CurrencyToVoteHandler as Convert<u64, u64>>::convert(0), 0);
    assert_eq!(<CurrencyToVoteHandler as Convert<u64, u64>>::convert(70), 70);
    assert_eq!(<CurrencyToVoteHandler as Convert<u64, u64>>::convert(u64::MAX), u64::MAX);
}

#[test]
fn u128_amount_converts_to_itself() {
    assert_eq!(<CurrencyToVoteHandler as Convert<u128, u128>>::convert(0), 0);
    assert_eq!(<CurrencyToVoteHandler as Convert<u128, u128>>::convert(u128::MAX), u128::MAX);
}

#[test]
fn u64_amount_widens_unchanged() {
    assert_eq!(<CurrencyToVoteHandler as Convert<u64, u128>>::convert(9_500_000), 9_500_000u128);
    assert_eq!(<CurrencyToVoteHandler as Convert<u64, u128>>::convert(u64::MAX), 18_446_744_073_709_551_615u128);
}

#[test]
fn u128_amount_keeps_low_bits() {
    assert_eq!(<CurrencyToVoteHandler as Convert<u128, u64>>::convert(10_000_000_000), 10_000_000_000u64);
    assert_eq!(<CurrencyToVoteHandler as Convert<u128, u64>>::convert(18_446_744_073_709_551_621), 5u64);
    assert_eq!(<CurrencyToVoteHandler as Convert<u128, u64>>::convert(u128::MAX), u64::MAX);
    assert_eq!(<CurrencyToVoteHandler as Convert<u128, u64>>::convert(18_446_744_073_709_551_616), 0u64);
}

#[test]
fn widen_then_narrow_is_identity() {
    for x in [0u64, 1, 10_000_000_000, u64::MAX] {
        let wide = <CurrencyToVoteHandler as Convert<u64, u128>>::convert(x);
        assert_eq!(<CurrencyToVoteHandler as Convert<u128, u64>>::convert(wide), x);
    }
}

#[test]
fn narrow_then_widen_keeps_only_small_amounts() {
    let small: u128 = 1_000_000_000_000;
    let narrow = <CurrencyToVoteHandler as Convert<u128, u64>>::convert(small);
    assert_eq!(<CurrencyToVoteHandler as Convert<u64, u128>>::convert(narrow), small);
    let large: u128 = 18_446_744_073_709_551_616 * 3 + 7;
    let narrow = <CurrencyToVoteHandler as Convert<u128, u64>>::convert(large);
    assert_ne!(<CurrencyToVoteHandler as Convert<u64, u128>>::convert(narrow), large);
    assert_eq!(narrow, 7);
}

#[test]
fn tippers_are_ten_to_fourteen() {
    assert!(!TenToFourteen::contains(&0));
    assert!(!TenToFourteen::contains(&9));
    assert!(TenToFourteen::contains(&10));
    assert!(TenToFourteen::contains(&12));
    assert!(TenToFourteen::contains(&14));
    assert!(!TenToFourteen::contains(&15));
    assert!(!TenToFourteen::contains(&u64::MAX));
}

#[test]
fn sorted_members_are_ordered_and_agree_with_contains() {
    let members = TenToFourteen::sorted_members();
    assert_eq!(members, vec![10, 11, 12, 13, 14]);
    for w in members.windows(2) {
        assert!(w[0] < w[1]);
    }
    for n in 0u64..40 {
        assert_eq!(members.binary_search(&n).is_ok(), TenToFourteen::contains(&n));
    }
}

#[test]
fn session_record_starts_empty() {
    let s = SessionRecord::new();
    assert!(s.validators().is_empty());
    assert!(!s.is_disabled(0));
}

#[test]
fn new_session_records_validators_in_order() {
    let mut s = SessionRecord::new();
    TestSessionHandler::on_new_session(&mut s, true, &[11, 21, 31], &[41]);
    assert_eq!(s.validators(), &[11, 21, 31]);
    assert!(!s.is_disabled(11));
    assert!(!s.is_disabled(41));
}

#[test]
fn disabling_marks_the_validator_at_the_index() {
    let mut s = SessionRecord::new();
    TestSessionHandler::on_new_session(&mut s, false, &[11, 21, 31], &[]);
    TestSessionHandler::on_disabled(&mut s, 1);
    assert!(s.is_disabled(21));
    assert!(!s.is_disabled(11));
    assert!(!s.is_disabled(31));
    assert!(!s.is_disabled(1));
    assert_eq!(s.validators(), &[11, 21, 31]);
}

#[test]
fn disabling_twice_is_disabling_once() {
    let mut once = SessionRecord::new();
    TestSessionHandler::on_new_session(&mut once, true, &[5, 6], &[]);
    TestSessionHandler::on_disabled(&mut once, 0);
    let mut twice = SessionRecord::new();
    TestSessionHandler::on_new_session(&mut twice, true, &[5, 6], &[]);
    TestSessionHandler::on_disabled(&mut twice, 0);
    TestSessionHandler::on_disabled(&mut twice, 0);
    for who in [5u64, 6, 7] {
        assert_eq!(once.is_disabled(who), twice.is_disabled(who));
    }
}

#[test]
fn disabling_order_does_not_matter() {
    let mut a = SessionRecord::new();
    TestSessionHandler::on_new_session(&mut a, true, &[1, 2, 3], &[]);
    TestSessionHandler::on_disabled(&mut a, 0);
    TestSessionHandler::on_disabled(&mut a, 2);
    let mut b = SessionRecord::new();
    TestSessionHandler::on_new_session(&mut b, true, &[1, 2, 3], &[]);
    TestSessionHandler::on_disabled(&mut b, 2);
    TestSessionHandler::on_disabled(&mut b, 0);
    for who in [1u64, 2, 3] {
        assert_eq!(a.is_disabled(who), b.is_disabled(who));
    }
    assert!(a.is_disabled(1) && a.is_disabled(3) && !a.is_disabled(2));
}

#[test]
fn new_session_forgets_disabled_validators() {
    let mut s = SessionRecord::new();
    TestSessionHandler::on_new_session(&mut s, true, &[11, 21], &[]);
    TestSessionHandler::on_disabled(&mut s, 0);
    assert!(s.is_disabled(11));
    TestSessionHandler::on_new_session(&mut s, false, &[11, 21], &[]);
    assert!(!s.is_disabled(11));
    assert_eq!(s.validators(), &[11, 21]);
}

#[test]
fn disabled_ids_stay_among_validators() {
    let mut s = SessionRecord::new();
    TestSessionHandler::on_new_session(&mut s, true, &[3, 4, 5, 6], &[]);
    TestSessionHandler::on_disabled(&mut s, 3);
    TestSessionHandler::on_disabled(&mut s, 1);
    for who in 0u64..10 {
        if s.is_disabled(who) {
            assert!(s.validators().contains(&who));
        }
    }
}

#[test]
fn percent_clamps_at_one_hundred() {
    assert_eq!(Percent::from_percent(0).deconstruct(), 0);
    assert_eq!(Percent::from_percent(10).deconstruct(), 10);
    assert_eq!(Percent::from_percent(100).deconstruct(), 100);
    assert_eq!(Percent::from_percent(101).deconstruct(), 100);
    assert_eq!(Percent::from_percent(255).deconstruct(), 100);
    assert_eq!(Percent::from_percent(150), Percent::from_percent(100));
    assert_ne!(Percent::from_percent(50), Percent::from_percent(100));
}

#[test]
fn percent_rebuilt_from_its_parts_is_unchanged() {
    for x in [0u8, 1, 59, 97, 100, 200] {
        let p = Percent::from_percent(x);
        assert_eq!(Percent::from_percent(p.deconstruct()), p);
    }
}

#[test]
fn default_builder_plans_default_genesis() {
    let g = ExtBuilder::default().build(None, None);
    let e: u128 = 10_000_000_000;
    assert_eq!(
        g.balances,
        vec![
            (1, e), (2, e), (3, e), (4, e), (10, e), (11, e), (20, e), (21, e),
            (30, e), (31, e), (40, e), (41, e), (100, e), (101, e),
            (999, 1_000_000_000_000),
        ]
    );
    assert_eq!(g.treasury_reward.recipients, vec![1, 2, 3]);
    assert_eq!(
        g.treasury_reward.recipient_percentages,
        vec![Percent::from_percent(10), Percent::from_percent(10), Percent::from_percent(10)]
    );
    assert_eq!(g.treasury_reward.current_payout, 9_500_000);
    assert_eq!(g.treasury_reward.minting_interval, 1);
    assert_eq!(g.staking.validator_count, 2);
    assert_eq!(g.staking.minimum_validator_count, 0);
    assert!(g.staking.invulnerables.is_empty());
    assert_eq!(g.staking.slash_reward_fraction.deconstruct(), 10);
}

#[test]
fn builder_keeps_given_recipients_and_percentages() {
    let g = ExtBuilder::default().build(Some(vec![1]), Some(vec![Percent::from_percent(90)]));
    assert_eq!(g.treasury_reward.recipients, vec![1]);
    assert_eq!(g.treasury_reward.recipient_percentages, vec![Percent::from_percent(90)]);
    let g = ExtBuilder::default().build(Some(vec![1, 2, 3]), None);
    assert_eq!(g.treasury_reward.recipients, vec![1, 2, 3]);
    assert_eq!(g.treasury_reward.recipient_percentages.len(), 3);
    let g = ExtBuilder::default().build(None, Some(vec![Percent::from_percent(100)]));
    assert_eq!(g.treasury_reward.recipients, vec![1, 2, 3]);
    assert_eq!(g.treasury_reward.recipient_percentages, vec![Percent::from_percent(100)]);
}

#[test]
fn genesis_endows_each_account_once() {
    let g = ExtBuilder::default().build(None, None);
    let mut accounts: Vec<u64> = g.balances.iter().map(|b| b.0).collect();
    let n = accounts.len();
    accounts.sort();
    accounts.dedup();
    assert_eq!(accounts.len(), n);
    assert_eq!(n, 15);
    assert!(g.balances.iter().all(|b| b.1 >= 10_000_000_000));
    assert_eq!(*g.balances.last().unwrap(), (999, 1_000_000_000_000));
}

#[test]
fn genesis_endowments_become_votes_without_loss() {
    let g = ExtBuilder::default().build(None, None);
    for (_, amount) in g.balances.iter() {
        let votes = <CurrencyToVoteHandler as Convert<u128, u64>>::convert(*amount);
        assert_eq!(<CurrencyToVoteHandler as Convert<u64, u128>>::convert(votes), *amount);
    }
}
