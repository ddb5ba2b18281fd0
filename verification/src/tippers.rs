use vstd::prelude::*;

verus! {

/// The set of tippers of the runtime fixture: the accounts 10 to 14.
pub struct TenToFourteen;

/// Whether `n` is one of the accounts 10 to 14.
pub open spec fn is_tipper(n: u64) -> bool {
    10 <= n <= 14
}

/// The tippers in increasing order.
pub open spec fn tipper_list() -> Seq<u64> {
    seq![10u64, 11u64, 12u64, 13u64, 14u64]
}

impl TenToFourteen {
    /// Whether `n` is a tipper.
    pub fn contains(n: &u64) -> (r: bool)
        ensures
            r == is_tipper(*n),
            r <==> (10 <= *n && *n <= 14),
    {
        *n >= 10 && *n <= 14
    }

    /// All tippers, in increasing order.
    pub fn sorted_members() -> (r: Vec<u64>)
        ensures
            r@ == tipper_list(),
            r@ == seq![10u64, 11u64, 12u64, 13u64, 14u64],
    {
        let r: Vec<u64> = vec![10, 11, 12, 13, 14];
        assert(r@ =~= tipper_list());
        r
    }
}

/// The member list is strictly increasing and holds exactly the accounts for
/// which `contains` answers yes: an account is listed if and only if it is a
/// tipper.
pub proof fn lemma_members_agree_with_contains()
    ensures
        forall|i: int, j: int|
            0 <= i < j < tipper_list().len() ==> #[trigger] tipper_list()[i]
                < #[trigger] tipper_list()[j],
        forall|n: u64| #[trigger] tipper_list().contains(n) <==> is_tipper(n),
{
    let l = tipper_list();
    assert(l[0] == 10 && l[1] == 11 && l[2] == 12 && l[3] == 13 && l[4] == 14);
    assert forall|n: u64| #[trigger] l.contains(n) <==> is_tipper(n) by {
        if is_tipper(n) {
            assert(l[n - 10] == n);
        }
    }
}

} // verus!
