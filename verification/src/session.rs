use std::collections::HashSet;
use vstd::prelude::*;

verus! {

broadcast use vstd::std_specs::hash::group_hash_axioms;

/// What the session handler remembers between calls: the account ids of the
/// validators of the current session, in the order the session gave them,
/// and the ids of those among them that have been disabled.
pub struct SessionRecord {
    validators: Vec<u64>,
    disabled: HashSet<u64>,
}

/// Whether every id in `disabled` is one of `validators`.
pub open spec fn disabled_among(validators: Seq<u64>, disabled: Set<u64>) -> bool {
    forall|who: u64| #[trigger] disabled.contains(who) ==> validators.contains(who)
}

/// The disabled set after the validator at position `index` is disabled.
pub open spec fn disable_at(validators: Seq<u64>, disabled: Set<u64>, index: int) -> Set<u64> {
    disabled.insert(validators[index])
}

impl SessionRecord {
    #[verifier::type_invariant]
    spec fn disabled_are_validators(self) -> bool {
        disabled_among(self.validators@, self.disabled@)
    }

    /// The validators of the current session, in order.
    pub closed spec fn validator_ids(self) -> Seq<u64> {
        self.validators@
    }

    /// The validators of the current session that have been disabled.
    pub closed spec fn disabled_ids(self) -> Set<u64> {
        self.disabled@
    }

    /// The record before any session has started: no validators, none disabled.
    pub fn new() -> (s: SessionRecord)
        ensures
            s.validator_ids() == Seq::<u64>::empty(),
            s.disabled_ids() == Set::<u64>::empty(),
    {
        SessionRecord { validators: Vec::new(), disabled: HashSet::new() }
    }

    /// The validators of the current session, in order.
    pub fn validators(&self) -> (r: &[u64])
        ensures
            r@ == self.validator_ids(),
    {
        self.validators.as_slice()
    }

    /// Whether `who` has been disabled in the current session.
    pub fn is_disabled(&self, who: u64) -> (r: bool)
        ensures
            r == self.disabled_ids().contains(who),
    {
        self.disabled.contains(&who)
    }
}

/// The session handler of the runtime fixture: it records the validators of
/// each new session and which of them get disabled.
pub struct TestSessionHandler;

impl TestSessionHandler {
    /// A new session starts with `validators` (their account ids, in order):
    /// they replace the recorded validators and nobody is disabled any more.
    /// Whether the set changed and who is queued next do not matter.
    pub fn on_new_session(
        session: &mut SessionRecord,
        changed: bool,
        validators: &[u64],
        queued_validators: &[u64],
    )
        ensures
            final(session).validator_ids() == validators@,
            final(session).disabled_ids() == Set::<u64>::empty(),
            disabled_among(final(session).validator_ids(), final(session).disabled_ids()),
    {
        let mut ids: Vec<u64> = Vec::new();
        let mut i: usize = 0;
        while i < validators.len()
            invariant
                i <= validators.len(),
                ids@ == validators@.subrange(0, i as int),
            decreases validators.len() - i,
        {
            ids.push(validators[i]);
            i = i + 1;
        }
        assert(ids@ == validators@);
        *session = SessionRecord { validators: ids, disabled: HashSet::new() };
    }

    /// The validator at position `validator_index` of the current session is
    /// disabled. The position must be one of the session's.
    pub fn on_disabled(session: &mut SessionRecord, validator_index: usize)
        requires
            validator_index < old(session).validator_ids().len(),
        ensures
            final(session).validator_ids() == old(session).validator_ids(),
            final(session).disabled_ids() == disable_at(
                old(session).validator_ids(),
                old(session).disabled_ids(),
                validator_index as int,
            ),
            final(session).disabled_ids() == old(session).disabled_ids().insert(
                old(session).validator_ids()[validator_index as int],
            ),
            final(session).disabled_ids().contains(
                old(session).validator_ids()[validator_index as int],
            ),
            forall|who: u64|
                #[trigger] final(session).disabled_ids().contains(who) <==> (
                old(session).disabled_ids().contains(who) || who == old(
                    session,
                ).validator_ids()[validator_index as int]),
            disabled_among(final(session).validator_ids(), final(session).disabled_ids()),
    {
        proof {
            use_type_invariant(&*session);
        }
        let value = session.validators[validator_index];
        let mut disabled: HashSet<u64> = HashSet::new();
        std::mem::swap(&mut disabled, &mut session.disabled);
        disabled.insert(value);
        session.disabled = disabled;
    }
}

/// Disabling position `index` disables exactly the validator at that
/// position: it is disabled afterwards, everyone disabled before still is, and
/// nobody else is.
pub proof fn lemma_disable_adds_exactly_that_validator(
    validators: Seq<u64>,
    disabled: Set<u64>,
    index: int,
    after: Set<u64>,
)
    requires
        0 <= index < validators.len(),
        after == disable_at(validators, disabled, index),
    ensures
        after.contains(validators[index]),
        forall|who: u64| #[trigger] disabled.contains(who) ==> after.contains(who),
        forall|who: u64| #[trigger] after.contains(who) ==> disabled.contains(who) || who == validators[index],
        after == disabled.insert(validators[index]),
{
}

/// Disabling the same position twice has the effect of disabling it once.
pub proof fn lemma_disable_idempotent(validators: Seq<u64>, disabled: Set<u64>, index: int)
    requires
        0 <= index < validators.len(),
    ensures
        disable_at(validators, disable_at(validators, disabled, index), index) == disable_at(
            validators,
            disabled,
            index,
        ),
{
    assert(disable_at(validators, disable_at(validators, disabled, index), index) =~= disable_at(
        validators,
        disabled,
        index,
    ));
}

/// The order in which two positions are disabled does not matter.
pub proof fn lemma_disable_commutes(validators: Seq<u64>, disabled: Set<u64>, i: int, j: int)
    requires
        0 <= i < validators.len(),
        0 <= j < validators.len(),
    ensures
        disable_at(validators, disable_at(validators, disabled, i), j) == disable_at(
            validators,
            disable_at(validators, disabled, j),
            i,
        ),
{
    assert(disable_at(validators, disable_at(validators, disabled, i), j) =~= disable_at(
        validators,
        disable_at(validators, disabled, j),
        i,
    ));
}

/// Disabling a position keeps every disabled id among the validators.
pub proof fn lemma_disable_keeps_disabled_among(
    validators: Seq<u64>,
    disabled: Set<u64>,
    index: int,
)
    requires
        0 <= index < validators.len(),
        disabled_among(validators, disabled),
    ensures
        disabled_among(validators, disable_at(validators, disabled, index)),
{
    assert(validators.contains(validators[index]));
}

} // verus!
