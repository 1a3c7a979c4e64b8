//! The runtime: the three state modules behind one aggregate call type, and
//! the executor that applies a block to them.

use crate::balances;
use crate::numeric::Numeric;
use crate::proof_of_existence;
use crate::support;
use crate::support::{BlockError, Dispatch, DispatchResult};
use crate::system;
use crate::system::nonce_in;
use vstd::prelude::*;

verus! {

/// The head of a block of this runtime.
pub type Header<T> = support::Header<<T as system::Config>::BlockNumber>;

/// An extrinsic of this runtime: an account and a runtime call.
pub type Extrinsic<T> = support::Extrinsic<<T as system::Config>::AccountId, RuntimeCall<T>>;

/// A block of this runtime.
pub type Block<T> = support::Block<Header<T>, Extrinsic<T>>;

/// A call to one of the state modules, tagged with the module it belongs to.
pub enum RuntimeCall<T: balances::Config + proof_of_existence::Config> {
    /// A call to the ledger.
    Balances(balances::Call<T>),
    /// A call to the claim registry.
    ProofOfExistence(proof_of_existence::Call<T>),
}

/// The three state modules. Nothing but a dispatched call, a block, or a
/// module's own operations changes them.
pub struct Runtime<T: balances::Config + proof_of_existence::Config> {
    pub system: system::Pallet<T>,
    pub balances: balances::Pallet<T>,
    pub proof_of_existence: proof_of_existence::Pallet<T>,
}

/// The state of a runtime as mathematics: the block counter, and what each
/// module stores.
pub struct State<T: balances::Config + proof_of_existence::Config> {
    pub block_number: nat,
    pub nonces: Map<T::AccountId, nat>,
    pub balances: Map<T::AccountId, nat>,
    pub claims: Map<T::Content, T::AccountId>,
}

/// The state in which all counters are zero and nothing is stored.
pub open spec fn initial_state<T: balances::Config + proof_of_existence::Config>() -> State<T> {
    State {
        block_number: 0,
        nonces: Map::empty(),
        balances: Map::empty(),
        claims: Map::empty(),
    }
}

/// What a runtime call made by `caller` ends in: what the module that owns
/// the call says.
pub open spec fn dispatch_outcome<T: balances::Config + proof_of_existence::Config>(
    s: State<T>,
    caller: T::AccountId,
    call: RuntimeCall<T>,
) -> DispatchResult {
    match call {
        RuntimeCall::Balances(call) => balances::dispatch_outcome(s.balances, caller, call),
        RuntimeCall::ProofOfExistence(call) => proof_of_existence::dispatch_outcome(
            s.claims,
            caller,
            call,
        ),
    }
}

/// The state after a runtime call made by `caller`: the module that owns the
/// call changes its part, and every other part stays.
pub open spec fn dispatch_state<T: balances::Config + proof_of_existence::Config>(
    s: State<T>,
    caller: T::AccountId,
    call: RuntimeCall<T>,
) -> State<T> {
    match call {
        RuntimeCall::Balances(call) => State {
            balances: balances::dispatch_balances(s.balances, caller, call),
            ..s
        },
        RuntimeCall::ProofOfExistence(call) => State {
            claims: proof_of_existence::dispatch_claims(s.claims, caller, call),
            ..s
        },
    }
}

/// The state after the block counter has been advanced by one.
pub open spec fn block_started<T: balances::Config + proof_of_existence::Config>(
    s: State<T>,
) -> State<T> {
    State { block_number: s.block_number + 1, ..s }
}

/// The state after the nonce of `who` has been advanced by one.
pub open spec fn nonce_advanced<T: balances::Config + proof_of_existence::Config>(
    s: State<T>,
    who: T::AccountId,
) -> State<T> {
    State { nonces: s.nonces.insert(who, nonce_in(s.nonces, who) + 1), ..s }
}

/// What one extrinsic ends in: its call is dispatched after its caller's
/// nonce has been advanced.
pub open spec fn extrinsic_outcome<T: balances::Config + proof_of_existence::Config>(
    s: State<T>,
    extrinsic: Extrinsic<T>,
) -> DispatchResult {
    dispatch_outcome(nonce_advanced(s, extrinsic.caller), extrinsic.caller, extrinsic.call)
}

/// The state after one extrinsic: the caller's nonce is advanced, whatever
/// the call ends in, and then the call is dispatched.
pub open spec fn apply_extrinsic<T: balances::Config + proof_of_existence::Config>(
    s: State<T>,
    extrinsic: Extrinsic<T>,
) -> State<T> {
    dispatch_state(nonce_advanced(s, extrinsic.caller), extrinsic.caller, extrinsic.call)
}

/// The state after the extrinsics have been applied one after the other,
/// the first one first.
pub open spec fn apply_extrinsics<T: balances::Config + proof_of_existence::Config>(
    s: State<T>,
    extrinsics: Seq<Extrinsic<T>>,
) -> State<T>
    decreases extrinsics.len(),
{
    if extrinsics.len() == 0 {
        s
    } else {
        apply_extrinsic(apply_extrinsics(s, extrinsics.drop_last()), extrinsics.last())
    }
}

/// What each of the extrinsics ends in when they are applied in order: the
/// outcome at an index is that of its extrinsic in the state that the
/// extrinsics before it have left.
pub open spec fn extrinsic_outcomes<T: balances::Config + proof_of_existence::Config>(
    s: State<T>,
    extrinsics: Seq<Extrinsic<T>>,
) -> Seq<DispatchResult> {
    Seq::new(
        extrinsics.len(),
        |i: int| extrinsic_outcome(apply_extrinsics(s, extrinsics.take(i)), extrinsics[i]),
    )
}

/// Whether every nonce can be advanced when its turn comes: no caller's
/// nonce is at the limit of the nonce type when its extrinsic is applied.
pub open spec fn nonces_fit<T: balances::Config + proof_of_existence::Config>(
    s: State<T>,
    extrinsics: Seq<Extrinsic<T>>,
) -> bool {
    forall|i: int|
        0 <= i < extrinsics.len() ==> nonce_in(
            #[trigger] apply_extrinsics(s, extrinsics.take(i)).nonces,
            extrinsics[i].caller,
        ) < T::Nonce::limit()
}

/// Whether the header declares the number that the block counter has once it
/// has been advanced for the block.
pub open spec fn block_in_sequence<T: balances::Config + proof_of_existence::Config>(
    s: State<T>,
    block: Block<T>,
) -> bool {
    block.header.block_number.value() == s.block_number + 1
}

/// Whether a block can be executed without a counter running over: the block
/// counter can be advanced, and where the block is in sequence, so can every
/// nonce when its turn comes.
pub open spec fn executable<T: balances::Config + proof_of_existence::Config>(
    s: State<T>,
    block: Block<T>,
) -> bool {
    &&& s.block_number < T::BlockNumber::limit()
    &&& block_in_sequence(s, block) ==> nonces_fit(block_started(s), block.extrinsics@)
}

/// The state after a block: the block counter is advanced in any case, and
/// the extrinsics are applied only when the block is in sequence.
pub open spec fn execute_state<T: balances::Config + proof_of_existence::Config>(
    s: State<T>,
    block: Block<T>,
) -> State<T> {
    if block_in_sequence(s, block) {
        apply_extrinsics(block_started(s), block.extrinsics@)
    } else {
        block_started(s)
    }
}

/// What a block ends in: the outcome of each extrinsic when the block is in
/// sequence, and a mismatch when it is not.
pub open spec fn execute_outcome<T: balances::Config + proof_of_existence::Config>(
    s: State<T>,
    block: Block<T>,
) -> Result<Seq<DispatchResult>, BlockError> {
    if block_in_sequence(s, block) {
        Ok(extrinsic_outcomes(block_started(s), block.extrinsics@))
    } else {
        Err(BlockError::BlockNumberMismatch)
    }
}

/// How many of the extrinsics `who` has sent.
pub open spec fn sent_by<T: balances::Config + proof_of_existence::Config>(
    extrinsics: Seq<Extrinsic<T>>,
    who: T::AccountId,
) -> nat
    decreases extrinsics.len(),
{
    if extrinsics.len() == 0 {
        0
    } else if extrinsics.last().caller == who {
        sent_by(extrinsics.drop_last(), who) + 1
    } else {
        sent_by(extrinsics.drop_last(), who)
    }
}

/// A dispatched call changes neither the block counter nor any nonce, and a
/// failed call changes nothing at all.
pub proof fn lemma_dispatch_keeps_counters<T: balances::Config + proof_of_existence::Config>(
    s: State<T>,
    caller: T::AccountId,
    call: RuntimeCall<T>,
)
    ensures
        dispatch_state(s, caller, call).block_number == s.block_number,
        dispatch_state(s, caller, call).nonces == s.nonces,
        dispatch_outcome(s, caller, call) is Err ==> dispatch_state(s, caller, call) == s,
{
}

/// Every extrinsic advances its caller's nonce by exactly one, whether its
/// call succeeds or fails, and leaves every other nonce and the block counter
/// as they were.
pub proof fn lemma_extrinsic_advances_nonce<T: balances::Config + proof_of_existence::Config>(
    s: State<T>,
    extrinsic: Extrinsic<T>,
    other: T::AccountId,
)
    ensures
        nonce_in(apply_extrinsic(s, extrinsic).nonces, extrinsic.caller) == nonce_in(
            s.nonces,
            extrinsic.caller,
        ) + 1,
        other != extrinsic.caller ==> nonce_in(apply_extrinsic(s, extrinsic).nonces, other)
            == nonce_in(s.nonces, other),
        apply_extrinsic(s, extrinsic).block_number == s.block_number,
{
}

/// After a sequence of extrinsics the nonce of every account has grown by
/// the number of extrinsics that the account has sent, and the block counter
/// is what it was.
pub proof fn lemma_extrinsics_count_in_nonces<T: balances::Config + proof_of_existence::Config>(
    s: State<T>,
    extrinsics: Seq<Extrinsic<T>>,
    who: T::AccountId,
)
    ensures
        nonce_in(apply_extrinsics(s, extrinsics).nonces, who) == nonce_in(s.nonces, who) + sent_by(
            extrinsics,
            who,
        ),
        sent_by(extrinsics, who) <= extrinsics.len(),
        apply_extrinsics(s, extrinsics).block_number == s.block_number,
    decreases extrinsics.len(),
{
    if extrinsics.len() > 0 {
        lemma_extrinsics_count_in_nonces(s, extrinsics.drop_last(), who);
        lemma_extrinsic_advances_nonce(
            apply_extrinsics(s, extrinsics.drop_last()),
            extrinsics.last(),
            who,
        );
    }
}

/// Every nonce can be advanced in its turn where each caller's nonce leaves
/// room for as many extrinsics as there are.
pub proof fn lemma_nonces_fit_with_room<T: balances::Config + proof_of_existence::Config>(
    s: State<T>,
    extrinsics: Seq<Extrinsic<T>>,
)
    requires
        forall|i: int|
            0 <= i < extrinsics.len() ==> nonce_in(s.nonces, #[trigger] extrinsics[i].caller)
                + extrinsics.len() <= T::Nonce::limit(),
    ensures
        nonces_fit(s, extrinsics),
{
    assert forall|i: int| 0 <= i < extrinsics.len() implies nonce_in(
        #[trigger] apply_extrinsics(s, extrinsics.take(i)).nonces,
        extrinsics[i].caller,
    ) < T::Nonce::limit() by {
        lemma_extrinsics_count_in_nonces(s, extrinsics.take(i), extrinsics[i].caller);
    }
}

/// A block whose header does not declare the number that follows the block
/// counter is rejected as a whole: the counter is advanced, and no nonce, no
/// balance and no claim changes.
pub proof fn lemma_block_out_of_sequence_is_rejected<
    T: balances::Config + proof_of_existence::Config,
>(s: State<T>, block: Block<T>)
    requires
        block.header.block_number.value() != s.block_number + 1,
    ensures
        execute_outcome(s, block) == Err::<Seq<DispatchResult>, BlockError>(
            BlockError::BlockNumberMismatch,
        ),
        execute_state(s, block).block_number == s.block_number + 1,
        execute_state(s, block).nonces == s.nonces,
        execute_state(s, block).balances == s.balances,
        execute_state(s, block).claims == s.claims,
{
}

/// A block in sequence leaves the block counter at the number that its
/// header declares, reports one outcome for each extrinsic, and raises the
/// nonce of every account by the number of extrinsics that the account has
/// sent in it.
pub proof fn lemma_block_in_sequence_is_applied<T: balances::Config + proof_of_existence::Config>(
    s: State<T>,
    block: Block<T>,
    who: T::AccountId,
)
    requires
        block.header.block_number.value() == s.block_number + 1,
    ensures
        execute_outcome(s, block) is Ok,
        execute_outcome(s, block)->Ok_0.len() == block.extrinsics@.len(),
        execute_state(s, block).block_number == block.header.block_number.value(),
        nonce_in(execute_state(s, block).nonces, who) == nonce_in(s.nonces, who) + sent_by(
            block.extrinsics@,
            who,
        ),
{
    lemma_extrinsics_count_in_nonces(block_started(s), block.extrinsics@, who);
}

impl<T: balances::Config + proof_of_existence::Config> View for Runtime<T> {
    type V = State<T>;

    open spec fn view(&self) -> State<T> {
        State {
            block_number: self.system.current_block(),
            nonces: self.system.nonces(),
            balances: self.balances.balances(),
            claims: self.proof_of_existence.claims(),
        }
    }
}

impl<T: balances::Config + proof_of_existence::Config> Runtime<T> {
    /// A runtime at block zero in which nothing is stored.
    pub fn new() -> (r: Self)
        ensures
            r@ == initial_state::<T>(),
    {
        Self {
            system: system::Pallet::new(),
            balances: balances::Pallet::new(),
            proof_of_existence: proof_of_existence::Pallet::new(),
        }
    }

    /// Whether `execute_block` can take the block: whether no counter would
    /// run over while the block is executed.
    pub fn can_execute_block(&self, block: &Block<T>) -> (r: bool)
        ensures
            r == executable(self@, *block),
    {
        let next = match self.system.block_number().checked_add(T::BlockNumber::one()) {
            Some(next) => next,
            None => {
                return false;
            },
        };
        if !next.same(block.header.block_number) {
            return true;
        }
        let ghost started = block_started(self@);
        let ghost extrinsics = block.extrinsics@;
        let mut i: usize = 0;
        while i < block.extrinsics.len()
            invariant
                i <= block.extrinsics.len(),
                started == block_started(self@),
                extrinsics == block.extrinsics@,
                self@.block_number < T::BlockNumber::limit(),
                block_in_sequence(self@, *block),
                forall|k: int|
                    0 <= k < i ==> nonce_in(
                        #[trigger] apply_extrinsics(started, extrinsics.take(k)).nonces,
                        extrinsics[k].caller,
                    ) < T::Nonce::limit(),
            decreases block.extrinsics.len() - i,
        {
            let nonce = self.nonce_before(block, i);
            if nonce.checked_add(T::Nonce::one()).is_none() {
                proof {
                    nonce.lemma_value_within_limit();
                    assert(nonce_in(
                        apply_extrinsics(started, extrinsics.take(i as int)).nonces,
                        extrinsics[i as int].caller,
                    ) == T::Nonce::limit());
                }
                return false;
            }
            i += 1;
        }
        true
    }

    /// The nonce that the caller of the extrinsic at `index` has when the
    /// extrinsics before it have been applied.
    fn nonce_before(&self, block: &Block<T>, index: usize) -> (r: T::Nonce)
        requires
            index < block.extrinsics@.len(),
            forall|k: int|
                0 <= k < index ==> nonce_in(
                    #[trigger] apply_extrinsics(
                        block_started(self@),
                        block.extrinsics@.take(k),
                    ).nonces,
                    block.extrinsics@[k].caller,
                ) < T::Nonce::limit(),
        ensures
            r.value() == nonce_in(
                apply_extrinsics(
                    block_started(self@),
                    block.extrinsics@.take(index as int),
                ).nonces,
                block.extrinsics@[index as int].caller,
            ),
    {
        proof {
            T::lemma_account_id_laws();
        }
        let ghost started = block_started(self@);
        let ghost extrinsics = block.extrinsics@;
        let caller = &block.extrinsics[index].caller;
        let mut nonce = self.system.get_nonce(caller);
        let mut j: usize = 0;
        assert(extrinsics.take(0) =~= Seq::empty());
        while j < index
            invariant
                j <= index < extrinsics.len(),
                started == block_started(self@),
                extrinsics == block.extrinsics@,
                *caller == extrinsics[index as int].caller,
                vstd::laws_eq::obeys_concrete_eq::<T::AccountId>(),
                nonce.value() == nonce_in(started.nonces, *caller) + sent_by(
                    extrinsics.take(j as int),
                    *caller,
                ),
                forall|k: int|
                    0 <= k < index ==> nonce_in(
                        #[trigger] apply_extrinsics(started, extrinsics.take(k)).nonces,
                        extrinsics[k].caller,
                    ) < T::Nonce::limit(),
            decreases index - j,
        {
            proof {
                reveal(vstd::laws_eq::obeys_concrete_eq);
                assert(extrinsics.take(j + 1).drop_last() =~= extrinsics.take(j as int));
                lemma_extrinsics_count_in_nonces(started, extrinsics.take(j as int), *caller);
            }
            if block.extrinsics[j].caller == *caller {
                if let Some(next) = nonce.checked_add(T::Nonce::one()) {
                    nonce = next;
                }
            }
            j += 1;
        }
        proof {
            lemma_extrinsics_count_in_nonces(started, extrinsics.take(index as int), *caller);
        }
        nonce
    }

    /// Applies a block: advances the block counter and, when the header
    /// declares the number that the counter then has, applies the extrinsics
    /// in order and reports what each of them ended in.
    ///
    /// A block that is out of sequence is rejected as a whole: none of its
    /// extrinsics is applied. A call that fails does not stop the block: its
    /// failure is reported at its index, and the caller's nonce is advanced
    /// all the same.
    pub fn execute_block(&mut self, block: Block<T>) -> (r: Result<Vec<DispatchResult>, BlockError>)
        requires
            executable(old(self)@, block),
        ensures
            final(self)@ == execute_state(old(self)@, block),
            match r {
                Ok(outcomes) => execute_outcome(old(self)@, block) == Ok::<
                    Seq<DispatchResult>,
                    BlockError,
                >(outcomes@),
                Err(e) => execute_outcome(old(self)@, block) == Err::<
                    Seq<DispatchResult>,
                    BlockError,
                >(e),
            },
    {
        self.system.inc_block_number();
        if !self.system.block_number().same(block.header.block_number) {
            return Err(BlockError::BlockNumberMismatch);
        }
        let ghost started = self@;
        let ghost extrinsics = block.extrinsics@;
        let mut outcomes: Vec<DispatchResult> = Vec::new();
        assert(extrinsics.take(0) =~= Seq::empty());
        for extrinsic in it: block.extrinsics.into_iter()
            invariant
                it.seq() == extrinsics,
                nonces_fit(started, extrinsics),
                self@ == apply_extrinsics(started, extrinsics.take(it.index() as int)),
                outcomes@ == extrinsic_outcomes(started, extrinsics).take(it.index() as int),
        {
            let ghost i = it.index() as int;
            assert(nonce_in(
                apply_extrinsics(started, extrinsics.take(i)).nonces,
                extrinsics[i].caller,
            ) < T::Nonce::limit());
            let support::Extrinsic { caller, call } = extrinsic;
            self.system.inc_nonce(&caller);
            let outcome = self.dispatch(caller, call);
            outcomes.push(outcome);
            proof {
                assert(extrinsics.take(i + 1).drop_last() =~= extrinsics.take(i));
                assert(outcomes@ =~= extrinsic_outcomes(started, extrinsics).take(i + 1));
            }
        }
        assert(extrinsics.take(extrinsics.len() as int) =~= extrinsics);
        assert(outcomes@ =~= extrinsic_outcomes(started, extrinsics));
        Ok(outcomes)
    }
}

impl<T: balances::Config + proof_of_existence::Config> Dispatch for Runtime<T> {
    type Caller = T::AccountId;

    type Call = RuntimeCall<T>;

    /// Forwards the call to the module that owns it and hands back what the
    /// module reports.
    fn dispatch(&mut self, caller: Self::Caller, runtime_call: Self::Call) -> (r: DispatchResult)
        ensures
            r == dispatch_outcome(old(self)@, caller, runtime_call),
            final(self)@ == dispatch_state(old(self)@, caller, runtime_call),
    {
        match runtime_call {
            RuntimeCall::Balances(call) => self.balances.dispatch(caller, call),
            RuntimeCall::ProofOfExistence(call) => self.proof_of_existence.dispatch(caller, call),
        }
    }
}

} // verus!
