//! The curried family at run time: a stage holds the arguments bound so
//! far, and a call with further arguments yields the next stage or, once
//! the argument list is complete, the result of the function.

use crate::plan::is_edge;
use vstd::prelude::*;

verus! {

/// A partly applied call: the first arguments of a function of arity
/// `arity`, in parameter order, and the function that the last call runs.
/// A stage is consumed by the call made on it.
pub struct Stage<A, F> {
    arity: usize,
    bound: Vec<A>,
    underlying: F,
}

/// The result of a call on a stage.
pub enum Transition<A, F, R> {
    NextStage(Stage<A, F>),
    Done(R),
}

/// What a stage is, apart from the function it will run.
pub struct StageView<A> {
    pub arity: nat,
    pub bound: Seq<A>,
}

/// What a call does, apart from the function's own work: it reaches a
/// further stage, or hands the complete argument list to the function.
pub enum Step<A> {
    Next(StageView<A>),
    Execute(Seq<A>),
}

/// The entry stage of a function of arity `n`: nothing is bound.
pub open spec fn entry_view<A>(n: nat) -> StageView<A> {
    StageView { arity: n, bound: Seq::empty() }
}

/// One call on stage `s` with the arguments `args`.
pub open spec fn step<A>(s: StageView<A>, args: Seq<A>) -> Step<A> {
    if s.bound.len() + args.len() < s.arity {
        Step::Next(StageView { arity: s.arity, bound: s.bound + args })
    } else {
        Step::Execute(s.bound + args)
    }
}

/// A chain of calls from stage `s`, one for each group, in order. It ends
/// where the function runs.
pub open spec fn chain<A>(s: StageView<A>, groups: Seq<Seq<A>>) -> Step<A>
    decreases groups.len(),
{
    if groups.len() == 0 {
        Step::Next(s)
    } else {
        match step(s, groups.first()) {
            Step::Next(t) => chain(t, groups.drop_first()),
            Step::Execute(all) => Step::Execute(all),
        }
    }
}

/// The ways to supply `n` arguments in successive calls: groups that are
/// not empty and hold `n` arguments together; without parameters, the one
/// call without arguments.
pub open spec fn is_grouping<A>(groups: Seq<Seq<A>>, n: nat) -> bool {
    if n == 0 {
        groups.len() == 1 && groups[0].len() == 0
    } else {
        &&& forall|i: int| 0 <= i < groups.len() ==> (#[trigger] groups[i]).len() > 0
        &&& groups.flatten().len() == n
    }
}

/// `result` is what `f` may return when it is run on the arguments `args`.
pub open spec fn returned_by<A, F: FnOnce(Vec<A>) -> R, R>(f: F, args: Seq<A>, result: R) -> bool {
    exists|all: Vec<A>| all@ == args && #[trigger] call_ensures(f, (all,), result)
}

/// `f` may be run on the arguments `args`.
pub open spec fn runs_on<A, F: FnOnce(Vec<A>) -> R, R>(f: F, args: Seq<A>) -> bool {
    forall|all: Vec<A>| all@ == args ==> #[trigger] call_requires(f, (all,))
}

impl<A> StageView<A> {
    /// A stage holds a proper prefix of the arguments; the entry stage of a
    /// function without parameters holds none.
    pub open spec fn wf(&self) -> bool {
        self.bound.len() < self.arity || (self.arity == 0 && self.bound.len() == 0)
    }

    /// The argument counts that a call on this stage may supply.
    pub open spec fn accepts(&self, count: nat) -> bool {
        is_edge(self.arity as int, self.bound.len() as int, (self.bound.len() + count) as int)
    }
}

impl<A, F> View for Stage<A, F> {
    type V = StageView<A>;

    closed spec fn view(&self) -> StageView<A> {
        StageView { arity: self.arity as nat, bound: self.bound@ }
    }
}

impl<A, F> Stage<A, F> {
    /// The function that the last call runs.
    pub closed spec fn underlying(&self) -> F {
        self.underlying
    }

    /// The entry stage of `underlying`, a function of `arity` arguments.
    pub fn entry(arity: usize, underlying: F) -> (stage: Self)
        ensures
            stage@ == entry_view::<A>(arity as nat),
            stage@.wf(),
            stage.underlying() == underlying,
    {
        Stage { arity, bound: Vec::new(), underlying }
    }

    /// The number of arguments of the function.
    pub fn arity(&self) -> (n: usize)
        ensures
            n == self@.arity,
    {
        self.arity
    }

    /// The index of the stage: the number of arguments bound so far.
    pub fn index(&self) -> (i: usize)
        ensures
            i == self@.bound.len(),
    {
        self.bound.len()
    }

    /// The arguments bound so far, in parameter order.
    pub fn bound(&self) -> (args: &Vec<A>)
        ensures
            args@ == self@.bound,
    {
        &self.bound
    }

    /// Tells whether a call with `count` arguments is a transition of this
    /// stage.
    pub fn accepts(&self, count: usize) -> (legal: bool)
        requires
            self@.wf(),
        ensures
            legal == self@.accepts(count as nat),
    {
        if self.arity == 0 {
            count == 0
        } else {
            count > 0 && count <= self.arity - self.bound.len()
        }
    }

    /// Calls the stage with further arguments. Where they do not complete
    /// the argument list, the result is the stage that holds the bound
    /// arguments followed by the new ones. Where they do, the function is
    /// run once on all arguments in parameter order, and its result is
    /// handed back unchanged.
    pub fn apply<R>(self, args: Vec<A>) -> (outcome: Transition<A, F, R>) where
        F: FnOnce(Vec<A>) -> R,

        requires
            self@.wf(),
            self@.accepts(args@.len()),
            self@.bound.len() + args@.len() == self@.arity ==> runs_on(
                self.underlying(),
                self@.bound + args@,
            ),
        ensures
            match outcome {
                Transition::NextStage(next) => {
                    &&& step(self@, args@) == Step::Next(next@)
                    &&& next@.wf()
                    &&& next.underlying() == self.underlying()
                },
                Transition::Done(result) => {
                    &&& step(self@, args@) == Step::Execute(self@.bound + args@)
                    &&& returned_by(self.underlying(), self@.bound + args@, result)
                },
            },
    {
        let ghost before = self@;
        let ghost run = self.underlying();
        let ghost joined = self@.bound + args@;
        let Stage { arity, bound, underlying } = self;
        let mut all = bound;
        let mut rest = args;
        all.append(&mut rest);
        assert(all@ == joined);
        if all.len() < arity {
            let next = Stage { arity, bound: all, underlying };
            assert(step(before, args@) == Step::Next(next@));
            Transition::NextStage(next)
        } else {
            let ghost handed = all;
            let result = underlying(all);
            assert(handed@ == joined && call_ensures(run, (handed,), result));
            assert(returned_by(run, joined, result));
            Transition::Done(result)
        }
    }
}

/// Groups that are not empty and hold no argument together are no groups.
proof fn lemma_no_arguments_no_groups<A>(groups: Seq<Seq<A>>)
    requires
        forall|i: int| 0 <= i < groups.len() ==> (#[trigger] groups[i]).len() > 0,
        groups.flatten().len() == 0,
    ensures
        groups.len() == 0,
{
    if groups.len() > 0 {
        assert(groups.first().len() > 0);
        assert(groups.flatten() == groups.first() + groups.drop_first().flatten());
    }
}

/// A chain of calls binds the arguments of its groups in order: from a
/// stage `s`, groups that together stay within the arity lead to the stage
/// that holds the arguments of `s` followed by those of all groups, or,
/// where they complete the list, run the function on exactly these.
pub proof fn lemma_chain_binds_in_order<A>(s: StageView<A>, groups: Seq<Seq<A>>)
    requires
        s.wf(),
        s.arity > 0,
        forall|i: int| 0 <= i < groups.len() ==> (#[trigger] groups[i]).len() > 0,
        s.bound.len() + groups.flatten().len() <= s.arity,
    ensures
        chain(s, groups) == if s.bound.len() + groups.flatten().len() < s.arity {
            Step::Next(StageView { arity: s.arity, bound: s.bound + groups.flatten() })
        } else {
            Step::Execute(s.bound + groups.flatten())
        },
    decreases groups.len(),
{
    if groups.len() == 0 {
        assert(s.bound + groups.flatten() =~= s.bound);
    } else {
        let first = groups.first();
        let rest = groups.drop_first();
        assert(groups.flatten() == first + rest.flatten());
        assert(s.bound + groups.flatten() =~= (s.bound + first) + rest.flatten());
        assert forall|i: int| 0 <= i < rest.len() implies (#[trigger] rest[i]).len() > 0 by {
            assert(rest[i] == groups[i + 1]);
        }
        if s.bound.len() + first.len() < s.arity {
            let t = StageView { arity: s.arity, bound: s.bound + first };
            lemma_chain_binds_in_order(t, rest);
        } else {
            lemma_no_arguments_no_groups(rest);
            assert(rest.flatten() =~= Seq::<A>::empty());
            assert(s.bound + groups.flatten() =~= s.bound + first);
        }
    }
}

/// Direct call: the entry stage called with all arguments at once runs the
/// function on exactly these arguments.
pub proof fn lemma_direct_call<A>(n: nat, args: Seq<A>)
    requires
        args.len() == n,
    ensures
        entry_view::<A>(n).wf(),
        entry_view::<A>(n).accepts(n),
        step(entry_view(n), args) == Step::Execute(args),
{
    assert(Seq::<A>::empty() + args =~= args);
}

/// Grouping invariance: however the arguments are split into successive
/// calls, the chain ends by running the function on the same argument list
/// as the one direct call with all of them.
pub proof fn lemma_grouping_invariance<A>(n: nat, groups: Seq<Seq<A>>)
    requires
        is_grouping(groups, n),
    ensures
        chain(entry_view(n), groups) == Step::Execute(groups.flatten()),
        chain(entry_view(n), groups) == step(entry_view(n), groups.flatten()),
{
    let entry = entry_view::<A>(n);
    assert(Seq::<A>::empty() + groups.flatten() =~= groups.flatten());
    if n == 0 {
        assert(groups.first() =~= Seq::<A>::empty());
        assert(groups.drop_first().len() == 0);
        assert(groups.flatten() == groups.first() + groups.drop_first().flatten());
        assert(groups.flatten() =~= Seq::<A>::empty());
        assert(Seq::<A>::empty() + groups.first() =~= groups.flatten());
    } else {
        lemma_chain_binds_in_order(entry, groups);
    }
}

/// Stage determinism: the stage reached after a proper prefix of the
/// arguments holds exactly that prefix, so two chains that supply the same
/// arguments reach the same stage, whatever their groups.
pub proof fn lemma_stage_determinism<A>(n: nat, first: Seq<Seq<A>>, second: Seq<Seq<A>>)
    requires
        forall|i: int| 0 <= i < first.len() ==> (#[trigger] first[i]).len() > 0,
        forall|i: int| 0 <= i < second.len() ==> (#[trigger] second[i]).len() > 0,
        first.flatten() == second.flatten(),
        first.flatten().len() < n,
    ensures
        chain(entry_view(n), first) == Step::Next(
            StageView { arity: n, bound: first.flatten() },
        ),
        chain(entry_view(n), first) == chain(entry_view(n), second),
{
    let entry = entry_view::<A>(n);
    assert(Seq::<A>::empty() + first.flatten() =~= first.flatten());
    lemma_chain_binds_in_order(entry, first);
    lemma_chain_binds_in_order(entry, second);
}

/// A function without parameters runs at the one call without arguments;
/// a function of one parameter runs at the call with its argument. Neither
/// has a stage besides the entry.
pub proof fn lemma_small_arities<A>(a: A)
    ensures
        step(entry_view::<A>(0), Seq::empty()) == Step::Execute(Seq::<A>::empty()),
        step(entry_view::<A>(1), seq![a]) == Step::Execute(seq![a]),
        forall|count: nat| #[trigger] entry_view::<A>(0).accepts(count) <==> count == 0,
        forall|count: nat| #[trigger] entry_view::<A>(1).accepts(count) <==> count == 1,
{
    assert(Seq::<A>::empty() + Seq::<A>::empty() =~= Seq::<A>::empty());
    assert(Seq::<A>::empty() + seq![a] =~= seq![a]);
}

} // verus!
