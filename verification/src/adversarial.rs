//! Adversarial search and game trees.
//!
//! This module evaluates turn-based games through adversarial search. A caller
//! describes a game by implementing [`AdversarialSearchState`]; an
//! [`AdversarialSearchAgent`] then expands a game tree from a starting state,
//! one ply per configured policy, and reads the optimal action for the first
//! agent off the root.
//!
//! Every node computes its utility bottom-up from its successors: maximizer
//! and minimizer nodes take the greatest or least successor utility (keeping
//! the earliest successor on ties), chance nodes take the unweighted mean, and
//! terminal nodes evaluate their state directly.

use vstd::prelude::*;

verus! {

/// Ordering capability for utility values, used by maximizer and minimizer
/// nodes. `lt` decides the strict "less than" relation; its specification-level
/// meaning is `spec_lt`.
pub trait OrderedUtility: Sized {
    /// The strict order that `lt` decides. Implementors override this;
    /// the default leaves the order unspecified.
    open spec fn spec_lt(&self, other: &Self) -> bool {
        arbitrary()
    }

    /// Returns `true` exactly when `self` is strictly less than `other`.
    fn lt(&self, other: &Self) -> (r: bool)
        ensures
            r == self.spec_lt(other),
    ;
}

/// Averaging capability for utility values, used by chance nodes: a zero
/// element, a one element, addition and division, each mirrored by a
/// specification-level function.
pub trait NumericUtility: Sized {
    /// The value that `zero` returns. Implementors override this; the
    /// default leaves the value unspecified.
    open spec fn spec_zero() -> Self {
        arbitrary()
    }

    /// The value that `one` returns. Implementors override this; the default
    /// leaves the value unspecified.
    open spec fn spec_one() -> Self {
        arbitrary()
    }

    /// The value that `add` returns. Implementors override this; the default
    /// leaves the value unspecified.
    open spec fn spec_add(self, other: Self) -> Self {
        arbitrary()
    }

    /// The value that `div` returns. Implementors override this; the default
    /// leaves the value unspecified.
    open spec fn spec_div(self, other: Self) -> Self {
        arbitrary()
    }

    /// Returns the additive identity.
    fn zero() -> (r: Self)
        ensures
            r == Self::spec_zero(),
    ;

    /// Returns the multiplicative identity.
    fn one() -> (r: Self)
        ensures
            r == Self::spec_one(),
    ;

    /// Returns the sum of `self` and `other`.
    fn add(self, other: Self) -> (r: Self)
        ensures
            r == self.spec_add(other),
    ;

    /// Returns `self` divided by `other`.
    fn div(self, other: Self) -> (r: Self)
        ensures
            r == self.spec_div(other),
    ;
}

/// Base trait for states in a game tree.
///
/// Implement this trait for the state representation of a concrete game. The
/// exec methods are the interface the search engine calls; each is pinned to a
/// specification-level counterpart so that search results can be reasoned
/// about. `measure` is a ghost bound on the remaining length of the game: it
/// must strictly shrink across every legal transition, which is what makes
/// unbounded-depth search terminate.
pub trait AdversarialSearchState: Sized {
    /// A legal move in the game. Actions are small values that are copied
    /// freely.
    type Action: Copy;

    /// An actor in the game, usually a small identifier type.
    type Agent: Copy;

    /// How favorable a state is to the searching agent.
    type Utility;

    /// The actions that `actions` returns. Implementors override this; the
    /// default leaves the value unspecified.
    open spec fn spec_actions(&self, agent: Self::Agent) -> Seq<Self::Action> {
        arbitrary()
    }

    /// The state that `successor` returns. Implementors override this; the
    /// default leaves the value unspecified.
    open spec fn spec_successor(&self, agent: Self::Agent, action: Self::Action) -> Self {
        arbitrary()
    }

    /// The utility that `eval` returns. Implementors override this; the
    /// default leaves the value unspecified.
    open spec fn spec_eval(&self) -> Self::Utility {
        arbitrary()
    }

    /// Whether the state is terminal. Implementors override this; the
    /// default leaves the value unspecified.
    open spec fn spec_is_terminal(&self) -> bool {
        arbitrary()
    }

    /// An upper bound on how many further plies the game can last from this
    /// state: every legal transition strictly decreases it. Implementors
    /// override this; the default leaves the value unspecified.
    open spec fn measure(&self) -> nat {
        arbitrary()
    }

    /// Returns the legal actions the given agent can take at this state.
    fn actions(&self, agent: Self::Agent) -> (r: Vec<Self::Action>)
        ensures
            r@ == self.spec_actions(agent),
    ;

    /// Returns the state that arises from the given agent taking the given
    /// action at this state. The action must be legal here.
    fn successor(&self, agent: Self::Agent, action: Self::Action) -> (s: Self)
        requires
            self.spec_actions(agent).contains(action),
        ensures
            s == self.spec_successor(agent, action),
            s.measure() < self.measure(),
    ;

    /// Returns the utility of this state according to the evaluation function.
    fn eval(&self) -> (u: Self::Utility)
        ensures
            u == self.spec_eval(),
    ;

    /// Returns `true` if the state is terminal. A state that is not terminal
    /// must offer every agent at least one action, or tree construction would
    /// produce an interior node with no successors.
    fn is_terminal(&self) -> (r: bool)
        ensures
            r == self.spec_is_terminal(),
            !r ==> forall|agent: Self::Agent| #[trigger] self.spec_actions(agent).len() > 0,
    ;
}

/// The aggregation rule a policy applies at its plies of the game tree: one
/// constructor of non-terminal [`AdversarialSearchNode`] variants.
#[derive(Clone, Copy, PartialEq, Eq, Debug)]
pub enum NodeKind {
    /// Take the greatest successor utility.
    Maximizer,
    /// Take the least successor utility.
    Minimizer,
    /// Take the unweighted mean of the successor utilities.
    Chance,
}

/// A successor in the game tree: the action taken and the child node it leads
/// to.
pub struct AdversarialSearchSuccessor<State: AdversarialSearchState> {
    /// The action leading to the child node.
    pub action: State::Action,
    /// The child node.
    pub node: Box<AdversarialSearchNode<State>>,
}

impl<State: AdversarialSearchState> AdversarialSearchSuccessor<State> {
    /// Creates and returns a new successor.
    pub fn new(action: State::Action, node: Box<AdversarialSearchNode<State>>) -> (r:
        AdversarialSearchSuccessor<State>)
        ensures
            r.action == action,
            r.node == node,
    {
        AdversarialSearchSuccessor { action, node }
    }

    /// Returns the action leading to the child node.
    pub fn action(&self) -> (r: State::Action)
        ensures
            r == self.action,
    {
        self.action
    }

    /// Returns a reference to the child node.
    pub fn node(&self) -> (r: &AdversarialSearchNode<State>)
        ensures
            r == self.node,
    {
        &self.node
    }
}

/// A node in the game tree: a terminal leaf, or an interior node that
/// aggregates its successors' utilities as a maximizer, minimizer or chance
/// node.
pub enum AdversarialSearchNode<State: AdversarialSearchState> {
    /// A leaf: its utility is its state's evaluation.
    Terminal(TerminalNode<State>),
    /// An interior node taking the greatest successor utility.
    Maximizer(MaximizerNode<State>),
    /// An interior node taking the least successor utility.
    Minimizer(MinimizerNode<State>),
    /// An interior node taking the mean of the successor utilities.
    Chance(ChanceNode<State>),
}

/// A terminal (leaf) node in the game tree.
pub struct TerminalNode<State: AdversarialSearchState> {
    /// The state this leaf represents.
    pub state: State,
}

/// A maximizer node in the game tree. Its utility is the greatest utility
/// among its successors, keeping the earliest successor on ties.
pub struct MaximizerNode<State: AdversarialSearchState> {
    /// The state this node represents.
    pub state: State,
    /// The node's successors, in the order the actions were enumerated.
    pub successors: Vec<AdversarialSearchSuccessor<State>>,
}

/// A minimizer node in the game tree. Its utility is the least utility among
/// its successors, keeping the earliest successor on ties.
pub struct MinimizerNode<State: AdversarialSearchState> {
    /// The state this node represents.
    pub state: State,
    /// The node's successors, in the order the actions were enumerated.
    pub successors: Vec<AdversarialSearchSuccessor<State>>,
}

/// A chance node in the game tree. Its utility is the unweighted mean of its
/// successors' utilities, each successor being equally likely.
pub struct ChanceNode<State: AdversarialSearchState> {
    /// The state this node represents.
    pub state: State,
    /// The node's successors, in the order the actions were enumerated.
    pub successors: Vec<AdversarialSearchSuccessor<State>>,
}

impl<State: AdversarialSearchState> AdversarialSearchNode<State> {
    /// Well-formedness of a game tree: every interior node has at least one
    /// successor.
    pub open spec fn wf(self) -> bool
        decreases self,
    {
        match self {
            AdversarialSearchNode::Terminal(_) => true,
            AdversarialSearchNode::Maximizer(m) => m.successors@.len() >= 1 && (forall|i: int|
                0 <= i < m.successors@.len() ==> (#[trigger] m.successors@[i]).node.wf()),
            AdversarialSearchNode::Minimizer(m) => m.successors@.len() >= 1 && (forall|i: int|
                0 <= i < m.successors@.len() ==> (#[trigger] m.successors@[i]).node.wf()),
            AdversarialSearchNode::Chance(c) => c.successors@.len() >= 1 && (forall|i: int|
                0 <= i < c.successors@.len() ==> (#[trigger] c.successors@[i]).node.wf()),
        }
    }

    /// Returns a reference to the state stored at this node.
    pub fn state(&self) -> (r: &State)
        ensures
            r == self.spec_state(),
    {
        match self {
            AdversarialSearchNode::Terminal(t) => &t.state,
            AdversarialSearchNode::Maximizer(m) => &m.state,
            AdversarialSearchNode::Minimizer(m) => &m.state,
            AdversarialSearchNode::Chance(c) => &c.state,
        }
    }

    /// The state stored at this node.
    pub open spec fn spec_state(self) -> State {
        match self {
            AdversarialSearchNode::Terminal(t) => t.state,
            AdversarialSearchNode::Maximizer(m) => m.state,
            AdversarialSearchNode::Minimizer(m) => m.state,
            AdversarialSearchNode::Chance(c) => c.state,
        }
    }

    /// Returns a reference to the node's successors, or `None` for a terminal
    /// node.
    pub fn successors(&self) -> (r: Option<&Vec<AdversarialSearchSuccessor<State>>>)
        ensures
            match *self {
                AdversarialSearchNode::Terminal(_) => r is None,
                AdversarialSearchNode::Maximizer(m) => r matches Some(s) && s@ == m.successors@,
                AdversarialSearchNode::Minimizer(m) => r matches Some(s) && s@ == m.successors@,
                AdversarialSearchNode::Chance(c) => r matches Some(s) && s@ == c.successors@,
            },
    {
        match self {
            AdversarialSearchNode::Terminal(_) => None,
            AdversarialSearchNode::Maximizer(m) => Some(&m.successors),
            AdversarialSearchNode::Minimizer(m) => Some(&m.successors),
            AdversarialSearchNode::Chance(c) => Some(&c.successors),
        }
    }
}

impl<State: AdversarialSearchState> AdversarialSearchNode<State> where
    State::Utility: OrderedUtility + NumericUtility,
 {
    /// The utility of the first `i` successors' scan for a maximizer: the
    /// greatest utility seen so far and the action of the earliest successor
    /// attaining it.
    pub open spec fn max_scan(s: Seq<AdversarialSearchSuccessor<State>>, i: int) -> (State::Utility,
        State::Action)
        recommends
            1 <= i <= s.len(),
        decreases s, i,
    {
        if s.len() == 0 {
            arbitrary()
        } else if i <= 1 || i > s.len() {
            (s[0].node.spec_utility().0, s[0].action)
        } else {
            let prev = Self::max_scan(s, i - 1);
            let u = s[i - 1].node.spec_utility().0;
            if prev.0.spec_lt(&u) {
                (u, s[i - 1].action)
            } else {
                prev
            }
        }
    }

    /// The utility of the first `i` successors' scan for a minimizer: the
    /// least utility seen so far and the action of the earliest successor
    /// attaining it.
    pub open spec fn min_scan(s: Seq<AdversarialSearchSuccessor<State>>, i: int) -> (State::Utility,
        State::Action)
        recommends
            1 <= i <= s.len(),
        decreases s, i,
    {
        if s.len() == 0 {
            arbitrary()
        } else if i <= 1 || i > s.len() {
            (s[0].node.spec_utility().0, s[0].action)
        } else {
            let prev = Self::min_scan(s, i - 1);
            let u = s[i - 1].node.spec_utility().0;
            if u.spec_lt(&prev.0) {
                (u, s[i - 1].action)
            } else {
                prev
            }
        }
    }

    /// The running sum of the first `i` successors' utilities and the running
    /// count of successors, each built with the utility type's own arithmetic.
    pub open spec fn chance_scan(s: Seq<AdversarialSearchSuccessor<State>>, i: int) -> (
        State::Utility, State::Utility)
        recommends
            0 <= i <= s.len(),
        decreases s, i,
    {
        if i <= 0 || i > s.len() {
            (State::Utility::spec_zero(), State::Utility::spec_zero())
        } else {
            let prev = Self::chance_scan(s, i - 1);
            let u = s[i - 1].node.spec_utility().0;
            (prev.0.spec_add(u), prev.1.spec_add(State::Utility::spec_one()))
        }
    }

    /// The utility of this node and the action achieving it: the state's
    /// evaluation for a terminal node, the greatest or least successor utility
    /// with the earliest attaining action for a maximizer or minimizer, and
    /// the mean successor utility with no action for a chance node.
    pub open spec fn spec_utility(self) -> (State::Utility, Option<State::Action>)
        decreases self, 1int,
    {
        match self {
            AdversarialSearchNode::Terminal(t) => (t.state.spec_eval(), None),
            AdversarialSearchNode::Maximizer(m) => {
                let r = Self::max_scan(m.successors@, m.successors@.len() as int);
                (r.0, Some(r.1))
            },
            AdversarialSearchNode::Minimizer(m) => {
                let r = Self::min_scan(m.successors@, m.successors@.len() as int);
                (r.0, Some(r.1))
            },
            AdversarialSearchNode::Chance(c) => {
                let r = Self::chance_scan(c.successors@, c.successors@.len() as int);
                (r.0.spec_div(r.1), None)
            },
        }
    }

    /// Returns the node's utility and the action required to achieve it, if
    /// any: exactly `spec_utility`.
    pub fn utility(&self) -> (r: (State::Utility, Option<State::Action>))
        requires
            self.wf(),
        ensures
            r == self.spec_utility(),
        decreases self,
    {
        match self {
            AdversarialSearchNode::Terminal(t) => t.utility(),
            AdversarialSearchNode::Maximizer(m) => m.utility(),
            AdversarialSearchNode::Minimizer(m) => m.utility(),
            AdversarialSearchNode::Chance(c) => c.utility(),
        }
    }
}

impl<State: AdversarialSearchState> TerminalNode<State> {
    /// Creates and returns a new terminal node for the given state.
    pub fn new(state: State) -> (r: Box<AdversarialSearchNode<State>>)
        ensures
            *r matches AdversarialSearchNode::Terminal(t) && t.state == state,
    {
        Box::new(AdversarialSearchNode::Terminal(TerminalNode { state }))
    }
}

impl<State: AdversarialSearchState> TerminalNode<State> where
    State::Utility: OrderedUtility + NumericUtility,
 {
    /// Returns the state's evaluation, paired with no action.
    pub fn utility(&self) -> (r: (State::Utility, Option<State::Action>))
        ensures
            r == AdversarialSearchNode::Terminal(*self).spec_utility(),
            r == (self.state.spec_eval(), None::<State::Action>),
    {
        (self.state.eval(), None)
    }
}

impl<State: AdversarialSearchState> MaximizerNode<State> {
    /// Creates and returns a new maximizer node for the given state and
    /// successors.
    pub fn new(state: State, successors: Vec<AdversarialSearchSuccessor<State>>) -> (r: Box<
        AdversarialSearchNode<State>>)
        ensures
            *r matches AdversarialSearchNode::Maximizer(m) && m.state == state && m.successors@
                == successors@,
    {
        Box::new(AdversarialSearchNode::Maximizer(MaximizerNode { state, successors }))
    }
}

impl<State: AdversarialSearchState> MaximizerNode<State> where
    State::Utility: OrderedUtility + NumericUtility,
 {
    /// Returns the greatest successor utility and the action of the earliest
    /// successor attaining it.
    pub fn utility(&self) -> (r: (State::Utility, Option<State::Action>))
        requires
            AdversarialSearchNode::Maximizer(*self).wf(),
        ensures
            r == AdversarialSearchNode::Maximizer(*self).spec_utility(),
            r.1 is Some,
        decreases *self,
    {
        let successor = &self.successors[0];
        let (mut max_utility, _) = successor.node().utility();
        let mut optimal_action = successor.action();

        let mut i: usize = 1;
        while i < self.successors.len()
            invariant
                1 <= i <= self.successors@.len(),
                AdversarialSearchNode::Maximizer(*self).wf(),
                (max_utility, optimal_action) == AdversarialSearchNode::<State>::max_scan(
                    self.successors@, i as int),
            decreases self.successors@.len() - i,
        {
            let successor = &self.successors[i];
            let (utility, _) = successor.node().utility();
            let action = successor.action();

            if max_utility.lt(&utility) {
                max_utility = utility;
                optimal_action = action;
            }
            i += 1;
        }
        (max_utility, Some(optimal_action))
    }
}

impl<State: AdversarialSearchState> MinimizerNode<State> {
    /// Creates and returns a new minimizer node for the given state and
    /// successors.
    pub fn new(state: State, successors: Vec<AdversarialSearchSuccessor<State>>) -> (r: Box<
        AdversarialSearchNode<State>>)
        ensures
            *r matches AdversarialSearchNode::Minimizer(m) && m.state == state && m.successors@
                == successors@,
    {
        Box::new(AdversarialSearchNode::Minimizer(MinimizerNode { state, successors }))
    }
}

impl<State: AdversarialSearchState> MinimizerNode<State> where
    State::Utility: OrderedUtility + NumericUtility,
 {
    /// Returns the least successor utility and the action of the earliest
    /// successor attaining it.
    pub fn utility(&self) -> (r: (State::Utility, Option<State::Action>))
        requires
            AdversarialSearchNode::Minimizer(*self).wf(),
        ensures
            r == AdversarialSearchNode::Minimizer(*self).spec_utility(),
            r.1 is Some,
        decreases *self,
    {
        let successor = &self.successors[0];
        let (mut min_utility, _) = successor.node().utility();
        let mut optimal_action = successor.action();

        let mut i: usize = 1;
        while i < self.successors.len()
            invariant
                1 <= i <= self.successors@.len(),
                AdversarialSearchNode::Minimizer(*self).wf(),
                (min_utility, optimal_action) == AdversarialSearchNode::<State>::min_scan(
                    self.successors@, i as int),
            decreases self.successors@.len() - i,
        {
            let successor = &self.successors[i];
            let (utility, _) = successor.node().utility();
            let action = successor.action();

            if utility.lt(&min_utility) {
                min_utility = utility;
                optimal_action = action;
            }
            i += 1;
        }
        (min_utility, Some(optimal_action))
    }
}

impl<State: AdversarialSearchState> ChanceNode<State> {
    /// Creates and returns a new chance node for the given state and
    /// successors.
    pub fn new(state: State, successors: Vec<AdversarialSearchSuccessor<State>>) -> (r: Box<
        AdversarialSearchNode<State>>)
        ensures
            *r matches AdversarialSearchNode::Chance(c) && c.state == state && c.successors@
                == successors@,
    {
        Box::new(AdversarialSearchNode::Chance(ChanceNode { state, successors }))
    }
}

impl<State: AdversarialSearchState> ChanceNode<State> where
    State::Utility: OrderedUtility + NumericUtility,
 {
    /// Returns the mean of the successors' utilities, paired with no action:
    /// chance nodes predict expected utility, not a move.
    pub fn utility(&self) -> (r: (State::Utility, Option<State::Action>))
        requires
            AdversarialSearchNode::Chance(*self).wf(),
        ensures
            r == AdversarialSearchNode::Chance(*self).spec_utility(),
            r.1 is None,
        decreases *self,
    {
        let mut total_utility = State::Utility::zero();
        let mut n_successors = State::Utility::zero();

        let mut i: usize = 0;
        while i < self.successors.len()
            invariant
                0 <= i <= self.successors@.len(),
                AdversarialSearchNode::Chance(*self).wf(),
                (total_utility, n_successors) == AdversarialSearchNode::<State>::chance_scan(
                    self.successors@, i as int),
            decreases self.successors@.len() - i,
        {
            let successor = &self.successors[i];
            let (utility, _) = successor.node().utility();

            total_utility = total_utility.add(utility);
            n_successors = n_successors.add(State::Utility::one());
            i += 1;
        }
        (total_utility.div(n_successors), None)
    }
}

/// A policy in adversarial search: an agent and the kind of node that models
/// its turns in the game tree.
pub struct AdversarialSearchPolicy<State: AdversarialSearchState> {
    /// The agent to which the policy applies.
    pub agent: State::Agent,
    /// The kind of node used at this agent's plies.
    pub node: NodeKind,
}

impl<State: AdversarialSearchState> AdversarialSearchPolicy<State> {
    /// Creates and returns a new policy.
    pub fn new(agent: State::Agent, node: NodeKind) -> (r: AdversarialSearchPolicy<State>)
        ensures
            r.agent == agent,
            r.node == node,
    {
        AdversarialSearchPolicy { agent, node }
    }

    /// Returns the agent to which the policy applies.
    pub fn agent(&self) -> (r: State::Agent)
        ensures
            r == self.agent,
    {
        self.agent
    }

    /// Returns the kind of node the policy uses.
    pub fn node(&self) -> (r: NodeKind)
        ensures
            r == self.node,
    {
        self.node
    }
}

impl<State: AdversarialSearchState> AdversarialSearchNode<State> {
    /// Whether this node is the game tree that policy-driven construction
    /// builds from `state`: a terminal leaf where the state is terminal or the
    /// depth bound is reached, and otherwise the interior node of the kind the
    /// current policy prescribes, with one successor per legal action of the
    /// policy's agent, in order.
    pub open spec fn models(
        self,
        policies: Seq<AdversarialSearchPolicy<State>>,
        state: State,
        policy_index: int,
        depth: int,
        max_depth: Option<usize>,
    ) -> bool
        decreases self,
    {
        if state.spec_is_terminal() || (max_depth matches Some(d) && depth == d) {
            self matches AdversarialSearchNode::Terminal(t) && t.state == state
        } else {
            let agent = policies[policy_index].agent;
            let next_index = (policy_index + 1) % (policies.len() as int);
            match self {
                AdversarialSearchNode::Terminal(_) => false,
                AdversarialSearchNode::Maximizer(m) => policies[policy_index].node
                    == NodeKind::Maximizer && m.state == state && Self::successors_model(
                    m.successors@,
                    policies,
                    state,
                    agent,
                    next_index,
                    depth + 1,
                    max_depth,
                ),
                AdversarialSearchNode::Minimizer(m) => policies[policy_index].node
                    == NodeKind::Minimizer && m.state == state && Self::successors_model(
                    m.successors@,
                    policies,
                    state,
                    agent,
                    next_index,
                    depth + 1,
                    max_depth,
                ),
                AdversarialSearchNode::Chance(c) => policies[policy_index].node == NodeKind::Chance
                    && c.state == state && Self::successors_model(
                    c.successors@,
                    policies,
                    state,
                    agent,
                    next_index,
                    depth + 1,
                    max_depth,
                ),
            }
        }
    }

    /// Whether `s` is the successor list of a node for `state` at which
    /// `agent` acts: one edge per legal action, in enumeration order, whose
    /// child models the corresponding successor state one ply deeper.
    pub open spec fn successors_model(
        s: Seq<AdversarialSearchSuccessor<State>>,
        policies: Seq<AdversarialSearchPolicy<State>>,
        state: State,
        agent: State::Agent,
        policy_index: int,
        depth: int,
        max_depth: Option<usize>,
    ) -> bool
        decreases s,
    {
        s.len() == state.spec_actions(agent).len() && (forall|i: int|
            0 <= i < s.len() ==> (#[trigger] s[i]).action == state.spec_actions(agent)[i]
                && s[i].node.models(
                policies,
                state.spec_successor(agent, state.spec_actions(agent)[i]),
                policy_index,
                depth,
                max_depth,
            ))
    }
}

/// An agent that performs adversarial search.
///
/// The agent owns one policy per actor in the game, the searching agent's own
/// policy first, and an optional maximum search depth. `optimal_action`
/// expands the game tree from a starting state and reads the best first move
/// off the root.
pub struct AdversarialSearchAgent<State: AdversarialSearchState> {
    /// The policies, the searching agent's own first, adversaries after it in
    /// evaluation order.
    pub policies: Vec<AdversarialSearchPolicy<State>>,
    /// The number of policies.
    pub n_policies: usize,
    /// The optional maximum search depth; `None` searches the whole tree.
    pub max_depth: Option<usize>,
}

impl<State: AdversarialSearchState> AdversarialSearchAgent<State> {
    /// Well-formedness: the recorded policy count matches the policy list.
    pub open spec fn wf(self) -> bool {
        self.n_policies == self.policies@.len()
    }

    /// Creates and returns a new adversarial search agent from the full
    /// policy list and an optional maximum depth. The searching agent's own
    /// policy must come first; adversaries are evaluated in the order given.
    pub fn new(policies: Vec<AdversarialSearchPolicy<State>>, max_depth: Option<usize>) -> (r:
        AdversarialSearchAgent<State>)
        ensures
            r.wf(),
            r.policies@ == policies@,
            r.n_policies == policies@.len(),
            r.max_depth == max_depth,
    {
        let n_policies = policies.len();

        AdversarialSearchAgent { policies, n_policies, max_depth }
    }

    /// Creates and returns a minimax agent: the first listed agent uses
    /// maximizer nodes and every other agent uses minimizer nodes, in the
    /// order given.
    pub fn minimax(agents: Vec<State::Agent>, max_depth: Option<usize>) -> (r:
        AdversarialSearchAgent<State>)
        requires
            agents@.len() >= 1,
        ensures
            r.wf(),
            r.n_policies == agents@.len(),
            r.max_depth == max_depth,
            r.policies@.len() == agents@.len(),
            forall|i: int|
                0 <= i < agents@.len() ==> (#[trigger] r.policies@[i]).agent == agents@[i],
            r.policies@[0].node == NodeKind::Maximizer,
            forall|i: int|
                1 <= i < agents@.len() ==> (#[trigger] r.policies@[i]).node == NodeKind::Minimizer,
    {
        let n_policies = agents.len();
        let mut policies: Vec<AdversarialSearchPolicy<State>> = Vec::with_capacity(n_policies);

        let agent_policy = AdversarialSearchPolicy::new(agents[0], NodeKind::Maximizer);
        policies.push(agent_policy);

        let mut i: usize = 1;
        while i < agents.len()
            invariant
                1 <= i <= agents@.len(),
                policies@.len() == i,
                forall|j: int| 0 <= j < i ==> (#[trigger] policies@[j]).agent == agents@[j],
                policies@[0].node == NodeKind::Maximizer,
                forall|j: int| 1 <= j < i ==> (#[trigger] policies@[j]).node == NodeKind::Minimizer,
            decreases agents@.len() - i,
        {
            let policy = AdversarialSearchPolicy::new(agents[i], NodeKind::Minimizer);
            policies.push(policy);
            i += 1;
        }

        AdversarialSearchAgent { policies, n_policies, max_depth }
    }

    /// Creates and returns an expectimax agent: the first listed agent uses
    /// maximizer nodes and every other agent uses chance nodes, in the order
    /// given.
    pub fn expectimax(agents: Vec<State::Agent>, max_depth: Option<usize>) -> (r:
        AdversarialSearchAgent<State>)
        requires
            agents@.len() >= 1,
        ensures
            r.wf(),
            r.n_policies == agents@.len(),
            r.max_depth == max_depth,
            r.policies@.len() == agents@.len(),
            forall|i: int|
                0 <= i < agents@.len() ==> (#[trigger] r.policies@[i]).agent == agents@[i],
            r.policies@[0].node == NodeKind::Maximizer,
            forall|i: int|
                1 <= i < agents@.len() ==> (#[trigger] r.policies@[i]).node == NodeKind::Chance,
    {
        let n_policies = agents.len();
        let mut policies: Vec<AdversarialSearchPolicy<State>> = Vec::with_capacity(n_policies);

        let agent_policy = AdversarialSearchPolicy::new(agents[0], NodeKind::Maximizer);
        policies.push(agent_policy);

        let mut i: usize = 1;
        while i < agents.len()
            invariant
                1 <= i <= agents@.len(),
                policies@.len() == i,
                forall|j: int| 0 <= j < i ==> (#[trigger] policies@[j]).agent == agents@[j],
                policies@[0].node == NodeKind::Maximizer,
                forall|j: int| 1 <= j < i ==> (#[trigger] policies@[j]).node == NodeKind::Chance,
            decreases agents@.len() - i,
        {
            let policy = AdversarialSearchPolicy::new(agents[i], NodeKind::Chance);
            policies.push(policy);
            i += 1;
        }

        AdversarialSearchAgent { policies, n_policies, max_depth }
    }

    /// Returns a reference to the agent's policies, its own first.
    pub fn policies(&self) -> (r: &Vec<AdversarialSearchPolicy<State>>)
        ensures
            r@ == self.policies@,
    {
        &self.policies
    }

    /// Returns the number of policies in the game tree.
    pub fn n_policies(&self) -> (r: usize)
        ensures
            r == self.n_policies,
    {
        self.n_policies
    }

    /// Returns the optional maximum depth of adversarial search. `None` means
    /// search proceeds through the entire game tree.
    pub fn max_depth(&self) -> (r: Option<usize>)
        ensures
            r == self.max_depth,
    {
        self.max_depth
    }
}

impl<State: AdversarialSearchState> AdversarialSearchAgent<State> where
    State::Utility: OrderedUtility + NumericUtility,
 {
    /// Returns the optimal action for the agent to take from `state`, if one
    /// exists: the action read off the root of the game tree built from
    /// `state` with the agent acting first. `None` comes back exactly when
    /// the root holds no action: the start state is terminal, the depth bound
    /// is zero, or the agent's own policy is a chance policy.
    pub fn optimal_action(&self, state: State) -> (r: Option<State::Action>)
        requires
            self.wf(),
            self.n_policies >= 1,
            self.max_depth is None ==> state.measure() <= usize::MAX,
        ensures
            exists|root: AdversarialSearchNode<State>|
                root.wf() && (#[trigger] root.models(self.policies@, state, 0, 0, self.max_depth))
                    && r == root.spec_utility().1,
            forall|root: AdversarialSearchNode<State>|
                (#[trigger] root.models(self.policies@, state, 0, 0, self.max_depth)) ==> r
                    == root.spec_utility().1,
            r is Some <==> (!state.spec_is_terminal() && self.max_depth != Some(0usize)
                && self.policies@[0].node != NodeKind::Chance),
    {
        let root = self.make_node(state, 0, 0);
        let (_, action) = root.utility();

        proof {
            assert((*root).wf() && (*root).models(self.policies@, state, 0, 0, self.max_depth)
                && action == (*root).spec_utility().1);
            assert forall|other: AdversarialSearchNode<State>|
                (#[trigger] other.models(
                    self.policies@,
                    state,
                    0,
                    0,
                    self.max_depth,
                )) implies action == other.spec_utility().1 by {
                lemma_models_utility_unique(
                    other,
                    *root,
                    self.policies@,
                    state,
                    0,
                    0,
                    self.max_depth,
                );
            }
        }
        action
    }

    /// Builds the game tree rooted at `state`: a terminal leaf if the state
    /// is terminal or the depth bound is reached, and otherwise the node kind
    /// prescribed by the policy at `policy_index`, with one successor per
    /// legal action of that policy's agent, each built one ply deeper at the
    /// next policy.
    fn make_node(&self, state: State, policy_index: usize, depth: usize) -> (r: Box<
        AdversarialSearchNode<State>>)
        requires
            self.wf(),
            self.n_policies >= 1,
            policy_index < self.n_policies,
            self.max_depth matches Some(d) ==> depth <= d,
            self.max_depth is None ==> depth + state.measure() <= usize::MAX,
        ensures
            r.wf(),
            r.models(self.policies@, state, policy_index as int, depth as int, self.max_depth),
        decreases state.measure(),
    {
        let depth_limited = match self.max_depth {
            Some(d) => depth == d,
            None => false,
        };
        if state.is_terminal() || depth_limited {
            TerminalNode::new(state)
        } else {
            let mut successors: Vec<AdversarialSearchSuccessor<State>> = Vec::new();

            let policy = &self.policies[policy_index];
            let agent = policy.agent();
            let kind = policy.node();
            let next_index = (policy_index + 1) % self.n_policies;

            let actions = state.actions(agent);

            let mut i: usize = 0;
            while i < actions.len()
                invariant
                    self.wf(),
                    self.n_policies >= 1,
                    policy_index < self.n_policies,
                    next_index == (policy_index + 1) % (self.n_policies as int),
                    agent == self.policies@[policy_index as int].agent,
                    kind == self.policies@[policy_index as int].node,
                    actions@ == state.spec_actions(agent),
                    actions@.len() >= 1,
                    !state.spec_is_terminal(),
                    self.max_depth matches Some(d) ==> depth < d,
                    self.max_depth is None ==> depth + state.measure() <= usize::MAX,
                    i <= actions@.len(),
                    successors@.len() == i,
                    forall|j: int|
                        0 <= j < i ==> (#[trigger] successors@[j]).action == actions@[j]
                            && successors@[j].node.wf() && successors@[j].node.models(
                            self.policies@,
                            state.spec_successor(agent, actions@[j]),
                            next_index as int,
                            depth + 1,
                            self.max_depth,
                        ),
                decreases actions@.len() - i,
            {
                let action = actions[i];
                proof {
                    assert(state.spec_actions(agent)[i as int] == action);
                    assert(state.spec_actions(agent).contains(action));
                }
                let successor_state = state.successor(agent, action);
                let child = self.make_node(successor_state, next_index, depth + 1);

                let successor = AdversarialSearchSuccessor::new(action, child);
                successors.push(successor);
                i += 1;
            }

            match kind {
                NodeKind::Maximizer => MaximizerNode::new(state, successors),
                NodeKind::Minimizer => MinimizerNode::new(state, successors),
                NodeKind::Chance => ChanceNode::new(state, successors),
            }
        }
    }
}

impl<State: AdversarialSearchState> AdversarialSearchNode<State> {
    /// The number of plies from this node down to its deepest leaf.
    pub open spec fn height(self) -> nat
        decreases self,
    {
        match self {
            AdversarialSearchNode::Terminal(_) => 0,
            AdversarialSearchNode::Maximizer(m) => 1 + Self::successors_height(
                m.successors@,
                m.successors@.len() as int,
            ),
            AdversarialSearchNode::Minimizer(m) => 1 + Self::successors_height(
                m.successors@,
                m.successors@.len() as int,
            ),
            AdversarialSearchNode::Chance(c) => 1 + Self::successors_height(
                c.successors@,
                c.successors@.len() as int,
            ),
        }
    }

    /// The greatest height among the first `i` successors' children.
    pub open spec fn successors_height(s: Seq<AdversarialSearchSuccessor<State>>, i: int) -> nat
        decreases s, i,
    {
        if i <= 0 || i > s.len() {
            0
        } else {
            let h = s[i - 1].node.height();
            let rest = Self::successors_height(s, i - 1);
            if h > rest {
                h
            } else {
                rest
            }
        }
    }
}

/// Law: under a maximum depth `d`, no node of a constructed game tree lies
/// more than `d` plies from the root. A tree modeled at `depth` reaches at
/// most `d - depth` plies further down, and a node sitting at the bound
/// itself is terminal whatever its state.
pub proof fn lemma_depth_bounded<State: AdversarialSearchState>(
    node: AdversarialSearchNode<State>,
    policies: Seq<AdversarialSearchPolicy<State>>,
    state: State,
    policy_index: int,
    depth: int,
    d: usize,
)
    requires
        node.models(policies, state, policy_index, depth, Some(d)),
        0 <= depth <= d,
    ensures
        node.height() + depth <= d,
        depth == d ==> node is Terminal,
    decreases node,
{
    if state.spec_is_terminal() || depth == d {
    } else {
        let agent = policies[policy_index].agent;
        let next_index = (policy_index + 1) % (policies.len() as int);
        match node {
            AdversarialSearchNode::Terminal(_) => {},
            AdversarialSearchNode::Maximizer(m) => {
                lemma_successors_height_bounded(
                    m.successors@,
                    policies,
                    state,
                    agent,
                    next_index,
                    depth + 1,
                    d,
                    m.successors@.len() as int,
                );
            },
            AdversarialSearchNode::Minimizer(m) => {
                lemma_successors_height_bounded(
                    m.successors@,
                    policies,
                    state,
                    agent,
                    next_index,
                    depth + 1,
                    d,
                    m.successors@.len() as int,
                );
            },
            AdversarialSearchNode::Chance(c) => {
                lemma_successors_height_bounded(
                    c.successors@,
                    policies,
                    state,
                    agent,
                    next_index,
                    depth + 1,
                    d,
                    c.successors@.len() as int,
                );
            },
        }
    }
}

/// Helper for `lemma_depth_bounded`: every child among the first `i`
/// successors keeps the tree within the depth bound.
proof fn lemma_successors_height_bounded<State: AdversarialSearchState>(
    s: Seq<AdversarialSearchSuccessor<State>>,
    policies: Seq<AdversarialSearchPolicy<State>>,
    state: State,
    agent: State::Agent,
    policy_index: int,
    depth: int,
    d: usize,
    i: int,
)
    requires
        0 <= i <= s.len(),
        0 <= depth <= d,
        forall|j: int|
            0 <= j < s.len() ==> (#[trigger] s[j]).node.models(
                policies,
                state.spec_successor(agent, state.spec_actions(agent)[j]),
                policy_index,
                depth,
                Some(d),
            ),
    ensures
        AdversarialSearchNode::successors_height(s, i) + depth <= d,
    decreases s, i,
{
    if i <= 0 || i > s.len() {
    } else {
        lemma_depth_bounded(
            *s[i - 1].node,
            policies,
            state.spec_successor(agent, state.spec_actions(agent)[i - 1]),
            policy_index,
            depth,
            d,
        );
        lemma_successors_height_bounded(s, policies, state, agent, policy_index, depth, d, i - 1);
    }
}

/// Whether the strict order on a utility type behaves as a total order:
/// irreflexive, transitive, and any two distinct values compare.
pub open spec fn utility_order_total<U: OrderedUtility>() -> bool {
    (forall|a: U| !(#[trigger] a.spec_lt(&a))) && (forall|a: U, b: U, c: U|
        #![trigger a.spec_lt(&b), b.spec_lt(&c)]
        a.spec_lt(&b) && b.spec_lt(&c) ==> a.spec_lt(&c)) && (forall|a: U, b: U|
        (#[trigger] a.spec_lt(&b)) || b.spec_lt(&a) || a == b)
}

/// Helper for `lemma_maximizer_utility_is_max`: the scan over the first `i`
/// successors yields the greatest utility among them, attained at the
/// earliest successor attaining it.
proof fn lemma_max_scan_props<State: AdversarialSearchState>(
    s: Seq<AdversarialSearchSuccessor<State>>,
    i: int,
) where State::Utility: OrderedUtility + NumericUtility
    requires
        1 <= i <= s.len(),
        utility_order_total::<State::Utility>(),
    ensures
        forall|k: int|
            0 <= k < i ==> !AdversarialSearchNode::max_scan(s, i).0.spec_lt(
                &(#[trigger] s[k]).node.spec_utility().0,
            ),
        exists|j: int|
            0 <= j < i && AdversarialSearchNode::max_scan(s, i) == (
                (#[trigger] s[j]).node.spec_utility().0,
                s[j].action,
            ) && (forall|k: int|
                0 <= k < j ==> (#[trigger] s[k]).node.spec_utility().0.spec_lt(
                    &s[j].node.spec_utility().0,
                )),
    decreases i,
{
    if i == 1 {
        assert(AdversarialSearchNode::max_scan(s, i) == (
            s[0].node.spec_utility().0,
            s[0].action,
        ));
    } else {
        lemma_max_scan_props(s, i - 1);
        let prev = AdversarialSearchNode::max_scan(s, i - 1);
        let u = s[i - 1].node.spec_utility().0;
        if prev.0.spec_lt(&u) {
            assert forall|k: int| 0 <= k < i - 1 implies (#[trigger] s[k]).node.spec_utility().0.spec_lt(
                &u,
            ) by {
                let uk = s[k].node.spec_utility().0;
                assert(!prev.0.spec_lt(&uk));
                if u.spec_lt(&uk) {
                    assert(prev.0.spec_lt(&uk));
                }
                if uk == u {
                    assert(prev.0.spec_lt(&uk));
                }
            }
            assert(AdversarialSearchNode::max_scan(s, i) == (u, s[i - 1].action));
        } else {
            let j = choose|j: int|
                0 <= j < i - 1 && prev == ((#[trigger] s[j]).node.spec_utility().0, s[j].action)
                    && (forall|k: int|
                    0 <= k < j ==> (#[trigger] s[k]).node.spec_utility().0.spec_lt(
                        &s[j].node.spec_utility().0,
                    ));
            assert(0 <= j < i && AdversarialSearchNode::max_scan(s, i) == (
                s[j].node.spec_utility().0,
                s[j].action,
            ) && (forall|k: int|
                0 <= k < j ==> (#[trigger] s[k]).node.spec_utility().0.spec_lt(
                    &s[j].node.spec_utility().0,
                )));
        }
    }
}

/// Law: a maximizer node's utility is the greatest utility among its
/// successors — no successor's utility strictly exceeds it — and the action
/// returned is that of the lowest-indexed successor attaining that utility:
/// every earlier successor's utility is strictly below it. This holds
/// whenever the utility order is irreflexive, transitive and total.
pub proof fn lemma_maximizer_utility_is_max<State: AdversarialSearchState>(
    m: MaximizerNode<State>,
) where State::Utility: OrderedUtility + NumericUtility
    requires
        m.successors@.len() >= 1,
        utility_order_total::<State::Utility>(),
    ensures
        AdversarialSearchNode::Maximizer(m).spec_utility().1 matches Some(a) && exists|j: int|
            0 <= j < m.successors@.len() && AdversarialSearchNode::Maximizer(m).spec_utility() == (
                (#[trigger] m.successors@[j]).node.spec_utility().0,
                Some(m.successors@[j].action),
            ) && (forall|k: int|
                0 <= k < j ==> (#[trigger] m.successors@[k]).node.spec_utility().0.spec_lt(
                    &m.successors@[j].node.spec_utility().0,
                )),
        forall|k: int|
            0 <= k < m.successors@.len()
                ==> !AdversarialSearchNode::Maximizer(m).spec_utility().0.spec_lt(
                &(#[trigger] m.successors@[k]).node.spec_utility().0,
            ),
{
    lemma_max_scan_props(m.successors@, m.successors@.len() as int);
}

/// Helper for `lemma_minimizer_utility_is_min`: the scan over the first `i`
/// successors yields the least utility among them, attained at the earliest
/// successor attaining it.
proof fn lemma_min_scan_props<State: AdversarialSearchState>(
    s: Seq<AdversarialSearchSuccessor<State>>,
    i: int,
) where State::Utility: OrderedUtility + NumericUtility
    requires
        1 <= i <= s.len(),
        utility_order_total::<State::Utility>(),
    ensures
        forall|k: int|
            0 <= k < i ==> !(#[trigger] s[k]).node.spec_utility().0.spec_lt(
                &AdversarialSearchNode::min_scan(s, i).0,
            ),
        exists|j: int|
            0 <= j < i && AdversarialSearchNode::min_scan(s, i) == (
                (#[trigger] s[j]).node.spec_utility().0,
                s[j].action,
            ) && (forall|k: int|
                0 <= k < j ==> s[j].node.spec_utility().0.spec_lt(
                    &(#[trigger] s[k]).node.spec_utility().0,
                )),
    decreases i,
{
    if i == 1 {
        assert(AdversarialSearchNode::min_scan(s, i) == (
            s[0].node.spec_utility().0,
            s[0].action,
        ));
    } else {
        lemma_min_scan_props(s, i - 1);
        let prev = AdversarialSearchNode::min_scan(s, i - 1);
        let u = s[i - 1].node.spec_utility().0;
        if u.spec_lt(&prev.0) {
            assert forall|k: int| 0 <= k < i - 1 implies u.spec_lt(
                &(#[trigger] s[k]).node.spec_utility().0,
            ) by {
                let uk = s[k].node.spec_utility().0;
                assert(!uk.spec_lt(&prev.0));
                if uk.spec_lt(&u) {
                    assert(uk.spec_lt(&prev.0));
                }
                if uk == u {
                    assert(uk.spec_lt(&prev.0));
                }
            }
            assert(AdversarialSearchNode::min_scan(s, i) == (u, s[i - 1].action));
        } else {
            let j = choose|j: int|
                0 <= j < i - 1 && prev == ((#[trigger] s[j]).node.spec_utility().0, s[j].action)
                    && (forall|k: int|
                    0 <= k < j ==> s[j].node.spec_utility().0.spec_lt(
                        &(#[trigger] s[k]).node.spec_utility().0,
                    ));
            assert(0 <= j < i && AdversarialSearchNode::min_scan(s, i) == (
                s[j].node.spec_utility().0,
                s[j].action,
            ) && (forall|k: int|
                0 <= k < j ==> s[j].node.spec_utility().0.spec_lt(
                    &(#[trigger] s[k]).node.spec_utility().0,
                )));
        }
    }
}

/// Law: a minimizer node's utility is the least utility among its successors
/// — it strictly exceeds no successor's utility — and the action returned is
/// that of the lowest-indexed successor attaining that utility: it lies
/// strictly below every earlier successor's utility. This holds whenever the
/// utility order is irreflexive, transitive and total.
pub proof fn lemma_minimizer_utility_is_min<State: AdversarialSearchState>(
    m: MinimizerNode<State>,
) where State::Utility: OrderedUtility + NumericUtility
    requires
        m.successors@.len() >= 1,
        utility_order_total::<State::Utility>(),
    ensures
        AdversarialSearchNode::Minimizer(m).spec_utility().1 matches Some(a) && exists|j: int|
            0 <= j < m.successors@.len() && AdversarialSearchNode::Minimizer(m).spec_utility() == (
                (#[trigger] m.successors@[j]).node.spec_utility().0,
                Some(m.successors@[j].action),
            ) && (forall|k: int|
                0 <= k < j ==> m.successors@[j].node.spec_utility().0.spec_lt(
                    &(#[trigger] m.successors@[k]).node.spec_utility().0,
                )),
        forall|k: int|
            0 <= k < m.successors@.len()
                ==> !(#[trigger] m.successors@[k]).node.spec_utility().0.spec_lt(
                &AdversarialSearchNode::Minimizer(m).spec_utility().0,
            ),
{
    lemma_min_scan_props(m.successors@, m.successors@.len() as int);
}

/// Helper for `lemma_models_utility_unique`: two successor lists whose edges
/// carry the same actions and child utilities scan to the same results.
proof fn lemma_scans_agree<State: AdversarialSearchState>(
    sa: Seq<AdversarialSearchSuccessor<State>>,
    sb: Seq<AdversarialSearchSuccessor<State>>,
    i: int,
) where State::Utility: OrderedUtility + NumericUtility
    requires
        sa.len() == sb.len(),
        sa.len() >= 1,
        0 <= i <= sa.len(),
        forall|j: int|
            0 <= j < sa.len() ==> (#[trigger] sa[j]).action == sb[j].action
                && sa[j].node.spec_utility() == sb[j].node.spec_utility(),
    ensures
        AdversarialSearchNode::max_scan(sa, i) == AdversarialSearchNode::max_scan(sb, i),
        AdversarialSearchNode::min_scan(sa, i) == AdversarialSearchNode::min_scan(sb, i),
        AdversarialSearchNode::chance_scan(sa, i) == AdversarialSearchNode::chance_scan(sb, i),
    decreases i,
{
    if i > 0 {
        lemma_scans_agree(sa, sb, i - 1);
    }
}

/// Law: the game tree that the construction predicate describes is uniquely
/// evaluated — any two trees that model the same policies, state, policy
/// index, depth and depth bound agree on their utility and action.
pub proof fn lemma_models_utility_unique<State: AdversarialSearchState>(
    a: AdversarialSearchNode<State>,
    b: AdversarialSearchNode<State>,
    policies: Seq<AdversarialSearchPolicy<State>>,
    state: State,
    policy_index: int,
    depth: int,
    max_depth: Option<usize>,
) where State::Utility: OrderedUtility + NumericUtility
    requires
        a.models(policies, state, policy_index, depth, max_depth),
        b.models(policies, state, policy_index, depth, max_depth),
    ensures
        a.spec_utility() == b.spec_utility(),
    decreases a,
{
    if state.spec_is_terminal() || (max_depth matches Some(d) && depth == d) {
    } else {
        let agent = policies[policy_index].agent;
        let next_index = (policy_index + 1) % (policies.len() as int);
        let acts = state.spec_actions(agent);
        match (a, b) {
            (AdversarialSearchNode::Maximizer(ma), AdversarialSearchNode::Maximizer(mb)) => {
                lemma_successor_utilities_agree(
                    ma.successors@,
                    mb.successors@,
                    policies,
                    state,
                    agent,
                    next_index,
                    depth + 1,
                    max_depth,
                );
                if ma.successors@.len() >= 1 {
                    lemma_scans_agree(ma.successors@, mb.successors@, ma.successors@.len() as int);
                }
            },
            (AdversarialSearchNode::Minimizer(ma), AdversarialSearchNode::Minimizer(mb)) => {
                lemma_successor_utilities_agree(
                    ma.successors@,
                    mb.successors@,
                    policies,
                    state,
                    agent,
                    next_index,
                    depth + 1,
                    max_depth,
                );
                if ma.successors@.len() >= 1 {
                    lemma_scans_agree(ma.successors@, mb.successors@, ma.successors@.len() as int);
                }
            },
            (AdversarialSearchNode::Chance(ca), AdversarialSearchNode::Chance(cb)) => {
                lemma_successor_utilities_agree(
                    ca.successors@,
                    cb.successors@,
                    policies,
                    state,
                    agent,
                    next_index,
                    depth + 1,
                    max_depth,
                );
                if ca.successors@.len() >= 1 {
                    lemma_scans_agree(ca.successors@, cb.successors@, ca.successors@.len() as int);
                }
            },
            _ => {},
        }
    }
}

/// Helper for `lemma_models_utility_unique`: two successor lists that model
/// the same state's actions carry the same actions and child utilities.
proof fn lemma_successor_utilities_agree<State: AdversarialSearchState>(
    sa: Seq<AdversarialSearchSuccessor<State>>,
    sb: Seq<AdversarialSearchSuccessor<State>>,
    policies: Seq<AdversarialSearchPolicy<State>>,
    state: State,
    agent: State::Agent,
    policy_index: int,
    depth: int,
    max_depth: Option<usize>,
) where State::Utility: OrderedUtility + NumericUtility
    requires
        AdversarialSearchNode::successors_model(
            sa,
            policies,
            state,
            agent,
            policy_index,
            depth,
            max_depth,
        ),
        AdversarialSearchNode::successors_model(
            sb,
            policies,
            state,
            agent,
            policy_index,
            depth,
            max_depth,
        ),
    ensures
        sa.len() == sb.len(),
        forall|j: int|
            0 <= j < sa.len() ==> (#[trigger] sa[j]).action == sb[j].action
                && sa[j].node.spec_utility() == sb[j].node.spec_utility(),
    decreases sa,
{
    assert forall|j: int|
        0 <= j < sa.len() implies (#[trigger] sa[j]).action == sb[j].action
            && sa[j].node.spec_utility() == sb[j].node.spec_utility() by {
        lemma_models_utility_unique(
            *sa[j].node,
            *sb[j].node,
            policies,
            state.spec_successor(agent, state.spec_actions(agent)[j]),
            policy_index,
            depth,
            max_depth,
        );
    }
}

} // verus!
