use pensiv::adversarial::AdversarialSearchAgent;
use pensiv::adversarial::AdversarialSearchPolicy;
use pensiv::adversarial::AdversarialSearchState;
use pensiv::adversarial::AdversarialSearchSuccessor;
use pensiv::adversarial::ChanceNode;
use pensiv::adversarial::MaximizerNode;
use pensiv::adversarial::MinimizerNode;
use pensiv::adversarial::NodeKind;
use pensiv::adversarial::NumericUtility;
use pensiv::adversarial::OrderedUtility;
use pensiv::adversarial::TerminalNode;

/// Utility wrapper over `f64` for the test games.
#[derive(Clone, Copy, Debug, PartialEq)]
struct Utility(f64);

impl OrderedUtility for Utility {
    fn lt(&self, other: &Self) -> bool {
        self.0 < other.0
    }
}

impl NumericUtility for Utility {
    fn zero() -> Self {
        Utility(0.0)
    }

    fn one() -> Self {
        Utility(1.0)
    }

    fn add(self, other: Self) -> Self {
        Utility(self.0 + other.0)
    }

    fn div(self, other: Self) -> Self {
        Utility(self.0 / other.0)
    }
}

/// A pacman-like walker on an endless line: it may step left or right, each
/// step costs one point, and the game never ends on its own. Utility is the
/// negated number of steps taken, so a state reached after two steps
/// evaluates to `-2.0`.
#[derive(Clone, Copy, Debug, PartialEq)]
struct LinearPacManState {
    pos: i32,
    steps: i32,
}

impl LinearPacManState {
    fn new() -> LinearPacManState {
        LinearPacManState { pos: 0, steps: 0 }
    }
}

impl AdversarialSearchState for LinearPacManState {
    type Action = i32;
    type Agent = char;
    type Utility = Utility;

    fn actions(&self, _agent: char) -> Vec<i32> {
        vec![-1, 1]
    }

    fn successor(&self, _agent: char, action: i32) -> LinearPacManState {
        LinearPacManState { pos: self.pos + action, steps: self.steps + 1 }
    }

    fn eval(&self) -> Utility {
        Utility(-(self.steps as f64))
    }

    fn is_terminal(&self) -> bool {
        false
    }
}

/// A chase on the board `[2, 0, 0, 9]`: the player starts on the left end and
/// may end the game (action `0`) or step right (action `1`); the adversary
/// starts on the right end and always steps left (action `-1`). The game ends
/// when the player ends it or the two collide, and the utility is the value
/// of the cell the player stands on. Walking toward the `9` forces a
/// collision on a `0` cell, so the best play is to end the game on the `2`.
#[derive(Clone, Copy, Debug, PartialEq)]
struct ChaseState {
    player_pos: usize,
    adversary_pos: usize,
    done: bool,
}

impl ChaseState {
    fn new() -> ChaseState {
        ChaseState { player_pos: 0, adversary_pos: 3, done: false }
    }

    fn board(&self) -> Vec<i32> {
        vec![2, 0, 0, 9]
    }
}

impl AdversarialSearchState for ChaseState {
    type Action = i32;
    type Agent = char;
    type Utility = Utility;

    fn actions(&self, agent: char) -> Vec<i32> {
        if agent == 'P' {
            vec![0, 1]
        } else {
            vec![-1]
        }
    }

    fn successor(&self, agent: char, action: i32) -> ChaseState {
        let mut next = *self;
        if agent == 'P' {
            if action == 0 {
                next.done = true;
            } else {
                next.player_pos += 1;
            }
        } else {
            next.adversary_pos -= 1;
        }
        next
    }

    fn eval(&self) -> Utility {
        Utility(self.board()[self.player_pos] as f64)
    }

    fn is_terminal(&self) -> bool {
        self.done || self.player_pos == self.adversary_pos
    }
}

/// A solo walk over the board `[0, 3, 0, 5]`: the single agent starts on the
/// leftmost cell and may end the game (action `0`) or jump right to the next
/// non-zero cell (the action is the distance), collecting that cell's value.
/// Utility is the collected score.
#[derive(Clone, Copy, Debug, PartialEq)]
struct SoloBoardState {
    pos: usize,
    score: i32,
    done: bool,
}

impl SoloBoardState {
    fn new() -> SoloBoardState {
        SoloBoardState { pos: 0, score: 0, done: false }
    }

    fn board(&self) -> Vec<i32> {
        vec![0, 3, 0, 5]
    }
}

impl AdversarialSearchState for SoloBoardState {
    type Action = i32;
    type Agent = char;
    type Utility = Utility;

    fn actions(&self, _agent: char) -> Vec<i32> {
        let mut actions = vec![0];
        let board = self.board();
        let mut j = self.pos + 1;
        while j < board.len() {
            if board[j] != 0 {
                actions.push((j - self.pos) as i32);
                break;
            }
            j += 1;
        }
        actions
    }

    fn successor(&self, _agent: char, action: i32) -> SoloBoardState {
        let mut next = *self;
        if action == 0 {
            next.done = true;
        } else {
            next.pos += action as usize;
            next.score += self.board()[next.pos];
        }
        next
    }

    fn eval(&self) -> Utility {
        Utility(self.score as f64)
    }

    fn is_terminal(&self) -> bool {
        self.done
    }
}

/// A two-round game of doors: the player picks door `1` or `2`, then the
/// adversary picks one of two outcomes, and the game ends. Door `1` pays 0
/// or 10 depending on the adversary; door `2` always pays 4. A maximizing
/// player facing a minimizing adversary prefers the sure 4; facing a random
/// adversary it prefers the 5-on-average door.
#[derive(Clone, Copy, Debug, PartialEq)]
struct TwoDoorState {
    door: i32,
    outcome: i32,
}

impl TwoDoorState {
    fn new() -> TwoDoorState {
        TwoDoorState { door: 0, outcome: 0 }
    }
}

impl AdversarialSearchState for TwoDoorState {
    type Action = i32;
    type Agent = char;
    type Utility = Utility;

    fn actions(&self, _agent: char) -> Vec<i32> {
        vec![1, 2]
    }

    fn successor(&self, agent: char, action: i32) -> TwoDoorState {
        let mut next = *self;
        if agent == 'P' {
            next.door = action;
        } else {
            next.outcome = action;
        }
        next
    }

    fn eval(&self) -> Utility {
        if self.door == 1 {
            if self.outcome == 2 {
                Utility(10.0)
            } else {
                Utility(0.0)
            }
        } else if self.door == 2 {
            Utility(4.0)
        } else {
            Utility(0.0)
        }
    }

    fn is_terminal(&self) -> bool {
        self.door != 0 && self.outcome != 0
    }
}

#[test]
fn minimax_agent_created_correctly_no_max_depth() {
    let agent = AdversarialSearchAgent::<LinearPacManState>::minimax(vec!['P', 'G'], None);

    assert_eq!(agent.n_policies(), 2);
    assert_eq!(agent.max_depth(), None);

    let expected_policies: Vec<NodeKind> = vec![NodeKind::Maximizer, NodeKind::Minimizer];

    for (i, policy) in agent.policies().iter().enumerate() {
        let expected_policy = &expected_policies[i];
        assert!(policy.node() == *expected_policy);
    }
}

#[test]
fn minimax_agent_created_correctly_with_max_depth() {
    let agent = AdversarialSearchAgent::<LinearPacManState>::minimax(vec!['P', 'G'], Some(5));

    assert_eq!(agent.n_policies(), 2);
    assert_eq!(agent.max_depth(), Some(5));

    let expected_policies: Vec<NodeKind> = vec![NodeKind::Maximizer, NodeKind::Minimizer];

    for (i, policy) in agent.policies().iter().enumerate() {
        let expected_policy = &expected_policies[i];
        assert!(policy.node() == *expected_policy);
    }
}

#[test]
fn minimax_agent_adv_search_returns_correct_result_no_max_depth() {
    let agent = AdversarialSearchAgent::<ChaseState>::minimax(vec!['P', 'A'], None);
    let action = agent.optimal_action(ChaseState::new());

    // Ending the game on the 2 beats walking into a collision on a 0 cell.
    assert_eq!(action, Some(0));
}

#[test]
fn minimax_agent_adv_search_returns_correct_result_with_max_depth() {
    let agent = AdversarialSearchAgent::<LinearPacManState>::minimax(vec!['P', 'G'], Some(2));
    let action = agent.optimal_action(LinearPacManState::new());

    // Every leaf two plies down evaluates to -2.0, so the tie keeps the
    // first action.
    assert_eq!(action, Some(-1));
}

#[test]
fn expectimax_agent_created_correctly_no_max_depth() {
    let agent = AdversarialSearchAgent::<LinearPacManState>::expectimax(vec!['P', 'G'], None);

    assert_eq!(agent.n_policies(), 2);
    assert_eq!(agent.max_depth(), None);

    let expected_policies: Vec<NodeKind> = vec![NodeKind::Maximizer, NodeKind::Chance];

    for (i, policy) in agent.policies().iter().enumerate() {
        let expected_policy = &expected_policies[i];
        assert!(policy.node() == *expected_policy);
    }
}

#[test]
fn expectimax_agent_created_correctly_with_max_depth() {
    let agent = AdversarialSearchAgent::<LinearPacManState>::expectimax(vec!['P', 'G'], Some(5));

    assert_eq!(agent.n_policies(), 2);
    assert_eq!(agent.max_depth(), Some(5));

    let expected_policies: Vec<NodeKind> = vec![NodeKind::Maximizer, NodeKind::Chance];

    for (i, policy) in agent.policies().iter().enumerate() {
        let expected_policy = &expected_policies[i];
        assert!(policy.node() == *expected_policy);
    }
}

#[test]
fn expectimax_agent_adv_search_returns_correct_result_no_max_depth() {
    let agent = AdversarialSearchAgent::<ChaseState>::expectimax(vec!['P', 'A'], None);
    let action = agent.optimal_action(ChaseState::new());

    // The adversary has a single move, so the chance layers pass each value
    // through and ending on the 2 still wins.
    assert_eq!(action, Some(0));
}

#[test]
fn expectimax_agent_adv_search_returns_correct_result_with_max_depth() {
    let agent = AdversarialSearchAgent::<ChaseState>::expectimax(vec!['P', 'A'], Some(2));
    let action = agent.optimal_action(ChaseState::new());

    assert_eq!(action, Some(0));
}

#[test]
fn custom_policy_agent_adv_search_returns_correct_result_no_max_depth() {
    let policies = vec![
        AdversarialSearchPolicy::<ChaseState>::new('P', NodeKind::Maximizer),
        AdversarialSearchPolicy::<ChaseState>::new('A', NodeKind::Chance),
    ];
    let agent = AdversarialSearchAgent::new(policies, None);
    let action = agent.optimal_action(ChaseState::new());

    assert_eq!(action, Some(0));
}

#[test]
fn custom_policy_agent_adv_search_returns_correct_result_with_max_depth() {
    let policies = vec![
        AdversarialSearchPolicy::<ChaseState>::new('P', NodeKind::Maximizer),
        AdversarialSearchPolicy::<ChaseState>::new('A', NodeKind::Minimizer),
    ];
    let agent = AdversarialSearchAgent::new(policies, Some(2));
    let action = agent.optimal_action(ChaseState::new());

    assert_eq!(action, Some(0));
}

#[test]
fn terminal_node_created_correctly() {
    let state = LinearPacManState::new();
    let node = TerminalNode::new(state.clone());

    assert_eq!(*(node.state()), state);

    match node.successors() {
        Some(_) => panic!("terminal node has successors"),
        None => {},
    }
}

#[test]
fn terminal_node_utility_calculated_correctly() {
    let state = LinearPacManState::new();
    let node = TerminalNode::new(state.clone());

    let (utility, action) = node.utility();

    assert_eq!(utility, state.eval());
    assert_eq!(action, None);
}

#[test]
fn min_node_created_correctly() {
    let state = LinearPacManState::new();
    let agent = 'P';
    let successors: Vec<AdversarialSearchSuccessor<LinearPacManState>> = state
        .actions(agent)
        .iter()
        .map(|a| AdversarialSearchSuccessor::new(*a, TerminalNode::new(state.successor(agent, *a))))
        .collect();
    let n_successors = successors.len();

    let node = MinimizerNode::new(state.clone(), successors);

    assert_eq!(*(node.state()), state);
    assert_eq!(node.successors().unwrap().len(), n_successors);
}

#[test]
fn min_node_utility_correct_one_successor() {
    let state = LinearPacManState::new();

    let agent = 'P';
    let action = 1;
    let successor_state = state.successor(agent, action);

    let successors = vec![
        AdversarialSearchSuccessor::new(action, TerminalNode::new(successor_state.clone())),
    ];

    let node = MinimizerNode::new(state.clone(), successors);
    let (utility, optimal_action) = node.utility();

    assert_eq!(utility, successor_state.eval());
    assert_eq!(optimal_action.unwrap(), action);
}

#[test]
fn min_node_utility_correct_many_successors_no_tie() {
    let state = LinearPacManState::new();

    let agent = 'P';
    let successors = vec![
        AdversarialSearchSuccessor::new(-1, TerminalNode::new(state.successor(agent, -1))),
        AdversarialSearchSuccessor::new(
            1,
            TerminalNode::new(state.successor(agent, 1).successor(agent, 1)),
        ),
    ];

    let min_utility = Utility(-2.0);
    let action = 1;

    let node = MinimizerNode::new(state.clone(), successors);
    let (utility, optimal_action) = node.utility();

    assert_eq!(utility, min_utility);
    assert_eq!(optimal_action.unwrap(), action);
}

#[test]
fn min_node_utility_correct_many_successors_tie() {
    let state = LinearPacManState::new();
    let agent = 'P';
    let successors: Vec<AdversarialSearchSuccessor<LinearPacManState>> = state
        .actions(agent)
        .iter()
        .map(|a| AdversarialSearchSuccessor::new(*a, TerminalNode::new(state.successor(agent, *a))))
        .collect();

    let min_successor = &successors[0];
    let (min_utility, _) = min_successor.node().utility();
    let optimal_action = min_successor.action();

    let node = MinimizerNode::new(state.clone(), successors);
    let (utility, action) = node.utility();

    assert_eq!(utility, min_utility);
    assert_eq!(action.unwrap(), optimal_action);
}

#[test]
fn max_node_created_correctly() {
    let state = LinearPacManState::new();
    let agent = 'P';
    let successors: Vec<AdversarialSearchSuccessor<LinearPacManState>> = state
        .actions(agent)
        .iter()
        .map(|a| AdversarialSearchSuccessor::new(*a, TerminalNode::new(state.successor(agent, *a))))
        .collect();
    let n_successors = successors.len();

    let node = MaximizerNode::new(state.clone(), successors);

    assert_eq!(*(node.state()), state);
    assert_eq!(node.successors().unwrap().len(), n_successors);
}

#[test]
fn max_node_utility_correct_one_successor() {
    let state = LinearPacManState::new();

    let agent = 'P';
    let action = 1;
    let successor_state = state.successor(agent, action);

    let successors = vec![
        AdversarialSearchSuccessor::new(action, TerminalNode::new(successor_state.clone())),
    ];

    let node = MaximizerNode::new(state.clone(), successors);
    let (utility, optimal_action) = node.utility();

    assert_eq!(utility, successor_state.eval());
    assert_eq!(optimal_action.unwrap(), action);
}

#[test]
fn max_node_utility_correct_many_successors_no_tie() {
    let state = LinearPacManState::new();

    let agent = 'P';
    let successors = vec![
        AdversarialSearchSuccessor::new(-1, TerminalNode::new(state.successor(agent, -1))),
        AdversarialSearchSuccessor::new(
            1,
            TerminalNode::new(state.successor(agent, 1).successor(agent, 1)),
        ),
    ];

    let max_utility = Utility(-1.0);
    let optimal_action = -1;

    let node = MaximizerNode::new(state.clone(), successors);
    let (utility, action) = node.utility();

    assert_eq!(utility, max_utility);
    assert_eq!(action.unwrap(), optimal_action);
}

#[test]
fn max_node_utility_correct_many_successors_tie() {
    let state = LinearPacManState::new();
    let agent = 'P';
    let successors: Vec<AdversarialSearchSuccessor<LinearPacManState>> = state
        .actions(agent)
        .iter()
        .map(|action| {
            AdversarialSearchSuccessor::new(
                *action,
                TerminalNode::new(state.successor(agent, *action)),
            )
        })
        .collect();

    let max_successor = &successors[0];
    let (max_utility, _) = max_successor.node().utility();
    let optimal_action = max_successor.action();

    let node = MaximizerNode::new(state.clone(), successors);
    let (utility, action) = node.utility();

    assert_eq!(utility, max_utility);
    assert_eq!(action.unwrap(), optimal_action);
}

#[test]
fn chance_node_created_correctly() {
    let state = LinearPacManState::new();
    let agent = 'P';
    let successors: Vec<AdversarialSearchSuccessor<LinearPacManState>> = state
        .actions(agent)
        .iter()
        .map(|a| AdversarialSearchSuccessor::new(*a, TerminalNode::new(state.successor(agent, *a))))
        .collect();
    let n_successors = successors.len();

    let node = ChanceNode::new(state.clone(), successors);

    assert_eq!(*(node.state()), state);
    assert_eq!(node.successors().unwrap().len(), n_successors);
}

#[test]
fn chance_node_utility_correct_one_successor() {
    let state = LinearPacManState::new();

    let agent = 'P';
    let action = 1;
    let successor_state = state.successor(agent, action);

    let successors = vec![
        AdversarialSearchSuccessor::new(action, TerminalNode::new(successor_state.clone())),
    ];

    let node = ChanceNode::new(state.clone(), successors);
    let (utility, optimal_action) = node.utility();

    assert_eq!(utility, successor_state.eval());
    assert_eq!(optimal_action, None);
}

#[test]
fn chance_node_utility_correct_many_successors() {
    let state = LinearPacManState::new();

    let agent = 'P';
    let successors = vec![
        AdversarialSearchSuccessor::new(-1, TerminalNode::new(state.successor(agent, -1))),
        AdversarialSearchSuccessor::new(
            1,
            TerminalNode::new(state.successor(agent, 1).successor(agent, 1)),
        ),
    ];

    let exp_utility = Utility(-1.5);

    let node = ChanceNode::new(state.clone(), successors);
    let (utility, action) = node.utility();

    assert_eq!(utility, exp_utility);
    assert_eq!(action, None);
}

#[test]
fn optimal_action_on_terminal_state_returns_none() {
    let agent = AdversarialSearchAgent::<ChaseState>::minimax(vec!['P', 'A'], None);
    let collided = ChaseState { player_pos: 2, adversary_pos: 2, done: false };

    assert_eq!(agent.optimal_action(collided), None);
}

#[test]
fn single_agent_walks_toward_global_max() {
    let agent = AdversarialSearchAgent::<SoloBoardState>::minimax(vec!['P'], None);
    let action = agent.optimal_action(SoloBoardState::new());

    // Stepping toward the 5 eventually collects 3 + 5; ending at once
    // collects nothing.
    assert_eq!(action, Some(1));
}

#[test]
fn depth_zero_search_returns_none() {
    let agent = AdversarialSearchAgent::<LinearPacManState>::minimax(vec!['P', 'G'], Some(0));

    assert_eq!(agent.optimal_action(LinearPacManState::new()), None);
}

#[test]
fn policy_reports_agent_and_kind() {
    let policy = AdversarialSearchPolicy::<ChaseState>::new('A', NodeKind::Chance);

    assert_eq!(policy.agent(), 'A');
    assert!(policy.node() == NodeKind::Chance);
}

#[test]
fn generic_agent_keeps_policy_order() {
    let policies = vec![
        AdversarialSearchPolicy::<ChaseState>::new('P', NodeKind::Maximizer),
        AdversarialSearchPolicy::<ChaseState>::new('A', NodeKind::Minimizer),
        AdversarialSearchPolicy::<ChaseState>::new('B', NodeKind::Chance),
    ];
    let agent = AdversarialSearchAgent::new(policies, Some(7));

    assert_eq!(agent.n_policies(), 3);
    assert_eq!(agent.max_depth(), Some(7));
    assert_eq!(agent.policies()[0].agent(), 'P');
    assert_eq!(agent.policies()[1].agent(), 'A');
    assert_eq!(agent.policies()[2].agent(), 'B');
    assert!(agent.policies()[1].node() == NodeKind::Minimizer);
    assert!(agent.policies()[2].node() == NodeKind::Chance);
}

#[test]
fn successor_reports_action_and_node() {
    let state = LinearPacManState::new();
    let child_state = state.successor('P', 1);
    let successor = AdversarialSearchSuccessor::new(1, TerminalNode::new(child_state.clone()));

    assert_eq!(successor.action(), 1);
    assert_eq!(*(successor.node().state()), child_state);
}

#[test]
fn minimax_prefers_the_sure_door() {
    let agent = AdversarialSearchAgent::<TwoDoorState>::minimax(vec!['P', 'A'], None);

    // The minimizing adversary turns door 1 into a 0, so the sure 4 wins.
    assert_eq!(agent.optimal_action(TwoDoorState::new()), Some(2));
}

#[test]
fn expectimax_prefers_the_higher_average_door() {
    let agent = AdversarialSearchAgent::<TwoDoorState>::expectimax(vec!['P', 'A'], None);

    // A random adversary makes door 1 worth (0 + 10) / 2 = 5, which beats 4.
    assert_eq!(agent.optimal_action(TwoDoorState::new()), Some(1));
}
