//! The search: the deadline, the iterative-deepening driver and the
//! command actor.

use vstd::prelude::*;
use std::time::{Duration, Instant};
use crate::rules::{
    legal_moves, legal_moves_of, play, position_after, Ply, Position, MOVE_LIST_CAPACITY,
};
use crate::search::negamax::{counted, pruned, NegaMax};
use crate::search::tree::{
    best_reply, first_best, lemma_best_reply_bounds, lemma_first_best_extends,
    lemma_first_best_unique, lemma_negamax_bounds, principal_move, root_value, subtree_nodes,
};
use crate::{Score, SearchCommand, SearchControl, SearchInfo, MAX_SCORE, MIN_SCORE};

pub mod laws;
pub mod negamax;
pub mod tree;

verus! {

/// A reading of the monotonic clock of std.
#[verifier::external_type_specification]
#[verifier::external_body]
pub struct ExInstant(Instant);

/// The length of a duration in nanoseconds: what `Duration::as_nanos` of
/// std gives.
pub uninterp spec fn nanos(duration: Duration) -> nat;

/// Calls `Instant::now` of std. Nothing is claimed of the instant.
#[verifier::external_body]
fn now() -> Instant {
    Instant::now()
}

/// Calls `Instant::elapsed` of std. Nothing is claimed of the time that
/// has passed.
#[verifier::external_body]
fn elapsed(start: &Instant) -> Duration {
    start.elapsed()
}

/// Compares two durations with `>=` of std: the longer one is the
/// greater.
#[verifier::external_body]
fn at_least(duration: &Duration, limit: &Duration) -> (reached: bool)
    ensures
        reached == (nanos(*duration) >= nanos(*limit)),
{
    *duration >= *limit
}

/// Calls `Duration::from_millis` of std: a duration of that many
/// milliseconds.
#[verifier::external_body]
fn from_millis(millis: u64) -> (duration: Duration)
    ensures
        nanos(duration) == millis * 1_000_000,
{
    Duration::from_millis(millis)
}

/// A deadline: the instant at which a search began and the time it may
/// take. It is never changed once made, only asked.
pub struct Timer {
    time_limit: Option<Duration>,
    start_time: Instant,
}

impl Timer {
    /// The time that the timer allows; `None` if it allows any.
    pub closed spec fn limit(&self) -> Option<Duration> {
        self.time_limit
    }

    /// Whether the timer has no limit, so that it never expires.
    pub open spec fn unbounded(&self) -> bool {
        self.limit() is None
    }

    /// Whether the time is up once `passed` has gone by since the start:
    /// never without a limit, and else as soon as the limit is reached.
    pub open spec fn exceeded_when(&self, passed: Duration) -> bool {
        match self.limit() {
            None => false,
            Some(limit) => nanos(passed) >= nanos(limit),
        }
    }

    /// A timer that starts now and expires once `time_limit` has passed.
    pub fn new(time_limit: Duration) -> (timer: Timer)
        ensures
            timer.limit() == Some(time_limit),
    {
        Timer { time_limit: Some(time_limit), start_time: now() }
    }

    /// A timer that starts now and never expires.
    pub fn unlimited() -> (timer: Timer)
        ensures
            timer.limit() is None,
    {
        Timer { time_limit: None, start_time: now() }
    }

    /// Whether the time is up once `passed` has gone by since the start:
    /// never without a limit, and else as soon as the limit is reached.
    pub fn exceeded_after(&self, passed: &Duration) -> (exceeded: bool)
        ensures
            exceeded == self.exceeded_when(*passed),
    {
        match &self.time_limit {
            None => false,
            Some(limit) => at_least(passed, limit),
        }
    }

    /// Whether the time is up now: the answer of
    /// [`exceeded_after`](Timer::exceeded_after) for the time that has
    /// passed since the start. How much time that is the clock decides.
    /// Whatever it says, a timer without a limit answers no, and one
    /// that allows no time at all answers yes.
    pub fn limit_exceeded(&self) -> (exceeded: bool)
        ensures
            exists|passed: Duration| exceeded == #[trigger] self.exceeded_when(passed),
            self.unbounded() ==> !exceeded,
            self.limit() matches Some(limit) && nanos(limit) == 0 ==> exceeded,
    {
        let passed = elapsed(&self.start_time);
        self.exceeded_after(&passed)
    }
}

/// The deepest a search under `control` may go.
pub open spec fn depth_limit(control: SearchControl) -> nat {
    match control {
        SearchControl::ToDepth(depth) => depth as nat,
        SearchControl::TimeLimit(_) => u8::MAX as nat,
    }
}

/// What one pass over the root moves at one depth gave.
struct Iteration {
    /// Index of the best move among the legal moves of the root.
    best: usize,
    /// What the best move is worth.
    score: Score,
    /// The nodes visited below the root.
    nodes: u64,
    /// Whether the pass ran to its end before the deadline.
    complete: bool,
}

/// The nodes that one pass over `moves` at the root visits when no
/// deadline cuts it short. Each move is answered by a pruned search of
/// the position it leads to, with a window that reaches from the bottom
/// up to the best of the moves before.
pub open spec fn root_nodes(position: Position, depth: nat, moves: Seq<Ply>) -> nat
    decreases moves.len(),
{
    if moves.len() == 0 {
        0
    } else {
        root_nodes(position, depth, moves.drop_last()) + pruned(
            position_after(position, moves.last()),
            (depth - 1) as nat,
            -(MAX_SCORE as int),
            -best_reply(position, depth, moves.drop_last()),
        ).1
    }
}

/// The node count of the report of `position` at `depth`: the nodes
/// visited below the root, as far as the counter can hold them.
pub open spec fn reported_nodes(position: Position, depth: nat) -> u64 {
    counted(0, root_nodes(position, depth, legal_moves_of(position)))
}

/// Whether `info` reports the completed search of `position` at `depth`:
/// the principal move as its variation, what that move is worth as its
/// score, and the nodes visited below the root. That count lies between
/// the number of legal moves and the size of the full tree below them.
pub open spec fn is_report(info: SearchInfo, position: Position, depth: nat) -> bool {
    match info {
        SearchInfo::Info { depth: reported, pv, score, nodes } => {
            &&& reported == depth
            &&& pv@ == seq![principal_move(position, depth)]
            &&& score == root_value(position, depth)
            &&& nodes == reported_nodes(position, depth)
            &&& legal_moves_of(position).len() <= nodes <= subtree_nodes(
                position,
                depth,
                legal_moves_of(position),
            )
        },
        SearchInfo::BestMove(_) => false,
    }
}

/// The move that a search of `position` settles on once it has completed
/// `completed` depths: the principal move of the last of them, or the
/// first legal move if there is none.
pub open spec fn settled_move(position: Position, completed: nat) -> Ply {
    if completed == 0 {
        legal_moves_of(position)[0]
    } else {
        principal_move(position, completed)
    }
}

/// What a search of `position` that completed `completed` depths adds to
/// what was told before. Without a legal move it adds nothing. Else it
/// adds one report for each completed depth, in order, and then the best
/// move: the principal move of the last completed depth, or the first
/// legal move if no depth was completed.
pub open spec fn told_by_search(
    position: Position,
    completed: nat,
    before: Seq<SearchInfo>,
    after: Seq<SearchInfo>,
) -> bool {
    let legal = legal_moves_of(position);
    if legal.len() == 0 {
        after == before && completed == 0
    } else {
        &&& after.len() == before.len() + completed + 1
        &&& after.take(before.len() as int) == before
        &&& forall|depth: int|
            1 <= depth <= completed ==> is_report(
                #[trigger] after[before.len() + depth - 1],
                position,
                depth as nat,
            )
        &&& after.last() matches SearchInfo::BestMove(mv) && mv == settled_move(
            position,
            completed,
        )
    }
}

/// How many depths a search under `control` is sure to complete when
/// there is a legal move: all of them when only the depth bounds it, and
/// the first one when the time does, however little time there is.
pub open spec fn depths_owed(control: SearchControl) -> nat {
    match control {
        SearchControl::ToDepth(depth) => depth as nat,
        SearchControl::TimeLimit(_) => 1,
    }
}

/// One pass over the legal moves of the root at one depth: each move is
/// played and answered by a search of the position it leads to, with a
/// fresh window and a fresh node count. A move has to be worth strictly
/// more than all before it to become the best, so among equals the first
/// one stays.
fn iterate(position: &Position, moves: &Vec<Ply>, depth: u8, timer: &Timer) -> (iteration:
    Iteration)
    requires
        depth > 0,
        moves@ == legal_moves_of(*position),
        0 < moves.len() <= MOVE_LIST_CAPACITY,
    ensures
        timer.unbounded() ==> iteration.complete,
        iteration.best < moves.len(),
        iteration.complete ==> {
            &&& first_best(*position, depth as nat, moves@, iteration.best as int)
            &&& moves[iteration.best as int] == principal_move(*position, depth as nat)
            &&& iteration.score == root_value(*position, depth as nat)
            &&& iteration.nodes == reported_nodes(*position, depth as nat)
            &&& moves.len() <= iteration.nodes <= subtree_nodes(*position, depth as nat, moves@)
        },
{
    let mut alpha = MIN_SCORE;
    let beta = MAX_SCORE;
    let mut best: usize = 0;
    let mut session = NegaMax::new();
    let mut aborted = false;
    let mut i: usize = 0;
    while i < moves.len() && !aborted
        invariant
            i <= moves.len(),
            depth > 0,
            beta == MAX_SCORE,
            moves@ == legal_moves_of(*position),
            0 < moves.len() <= MOVE_LIST_CAPACITY,
            best < moves.len(),
            MIN_SCORE <= alpha,
            timer.unbounded() ==> !session.interrupted && !aborted,
            !session.interrupted && !aborted ==> {
                &&& alpha == best_reply(*position, depth as nat, moves@.take(i as int))
                &&& i > 0 ==> first_best(
                    *position,
                    depth as nat,
                    moves@.take(i as int),
                    best as int,
                )
                &&& session.nodes_searched == counted(
                    0,
                    root_nodes(*position, depth as nat, moves@.take(i as int)),
                )
                &&& i <= session.nodes_searched <= subtree_nodes(
                    *position,
                    depth as nat,
                    moves@.take(i as int),
                )
            },
        decreases
            2 * (moves.len() - i) + (if aborted {
                0int
            } else {
                1int
            }),
    {
        let mv = moves[i];
        proof {
            assert(moves@.contains(mv));
            lemma_best_reply_bounds(*position, depth as nat, moves@.take(i as int));
        }
        let next = play(position, &mv);
        match session.search(&next, depth - 1, -beta, -alpha, timer) {
            Some(reply) => {
                // The score of the move, seen from the root.
                let score = -reply;
                proof {
                    let upto = moves@.take(i + 1);
                    assert(upto.drop_last() == moves@.take(i as int));
                    assert(upto.last() == mv);
                    lemma_negamax_bounds(next, (depth - 1) as nat);
                    if !session.interrupted {
                        lemma_first_best_extends(*position, depth as nat, upto, best as int);
                    }
                }
                if score > alpha {
                    alpha = score;
                    best = i;
                }
                i = i + 1;
            },
            None => {
                aborted = true;
            },
        }
    }
    let complete = !aborted && !session.interrupted && !timer.limit_exceeded();
    proof {
        if complete {
            assert(moves@.take(i as int) == moves@);
            lemma_first_best_unique(*position, depth as nat, best as int);
        }
    }
    Iteration { best, score: alpha, nodes: session.nodes_searched, complete }
}

/// A search in progress: the position, its legal moves, the bounds of
/// the search, the depths completed so far and the move settled on so
/// far. Each step runs one more depth and gives what is to be told of it.
pub struct Session<'a> {
    position: &'a Position,
    moves: Vec<Ply>,
    timer: Timer,
    max_depth: u8,
    completed: u8,
    selected: Ply,
    finished: bool,
}

impl<'a> Session<'a> {
    /// The position that is searched.
    pub closed spec fn position(&self) -> Position {
        *self.position
    }

    /// The deepest the search may go.
    pub closed spec fn limit(&self) -> nat {
        self.max_depth as nat
    }

    /// Whether only the depth bounds the search, and no deadline.
    pub closed spec fn untimed(&self) -> bool {
        self.timer.unbounded()
    }

    pub closed spec fn spec_completed(&self) -> u8 {
        self.completed
    }

    pub closed spec fn spec_finished(&self) -> bool {
        self.finished
    }

    /// What holds of a session at all times: it knows the legal moves of
    /// its position, of which there is one at least; it has not gone
    /// deeper than it may; and the move it has settled on is that of the
    /// last depth it completed.
    pub closed spec fn wf(&self) -> bool {
        &&& self.moves@ == legal_moves_of(*self.position)
        &&& 0 < self.moves.len() <= MOVE_LIST_CAPACITY
        &&& self.completed <= self.max_depth
        &&& self.selected == settled_move(*self.position, self.completed as nat)
    }

    /// The number of depths completed so far.
    #[verifier::when_used_as_spec(spec_completed)]
    pub fn completed(&self) -> (completed: u8)
        ensures
            completed == self.spec_completed(),
    {
        self.completed
    }

    /// Whether the best move has been told, so that no step is left.
    #[verifier::when_used_as_spec(spec_finished)]
    pub fn finished(&self) -> (finished: bool)
        ensures
            finished == self.spec_finished(),
    {
        self.finished
    }

    /// Begins a search of `position` under `control`. Without a legal
    /// move there is nothing to search and no session.
    pub fn begin(position: &'a Position, control: SearchControl) -> (session: Option<Session<'a>>)
        ensures
            session is None <==> legal_moves_of(*position).len() == 0,
            session matches Some(begun) ==> {
                &&& begun.wf()
                &&& begun.position() == *position
                &&& begun.limit() == depth_limit(control)
                &&& begun.untimed() == (control is ToDepth)
                &&& begun.completed() == 0
                &&& !begun.finished()
            },
    {
        // What the search is bounded by.
        let (max_depth, timer) = match control {
            SearchControl::ToDepth(depth) => (depth, Timer::unlimited()),
            SearchControl::TimeLimit(millis) => (u8::MAX, Timer::new(from_millis(millis))),
        };
        let moves = legal_moves(position);
        // Nothing to search.
        if moves.len() == 0 {
            return None;
        }
        let selected = moves[0];
        Some(Session { position, moves, timer, max_depth, completed: 0, selected, finished: false })
    }

    /// Runs the next depth and gives what is to be told: the report of
    /// that depth if it was completed, and else the best move, which
    /// ends the search. The best move is that of the last completed
    /// depth; a depth that the deadline cuts short is dropped.
    ///
    /// The first depth is run to its end whatever the deadline says, so
    /// that there is always a report before the best move. Every further
    /// depth is begun only if the deadline has not expired, and without
    /// a deadline every depth up to the limit is completed.
    pub fn step(&mut self) -> (told: SearchInfo)
        requires
            old(self).wf(),
            !old(self).finished(),
        ensures
            final(self).wf(),
            final(self).position() == old(self).position(),
            final(self).limit() == old(self).limit(),
            final(self).untimed() == old(self).untimed(),
            match told {
                SearchInfo::Info { .. } => {
                    &&& is_report(told, old(self).position(), (old(self).completed() + 1) as nat)
                    &&& old(self).completed() < old(self).limit()
                    &&& final(self).completed() == old(self).completed() + 1
                    &&& !final(self).finished()
                },
                SearchInfo::BestMove(mv) => {
                    &&& mv == settled_move(old(self).position(), old(self).completed() as nat)
                    &&& final(self).completed() == old(self).completed()
                    &&& final(self).finished()
                },
            },
            old(self).completed() >= old(self).limit() ==> told is BestMove,
            old(self).completed() < old(self).limit() && (old(self).untimed() || old(
                self,
            ).completed() == 0) ==> told is Info,
    {
        if self.completed < self.max_depth {
            let first = self.completed == 0;
            if first || !self.timer.limit_exceeded() {
                let running_depth = self.completed + 1;
                let iteration = if first {
                    // The first depth does not look at the deadline.
                    let no_deadline = Timer::unlimited();
                    iterate(self.position, &self.moves, running_depth, &no_deadline)
                } else {
                    iterate(self.position, &self.moves, running_depth, &self.timer)
                };
                if iteration.complete {
                    let best_move = self.moves[iteration.best];
                    let pv = vec![best_move];
                    assert(pv@ =~= seq![principal_move(*self.position, running_depth as nat)]);
                    self.selected = best_move;
                    self.completed = running_depth;
                    return SearchInfo::Info {
                        depth: running_depth,
                        pv,
                        score: iteration.score,
                        nodes: iteration.nodes,
                    };
                }
            }
        }
        // The limit is reached or the deadline has expired.
        self.finished = true;
        SearchInfo::BestMove(self.selected)
    }
}

/// The states of the command actor.
#[derive(Clone, Copy, PartialEq, Eq, Structural, Debug)]
pub enum ActorState {
    /// Waiting for a command.
    Idle,
    /// Running a search.
    Searching,
    /// Ended: no command is taken any more.
    Terminated,
}

/// The command actor: it takes one command at a time, runs the search
/// that a command asks for, and lays what it has to tell into its outbox,
/// in the order in which it is to be sent.
pub struct Searcher {
    pub state: ActorState,
    pub outbox: Vec<SearchInfo>,
}

impl Searcher {
    pub fn new() -> (actor: Self)
        ensures
            actor.state == ActorState::Idle,
            actor.outbox@.len() == 0,
    {
        Searcher { state: ActorState::Idle, outbox: Vec::new() }
    }

    /// Takes one command, or `None` when no command can come any more,
    /// and says what there is to search. `Start` turns the actor to
    /// searching and hands out the position and the bounds of the
    /// search; `Stop` changes nothing, since no search runs between two
    /// commands; `Quit` and `None` end the actor. An actor that has
    /// ended ignores what it is given.
    pub fn accept(&mut self, command: Option<SearchCommand>) -> (job: Option<
        (Position, SearchControl),
    >)
        ensures
            final(self).outbox == old(self).outbox,
            old(self).state == ActorState::Terminated ==> final(self).state
                == ActorState::Terminated && job is None,
            old(self).state != ActorState::Terminated ==> match command {
                Some(SearchCommand::Start { position, control }) => {
                    &&& final(self).state == ActorState::Searching
                    &&& job == Some((position, control))
                },
                Some(SearchCommand::Stop) => {
                    &&& final(self).state == ActorState::Idle
                    &&& job is None
                },
                Some(SearchCommand::Quit) | None => {
                    &&& final(self).state == ActorState::Terminated
                    &&& job is None
                },
            },
    {
        if self.state == ActorState::Terminated {
            return None;
        }
        match command {
            Some(SearchCommand::Start { position, control }) => {
                self.state = ActorState::Searching;
                Some((position, control))
            },
            Some(SearchCommand::Stop) => {
                self.state = ActorState::Idle;
                None
            },
            Some(SearchCommand::Quit) | None => {
                self.state = ActorState::Terminated;
                None
            },
        }
    }

    /// Turns the actor from searching back to waiting, once the search
    /// that it handed out has ended.
    pub fn finish(&mut self)
        ensures
            final(self).outbox == old(self).outbox,
            final(self).state == if old(self).state == ActorState::Searching {
                ActorState::Idle
            } else {
                old(self).state
            },
    {
        if self.state == ActorState::Searching {
            self.state = ActorState::Idle;
        }
    }

    /// Takes one command, or `None` when no command can come any more,
    /// and runs the search that it asks for to its end. Returns whether
    /// the actor goes on. `Start` runs a search and lays its telling
    /// into the outbox; `Stop` changes nothing; `Quit` and `None` end
    /// the actor. An actor that has ended ignores what it is given.
    pub fn handle(&mut self, command: Option<SearchCommand>) -> (running: bool)
        ensures
            running == (final(self).state != ActorState::Terminated),
            old(self).state == ActorState::Terminated ==> *final(self) == *old(self),
            old(self).state != ActorState::Terminated ==> match command {
                Some(SearchCommand::Start { position, control }) => {
                    &&& final(self).state == ActorState::Idle
                    &&& exists|completed: nat|
                        {
                            &&& completed <= depth_limit(control)
                            &&& legal_moves_of(position).len() > 0 ==> completed >= depths_owed(
                                control,
                            )
                            &&& #[trigger] told_by_search(
                                position,
                                completed,
                                old(self).outbox@,
                                final(self).outbox@,
                            )
                        }
                },
                Some(SearchCommand::Stop) => {
                    &&& final(self).state == ActorState::Idle
                    &&& final(self).outbox == old(self).outbox
                },
                Some(SearchCommand::Quit) | None => {
                    &&& final(self).state == ActorState::Terminated
                    &&& final(self).outbox == old(self).outbox
                },
            },
    {
        match self.accept(command) {
            Some((position, control)) => {
                let completed = self.search(&position, control);
                self.finish();
                assert(told_by_search(
                    position,
                    completed as nat,
                    old(self).outbox@,
                    self.outbox@,
                ));
            },
            None => {},
        }
        self.state != ActorState::Terminated
    }

    /// Hands out what is waiting to be sent and leaves the outbox empty.
    pub fn take_outbox(&mut self) -> (waiting: Vec<SearchInfo>)
        ensures
            waiting == old(self).outbox,
            final(self).outbox@.len() == 0,
            final(self).state == old(self).state,
    {
        let mut waiting = Vec::new();
        std::mem::swap(&mut waiting, &mut self.outbox);
        waiting
    }

    /// Searches `position` depth by depth, from one ply up to what
    /// `control` allows, and returns the number of depths completed. The
    /// outbox receives a report for each completed depth and then the
    /// best move. A depth that the deadline cuts short is dropped, and
    /// the search ends with the best move of the depth before. Under a
    /// depth bound every depth is completed; under a time limit the
    /// first one is, however little time there is.
    pub fn search(&mut self, position: &Position, control: SearchControl) -> (completed: u8)
        ensures
            final(self).state == old(self).state,
            completed <= depth_limit(control),
            legal_moves_of(*position).len() > 0 ==> completed >= depths_owed(control),
            control is ToDepth && legal_moves_of(*position).len() > 0 ==> completed == depth_limit(
                control,
            ),
            told_by_search(*position, completed as nat, old(self).outbox@, final(self).outbox@),
    {
        let mut session = match Session::begin(position, control) {
            Some(session) => session,
            None => {
                return 0;
            },
        };
        let ghost before = self.outbox@;
        while !session.finished()
            invariant
                session.wf(),
                session.position() == *position,
                session.limit() == depth_limit(control),
                session.untimed() == (control is ToDepth),
                legal_moves_of(*position).len() > 0,
                self.state == old(self).state,
                before == old(self).outbox@,
                session.completed() <= depth_limit(control),
                !session.finished() ==> self.outbox@.len() == before.len() + session.completed(),
                session.finished() ==> {
                    &&& self.outbox@.len() == before.len() + session.completed() + 1
                    &&& self.outbox@.last() matches SearchInfo::BestMove(mv) && mv
                        == settled_move(*position, session.completed() as nat)
                    &&& session.completed() >= depths_owed(control)
                },
                self.outbox@.take(before.len() as int) == before,
                forall|depth: int|
                    1 <= depth <= session.completed() ==> is_report(
                        #[trigger] self.outbox@[before.len() + depth - 1],
                        *position,
                        depth as nat,
                    ),
            decreases
                2 * (depth_limit(control) - session.completed()) + (if session.finished() {
                    0int
                } else {
                    1int
                }),
        {
            let ghost earlier = self.outbox@;
            let ghost reached = session.completed();
            let told = session.step();
            match told {
                SearchInfo::Info { depth, pv, score, nodes } => {
                    self.send_info(depth, pv, score, nodes);
                },
                SearchInfo::BestMove(mv) => {
                    self.outbox.push(SearchInfo::BestMove(mv));
                },
            }
            proof {
                assert(self.outbox@ == earlier.push(told));
                assert(self.outbox@.take(before.len() as int) == earlier.take(
                    before.len() as int,
                ));
                assert forall|depth: int| 1 <= depth <= session.completed() implies is_report(
                    #[trigger] self.outbox@[before.len() + depth - 1],
                    *position,
                    depth as nat,
                ) by {
                    if depth <= reached {
                        assert(self.outbox@[before.len() + depth - 1] == earlier[before.len()
                            + depth - 1]);
                    }
                }
            }
        }
        session.completed()
    }

    /// Lays the report of one completed depth into the outbox.
    fn send_info(&mut self, depth: u8, pv: Vec<Ply>, score: i32, nodes: u64)
        ensures
            final(self).state == old(self).state,
            final(self).outbox@ == old(self).outbox@.push(
                SearchInfo::Info { depth, pv, score, nodes },
            ),
    {
        self.outbox.push(SearchInfo::Info { depth, pv, score, nodes });
    }
}

} // verus!
