use crate::compare::IframeCompareMsg;
use crate::item::Item;
use crate::queue::{is_shuffle_of, select_pair, select_spec, ComparisonQueue, Pair};
use vstd::prelude::*;

verus! {

/// What a comparison session is started with: the list to rank.
#[derive(Debug, Clone, PartialEq, Eq)]
pub struct MatchProps {
    pub id: String,
}

/// Where a comparison session stands.
#[derive(Debug, Clone, Copy, PartialEq, Eq, Structural)]
pub enum Phase {
    /// Started; nothing asked of the store yet.
    Initializing,
    /// A fetch of the collection is outstanding.
    Loading,
    /// A pair is shown and a choice is awaited.
    Ready,
    /// The outcome of a choice is being recorded.
    Recording,
    /// The last fetch failed; a new request for a pair retries it.
    FetchFailed,
    /// Recording the outcome failed; the pair stays shown for another choice.
    UpdateFailed,
    /// The list holds fewer than two items; the session cannot go on.
    Insufficient,
    /// The session was torn down; every late answer is dropped.
    Ended,
}

/// A failure that the session reports for display.
#[derive(Debug, Clone, Copy, PartialEq, Eq, Structural)]
pub enum SessionError {
    InsufficientItems,
    StoreFetchFailure,
    StoreUpdateFailure,
}

/// An event handed to the session: from the user, or the answer of the store.
#[derive(Debug)]
pub enum Msg {
    PairRequested,
    OutcomeChosen(IframeCompareMsg),
    FetchCompleted(Vec<Item>),
    UpdateCompleted,
    FetchFailed,
    UpdateFailed,
}

/// What the caller is to do after an event.
#[derive(Debug, Clone, PartialEq, Eq)]
pub enum Action {
    /// Nothing: the event was not expected here and is ignored.
    Idle,
    /// Fetch the items of the list.
    Fetch { list: String },
    /// Record at the store that `winner` beat `loser`.
    Record { list: String, winner: String, loser: String },
    /// Show the current pair and its collection.
    Show,
    /// Report the failure.
    Report(SessionError),
}

/// The items of a pair in the order the store takes an outcome: the chosen
/// item first, the other one second.
pub open spec fn winner_loser(pair: Pair, side: IframeCompareMsg) -> (Item, Item) {
    match side {
        IframeCompareMsg::Left => (pair.left, pair.right),
        IframeCompareMsg::Right => (pair.right, pair.left),
    }
}

/// Identifiers of the winner and the loser when the user chose `side`.
pub fn outcome_ids(pair: &Pair, side: IframeCompareMsg) -> (r: (String, String))
    ensures
        r.0@ == winner_loser(*pair, side).0.id@,
        r.1@ == winner_loser(*pair, side).1.id@,
{
    match side {
        IframeCompareMsg::Left => (pair.left.id.clone(), pair.right.id.clone()),
        IframeCompareMsg::Right => (pair.right.id.clone(), pair.left.id.clone()),
    }
}

/// Whether the session takes `msg` in `phase`; any other event is ignored.
pub open spec fn accepts(phase: Phase, msg: Msg) -> bool {
    match msg {
        Msg::PairRequested => phase == Phase::Initializing || phase == Phase::FetchFailed,
        Msg::FetchCompleted(_) => phase == Phase::Loading,
        Msg::FetchFailed => phase == Phase::Loading,
        Msg::OutcomeChosen(_) => phase == Phase::Ready || phase == Phase::UpdateFailed,
        Msg::UpdateCompleted => phase == Phase::Recording,
        Msg::UpdateFailed => phase == Phase::Recording,
    }
}

/// The phase after `msg` arrives in `phase`.
pub open spec fn phase_after(phase: Phase, msg: Msg) -> Phase {
    if !accepts(phase, msg) {
        phase
    } else {
        match msg {
            Msg::PairRequested => Phase::Loading,
            Msg::FetchCompleted(items) => if items@.len() >= 2 {
                Phase::Ready
            } else {
                Phase::Insufficient
            },
            Msg::FetchFailed => Phase::FetchFailed,
            Msg::OutcomeChosen(_) => Phase::Recording,
            Msg::UpdateCompleted => Phase::Loading,
            Msg::UpdateFailed => Phase::UpdateFailed,
        }
    }
}

/// Whether `msg` in `phase` makes the session select a new pair.
pub open spec fn selects(phase: Phase, msg: Msg) -> bool {
    phase == Phase::Loading && msg is FetchCompleted
}

/// The phase after the events of `msgs`, taken in order from `phase`.
pub open spec fn phase_after_all(phase: Phase, msgs: Seq<Msg>) -> Phase
    decreases msgs.len(),
{
    if msgs.len() == 0 {
        phase
    } else {
        phase_after_all(phase_after(phase, msgs[0]), msgs.drop_first())
    }
}

/// An outcome was handed to the store and has not been confirmed.
pub open spec fn awaiting_outcome(phase: Phase) -> bool {
    phase == Phase::Recording || phase == Phase::UpdateFailed
}

/// Outcome ordering: once an outcome is handed to the store, no fetched
/// collection is taken for a new selection before the store confirms it.
/// Along any events without that confirmation the session stays recording,
/// or waiting for the choice to be made again, and selects no pair.
pub proof fn lemma_outcome_before_selection(phase: Phase, msgs: Seq<Msg>)
    requires
        awaiting_outcome(phase),
        forall|i: int| 0 <= i < msgs.len() ==> !(#[trigger] msgs[i] is UpdateCompleted),
    ensures
        forall|i: int|
            0 <= i <= msgs.len() ==> awaiting_outcome(#[trigger] phase_after_all(phase, msgs.take(i))),
        forall|i: int|
            0 <= i < msgs.len() ==> !selects(phase_after_all(phase, msgs.take(i)), #[trigger] msgs[i]),
    decreases msgs.len(),
{
    if msgs.len() > 0 {
        let next = phase_after(phase, msgs[0]);
        assert(!(msgs[0] is UpdateCompleted));
        assert(awaiting_outcome(next));
        let rest = msgs.drop_first();
        assert forall|i: int| 0 <= i < rest.len() implies !(#[trigger] rest[i] is UpdateCompleted) by {
            assert(rest[i] == msgs[i + 1]);
        }
        lemma_outcome_before_selection(next, rest);
        assert forall|i: int| 0 <= i <= msgs.len() implies awaiting_outcome(
            #[trigger] phase_after_all(phase, msgs.take(i)),
        ) by {
            if i > 0 {
                assert(msgs.take(i).drop_first() =~= rest.take(i - 1));
                assert(msgs.take(i)[0] == msgs[0]);
                assert(awaiting_outcome(phase_after_all(next, rest.take(i - 1))));
            } else {
                assert(msgs.take(i).len() == 0);
            }
        }
    } else {
        assert(msgs.take(0).len() == 0);
    }
}

/// One comparison session over a list: it owns the Round queue and the pair
/// on screen, and answers each event with the next action.
pub struct Match {
    mode: crate::item::Mode,
    list: String,
    random_queue: ComparisonQueue,
    data: Option<Pair>,
    phase: Phase,
    rng: rand::rngs::StdRng,
}

impl Match {
    pub closed spec fn spec_mode(&self) -> crate::item::Mode {
        self.mode
    }

    pub closed spec fn spec_list(&self) -> Seq<char> {
        self.list@
    }

    pub closed spec fn spec_queue(&self) -> Seq<Item> {
        self.random_queue@
    }

    pub closed spec fn spec_data(&self) -> Option<Pair> {
        self.data
    }

    pub closed spec fn spec_phase(&self) -> Phase {
        self.phase
    }

    /// A pair is on hand wherever one is shown or being decided on.
    pub closed spec fn wf(&self) -> bool {
        (self.phase == Phase::Ready || self.phase == Phase::Recording || self.phase
            == Phase::UpdateFailed) ==> self.data is Some
    }

    /// A session over the list of `props`, in `mode`, that draws its shuffles
    /// from `rng`.
    pub fn create(props: &MatchProps, mode: crate::item::Mode, rng: rand::rngs::StdRng) -> (r: Match)
        ensures
            r.wf(),
            r.spec_mode() == mode,
            r.spec_list() == props.id@,
            r.spec_queue() == Seq::<Item>::empty(),
            r.spec_data() is None,
            r.spec_phase() == Phase::Initializing,
    {
        Match {
            mode,
            list: props.id.clone(),
            random_queue: ComparisonQueue::new(),
            data: None,
            phase: Phase::Initializing,
            rng,
        }
    }

    pub fn mode(&self) -> (r: crate::item::Mode)
        ensures
            r == self.spec_mode(),
    {
        self.mode
    }

    pub fn phase(&self) -> (r: Phase)
        ensures
            r == self.spec_phase(),
    {
        self.phase
    }

    /// The pair on screen, if any.
    pub fn pair(&self) -> (r: Option<&Pair>)
        ensures
            r == match self.spec_data() {
                Some(p) => Some(&p),
                None => None,
            },
    {
        match &self.data {
            Some(p) => Some(p),
            None => None,
        }
    }

    pub fn queue_len(&self) -> (r: usize)
        ensures
            r == self.spec_queue().len(),
    {
        self.random_queue.len()
    }

    /// Tears the session down: every later event is ignored.
    pub fn end(&mut self)
        ensures
            final(self).spec_phase() == Phase::Ended,
            final(self).spec_data() is None,
            final(self).wf(),
    {
        self.phase = Phase::Ended;
        self.data = None;
    }

    /// Takes one event and says what the caller is to do next.
    pub fn update(&mut self, msg: Msg) -> (r: Action)
        requires
            old(self).wf(),
        ensures
            final(self).wf(),
            final(self).spec_phase() == phase_after(old(self).spec_phase(), msg),
            final(self).spec_mode() == old(self).spec_mode(),
            final(self).spec_list() == old(self).spec_list(),
            !selects(old(self).spec_phase(), msg) ==> final(self).spec_queue() == old(
                self,
            ).spec_queue(),
            !accepts(old(self).spec_phase(), msg) ==> r == Action::Idle && final(self).spec_data()
                == old(self).spec_data(),
            accepts(old(self).spec_phase(), msg) ==> match msg {
                Msg::PairRequested => {
                    &&& r matches Action::Fetch { list } && list@ == old(self).spec_list()
                    &&& final(self).spec_data() is None
                },
                Msg::FetchCompleted(items) => if items@.len() >= 2 {
                    &&& r == Action::Show
                    &&& final(self).spec_data() matches Some(pair) && pair.query@ == items@
                        && exists|p: Seq<Item>|
                        #[trigger] is_shuffle_of(p, items@) && select_spec(
                            old(self).spec_mode(),
                            old(self).spec_queue(),
                            p,
                        ) == (pair.left, pair.right, final(self).spec_queue())
                } else {
                    &&& r == Action::Report(SessionError::InsufficientItems)
                    &&& final(self).spec_data() is None
                },
                Msg::FetchFailed => {
                    &&& r == Action::Report(SessionError::StoreFetchFailure)
                    &&& final(self).spec_data() is None
                },
                Msg::OutcomeChosen(side) => {
                    &&& final(self).spec_data() == old(self).spec_data()
                    &&& old(self).spec_data() matches Some(pair) && r matches Action::Record {
                        list,
                        winner,
                        loser,
                    } && list@ == old(self).spec_list() && winner@ == winner_loser(
                        pair,
                        side,
                    ).0.id@ && loser@ == winner_loser(pair, side).1.id@
                },
                Msg::UpdateCompleted => {
                    &&& r matches Action::Fetch { list } && list@ == old(self).spec_list()
                    &&& final(self).spec_data() == old(self).spec_data()
                },
                Msg::UpdateFailed => {
                    &&& r == Action::Report(SessionError::StoreUpdateFailure)
                    &&& final(self).spec_data() == old(self).spec_data()
                },
            },
    {
        match msg {
            Msg::PairRequested => {
                if self.phase == Phase::Initializing || self.phase == Phase::FetchFailed {
                    self.phase = Phase::Loading;
                    self.data = None;
                    Action::Fetch { list: self.list.clone() }
                } else {
                    Action::Idle
                }
            },
            Msg::FetchCompleted(items) => {
                if self.phase != Phase::Loading {
                    return Action::Idle;
                }
                match select_pair(self.mode, &items, &mut self.random_queue, &mut self.rng) {
                    Ok(pair) => {
                        self.data = Some(pair);
                        self.phase = Phase::Ready;
                        Action::Show
                    },
                    Err(_) => {
                        self.data = None;
                        self.phase = Phase::Insufficient;
                        Action::Report(SessionError::InsufficientItems)
                    },
                }
            },
            Msg::FetchFailed => {
                if self.phase != Phase::Loading {
                    return Action::Idle;
                }
                self.data = None;
                self.phase = Phase::FetchFailed;
                Action::Report(SessionError::StoreFetchFailure)
            },
            Msg::OutcomeChosen(side) => {
                if self.phase != Phase::Ready && self.phase != Phase::UpdateFailed {
                    return Action::Idle;
                }
                let (winner, loser) = match &self.data {
                    Some(pair) => outcome_ids(pair, side),
                    None => {
                        return Action::Idle;
                    },
                };
                self.phase = Phase::Recording;
                Action::Record { list: self.list.clone(), winner, loser }
            },
            Msg::UpdateCompleted => {
                if self.phase != Phase::Recording {
                    return Action::Idle;
                }
                self.phase = Phase::Loading;
                Action::Fetch { list: self.list.clone() }
            },
            Msg::UpdateFailed => {
                if self.phase != Phase::Recording {
                    return Action::Idle;
                }
                self.phase = Phase::UpdateFailed;
                Action::Report(SessionError::StoreUpdateFailure)
            },
        }
    }
}

} // verus!
