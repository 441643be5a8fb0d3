use vstd::prelude::*;
use vstd::std_specs::cmp::PartialEqSpec;

verus! {

/// The lifecycle stage of the current scene.
#[derive(Clone, Copy, Debug, PartialEq, Eq, Structural)]
pub enum GameStatus {
    Idle,
    Entering,
    Exiting,
    Running,
}

/// A resource holding the lifecycle of an application-defined scene type.
///
/// `status` is the phase, `current` the scene that the phase applies to and
/// `next` the requested scene that has not been consumed yet.
pub struct GameState<TScene: Copy + PartialEq> {
    pub status: GameStatus,
    pub current: Option<TScene>,
    pub next: Option<TScene>,
}

/// What one update did, for the driver's diagnostics.
#[derive(Clone, Copy, Debug, PartialEq, Eq, Structural)]
pub enum Transition {
    /// Idle with no scene requested: nothing happens.
    Ignored,
    /// Idle or Exiting with a scene requested: the requested scene is entered.
    Entered,
    /// Entering: the scene starts running.
    Started,
    /// Running with a scene requested: the running scene starts exiting.
    Exited,
    /// Running with no scene requested: the scene keeps running.
    Unchanged,
    /// Exiting with no scene requested: the machine stays parked.
    Stalled,
}

/// A machine is well formed when it carries a scene exactly when it is not idle.
pub open spec fn well_formed<TScene: Copy + PartialEq>(s: GameState<TScene>) -> bool {
    (s.status == GameStatus::Idle) == (s.current is None)
}

/// The state after `set_transition(scene)`.
pub open spec fn requested<TScene: Copy + PartialEq>(s: GameState<TScene>, scene: TScene) -> GameState<TScene> {
    GameState { status: s.status, current: s.current, next: Some(scene) }
}

/// The state after one update: the lifecycle transition table.
pub open spec fn advanced<TScene: Copy + PartialEq>(s: GameState<TScene>) -> GameState<TScene> {
    match s.status {
        GameStatus::Idle => match s.next {
            Some(n) => GameState { status: GameStatus::Entering, current: Some(n), next: s.next },
            None => s,
        },
        GameStatus::Entering => GameState { status: GameStatus::Running, current: s.current, next: None },
        GameStatus::Running => match s.next {
            Some(_) => GameState { status: GameStatus::Exiting, current: s.current, next: s.next },
            None => s,
        },
        GameStatus::Exiting => match s.next {
            Some(n) => GameState { status: GameStatus::Entering, current: Some(n), next: None },
            None => s,
        },
    }
}

/// What one update reports for the state it started from.
pub open spec fn transition_of<TScene: Copy + PartialEq>(s: GameState<TScene>) -> Transition {
    match s.status {
        GameStatus::Idle => if s.next is Some { Transition::Entered } else { Transition::Ignored },
        GameStatus::Entering => Transition::Started,
        GameStatus::Running => if s.next is Some { Transition::Exited } else { Transition::Unchanged },
        GameStatus::Exiting => if s.next is Some { Transition::Entered } else { Transition::Stalled },
    }
}

/// The state after `n` updates with no request in between.
pub open spec fn advanced_n<TScene: Copy + PartialEq>(s: GameState<TScene>, n: nat) -> GameState<TScene>
    decreases n,
{
    if n == 0 {
        s
    } else {
        advanced_n(advanced(s), (n - 1) as nat)
    }
}

/// The scene that the phase applies to; none while idle.
pub open spec fn scene_of<TScene: Copy + PartialEq>(s: GameState<TScene>) -> Option<TScene> {
    if s.status == GameStatus::Idle {
        None
    } else {
        s.current
    }
}

/// True when `current` holds a scene that equals `scene` by the scene type's
/// own equality.
pub open spec fn scene_matches<TScene: PartialEq>(current: Option<TScene>, scene: TScene) -> bool {
    match current {
        Some(c) => c.eq_spec(&scene),
        None => false,
    }
}

impl<TScene: Copy + PartialEq> GameState<TScene> {
    /// A machine that is idle with nothing requested.
    pub fn new() -> (r: Self)
        ensures
            r.status == GameStatus::Idle,
            r.current is None,
            r.next is None,
            well_formed(r),
    {
        GameState { status: GameStatus::Idle, current: None, next: None }
    }

    /// Set the transition to carry out at the next update; the latest request wins.
    pub fn set_transition(&mut self, next: TScene)
        ensures
            *final(self) == requested(*old(self), next),
    {
        self.next = Some(next);
    }

    /// Returns true if the current scene is defined and matches the given scene.
    pub fn is_in_scene(&self, scene: &TScene) -> (r: bool)
        ensures
            self.current is None ==> !r,
            TScene::obeys_eq_spec() ==> r == scene_matches(self.current, *scene),
    {
        match self.current {
            Some(c) => c == *scene,
            None => false,
        }
    }

    /// Returns true if the current status is the given one.
    pub fn is_in_status(&self, status: &GameStatus) -> (r: bool)
        ensures
            r == (self.status == *status),
    {
        self.status == *status
    }

    /// The scene carried by the current phase, or `None` while idle.
    pub fn current_scene(&self) -> (r: Option<TScene>)
        ensures
            r == scene_of(*self),
    {
        match self.status {
            GameStatus::Idle => None,
            _ => self.current,
        }
    }

    /// Advance the lifecycle by one step: Idle >> Entering >> Running, or
    /// Running >> Exiting >> Entering >> Running, one update at a time.
    pub fn update(&mut self) -> (r: Transition)
        ensures
            *final(self) == advanced(*old(self)),
            r == transition_of(*old(self)),
            well_formed(*old(self)) ==> well_formed(*final(self)),
    {
        match self.status {
            GameStatus::Idle => match self.next {
                Some(next_scene) => {
                    self.status = GameStatus::Entering;
                    self.current = Some(next_scene);
                    Transition::Entered
                },
                None => Transition::Ignored,
            },
            GameStatus::Entering => {
                self.status = GameStatus::Running;
                self.next = None;
                Transition::Started
            },
            GameStatus::Exiting => match self.next {
                Some(next_scene) => {
                    self.status = GameStatus::Entering;
                    self.current = Some(next_scene);
                    self.next = None;
                    Transition::Entered
                },
                None => Transition::Stalled,
            },
            GameStatus::Running => match self.next {
                Some(_) => {
                    self.status = GameStatus::Exiting;
                    Transition::Exited
                },
                None => Transition::Unchanged,
            },
        }
    }
}

proof fn lemma_fixed_point_stays<TScene: Copy + PartialEq>(s: GameState<TScene>, n: nat)
    requires
        advanced(s) == s,
    ensures
        advanced_n(s, n) == s,
    decreases n,
{
    if n > 0 {
        lemma_fixed_point_stays(advanced(s), (n - 1) as nat);
    }
}

/// With no scene requested, an idle machine stays idle and a running machine
/// keeps running, however many updates follow.
pub proof fn lemma_idle_and_running_are_stable<TScene: Copy + PartialEq>(s: GameState<TScene>, n: nat)
    requires
        s.status == GameStatus::Idle || s.status == GameStatus::Running,
        s.next is None,
    ensures
        advanced_n(s, n) == s,
{
    lemma_fixed_point_stays(s, n);
}

/// An entered scene runs at the next update and keeps running while nothing
/// new is requested: from `Entering(s)`, updates with no request lead to
/// `Running(s)` and stay there.
pub proof fn lemma_entered_scene_keeps_running<TScene: Copy + PartialEq>(s: GameState<TScene>, n: nat)
    requires
        s.status == GameStatus::Entering,
    ensures
        advanced_n(s, n + 1) == (GameState { status: GameStatus::Running, current: s.current, next: None }),
{
    lemma_fixed_point_stays(advanced(s), n);
}

/// Requesting a scene on an idle machine enters it at the next update and
/// runs it at the one after.
pub proof fn lemma_request_from_idle<TScene: Copy + PartialEq>(s: GameState<TScene>, scene: TScene)
    requires
        s.status == GameStatus::Idle,
    ensures
        advanced(requested(s, scene)).status == GameStatus::Entering,
        advanced(requested(s, scene)).current == Some(scene),
        advanced(advanced(requested(s, scene))).status == GameStatus::Running,
        advanced(advanced(requested(s, scene))).current == Some(scene),
{
}

/// Requesting a scene while another one runs first exits the running scene,
/// and only the update after that enters the requested one.
pub proof fn lemma_request_while_running<TScene: Copy + PartialEq>(s: GameState<TScene>, scene: TScene)
    requires
        s.status == GameStatus::Running,
    ensures
        advanced(requested(s, scene)).status == GameStatus::Exiting,
        advanced(requested(s, scene)).current == s.current,
        advanced(advanced(requested(s, scene))).status == GameStatus::Entering,
        advanced(advanced(requested(s, scene))).current == Some(scene),
        scene_of(advanced(advanced(requested(s, scene)))) == Some(scene),
{
}

/// An exiting machine with no scene requested stays parked: every further
/// update leaves it unchanged.
pub proof fn lemma_stalled_exit_is_stable<TScene: Copy + PartialEq>(s: GameState<TScene>, n: nat)
    requires
        s.status == GameStatus::Exiting,
        s.next is None,
    ensures
        advanced_n(s, n) == s,
{
    lemma_fixed_point_stays(s, n);
}

} // verus!
