//! The application's states and the match lifecycle that moves between them.
use vstd::prelude::*;
use crate::ball::random_serve_velocity;
use crate::collider;
use crate::game::{spec_initial_match, Match, MatchView, TickReport};
use crate::paddle::{Direction, Side};
use crate::systems::{inputs_bounded, inputs_view};
use crate::velocity::Velocity;

verus! {

/// The high-level states of the application.
#[derive(Clone, Copy, Debug, PartialEq, Eq, Structural)]
pub enum AppState {
    /// The main menu: no match exists.
    MainMenu,
    /// A match is being played.
    InGame,
}

impl Default for AppState {
    /// The application starts in the main menu.
    fn default() -> (r: AppState)
        ensures
            r == AppState::MainMenu,
    {
        AppState::MainMenu
    }
}

/// The application: its state and, while in game, the match being played.
pub struct Game {
    pub state: AppState,
    pub active_match: Option<Match>,
}

impl Game {
    /// A match exists exactly while in game, and it is well formed and not
    /// yet won.
    pub open spec fn wf(&self) -> bool {
        &&& (self.state == AppState::InGame) == (self.active_match is Some)
        &&& (self.active_match matches Some(m) ==> m.wf() && m.live())
    }

    /// The application as it starts: in the main menu.
    pub fn new() -> (r: Game)
        ensures
            r.state == AppState::MainMenu,
            r.active_match is None,
            r.wf(),
    {
        Game { state: AppState::MainMenu, active_match: None }
    }

    /// Whether a match is being played.
    pub fn has_active_match(&self) -> (r: bool)
        ensures
            r == self.active_match is Some,
    {
        self.active_match.is_some()
    }

    /// Whether no match is being played.
    pub fn no_active_match(&self) -> (r: bool)
        ensures
            r == self.active_match is None,
    {
        self.active_match.is_none()
    }

    /// Ends the match being played, removing all of its bodies at once.
    pub fn clear_active_match(&mut self)
        ensures
            final(self).active_match is None,
            final(self).state == old(self).state,
    {
        self.active_match = None;
    }

    /// Leaves the main menu for a new match whose ball is served at
    /// `ball_velocity`. Nothing happens outside the main menu.
    pub fn start_match(&mut self, ball_velocity: Velocity)
        requires
            old(self).wf(),
            ball_velocity.wf(),
        ensures
            final(self).wf(),
            old(self).state == AppState::MainMenu ==> final(self).state == AppState::InGame,
            old(self).state == AppState::MainMenu ==> (final(self).active_match matches Some(m)
                && m@ == spec_initial_match(ball_velocity)),
            old(self).state == AppState::InGame ==> final(self).state == old(self).state
                && final(self).active_match == old(self).active_match,
    {
        if self.state == AppState::MainMenu {
            self.active_match = Some(Match::new(ball_velocity));
            self.state = AppState::InGame;
        }
    }

    /// Reacts to the start action of the main menu: when it was pressed there,
    /// a match starts with a randomly served ball. Returns whether one started.
    pub fn read_keypresses(&mut self, start_pressed: bool) -> (r: bool)
        requires
            old(self).wf(),
        ensures
            final(self).wf(),
            r == (start_pressed && old(self).state == AppState::MainMenu),
            r ==> final(self).state == AppState::InGame,
            r ==> (final(self).active_match matches Some(m) && exists|v: Velocity|
                m@ == spec_initial_match(v)),
            !r ==> final(self).state == old(self).state && final(self).active_match == old(
                self,
            ).active_match,
    {
        if start_pressed && self.state == AppState::MainMenu {
            let v = random_serve_velocity();
            self.start_match(v);
            true
        } else {
            false
        }
    }

    /// Advances the application by one tick. In the main menu nothing
    /// happens and `None` is returned. In game the match advances one tick;
    /// when that tick produces a winner the match ends and the application
    /// returns to the main menu.
    pub fn tick(&mut self, inputs: &Vec<Vec<Direction>>) -> (r: Option<TickReport>)
        requires
            old(self).wf(),
            inputs_bounded(inputs_view(inputs@)),
        ensures
            final(self).wf(),
            old(self).state == AppState::MainMenu ==> r is None && final(self).state
                == AppState::MainMenu && final(self).active_match is None,
            old(self).state == AppState::InGame ==> r is Some,
            old(self).active_match matches Some(m0) ==> Game::spec_tick_outcome(
                m0@.spec_tick(inputs_view(inputs@)),
                r,
                *final(self),
            ),
    {
        let report = match &mut self.active_match {
            Some(m) => Some(m.tick(inputs)),
            None => None,
        };
        match &report {
            Some(rep) => {
                if rep.winner.is_some() {
                    self.clear_active_match();
                    self.state = AppState::MainMenu;
                }
            },
            None => {},
        }
        report
    }

    /// `g` and `r` are what a tick of the match leads to when that tick
    /// yields `t`: the report gives the events, the scoring side and the
    /// winner; without a winner the match goes on as `t` describes, with one
    /// it is gone and the application is back in the main menu.
    pub open spec fn spec_tick_outcome(
        t: (MatchView, Seq<collider::Event>, Option<Side>, Option<Side>),
        r: Option<TickReport>,
        g: Game,
    ) -> bool {
        &&& r is Some
        &&& r->0.collisions@ == t.1
        &&& r->0.scored == t.2
        &&& r->0.winner == t.3
        &&& t.3 is None ==> g.state == AppState::InGame
        &&& t.3 is None ==> (g.active_match matches Some(m) && m@ == t.0)
        &&& t.3 is Some ==> g.state == AppState::MainMenu && g.active_match is None
    }
}

} // verus!
