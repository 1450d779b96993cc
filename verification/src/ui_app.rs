//! The screens of the desktop client: from the welcome screen to choosing a
//! level and fighting it, with its clock. The window, the scene (in floating
//! point) and the websocket task are the caller's: they carry out the
//! actions decided here.

use vstd::prelude::*;

use crate::client::{KeyActionKind, Move};
use crate::level::{level_with_id, LevelInfo, LevelList};
use crate::ws::LocalMessage;

verus! {

/// How often the client asks the server for its frame number, in ms.
pub const FRAME_NUMBER_PERIOD: u128 = 1000;

/// Which screen the desktop client shows.
#[derive(Debug, Clone, Copy, PartialEq, Eq, Structural)]
pub enum FightState {
    Pending,
    LevelSelect,
    Action,
    Win,
    Loss,
}

/// A request of the client's screens, keys and timer.
#[derive(Debug, Clone)]
pub enum Message {
    WsConnected,
    WsDisconnected,
    WsMessage(String),
    /// The timer fired; the time now, in ms.
    Tick(u128),
    SwitchToLevelSelect,
    Start(u32),
    SelectLevel(u32),
    Retry,
    Move(KeyActionKind, Move),
    HeroDash,
    HeroAttack,
    Nothing,
}

/// One thing the caller does for a request.
#[derive(Debug, Clone)]
pub enum UiAction {
    /// Advance the player's hero and the scene by this many ms.
    Step(u128),
    /// Press or release a direction key of the player's hero.
    MoveHero(KeyActionKind, Move),
    /// Let the player's hero dash, if it can.
    DashHero,
    /// Let the player's hero attack, if it can.
    AttackWithHero,
    /// Hand the message to the websocket task, if there is one.
    Send(LocalMessage),
    /// Put the enemies of level `id` into the scene.
    LoadLevel(u32),
    /// Bring everyone in the scene back to the start.
    ResetScene,
}

/// The desktop client's screen, the levels it offers, and its clock.
#[derive(Debug)]
pub struct UiApp {
    pub state: FightState,
    pub level_list: LevelList,
    pub selected_level: Option<LevelInfo>,
    pub last_update: u128,
    pub last_frame_request: u128,
    pub frames_passed_since_request: u128,
}

impl UiApp {
    /// The client as it starts at time `now`: on the welcome screen, with no
    /// level chosen.
    pub fn new(level_list: LevelList, now: u128) -> (flow: Self)
        ensures
            flow.state == FightState::Pending,
            flow.level_list == level_list,
            flow.selected_level is None,
            flow.last_update == now,
            flow.last_frame_request == now,
            flow.frames_passed_since_request == 0,
    {
        UiApp {
            state: FightState::Pending,
            level_list,
            selected_level: None,
            last_update: now,
            last_frame_request: now,
            frames_passed_since_request: 0,
        }
    }

    /// The time since `since` at `now`, or 0 when the clock went back.
    pub open spec fn elapsed(since: u128, now: u128) -> u128 {
        if now >= since {
            (now - since) as u128
        } else {
            0
        }
    }

    /// Handles a request. The player's keys act on the player's hero and go
    /// to the server; the timer steps the scene by the time since the last
    /// step and, once a second has passed since the last request, asks the
    /// server for its frame number; the screens go from the welcome screen to
    /// the choice of a level, and from a level started (or retried) to the
    /// fight.
    pub fn update(&mut self, message: Message) -> (actions: Vec<UiAction>)
        requires
            message is Tick ==> old(self).frames_passed_since_request < u128::MAX,
        ensures
            final(self).level_list == old(self).level_list,
            !(message is Tick) ==> final(self).last_update == old(self).last_update
                && final(self).last_frame_request == old(self).last_frame_request
                && final(self).frames_passed_since_request == old(self).frames_passed_since_request,
            !(message is SelectLevel) ==> final(self).selected_level == old(self).selected_level,
            match message {
                Message::Tick(now) => {
                    let ask = Self::elapsed(old(self).last_frame_request, now) >= FRAME_NUMBER_PERIOD;
                    &&& final(self).state == old(self).state
                    &&& final(self).last_update == now
                    &&& final(self).last_frame_request == (if ask {
                        now
                    } else {
                        old(self).last_frame_request
                    })
                    &&& final(self).frames_passed_since_request == (if ask {
                        0
                    } else {
                        (old(self).frames_passed_since_request + 1) as u128
                    })
                    &&& actions@ == (if ask {
                        seq![
                            UiAction::Step(Self::elapsed(old(self).last_update, now)),
                            UiAction::Send(LocalMessage::RequestFrameNumber),
                        ]
                    } else {
                        seq![UiAction::Step(Self::elapsed(old(self).last_update, now))]
                    })
                },
                Message::SwitchToLevelSelect => final(self).state == FightState::LevelSelect
                    && actions@ == Seq::<UiAction>::empty(),
                Message::SelectLevel(id) => final(self).state == old(self).state
                    && final(self).selected_level == level_with_id(old(self).level_list.list@, id)
                    && actions@ == Seq::<UiAction>::empty(),
                Message::Start(id) => final(self).state == FightState::Action && actions@ == seq![
                    UiAction::LoadLevel(id),
                ],
                Message::Retry => final(self).state == FightState::Action && actions@ == seq![
                    UiAction::ResetScene,
                ],
                Message::Move(kind, movement) => final(self).state == old(self).state && actions@
                    == seq![
                    UiAction::MoveHero(kind, movement),
                    UiAction::Send(LocalMessage::Move(kind, movement)),
                ],
                Message::HeroDash => final(self).state == old(self).state && actions@ == seq![
                    UiAction::DashHero,
                    UiAction::Send(LocalMessage::HeroDash),
                ],
                Message::HeroAttack => final(self).state == old(self).state && actions@ == seq![
                    UiAction::AttackWithHero,
                    UiAction::Send(LocalMessage::HeroAttack),
                ],
                _ => final(self).state == old(self).state && actions@ == Seq::<UiAction>::empty(),
            },
    {
        let mut actions: Vec<UiAction> = Vec::new();
        match message {
            Message::Tick(now) => {
                let dt: u128 = now.saturating_sub(self.last_update);
                self.last_update = now;
                actions.push(UiAction::Step(dt));
                self.frames_passed_since_request += 1;
                if now.saturating_sub(self.last_frame_request) >= FRAME_NUMBER_PERIOD {
                    self.last_frame_request = now;
                    self.frames_passed_since_request = 0;
                    actions.push(UiAction::Send(LocalMessage::RequestFrameNumber));
                }
            },
            Message::SwitchToLevelSelect => {
                self.state = FightState::LevelSelect;
            },
            Message::SelectLevel(id) => {
                self.selected_level = self.level_list.find_by_id(id);
            },
            Message::Start(id) => {
                actions.push(UiAction::LoadLevel(id));
                self.state = FightState::Action;
            },
            Message::Retry => {
                actions.push(UiAction::ResetScene);
                self.state = FightState::Action;
            },
            Message::Move(kind, movement) => {
                actions.push(UiAction::MoveHero(kind, movement));
                actions.push(UiAction::Send(LocalMessage::Move(kind, movement)));
            },
            Message::HeroDash => {
                actions.push(UiAction::DashHero);
                actions.push(UiAction::Send(LocalMessage::HeroDash));
            },
            Message::HeroAttack => {
                actions.push(UiAction::AttackWithHero);
                actions.push(UiAction::Send(LocalMessage::HeroAttack));
            },
            Message::WsConnected | Message::WsDisconnected | Message::WsMessage(_)
            | Message::Nothing => {},
        }
        actions
    }

    /// Takes the frame number the server answered with, and gives the frame
    /// number of the scene: the answer is about half of the frames drawn
    /// since the request old, so half of them is added.
    pub fn on_frame_number(&mut self, number: u128) -> (frame_number: u128)
        requires
            number + old(self).frames_passed_since_request / 2 <= u128::MAX,
        ensures
            frame_number == number + old(self).frames_passed_since_request / 2,
            final(self).frames_passed_since_request == 0,
            final(self).state == old(self).state,
            final(self).level_list == old(self).level_list,
            final(self).selected_level == old(self).selected_level,
            final(self).last_update == old(self).last_update,
            final(self).last_frame_request == old(self).last_frame_request,
    {
        let frame_number: u128 = number + self.frames_passed_since_request / 2;
        self.frames_passed_since_request = 0;
        frame_number
    }
}

} // verus!
