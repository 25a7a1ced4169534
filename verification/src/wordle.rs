//! What the coordinator and the oracle say to each other.
//!
//! The coordinator asks with an [`Action`]; the oracle answers with an
//! [`Event`]. The oracle owns the secret word and does the matching; here
//! only the shape of the conversation is fixed.
use vstd::prelude::*;
use crate::ids::ActorId;
use crate::word::{valid_word, WORD_LENGTH};

verus! {

/// A request to the oracle.
#[derive(Debug, PartialEq, Eq)]
pub enum Action {
    /// Pick a secret word for `user`.
    StartGame { user: ActorId },
    /// Match `word` against the secret word of `user`.
    CheckWord { user: ActorId, word: String },
}

/// An [`Action`] as a mathematical value.
pub enum ActionView {
    StartGame { user: ActorId },
    CheckWord { user: ActorId, word: Seq<char> },
}

impl View for Action {
    type V = ActionView;

    open spec fn view(&self) -> ActionView {
        match *self {
            Action::StartGame { user } => ActionView::StartGame { user },
            Action::CheckWord { user, word } => ActionView::CheckWord { user, word: word@ },
        }
    }
}

impl ActionView {
    /// The player on whose behalf the request is made.
    pub open spec fn user(self) -> ActorId {
        match self {
            ActionView::StartGame { user } => user,
            ActionView::CheckWord { user, .. } => user,
        }
    }

    /// The request carries a guess, and the guess is a valid word.
    pub open spec fn has_valid_word(self) -> bool {
        match self {
            ActionView::StartGame { .. } => false,
            ActionView::CheckWord { word, .. } => valid_word(word),
        }
    }
}

impl Action {
    /// The player on whose behalf the request is made.
    pub fn get_user(&self) -> (r: &ActorId)
        ensures
            *r == self@.user(),
    {
        match self {
            Action::StartGame { user } => user,
            Action::CheckWord { user, .. } => user,
        }
    }
}

impl Clone for Action {
    fn clone(&self) -> (r: Action)
        ensures
            r@ == self@,
    {
        match self {
            Action::StartGame { user } => Action::StartGame { user: *user },
            Action::CheckWord { user, word } => Action::CheckWord {
                user: *user,
                word: word.clone(),
            },
        }
    }
}

/// An answer of the oracle.
#[derive(Debug, PartialEq, Eq)]
pub enum Event {
    /// A secret word was picked for `user`.
    GameStarted { user: ActorId },
    /// The guess of `user` was matched: `correct_positions` are the places
    /// where it agrees with the secret word, `contained_in_word` the places
    /// whose letter occurs elsewhere in the secret word.
    WordChecked { user: ActorId, correct_positions: Vec<u8>, contained_in_word: Vec<u8> },
}

/// An [`Event`] as a mathematical value.
pub enum EventView {
    GameStarted { user: ActorId },
    WordChecked { user: ActorId, correct_positions: Seq<u8>, contained_in_word: Seq<u8> },
}

impl View for Event {
    type V = EventView;

    open spec fn view(&self) -> EventView {
        match *self {
            Event::GameStarted { user } => EventView::GameStarted { user },
            Event::WordChecked { user, correct_positions, contained_in_word } => {
                EventView::WordChecked {
                    user,
                    correct_positions: correct_positions@,
                    contained_in_word: contained_in_word@,
                }
            },
        }
    }
}

impl EventView {
    /// The player whom the answer concerns.
    pub open spec fn user(self) -> ActorId {
        match self {
            EventView::GameStarted { user } => user,
            EventView::WordChecked { user, .. } => user,
        }
    }

    /// The answer says that the secret word was found: every one of the
    /// five places is a correct one. A start confirmation never says so.
    pub open spec fn has_guessed(self) -> bool {
        match self {
            EventView::GameStarted { .. } => false,
            EventView::WordChecked { correct_positions, .. } => correct_positions.len()
                == WORD_LENGTH,
        }
    }
}

impl Event {
    /// The player whom the answer concerns.
    pub fn get_user(&self) -> (r: &ActorId)
        ensures
            *r == self@.user(),
    {
        match self {
            Event::GameStarted { user } => user,
            Event::WordChecked { user, .. } => user,
        }
    }

    /// Whether the answer says that the secret word was found.
    pub fn has_guessed(&self) -> (r: bool)
        ensures
            r == self@.has_guessed(),
    {
        match self {
            Event::GameStarted { .. } => false,
            Event::WordChecked { correct_positions, .. } => correct_positions.len()
                == WORD_LENGTH,
        }
    }
}

impl Clone for Event {
    fn clone(&self) -> (r: Event)
        ensures
            r@ == self@,
    {
        match self {
            Event::GameStarted { user } => Event::GameStarted { user: *user },
            Event::WordChecked { user, correct_positions, contained_in_word } => {
                let correct = correct_positions.clone();
                let contained = contained_in_word.clone();
                assert(correct@ =~= correct_positions@);
                assert(contained@ =~= contained_in_word@);
                Event::WordChecked {
                    user: *user,
                    correct_positions: correct,
                    contained_in_word: contained,
                }
            },
        }
    }
}

} // verus!
