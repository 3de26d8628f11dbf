//! The fight context: the decisions taken while a fight is resolved.
//!
//! Resolving a fight asks the fight adapter who gets the upper hand, then asks
//! it for a finisher, then tells the chat adapter to post that finisher. The
//! asking and telling is done by the caller; each function here takes the
//! reply to one step and says what to do next.
use vstd::prelude::*;

use crate::adapters_secondary::fight::random::{finisher_text, is_pairing, lemma_finisher_mentions_both, mentions};
use crate::domain::dto::{Fighters, GetFinisher, GetUpperHand, SendMessage, UpperHand};

verus! {

/// Where fights are settled and announced, and who the house champion is.
pub struct Context {
    pub fight_adapter_name: String,
    pub chat_adapter_name: String,
    pub champion_name: String,
}

impl Clone for Context {
    /// A context that settles and announces fights with the same adapters and
    /// the same champion.
    fn clone(&self) -> (copy: Self)
        ensures
            copy == *self,
    {
        Context {
            fight_adapter_name: self.fight_adapter_name.clone(),
            chat_adapter_name: self.chat_adapter_name.clone(),
            champion_name: self.champion_name.clone(),
        }
    }
}

/// Why a fight could not be resolved, with what the adapter answered.
#[derive(Debug)]
pub enum FightError {
    UpperHand(String),
    Finisher(String),
    Delivery(String),
}

/// The text that reports `error`.
pub open spec fn fight_error_text(error: FightError) -> Seq<char> {
    match error {
        FightError::UpperHand(reason) => "could not get the upper hand: "@ + reason@,
        FightError::Finisher(reason) => "could not get the finisher: "@ + reason@,
        FightError::Delivery(reason) => "could not get the finisher: "@ + reason@,
    }
}

impl FightError {
    /// The text that reports this error.
    pub fn message(&self) -> (text: String)
        ensures
            text@ == fight_error_text(*self),
    {
        let (prefix, reason) = match self {
            FightError::UpperHand(reason) => ("could not get the upper hand: ", reason),
            FightError::Finisher(reason) => ("could not get the finisher: ", reason),
            FightError::Delivery(reason) => ("could not get the finisher: ", reason),
        };
        let mut text = String::from_str(prefix);
        text.append(reason.as_str());
        text
    }
}

impl Context {
    /// A context that settles fights with the adapter named
    /// `fight_adapter_name`, announces them with the one named
    /// `chat_adapter_name`, and lets `champion_name` win every fight it is in.
    pub fn new(fight_adapter_name: &str, chat_adapter_name: &str, champion_name: String) -> (context: Self)
        ensures
            context.fight_adapter_name@ == fight_adapter_name@,
            context.chat_adapter_name@ == chat_adapter_name@,
            context.champion_name == champion_name,
    {
        Self {
            fight_adapter_name: fight_adapter_name.to_owned(),
            chat_adapter_name: chat_adapter_name.to_owned(),
            champion_name,
        }
    }

    /// First step of a fight: the question to put to the fight adapter.
    pub fn request_upper_hand(&self, fighters: Fighters) -> (request: GetUpperHand)
        ensures
            request.fighter1 == fighters.fighter1,
            request.fighter2 == fighters.fighter2,
            request.champion_name == self.champion_name,
    {
        GetUpperHand::for_fight(fighters, self.champion_name.clone())
    }

    /// Second step: with the upper hand, the finisher to ask for; with an
    /// error from the adapter, the fight stops.
    pub fn on_upper_hand(reply: Result<UpperHand, String>) -> (next: Result<GetFinisher, FightError>)
        ensures
            reply matches Ok(upper_hand) ==> next matches Ok(request) && request.victor == upper_hand.victor
                && request.vanquished == upper_hand.vanquished,
            reply matches Err(reason) ==> next matches Err(FightError::UpperHand(r)) && r == reason,
    {
        match reply {
            Ok(upper_hand) => Ok(GetFinisher::from(upper_hand)),
            Err(reason) => Err(FightError::UpperHand(reason)),
        }
    }

    /// Third step: with the finisher, the message to post; with an error
    /// from the adapter, the fight stops.
    pub fn on_finisher(reply: Result<String, String>) -> (next: Result<SendMessage, FightError>)
        ensures
            reply matches Ok(finisher) ==> next matches Ok(message) && message.message == finisher,
            reply matches Err(reason) ==> next matches Err(FightError::Finisher(r)) && r == reason,
    {
        match reply {
            Ok(finisher) => Ok(SendMessage { message: finisher }),
            Err(reason) => Err(FightError::Finisher(reason)),
        }
    }

    /// Last step: the fight is over once the chat adapter took the message.
    pub fn on_message_sent(reply: Result<(), String>) -> (done: Result<(), FightError>)
        ensures
            reply is Ok ==> done is Ok,
            reply matches Err(reason) ==> done matches Err(FightError::Delivery(r)) && r == reason,
    {
        match reply {
            Ok(()) => Ok(()),
            Err(reason) => Err(FightError::Delivery(reason)),
        }
    }
}

/// Whoever of the two fighters gets the upper hand, and whichever finisher is
/// told, the message posted for the fight names both fighters.
pub proof fn lemma_fight_message_mentions_fighters(
    fighters: Fighters,
    upper_hand: UpperHand,
    roll: int,
)
    requires
        is_pairing(upper_hand.victor@, upper_hand.vanquished@, fighters.fighter1@, fighters.fighter2@),
    ensures
        mentions(finisher_text(roll, upper_hand.victor@, upper_hand.vanquished@), fighters.fighter1@),
        mentions(finisher_text(roll, upper_hand.victor@, upper_hand.vanquished@), fighters.fighter2@),
{
    lemma_finisher_mentions_both(roll, upper_hand.victor@, upper_hand.vanquished@);
}

} // verus!
