//! Messages exchanged between the fight context and its adapters.
use vstd::prelude::*;
use vstd::std_specs::convert::FromSpecImpl;

verus! {

// Fight

/// The two people involved in a challenge: the one who wrote the message and
/// the first one they mentioned.
#[derive(Debug)]
pub struct Fighters {
    pub fighter1: String,
    pub fighter2: String,
}

/// A request to the fight adapter: who gets the upper hand between two
/// fighters, knowing who the house champion is.
#[derive(Debug)]
pub struct GetUpperHand {
    pub fighter1: String,
    pub fighter2: String,
    pub champion_name: String,
}

impl GetUpperHand {
    /// Turns a pair of fighters into a request, naming the champion.
    pub fn for_fight(fighters: Fighters, champion_name: String) -> (request: GetUpperHand)
        ensures
            request.fighter1 == fighters.fighter1,
            request.fighter2 == fighters.fighter2,
            request.champion_name == champion_name,
    {
        GetUpperHand { fighter1: fighters.fighter1, fighter2: fighters.fighter2, champion_name }
    }

    /// The fighters of this request, in order: `fighter1` first, then `fighter2`.
    pub fn fighters(&self) -> (names: GetUpperHandFighters<'_>)
        ensures
            names.remaining() == seq![self.fighter1@, self.fighter2@],
    {
        GetUpperHandFighters::Two(self.fighter1.as_str(), self.fighter2.as_str())
    }
}

/// A cursor over the fighters of a request that hands them out one at a time.
pub enum GetUpperHandFighters<'a> {
    Two(&'a str, &'a str),
    One(&'a str),
    Zero,
}

impl<'a> GetUpperHandFighters<'a> {
    /// The names that are still to be handed out, in order.
    pub open spec fn remaining(&self) -> Seq<Seq<char>> {
        match *self {
            GetUpperHandFighters::Two(a, b) => seq![a@, b@],
            GetUpperHandFighters::One(a) => seq![a@],
            GetUpperHandFighters::Zero => Seq::empty(),
        }
    }

    /// Hands out the next name, or `None` once every name was handed out.
    pub fn next(&mut self) -> (output: Option<&'a str>)
        ensures
            old(self).remaining().len() == 0 ==> output is None && final(self).remaining().len() == 0,
            old(self).remaining().len() > 0 ==> {
                &&& output is Some
                &&& output.unwrap()@ == old(self).remaining()[0]
                &&& final(self).remaining() == old(self).remaining().drop_first()
            },
    {
        let (this, output) = match *self {
            GetUpperHandFighters::Two(a, b) => (GetUpperHandFighters::One(b), Some(a)),
            GetUpperHandFighters::One(a) => (GetUpperHandFighters::Zero, Some(a)),
            GetUpperHandFighters::Zero => (GetUpperHandFighters::Zero, None),
        };
        *self = this;
        output
    }
}

/// The outcome of a fight: who won and who lost.
#[derive(Debug)]
pub struct UpperHand {
    pub victor: String,
    pub vanquished: String,
}

impl From<UpperHand> for GetFinisher {
    fn from(uh: UpperHand) -> (request: Self) {
        Self { victor: uh.victor, vanquished: uh.vanquished }
    }
}

impl FromSpecImpl<UpperHand> for GetFinisher {
    open spec fn obeys_from_spec() -> bool {
        true
    }

    open spec fn from_spec(uh: UpperHand) -> Self {
        GetFinisher { victor: uh.victor, vanquished: uh.vanquished }
    }
}

/// A request to the fight adapter: describe how the victor finished the vanquished.
#[derive(Debug)]
pub struct GetFinisher {
    pub victor: String,
    pub vanquished: String,
}

// Chat

/// A message to post in the chat.
#[derive(Debug)]
pub struct SendMessage {
    pub message: String,
}

} // verus!
