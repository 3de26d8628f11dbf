//! The fight adapter that settles fights: the champion always wins,
//! otherwise chance decides, and a finisher is picked at random.
use vstd::prelude::*;
use vstd::multiset::Multiset;
use rand::seq::SliceRandom;
use rand::Rng;

use crate::domain::dto::{GetFinisher, GetUpperHand, GetUpperHandFighters, UpperHand};

verus! {

/// The fight adapter.
pub struct Random;

/// `name` occurs in `text` as a contiguous run of characters.
pub open spec fn mentions(text: Seq<char>, name: Seq<char>) -> bool {
    exists|i: int|
        0 <= i && i + name.len() <= text.len() && #[trigger] text.subrange(i, i + name.len()) == name
}

/// The champion is one of the two fighters.
pub open spec fn champion_fights(fighter1: Seq<char>, fighter2: Seq<char>, champion: Seq<char>) -> bool {
    fighter1 == champion || fighter2 == champion
}

/// The first fighter who is not the champion, or the champion when both are.
pub open spec fn champion_opponent(fighter1: Seq<char>, fighter2: Seq<char>, champion: Seq<char>) -> Seq<char> {
    if fighter1 != champion {
        fighter1
    } else if fighter2 != champion {
        fighter2
    } else {
        champion
    }
}

/// The two names of an outcome are the two fighters, in one order or the other.
pub open spec fn is_pairing(
    victor: Seq<char>,
    vanquished: Seq<char>,
    fighter1: Seq<char>,
    fighter2: Seq<char>,
) -> bool {
    ||| victor == fighter1 && vanquished == fighter2
    ||| victor == fighter2 && vanquished == fighter1
}

/// The text around the victor's and the vanquished's names in finisher `roll`:
/// what comes before the victor, between the two names, and after the vanquished.
pub open spec fn finisher_template(roll: int) -> (Seq<char>, Seq<char>, Seq<char>) {
    if roll == 0 {
        ("Oh my god! "@, " smashed "@, " to the troat and FIRED them from life!"@)
    } else if roll == 1 {
        (""@, " shot an INSANE! high kick at "@, " and sent them flying!"@)
    } else if roll == 2 {
        ("INCREDIBLE! "@, " threw "@, " to the ground and is now kicking them inconscious!"@)
    } else if roll == 3 {
        (
            "A spectator gave a chair to "@,
            " who then SLAMMED it right on "@,
            "'s skull! That's illegal, but not forbidden by the rules."@,
        )
    } else {
        ("That's a THIRD CORD JUMP from "@, ", right on "@, " that was already lying on the ground!"@)
    }
}

/// Finisher `roll` told of `victor` and `vanquished`.
pub open spec fn finisher_text(roll: int, victor: Seq<char>, vanquished: Seq<char>) -> Seq<char> {
    let (before, between, after) = finisher_template(roll);
    before + victor + between + vanquished + after
}

/// Calls `SliceRandom::shuffle` of `rand` with the thread-local generator:
/// the names come back in an order picked at random, the same names as many
/// times each as before.
#[verifier::external_body]
fn shuffle_names(names: &mut Vec<String>)
    ensures
        final(names)@.len() == old(names)@.len(),
        final(names)@.to_multiset() == old(names)@.to_multiset(),
{
    names.shuffle(&mut rand::thread_rng());
}

/// Calls `Rng::gen_range` of `rand` on the range `low..high` with the
/// thread-local generator: some number at least `low` and below `high`.
#[verifier::external_body]
fn random_in_range(low: i32, high: i32) -> (roll: i32)
    requires
        low < high,
    ensures
        low <= roll < high,
{
    rand::thread_rng().gen_range(low..high)
}

/// A sequence of two elements that holds `a` and `b` as many times each as
/// `seq![a, b]` does is `seq![a, b]` or `seq![b, a]`.
proof fn lemma_pair_permutation<A>(s: Seq<A>, a: A, b: A)
    requires
        s.len() == 2,
        s.to_multiset() == seq![a, b].to_multiset(),
    ensures
        (s[0] == a && s[1] == b) || (s[0] == b && s[1] == a),
{
    broadcast use vstd::seq_lib::group_to_multiset_ensures;
    broadcast use vstd::multiset::group_multiset_axioms;

    let e = Seq::<A>::empty();
    assert(e.to_multiset() =~= Multiset::empty()) by {
        assert(e.to_multiset().len() == 0);
    }
    assert(seq![a, b] =~= e.push(a).push(b));
    assert(s =~= e.push(s[0]).push(s[1]));
    let m = Multiset::<A>::empty().insert(a).insert(b);
    let n = Multiset::<A>::empty().insert(s[0]).insert(s[1]);
    assert(m == n);
    assert(n.count(s[0]) >= 1);
    assert(m.count(s[0]) >= 1);
    assert(s[0] == a || s[0] == b);
    if s[0] == a {
        assert(n.count(s[1]) >= 1);
        if a != b {
            assert(m.count(a) == 1);
            assert(s[1] == b);
        }
    } else {
        if a != b {
            assert(m.count(b) == 1);
            assert(s[1] == a);
        }
    }
}

/// The first name still to come out of `names` that is equal to `name` when
/// `equal` holds, different from it otherwise.
pub open spec fn first_matching(names: Seq<Seq<char>>, name: Seq<char>, equal: bool) -> Option<Seq<char>>
    decreases names.len(),
{
    if names.len() == 0 {
        None
    } else if (names[0] == name) == equal {
        Some(names[0])
    } else {
        first_matching(names.drop_first(), name, equal)
    }
}

/// Hands out names from `names` until one is equal to `name` (when `equal`
/// holds) or differs from it (otherwise), and returns it.
fn find_name<'a>(fighters: GetUpperHandFighters<'a>, name: &String, equal: bool) -> (found: Option<&'a str>)
    ensures
        found matches Some(f) ==> first_matching(fighters.remaining(), name@, equal) == Some(f@),
        found is None ==> first_matching(fighters.remaining(), name@, equal) is None,
{
    let ghost start = fighters.remaining();
    let mut names = fighters;
    loop
        invariant
            start == fighters.remaining(),
            first_matching(names.remaining(), name@, equal) == first_matching(start, name@, equal),
            names.remaining().len() <= 2,
        decreases names.remaining().len(),
    {
        let ghost before = names.remaining();
        match names.next() {
            None => {
                assert(before.len() == 0);
                return None;
            },
            Some(candidate) => {
                let owned = candidate.to_owned();
                assert(owned@ == before[0]);
                assert(names.remaining() == before.drop_first());
                if (owned == *name) == equal {
                    assert(first_matching(before, name@, equal) == Some(before[0]));
                    return Some(candidate);
                }
                assert(first_matching(before, name@, equal) == first_matching(before.drop_first(), name@, equal));
            },
        }
    }
}

impl Random {
    /// Who gets the upper hand. When the champion is one of the fighters,
    /// the champion wins against the first fighter who is not the champion
    /// (against the champion when both are). Otherwise the two fighters are
    /// shuffled and the first one wins.
    pub fn get_upper_hand(get_upper_hand: GetUpperHand) -> (upper_hand: UpperHand)
        ensures
            champion_fights(get_upper_hand.fighter1@, get_upper_hand.fighter2@, get_upper_hand.champion_name@) ==> {
                &&& upper_hand.victor@ == get_upper_hand.champion_name@
                &&& upper_hand.vanquished@ == champion_opponent(
                    get_upper_hand.fighter1@,
                    get_upper_hand.fighter2@,
                    get_upper_hand.champion_name@,
                )
            },
            is_pairing(
                upper_hand.victor@,
                upper_hand.vanquished@,
                get_upper_hand.fighter1@,
                get_upper_hand.fighter2@,
            ),
            get_upper_hand.fighter1@ == get_upper_hand.champion_name@ ==> upper_hand.victor@
                == get_upper_hand.champion_name@ && upper_hand.vanquished@ == get_upper_hand.fighter2@,
            get_upper_hand.fighter2@ == get_upper_hand.champion_name@ ==> upper_hand.victor@
                == get_upper_hand.champion_name@ && upper_hand.vanquished@ == get_upper_hand.fighter1@,
            (upper_hand.victor@ == get_upper_hand.fighter1@ && upper_hand.vanquished@
                == get_upper_hand.fighter2@) || (upper_hand.victor@ == get_upper_hand.fighter2@
                && upper_hand.vanquished@ == get_upper_hand.fighter1@),
    {
        let ghost names = seq![get_upper_hand.fighter1@, get_upper_hand.fighter2@];
        proof {
            reveal_with_fuel(first_matching, 3);
            assert(names.drop_first() =~= seq![get_upper_hand.fighter2@]);
            assert(names.drop_first().drop_first() =~= Seq::<Seq<char>>::empty());
        }
        let champion_found = find_name(get_upper_hand.fighters(), &get_upper_hand.champion_name, true);
        if champion_found.is_some() {
            let vanquished = match find_name(get_upper_hand.fighters(), &get_upper_hand.champion_name, false) {
                Some(fighter) => fighter.to_owned(),
                None => get_upper_hand.champion_name.clone(),
            };
            UpperHand { victor: get_upper_hand.champion_name, vanquished }
        } else {
            let mut randomized = vec![get_upper_hand.fighter1, get_upper_hand.fighter2];
            let ghost drawn = randomized@;
            shuffle_names(&mut randomized);
            proof {
                lemma_pair_permutation(randomized@, drawn[0], drawn[1]);
            }
            Self::upper_hand_from_order(randomized)
        }
    }

    /// The outcome once the fighters were put in order: the first wins
    /// against the second.
    pub fn upper_hand_from_order(randomized: Vec<String>) -> (upper_hand: UpperHand)
        requires
            randomized.len() == 2,
        ensures
            upper_hand.victor == randomized@[0],
            upper_hand.vanquished == randomized@[1],
    {
        let mut randomized = randomized;
        let vanquished = randomized.pop().unwrap();
        let victor = randomized.pop().unwrap();
        UpperHand { victor, vanquished }
    }

    /// A finisher picked at random among the five there are.
    pub fn get_finisher(get_finisher: GetFinisher) -> (finisher: String)
        ensures
            exists|roll: int|
                0 <= roll < 5 && finisher@ == #[trigger] finisher_text(
                    roll,
                    get_finisher.victor@,
                    get_finisher.vanquished@,
                ),
    {
        let roll = random_in_range(0, 5);
        let finisher = Self::finisher(&get_finisher, roll);
        assert(finisher_text(roll as int, get_finisher.victor@, get_finisher.vanquished@) == finisher@);
        finisher
    }

    /// Finisher `roll`: rolls 0 to 3 pick the first four, any other roll the fifth.
    pub fn finisher(get_finisher: &GetFinisher, roll: i32) -> (finisher: String)
        ensures
            finisher@ == finisher_text(roll as int, get_finisher.victor@, get_finisher.vanquished@),
    {
        let (before, between, after) = match roll {
            0 => ("Oh my god! ", " smashed ", " to the troat and FIRED them from life!"),
            1 => ("", " shot an INSANE! high kick at ", " and sent them flying!"),
            2 => ("INCREDIBLE! ", " threw ", " to the ground and is now kicking them inconscious!"),
            3 => (
                "A spectator gave a chair to ",
                " who then SLAMMED it right on ",
                "'s skull! That's illegal, but not forbidden by the rules.",
            ),
            _ => ("That's a THIRD CORD JUMP from ", ", right on ", " that was already lying on the ground!"),
        };
        let mut finisher = String::from_str(before);
        finisher.append(get_finisher.victor.as_str());
        finisher.append(between);
        finisher.append(get_finisher.vanquished.as_str());
        finisher.append(after);
        finisher
    }
}

/// When the two fighters differ, the victor and the vanquished of any outcome
/// that pairs them differ too.
pub proof fn lemma_pairing_of_distinct_fighters(
    victor: Seq<char>,
    vanquished: Seq<char>,
    fighter1: Seq<char>,
    fighter2: Seq<char>,
)
    requires
        is_pairing(victor, vanquished, fighter1, fighter2),
        fighter1 != fighter2,
    ensures
        victor != vanquished,
{
}

/// Every finisher names both the victor and the vanquished.
pub proof fn lemma_finisher_mentions_both(roll: int, victor: Seq<char>, vanquished: Seq<char>)
    ensures
        mentions(finisher_text(roll, victor, vanquished), victor),
        mentions(finisher_text(roll, victor, vanquished), vanquished),
{
    let (before, between, after) = finisher_template(roll);
    let text = finisher_text(roll, victor, vanquished);
    assert(text =~= before + victor + between + vanquished + after);
    let i = before.len() as int;
    assert(text.subrange(i, i + victor.len()) =~= victor);
    let j = (before.len() + victor.len() + between.len()) as int;
    assert(text.subrange(j, j + vanquished.len()) =~= vanquished);
}

/// The champion rule: the champion takes part exactly when it is one of the
/// two fighters, and then beats the other fighter (itself when both are the
/// champion); an outcome pairs the fighters exactly when the victor is one
/// of them and the vanquished the other.
pub proof fn lemma_champion_rule(fighter1: Seq<char>, fighter2: Seq<char>, champion: Seq<char>)
    ensures
        champion_fights(fighter1, fighter2, champion) <==> (fighter1 == champion || fighter2 == champion),
        fighter1 == champion ==> champion_opponent(fighter1, fighter2, champion) == fighter2,
        fighter2 == champion ==> champion_opponent(fighter1, fighter2, champion) == fighter1,
        forall|victor: Seq<char>, vanquished: Seq<char>|
            #[trigger] is_pairing(victor, vanquished, fighter1, fighter2) <==> ((victor == fighter1
                && vanquished == fighter2) || (victor == fighter2 && vanquished == fighter1)),
{
}

/// The words of each finisher: the victor is told as the one who acts and
/// the vanquished as the one acted upon, in these five texts; any roll
/// outside 0 to 3 tells the fifth.
pub proof fn lemma_finisher_wording(roll: int, victor: Seq<char>, vanquished: Seq<char>)
    ensures
        roll == 0 ==> finisher_text(roll, victor, vanquished) == "Oh my god! "@ + victor + " smashed "@
            + vanquished + " to the troat and FIRED them from life!"@,
        roll == 1 ==> finisher_text(roll, victor, vanquished) == victor
            + " shot an INSANE! high kick at "@ + vanquished + " and sent them flying!"@,
        roll == 2 ==> finisher_text(roll, victor, vanquished) == "INCREDIBLE! "@ + victor + " threw "@
            + vanquished + " to the ground and is now kicking them inconscious!"@,
        roll == 3 ==> finisher_text(roll, victor, vanquished) == "A spectator gave a chair to "@ + victor
            + " who then SLAMMED it right on "@ + vanquished
            + "'s skull! That's illegal, but not forbidden by the rules."@,
        roll < 0 || roll > 3 ==> finisher_text(roll, victor, vanquished)
            == "That's a THIRD CORD JUMP from "@ + victor + ", right on "@ + vanquished
            + " that was already lying on the ground!"@,
{
    reveal_strlit("");
    assert(""@ + victor =~= victor);
}

/// Every finisher names the victor first, and the vanquished after the
/// victor's name has ended.
pub proof fn lemma_finisher_names_victor_first(roll: int, victor: Seq<char>, vanquished: Seq<char>)
    ensures
        exists|i: int, j: int|
            0 <= i && i + victor.len() <= j && j + vanquished.len() <= finisher_text(
                roll,
                victor,
                vanquished,
            ).len() && #[trigger] finisher_text(roll, victor, vanquished).subrange(i, i + victor.len())
                == victor && #[trigger] finisher_text(roll, victor, vanquished).subrange(
                j,
                j + vanquished.len(),
            ) == vanquished,
{
    let (before, between, after) = finisher_template(roll);
    let text = finisher_text(roll, victor, vanquished);
    assert(text =~= before + victor + between + vanquished + after);
    let i = before.len() as int;
    assert(text.subrange(i, i + victor.len()) =~= victor);
    let j = (before.len() + victor.len() + between.len()) as int;
    assert(text.subrange(j, j + vanquished.len()) =~= vanquished);
}

} // verus!
