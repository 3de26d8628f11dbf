//! The gateway adapter: which chat messages start a fight.
use vstd::prelude::*;

use crate::domain::dto::Fighters;

verus! {

/// How long to wait before reconnecting after the gateway client stopped.
pub const RECONNECT_DELAY_MS: u64 = 300000;

/// The character of decimal digit `d`.
pub open spec fn digit_char(d: nat) -> char {
    (d + 48) as char
}

/// The decimal writing of `n`, most significant digit first, without leading zeros.
pub open spec fn decimal(n: nat) -> Seq<char>
    decreases n,
{
    if n < 10 {
        seq![digit_char(n)]
    } else {
        decimal(n / 10).push(digit_char(n % 10))
    }
}

fn digit(d: u64) -> (c: char)
    requires
        d < 10,
    ensures
        c == digit_char(d as nat),
{
    let b: u8 = 48u8 + (d as u8);
    b as char
}

/// The digits of `n` in decimal.
pub fn decimal_chars(n: u64) -> (digits: Vec<char>)
    ensures
        digits@ == decimal(n as nat),
    decreases n,
{
    let last = digit(n % 10);
    if n < 10 {
        vec![last]
    } else {
        let mut digits = decimal_chars(n / 10);
        digits.push(last);
        digits
    }
}

/// Whether `text` is the decimal writing of `n`.
pub fn is_decimal_of(text: &str, n: u64) -> (equal: bool)
    ensures
        equal == (text@ == decimal(n as nat)),
{
    let digits = decimal_chars(n);
    let len = text.unicode_len();
    if len != digits.len() {
        return false;
    }
    let mut i: usize = 0;
    while i < len
        invariant
            len == text@.len(),
            len == digits@.len(),
            digits@ == decimal(n as nat),
            i <= len,
            forall|j: int| 0 <= j < i ==> text@[j] == digits@[j],
        decreases len - i,
    {
        if text.get_char(i) != digits[i] {
            return false;
        }
        i = i + 1;
    }
    assert(text@ =~= digits@);
    true
}

/// What a chat message leads to.
#[derive(Debug)]
pub enum MessageOutcome {
    /// Written by a bot, or in another channel: nothing happens.
    Ignored,
    /// Written by a person in the watched channel, mentioning nobody: it is
    /// only noted.
    Noted,
    /// Written by a person in the watched channel: its author challenges the
    /// first person it mentions.
    Challenge(Fighters),
}

/// What a message leads to, from who wrote it, in which channel, and whom it
/// mentions (in order). The channel is watched when its id, written in
/// decimal, is `target_channel_id`.
pub fn message_outcome(
    author_is_bot: bool,
    channel_id: u64,
    target_channel_id: &str,
    author_name: &str,
    mention_names: &Vec<String>,
) -> (outcome: MessageOutcome)
    ensures
        author_is_bot || target_channel_id@ != decimal(channel_id as nat) ==> outcome is Ignored,
        !author_is_bot && target_channel_id@ == decimal(channel_id as nat) && mention_names@.len() == 0
            ==> outcome is Noted,
        !author_is_bot && target_channel_id@ == decimal(channel_id as nat) && mention_names@.len() > 0
            ==> (outcome matches MessageOutcome::Challenge(fighters) && fighters.fighter1@ == author_name@
            && fighters.fighter2 == mention_names@[0]),
{
    if !author_is_bot && is_decimal_of(target_channel_id, channel_id) {
        if mention_names.len() > 0 {
            MessageOutcome::Challenge(
                Fighters { fighter1: author_name.to_owned(), fighter2: mention_names[0].clone() },
            )
        } else {
            MessageOutcome::Noted
        }
    } else {
        MessageOutcome::Ignored
    }
}

/// `c` is one of the characters `0` to `9`.
pub open spec fn is_digit(c: char) -> bool {
    '0' <= c && c <= '9'
}

/// The number that the digits `s` write in base ten, most significant first.
pub open spec fn digits_value(s: Seq<char>) -> nat
    decreases s.len(),
{
    if s.len() == 0 {
        0
    } else {
        digits_value(s.drop_last()) * 10 + ((s.last() as int) - 48) as nat
    }
}

/// `s` is a decimal writing with no leading zero: one digit or more, all of
/// them `0` to `9`, and a first digit other than `0` unless `s` is `0`.
pub open spec fn is_canonical_decimal(s: Seq<char>) -> bool {
    &&& s.len() >= 1
    &&& forall|i: int| 0 <= i < s.len() ==> is_digit(#[trigger] s[i])
    &&& s.len() > 1 ==> s[0] != '0'
}

proof fn lemma_leading_digit_value(s: Seq<char>)
    requires
        s.len() >= 1,
        forall|i: int| 0 <= i < s.len() ==> is_digit(#[trigger] s[i]),
        s[0] != '0',
    ensures
        digits_value(s) >= 1,
    decreases s.len(),
{
    if s.len() > 1 {
        let t = s.drop_last();
        assert forall|i: int| 0 <= i < t.len() implies is_digit(#[trigger] t[i]) by {
            assert(t[i] == s[i]);
        }
        lemma_leading_digit_value(t);
    }
}

/// The decimal writing of `n` reads back as `n`: it is made of digits, has
/// no leading zero, and the number its digits write is `n`.
pub proof fn lemma_decimal_reads_back(n: nat)
    ensures
        is_canonical_decimal(decimal(n)),
        digits_value(decimal(n)) == n,
        n >= 1 ==> decimal(n)[0] != '0',
    decreases n,
{
    if n >= 10 {
        lemma_decimal_reads_back(n / 10);
        let s = decimal(n);
        let t = decimal(n / 10);
        assert(s.drop_last() =~= t);
        assert(s[0] == t[0]);
        assert(n / 10 >= 1);
        assert(n == (n / 10) * 10 + n % 10) by (nonlinear_arith);
        assert forall|i: int| 0 <= i < s.len() implies is_digit(#[trigger] s[i]) by {
            if i < t.len() {
                assert(s[i] == t[i]);
            }
        }
        assert((digit_char(n % 10) as int) == n % 10 + 48);
        assert(s.last() == digit_char(n % 10));
        assert(digits_value(s) == digits_value(t) * 10 + n % 10);
    } else {
        let s = decimal(n);
        assert(s == seq![digit_char(n)]);
        assert((digit_char(n) as int) == n + 48);
        assert(s.drop_last() =~= Seq::<char>::empty());
        assert(digits_value(s.drop_last()) == 0);
        assert(s.last() == digit_char(n));
        assert(is_digit(s[0]));
    }
}

/// The only decimal writing with no leading zero whose digits write `n` is
/// `decimal(n)`; so a channel id is watched exactly when the configured text
/// is the usual decimal writing of that id.
pub proof fn lemma_decimal_unique(s: Seq<char>, n: nat)
    requires
        is_canonical_decimal(s),
        digits_value(s) == n,
    ensures
        s == decimal(n),
    decreases s.len(),
{
    let d = ((s.last() as int) - 48) as nat;
    assert(is_digit(s[s.len() - 1]));
    if s.len() == 1 {
        assert(s.drop_last() =~= Seq::<char>::empty());
        assert(digits_value(s.drop_last()) == 0);
        assert(n == d);
        assert(s =~= seq![digit_char(n)]);
    } else {
        let t = s.drop_last();
        assert forall|i: int| 0 <= i < t.len() implies is_digit(#[trigger] t[i]) by {
            assert(t[i] == s[i]);
        }
        assert(t[0] == s[0]);
        lemma_leading_digit_value(t);
        let v = digits_value(t);
        assert(n == v * 10 + d);
        vstd::arithmetic::div_mod::lemma_fundamental_div_mod_converse(n as int, 10, v as int, d as int);
        lemma_decimal_unique(t, v);
        assert(n >= 10);
        assert(s =~= decimal(n / 10).push(digit_char(n % 10)));
    }
}

} // verus!
