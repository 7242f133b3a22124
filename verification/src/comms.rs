//! Messages of the comms board. A channel id arrives as a decimal string, since it exceeds the
//! integers that a browser keeps exactly.

use crate::protocol;
use crate::protocol::{ClientMessage, ClientMessageView};
use crate::text;
use vstd::prelude::*;

verus! {

/// The number that decimal digits stand for; none for an empty text or any other character.
pub open spec fn decimal(s: Seq<char>) -> Option<nat>
    decreases s.len(),
{
    if s.len() == 0 || !('0' <= s.last() <= '9') {
        None
    } else {
        let last = (s.last() as int - '0' as int) as nat;
        if s.len() == 1 {
            Some(last)
        } else {
            match decimal(s.drop_last()) {
                Some(n) => Some(n * 10 + last),
                None => None,
            }
        }
    }
}

/// The number that a text stands for: decimal digits, with a plus sign or without.
pub open spec fn number(s: Seq<char>) -> Option<nat> {
    if s.len() > 0 && s[0] == '+' {
        decimal(s.skip(1))
    } else {
        decimal(s)
    }
}

/// The channel that a text names: none for no text, else a number that fits 64 bits.
pub open spec fn channel_of(channel: Option<Seq<char>>) -> Result<Option<u64>, Seq<char>> {
    match channel {
        None => Ok(None),
        Some(s) => if s.len() == 0 {
            Ok(None)
        } else {
            match number(s) {
                Some(n) if n <= u64::MAX => Ok(Some(n as u64)),
                _ => Err("invalid channel id"@),
            }
        },
    }
}

/// A result with a string as its error, with the error's characters.
pub open spec fn err_text<T>(r: Result<T, String>) -> Result<T, Seq<char>> {
    match r {
        Ok(v) => Ok(v),
        Err(e) => Err(e@),
    }
}

/// Digits whose front is too large, or no digits, do not get better with more of them.
proof fn lemma_prefix(s: Seq<char>, i: int)
    requires
        0 < i <= s.len(),
        decimal(s.take(i)) is None || decimal(s.take(i))->0 > u64::MAX,
    ensures
        decimal(s) is None || decimal(s)->0 > u64::MAX,
    decreases s.len() - i,
{
    if i < s.len() {
        assert(s.take(i + 1).drop_last() =~= s.take(i));
        lemma_prefix(s, i + 1);
    } else {
        assert(s.take(i) =~= s);
    }
}

/// The number of decimal digits from an index on, when it fits.
fn parse_decimal(v: &Vec<char>, from: usize) -> (r: Option<u64>)
    requires
        from <= v@.len(),
    ensures
        r == match decimal(v@.skip(from as int)) {
            Some(n) if n <= u64::MAX => Some(n as u64),
            _ => None,
        },
{
    let ghost s = v@.skip(from as int);
    if from == v.len() {
        return None;
    }
    let mut n: u64 = 0;
    let mut i: usize = from;
    while i < v.len()
        invariant
            from <= i <= v@.len(),
            s == v@.skip(from as int),
            i == from ==> n == 0,
            i > from ==> decimal(s.take(i - from)) == Some(n as nat),
        decreases v@.len() - i,
    {
        let c = v[i];
        let ghost k = i - from;
        assert(s.take(k + 1).drop_last() =~= s.take(k));
        assert(s.take(k + 1).last() == c);
        if !('0' <= c && c <= '9') {
            proof {
                lemma_prefix(s, k + 1);
            }
            return None;
        }
        let d: u64 = (c as u32 - '0' as u32) as u64;
        match n.checked_mul(10) {
            Some(m) => match m.checked_add(d) {
                Some(sum) => {
                    n = sum;
                },
                None => {
                    proof {
                        lemma_prefix(s, k + 1);
                    }
                    return None;
                },
            },
            None => {
                proof {
                    lemma_prefix(s, k + 1);
                }
                return None;
            },
        }
        i += 1;
    }
    assert(s.take(i - from) =~= s);
    Some(n)
}

/// The channel that a text names. No text, or an empty one, is the op's ready room.
pub fn parse_comms_channel(channel: Option<String>) -> (r: Result<Option<u64>, String>)
    ensures
        err_text(r) == channel_of(protocol::text_of(channel)),
{
    let s = match channel {
        Some(s) => s,
        None => return Ok(None),
    };
    let v: Vec<char> = text::chars_of(s.as_str());
    if v.len() == 0 {
        return Ok(None);
    }
    let from: usize = if v[0] == '+' {
        1
    } else {
        0
    };
    assert(v@.skip(0) =~= v@);
    match parse_decimal(&v, from) {
        Some(n) => Ok(Some(n)),
        None => Err("invalid channel id".to_string()),
    }
}

/// What a message or an error says.
pub open spec fn message_view(
    r: Result<ClientMessage, String>,
) -> Result<ClientMessageView, Seq<char>> {
    match r {
        Ok(m) => Ok(m@),
        Err(e) => Err(e@),
    }
}

/// The message that posts a quick action, or why there is none.
pub open spec fn quick_post(
    channel: Option<Seq<char>>,
    action: Seq<char>,
) -> Result<ClientMessageView, Seq<char>> {
    match channel_of(channel) {
        Ok(channel) => Ok(ClientMessageView::SendQuickAction { channel, action }),
        Err(e) => Err(e),
    }
}

/// The message that posts free text, or why there is none.
pub open spec fn text_post(
    channel: Option<Seq<char>>,
    text: Seq<char>,
) -> Result<ClientMessageView, Seq<char>> {
    match channel_of(channel) {
        Ok(channel) => Ok(ClientMessageView::SendText { channel, text }),
        Err(e) => Err(e),
    }
}

/// The message that posts a quick action.
pub fn quick_action_message(channel: Option<String>, action: String) -> (r: Result<
    ClientMessage,
    String,
>)
    ensures
        message_view(r) == match channel_of(protocol::text_of(channel)) {
            Ok(channel) => Ok(
                ClientMessageView::SendQuickAction { channel, action: action@ },
            ),
            Err(e) => Err(e),
        },
        message_view(r) == quick_post(protocol::text_of(channel), action@),
{
    match parse_comms_channel(channel) {
        Ok(channel) => Ok(ClientMessage::SendQuickAction { channel, action }),
        Err(e) => Err(e),
    }
}

/// The message that posts free text.
pub fn text_message(channel: Option<String>, text: String) -> (r: Result<ClientMessage, String>)
    ensures
        message_view(r) == match channel_of(protocol::text_of(channel)) {
            Ok(channel) => Ok(ClientMessageView::SendText { channel, text: text@ }),
            Err(e) => Err(e),
        },
        message_view(r) == text_post(protocol::text_of(channel), text@),
{
    match parse_comms_channel(channel) {
        Ok(channel) => Ok(ClientMessage::SendText { channel, text }),
        Err(e) => Err(e),
    }
}

/// A number in decimal digits.
pub open spec fn decimal_text(n: nat) -> Seq<char>
    decreases n,
{
    let last = ('0' as int + n % 10) as char;
    if n < 10 {
        seq![last]
    } else {
        decimal_text(n / 10).push(last)
    }
}

/// A number's digits stand for that number.
proof fn lemma_decimal_text(n: nat)
    ensures
        decimal(decimal_text(n)) == Some(n),
        decimal_text(n).len() > 0,
        '0' <= decimal_text(n)[0] <= '9',
    decreases n,
{
    if n >= 10 {
        lemma_decimal_text(n / 10);
        let s = decimal_text(n);
        assert(s.drop_last() =~= decimal_text(n / 10));
    }
}

/// Every channel id survives as its decimal string, the largest included.
pub proof fn law_channel_round_trip(id: u64)
    ensures
        channel_of(Some(decimal_text(id as nat))) == Ok::<Option<u64>, Seq<char>>(Some(id)),
{
    lemma_decimal_text(id as nat);
}

/// Digits stand for a number place by place: one more digit is ten times the number and the digit.
/// A text with anything else in it stands for none.
pub proof fn law_digits(s: Seq<char>)
    ensures
        decimal(s) is Some <==> s.len() > 0 && (forall|j: int|
            0 <= j < s.len() ==> '0' <= #[trigger] s[j] <= '9'),
        s.len() > 1 && decimal(s) is Some ==> decimal(s.drop_last()) is Some && decimal(s)->0
            == decimal(s.drop_last())->0 * 10 + (s.last() as int - 48),
        s.len() == 1 && '0' <= s[0] <= '9' ==> decimal(s) == Some((s[0] as int - 48) as nat),
    decreases s.len(),
{
    if s.len() > 1 {
        law_digits(s.drop_last());
        if forall|j: int| 0 <= j < s.len() ==> '0' <= #[trigger] s[j] <= '9' {
            assert forall|j: int| 0 <= j < s.drop_last().len() implies '0'
                <= #[trigger] s.drop_last()[j] <= '9' by {
                assert(s.drop_last()[j] == s[j]);
            }
            assert('0' <= s[s.len() - 1] <= '9');
        }
        if decimal(s) is Some {
            assert forall|j: int| 0 <= j < s.len() implies '0' <= #[trigger] s[j] <= '9' by {
                if j < s.len() - 1 {
                    assert(s[j] == s.drop_last()[j]);
                }
            }
        }
    }
}

/// A channel is named by digits alone, with a plus sign or without, and by no number past 64 bits:
/// any other text is refused. No text, or an empty one, names the op's ready room.
pub proof fn law_channel(s: Seq<char>)
    ensures
        channel_of(None) == Ok::<Option<u64>, Seq<char>>(None),
        s.len() == 0 ==> channel_of(Some(s)) == Ok::<Option<u64>, Seq<char>>(None),
        s.len() > 0 ==> channel_of(Some(s)) != Ok::<Option<u64>, Seq<char>>(None),
        s.len() > 0 && s[0] != '+' ==> (match decimal(s) {
            Some(n) if n <= 0xFFFF_FFFF_FFFF_FFFF => channel_of(Some(s)) == Ok::<
                Option<u64>,
                Seq<char>,
            >(Some(n as u64)),
            _ => channel_of(Some(s)) == Err::<Option<u64>, Seq<char>>("invalid channel id"@),
        }),
        s.len() > 0 && s[0] != '+' && decimal(s) is Some ==> channel_of(Some(seq!['+'] + s))
            == channel_of(Some(s)),
        s.len() > 0 && s[0] == '+' && decimal(s.skip(1)) is None ==> channel_of(Some(s)) is Err,
{
    assert((seq!['+'] + s).skip(1) =~= s);
}

/// A post carries just what was written, to just the channel that was named; where the channel is
/// refused nothing is posted.
pub proof fn law_post_is_what_was_written(channel: Option<Seq<char>>, words: Seq<char>)
    ensures
        quick_post(channel, words) is Ok == channel_of(channel) is Ok,
        text_post(channel, words) is Ok == channel_of(channel) is Ok,
        quick_post(channel, words) matches Ok(m) ==> (m matches ClientMessageView::SendQuickAction {
            channel: to,
            action,
        } && action == words && channel_of(channel) == Ok::<Option<u64>, Seq<char>>(to)),
        text_post(channel, words) matches Ok(m) ==> (m matches ClientMessageView::SendText {
            channel: to,
            text,
        } && text == words && channel_of(channel) == Ok::<Option<u64>, Seq<char>>(to)),
{
}

} // verus!
