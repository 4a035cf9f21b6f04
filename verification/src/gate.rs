//! The allow-list: who may have commands run.

use vstd::prelude::*;
use crate::text::chars_of;

verus! {

/// Whether `sender` is one of the identities in `allowed`.
pub fn authorize(sender: i64, allowed: &Vec<i64>) -> (granted: bool)
    ensures
        granted == allowed@.contains(sender),
{
    let mut i: usize = 0;
    while i < allowed.len()
        invariant
            i <= allowed.len(),
            forall|j: int| 0 <= j < i ==> allowed@[j] != sender,
        decreases allowed.len() - i,
    {
        if allowed[i] == sender {
            return true;
        }
        i += 1;
    }
    false
}

/// The pieces of `text` between its blanks, read letter by letter: a blank
/// ends a piece and begins the next, any other letter joins the piece that
/// is being read. A text without a blank is one piece, and two blanks in a
/// row have an empty piece between them.
pub open spec fn pieces(text: Seq<char>) -> Seq<Seq<char>>
    decreases text.len(),
{
    if text.len() == 0 {
        seq![Seq::empty()]
    } else {
        let before = pieces(text.drop_last());
        if text.last() == ' ' {
            before.push(Seq::empty())
        } else {
            before.drop_last().push(before.last().push(text.last()))
        }
    }
}

/// Whether `c` is one of the ten decimal digits.
pub open spec fn is_digit(c: char) -> bool {
    '0' <= c && c <= '9'
}

/// Whether `text` holds decimal digits and nothing else.
pub open spec fn all_digits(text: Seq<char>) -> bool {
    forall|i: int| 0 <= i < text.len() ==> is_digit(#[trigger] text[i])
}

/// The number that a row of decimal digits spells.
pub open spec fn number(digits: Seq<char>) -> int
    decreases digits.len(),
{
    if digits.len() == 0 {
        0
    } else {
        number(digits.drop_last()) * 10 + (digits.last() as int - '0' as int)
    }
}

/// Whether `piece` begins with a sign.
pub open spec fn is_signed(piece: Seq<char>) -> bool {
    piece.len() > 0 && (piece[0] == '-' || piece[0] == '+')
}

/// The digits of `piece`: all of it but the sign.
pub open spec fn digits_of(piece: Seq<char>) -> Seq<char> {
    if is_signed(piece) {
        piece.skip(1)
    } else {
        piece
    }
}

/// The integer that `piece` spells: one decimal digit or more, after `-`,
/// `+` or no sign.
pub open spec fn integer(piece: Seq<char>) -> Option<int> {
    let digits = digits_of(piece);
    if digits.len() > 0 && all_digits(digits) {
        if piece[0] == '-' {
            Some(-number(digits))
        } else {
            Some(number(digits))
        }
    } else {
        None
    }
}

/// The identity that `piece` spells: an integer in the range of `i64`.
pub open spec fn identity(piece: Seq<char>) -> Option<i64> {
    match integer(piece) {
        Some(value) => if i64::MIN <= value <= i64::MAX {
            Some(value as i64)
        } else {
            None
        },
        None => None,
    }
}

/// The identities that the pieces spell, where each of them spells one.
pub open spec fn identities_of(list: Seq<Seq<char>>) -> Option<Seq<i64>> {
    if forall|i: int| 0 <= i < list.len() ==> identity(#[trigger] list[i]) is Some {
        Some(Seq::new(list.len(), |i: int| identity(list[i])->0))
    } else {
        None
    }
}

/// The allow-list that `text` spells: identities with one blank between
/// each two. No piece may be empty, so the empty text spells no list.
pub open spec fn allow_list(text: Seq<char>) -> Option<Seq<i64>> {
    identities_of(pieces(text))
}

/// The pieces with one blank between each two.
pub open spec fn joined(list: Seq<Seq<char>>) -> Seq<char>
    decreases list.len(),
{
    if list.len() == 0 {
        Seq::empty()
    } else if list.len() == 1 {
        list[0]
    } else {
        joined(list.drop_last()) + seq![' '] + list.last()
    }
}

/// The pieces of a text are what lies between its blanks: none of them
/// holds a blank, and with the blanks back between them they are the text.
pub proof fn law_pieces_split_at_blanks(text: Seq<char>)
    ensures
        pieces(text).len() >= 1,
        forall|i: int| 0 <= i < pieces(text).len() ==> !(#[trigger] pieces(text)[i]).contains(' '),
        joined(pieces(text)) == text,
    decreases text.len(),
{
    if text.len() == 0 {
        assert(joined(pieces(text)) =~= text);
    } else {
        let shorter = text.drop_last();
        let before = pieces(shorter);
        let last = text.last();
        law_pieces_split_at_blanks(shorter);
        assert(shorter.push(last) =~= text);
        if last == ' ' {
            let now = before.push(Seq::empty());
            assert(now.drop_last() =~= before);
            assert(joined(now) =~= text);
        } else {
            let grown = before.last().push(last);
            let now = before.drop_last().push(grown);
            assert(now.drop_last() =~= before.drop_last());
            assert(!before.last().contains(' '));
            assert(!grown.contains(' ')) by {
                if grown.contains(' ') {
                    let k = choose|k: int| 0 <= k < grown.len() && grown[k] == ' ';
                    if k < before.last().len() {
                        assert(before.last()[k] == ' ');
                    }
                }
            }
            assert forall|i: int| 0 <= i < now.len() implies !(#[trigger] now[i]).contains(' ') by {
                if i < now.len() - 1 {
                    assert(now[i] == before[i]);
                }
            }
            if before.len() == 1 {
                assert(joined(now) =~= text);
            } else {
                assert(joined(now) =~= joined(before).push(last));
            }
        }
    }
}

/// The number that a row of digits spells is no smaller than the number
/// that any beginning of the row spells.
proof fn lemma_number_grows(digits: Seq<char>, n: int)
    requires
        all_digits(digits),
        0 <= n <= digits.len(),
    ensures
        0 <= number(digits.take(n)) <= number(digits),
    decreases digits.len(),
{
    if digits.len() == 0 {
        assert(digits.take(n) =~= digits);
    } else if n == digits.len() {
        assert(digits.take(n) =~= digits);
        lemma_number_grows(digits.drop_last(), n - 1);
        assert(is_digit(digits.last()));
    } else {
        assert(all_digits(digits.drop_last())) by {
            assert forall|i: int| 0 <= i < digits.drop_last().len() implies is_digit(
                #[trigger] digits.drop_last()[i],
            ) by {
                assert(is_digit(digits[i]));
            }
        }
        lemma_number_grows(digits.drop_last(), n);
        assert(digits.drop_last().take(n) =~= digits.take(n));
        assert(is_digit(digits.last()));
    }
}

/// Reads the identity that `piece` spells.
pub fn parse_identity(piece: &str) -> (id: Option<i64>)
    ensures
        id == identity(piece@),
{
    read_identity(&chars_of(piece))
}

fn read_identity(piece: &Vec<char>) -> (id: Option<i64>)
    ensures
        id == identity(piece@),
{
    let n = piece.len();
    if n == 0 {
        return None;
    }
    let negative = piece[0] == '-';
    let start: usize = if piece[0] == '-' || piece[0] == '+' {
        1
    } else {
        0
    };
    if start == n {
        return None;
    }
    let ghost digits = digits_of(piece@);
    assert(digits =~= piece@.skip(start as int));
    let limit: u64 = 0x8000_0000_0000_0000;
    let mut magnitude: u64 = 0;
    let mut k: usize = start;
    while k < n
        invariant
            start <= k <= n,
            n == piece.len(),
            digits == piece@.skip(start as int),
            digits == digits_of(piece@),
            limit == 0x8000_0000_0000_0000u64,
            all_digits(digits.take(k - start)),
            magnitude == number(digits.take(k - start)),
            magnitude <= limit,
        decreases n - k,
    {
        let c = piece[k];
        let ghost seen = digits.take(k - start);
        let ghost more = digits.take(k - start + 1);
        assert(more.drop_last() =~= seen);
        assert(more.last() == c);
        assert(digits[k - start] == c);
        if c < '0' || c > '9' {
            assert(!is_digit(digits[k - start]));
            return None;
        }
        assert(all_digits(more)) by {
            assert forall|i: int| 0 <= i < more.len() implies is_digit(#[trigger] more[i]) by {
                if i < seen.len() {
                    assert(is_digit(seen[i]));
                }
            }
        }
        let d: u64 = (c as u32 - '0' as u32) as u64;
        if magnitude > (limit - d) / 10 {
            proof {
                assert(number(more) > limit);
                if all_digits(digits) {
                    lemma_number_grows(digits, k - start + 1);
                }
            }
            return None;
        }
        magnitude = magnitude * 10 + d;
        k += 1;
    }
    assert(digits.take(k - start) =~= digits);
    if negative {
        if magnitude == limit {
            Some(i64::MIN)
        } else {
            Some(-(magnitude as i64))
        }
    } else if magnitude == limit {
        None
    } else {
        Some(magnitude as i64)
    }
}

/// Reads the allow-list that `text` spells.
pub fn parse_allow_list(text: &str) -> (list: Option<Vec<i64>>)
    ensures
        match list {
            Some(ids) => allow_list(text@) == Some(ids@),
            None => allow_list(text@) is None,
        },
{
    let chars = chars_of(text);
    let mut ids: Vec<i64> = Vec::new();
    let mut piece: Vec<char> = Vec::new();
    let ghost mut done: Seq<Seq<char>> = Seq::empty();
    let mut i: usize = 0;
    assert(chars@.take(0) =~= Seq::<char>::empty());
    while i < chars.len()
        invariant
            i <= chars.len(),
            chars@ == text@,
            pieces(chars@.take(i as int)) == done.push(piece@),
            ids@.len() == done.len(),
            forall|j: int| 0 <= j < done.len() ==> identity(#[trigger] done[j]) == Some(ids@[j]),
        decreases chars.len() - i,
    {
        let c = chars[i];
        let ghost read = chars@.take(i + 1);
        assert(read.drop_last() =~= chars@.take(i as int));
        assert(done.push(piece@).drop_last() =~= done);
        if c == ' ' {
            match read_identity(&piece) {
                Some(id) => {
                    ids.push(id);
                    proof {
                        done = done.push(piece@);
                    }
                    piece = Vec::new();
                },
                None => {
                    proof {
                        lemma_pieces_stay(chars@, i + 1, done.len() as int);
                    }
                    return None;
                },
            }
        } else {
            piece.push(c);
        }
        i += 1;
    }
    assert(chars@.take(i as int) =~= chars@);
    let ghost all = done.push(piece@);
    match read_identity(&piece) {
        Some(id) => {
            ids.push(id);
            assert forall|j: int| 0 <= j < all.len() implies identity(#[trigger] all[j]) is Some by {
                if j < done.len() {
                    assert(identity(done[j]) == Some(ids@[j]));
                }
            }
            assert(ids@ =~= identities_of(all)->0);
            Some(ids)
        },
        None => {
            assert(identity(all[done.len() as int]) is None);
            None
        },
    }
}

/// A piece that a blank has ended stays as it is, whatever follows.
proof fn lemma_pieces_stay(text: Seq<char>, n: int, k: int)
    requires
        0 <= n <= text.len(),
        0 <= k < pieces(text.take(n)).len() - 1,
    ensures
        k < pieces(text).len() - 1,
        pieces(text)[k] == pieces(text.take(n))[k],
    decreases text.len() - n,
{
    if n == text.len() {
        assert(text.take(n) =~= text);
    } else {
        let next = text.take(n + 1);
        assert(next.drop_last() =~= text.take(n));
        lemma_pieces_stay(text, n + 1, k);
    }
}

} // verus!
