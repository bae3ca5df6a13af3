//! Laws of text, of JSON members and of lists that are worked through.
use vstd::prelude::*;

use crate::json::{member_of, JsonModel, MemberModel};
use crate::lists::{collected, lemma_collected_ok};
use crate::text::{
    decimal_text, digit_char, joined, lower_char, lower_text, occurs_at, occurs_in, pieces,
    trim_left, trim_right, trim_text, white,
};

verus! {

// ---------------------------------------------------------------------------------------------
// Numbers

/// The number that some decimal digits stand for.
pub open spec fn number_of(digits: Seq<char>) -> int
    decreases digits.len(),
{
    if digits.len() == 0 {
        0
    } else {
        number_of(digits.drop_last()) * 10 + (digits.last() as int - '0' as int)
    }
}

/// A number is written in decimal digits, without leading zeros, and reads back as itself.
pub proof fn law_numbers_read_back(n: nat)
    ensures
        number_of(decimal_text(n)) == n,
        decimal_text(n).len() > 0,
        forall|i: int|
            0 <= i < decimal_text(n).len() ==> '0' <= #[trigger] decimal_text(n)[i] <= '9',
        n > 0 ==> decimal_text(n)[0] != '0',
        decimal_text(0) == seq!['0'],
    decreases n,
{
    reveal_with_fuel(number_of, 2);
    let text = decimal_text(n);
    if n < 10 {
        assert(text.drop_last() =~= Seq::empty());
        assert(text.last() == digit_char(n));
    } else {
        law_numbers_read_back(n / 10);
        assert(text.drop_last() =~= decimal_text(n / 10));
        assert(text.last() == digit_char(n % 10));
        assert(text[0] == decimal_text(n / 10)[0]);
        assert forall|i: int| 0 <= i < text.len() implies '0' <= #[trigger] text[i] <= '9' by {
            if i < text.len() - 1 {
                assert(text[i] == decimal_text(n / 10)[i]);
            }
        }
    }
}

// ---------------------------------------------------------------------------------------------
// Blanks

/// The blanks: tabs, line ends, spaces of every width and the separators of lines and paragraphs.
pub open spec fn is_blank_char(c: char) -> bool {
    ||| c == '\t' || c == '\n' || c == '\u{b}' || c == '\u{c}' || c == '\r' || c == ' '
    ||| c == '\u{85}' || c == '\u{a0}' || c == '\u{1680}'
    ||| c == '\u{2000}' || c == '\u{2001}' || c == '\u{2002}' || c == '\u{2003}'
    ||| c == '\u{2004}' || c == '\u{2005}' || c == '\u{2006}' || c == '\u{2007}'
    ||| c == '\u{2008}' || c == '\u{2009}' || c == '\u{200a}'
    ||| c == '\u{2028}' || c == '\u{2029}' || c == '\u{202f}' || c == '\u{205f}'
    ||| c == '\u{3000}'
}

/// Exactly the blanks are trimmed; no printable character of ASCII is one.
pub proof fn law_blanks(c: char)
    ensures
        white(c) <==> is_blank_char(c),
        '!' <= c <= '~' ==> !white(c),
{
}

proof fn lemma_trim_left(s: Seq<char>)
    ensures
        exists|n: int|
            0 <= n <= s.len() && #[trigger] s.skip(n) == trim_left(s) && forall|i: int|
                0 <= i < n ==> white(#[trigger] s[i]),
        trim_left(s).len() > 0 ==> !white(trim_left(s)[0]),
    decreases s.len(),
{
    if s.len() > 0 && white(s[0]) {
        let rest = s.drop_first();
        lemma_trim_left(rest);
        let n = choose|n: int|
            0 <= n <= rest.len() && #[trigger] rest.skip(n) == trim_left(rest) && forall|i: int|
                0 <= i < n ==> white(#[trigger] rest[i]);
        assert(s.skip(n + 1) =~= rest.skip(n));
        assert forall|i: int| 0 <= i < n + 1 implies white(#[trigger] s[i]) by {
            if i > 0 {
                assert(rest[i - 1] == s[i]);
            }
        }
    } else {
        assert(s.skip(0) =~= s);
    }
}

proof fn lemma_trim_right(s: Seq<char>)
    ensures
        exists|n: int|
            0 <= n <= s.len() && #[trigger] s.take(n) == trim_right(s) && forall|i: int|
                n <= i < s.len() ==> white(#[trigger] s[i]),
        trim_right(s).len() > 0 ==> !white(trim_right(s).last()),
    decreases s.len(),
{
    if s.len() > 0 && white(s.last()) {
        let rest = s.drop_last();
        lemma_trim_right(rest);
        let n = choose|n: int|
            0 <= n <= rest.len() && #[trigger] rest.take(n) == trim_right(rest) && forall|i: int|
                n <= i < rest.len() ==> white(#[trigger] rest[i]);
        assert(s.take(n) =~= rest.take(n));
        assert forall|i: int| n <= i < s.len() implies white(#[trigger] s[i]) by {
            if i < rest.len() {
                assert(rest[i] == s[i]);
            }
        }
    } else {
        assert(s.take(s.len() as int) =~= s);
    }
}

/// Trimming cuts the blanks at both ends off and nothing else.
pub proof fn law_trimming_cuts_blanks(s: Seq<char>)
    ensures
        exists|a: int, b: int|
            #![trigger s.subrange(a, b)]
            0 <= a <= b <= s.len() && s.subrange(a, b) == trim_text(s) && (forall|i: int|
                0 <= i < a ==> white(#[trigger] s[i])) && (forall|i: int|
                b <= i < s.len() ==> white(#[trigger] s[i])),
        trim_text(s).len() > 0 ==> !white(trim_text(s)[0]) && !white(trim_text(s).last()),
{
    lemma_trim_left(s);
    let left = trim_left(s);
    let a = choose|n: int|
        0 <= n <= s.len() && #[trigger] s.skip(n) == left && forall|i: int|
            0 <= i < n ==> white(#[trigger] s[i]);
    lemma_trim_right(left);
    let m = choose|n: int|
        0 <= n <= left.len() && #[trigger] left.take(n) == trim_right(left) && forall|i: int|
            n <= i < left.len() ==> white(#[trigger] left[i]);
    assert(s.subrange(a, a + m) =~= left.take(m));
    assert forall|i: int| a + m <= i < s.len() implies white(#[trigger] s[i]) by {
        assert(left[i - a] == s[i]);
    }
    if trim_text(s).len() > 0 {
        assert(trim_text(s)[0] == left[0]);
    }
}

// ---------------------------------------------------------------------------------------------
// Pieces

/// The pieces of a text hold no separator, and put together with it they are the text.
pub proof fn law_pieces_are_the_text(s: Seq<char>, separator: char)
    ensures
        pieces(s, separator).len() > 0,
        joined(pieces(s, separator), seq![separator]) == s,
        forall|i: int|
            0 <= i < pieces(s, separator).len() ==> !(
            #[trigger] pieces(s, separator)[i]).contains(separator),
    decreases s.len(),
{
    let all = pieces(s, separator);
    reveal_with_fuel(joined, 2);
    if s.len() > 0 {
        let front = s.drop_last();
        law_pieces_are_the_text(front, separator);
        let before = pieces(front, separator);
        if s.last() == separator {
            assert(all.drop_last() =~= before);
            assert(joined(all, seq![separator]) == joined(before, seq![separator])
                + seq![separator] + Seq::<char>::empty());
            assert(s =~= front + seq![separator] + Seq::<char>::empty());
        } else {
            assert(all.drop_last() =~= before.drop_last());
            assert(all.last() == before.last().push(s.last()));
            if before.len() == 1 {
                assert(before[0] == front);
                assert(s =~= front.push(s.last()));
            } else {
                let head = joined(before.drop_last(), seq![separator]) + seq![separator];
                assert(head + before.last().push(s.last()) =~= (head + before.last()).push(
                    s.last(),
                ));
                assert(s =~= front.push(s.last()));
            }
            assert forall|i: int| 0 <= i < all.len() implies !(
            #[trigger] all[i]).contains(separator) by {
                if i < all.len() - 1 {
                    assert(all[i] == before[i]);
                } else {
                    let tail = before.last();
                    assert(!tail.contains(separator));
                    if all[i].contains(separator) {
                        let k = choose|k: int| 0 <= k < all[i].len() && all[i][k] == separator;
                        if k < tail.len() {
                            assert(tail[k] == separator);
                        }
                    }
                }
            }
        }
    }
}

/// Parts are joined in order, with the separator between any two.
pub proof fn law_parts_are_joined_in_order(
    parts: Seq<Seq<char>>,
    last: Seq<char>,
    separator: Seq<char>,
)
    ensures
        joined(Seq::<Seq<char>>::empty(), separator).len() == 0,
        parts.len() == 0 ==> joined(parts.push(last), separator) == last,
        parts.len() > 0 ==> joined(parts.push(last), separator) == joined(parts, separator)
            + separator + last,
{
    assert(parts.push(last).drop_last() =~= parts);
}

/// A pattern occurs in a text exactly if the text is something, the pattern and something.
pub proof fn law_occurrence(s: Seq<char>, pattern: Seq<char>, a: Seq<char>, b: Seq<char>)
    ensures
        s == a + pattern + b ==> occurs_at(s, pattern, a.len() as int) && occurs_in(s, pattern),
        occurs_in(s, pattern) ==> exists|x: Seq<char>, y: Seq<char>| #[trigger] (x + pattern + y)
            == s,
{
    if s == a + pattern + b {
        let n = a.len() as int;
        assert(s.subrange(n, n + pattern.len()) =~= pattern);
        assert(occurs_at(s, pattern, n));
    }
    if occurs_in(s, pattern) {
        let i = choose|i: int| #[trigger] occurs_at(s, pattern, i);
        let x = s.take(i);
        let y = s.skip(i + pattern.len());
        assert(s =~= x + s.subrange(i, i + pattern.len()) + y);
        assert(x + pattern + y == s);
    }
}

/// Capital letters of ASCII become small ones; every other character stays.
pub proof fn law_small_letters(c: char, s: Seq<char>)
    ensures
        'A' <= c <= 'Z' ==> lower_char(c) as u32 == c as u32 + 32,
        !('A' <= c <= 'Z') ==> lower_char(c) == c,
        lower_text(s).len() == s.len(),
        forall|i: int| 0 <= i < s.len() ==> #[trigger] lower_text(s)[i] == lower_char(s[i]),
{
}

// ---------------------------------------------------------------------------------------------
// Members

/// The member of an object is the first one under its name, and there is none where no member has
/// the name. What is no object has no members.
pub proof fn law_first_member_counts(members: Seq<MemberModel>, key: Seq<char>, i: int)
    ensures
        0 <= i < members.len() && members[i].key == key && (forall|j: int|
            0 <= j < i ==> (#[trigger] members[j]).key != key) ==> member_of(
            JsonModel::Object(members),
            key,
        ) == Some(members[i].value),
        (forall|j: int| 0 <= j < members.len() ==> (#[trigger] members[j]).key != key)
            ==> member_of(JsonModel::Object(members), key) is None,
        forall|value: JsonModel|
            !(value is Object) ==> (#[trigger] member_of(value, key)) is None,
    decreases members.len(),
{
    if members.len() > 0 {
        let rest = members.drop_first();
        law_first_member_counts(rest, key, i - 1);
        assert forall|j: int| 0 <= j < rest.len() implies rest[j] == members[j + 1] by {}
        if 0 <= i < members.len() && members[i].key == key && (forall|j: int|
            0 <= j < i ==> (#[trigger] members[j]).key != key) {
            if i > 0 {
                assert(members[0].key != key);
                assert(rest[i - 1] == members[i]);
                assert forall|j: int| 0 <= j < i - 1 implies (#[trigger] rest[j]).key != key by {
                    assert(rest[j] == members[j + 1]);
                }
            }
        }
        if forall|j: int| 0 <= j < members.len() ==> (#[trigger] members[j]).key != key {
            assert forall|j: int| 0 <= j < rest.len() implies (#[trigger] rest[j]).key != key by {
                assert(rest[j] == members[j + 1]);
            }
        }
    }
}

// ---------------------------------------------------------------------------------------------
// Lists

/// Working a list through succeeds exactly if every item does, and then gives every result in
/// order; otherwise the problem of the first item that fails is given.
pub proof fn law_lists_are_worked_through<A, B, E>(
    items: Seq<A>,
    f: spec_fn(A) -> Result<B, E>,
    i: int,
)
    ensures
        collected(items, f) is Ok <==> forall|k: int|
            0 <= k < items.len() ==> f(#[trigger] items[k]) is Ok,
        collected(items, f) is Ok ==> collected(items, f)->Ok_0.len() == items.len() && forall|
            k: int,
        |
            0 <= k < items.len() ==> f(items[k]) == Ok::<B, E>(
                #[trigger] collected(items, f)->Ok_0[k],
            ),
        0 <= i < items.len() && f(items[i]) is Err && (forall|k: int|
            0 <= k < i ==> f(#[trigger] items[k]) is Ok) ==> collected(items, f) == Err::<
            Seq<B>,
            E,
        >(f(items[i])->Err_0),
    decreases items.len(),
{
    if items.len() > 0 {
        let front = items.drop_last();
        let last = items.last();
        law_lists_are_worked_through(front, f, i);
        assert forall|k: int| 0 <= k < front.len() implies front[k] == items[k] by {}
        if forall|k: int| 0 <= k < items.len() ==> f(#[trigger] items[k]) is Ok {
            assert forall|k: int| 0 <= k < front.len() implies f(#[trigger] front[k]) is Ok by {
                assert(front[k] == items[k]);
            }
            assert(f(items[items.len() - 1]) is Ok);
        }
        if collected(items, f) is Ok {
            assert(collected(front, f) is Ok);
            assert forall|k: int| 0 <= k < items.len() implies f(#[trigger] items[k]) is Ok by {
                if k < front.len() {
                    assert(front[k] == items[k]);
                }
            }
            lemma_collected_ok(items, f);
        }
        if 0 <= i < items.len() && f(items[i]) is Err && (forall|k: int|
            0 <= k < i ==> f(#[trigger] items[k]) is Ok) {
            if i < front.len() {
                assert(front[i] == items[i]);
                assert forall|k: int| 0 <= k < i implies f(#[trigger] front[k]) is Ok by {
                    assert(front[k] == items[k]);
                }
            } else {
                assert forall|k: int| 0 <= k < front.len() implies f(#[trigger] front[k]) is Ok by {
                    assert(front[k] == items[k]);
                }
            }
        }
    }
}

} // verus!
