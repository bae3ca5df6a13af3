//! Laws of paths: how they are put together and what lies inside what.
use vstd::prelude::*;

use crate::paths::{absolute, components, named_segments, same_path, within};
use crate::text::pieces;
use crate::uploads::file_name;

verus! {

/// The pieces of two texts with a separator between them are the pieces of the one and then those
/// of the other.
pub proof fn law_pieces_of_both(a: Seq<char>, b: Seq<char>, separator: char)
    ensures
        pieces(a + seq![separator] + b, separator) == pieces(a, separator) + pieces(b, separator),
    decreases b.len(),
{
    let whole = a + seq![separator] + b;
    crate::text::lemma_pieces_nonempty(b, separator);
    if b.len() == 0 {
        assert(whole =~= a.push(separator));
        assert(a.push(separator).drop_last() =~= a);
        assert(pieces(a, separator).push(Seq::<char>::empty()) =~= pieces(a, separator) + seq![
            Seq::<char>::empty(),
        ]);
    } else {
        let front = b.drop_last();
        law_pieces_of_both(a, front, separator);
        crate::text::lemma_pieces_nonempty(front, separator);
        assert(whole.drop_last() =~= a + seq![separator] + front);
        assert(whole.last() == b.last());
        let before = pieces(a, separator) + pieces(front, separator);
        if b.last() == separator {
            assert(before.push(Seq::<char>::empty()) =~= pieces(a, separator) + pieces(
                front,
                separator,
            ).push(Seq::<char>::empty()));
        } else {
            let tail = pieces(front, separator);
            assert(before.last() == tail.last());
            assert(before.update(before.len() - 1, before.last().push(b.last())) =~= pieces(
                a,
                separator,
            ) + tail.update(tail.len() - 1, tail.last().push(b.last())));
        }
    }
}

/// A text without the separator is its only piece.
pub proof fn law_one_piece(s: Seq<char>, separator: char)
    requires
        !s.contains(separator),
    ensures
        pieces(s, separator) == seq![s],
    decreases s.len(),
{
    if s.len() == 0 {
        assert(s =~= Seq::empty());
    } else {
        let front = s.drop_last();
        assert(s[s.len() - 1] != separator) by {
            assert(s.contains(s[s.len() - 1]));
        }
        assert(!front.contains(separator)) by {
            if front.contains(separator) {
                let k = choose|k: int| 0 <= k < front.len() && front[k] == separator;
                assert(s[k] == separator);
            }
        }
        law_one_piece(front, separator);
        assert(front.push(s.last()) =~= s);
        assert(seq![front].update(0, s) =~= seq![s]);
    }
}

/// Whether a text is the name of one file or directory.
pub open spec fn plain_name(name: Seq<char>) -> bool {
    name.len() > 0 && !name.contains('/') && name != "."@ && name != ".."@
}

/// A path behind a name: the segments of a directory, and then the name.
pub proof fn law_names_extend_paths(directory: Seq<char>, name: Seq<char>)
    requires
        plain_name(name),
    ensures
        named_segments(name) == seq![name],
        named_segments(directory + seq!['/'] + name) == named_segments(directory).push(name),
        file_name(name) == Some(name),
        file_name(directory + seq!['/'] + name) == Some(name),
{
    reveal(Seq::filter);
    let pred = |part: Seq<char>| part.len() > 0 && part != "."@;
    law_pieces_of_both(directory, name, '/');
    law_one_piece(name, '/');
    let front = pieces(directory, '/');
    assert(front + seq![name] =~= front.push(name));
    assert(front.push(name).drop_last() =~= front);
    let one = seq![name];
    assert(one.drop_last() =~= Seq::<Seq<char>>::empty());
    assert(one.drop_last().filter(pred) =~= Seq::<Seq<char>>::empty());
    assert(Seq::<Seq<char>>::empty().push(name) =~= seq![name]);
}

/// Empty segments and the current directory in the middle of a path do not count.
pub proof fn law_idle_segments_do_not_count(a: Seq<char>, b: Seq<char>)
    ensures
        named_segments(a + seq!['/'] + b) == named_segments(a) + named_segments(b),
        named_segments(Seq::empty()).len() == 0,
        named_segments("."@).len() == 0,
        named_segments(a + seq!['/']) == named_segments(a),
{
    let pred = |part: Seq<char>| part.len() > 0 && part != "."@;
    law_pieces_of_both(a, b, '/');
    Seq::filter_distributes_over_add(pieces(a, '/'), pieces(b, '/'), pred);
    reveal(Seq::filter);
    reveal_strlit(".");
    let none = seq![Seq::<char>::empty()];
    assert(none.drop_last() =~= Seq::<Seq<char>>::empty());
    assert(none.drop_last().filter(pred) =~= Seq::<Seq<char>>::empty());
    assert(named_segments(Seq::empty()) =~= Seq::<Seq<char>>::empty());
    assert(!"."@.contains('/'));
    law_one_piece("."@, '/');
    let dot = seq!["."@];
    assert(dot.drop_last() =~= Seq::<Seq<char>>::empty());
    assert(dot.drop_last().filter(pred) =~= Seq::<Seq<char>>::empty());
    law_pieces_of_both(a, Seq::empty(), '/');
    Seq::filter_distributes_over_add(pieces(a, '/'), none, pred);
    assert(a + seq!['/'] + Seq::<char>::empty() =~= a + seq!['/']);
    assert(named_segments(a) + Seq::<Seq<char>>::empty() =~= named_segments(a));
}

/// A path is told by whether it starts at the root and by its named segments; a relative path that
/// starts with the current directory is told apart from one that does not.
pub proof fn law_what_tells_a_path(path: Seq<char>, other: Seq<char>)
    ensures
        absolute(path) <==> path.len() > 0 && path[0] == '/',
        absolute(path) || pieces(path, '/')[0] != "."@ ==> components(path) == named_segments(path),
        !absolute(path) && pieces(path, '/')[0] == "."@ ==> components(path).len()
            == named_segments(path).len() + 1 && components(path)[0] == "."@ && components(
            path,
        ).drop_first() == named_segments(path),
        same_path(path, other) <==> absolute(path) == absolute(other) && components(path)
            == components(other),
{
    reveal_strlit("/");
    if path.len() > 0 && path[0] == '/' {
        assert(path.subrange(0, 1) =~= "/"@);
    }
    if absolute(path) {
        assert(path.subrange(0, 1)[0] == "/"@[0]);
    }
    if !absolute(path) && pieces(path, '/')[0] == "."@ {
        assert(components(path).drop_first() =~= named_segments(path));
    }
}

/// What stands behind a path lies inside it, a trailing slash makes no other path, and a path
/// lies inside another exactly if it goes on from it: from the root or not as the other does.
pub proof fn law_paths_inside(base: Seq<char>, rest: Seq<char>, other: Seq<char>)
    requires
        base.len() > 0,
    ensures
        within(base + seq!['/'] + rest, base),
        same_path(base + seq!['/'], base),
        within(other, base) ==> absolute(other) == absolute(base) && components(other).len()
            >= components(base).len() && forall|i: int|
            0 <= i < components(base).len() ==> #[trigger] components(other)[i] == components(
                base,
            )[i],
        within(other, base) && within(base, other) && other.len() > 0 ==> same_path(base, other),
        absolute(other) == absolute(base) && components(other).len() >= components(base).len() && (
        forall|i: int|
            0 <= i < components(base).len() ==> #[trigger] components(other)[i] == components(
                base,
            )[i]) ==> within(other, base),
        within(other, Seq::empty()),
{
    reveal_strlit("/");
    let longer = base + seq!['/'] + rest;
    law_idle_segments_do_not_count(base, rest);
    law_pieces_of_both(base, rest, '/');
    law_pieces_of_both(base, Seq::empty(), '/');
    crate::text::lemma_pieces_nonempty(base, '/');
    let closed = base + seq!['/'];
    assert(closed + Seq::<char>::empty() =~= closed);
    assert(absolute(longer) == absolute(base)) by {
        assert(longer[0] == base[0]);
        assert(longer.subrange(0, 1) =~= base.subrange(0, 1));
    }
    assert(absolute(closed) == absolute(base)) by {
        assert(closed[0] == base[0]);
        assert(closed.subrange(0, 1) =~= base.subrange(0, 1));
    }
    assert(pieces(longer, '/')[0] == pieces(base, '/')[0]);
    assert(pieces(closed, '/')[0] == pieces(base, '/')[0]);
    assert(components(longer) =~= components(base) + named_segments(rest));
    assert(components(longer).subrange(0, components(base).len() as int) =~= components(base));
    assert(components(base).is_prefix_of(components(longer)));
    assert(components(closed) =~= components(base));
    if components(other).len() >= components(base).len() && (forall|i: int|
        0 <= i < components(base).len() ==> #[trigger] components(other)[i] == components(
            base,
        )[i]) {
        assert(components(other).subrange(0, components(base).len() as int) =~= components(base));
    }
    if within(other, base) {
        assert forall|i: int| 0 <= i < components(base).len() implies #[trigger] components(
            other,
        )[i] == components(base)[i] by {
            assert(components(other).subrange(0, components(base).len() as int)[i] == components(
                other,
            )[i]);
        }
        if within(base, other) && other.len() > 0 {
            assert(components(base) =~= components(other));
        }
    }
}

} // verus!
