//! Paths as text with `/` between their segments: their components, and checks of relative ones.
use vstd::prelude::*;

use crate::lists::{lemma_empty_content, lemma_filter_step, outcome};
use crate::model::Modeled;
use crate::text::{
    chars_of, glue3, lemma_pieces_nonempty, pieces, same_text, split_on, starts_with, text_of,
};

verus! {

// ---------------------------------------------------------------------------------------------
// Components

/// The segments of a path that name something.
pub open spec fn named_segments(path: Seq<char>) -> Seq<Seq<char>> {
    pieces(path, '/').filter(|part: Seq<char>| part.len() > 0 && part != "."@)
}

/// Whether a path starts at the root.
pub open spec fn absolute(path: Seq<char>) -> bool {
    "/"@.is_prefix_of(path)
}

/// The components of a path: its named segments, and a leading dot of a relative path.
pub open spec fn components(path: Seq<char>) -> Seq<Seq<char>> {
    if !absolute(path) && pieces(path, '/')[0] == "."@ {
        seq!["."@] + named_segments(path)
    } else {
        named_segments(path)
    }
}

/// Whether two texts are the same path, component by component.
pub open spec fn same_path(a: Seq<char>, b: Seq<char>) -> bool {
    absolute(a) == absolute(b) && components(a) == components(b)
}

/// Whether a path lies at or below another, component by component. Every path lies below the
/// empty one.
pub open spec fn within(path: Seq<char>, base: Seq<char>) -> bool {
    base.len() == 0 || (absolute(path) == absolute(base) && components(base).is_prefix_of(
        components(path),
    ))
}

fn find_components(path: &str) -> (r: Vec<String>)
    ensures
        r.deep_view() == components(path@),
{
    let segments = split_on(path, '/');
    let ghost model = segments.deep_view();
    let ghost pred = |part: Seq<char>| part.len() > 0 && part != "."@;
    let mut out: Vec<String> = Vec::new();
    proof {
        lemma_pieces_nonempty(path@, '/');
        assert(model[0] == segments@[0]@);
        lemma_empty_content(out);
    }
    let ghost mut head: Seq<Seq<char>> = Seq::empty();
    if !starts_with(path, "/") && same_text(segments[0].as_str(), ".") {
        out.push(".".to_string());
        proof {
            head = seq!["."@];
            assert(out.deep_view() =~= head);
        }
    }
    let mut i: usize = 0;
    proof {
        reveal(Seq::filter);
        assert(model.take(0).filter(pred) =~= Seq::empty());
        assert(out.deep_view() =~= head + model.take(0).filter(pred));
    }
    while i < segments.len()
        invariant
            i <= segments@.len(),
            model == segments.deep_view(),
            model.len() == segments@.len(),
            model == pieces(path@, '/'),
            pred == (|part: Seq<char>| part.len() > 0 && part != "."@),
            out.deep_view() == head + model.take(i as int).filter(pred),
        decreases segments.len() - i,
    {
        let part = &segments[i];
        let ghost before = out.deep_view();
        proof {
            assert(model[i as int] == part@);
            lemma_filter_step(model, pred, i as int);
        }
        if !part.as_str().is_empty() && !same_text(part.as_str(), ".") {
            out.push(part.clone());
            assert(out.deep_view() =~= before.push(part@));
        }
        i = i + 1;
        assert(out.deep_view() =~= head + model.take(i as int).filter(pred));
    }
    proof {
        assert(model.take(model.len() as int) =~= model);
        assert(head + named_segments(path@) =~= components(path@));
    }
    out
}

/// Whether two texts are the same path, component by component.
pub fn is_same_path(a: &str, b: &str) -> (r: bool)
    ensures
        r == same_path(a@, b@),
{
    starts_with(a, "/") == starts_with(b, "/") && find_components(a).same(&find_components(b))
}

/// Whether a path lies at or below another, component by component. Every path lies below the
/// empty one.
pub fn is_within(path: &str, base: &str) -> (r: bool)
    ensures
        r == within(path@, base@),
{
    if base.is_empty() {
        return true;
    }
    if starts_with(path, "/") != starts_with(base, "/") {
        return false;
    }
    let inner = find_components(path);
    let outer = find_components(base);
    let ghost a = inner.deep_view();
    let ghost b = outer.deep_view();
    if outer.len() > inner.len() {
        assert(b.len() > a.len());
        return false;
    }
    let mut i: usize = 0;
    while i < outer.len()
        invariant
            base@.len() > 0,
            i <= outer@.len() <= inner@.len(),
            a == inner.deep_view(),
            b == outer.deep_view(),
            a == components(path@),
            b == components(base@),
            a.len() == inner@.len(),
            b.len() == outer@.len(),
            forall|k: int| 0 <= k < i ==> #[trigger] b[k] == a[k],
        decreases outer.len() - i,
    {
        assert(a[i as int] == inner@[i as int]@);
        assert(b[i as int] == outer@[i as int]@);
        if inner[i] != outer[i] {
            assert(a.take(b.len() as int)[i as int] != b[i as int]);
            return false;
        }
        i = i + 1;
    }
    assert(b =~= a.take(b.len() as int));
    true
}

/// Every path lies within itself, and what lies within something that lies within a base lies
/// within the base.
pub proof fn law_containment(a: Seq<char>, b: Seq<char>, c: Seq<char>)
    ensures
        within(a, a),
        within(a, b) && within(b, c) ==> within(a, c),
{
    assert(components(a).take(components(a).len() as int) =~= components(a));
    if within(a, b) && within(b, c) && c.len() > 0 {
        if b.len() == 0 {
            lemma_named_path_has_components(c);
            lemma_empty_path();
        }
        assert(components(a).take(components(c).len() as int) =~= components(b).take(
            components(c).len() as int,
        ));
    }
}

/// The empty path is relative and has no components.
proof fn lemma_empty_path()
    ensures
        !absolute(Seq::empty()),
        components(Seq::empty()) == Seq::<Seq<char>>::empty(),
{
    reveal(Seq::filter);
    reveal_strlit("/");
    reveal_strlit(".");
    let all = pieces(Seq::empty(), '/');
    let pred = |part: Seq<char>| part.len() > 0 && part != "."@;
    assert(all[0].len() == 0);
    assert("."@.len() == 1);
    assert(all.drop_last() =~= Seq::empty());
    assert(all.drop_last().filter(pred) =~= Seq::empty());
    assert(!pred(all.last()));
}

/// The first piece of a text that does not start with the separator is not empty.
proof fn lemma_first_piece(s: Seq<char>, separator: char)
    requires
        s.len() > 0,
        s[0] != separator,
    ensures
        pieces(s, separator).len() > 0,
        pieces(s, separator)[0].len() > 0,
    decreases s.len(),
{
    let front = s.drop_last();
    lemma_pieces_nonempty(front, separator);
    if front.len() > 0 {
        lemma_first_piece(front, separator);
    } else {
        assert(front =~= Seq::empty());
    }
}

/// A relative path that is not empty has a component.
proof fn lemma_named_path_has_components(path: Seq<char>)
    requires
        path.len() > 0,
    ensures
        !absolute(path) ==> components(path).len() > 0,
{
    if !absolute(path) {
        reveal_strlit("/");
        assert("/"@ =~= seq!['/']);
        if path[0] == '/' {
            assert(path.take(1) =~= "/"@);
        }
        lemma_first_piece(path, '/');
        let all = pieces(path, '/');
        let pred = |part: Seq<char>| part.len() > 0 && part != "."@;
        if all[0] != "."@ {
            assert(pred(all[0]));
            all.lemma_filter_contains(pred, 0);
            assert(all.filter(pred).contains(all[0]));
        }
    }
}

// ---------------------------------------------------------------------------------------------
// Checks

/// Whether a path has the given segment.
pub open spec fn has_segment(path: Seq<char>, segment: Seq<char>) -> bool {
    pieces(path, '/').contains(segment)
}

fn contains_segment(path: &str, segment: &str) -> (r: bool)
    ensures
        r == has_segment(path@, segment@),
{
    let segments = split_on(path, '/');
    let ghost model = segments.deep_view();
    let mut i: usize = 0;
    while i < segments.len()
        invariant
            i <= segments@.len(),
            model == segments.deep_view(),
            model.len() == segments@.len(),
            model == pieces(path@, '/'),
            forall|k: int| 0 <= k < i ==> #[trigger] model[k] != segment@,
        decreases segments.len() - i,
    {
        assert(model[i as int] == segments@[i as int]@);
        if same_text(segments[i].as_str(), segment) {
            assert(pieces(path@, '/')[i as int] == segment@);
            return true;
        }
        i = i + 1;
    }
    false
}

/// What is wrong with the path of a rollout within its home.
pub open spec fn rollout_path_check(path: Seq<char>) -> Result<(), Seq<char>> {
    if path.len() == 0 || "/"@.is_prefix_of(path) {
        Err("rollout pointer must be a non-empty relative path"@)
    } else if has_segment(path, ".."@) {
        Err("rollout pointer contains an unsafe path component"@)
    } else {
        Ok(())
    }
}

/// Checks that the path of a rollout stays within its home.
pub fn validate_relative_rollout_path(path: &str) -> (r: Result<(), String>)
    ensures
        outcome(r) == rollout_path_check(path@),
{
    if path.is_empty() || starts_with(path, "/") {
        return Err("rollout pointer must be a non-empty relative path".to_string());
    }
    if contains_segment(path, "..") {
        return Err("rollout pointer contains an unsafe path component".to_string());
    }
    Ok(())
}

/// What is wrong with the path of an upload within its workspace.
pub open spec fn upload_path_check(path: Seq<char>) -> Result<(), Seq<char>> {
    if path.len() == 0 {
        Err("was empty"@)
    } else if "/"@.is_prefix_of(path) {
        Err("must be relative"@)
    } else if has_segment(path, ".."@) {
        Err("must not contain '..' segments"@)
    } else if has_segment(path, Seq::empty()) || has_segment(path, "."@) {
        Err("must be a normalized relative path"@)
    } else {
        Ok(())
    }
}

/// Checks that the path of an upload is normalized and stays within its workspace.
pub fn validate_upload_relative_path(path: &str) -> (r: Result<(), String>)
    ensures
        outcome(r) == upload_path_check(path@),
{
    if path.is_empty() {
        return Err("was empty".to_string());
    }
    if starts_with(path, "/") {
        return Err("must be relative".to_string());
    }
    if contains_segment(path, "..") {
        return Err("must not contain '..' segments".to_string());
    }
    proof {
        reveal_strlit("");
        assert(""@ =~= Seq::empty());
    }
    if contains_segment(path, "") || contains_segment(path, ".") {
        return Err("must be a normalized relative path".to_string());
    }
    Ok(())
}

/// A path without the slashes at its end.
pub open spec fn trim_slashes(path: Seq<char>) -> Seq<char>
    decreases path.len(),
{
    if path.len() > 0 && path.last() == '/' {
        trim_slashes(path.drop_last())
    } else {
        path
    }
}

/// A path within a workspace.
pub open spec fn workspace_path(workspace: Seq<char>, relative_path: Seq<char>) -> Seq<char> {
    if trim_slashes(workspace).len() == 0 {
        relative_path
    } else {
        trim_slashes(workspace) + "/"@ + relative_path
    }
}

/// A path without the slashes at its end.
pub fn without_trailing_slashes(path: &str) -> (r: String)
    ensures
        r@ == trim_slashes(path@),
{
    let v = chars_of(path);
    let mut n: usize = v.len();
    assert(v@.take(n as int) =~= v@);
    while n > 0 && v[n - 1] == '/'
        invariant
            n <= v@.len(),
            v@ == path@,
            trim_slashes(path@) == trim_slashes(v@.take(n as int)),
        decreases n,
    {
        assert(v@.take(n as int).drop_last() =~= v@.take(n - 1));
        n = n - 1;
    }
    let out = text_of(&v, 0, n);
    assert(out@ =~= v@.take(n as int));
    out
}

/// A path within a workspace of a server.
pub fn join_remote_workspace_path(workspace: &str, relative_path: &str) -> (r: String)
    ensures
        r@ == workspace_path(workspace@, relative_path@),
{
    let workspace = without_trailing_slashes(workspace);
    if workspace.as_str().is_empty() {
        relative_path.to_owned()
    } else {
        glue3(workspace.as_str(), "/", relative_path)
    }
}

/// No accepted upload leaves its workspace: none of its segments leads upwards.
pub proof fn law_uploads_stay_inside(path: Seq<char>)
    requires
        upload_path_check(path) is Ok,
    ensures
        forall|i: int|
            0 <= i < pieces(path, '/').len() ==> {
                &&& #[trigger] pieces(path, '/')[i] != ".."@
                &&& pieces(path, '/')[i] != "."@
                &&& pieces(path, '/')[i].len() > 0
            },
{
    let segments = pieces(path, '/');
    assert forall|i: int| 0 <= i < segments.len() implies {
        &&& #[trigger] segments[i] != ".."@
        &&& segments[i] != "."@
        &&& segments[i].len() > 0
    } by {
        if segments[i].len() == 0 {
            assert(segments[i] =~= Seq::empty());
            assert(segments.contains(Seq::<char>::empty()));
        }
        assert(segments.contains(segments[i]));
    }
}

} // verus!
