//! Concrete types and their tags.

use crate::envelop::{generic_tag, join_tags};
use vstd::prelude::*;

verus! {

/// A concrete type: a name, applied to type arguments that are concrete
/// types themselves.
pub struct TypeExpr {
    pub name: Seq<char>,
    pub args: Seq<TypeExpr>,
}

/// Whether a character is one of those that a tag puts around type
/// arguments: `<`, `>` and `,`.
pub open spec fn is_bracket(c: char) -> bool {
    c == '<' || c == '>' || c == ','
}

/// Whether a name holds none of `<`, `>` and `,`.
pub open spec fn plain(name: Seq<char>) -> bool {
    forall|i: int| 0 <= i < name.len() ==> !is_bracket(#[trigger] name[i])
}

/// Whether the names in a type are plain, those of its arguments included.
pub open spec fn well_named(t: TypeExpr) -> bool
    decreases t,
{
    plain(t.name) && forall|i: int| 0 <= i < t.args.len() ==> well_named(#[trigger] t.args[i])
}

/// The tags of a list of types.
pub open spec fn tags_of(ts: Seq<TypeExpr>) -> Seq<Seq<char>>
    decreases ts, 1int,
{
    Seq::new(ts.len(), |i: int| if 0 <= i < ts.len() { tag_of(ts[i]) } else { Seq::<char>::empty() })
}

/// The tag of a concrete type.
pub open spec fn tag_of(t: TypeExpr) -> Seq<char>
    decreases t, 0int,
{
    generic_tag(t.name, tags_of(t.args))
}

/// Whether a text is empty or begins with `,` or `>`: what can follow a type
/// argument inside a tag.
pub open spec fn stops(x: Seq<char>) -> bool {
    x.len() == 0 || x[0] == ',' || x[0] == '>'
}

/// Whether a text is empty or begins with `<`, `>` or `,`.
pub open spec fn breaks(x: Seq<char>) -> bool {
    x.len() == 0 || is_bracket(x[0])
}

/// What follows the name in the tag of a type: nothing, or the tags of its
/// arguments in angle brackets.
pub open spec fn bracketed(t: TypeExpr) -> Seq<char> {
    if t.args.len() == 0 {
        Seq::<char>::empty()
    } else {
        seq!['<'] + join_tags(tags_of(t.args)) + seq!['>']
    }
}

/// A plain name is told apart from what follows it: two texts that begin
/// with plain names, each followed by nothing or by a bracket, are equal only
/// if the names are equal and what follows is.
pub proof fn lemma_plain_prefix(n1: Seq<char>, r1: Seq<char>, n2: Seq<char>, r2: Seq<char>)
    requires
        plain(n1),
        plain(n2),
        breaks(r1),
        breaks(r2),
        n1 + r1 == n2 + r2,
    ensures
        n1 == n2,
        r1 == r2,
{
    let s1 = n1 + r1;
    let s2 = n2 + r2;
    assert(s1.len() == n1.len() + r1.len());
    assert(s2.len() == n2.len() + r2.len());
    if n1.len() < n2.len() {
        let k = n1.len() as int;
        assert(s1[k] == r1[0]);
        assert(s2[k] == n2[k]);
        assert(!is_bracket(n2[k]));
    } else if n2.len() < n1.len() {
        let k = n2.len() as int;
        assert(s2[k] == r2[0]);
        assert(s1[k] == n1[k]);
        assert(!is_bracket(n1[k]));
    } else {
        assert forall|i: int| 0 <= i < n1.len() implies n1[i] == n2[i] by {
            assert(s1[i] == n1[i]);
            assert(s2[i] == n2[i]);
        }
        assert(n1 =~= n2);
        assert forall|i: int| 0 <= i < r1.len() implies r1[i] == r2[i] by {
            assert(s1[n1.len() + i] == r1[i]);
            assert(s2[n2.len() + i] == r2[i]);
        }
        assert(r1 =~= r2);
    }
}

/// The tag of a type is its name and what follows it.
proof fn lemma_tag_parts(t: TypeExpr)
    ensures
        tag_of(t) == t.name + bracketed(t),
        breaks(bracketed(t)),
        t.args.len() > 0 ==> tag_of(t).len() == t.name.len() + join_tags(tags_of(t.args)).len() + 2,
{
    if t.args.len() == 0 {
        assert(tag_of(t) =~= t.name + bracketed(t));
    } else {
        let j = join_tags(tags_of(t.args));
        assert(tag_of(t) =~= t.name + (seq!['<'] + j + seq!['>']));
        assert(bracketed(t)[0] == '<');
    }
}

/// The joined tags of a list of types begin with the tag of the first; what
/// follows is nothing, or a comma and the joined tags of the others.
proof fn lemma_join_parts(ts: Seq<TypeExpr>)
    requires
        ts.len() > 0,
    ensures
        tags_of(ts).drop_first() == tags_of(ts.drop_first()),
        ts.len() == 1 ==> join_tags(tags_of(ts)) == tag_of(ts[0]),
        ts.len() > 1 ==> join_tags(tags_of(ts)) == tag_of(ts[0]) + (seq![','] + join_tags(
            tags_of(ts.drop_first()),
        )),
        ts.len() > 1 ==> join_tags(tags_of(ts)).len() == tag_of(ts[0]).len() + 1 + join_tags(
            tags_of(ts.drop_first()),
        ).len(),
{
    assert(tags_of(ts).drop_first() =~= tags_of(ts.drop_first()));
    assert(tags_of(ts)[0] == tag_of(ts[0]));
    if ts.len() > 1 {
        let rest = join_tags(tags_of(ts.drop_first()));
        assert(join_tags(tags_of(ts)) =~= tag_of(ts[0]) + (seq![','] + rest));
    }
}

/// Two well-named types whose tags, each followed by nothing or by `,` or
/// `>`, make the same text are the same type, and what follows is the same.
pub proof fn lemma_tag_ends(a: TypeExpr, x: Seq<char>, b: TypeExpr, y: Seq<char>)
    requires
        well_named(a),
        well_named(b),
        stops(x),
        stops(y),
        tag_of(a) + x == tag_of(b) + y,
    ensures
        a == b,
        x == y,
    decreases tag_of(a).len(), 0int,
{
    lemma_tag_parts(a);
    lemma_tag_parts(b);
    let ra = bracketed(a) + x;
    let rb = bracketed(b) + y;
    assert(tag_of(a) + x =~= a.name + ra);
    assert(tag_of(b) + y =~= b.name + rb);
    assert(breaks(ra)) by {
        if bracketed(a).len() > 0 {
            assert(ra[0] == bracketed(a)[0]);
        } else if x.len() > 0 {
            assert(ra[0] == x[0]);
        }
    }
    assert(breaks(rb)) by {
        if bracketed(b).len() > 0 {
            assert(rb[0] == bracketed(b)[0]);
        } else if y.len() > 0 {
            assert(rb[0] == y[0]);
        }
    }
    lemma_plain_prefix(a.name, ra, b.name, rb);
    if a.args.len() == 0 && b.args.len() == 0 {
        assert(ra =~= x);
        assert(rb =~= y);
        assert(a.args =~= b.args);
    } else if a.args.len() == 0 {
        assert(ra =~= x);
        assert(rb[0] == '<');
        assert(false);
    } else if b.args.len() == 0 {
        assert(rb =~= y);
        assert(ra[0] == '<');
        assert(false);
    } else {
        let ja = join_tags(tags_of(a.args));
        let jb = join_tags(tags_of(b.args));
        assert(ra =~= seq!['<'] + (ja + seq!['>'] + x));
        assert(rb =~= seq!['<'] + (jb + seq!['>'] + y));
        assert((ja + seq!['>'] + x) =~= ra.skip(1));
        assert((jb + seq!['>'] + y) =~= rb.skip(1));
        assert forall|i: int| 0 <= i < a.args.len() implies well_named(#[trigger] a.args[i]) by {}
        assert forall|i: int| 0 <= i < b.args.len() implies well_named(#[trigger] b.args[i]) by {}
        lemma_joined_ends(a.args, x, b.args, y);
    }
}

/// Two lists of well-named types whose joined tags, each followed by `>`
/// and some text, make the same text are the same list, and the text that
/// follows is the same.
pub proof fn lemma_joined_ends(a: Seq<TypeExpr>, x: Seq<char>, b: Seq<TypeExpr>, y: Seq<char>)
    requires
        a.len() > 0,
        b.len() > 0,
        forall|i: int| 0 <= i < a.len() ==> well_named(#[trigger] a[i]),
        forall|i: int| 0 <= i < b.len() ==> well_named(#[trigger] b[i]),
        join_tags(tags_of(a)) + seq!['>'] + x == join_tags(tags_of(b)) + seq!['>'] + y,
    ensures
        a == b,
        x == y,
    decreases join_tags(tags_of(a)).len(), 1int,
{
    lemma_join_parts(a);
    lemma_join_parts(b);
    let ta = a.drop_first();
    let tb = b.drop_first();
    let ra = if a.len() == 1 {
        seq!['>'] + x
    } else {
        seq![','] + (join_tags(tags_of(ta)) + seq!['>'] + x)
    };
    let rb = if b.len() == 1 {
        seq!['>'] + y
    } else {
        seq![','] + (join_tags(tags_of(tb)) + seq!['>'] + y)
    };
    assert(join_tags(tags_of(a)) + seq!['>'] + x =~= tag_of(a[0]) + ra);
    assert(join_tags(tags_of(b)) + seq!['>'] + y =~= tag_of(b[0]) + rb);
    assert(stops(ra)) by {
        assert(ra[0] == '>' || ra[0] == ',');
    }
    assert(stops(rb)) by {
        assert(rb[0] == '>' || rb[0] == ',');
    }
    lemma_tag_ends(a[0], ra, b[0], rb);
    if a.len() == 1 && b.len() == 1 {
        assert(x =~= ra.skip(1));
        assert(y =~= rb.skip(1));
        assert(a =~= b);
    } else if a.len() == 1 {
        assert(ra[0] == '>');
        assert(rb[0] == ',');
        assert(false);
    } else if b.len() == 1 {
        assert(ra[0] == ',');
        assert(rb[0] == '>');
        assert(false);
    } else {
        assert((join_tags(tags_of(ta)) + seq!['>'] + x) =~= ra.skip(1));
        assert((join_tags(tags_of(tb)) + seq!['>'] + y) =~= rb.skip(1));
        assert forall|i: int| 0 <= i < ta.len() implies well_named(#[trigger] ta[i]) by {
            assert(ta[i] == a[i + 1]);
        }
        assert forall|i: int| 0 <= i < tb.len() implies well_named(#[trigger] tb[i]) by {
            assert(tb[i] == b[i + 1]);
        }
        lemma_joined_ends(ta, x, tb, y);
        assert(a =~= seq![a[0]] + ta);
        assert(b =~= seq![b[0]] + tb);
    }
}

/// Tags tell types apart: two concrete types whose names are plain have the
/// same tag exactly when they are the same type.
pub proof fn lemma_tag_unique(a: TypeExpr, b: TypeExpr)
    requires
        well_named(a),
        well_named(b),
    ensures
        tag_of(a) == tag_of(b) <==> a == b,
{
    if tag_of(a) == tag_of(b) {
        let e = Seq::<char>::empty();
        assert(tag_of(a) + e =~= tag_of(b) + e);
        lemma_tag_ends(a, e, b, e);
    }
}

} // verus!
