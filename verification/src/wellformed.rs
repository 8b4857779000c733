//! Well-formedness of the emitted document: exactly one root element
//! open/close pair and properly nested groups, proved over the output
//! model.
//!
//! The argument is character-level: inside the document's interior no `<`
//! is ever followed by `s` or `g`, and no `</` by `s` or `g`, so the only
//! occurrence of `<svg` is the opening tag, the only `</svg>` the closing
//! tag, and the only `<g `/`</g>` pair the transform group.

use vstd::prelude::*;
use crate::entity::{Entity, EntityKind, Point};
use crate::escape::{esc_char, spec_escape};
use crate::numfmt::{digit_char, spec_milli, spec_udec};

verus! {

/// The pattern `p` occurs in `s` at position `i`.
pub open spec fn contains_at(s: Seq<char>, p: Seq<char>, i: int) -> bool {
    0 <= i && i + p.len() <= s.len() && s.subrange(i, i + p.len()) == p
}

/// No `<` anywhere in the text.
pub open spec fn lt_free(s: Seq<char>) -> bool
    decreases s.len(),
{
    if s.len() == 0 {
        true
    } else {
        s[0] != '<' && lt_free(s.drop_first())
    }
}

/// The interior discipline of the document: a `<` is never the last
/// character, is never followed by `s` or `g`, and when followed by `/`
/// that `/` is never the last character nor followed by `s` or `g`.
pub open spec fn scan_clean(s: Seq<char>) -> bool
    decreases s.len(),
{
    if s.len() == 0 {
        true
    } else {
        (s[0] == '<' ==> s.len() >= 2 && s[1] != 's' && s[1] != 'g' && (s[1] == '/' ==> s.len()
            >= 3 && s[2] != 's' && s[2] != 'g')) && scan_clean(s.drop_first())
    }
}

/// A text without `<` satisfies the interior discipline.
pub proof fn lemma_lt_free_clean(s: Seq<char>)
    requires
        lt_free(s),
    ensures
        scan_clean(s),
    decreases s.len(),
{
    if s.len() > 0 {
        lemma_lt_free_clean(s.drop_first());
    }
}

/// No character of a `<`-free text is `<`.
pub proof fn lemma_lt_free_char(s: Seq<char>, i: int)
    requires
        lt_free(s),
        0 <= i < s.len(),
    ensures
        s[i] != '<',
    decreases i,
{
    if i > 0 {
        lemma_lt_free_char(s.drop_first(), i - 1);
    }
}

/// What the interior discipline says of each `<` in the text.
pub proof fn lemma_clean_char(s: Seq<char>, i: int)
    requires
        scan_clean(s),
        0 <= i < s.len(),
        s[i] == '<',
    ensures
        i + 1 < s.len(),
        s[i + 1] != 's',
        s[i + 1] != 'g',
        s[i + 1] == '/' ==> i + 2 < s.len() && s[i + 2] != 's' && s[i + 2] != 'g',
    decreases i,
{
    if i > 0 {
        lemma_clean_char(s.drop_first(), i - 1);
    }
}

/// `<`-freeness is preserved by concatenation.
pub proof fn lemma_lt_free_concat(a: Seq<char>, b: Seq<char>)
    requires
        lt_free(a),
        lt_free(b),
    ensures
        lt_free(a + b),
    decreases a.len(),
{
    if a.len() == 0 {
        assert(a + b =~= b);
    } else {
        assert((a + b).drop_first() =~= a.drop_first() + b);
        lemma_lt_free_concat(a.drop_first(), b);
    }
}

/// The interior discipline is preserved by concatenation: a clean text
/// never ends in `<` or `</`, so no forbidden pair or triple can straddle
/// the boundary.
pub proof fn lemma_clean_concat(a: Seq<char>, b: Seq<char>)
    requires
        scan_clean(a),
        scan_clean(b),
    ensures
        scan_clean(a + b),
    decreases a.len(),
{
    if a.len() == 0 {
        assert(a + b =~= b);
    } else {
        assert((a + b).drop_first() =~= a.drop_first() + b);
        lemma_clean_concat(a.drop_first(), b);
    }
}

/// A single character other than `<` is `<`-free.
pub proof fn lemma_lt_free_single(c: char)
    requires
        c != '<',
    ensures
        lt_free(seq![c]),
{
    lemma_all_not_lt(seq![c]);
}

/// Decimal digit strings are `<`-free.
pub proof fn lemma_udec_lt_free(n: nat)
    ensures
        lt_free(spec_udec(n)),
    decreases n,
{
    if n < 10 {
        lemma_lt_free_single(digit_char(n as int));
    } else {
        lemma_udec_lt_free(n / 10);
        lemma_lt_free_single(digit_char((n % 10) as int));
        lemma_lt_free_concat(spec_udec(n / 10), seq![digit_char((n % 10) as int)]);
    }
}

/// Formatted fixed-point numbers are `<`-free.
pub proof fn lemma_milli_lt_free(x: int)
    ensures
        lt_free(spec_milli(x)),
{
    let a = if x < 0 {
        -x
    } else {
        x
    };
    let sign: Seq<char> = if x < 0 {
        seq!['-']
    } else {
        Seq::empty()
    };
    lemma_udec_lt_free((a / 1000) as nat);
    if x < 0 {
        lemma_lt_free_single('-');
    }
    lemma_lt_free_concat(sign, spec_udec((a / 1000) as nat));
    lemma_lt_free_single('.');
    lemma_lt_free_concat(sign + spec_udec((a / 1000) as nat), seq!['.']);
    let frac = seq![
        digit_char(a % 1000 / 100),
        digit_char(a % 1000 / 10 % 10),
        digit_char(a % 1000 % 10),
    ];
    assert(lt_free(frac)) by {
        lemma_all_not_lt(frac);
    }
    lemma_lt_free_concat(sign + spec_udec((a / 1000) as nat) + seq!['.'], frac);
}

/// Escaped text is `<`-free: every `<` of the input is replaced, and no
/// replacement contains one.
pub proof fn lemma_escape_lt_free(s: Seq<char>)
    ensures
        lt_free(spec_escape(s)),
    decreases s.len(),
{
    if s.len() > 0 {
        assert(lt_free(esc_char(s[0]))) by {
            reveal_strlit("&amp;");
            reveal_strlit("&lt;");
            reveal_strlit("&gt;");
            reveal_strlit("&quot;");
            reveal_strlit("&apos;");
            let e = esc_char(s[0]);
            if s[0] == '&' || s[0] == '<' || s[0] == '>' || s[0] == '"' || s[0] == '\'' {
                assert(lt_free(e)) by {
                    assert forall|k: int| 0 <= k < e.len() implies e[k] != '<' by {}
                    lemma_all_not_lt(e);
                }
            } else {
                lemma_lt_free_single(s[0]);
            }
        }
        lemma_escape_lt_free(s.drop_first());
        lemma_lt_free_concat(esc_char(s[0]), spec_escape(s.drop_first()));
    }
}

/// Pointwise `<`-freeness gives the recursive form.
pub proof fn lemma_all_not_lt(s: Seq<char>)
    requires
        forall|k: int| 0 <= k < s.len() ==> s[k] != '<',
    ensures
        lt_free(s),
    decreases s.len(),
{
    if s.len() > 0 {
        lemma_all_not_lt(s.drop_first());
    }
}

/// The interior discipline at one position.
pub open spec fn clean_at(s: Seq<char>, i: int) -> bool {
    s[i] == '<' ==> i + 1 < s.len() && s[i + 1] != 's' && s[i + 1] != 'g' && (s[i + 1] == '/'
        ==> i + 2 < s.len() && s[i + 2] != 's' && s[i + 2] != 'g')
}

/// Pointwise discipline gives the recursive form.
pub proof fn lemma_all_clean(s: Seq<char>)
    requires
        forall|i: int| 0 <= i < s.len() ==> clean_at(s, i),
    ensures
        scan_clean(s),
    decreases s.len(),
{
    if s.len() > 0 {
        assert forall|i: int| 0 <= i < s.drop_first().len() implies clean_at(
            s.drop_first(),
            i,
        ) by {
            assert(clean_at(s, i + 1));
        }
        lemma_all_clean(s.drop_first());
        assert(clean_at(s, 0));
    }
}

/// Recursive `<`-freeness gives the pointwise form.
pub proof fn lemma_lt_free_all(s: Seq<char>)
    requires
        lt_free(s),
    ensures
        forall|k: int| 0 <= k < s.len() ==> s[k] != '<',
{
    assert forall|k: int| 0 <= k < s.len() implies s[k] != '<' by {
        lemma_lt_free_char(s, k);
    }
}

/// A formatted number satisfies the interior discipline.
pub proof fn lemma_milli_clean(x: int)
    ensures
        scan_clean(spec_milli(x)),
        lt_free(spec_milli(x)),
{
    lemma_milli_lt_free(x);
    lemma_lt_free_clean(spec_milli(x));
}

/// A coordinate pair is `<`-free.
pub proof fn lemma_pair_lt_free(p: Point)
    ensures
        lt_free(crate::fragments::spec_point_pair(p)),
{
    lemma_milli_lt_free(p.x as int);
    lemma_milli_lt_free(p.y as int);
    reveal_strlit(",");
    lemma_all_not_lt(","@);
    lemma_lt_free_concat(spec_milli(p.x as int), ","@);
    lemma_lt_free_concat(spec_milli(p.x as int) + ","@, spec_milli(p.y as int));
}

/// The vertex list text is `<`-free.
pub proof fn lemma_points_rest_lt_free(vs: Seq<Point>, i: int)
    ensures
        lt_free(crate::fragments::spec_points_rest(vs, i)),
    decreases vs.len() - i,
{
    if i < 0 || i >= vs.len() {
    } else {
        reveal_strlit(" ");
        lemma_all_not_lt(" "@);
        lemma_pair_lt_free(vs[i]);
        lemma_points_rest_lt_free(vs, i + 1);
        lemma_lt_free_concat(" "@, crate::fragments::spec_point_pair(vs[i]));
        lemma_lt_free_concat(
            " "@ + crate::fragments::spec_point_pair(vs[i]),
            crate::fragments::spec_points_rest(vs, i + 1),
        );
    }
}

/// The vertex list text is `<`-free.
pub proof fn lemma_points_lt_free(vs: Seq<Point>)
    requires
        vs.len() > 0,
    ensures
        lt_free(crate::fragments::spec_points(vs)),
{
    lemma_pair_lt_free(vs[0]);
    lemma_points_rest_lt_free(vs, 1);
    lemma_lt_free_concat(
        crate::fragments::spec_point_pair(vs[0]),
        crate::fragments::spec_points_rest(vs, 1),
    );
}

/// The spline curve commands are `<`-free.
pub proof fn lemma_spline_lt_free(pts: Seq<Point>, i: int)
    ensures
        lt_free(crate::fragments::spec_spline_curves(pts, i)),
    decreases pts.len() - i,
{
    if 0 <= i && i + 2 < pts.len() {
        reveal_strlit(" C ");
        reveal_strlit(" ");
        lemma_all_not_lt(" C "@);
        lemma_all_not_lt(" "@);
        lemma_pair_lt_free(pts[i]);
        lemma_pair_lt_free(pts[i + 1]);
        lemma_pair_lt_free(pts[i + 2]);
        lemma_spline_lt_free(pts, i + 3);
        let a1 = " C "@ + crate::fragments::spec_point_pair(pts[i]);
        lemma_lt_free_concat(" C "@, crate::fragments::spec_point_pair(pts[i]));
        let a2 = a1 + " "@;
        lemma_lt_free_concat(a1, " "@);
        let a3 = a2 + crate::fragments::spec_point_pair(pts[i + 1]);
        lemma_lt_free_concat(a2, crate::fragments::spec_point_pair(pts[i + 1]));
        let a4 = a3 + " "@;
        lemma_lt_free_concat(a3, " "@);
        let a5 = a4 + crate::fragments::spec_point_pair(pts[i + 2]);
        lemma_lt_free_concat(a4, crate::fragments::spec_point_pair(pts[i + 2]));
        lemma_lt_free_concat(a5, crate::fragments::spec_spline_curves(pts, i + 3));
    }
}

/// The helix spiral commands are `<`-free.
pub proof fn lemma_helix_lt_free(base: Point, radius: i64, total: int, i: int)
    ensures
        lt_free(crate::fragments::spec_helix_pieces(base, radius, total, i)),
    decreases total + 1 - i,
{
    if i < 1 || i > total {
    } else {
        reveal_strlit(" L ");
        reveal_strlit(",");
        lemma_all_not_lt(" L "@);
        lemma_all_not_lt(","@);
        lemma_milli_lt_free(crate::fragments::spec_helix_x(base, radius, total, i));
        lemma_milli_lt_free(crate::fragments::spec_helix_y(base, radius, total, i));
        lemma_helix_lt_free(base, radius, total, i + 1);
        let a1 = " L "@ + spec_milli(crate::fragments::spec_helix_x(base, radius, total, i));
        lemma_lt_free_concat(
            " L "@,
            spec_milli(crate::fragments::spec_helix_x(base, radius, total, i)),
        );
        let a2 = a1 + ","@;
        lemma_lt_free_concat(a1, ","@);
        let a3 = a2 + spec_milli(crate::fragments::spec_helix_y(base, radius, total, i));
        lemma_lt_free_concat(a2, spec_milli(crate::fragments::spec_helix_y(base, radius, total, i)));
        lemma_lt_free_concat(a3, crate::fragments::spec_helix_pieces(base, radius, total, i + 1));
    }
}

/// The stroke attributes are `<`-free when the color names are.
pub proof fn lemma_stroke_lt_free(e: Entity, o: crate::options::OptView)
    requires
        lt_free(e.color_name@),
        lt_free(o.default_color),
    ensures
        lt_free(crate::fragments::spec_stroke_attr(e, o)),
{
    reveal_strlit("stroke=\"");
    reveal_strlit("\" stroke-width=\"");
    reveal_strlit("\"");
    lemma_all_not_lt("stroke=\""@);
    lemma_all_not_lt("\" stroke-width=\""@);
    lemma_all_not_lt("\""@);
    lemma_milli_lt_free(o.stroke_width);
    let c = crate::fragments::spec_color(e, o);
    let a1 = "stroke=\""@ + c;
    lemma_lt_free_concat("stroke=\""@, c);
    let a2 = a1 + "\" stroke-width=\""@;
    lemma_lt_free_concat(a1, "\" stroke-width=\""@);
    let a3 = a2 + spec_milli(o.stroke_width);
    lemma_lt_free_concat(a2, spec_milli(o.stroke_width));
    lemma_lt_free_concat(a3, "\""@);
}

/// The arrowhead marker definition satisfies the interior discipline.
pub proof fn lemma_marker_defs_clean()
    ensures
        scan_clean(crate::fragments::spec_marker_defs()),
{
    reveal_strlit("<defs>");
    reveal_strlit("<marker ");
    reveal_strlit(
        "id=\"arrowhead\" markerWidth=\"10\" markerHeight=\"7\" refX=\"9\" refY=\"3.5\" orient=\"auto\">",
    );
    reveal_strlit("<polygon ");
    reveal_strlit("points=\"0 0, 10 3.5, 0 7\" fill=\"black\"/>");
    reveal_strlit("</marker>");
    reveal_strlit("</defs>");
    lemma_all_clean("<defs>"@);
    lemma_all_clean("<marker "@);
    lemma_all_clean(
        "id=\"arrowhead\" markerWidth=\"10\" markerHeight=\"7\" refX=\"9\" refY=\"3.5\" orient=\"auto\">"@,
    );
    lemma_all_clean("<polygon "@);
    lemma_all_clean("points=\"0 0, 10 3.5, 0 7\" fill=\"black\"/>"@);
    lemma_all_clean("</marker>"@);
    lemma_all_clean("</defs>"@);
    let a1 = "<defs>"@ + "<marker "@;
    lemma_clean_concat("<defs>"@, "<marker "@);
    let a2 = a1
        + "id=\"arrowhead\" markerWidth=\"10\" markerHeight=\"7\" refX=\"9\" refY=\"3.5\" orient=\"auto\">"@;
    lemma_clean_concat(
        a1,
        "id=\"arrowhead\" markerWidth=\"10\" markerHeight=\"7\" refX=\"9\" refY=\"3.5\" orient=\"auto\">"@,
    );
    let a3 = a2 + "<polygon "@;
    lemma_clean_concat(a2, "<polygon "@);
    let a4 = a3 + "points=\"0 0, 10 3.5, 0 7\" fill=\"black\"/>"@;
    lemma_clean_concat(a3, "points=\"0 0, 10 3.5, 0 7\" fill=\"black\"/>"@);
    let a5 = a4 + "</marker>"@;
    lemma_clean_concat(a4, "</marker>"@);
    lemma_clean_concat(a5, "</defs>"@);
}

/// A coordinate pair satisfies the interior discipline.
pub proof fn lemma_pair_clean(p: Point)
    ensures
        scan_clean(crate::fragments::spec_point_pair(p)),
{
    lemma_pair_lt_free(p);
    lemma_lt_free_clean(crate::fragments::spec_point_pair(p));
}

pub proof fn lemma_clean_cat5(s1: Seq<char>, s2: Seq<char>, s3: Seq<char>, s4: Seq<char>, s5: Seq<char>)
    requires
        scan_clean(s1),
        scan_clean(s2),
        scan_clean(s3),
        scan_clean(s4),
        scan_clean(s5),
    ensures
        scan_clean(s1 + s2 + s3 + s4 + s5),
{
    lemma_clean_concat(s1, s2);
    lemma_clean_concat(s1 + s2, s3);
    lemma_clean_concat(s1 + s2 + s3, s4);
    lemma_clean_concat(s1 + s2 + s3 + s4, s5);
}

pub proof fn lemma_clean_cat7(
    s1: Seq<char>,
    s2: Seq<char>,
    s3: Seq<char>,
    s4: Seq<char>,
    s5: Seq<char>,
    s6: Seq<char>,
    s7: Seq<char>,
)
    requires
        scan_clean(s1),
        scan_clean(s2),
        scan_clean(s3),
        scan_clean(s4),
        scan_clean(s5),
        scan_clean(s6),
        scan_clean(s7),
    ensures
        scan_clean(s1 + s2 + s3 + s4 + s5 + s6 + s7),
{
    lemma_clean_cat5(s1, s2, s3, s4, s5);
    lemma_clean_concat(s1 + s2 + s3 + s4 + s5, s6);
    lemma_clean_concat(s1 + s2 + s3 + s4 + s5 + s6, s7);
}

pub proof fn lemma_clean_cat9(
    s1: Seq<char>,
    s2: Seq<char>,
    s3: Seq<char>,
    s4: Seq<char>,
    s5: Seq<char>,
    s6: Seq<char>,
    s7: Seq<char>,
    s8: Seq<char>,
    s9: Seq<char>,
)
    requires
        scan_clean(s1),
        scan_clean(s2),
        scan_clean(s3),
        scan_clean(s4),
        scan_clean(s5),
        scan_clean(s6),
        scan_clean(s7),
        scan_clean(s8),
        scan_clean(s9),
    ensures
        scan_clean(s1 + s2 + s3 + s4 + s5 + s6 + s7 + s8 + s9),
{
    lemma_clean_cat7(s1, s2, s3, s4, s5, s6, s7);
    lemma_clean_concat(s1 + s2 + s3 + s4 + s5 + s6 + s7, s8);
    lemma_clean_concat(s1 + s2 + s3 + s4 + s5 + s6 + s7 + s8, s9);
}

pub proof fn lemma_clean_cat11(
    s1: Seq<char>,
    s2: Seq<char>,
    s3: Seq<char>,
    s4: Seq<char>,
    s5: Seq<char>,
    s6: Seq<char>,
    s7: Seq<char>,
    s8: Seq<char>,
    s9: Seq<char>,
    s10: Seq<char>,
    s11: Seq<char>,
)
    requires
        scan_clean(s1),
        scan_clean(s2),
        scan_clean(s3),
        scan_clean(s4),
        scan_clean(s5),
        scan_clean(s6),
        scan_clean(s7),
        scan_clean(s8),
        scan_clean(s9),
        scan_clean(s10),
        scan_clean(s11),
    ensures
        scan_clean(s1 + s2 + s3 + s4 + s5 + s6 + s7 + s8 + s9 + s10 + s11),
{
    lemma_clean_cat9(s1, s2, s3, s4, s5, s6, s7, s8, s9);
    lemma_clean_concat(s1 + s2 + s3 + s4 + s5 + s6 + s7 + s8 + s9, s10);
    lemma_clean_concat(s1 + s2 + s3 + s4 + s5 + s6 + s7 + s8 + s9 + s10, s11);
}

pub proof fn lemma_clean_cat15(
    s1: Seq<char>,
    s2: Seq<char>,
    s3: Seq<char>,
    s4: Seq<char>,
    s5: Seq<char>,
    s6: Seq<char>,
    s7: Seq<char>,
    s8: Seq<char>,
    s9: Seq<char>,
    s10: Seq<char>,
    s11: Seq<char>,
    s12: Seq<char>,
    s13: Seq<char>,
    s14: Seq<char>,
    s15: Seq<char>,
)
    requires
        scan_clean(s1),
        scan_clean(s2),
        scan_clean(s3),
        scan_clean(s4),
        scan_clean(s5),
        scan_clean(s6),
        scan_clean(s7),
        scan_clean(s8),
        scan_clean(s9),
        scan_clean(s10),
        scan_clean(s11),
        scan_clean(s12),
        scan_clean(s13),
        scan_clean(s14),
        scan_clean(s15),
    ensures
        scan_clean(
            s1 + s2 + s3 + s4 + s5 + s6 + s7 + s8 + s9 + s10 + s11 + s12 + s13 + s14 + s15,
        ),
{
    lemma_clean_cat11(s1, s2, s3, s4, s5, s6, s7, s8, s9, s10, s11);
    lemma_clean_concat(s1 + s2 + s3 + s4 + s5 + s6 + s7 + s8 + s9 + s10 + s11, s12);
    lemma_clean_concat(s1 + s2 + s3 + s4 + s5 + s6 + s7 + s8 + s9 + s10 + s11 + s12, s13);
    lemma_clean_concat(s1 + s2 + s3 + s4 + s5 + s6 + s7 + s8 + s9 + s10 + s11 + s12 + s13, s14);
    lemma_clean_concat(
        s1 + s2 + s3 + s4 + s5 + s6 + s7 + s8 + s9 + s10 + s11 + s12 + s13 + s14,
        s15,
    );
}

pub proof fn lemma_clean_cat17(
    s1: Seq<char>,
    s2: Seq<char>,
    s3: Seq<char>,
    s4: Seq<char>,
    s5: Seq<char>,
    s6: Seq<char>,
    s7: Seq<char>,
    s8: Seq<char>,
    s9: Seq<char>,
    s10: Seq<char>,
    s11: Seq<char>,
    s12: Seq<char>,
    s13: Seq<char>,
    s14: Seq<char>,
    s15: Seq<char>,
    s16: Seq<char>,
    s17: Seq<char>,
)
    requires
        scan_clean(s1),
        scan_clean(s2),
        scan_clean(s3),
        scan_clean(s4),
        scan_clean(s5),
        scan_clean(s6),
        scan_clean(s7),
        scan_clean(s8),
        scan_clean(s9),
        scan_clean(s10),
        scan_clean(s11),
        scan_clean(s12),
        scan_clean(s13),
        scan_clean(s14),
        scan_clean(s15),
        scan_clean(s16),
        scan_clean(s17),
    ensures
        scan_clean(
            s1 + s2 + s3 + s4 + s5 + s6 + s7 + s8 + s9 + s10 + s11 + s12 + s13 + s14 + s15 + s16
                + s17,
        ),
{
    lemma_clean_cat15(s1, s2, s3, s4, s5, s6, s7, s8, s9, s10, s11, s12, s13, s14, s15);
    let a15 = s1 + s2 + s3 + s4 + s5 + s6 + s7 + s8 + s9 + s10 + s11 + s12 + s13 + s14 + s15;
    lemma_clean_concat(a15, s16);
    lemma_clean_concat(a15 + s16, s17);
}

pub proof fn lemma_clean_cat19(
    s1: Seq<char>,
    s2: Seq<char>,
    s3: Seq<char>,
    s4: Seq<char>,
    s5: Seq<char>,
    s6: Seq<char>,
    s7: Seq<char>,
    s8: Seq<char>,
    s9: Seq<char>,
    s10: Seq<char>,
    s11: Seq<char>,
    s12: Seq<char>,
    s13: Seq<char>,
    s14: Seq<char>,
    s15: Seq<char>,
    s16: Seq<char>,
    s17: Seq<char>,
    s18: Seq<char>,
    s19: Seq<char>,
)
    requires
        scan_clean(s1),
        scan_clean(s2),
        scan_clean(s3),
        scan_clean(s4),
        scan_clean(s5),
        scan_clean(s6),
        scan_clean(s7),
        scan_clean(s8),
        scan_clean(s9),
        scan_clean(s10),
        scan_clean(s11),
        scan_clean(s12),
        scan_clean(s13),
        scan_clean(s14),
        scan_clean(s15),
        scan_clean(s16),
        scan_clean(s17),
        scan_clean(s18),
        scan_clean(s19),
    ensures
        scan_clean(
            s1 + s2 + s3 + s4 + s5 + s6 + s7 + s8 + s9 + s10 + s11 + s12 + s13 + s14 + s15 + s16
                + s17 + s18 + s19,
        ),
{
    lemma_clean_cat15(s1, s2, s3, s4, s5, s6, s7, s8, s9, s10, s11, s12, s13, s14, s15);
    let a15 = s1 + s2 + s3 + s4 + s5 + s6 + s7 + s8 + s9 + s10 + s11 + s12 + s13 + s14 + s15;
    lemma_clean_concat(a15, s16);
    lemma_clean_concat(a15 + s16, s17);
    lemma_clean_concat(a15 + s16 + s17, s18);
    lemma_clean_concat(a15 + s16 + s17 + s18, s19);
}

/// The strings of an entity that are embedded verbatim in markup contain
/// no `<`: the color name, an insert's block name, a dimension's text.
pub open spec fn entity_raw_lt_free(e: Entity) -> bool {
    lt_free(e.color_name@) && match e.specific {
        EntityKind::Insert { name, location, x_scale, y_scale } => lt_free(name@),
        EntityKind::RotatedDimension {
            definition_point_2,
            definition_point_3,
            insertion_point,
            text,
        } => lt_free(text@),
        _ => true,
    }
}

/// The verbatim strings of a configuration contain no `<`.
pub open spec fn options_raw_lt_free(o: crate::options::OptView) -> bool {
    lt_free(o.default_color) && lt_free(o.background_color)
}

/// Every entity fragment satisfies the interior discipline, provided the
/// verbatim strings carry no `<`.
#[verifier::rlimit(100)]
pub proof fn lemma_frag_clean(e: Entity, o: crate::options::OptView, m: bool)
    requires
        entity_raw_lt_free(e),
        options_raw_lt_free(o),
    ensures
        scan_clean(crate::fragments::spec_frag(e, o, m)),
{
    let sa = crate::fragments::spec_stroke_attr(e, o);
    lemma_stroke_lt_free(e, o);
    lemma_lt_free_clean(sa);
    assert(scan_clean(Seq::<char>::empty()));
    match e.specific {
        EntityKind::Line { p1, p2 } => {
            reveal_strlit("<line x1=\"");
            reveal_strlit("\" y1=\"");
            reveal_strlit("\" x2=\"");
            reveal_strlit("\" y2=\"");
            reveal_strlit("\" ");
            reveal_strlit(" fill=\"none\" />");
            lemma_all_clean("<line x1=\""@);
            lemma_all_clean("\" y1=\""@);
            lemma_all_clean("\" x2=\""@);
            lemma_all_clean("\" y2=\""@);
            lemma_all_clean("\" "@);
            lemma_all_clean(" fill=\"none\" />"@);
            lemma_milli_clean(p1.x as int);
            lemma_milli_clean(p1.y as int);
            lemma_milli_clean(p2.x as int);
            lemma_milli_clean(p2.y as int);
            lemma_clean_cat11(
                "<line x1=\""@,
                spec_milli(p1.x as int),
                "\" y1=\""@,
                spec_milli(p1.y as int),
                "\" x2=\""@,
                spec_milli(p2.x as int),
                "\" y2=\""@,
                spec_milli(p2.y as int),
                "\" "@,
                sa,
                " fill=\"none\" />"@,
            );
        },
        EntityKind::Insert { name, location, x_scale, y_scale } => {
            reveal_strlit("<use href=\"#");
            reveal_strlit("\" x=\"");
            reveal_strlit("\" y=\"");
            reveal_strlit("\" width=\"");
            reveal_strlit("\" height=\"");
            reveal_strlit("\" />");
            lemma_all_clean("<use href=\"#"@);
            lemma_all_clean("\" x=\""@);
            lemma_all_clean("\" y=\""@);
            lemma_all_clean("\" width=\""@);
            lemma_all_clean("\" height=\""@);
            lemma_all_clean("\" />"@);
            lemma_lt_free_clean(name@);
            lemma_milli_clean(location.x as int);
            lemma_milli_clean(location.y as int);
            lemma_milli_clean(x_scale as int);
            lemma_milli_clean(y_scale as int);
            lemma_clean_cat11(
                "<use href=\"#"@,
                name@,
                "\" x=\""@,
                spec_milli(location.x as int),
                "\" y=\""@,
                spec_milli(location.y as int),
                "\" width=\""@,
                spec_milli(x_scale as int),
                "\" height=\""@,
                spec_milli(y_scale as int),
                "\" />"@,
            );
        },
        EntityKind::LwPolyline { vertices } => {
            if vertices@.len() >= 2 {
                lemma_polyline_clean(vertices@, sa);
            }
        },
        EntityKind::Polyline { vertices } => {
            if vertices@.len() >= 2 {
                lemma_polyline_clean(vertices@, sa);
            }
        },
        EntityKind::Circle { center, radius } => {
            reveal_strlit("<circle cx=\"");
            reveal_strlit("\" cy=\"");
            reveal_strlit("\" r=\"");
            reveal_strlit("\" ");
            reveal_strlit(" />");
            lemma_all_clean("<circle cx=\""@);
            lemma_all_clean("\" cy=\""@);
            lemma_all_clean("\" r=\""@);
            lemma_all_clean("\" "@);
            lemma_all_clean(" />"@);
            lemma_milli_clean(center.x as int);
            lemma_milli_clean(center.y as int);
            lemma_milli_clean(radius as int);
            lemma_clean_cat9(
                "<circle cx=\""@,
                spec_milli(center.x as int),
                "\" cy=\""@,
                spec_milli(center.y as int),
                "\" r=\""@,
                spec_milli(radius as int),
                "\" "@,
                sa,
                " />"@,
            );
        },
        EntityKind::Arc { center, radius, start_angle, end_angle, start_point, end_point } => {
            reveal_strlit("<path d=\"M ");
            reveal_strlit(" A ");
            reveal_strlit(",");
            reveal_strlit(" 0 ");
            reveal_strlit("1");
            reveal_strlit("0");
            reveal_strlit(" ");
            reveal_strlit("\" ");
            reveal_strlit(" />");
            lemma_all_clean("<path d=\"M "@);
            lemma_all_clean(" A "@);
            lemma_all_clean(","@);
            lemma_all_clean(" 0 "@);
            lemma_all_clean("1"@);
            lemma_all_clean("0"@);
            lemma_all_clean(" "@);
            lemma_all_clean("\" "@);
            lemma_all_clean(" />"@);
            lemma_pair_clean(start_point);
            lemma_pair_clean(end_point);
            lemma_milli_clean(radius as int);
            let f1: Seq<char> = if crate::geom::spec_large_arc(
                start_angle as int,
                end_angle as int,
            ) == 1 {
                "1"@
            } else {
                "0"@
            };
            let f2: Seq<char> = if crate::geom::spec_sweep(start_angle as int, end_angle as int)
                == 1 {
                "1"@
            } else {
                "0"@
            };
            lemma_clean_cat15(
                "<path d=\"M "@,
                crate::fragments::spec_point_pair(start_point),
                " A "@,
                spec_milli(radius as int),
                ","@,
                spec_milli(radius as int),
                " 0 "@,
                f1,
                " "@,
                f2,
                " "@,
                crate::fragments::spec_point_pair(end_point),
                "\" "@,
                sa,
                " />"@,
            );
        },
        EntityKind::Ellipse { center, major_len, minor_ratio, rotation } => {
            reveal_strlit("<ellipse cx=\"");
            reveal_strlit("\" cy=\"");
            reveal_strlit("\" rx=\"");
            reveal_strlit("\" ry=\"");
            reveal_strlit("\" transform=\"rotate(");
            reveal_strlit(" ");
            reveal_strlit(")\" ");
            reveal_strlit(" />");
            lemma_all_clean("<ellipse cx=\""@);
            lemma_all_clean("\" cy=\""@);
            lemma_all_clean("\" rx=\""@);
            lemma_all_clean("\" ry=\""@);
            lemma_all_clean("\" transform=\"rotate("@);
            lemma_all_clean(" "@);
            lemma_all_clean(")\" "@);
            lemma_all_clean(" />"@);
            lemma_milli_clean(center.x as int);
            lemma_milli_clean(center.y as int);
            lemma_milli_clean(major_len as int);
            lemma_milli_clean(crate::geom::div1000(major_len * minor_ratio));
            lemma_milli_clean(rotation as int);
            lemma_clean_cat17(
                "<ellipse cx=\""@,
                spec_milli(center.x as int),
                "\" cy=\""@,
                spec_milli(center.y as int),
                "\" rx=\""@,
                spec_milli(major_len as int),
                "\" ry=\""@,
                spec_milli(crate::geom::div1000(major_len * minor_ratio)),
                "\" transform=\"rotate("@,
                spec_milli(rotation as int),
                " "@,
                spec_milli(center.x as int),
                " "@,
                spec_milli(center.y as int),
                ")\" "@,
                sa,
                " />"@,
            );
        },
        EntityKind::Spline { control_points } => {
            if control_points@.len() >= 2 {
                reveal_strlit("<path d=\"M ");
                reveal_strlit("\" ");
                reveal_strlit(" />");
                lemma_all_clean("<path d=\"M "@);
                lemma_all_clean("\" "@);
                lemma_all_clean(" />"@);
                lemma_pair_clean(control_points@[0]);
                lemma_spline_lt_free(control_points@, 1);
                lemma_lt_free_clean(crate::fragments::spec_spline_curves(control_points@, 1));
                lemma_clean_cat5(
                    "<path d=\"M "@,
                    crate::fragments::spec_point_pair(control_points@[0]),
                    crate::fragments::spec_spline_curves(control_points@, 1),
                    "\" "@,
                    sa,
                );
                lemma_clean_concat(
                    "<path d=\"M "@ + crate::fragments::spec_point_pair(control_points@[0])
                        + crate::fragments::spec_spline_curves(control_points@, 1) + "\" "@ + sa,
                    " />"@,
                );
            }
        },
        EntityKind::Text { location, value } => {
            reveal_strlit("<text x=\"");
            reveal_strlit("\" y=\"");
            reveal_strlit("\" ");
            reveal_strlit(">");
            reveal_strlit("</text>");
            lemma_all_clean("<text x=\""@);
            lemma_all_clean("\" y=\""@);
            lemma_all_clean("\" "@);
            lemma_all_clean(">"@);
            lemma_all_clean("</text>"@);
            lemma_milli_clean(location.x as int);
            lemma_milli_clean(location.y as int);
            lemma_escape_lt_free(value@);
            lemma_lt_free_clean(crate::escape::spec_escape(value@));
            lemma_clean_cat9(
                "<text x=\""@,
                spec_milli(location.x as int),
                "\" y=\""@,
                spec_milli(location.y as int),
                "\" "@,
                sa,
                ">"@,
                crate::escape::spec_escape(value@),
                "</text>"@,
            );
        },
        EntityKind::ModelPoint { location } => {
            reveal_strlit("<circle cx=\"");
            reveal_strlit("\" cy=\"");
            reveal_strlit("\" r=\"1\" ");
            reveal_strlit(" />");
            lemma_all_clean("<circle cx=\""@);
            lemma_all_clean("\" cy=\""@);
            lemma_all_clean("\" r=\"1\" "@);
            lemma_all_clean(" />"@);
            lemma_milli_clean(location.x as int);
            lemma_milli_clean(location.y as int);
            lemma_clean_cat7(
                "<circle cx=\""@,
                spec_milli(location.x as int),
                "\" cy=\""@,
                spec_milli(location.y as int),
                "\" r=\"1\" "@,
                sa,
                " />"@,
            );
        },
        EntityKind::Face3D { first_corner, second_corner, third_corner, fourth_corner } => {
            lemma_polygon_clean(first_corner, second_corner, third_corner, fourth_corner, sa);
        },
        EntityKind::Solid { first_corner, second_corner, third_corner, fourth_corner } => {
            lemma_polygon_clean(first_corner, second_corner, third_corner, fourth_corner, sa);
        },
        EntityKind::Trace { first_corner, second_corner, third_corner, fourth_corner } => {
            lemma_polygon_clean(first_corner, second_corner, third_corner, fourth_corner, sa);
        },
        EntityKind::Leader { vertices } => {
            if vertices@.len() >= 2 {
                reveal_strlit("<polyline points=\"");
                reveal_strlit("\" ");
                reveal_strlit(" marker-end=\"url(#arrowhead)\" />");
                lemma_all_clean("<polyline points=\""@);
                lemma_all_clean("\" "@);
                lemma_all_clean(" marker-end=\"url(#arrowhead)\" />"@);
                lemma_points_lt_free(vertices@);
                lemma_lt_free_clean(crate::fragments::spec_points(vertices@));
                let tail: Seq<char> = if !m {
                    crate::fragments::spec_marker_defs()
                } else {
                    Seq::empty()
                };
                if !m {
                    lemma_marker_defs_clean();
                }
                lemma_clean_cat5(
                    "<polyline points=\""@,
                    crate::fragments::spec_points(vertices@),
                    "\" "@,
                    sa,
                    " marker-end=\"url(#arrowhead)\" />"@,
                );
                lemma_clean_concat(
                    "<polyline points=\""@ + crate::fragments::spec_points(vertices@) + "\" "@
                        + sa + " marker-end=\"url(#arrowhead)\" />"@,
                    tail,
                );
            }
        },
        EntityKind::Helix { axis_base_point, start_point, radius, number_of_turns } => {
            reveal_strlit("<path d=\"M ");
            reveal_strlit("\" ");
            reveal_strlit(" />");
            lemma_all_clean("<path d=\"M "@);
            lemma_all_clean("\" "@);
            lemma_all_clean(" />"@);
            lemma_pair_clean(start_point);
            lemma_helix_lt_free(axis_base_point, radius, 16 * (number_of_turns as int), 1);
            lemma_lt_free_clean(
                crate::fragments::spec_helix_pieces(
                    axis_base_point,
                    radius,
                    16 * (number_of_turns as int),
                    1,
                ),
            );
            lemma_clean_cat5(
                "<path d=\"M "@,
                crate::fragments::spec_point_pair(start_point),
                crate::fragments::spec_helix_pieces(
                    axis_base_point,
                    radius,
                    16 * (number_of_turns as int),
                    1,
                ),
                "\" "@,
                sa,
            );
            lemma_clean_concat(
                "<path d=\"M "@ + crate::fragments::spec_point_pair(start_point)
                    + crate::fragments::spec_helix_pieces(
                    axis_base_point,
                    radius,
                    16 * (number_of_turns as int),
                    1,
                ) + "\" "@ + sa,
                " />"@,
            );
        },
        EntityKind::Shape { location, size, rotation_angle } => {
            reveal_strlit("<rect x=\"");
            reveal_strlit("\" y=\"");
            reveal_strlit("\" width=\"");
            reveal_strlit("\" height=\"");
            reveal_strlit("\" transform=\"rotate(");
            reveal_strlit(" ");
            reveal_strlit(")\" ");
            reveal_strlit(" />");
            lemma_all_clean("<rect x=\""@);
            lemma_all_clean("\" y=\""@);
            lemma_all_clean("\" width=\""@);
            lemma_all_clean("\" height=\""@);
            lemma_all_clean("\" transform=\"rotate("@);
            lemma_all_clean(" "@);
            lemma_all_clean(")\" "@);
            lemma_all_clean(" />"@);
            let half = crate::geom::div_trunc(size as int, 2);
            lemma_milli_clean(location.x - half);
            lemma_milli_clean(location.y - half);
            lemma_milli_clean(size as int);
            lemma_milli_clean(rotation_angle as int);
            lemma_milli_clean(location.x as int);
            lemma_milli_clean(location.y as int);
            lemma_clean_cat17(
                "<rect x=\""@,
                spec_milli(location.x - half),
                "\" y=\""@,
                spec_milli(location.y - half),
                "\" width=\""@,
                spec_milli(size as int),
                "\" height=\""@,
                spec_milli(size as int),
                "\" transform=\"rotate("@,
                spec_milli(rotation_angle as int),
                " "@,
                spec_milli(location.x as int),
                " "@,
                spec_milli(location.y as int),
                ")\" "@,
                sa,
                " />"@,
            );
        },
        EntityKind::RotatedDimension {
            definition_point_2,
            definition_point_3,
            insertion_point,
            text,
        } => {
            reveal_strlit("<line x1=\"");
            reveal_strlit("\" y1=\"");
            reveal_strlit("\" x2=\"");
            reveal_strlit("\" y2=\"");
            reveal_strlit("\" ");
            reveal_strlit(" />");
            reveal_strlit("<text x=\"");
            reveal_strlit("\" y=\"");
            reveal_strlit(" font-size=\"12\" text-anchor=\"middle\">");
            reveal_strlit("</text>");
            lemma_all_clean("<line x1=\""@);
            lemma_all_clean("\" y1=\""@);
            lemma_all_clean("\" x2=\""@);
            lemma_all_clean("\" y2=\""@);
            lemma_all_clean("\" "@);
            lemma_all_clean(" />"@);
            lemma_all_clean("<text x=\""@);
            lemma_all_clean("\" y=\""@);
            lemma_all_clean(" font-size=\"12\" text-anchor=\"middle\">"@);
            lemma_all_clean("</text>"@);
            lemma_milli_clean(definition_point_2.x as int);
            lemma_milli_clean(definition_point_2.y as int);
            lemma_milli_clean(definition_point_3.x as int);
            lemma_milli_clean(definition_point_3.y as int);
            lemma_milli_clean(insertion_point.x as int);
            lemma_milli_clean(insertion_point.y as int);
            lemma_lt_free_clean(text@);
            lemma_clean_cat19(
                "<line x1=\""@,
                spec_milli(definition_point_2.x as int),
                "\" y1=\""@,
                spec_milli(definition_point_2.y as int),
                "\" x2=\""@,
                spec_milli(definition_point_3.x as int),
                "\" y2=\""@,
                spec_milli(definition_point_3.y as int),
                "\" "@,
                sa,
                " />"@,
                "<text x=\""@,
                spec_milli(insertion_point.x as int),
                "\" y=\""@,
                spec_milli(insertion_point.y as int),
                "\" "@,
                sa,
                " font-size=\"12\" text-anchor=\"middle\">"@,
                text@,
            );
            lemma_clean_concat(
                "<line x1=\""@ + spec_milli(definition_point_2.x as int) + "\" y1=\""@
                    + spec_milli(definition_point_2.y as int) + "\" x2=\""@ + spec_milli(
                    definition_point_3.x as int,
                ) + "\" y2=\""@ + spec_milli(definition_point_3.y as int) + "\" "@ + sa + " />"@
                    + "<text x=\""@ + spec_milli(insertion_point.x as int) + "\" y=\""@
                    + spec_milli(insertion_point.y as int) + "\" "@ + sa
                    + " font-size=\"12\" text-anchor=\"middle\">"@ + text@,
                "</text>"@,
            );
        },
        EntityKind::Unsupported => {},
    }
}

/// A polyline fragment satisfies the interior discipline.
pub proof fn lemma_polyline_clean(vs: Seq<Point>, sa: Seq<char>)
    requires
        vs.len() > 0,
        lt_free(sa),
    ensures
        scan_clean(
            "<polyline points=\""@ + crate::fragments::spec_points(vs) + "\" "@ + sa + " />"@,
        ),
{
    reveal_strlit("<polyline points=\"");
    reveal_strlit("\" ");
    reveal_strlit(" />");
    lemma_all_clean("<polyline points=\""@);
    lemma_all_clean("\" "@);
    lemma_all_clean(" />"@);
    lemma_points_lt_free(vs);
    lemma_lt_free_clean(crate::fragments::spec_points(vs));
    lemma_lt_free_clean(sa);
    lemma_clean_cat5(
        "<polyline points=\""@,
        crate::fragments::spec_points(vs),
        "\" "@,
        sa,
        " />"@,
    );
}

/// A polygon fragment satisfies the interior discipline.
pub proof fn lemma_polygon_clean(c1: Point, c2: Point, c3: Point, c4: Point, sa: Seq<char>)
    requires
        lt_free(sa),
    ensures
        scan_clean(
            "<polygon points=\""@ + crate::fragments::spec_point_pair(c1) + " "@
                + crate::fragments::spec_point_pair(c2) + " "@
                + crate::fragments::spec_point_pair(c3) + " "@
                + crate::fragments::spec_point_pair(c4) + "\" "@ + sa + " />"@,
        ),
{
    reveal_strlit("<polygon points=\"");
    reveal_strlit(" ");
    reveal_strlit("\" ");
    reveal_strlit(" />");
    lemma_all_clean("<polygon points=\""@);
    lemma_all_clean(" "@);
    lemma_all_clean("\" "@);
    lemma_all_clean(" />"@);
    lemma_pair_clean(c1);
    lemma_pair_clean(c2);
    lemma_pair_clean(c3);
    lemma_pair_clean(c4);
    lemma_lt_free_clean(sa);
    lemma_clean_cat11(
        "<polygon points=\""@,
        crate::fragments::spec_point_pair(c1),
        " "@,
        crate::fragments::spec_point_pair(c2),
        " "@,
        crate::fragments::spec_point_pair(c3),
        " "@,
        crate::fragments::spec_point_pair(c4),
        "\" "@,
        sa,
        " />"@,
    );
}

/// All entities' verbatim strings contain no `<`.
pub open spec fn entities_raw_lt_free(es: Seq<Entity>) -> bool {
    forall|k: int| 0 <= k < es.len() ==> entity_raw_lt_free(#[trigger] es[k])
}

/// The whole entity body satisfies the interior discipline.
pub proof fn lemma_body_clean(es: Seq<Entity>, o: crate::options::OptView, i: int, m: bool)
    requires
        entities_raw_lt_free(es),
        options_raw_lt_free(o),
    ensures
        scan_clean(crate::render::spec_body_from(es, o, i, m)),
    decreases es.len() - i,
{
    if i < 0 || i >= es.len() {
    } else {
        lemma_frag_clean(es[i], o, m);
        lemma_body_clean(es, o, i + 1, m || crate::fragments::spec_renders_leader(es[i]));
        lemma_clean_concat(
            crate::fragments::spec_frag(es[i], o, m),
            crate::render::spec_body_from(
                es,
                o,
                i + 1,
                m || crate::fragments::spec_renders_leader(es[i]),
            ),
        );
    }
}

/// The background rectangle satisfies the interior discipline.
pub proof fn lemma_background_clean(b: crate::bounds::Bounds, o: crate::options::OptView)
    requires
        lt_free(o.background_color),
    ensures
        scan_clean(crate::render::spec_background(b, o)),
{
    if o.background_color != "none"@ && b.nonempty {
        reveal_strlit("<rect x=\"");
        reveal_strlit("\" y=\"");
        reveal_strlit("\" width=\"");
        reveal_strlit("\" height=\"");
        reveal_strlit("\" fill=\"");
        reveal_strlit("\"/>");
        lemma_all_clean("<rect x=\""@);
        lemma_all_clean("\" y=\""@);
        lemma_all_clean("\" width=\""@);
        lemma_all_clean("\" height=\""@);
        lemma_all_clean("\" fill=\""@);
        lemma_all_clean("\"/>"@);
        lemma_milli_clean(b.min_x as int);
        lemma_milli_clean(-b.max_y);
        lemma_milli_clean(b.max_x - b.min_x);
        lemma_milli_clean(b.max_y - b.min_y);
        lemma_lt_free_clean(o.background_color);
        lemma_clean_cat11(
            "<rect x=\""@,
            spec_milli(b.min_x as int),
            "\" y=\""@,
            spec_milli(-b.max_y),
            "\" width=\""@,
            spec_milli(b.max_x - b.min_x),
            "\" height=\""@,
            spec_milli(b.max_y - b.min_y),
            "\" fill=\""@,
            o.background_color,
            "\"/>"@,
        );
    }
}

/// The document is well-formed markup: it opens with its one `<svg` root
/// tag, closes with its one `</svg>`, and holds exactly one matched
/// transform group when scaling is active and none otherwise — provided
/// the strings embedded verbatim (color names, an insert's block name, a
/// dimension's text, the background color) contain no `<`.
#[verifier::rlimit(100)]
pub proof fn lemma_svg_well_formed(
    es: Seq<Entity>,
    o: crate::options::OptView,
    s: Seq<char>,
)
    requires
        s == crate::render::spec_svg(es, o),
        entities_raw_lt_free(es),
        options_raw_lt_free(o),
    ensures
        s.len() >= 10,
        contains_at(s, "<svg"@, 0),
        forall|i: int| 1 <= i ==> !contains_at(s, "<svg"@, i),
        contains_at(s, "</svg>"@, s.len() - 6),
        forall|i: int| 0 <= i < s.len() - 6 ==> !contains_at(s, "</svg>"@, i),
        (exists|i: int| contains_at(s, "<g "@, i)) <==> (exists|j: int| contains_at(
            s,
            "</g>"@,
            j,
        )),
        forall|i: int, j: int|
            contains_at(s, "<g "@, i) && contains_at(s, "<g "@, j) ==> i == j,
        forall|i: int, j: int|
            contains_at(s, "</g>"@, i) && contains_at(s, "</g>"@, j) ==> i == j,
        forall|i: int, j: int|
            contains_at(s, "<g "@, i) && contains_at(s, "</g>"@, j) ==> i < j,
{
    let b = crate::bounds::spec_pad(crate::bounds::spec_calc_bounds(es), o.padding);
    if crate::render::spec_scaled(b, o) {
        lemma_svg_decompose_scaled(es, o, s);
        let (a, mid) = choose|a: Seq<char>, mid: Seq<char>| wf_split(s, a, mid, true);
        lemma_wf_parts(s, a, "<g transform=\"scale("@, mid, true);
    } else {
        lemma_svg_decompose_default(es, o, s);
        let (a, mid) = choose|a: Seq<char>, mid: Seq<char>| wf_split(s, a, mid, false);
        lemma_wf_parts(s, a, Seq::empty(), mid, false);
    }
}

/// The document splits as root tag, a `<`-free stretch, the optional group
/// opening, a disciplined interior, and the closing tags.
pub open spec fn wf_split(s: Seq<char>, a: Seq<char>, mid: Seq<char>, grouped: bool) -> bool {
    lt_free(a) && scan_clean(mid) && s == "<svg"@ + a + (if grouped {
        "<g transform=\"scale("@
    } else {
        Seq::<char>::empty()
    }) + mid + (if grouped {
        "</g>"@
    } else {
        Seq::<char>::empty()
    }) + "</svg>"@
}

/// The stretch of the scaled root element between the root tag and the
/// group opening.
pub open spec fn seg_viewbox(b: crate::bounds::Bounds) -> Seq<char> {
    " xmlns=\"http://www.w3.org/2000/svg\" xmlns:xlink=\"http://www.w3.org/1999/xlink\" viewBox=\"0 0 1000 "@
        + spec_milli(crate::render::spec_view_height(b))
        + "\" width=\"100%\" height=\"100%\" preserveAspectRatio=\"xMidYMid meet\">"@
}

/// The remainder of the group opening tag after `<g transform="scale(`.
pub open spec fn seg_transform(b: crate::bounds::Bounds) -> Seq<char> {
    spec_milli(crate::render::spec_scale(b)) + ", "@ + spec_milli(-crate::render::spec_scale(b))
        + ") translate("@ + spec_milli(-b.min_x) + ", "@ + spec_milli(-b.max_y) + ")\">"@
}

/// The viewBox stretch holds no `<`.
pub proof fn lemma_seg_viewbox_lt_free(b: crate::bounds::Bounds)
    ensures
        lt_free(seg_viewbox(b)),
{
    reveal_strlit(
        " xmlns=\"http://www.w3.org/2000/svg\" xmlns:xlink=\"http://www.w3.org/1999/xlink\" viewBox=\"0 0 1000 ",
    );
    reveal_strlit("\" width=\"100%\" height=\"100%\" preserveAspectRatio=\"xMidYMid meet\">");
    let pa =
        " xmlns=\"http://www.w3.org/2000/svg\" xmlns:xlink=\"http://www.w3.org/1999/xlink\" viewBox=\"0 0 1000 "@;
    let pb = "\" width=\"100%\" height=\"100%\" preserveAspectRatio=\"xMidYMid meet\">"@;
    lemma_all_not_lt(pa);
    lemma_all_not_lt(pb);
    lemma_milli_lt_free(crate::render::spec_view_height(b));
    lemma_lt_free_concat(pa, spec_milli(crate::render::spec_view_height(b)));
    lemma_lt_free_concat(pa + spec_milli(crate::render::spec_view_height(b)), pb);
}

/// The transform stretch holds no `<`.
pub proof fn lemma_seg_transform_lt_free(b: crate::bounds::Bounds)
    ensures
        lt_free(seg_transform(b)),
{
    reveal_strlit(", ");
    reveal_strlit(") translate(");
    reveal_strlit(")\">");
    let m1 = spec_milli(crate::render::spec_scale(b));
    let m2 = spec_milli(-crate::render::spec_scale(b));
    let m3 = spec_milli(-b.min_x);
    let m4 = spec_milli(-b.max_y);
    lemma_all_not_lt(", "@);
    lemma_all_not_lt(") translate("@);
    lemma_all_not_lt(")\">"@);
    lemma_milli_lt_free(crate::render::spec_scale(b));
    lemma_milli_lt_free(-crate::render::spec_scale(b));
    lemma_milli_lt_free(-b.min_x);
    lemma_milli_lt_free(-b.max_y);
    lemma_lt_free_concat(m1, ", "@);
    lemma_lt_free_concat(m1 + ", "@, m2);
    lemma_lt_free_concat(m1 + ", "@ + m2, ") translate("@);
    lemma_lt_free_concat(m1 + ", "@ + m2 + ") translate("@, m3);
    lemma_lt_free_concat(m1 + ", "@ + m2 + ") translate("@ + m3, ", "@);
    lemma_lt_free_concat(m1 + ", "@ + m2 + ") translate("@ + m3 + ", "@, m4);
    lemma_lt_free_concat(m1 + ", "@ + m2 + ") translate("@ + m3 + ", "@ + m4, ")\">"@);
}

/// The scaled header regrouped around its group opening.
#[verifier::rlimit(100)]
pub proof fn lemma_header_regroup(b: crate::bounds::Bounds, o: crate::options::OptView)
    requires
        crate::render::spec_scaled(b, o),
    ensures
        crate::render::spec_header(b, o) == "<svg"@ + seg_viewbox(b) + "<g transform=\"scale("@
            + seg_transform(b),
{
    assert(crate::render::spec_header(b, o) =~= "<svg"@ + seg_viewbox(b)
        + "<g transform=\"scale("@ + seg_transform(b));
}

/// With scaling active, the document splits around its transform group.
#[verifier::rlimit(100)]
pub proof fn lemma_svg_decompose_scaled(es: Seq<Entity>, o: crate::options::OptView, s: Seq<char>)
    requires
        s == crate::render::spec_svg(es, o),
        entities_raw_lt_free(es),
        options_raw_lt_free(o),
        crate::render::spec_scaled(
            crate::bounds::spec_pad(crate::bounds::spec_calc_bounds(es), o.padding),
            o,
        ),
    ensures
        exists|a: Seq<char>, mid: Seq<char>| wf_split(s, a, mid, true),
{
    let b = crate::bounds::spec_pad(crate::bounds::spec_calc_bounds(es), o.padding);
    let body = crate::render::spec_body_from(es, o, 0, false);
    let bg = crate::render::spec_background(b, o);
    let a = seg_viewbox(b);
    let gt = "<g transform=\"scale("@;
    let grest = seg_transform(b);
    let mid = grest + bg + body;
    lemma_seg_viewbox_lt_free(b);
    assert(scan_clean(mid)) by {
        lemma_seg_transform_lt_free(b);
        lemma_lt_free_clean(grest);
        lemma_background_clean(b, o);
        lemma_body_clean(es, o, 0, false);
        lemma_clean_concat(grest, bg);
        lemma_clean_concat(grest + bg, body);
    }
    lemma_header_regroup(b, o);
    assert(s =~= "<svg"@ + a + gt + mid + "</g>"@ + "</svg>"@) by {
        assert(s == crate::render::spec_header(b, o) + bg + body + "</g>"@ + "</svg>"@);
        assert(crate::render::spec_header(b, o) == "<svg"@ + a + gt + grest);
    }
    assert(wf_split(s, a, mid, true));
}

/// Without scaling, the document splits around the default root element.
#[verifier::rlimit(100)]
pub proof fn lemma_svg_decompose_default(es: Seq<Entity>, o: crate::options::OptView, s: Seq<char>)
    requires
        s == crate::render::spec_svg(es, o),
        entities_raw_lt_free(es),
        options_raw_lt_free(o),
        !crate::render::spec_scaled(
            crate::bounds::spec_pad(crate::bounds::spec_calc_bounds(es), o.padding),
            o,
        ),
    ensures
        exists|a: Seq<char>, mid: Seq<char>| wf_split(s, a, mid, false),
{
    let b = crate::bounds::spec_pad(crate::bounds::spec_calc_bounds(es), o.padding);
    let body = crate::render::spec_body_from(es, o, 0, false);
    let bg = crate::render::spec_background(b, o);
    lemma_body_clean(es, o, 0, false);
    lemma_background_clean(b, o);
    let pd =
        " xmlns=\"http://www.w3.org/2000/svg\" viewBox=\"0 0 100 100\" xmlns:xlink=\"http://www.w3.org/1999/xlink\">"@;
    let mid = pd + bg + body;
    assert(scan_clean(mid)) by {
        reveal_strlit(
            " xmlns=\"http://www.w3.org/2000/svg\" viewBox=\"0 0 100 100\" xmlns:xlink=\"http://www.w3.org/1999/xlink\">",
        );
        lemma_all_not_lt(pd);
        lemma_lt_free_clean(pd);
        lemma_clean_concat(pd, bg);
        lemma_clean_concat(pd + bg, body);
    }
    assert(s =~= "<svg"@ + Seq::<char>::empty() + Seq::<char>::empty() + mid + Seq::<
        char,
    >::empty() + "</svg>"@);
    assert(wf_split(s, Seq::<char>::empty(), mid, false));
}

/// The character-level argument over the document's decomposition: with a
/// `<`-free stretch after the root tag, an interior obeying the scan
/// discipline, and the two closing tags, each pattern occurs exactly where
/// the construction put it.
#[verifier::rlimit(100)]
pub proof fn lemma_wf_parts(s: Seq<char>, a: Seq<char>, gt: Seq<char>, mid: Seq<char>, grouped: bool)
    requires
        lt_free(a),
        scan_clean(mid),
        grouped ==> gt == "<g transform=\"scale("@,
        !grouped ==> gt == Seq::<char>::empty(),
        s == "<svg"@ + a + gt + mid + (if grouped {
            "</g>"@
        } else {
            Seq::<char>::empty()
        }) + "</svg>"@,
    ensures
        s.len() >= 10,
        contains_at(s, "<svg"@, 0),
        forall|i: int| 1 <= i ==> !contains_at(s, "<svg"@, i),
        contains_at(s, "</svg>"@, s.len() - 6),
        forall|i: int| 0 <= i < s.len() - 6 ==> !contains_at(s, "</svg>"@, i),
        grouped ==> contains_at(s, "<g "@, 4 + a.len() as int),
        forall|i: int| contains_at(s, "<g "@, i) ==> grouped && i == 4 + a.len(),
        grouped ==> contains_at(s, "</g>"@, 4 + a.len() + gt.len() + mid.len() as int),
        forall|i: int|
            contains_at(s, "</g>"@, i) ==> grouped && i == 4 + a.len() + gt.len() + mid.len(),
        (exists|i: int| contains_at(s, "<g "@, i)) <==> (exists|j: int| contains_at(
            s,
            "</g>"@,
            j,
        )),
        forall|i: int, j: int|
            contains_at(s, "<g "@, i) && contains_at(s, "<g "@, j) ==> i == j,
        forall|i: int, j: int|
            contains_at(s, "</g>"@, i) && contains_at(s, "</g>"@, j) ==> i == j,
        forall|i: int, j: int|
            contains_at(s, "<g "@, i) && contains_at(s, "</g>"@, j) ==> i < j,
{
    reveal_strlit("<svg");
    reveal_strlit("</svg>");
    reveal_strlit("<g ");
    reveal_strlit("</g>");
    reveal_strlit("<g transform=\"scale(");
    lemma_lt_free_all(a);
    let cg: Seq<char> = if grouped {
        "</g>"@
    } else {
        Seq::<char>::empty()
    };
    let n1 = 4 + a.len() as int;
    let n2 = n1 + gt.len() as int;
    let n3 = n2 + mid.len() as int;
    let n4 = n3 + cg.len() as int;
    let n5 = n4 + 6;
    assert(s.len() == n5);
    // where the root tags stand
    assert(contains_at(s, "<svg"@, 0)) by {
        assert(s.subrange(0, 4) =~= "<svg"@);
    }
    assert(contains_at(s, "</svg>"@, n4)) by {
        assert(s.subrange(n4, n4 + 6) =~= "</svg>"@);
    }
    if grouped {
        assert(contains_at(s, "<g "@, n1)) by {
            assert(s.subrange(n1, n1 + 3) =~= "<g "@);
        }
        assert(contains_at(s, "</g>"@, n3)) by {
            assert(s.subrange(n3, n3 + 4) =~= "</g>"@);
        }
    }
    // interior characters: what follows each '<'
    assert forall|i: int| 1 <= i implies !contains_at(s, "<svg"@, i) by {
        if contains_at(s, "<svg"@, i) {
            assert(s[i] == '<' && s[i + 1] == 's') by {
                assert(s.subrange(i, i + 4)[0] == s[i]);
                assert(s.subrange(i, i + 4)[1] == s[i + 1]);
            }
            if i < 4 {
            } else if i < n1 {
                assert(s[i] == a[i - 4]);
            } else if i < n2 {
                assert(s[i] == gt[i - n1]);
                if i == n1 {
                    assert(s[i + 1] == gt[1]);
                }
            } else if i < n3 {
                assert(s[i] == mid[i - n2]);
                lemma_clean_char(mid, i - n2);
                assert(s[i + 1] == mid[i - n2 + 1]);
            } else if i < n4 {
                assert(s[i] == cg[i - n3]);
                if i == n3 {
                    assert(s[i + 1] == cg[1]);
                }
            } else {
                if i == n4 {
                    assert(s[i + 1] == '/');
                }
            }
        }
    }
    assert forall|i: int| 0 <= i < s.len() - 6 implies !contains_at(s, "</svg>"@, i) by {
        if contains_at(s, "</svg>"@, i) {
            assert(s[i] == '<' && s[i + 1] == '/' && s[i + 2] == 's') by {
                assert(s.subrange(i, i + 6)[0] == s[i]);
                assert(s.subrange(i, i + 6)[1] == s[i + 1]);
                assert(s.subrange(i, i + 6)[2] == s[i + 2]);
            }
            if i < 4 {
                if i == 0 {
                    assert(s[1] == 's');
                }
            } else if i < n1 {
                assert(s[i] == a[i - 4]);
            } else if i < n2 {
                assert(s[i] == gt[i - n1]);
                if i == n1 {
                    assert(s[i + 1] == gt[1]);
                }
            } else if i < n3 {
                assert(s[i] == mid[i - n2]);
                lemma_clean_char(mid, i - n2);
                if mid[i - n2] == '<' && mid[i - n2 + 1] == '/' {
                    assert(s[i + 1] == mid[i - n2 + 1]);
                    assert(s[i + 2] == mid[i - n2 + 2]);
                } else {
                    assert(s[i + 1] == mid[i - n2 + 1]);
                }
            } else if i < n4 {
                assert(s[i] == cg[i - n3]);
                if i == n3 {
                    assert(s[i + 2] == cg[2]);
                }
            } else {
            }
        }
    }
    assert forall|i: int| contains_at(s, "<g "@, i) implies grouped && i == n1 by {
        assert(s[i] == '<' && s[i + 1] == 'g') by {
            assert(s.subrange(i, i + 3)[0] == s[i]);
            assert(s.subrange(i, i + 3)[1] == s[i + 1]);
        }
        if i < 4 {
            if i == 0 {
                assert(s[1] == 's');
            }
        } else if i < n1 {
            assert(s[i] == a[i - 4]);
        } else if i < n2 {
            assert(s[i] == gt[i - n1]);
        } else if i < n3 {
            assert(s[i] == mid[i - n2]);
            lemma_clean_char(mid, i - n2);
            assert(s[i + 1] == mid[i - n2 + 1]);
        } else if i < n4 {
            assert(s[i] == cg[i - n3]);
            if i == n3 {
                assert(s[i + 1] == cg[1]);
            }
        } else {
            if i == n4 {
                assert(s[i + 1] == '/');
            }
        }
    }
    assert forall|i: int| contains_at(s, "</g>"@, i) implies grouped && i == n3 by {
        assert(s[i] == '<' && s[i + 1] == '/' && s[i + 2] == 'g') by {
            assert(s.subrange(i, i + 4)[0] == s[i]);
            assert(s.subrange(i, i + 4)[1] == s[i + 1]);
            assert(s.subrange(i, i + 4)[2] == s[i + 2]);
        }
        if i < 4 {
            if i == 0 {
                assert(s[1] == 's');
            }
        } else if i < n1 {
            assert(s[i] == a[i - 4]);
        } else if i < n2 {
            assert(s[i] == gt[i - n1]);
            if i == n1 {
                assert(s[i + 1] == gt[1]);
            }
        } else if i < n3 {
            assert(s[i] == mid[i - n2]);
            lemma_clean_char(mid, i - n2);
            if mid[i - n2] == '<' && mid[i - n2 + 1] == '/' {
                assert(s[i + 1] == mid[i - n2 + 1]);
                assert(s[i + 2] == mid[i - n2 + 2]);
            } else {
                assert(s[i + 1] == mid[i - n2 + 1]);
            }
        } else if i < n4 {
            assert(s[i] == cg[i - n3]);
        } else {
            if i == n4 {
                assert(s[i + 2] == 's');
            }
        }
    }
}

} // verus!
