//! XML text escaping: the five-character substitution table applied to all
//! user-supplied text content before it is embedded in markup.

use vstd::prelude::*;

verus! {

/// The replacement text for one character: each of the five XML-special
/// characters becomes its entity reference, every other character stays.
pub open spec fn esc_char(c: char) -> Seq<char> {
    if c == '&' {
        "&amp;"@
    } else if c == '<' {
        "&lt;"@
    } else if c == '>' {
        "&gt;"@
    } else if c == '"' {
        "&quot;"@
    } else if c == '\'' {
        "&apos;"@
    } else {
        seq![c]
    }
}

/// The escaped form of a text: the concatenation of the per-character
/// replacements, in order.
pub open spec fn spec_escape(s: Seq<char>) -> Seq<char>
    decreases s.len(),
{
    if s.len() == 0 {
        Seq::empty()
    } else {
        esc_char(s[0]) + spec_escape(s.drop_first())
    }
}

/// Escape special characters in XML text content.
pub fn escape_xml_text(text: &str) -> (res: String)
    ensures
        res@ == spec_escape(text@),
{
    let len = text.unicode_len();
    let mut out = String::new();
    let mut i: usize = 0;
    proof {
        assert(text@.skip(0) =~= text@);
        assert(out@ + spec_escape(text@.skip(0)) =~= spec_escape(text@));
    }
    while i < len
        invariant
            i <= len,
            len == text@.len(),
            out@ + spec_escape(text@.skip(i as int)) == spec_escape(text@),
        decreases len - i,
    {
        let c = text.get_char(i);
        proof {
            assert(text@.skip(i as int).len() > 0);
            assert(text@.skip(i as int)[0] == text@[i as int]);
            assert(text@.skip(i as int).drop_first() =~= text@.skip(i + 1));
        }
        if c == '&' {
            out.append("&amp;");
        } else if c == '<' {
            out.append("&lt;");
        } else if c == '>' {
            out.append("&gt;");
        } else if c == '"' {
            out.append("&quot;");
        } else if c == '\'' {
            out.append("&apos;");
        } else {
            let piece = text.substring_char(i, i + 1);
            proof {
                assert(piece@ =~= seq![text@[i as int]]);
            }
            out.append(piece);
        }
        proof {
            assert(out@ + spec_escape(text@.skip(i + 1)) =~= spec_escape(text@));
        }
        i = i + 1;
    }
    proof {
        assert(text@.skip(len as int) =~= Seq::<char>::empty());
        assert(out@ =~= spec_escape(text@));
    }
    out
}

} // verus!
