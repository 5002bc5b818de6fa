//! Replacing characters that are unsafe in file names.

use vstd::prelude::*;

use crate::strutil::char_to_string;

verus! {

/// True of the characters that `sanitize_path` replaces with an underscore.
pub open spec fn is_reserved_char(c: char) -> bool {
    c == '<' || c == '>' || c == ':' || c == '"' || c == '/' || c == '\\' || c == '|' || c == '?'
        || c == '*'
}

/// The sanitized form of a path: every reserved character becomes '_'.
pub open spec fn spec_sanitize(s: Seq<char>) -> Seq<char> {
    s.map(|_i: int, c: char| if is_reserved_char(c) { '_' } else { c })
}

/// Replaces every character that is reserved in common file systems with '_'.
pub fn sanitize_path(path: &str) -> (r: String)
    ensures
        r@ == spec_sanitize(path@),
{
    let len = path.unicode_len();
    let mut out = String::new();
    let mut i: usize = 0;
    while i < len
        invariant
            len == path@.len(),
            i <= len,
            out@ == spec_sanitize(path@.subrange(0, i as int)),
        decreases len - i,
    {
        let c = path.get_char(i);
        let rep = c == '<' || c == '>' || c == ':' || c == '"' || c == '/' || c == '\\' || c == '|'
            || c == '?' || c == '*';
        if rep {
            out.append("_");
            proof {
                reveal_strlit("_");
            }
        } else {
            let one = char_to_string(c);
            out.append(one.as_str());
        }
        proof {
            assert(out@ =~= spec_sanitize(path@.subrange(0, i + 1 as int)));
        }
        i = i + 1;
    }
    proof {
        assert(path@.subrange(0, len as int) =~= path@);
    }
    out
}

} // verus!
