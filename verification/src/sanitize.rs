//! Filename sanitization for exported index statements.
//!
//! The source catalog quotes index names with square brackets; those
//! characters are removed before the name is used as a filename, and the
//! fixed statement-file suffix `.sql` is appended.

use vstd::prelude::*;

verus! {

/// Characters that survive sanitization: everything but `[` and `]`.
pub open spec fn keeps(c: char) -> bool {
    c != '[' && c != ']'
}

/// The index name with every `[` and `]` removed.
pub open spec fn strip_brackets(s: Seq<char>) -> Seq<char> {
    s.filter(|c: char| keeps(c))
}

/// The statement-file suffix appended to every sanitized index name.
pub open spec fn sql_suffix() -> Seq<char> {
    seq!['.', 's', 'q', 'l']
}

/// The filename produced for an index name: brackets removed, suffix
/// appended.
pub open spec fn sanitized_file_name(s: Seq<char>) -> Seq<char> {
    strip_brackets(s) + sql_suffix()
}

/// Turns a vector of characters into a `String` whose view is exactly
/// that character sequence.
///
/// Relies on `String`'s `FromIterator<char>` implementation, which
/// appends the iterated characters in order.
#[verifier::external_body]
fn chars_to_string(chars: &Vec<char>) -> (r: String)
    ensures
        r@ == chars@,
{
    chars.iter().collect()
}

/// Derives the statement filename for an index: removes every `[` and
/// `]` from the name and appends `.sql`.
pub fn sanitize_index_file_name(name: &str) -> (r: String)
    ensures
        r@ == sanitized_file_name(name@),
{
    let n: usize = name.unicode_len();
    let mut kept: Vec<char> = Vec::new();
    let mut i: usize = 0;
    while i < n
        invariant
            i <= n,
            n == name@.len(),
            kept@ == strip_brackets(name@.subrange(0, i as int)),
        decreases n - i,
    {
        let c: char = name.get_char(i);
        proof {
            reveal(Seq::filter);
            assert(name@.subrange(0, i + 1 as int).drop_last() =~= name@.subrange(0, i as int));
            assert(name@.subrange(0, i + 1 as int).last() == c);
        }
        if c != '[' && c != ']' {
            kept.push(c);
        }
        i = i + 1;
    }
    proof {
        assert(name@.subrange(0, n as int) =~= name@);
    }
    let mut out: String = chars_to_string(&kept);
    out.append(".sql");
    proof {
        reveal_strlit(".sql");
        assert(".sql"@ =~= sql_suffix());
    }
    out
}

/// Sanitization law: the produced filename contains no bracket
/// characters in its name part, is never shorter than the suffix, and
/// ends with the fixed suffix `.sql`.
pub proof fn lemma_sanitized_file_name(s: Seq<char>)
    ensures
        forall|i: int|
            0 <= i < strip_brackets(s).len() ==> keeps(#[trigger] sanitized_file_name(s)[i]),
        sanitized_file_name(s).len() == strip_brackets(s).len() + 4,
        sanitized_file_name(s).subrange(
            sanitized_file_name(s).len() - 4,
            sanitized_file_name(s).len() as int,
        ) =~= sql_suffix(),
        strip_brackets(s).len() <= s.len(),
{
    broadcast use vstd::seq_lib::group_filter_ensures;

    let out = sanitized_file_name(s);
    assert forall|i: int| 0 <= i < strip_brackets(s).len() implies keeps(#[trigger] out[i]) by {
        assert(out[i] == strip_brackets(s)[i]);
    }
}

} // verus!
