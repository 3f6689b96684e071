//! Conversion of capitalised multi-word identifiers to snake case.

use vstd::prelude::*;

verus! {

/// The separator put in front of every uppercase letter but a leading one.
pub open spec fn separator() -> char {
    '_'
}

pub open spec fn is_ascii_upper(c: char) -> bool {
    'A' <= c && c <= 'Z'
}

/// ASCII lowercase form of `c`; any other character is left as it is.
pub open spec fn ascii_lower(c: char) -> char {
    if is_ascii_upper(c) {
        ((c as u32) + 32) as char
    } else {
        c
    }
}

/// `s` holds no uppercase ASCII letter.
pub open spec fn no_ascii_upper(s: Seq<char>) -> bool {
    forall|i: int| 0 <= i < s.len() ==> !is_ascii_upper(#[trigger] s[i])
}

/// What the character at position `i` of an identifier turns into: an
/// uppercase ASCII letter becomes its lowercase form, preceded by a separator
/// unless it comes first; any other character stays.
pub open spec fn snake_piece(c: char, i: int) -> Seq<char> {
    if is_ascii_upper(c) {
        if i > 0 {
            seq![separator(), ascii_lower(c)]
        } else {
            seq![ascii_lower(c)]
        }
    } else {
        seq![c]
    }
}

/// Snake-case form of `s`, the pieces of its characters in order.
pub open spec fn snake_case(s: Seq<char>) -> Seq<char>
    decreases s.len(),
{
    if s.len() == 0 {
        Seq::empty()
    } else {
        snake_case(s.drop_last()) + snake_piece(s.last(), s.len() - 1)
    }
}

/// Lowercase form of an uppercase ASCII letter.
fn lower_of_upper(c: char) -> (r: char)
    requires
        is_ascii_upper(c),
    ensures
        r == ascii_lower(c),
{
    let b: u8 = c as u8;
    (b + 32) as char
}

/// Relies on `String::push`: appends one character at the end.
#[verifier::external_body]
pub(crate) fn push_char(s: &mut String, c: char)
    ensures
        final(s)@ == old(s)@.push(c),
{
    s.push(c);
}

proof fn lemma_piece_no_upper(c: char, i: int)
    ensures
        no_ascii_upper(snake_piece(c, i)),
{
    if is_ascii_upper(c) {
        assert(!is_ascii_upper(ascii_lower(c)));
    }
}

proof fn lemma_snake_case_no_upper(s: Seq<char>)
    ensures
        no_ascii_upper(snake_case(s)),
    decreases s.len(),
{
    if s.len() > 0 {
        lemma_snake_case_no_upper(s.drop_last());
        lemma_piece_no_upper(s.last(), s.len() - 1);
        let a = snake_case(s.drop_last());
        let b = snake_piece(s.last(), s.len() - 1);
        assert forall|i: int| 0 <= i < (a + b).len() implies !is_ascii_upper(#[trigger] (a + b)[i]) by {
            if i >= a.len() {
                assert((a + b)[i] == b[i - a.len()]);
            }
        }
    }
}

proof fn lemma_snake_case_fixes_lower(s: Seq<char>)
    requires
        no_ascii_upper(s),
    ensures
        snake_case(s) == s,
    decreases s.len(),
{
    if s.len() > 0 {
        let p = s.drop_last();
        assert(no_ascii_upper(p)) by {
            assert forall|i: int| 0 <= i < p.len() implies !is_ascii_upper(#[trigger] p[i]) by {
                assert(p[i] == s[i]);
            }
        }
        lemma_snake_case_fixes_lower(p);
        assert(!is_ascii_upper(s[s.len() - 1]));
        assert(p + seq![s.last()] =~= s);
    }
}

/// Normalising is idempotent: the snake-case form of a snake-case form is
/// that form itself.  This holds of every character sequence, in particular
/// of every non-empty ASCII identifier made of letters and digits.
pub proof fn lemma_snake_case_idempotent(s: Seq<char>)
    ensures
        snake_case(snake_case(s)) == snake_case(s),
{
    lemma_snake_case_no_upper(s);
    lemma_snake_case_fixes_lower(snake_case(s));
}

/// An identifier without uppercase ASCII letters is already in snake case.
pub proof fn lemma_snake_case_of_lowercase(s: Seq<char>)
    requires
        no_ascii_upper(s),
    ensures
        snake_case(s) == s,
{
    lemma_snake_case_fixes_lower(s);
}

/// The snake-case form of an identifier: each uppercase ASCII letter is
/// lowercased and, unless it is the first character, preceded by `_`; every
/// other character (digits, underscores, lowercase and non-ASCII letters)
/// passes through unchanged.  The result holds no uppercase ASCII letter, so
/// an ASCII lowercasing pass over it changes nothing; letters outside ASCII
/// keep their case.
pub fn camel_case_to_snake_case(camel_case: &str) -> (snake_case_name: String)
    ensures
        snake_case_name@ == snake_case(camel_case@),
        no_ascii_upper(snake_case_name@),
{
    let n: usize = camel_case.unicode_len();
    let mut out = String::new();
    let mut i: usize = 0;
    while i < n
        invariant
            n == camel_case@.len(),
            i <= n,
            out@ == snake_case(camel_case@.subrange(0, i as int)),
            no_ascii_upper(out@),
        decreases n - i,
    {
        let c = camel_case.get_char(i);
        proof {
            let pre = camel_case@.subrange(0, i as int);
            let next = camel_case@.subrange(0, i + 1);
            assert(next.drop_last() =~= pre);
            lemma_piece_no_upper(c, i as int);
        }
        if 'A' <= c && c <= 'Z' {
            if i > 0 {
                push_char(&mut out, '_');
            }
            push_char(&mut out, lower_of_upper(c));
        } else {
            push_char(&mut out, c);
        }
        proof {
            let pre = camel_case@.subrange(0, i as int);
            assert(out@ =~= snake_case(pre) + snake_piece(c, i as int));
        }
        i = i + 1;
    }
    assert(camel_case@.subrange(0, n as int) =~= camel_case@);
    out
}

} // verus!
