//! The deterministic output file name of a flavor: the snake-cased flavor
//! name with the flavor header suffix.

use vstd::prelude::*;
use vstd::string::StrSliceExecFns;
use vstd::string::StringExecFns;

verus! {

/// Whether `c` is an ASCII uppercase letter.
pub open spec fn is_ascii_upper(c: char) -> bool {
    'A' <= c && c <= 'Z'
}

/// The ASCII lowercase counterpart of `c`; other characters are unchanged.
pub open spec fn lower_char(c: char) -> char {
    if is_ascii_upper(c) {
        ((c as u8 + 32) as u8) as char
    } else {
        c
    }
}

/// The piece a single character contributes to a snake-cased name: an
/// uppercase letter is lowercased, and prefixed with an underscore unless it
/// starts the name; every other character is kept as it is.
pub open spec fn snake_piece(c: char, first: bool) -> Seq<char> {
    if is_ascii_upper(c) {
        if first {
            seq![lower_char(c)]
        } else {
            seq!['_', lower_char(c)]
        }
    } else {
        seq![c]
    }
}

/// The snake-cased form of a name.
pub open spec fn snake_cased(s: Seq<char>) -> Seq<char>
    decreases s.len(),
{
    if s.len() == 0 {
        Seq::empty()
    } else {
        snake_cased(s.drop_last()) + snake_piece(s.last(), s.len() == 1)
    }
}

/// Relies on String::push: appends exactly the given character.
#[verifier::external_body]
fn push_char(s: &mut String, c: char)
    ensures
        final(s)@ == old(s)@.push(c),
{
    s.push(c);
}

/// The snake-cased form of `name`.
pub fn snake_case(name: &str) -> (r: String)
    ensures
        r@ == snake_cased(name@),
{
    let n = name.unicode_len();
    let mut out = String::new();
    let mut i: usize = 0;
    while i < n
        invariant
            n == name@.len(),
            0 <= i <= n,
            out@ == snake_cased(name@.take(i as int)),
        decreases n - i,
    {
        let c = name.get_char(i);
        if 'A' <= c && c <= 'Z' {
            if i > 0 {
                push_char(&mut out, '_');
            }
            push_char(&mut out, ((c as u8) + 32) as char);
        } else {
            push_char(&mut out, c);
        }
        proof {
            let t = name@.take(i as int + 1);
            assert(t.drop_last() =~= name@.take(i as int));
            assert(t.last() == name@[i as int]);
            assert(out@ =~= snake_cased(name@.take(i as int)) + snake_piece(
                name@[i as int],
                i == 0,
            ));
        }
        i += 1;
    }
    proof {
        assert(name@.take(n as int) =~= name@);
    }
    out
}

/// The output file name a flavor is written under: its snake-cased name
/// with the flavor header suffix.
pub fn output_file_name(name: &str) -> (r: String)
    ensures
        r@ == snake_cased(name@) + "_flavor.hpp"@,
{
    let mut out = snake_case(name);
    out.append("_flavor.hpp");
    out
}

} // verus!
