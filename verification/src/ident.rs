//! Generation of the unique database identity that one manager owns.

use vstd::prelude::*;

verus! {

/// Characters allowed in a generated database identity: lower-case ASCII
/// letters, decimal digits, underscore and hyphen. None of them needs
/// escaping inside a quoted SQL identifier or literal.
pub open spec fn is_ident_char(c: char) -> bool {
    (('a' as u32) <= (c as u32) && (c as u32) <= ('z' as u32)) || (('0' as u32) <= (c as u32) && (
    c as u32) <= ('9' as u32)) || c == '_' || c == '-'
}

/// Lower-case hexadecimal digit.
pub open spec fn is_lower_hex_char(c: char) -> bool {
    (('0' as u32) <= (c as u32) && (c as u32) <= ('9' as u32)) || (('a' as u32) <= (c as u32) && (
    c as u32) <= ('f' as u32))
}

/// The character that stands at offset `i` of the canonical hyphenated
/// 128-bit identifier text: a hyphen at offsets 8, 13, 18 and 23, a
/// lower-case hexadecimal digit everywhere else.
pub open spec fn is_hyphenated_id_char(c: char, i: int) -> bool {
    if i == 8 || i == 13 || i == 18 || i == 23 {
        c == '-'
    } else {
        is_lower_hex_char(c)
    }
}

/// A well-formed database identity: non-empty and made of identity
/// characters only.
pub open spec fn wf_dbname(s: Seq<char>) -> bool {
    s.len() > 0 && forall|i: int| 0 <= i < s.len() ==> is_ident_char(#[trigger] s[i])
}

/// A well-formed database identity contains neither a double quote nor a
/// single quote, so splicing it between quotes in the create, drop and
/// terminate statements cannot alter their shape.
pub proof fn lemma_wf_dbname_quote_safe(s: Seq<char>)
    requires
        wf_dbname(s),
    ensures
        !s.contains('"'),
        !s.contains('\''),
{
    assert forall|i: int| 0 <= i < s.len() implies s[i] != '"' && s[i] != '\'' by {
        assert(is_ident_char(s[i]));
    }
}

/// Relies on uuid::Uuid::new_v4 and the text form that uuid's Display gives
/// it: the hyphenated lower-case rendering, 36 characters long, with hyphens
/// at offsets 8, 13, 18 and 23 and lower-case hexadecimal digits everywhere
/// else. The value itself is random, so nothing more is promised.
#[verifier::external_body]
fn random_identity() -> (r: String)
    ensures
        r@.len() == 36,
        forall|i: int| 0 <= i < 36 ==> is_hyphenated_id_char(#[trigger] r@[i], i),
{
    uuid::Uuid::new_v4().to_string()
}

/// Draws a fresh database identity: `test_` followed by a random 128-bit
/// identifier in hyphenated form. The result is always 41 characters of the
/// safe identity charset; distinctness across draws rests on the randomness
/// of the identifier.
pub fn fresh_dbname() -> (r: String)
    ensures
        r@.len() == 41,
        r@.subrange(0, 5) == "test_"@,
        wf_dbname(r@),
{
    let mut s = String::from_str("test_");
    let id = random_identity();
    s.append(id.as_str());
    proof {
        reveal_strlit("test_");
        assert(s@.subrange(0, 5) =~= "test_"@);
        assert forall|i: int| 0 <= i < s@.len() implies is_ident_char(#[trigger] s@[i]) by {
            if i < 5 {
                assert(s@[i] == "test_"@[i]);
            } else {
                assert(s@[i] == id@[i - 5]);
                assert(is_hyphenated_id_char(id@[i - 5], i - 5));
            }
        }
    }
    s
}

} // verus!
