//! Path/extension validator: a pure predicate that decides whether a path
//! satisfies a required-suffix policy, compared ASCII-case-insensitively.

use vstd::prelude::*;

verus! {

/// Why a path was rejected by an extension policy.
#[derive(Clone, Copy, PartialEq, Eq, Structural, Debug)]
pub enum ValidationError {
    /// The path does not end with the required suffix.
    WrongExtension,
}

/// ASCII lower-casing of one character: `'A'..='Z'` map to `'a'..='z'`,
/// every other character is unchanged.
pub open spec fn lower_char(c: char) -> char {
    if 65 <= c as u32 && c as u32 <= 90 {
        ((c as u32) + 32) as char
    } else {
        c
    }
}

/// The path ends with the suffix, comparing characters ASCII-case-insensitively.
pub open spec fn ends_with_ignore_ascii_case(path: Seq<char>, suffix: Seq<char>) -> bool {
    &&& path.len() >= suffix.len()
    &&& forall|i: int|
        0 <= i < suffix.len() ==> lower_char(
            path[path.len() - suffix.len() + i],
        ) == lower_char(suffix[i])
}

/// The code point of the ASCII-lower-cased character.
fn lower_code(c: char) -> (r: u32)
    ensures
        r == lower_char(c) as u32,
{
    let code = c as u32;
    if 65 <= code && code <= 90 {
        code + 32
    } else {
        code
    }
}

/// Decides whether `path` ends with `required_suffix`, ignoring ASCII case.
///
/// This is the whole extension policy: it performs no filesystem access and
/// has no side effect. `required_suffix` is a literal file extension
/// including the dot, such as `".svg"`.
pub fn validate(path: &str, required_suffix: &str) -> (r: Result<(), ValidationError>)
    ensures
        r is Ok <==> ends_with_ignore_ascii_case(path@, required_suffix@),
        r is Err ==> r->Err_0 == ValidationError::WrongExtension,
{
    let n = path.unicode_len();
    let m = required_suffix.unicode_len();
    if n < m {
        return Err(ValidationError::WrongExtension);
    }
    let mut i: usize = 0;
    while i < m
        invariant
            m <= n,
            n == path@.len(),
            m == required_suffix@.len(),
            i <= m,
            forall|j: int|
                0 <= j < i ==> lower_char(path@[n - m + j]) == lower_char(required_suffix@[j]),
        decreases m - i,
    {
        let pc = path.get_char(n - m + i);
        let sc = required_suffix.get_char(i);
        if lower_code(pc) != lower_code(sc) {
            assert(lower_char(path@[n - m + i]) != lower_char(required_suffix@[i as int]));
            return Err(ValidationError::WrongExtension);
        }
        i += 1;
    }
    Ok(())
}

} // verus!
