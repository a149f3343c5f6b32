//! The lobby's rules: match codes, and how a failed hand-off to the match
//! server is reported.
use vstd::prelude::*;
use vstd::string::StringSliceAdditionalSpecFns;
use crate::text::push_char;
use rand::Rng;

verus! {

/// The length of a match code.
pub const MATCH_CODE_LEN: usize = 5;

/// The 36 characters a match code is made of: `A`-`Z` then `0`-`9`.
pub open spec fn code_char(i: int) -> char {
    if i < 26 { (65 + i) as char } else { (48 + i - 26) as char }
}

/// Whether `c` may appear in a match code.
pub open spec fn is_code_char(c: char) -> bool {
    ('A' <= c && c <= 'Z') || ('0' <= c && c <= '9')
}

/// Whether a request's match code has the required length (in bytes).
pub fn match_code_is_valid(code: &str) -> (r: bool)
    ensures
        r == (code.spec_bytes().len() == MATCH_CODE_LEN),
{
    code.as_bytes().len() == MATCH_CODE_LEN
}

#[verifier::external_type_specification]
#[verifier::external_body]
pub struct ExThreadRng(rand::rngs::ThreadRng);

/// `rand::thread_rng`: the thread's lazily seeded random generator. Nothing
/// is stated of what it will produce.
#[verifier::external_body]
fn thread_rng() -> rand::rngs::ThreadRng {
    rand::thread_rng()
}

/// `Rng::gen_range(0..n)` on the thread generator: a random index below `n`
/// (the range must not be empty). Which index comes out is left to chance.
#[verifier::external_body]
fn gen_index(rng: &mut rand::rngs::ThreadRng, n: usize) -> (r: usize)
    requires
        n > 0,
    ensures
        r < n,
{
    rng.gen_range(0..n)
}

fn alphabet_char(i: usize) -> (c: char)
    requires
        i < 36,
    ensures
        c == code_char(i as int),
        is_code_char(c),
{
    let b: u8 = if i < 26 { 65 + i as u8 } else { 48 + (i as u8 - 26) };
    b as char
}

/// The code spelled by `indices` into the alphabet of [`code_char`].
pub open spec fn spec_code_from(indices: Seq<usize>) -> Seq<char> {
    indices.map_values(|i: usize| code_char(i as int))
}

/// The code whose characters are the alphabet entries at `indices`.
pub fn code_from_indices(indices: &Vec<usize>) -> (r: String)
    requires
        forall|i: int| 0 <= i < indices@.len() ==> #[trigger] indices@[i] < 36,
    ensures
        r@ == spec_code_from(indices@),
{
    let mut code = String::new();
    for k in 0..indices.len()
        invariant
            forall|i: int| 0 <= i < indices@.len() ==> #[trigger] indices@[i] < 36,
            code@ == spec_code_from(indices@.take(k as int)),
    {
        proof {
            assert(indices@[k as int] < 36);
        }
        push_char(&mut code, alphabet_char(indices[k]));
        assert(spec_code_from(indices@.take(k + 1)) =~= spec_code_from(indices@.take(k as int)).push(
            code_char(indices@[k as int] as int),
        ));
    }
    assert(indices@.take(indices@.len() as int) =~= indices@);
    code
}

/// A random 5-character match code over `A`-`Z`, `0`-`9`: the code spelled
/// by five indices drawn from the thread's random generator.
pub fn generate_match_code() -> (r: String)
    ensures
        exists|indices: Seq<usize>|
            indices.len() == MATCH_CODE_LEN && (forall|i: int| 0 <= i < indices.len() ==> #[trigger] indices[i] < 36)
                && r@ == spec_code_from(indices),
        r@.len() == MATCH_CODE_LEN,
        forall|i: int| 0 <= i < r@.len() ==> #[trigger] is_code_char(r@[i]),
{
    let mut rng = thread_rng();
    let mut indices: Vec<usize> = Vec::new();
    for k in 0..MATCH_CODE_LEN
        invariant
            indices@.len() == k,
            forall|i: int| 0 <= i < indices@.len() ==> #[trigger] indices@[i] < 36,
    {
        let idx = gen_index(&mut rng, 36);
        indices.push(idx);
    }
    let code = code_from_indices(&indices);
    assert forall|i: int| 0 <= i < code@.len() implies #[trigger] is_code_char(code@[i]) by {
        assert(indices@[i] < 36);
    }
    code
}

/// Whether `pattern`'s bytes occur contiguously in `text`'s bytes.
pub open spec fn bytes_contain(text: Seq<u8>, pattern: Seq<u8>) -> bool {
    exists|i: int| 0 <= i && i + pattern.len() <= text.len() && #[trigger] text.subrange(i, i + pattern.len()) == pattern
}

fn occurs_at(text: &[u8], pattern: &[u8], i: usize) -> (r: bool)
    requires
        i + pattern.len() <= text.len(),
    ensures
        r == (text@.subrange(i as int, i + pattern@.len()) == pattern@),
{
    let n = pattern.len();
    for j in 0..n
        invariant
            n == pattern@.len(),
            i + n <= text.len(),
            forall|k: int| 0 <= k < j ==> text@[i + k] == pattern@[k],
    {
        if text[i + j] != pattern[j] {
            assert(text@.subrange(i as int, i + n)[j as int] != pattern@[j as int]);
            return false;
        }
    }
    assert(text@.subrange(i as int, i + n) =~= pattern@);
    true
}

/// Whether `pattern` occurs in `text` (as `str::contains` with a string
/// pattern: a byte-wise search).
pub fn str_contains(text: &str, pattern: &str) -> (r: bool)
    ensures
        r == bytes_contain(text.spec_bytes(), pattern.spec_bytes()),
{
    let t = text.as_bytes();
    let p = pattern.as_bytes();
    assert(t@ == text.spec_bytes() && p@ == pattern.spec_bytes());
    if p.len() == 0 {
        assert(t@.subrange(0int, 0int + p@.len()) =~= p@);
        return true;
    }
    if p.len() > t.len() {
        return false;
    }
    let last = t.len() - p.len();
    for i in 0..last + 1
        invariant
            last + p@.len() == t@.len(),
            last + p.len() == t.len(),
            t@ == text.spec_bytes(),
            p@ == pattern.spec_bytes(),
            forall|k: int| 0 <= k < i ==> #[trigger] t@.subrange(k, k + p@.len()) != p@,
    {
        if occurs_at(t, p, i) {
            assert(t@.subrange(i as int, i + p@.len()) == p@);
            return true;
        }
    }
    assert forall|k: int| 0 <= k && k + p@.len() <= t@.len() implies #[trigger] t@.subrange(k, k + p@.len()) != p@ by {
        assert(k <= last);
    }
    false
}

/// The HTTP status for a failed hand-off of a WebSocket upgrade to the match
/// server: 503 when the error text shows a rate limit ("Exceeded allowed
/// volume" or "free tier"), 500 otherwise.
pub fn forward_error_status(err: &str) -> (r: u16)
    ensures
        r == (if bytes_contain(err.spec_bytes(), "Exceeded allowed volume".spec_bytes())
            || bytes_contain(err.spec_bytes(), "free tier".spec_bytes()) {
            503u16
        } else {
            500u16
        }),
{
    if str_contains(err, "Exceeded allowed volume") || str_contains(err, "free tier") {
        503
    } else {
        500
    }
}

} // verus!
