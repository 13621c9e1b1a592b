//! Parameter sanitization: rejects any parameter containing a denylisted
//! character or exceeding the per-parameter or aggregate length bounds.
//! Parameters that pass are forwarded unchanged, in their original order.

use vstd::prelude::*;

verus! {

/// Per-parameter bound on the number of characters.
pub const MAX_PARAMETER_LENGTH: usize = 1024;

/// Bound on the summed character count of all parameters together.
pub const MAX_TOTAL_LENGTH: usize = 8192;

/// Why a parameter sequence was rejected. Each variant names the offending
/// parameter and, for a forbidden character, the character itself.
#[derive(Debug)]
pub enum ParameterValidationError {
    /// The parameter at `index` contains the denylisted character `ch`.
    ForbiddenCharacter { index: usize, ch: char },
    /// The parameter at `index` has more than `MAX_PARAMETER_LENGTH` characters.
    ParameterTooLong { index: usize },
    /// The parameters together have more than `MAX_TOTAL_LENGTH` characters.
    TotalLengthExceeded,
}

/// The fixed denylist, in the order in which membership is reported.
pub open spec fn denylist() -> Seq<char> {
    seq![';', '&', '|', '<', '>', '`', '$', '(', ')', '{', '}', '[', ']', '\n', '\r']
}

/// A character whose presence in a parameter is fatal.
pub open spec fn is_denied_char(c: char) -> bool {
    denylist().contains(c)
}

/// The sequence holds the character somewhere.
pub open spec fn contains_char(p: Seq<char>, c: char) -> bool {
    exists|i: int| 0 <= i < p.len() && p[i] == c
}

/// The parameter is free of denylisted characters.
pub open spec fn param_clean(p: Seq<char>) -> bool {
    forall|i: int| 0 <= i < p.len() ==> !is_denied_char(#[trigger] p[i])
}

/// The parameter passes both per-parameter checks: no denylisted character
/// and at most `MAX_PARAMETER_LENGTH` characters.
pub open spec fn param_ok(p: Seq<char>) -> bool {
    param_clean(p) && p.len() <= MAX_PARAMETER_LENGTH
}

/// Every parameter in the sequence passes its per-parameter checks.
pub open spec fn all_params_ok(ps: Seq<String>) -> bool {
    forall|i: int| 0 <= i < ps.len() ==> param_ok(#[trigger] ps[i]@)
}

/// The summed character count of the parameters.
pub open spec fn total_chars(ps: Seq<String>) -> nat
    decreases ps.len(),
{
    if ps.len() == 0 {
        0
    } else {
        total_chars(ps.drop_last()) + ps.last()@.len()
    }
}

/// A parameter sequence the sanitizer accepts: every parameter passes its
/// own checks and the aggregate length is within bounds.
pub open spec fn params_valid(ps: Seq<String>) -> bool {
    all_params_ok(ps) && total_chars(ps) <= MAX_TOTAL_LENGTH
}

/// The parameter at `i` is the first that fails a per-parameter check.
pub open spec fn first_violation(ps: Seq<String>, i: int) -> bool {
    &&& 0 <= i < ps.len()
    &&& !param_ok(ps[i]@)
    &&& forall|j: int| 0 <= j < i ==> param_ok(#[trigger] ps[j]@)
}

/// `ch` is the denylisted character reported for `p`: the first entry of
/// the denylist, in denylist order, that occurs in `p`.
pub open spec fn reported_char_matches(p: Seq<char>, ch: char) -> bool {
    exists|k: int|
        {
            &&& 0 <= k < denylist().len()
            &&& #[trigger] denylist()[k] == ch
            &&& contains_char(p, ch)
            &&& forall|k2: int| 0 <= k2 < k ==> !contains_char(p, #[trigger] denylist()[k2])
        }
}

/// The whole sanitizer contract: `r` is the verdict the policy assigns to
/// `ps`. Acceptance is exactly `params_valid`; each rejection names the
/// first offending parameter, and a forbidden character beats the length
/// check within one parameter, as the parameter checks run in order.
pub open spec fn parameter_verdict(ps: Seq<String>, r: Result<(), ParameterValidationError>) -> bool {
    &&& (r is Ok <==> params_valid(ps))
    &&& match r {
        Ok(_) => true,
        Err(ParameterValidationError::ForbiddenCharacter { index, ch }) => {
            &&& first_violation(ps, index as int)
            &&& !param_clean(ps[index as int]@)
            &&& reported_char_matches(ps[index as int]@, ch)
        },
        Err(ParameterValidationError::ParameterTooLong { index }) => {
            &&& first_violation(ps, index as int)
            &&& param_clean(ps[index as int]@)
            &&& ps[index as int]@.len() > MAX_PARAMETER_LENGTH
        },
        Err(ParameterValidationError::TotalLengthExceeded) => {
            &&& all_params_ok(ps)
            &&& total_chars(ps) > MAX_TOTAL_LENGTH
        },
    }
}

/// A denylisted character occurs in `p` exactly when some position of `p`
/// holds a denylisted character.
pub proof fn lemma_denied_positions(p: Seq<char>)
    ensures
        !param_clean(p) <==> exists|k: int|
            0 <= k < denylist().len() && contains_char(p, #[trigger] denylist()[k]),
{
    if !param_clean(p) {
        let i = choose|i: int| 0 <= i < p.len() && is_denied_char(p[i]);
        let k = choose|k: int| 0 <= k < denylist().len() && denylist()[k] == p[i];
        assert(contains_char(p, denylist()[k]));
    }
    if exists|k: int| 0 <= k < denylist().len() && contains_char(p, #[trigger] denylist()[k]) {
        let k = choose|k: int| 0 <= k < denylist().len() && contains_char(p, #[trigger] denylist()[k]);
        let i = choose|i: int| 0 <= i < p.len() && p[i] == denylist()[k];
        assert(is_denied_char(p[i]));
    }
}

/// The denylist entry at position `k`.
fn denylist_char(k: usize) -> (c: char)
    requires
        k < denylist().len(),
    ensures
        c == denylist()[k as int],
{
    if k == 0 {
        ';'
    } else if k == 1 {
        '&'
    } else if k == 2 {
        '|'
    } else if k == 3 {
        '<'
    } else if k == 4 {
        '>'
    } else if k == 5 {
        '`'
    } else if k == 6 {
        '$'
    } else if k == 7 {
        '('
    } else if k == 8 {
        ')'
    } else if k == 9 {
        '{'
    } else if k == 10 {
        '}'
    } else if k == 11 {
        '['
    } else if k == 12 {
        ']'
    } else if k == 13 {
        '\n'
    } else {
        '\r'
    }
}

/// Whether the string holds the character.
fn str_contains_char(p: &str, c: char) -> (r: bool)
    ensures
        r == contains_char(p@, c),
{
    let n = p.unicode_len();
    let mut i: usize = 0;
    while i < n
        invariant
            n == p@.len(),
            i <= n,
            forall|j: int| 0 <= j < i ==> p@[j] != c,
        decreases n - i,
    {
        if p.get_char(i) == c {
            return true;
        }
        i += 1;
    }
    false
}

/// The first denylist entry, in denylist order, that occurs in the string;
/// `None` exactly when the string is clean.
fn first_forbidden_char(p: &str) -> (r: Option<char>)
    ensures
        r is None <==> param_clean(p@),
        r matches Some(ch) ==> reported_char_matches(p@, ch),
{
    let mut k: usize = 0;
    while k < 15
        invariant
            k <= denylist().len(),
            forall|k2: int| 0 <= k2 < k ==> !contains_char(p@, #[trigger] denylist()[k2]),
        decreases 15 - k,
    {
        let c = denylist_char(k);
        if str_contains_char(p, c) {
            return Some(c);
        }
        k += 1;
    }
    proof {
        lemma_denied_positions(p@);
    }
    None
}

/// The aggregate character count of the first `i` parameters, capped just
/// above the bound so that the running total never overflows.
spec fn capped_total(ps: Seq<String>, i: int) -> nat {
    if total_chars(ps.take(i)) > MAX_TOTAL_LENGTH {
        (MAX_TOTAL_LENGTH + 1) as nat
    } else {
        total_chars(ps.take(i))
    }
}

/// Taking one more parameter adds its character count to the total.
proof fn lemma_total_chars_take_step(ps: Seq<String>, i: int)
    requires
        0 <= i < ps.len(),
    ensures
        total_chars(ps.take(i + 1)) == total_chars(ps.take(i)) + ps[i]@.len(),
{
    assert(ps.take(i + 1).drop_last() =~= ps.take(i));
    assert(ps.take(i + 1).last() == ps[i]);
}

/// Checks every parameter against the denylist and the length bounds, in
/// order, short-circuiting on the first violation; checks the aggregate
/// bound over the whole sequence last.
pub fn validate_parameters(params: &Vec<String>) -> (r: Result<(), ParameterValidationError>)
    ensures
        parameter_verdict(params@, r),
{
    let ghost ps = params@;
    let mut total: usize = 0;
    let mut idx: usize = 0;
    while idx < params.len()
        invariant
            ps == params@,
            idx <= ps.len(),
            forall|j: int| 0 <= j < idx ==> param_ok(#[trigger] ps[j]@),
            total == capped_total(ps, idx as int),
        decreases ps.len() - idx,
    {
        let p = &params[idx];
        match first_forbidden_char(p.as_str()) {
            Some(ch) => {
                return Err(ParameterValidationError::ForbiddenCharacter { index: idx, ch });
            },
            None => {},
        }
        let len = p.as_str().unicode_len();
        if len > MAX_PARAMETER_LENGTH {
            return Err(ParameterValidationError::ParameterTooLong { index: idx });
        }
        proof {
            lemma_total_chars_take_step(ps, idx as int);
        }
        total = if total > MAX_TOTAL_LENGTH || len > MAX_TOTAL_LENGTH - total {
            MAX_TOTAL_LENGTH + 1
        } else {
            total + len
        };
        idx += 1;
    }
    proof {
        assert(ps.take(ps.len() as int) =~= ps);
    }
    if total > MAX_TOTAL_LENGTH {
        return Err(ParameterValidationError::TotalLengthExceeded);
    }
    Ok(())
}

/// Parameters that passed the sanitizer, unchanged and in their original
/// order. Values of this type exist only for sequences the policy accepts.
pub struct SanitizedParameters {
    params: Vec<String>,
}

impl View for SanitizedParameters {
    type V = Seq<String>;

    closed spec fn view(&self) -> Seq<String> {
        self.params@
    }
}

impl SanitizedParameters {
    /// The sanitized sequence satisfies the acceptance policy.
    pub open spec fn wf(&self) -> bool {
        params_valid(self@)
    }

    /// The sanitized parameters, in their original order.
    pub fn list(&self) -> (r: &Vec<String>)
        ensures
            r@ == self@,
    {
        &self.params
    }
}

/// Runs the sanitizer and, on acceptance, hands the parameters back
/// unchanged and in their original order as `SanitizedParameters`.
pub fn sanitize_parameters(params: Vec<String>) -> (r: Result<
    SanitizedParameters,
    ParameterValidationError,
>)
    ensures
        r is Ok <==> params_valid(params@),
        r matches Ok(sp) ==> sp@ == params@ && sp.wf(),
        r matches Err(e) ==> parameter_verdict(params@, Err(e)),
{
    match validate_parameters(&params) {
        Ok(_) => Ok(SanitizedParameters { params }),
        Err(e) => Err(e),
    }
}

/// Sanitization decides the same way every time: the sanitizer contract
/// admits exactly one verdict for a given parameter sequence, so two runs
/// on identical input yield identical results.
pub proof fn lemma_parameter_verdict_deterministic(
    ps: Seq<String>,
    r1: Result<(), ParameterValidationError>,
    r2: Result<(), ParameterValidationError>,
)
    requires
        parameter_verdict(ps, r1),
        parameter_verdict(ps, r2),
    ensures
        r1 == r2,
{
    if params_valid(ps) {
        assert(r1 is Ok && r2 is Ok);
        assert(r1 == Ok::<(), ParameterValidationError>(r1->Ok_0));
        assert(r2 == Ok::<(), ParameterValidationError>(r2->Ok_0));
        assert(r1->Ok_0 == r2->Ok_0);
    } else {
        assert(r1 is Err && r2 is Err);
        lemma_reported_error_unique(ps, r1->Err_0, r2->Err_0);
        assert(r1 == Err::<(), ParameterValidationError>(r1->Err_0));
        assert(r2 == Err::<(), ParameterValidationError>(r2->Err_0));
    }
}

/// Helper for determinism: two first violations are the same violation.
proof fn lemma_first_violation_unique(ps: Seq<String>, i1: int, i2: int)
    requires
        first_violation(ps, i1),
        first_violation(ps, i2),
    ensures
        i1 == i2,
{
    if i1 < i2 {
        assert(param_ok(ps[i1]@));
    } else if i2 < i1 {
        assert(param_ok(ps[i2]@));
    }
}

/// Helper for determinism: the rejection the contract admits is unique.
proof fn lemma_reported_error_unique(
    ps: Seq<String>,
    e1: ParameterValidationError,
    e2: ParameterValidationError,
)
    requires
        parameter_verdict(ps, Err(e1)),
        parameter_verdict(ps, Err(e2)),
    ensures
        e1 == e2,
{
    match (e1, e2) {
        (
            ParameterValidationError::ForbiddenCharacter { index: i1, ch: c1 },
            ParameterValidationError::ForbiddenCharacter { index: i2, ch: c2 },
        ) => {
            lemma_first_violation_unique(ps, i1 as int, i2 as int);
            let p = ps[i1 as int]@;
            let k1 = choose|k: int|
                {
                    &&& 0 <= k < denylist().len()
                    &&& #[trigger] denylist()[k] == c1
                    &&& contains_char(p, c1)
                    &&& forall|k2: int| 0 <= k2 < k ==> !contains_char(p, #[trigger] denylist()[k2])
                };
            let k2 = choose|k: int|
                {
                    &&& 0 <= k < denylist().len()
                    &&& #[trigger] denylist()[k] == c2
                    &&& contains_char(p, c2)
                    &&& forall|j: int| 0 <= j < k ==> !contains_char(p, #[trigger] denylist()[j])
                };
            assert(k1 == k2) by {
                if k1 < k2 {
                    assert(!contains_char(p, denylist()[k1]));
                } else if k2 < k1 {
                    assert(!contains_char(p, denylist()[k2]));
                }
            }
        },
        (
            ParameterValidationError::ForbiddenCharacter { index: i1, .. },
            ParameterValidationError::ParameterTooLong { index: i2 },
        ) => {
            lemma_first_violation_unique(ps, i1 as int, i2 as int);
            assert(false);
        },
        (
            ParameterValidationError::ParameterTooLong { index: i1 },
            ParameterValidationError::ForbiddenCharacter { index: i2, .. },
        ) => {
            lemma_first_violation_unique(ps, i1 as int, i2 as int);
            assert(false);
        },
        (
            ParameterValidationError::ParameterTooLong { index: i1 },
            ParameterValidationError::ParameterTooLong { index: i2 },
        ) => {
            lemma_first_violation_unique(ps, i1 as int, i2 as int);
        },
        (ParameterValidationError::TotalLengthExceeded, ParameterValidationError::TotalLengthExceeded) => {},
        (ParameterValidationError::TotalLengthExceeded, _) => {
            assert(false);
        },
        (_, ParameterValidationError::TotalLengthExceeded) => {
            assert(false);
        },
    }
}

} // verus!

