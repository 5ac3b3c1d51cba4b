use vstd::prelude::*;

verus! {

/// The pattern every extension name must match in full.
pub const NAME_PATTERN: &'static str = "^[a-z][a-z0-9-]+$";

/// A lowercase ASCII letter.
pub open spec fn is_lower(c: char) -> bool {
    'a' <= c && c <= 'z'
}

/// A character allowed after the first one of a name.
pub open spec fn is_name_tail_char(c: char) -> bool {
    is_lower(c) || ('0' <= c && c <= '9') || c == '-'
}

/// A valid name: a lowercase letter followed by at least one lowercase
/// letter, digit or dash.
pub open spec fn is_valid_name(s: Seq<char>) -> bool {
    &&& s.len() >= 2
    &&& is_lower(s[0])
    &&& forall|i: int| 1 <= i < s.len() ==> #[trigger] is_name_tail_char(s[i])
}

/// Relies on regex::Regex::new, to compile the name pattern (a valid
/// expression well under the default size limit, so it does not fail), and
/// on regex::Regex::is_match, to test the text against it. Without the
/// multi-line flag `^` and `$` match only at the start and the end of the
/// text, and `[a-z]`, `[a-z0-9-]` are the ASCII ranges they list, so a match
/// holds exactly of the names described by `is_valid_name`.
#[verifier::external_body]
fn matches_name_pattern(pattern: &str, text: &str) -> (r: bool)
    requires
        pattern@ == NAME_PATTERN@,
    ensures
        r == is_valid_name(text@),
{
    regex::Regex::new(pattern).unwrap().is_match(text)
}

/// Why a name was refused.
#[derive(Debug)]
pub struct InvalidName {
    pub name: String,
}

impl InvalidName {
    /// The message shown for the refused name.
    pub fn message(&self) -> (r: String)
        ensures
            r@ == self.name@ + INVALID_NAME_SUFFIX@,
    {
        let r = self.name.clone();
        r.concat(INVALID_NAME_SUFFIX)
    }
}

pub const INVALID_NAME_SUFFIX: &'static str =
    ": invalid extension name, must be lowercase alphanumeric or dash (-)";

/// Whether two texts hold the same characters.
pub fn same_text(a: &str, b: &str) -> (r: bool)
    ensures
        r == (a@ == b@),
{
    let n = a.unicode_len();
    if n != b.unicode_len() {
        return false;
    }
    let mut i: usize = 0;
    while i < n
        invariant
            n == a@.len() == b@.len(),
            i <= n,
            forall|j: int| 0 <= j < i ==> #[trigger] a@[j] == b@[j],
        decreases n - i,
    {
        if a.get_char(i) != b.get_char(i) {
            return false;
        }
        i = i + 1;
    }
    proof {
        assert(a@ =~= b@);
    }
    true
}

/// Check an extension name for validity.
pub fn validate_name(name: &str) -> (r: Result<(), InvalidName>)
    ensures
        r is Ok <==> is_valid_name(name@),
        r matches Err(e) ==> e.name@ == name@,
{
    proof {
        reveal_strlit("^[a-z][a-z0-9-]+$");
    }
    if matches_name_pattern(NAME_PATTERN, name) {
        Ok(())
    } else {
        Err(InvalidName { name: name.to_string() })
    }
}

} // verus!
