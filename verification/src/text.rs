use vstd::prelude::*;
use vstd::string::*;

verus! {

/// What `format!("{:?}", s)` gives for a string slice `s`: the text quoted and
/// escaped as Rust's `Debug` for `str` writes it.
pub uninterp spec fn debug_str(s: Seq<char>) -> Seq<char>;

/// Calls std's `Debug` for `str` (through `format!("{:?}", ..)`).
/// Claimed: the result is `debug_str` of the argument's characters, so two calls on
/// the same text agree; nothing else of the quoting and escaping is stated.
#[verifier::external_body]
pub(crate) fn debug_quoted(s: &str) -> (res: String)
    ensures
        res@ == debug_str(s@),
{
    format!("{:?}", s)
}

/// The text that `Debug` writes for an `Option<String>`: `None`, or `Some(` followed
/// by the quoted string and `)`.
pub open spec fn debug_option(o: Option<Seq<char>>) -> Seq<char> {
    match o {
        None => "None"@,
        Some(s) => "Some("@ + debug_str(s) + ")"@,
    }
}

/// Writes an optional string as `Debug` writes it.
pub fn debug_option_text(o: &Option<String>) -> (res: String)
    ensures
        res@ == debug_option(match o {
            None => None,
            Some(s) => Some(s@),
        }),
{
    match o {
        None => String::from_str("None"),
        Some(s) => {
            let mut out = String::from_str("Some(");
            let quoted = debug_quoted(s.as_str());
            out.append(quoted.as_str());
            out.append(")");
            out
        },
    }
}

/// Whether two string slices hold the same characters.
pub fn same_text(a: &str, b: &str) -> (res: bool)
    ensures
        res == (a@ == b@),
{
    let n = a.unicode_len();
    if n != b.unicode_len() {
        return false;
    }
    let mut i: usize = 0;
    while i < n
        invariant
            n == a@.len(),
            n == b@.len(),
            i <= n,
            forall|j: int| 0 <= j < i ==> a@[j] == b@[j],
        decreases n - i,
    {
        if a.get_char(i) != b.get_char(i) {
            return false;
        }
        i = i + 1;
    }
    assert(a@ =~= b@);
    true
}

} // verus!
