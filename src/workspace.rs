//! Naming of the per-submitter workspace directories.
use vstd::prelude::*;
use vstd::string::*;

verus! {

/// The display name of a submitter from the backend's first and last name,
/// with a stand-in for either one that is missing.
pub open spec fn display_name_spec(first: Option<Seq<char>>, last: Option<Seq<char>>) -> Seq<
    char,
> {
    let f = match first {
        Some(f) => f,
        None => seq!['F', 'i', 'r', 's', 't', 'n', 'a', 'm', 'e'],
    };
    let l = match last {
        Some(l) => l,
        None => seq!['L', 'a', 's', 't', 'n', 'a', 'm', 'e'],
    };
    f + seq![' '] + l
}

/// Joins a submitter's first and last name into a display name.
pub fn display_name(first: Option<&str>, last: Option<&str>) -> (r: String)
    ensures
        r@ == display_name_spec(
            match first {
                Some(f) => Some(f@),
                None => None,
            },
            match last {
                Some(l) => Some(l@),
                None => None,
            },
        ),
{
    let first_default = "Firstname";
    let last_default = "Lastname";
    let space = " ";
    proof {
        reveal_strlit("Firstname");
        reveal_strlit("Lastname");
        reveal_strlit(" ");
    }
    let mut r = String::new();
    match first {
        Some(f) => r.append(f),
        None => r.append(first_default),
    }
    r.append(space);
    match last {
        Some(l) => r.append(l),
        None => r.append(last_default),
    }
    r
}

/// What `str::to_lowercase` returns for `s`.
pub uninterp spec fn lower_of(s: Seq<char>) -> Seq<char>;

/// Relies on str::to_lowercase: the result depends on the characters alone.
#[verifier::external_body]
fn lowercase(s: &str) -> (r: String)
    ensures
        r@ == lower_of(s@),
{
    s.to_lowercase()
}

/// `s` with every space replaced by a dash.
pub open spec fn dash_spaces_spec(s: Seq<char>) -> Seq<char> {
    s.map_values(|c: char| if c == ' ' { '-' } else { c })
}

/// The directory key of a submitter's display name: lower-cased, spaces
/// replaced by dashes.
pub open spec fn workspace_key_of(name: Seq<char>) -> Seq<char> {
    dash_spaces_spec(lower_of(name))
}

/// Replaces every space of `s` by a dash.
pub fn dash_spaces(s: &str) -> (r: String)
    ensures
        r@ == dash_spaces_spec(s@),
{
    let n = s.unicode_len();
    let mut r = String::new();
    let mut i: usize = 0;
    while i < n
        invariant
            n == s@.len(),
            i <= n,
            r@ == dash_spaces_spec(s@.subrange(0, i as int)),
        decreases n - i,
    {
        let c = s.get_char(i);
        if c == ' ' {
            r.append("-");
        } else {
            r.append(s.substring_char(i, i + 1));
        }
        proof {
            reveal_strlit("-");
            assert(dash_spaces_spec(s@.subrange(0, i + 1)) =~= dash_spaces_spec(
                s@.subrange(0, i as int),
            ).push(if c == ' ' { '-' } else { c }));
        }
        i = i + 1;
    }
    assert(s@.subrange(0, n as int) =~= s@);
    r
}

/// The workspace directory name for a submitter.
pub fn workspace_key(name: &str) -> (r: String)
    ensures
        r@ == workspace_key_of(name@),
{
    let lowered = lowercase(name);
    dash_spaces(lowered.as_str())
}

} // verus!
