//! Source text taken from a submission body: rendering of the markup and
//! removal of the code fences around it.
use vstd::prelude::*;
use vstd::string::*;

verus! {

#[verifier::external_type_specification]
#[verifier::external_body]
pub struct ExRenderError(html2text::Error);

/// The plain text that html2text renders from `html` at `width` columns, or
/// `None` where it reports an error.
pub uninterp spec fn rendered_text(html: Seq<char>, width: nat) -> Option<Seq<char>>;

/// Relies on html2text::from_read: markup in, plain text wrapped to `width`
/// columns out, or an error; the outcome depends on its two arguments alone.
#[verifier::external_body]
fn render_markup(html: &str, width: usize) -> (r: Result<String, html2text::Error>)
    ensures
        r is Ok <==> rendered_text(html@, width as nat) is Some,
        r is Ok ==> r->Ok_0@ == rendered_text(html@, width as nat)->0,
{
    html2text::from_read(html.as_bytes(), width)
}

/// Width, in columns, to which submission markup is rendered.
pub const RENDER_WIDTH: usize = 200;

/// A character that is stripped from both ends of rendered source text.
pub open spec fn is_fence(c: char) -> bool {
    c == '`' || c == '\n'
}

/// `s` without its leading fence characters.
pub open spec fn trim_start_fences(s: Seq<char>) -> Seq<char>
    decreases s.len(),
{
    if s.len() > 0 && is_fence(s[0]) {
        trim_start_fences(s.drop_first())
    } else {
        s
    }
}

/// `s` without its trailing fence characters.
pub open spec fn trim_end_fences(s: Seq<char>) -> Seq<char>
    decreases s.len(),
{
    if s.len() > 0 && is_fence(s.last()) {
        trim_end_fences(s.drop_last())
    } else {
        s
    }
}

/// `s` without fence characters at either end.
pub open spec fn trim_fences_spec(s: Seq<char>) -> Seq<char> {
    trim_end_fences(trim_start_fences(s))
}

fn is_fence_char(c: char) -> (r: bool)
    ensures
        r == is_fence(c),
{
    c == '`' || c == '\n'
}

/// Removes backticks and newlines from both ends of `s`.
pub fn trim_fences(s: &str) -> (r: String)
    ensures
        r@ == trim_fences_spec(s@),
{
    let n = s.unicode_len();
    let mut i: usize = 0;
    assert(s@.subrange(0, n as int) =~= s@);
    while i < n && is_fence_char(s.get_char(i))
        invariant
            n == s@.len(),
            i <= n,
            trim_start_fences(s@) == trim_start_fences(s@.subrange(i as int, n as int)),
        decreases n - i,
    {
        let ghost t = s@.subrange(i as int, n as int);
        assert(t.drop_first() =~= s@.subrange(i + 1, n as int));
        i = i + 1;
    }
    proof {
        let t = s@.subrange(i as int, n as int);
        assert(trim_start_fences(t) == t);
    }
    let mut j: usize = n;
    while j > i && is_fence_char(s.get_char(j - 1))
        invariant
            n == s@.len(),
            i <= j <= n,
            trim_fences_spec(s@) == trim_end_fences(s@.subrange(i as int, j as int)),
        decreases j,
    {
        let ghost t = s@.subrange(i as int, j as int);
        assert(t.drop_last() =~= s@.subrange(i as int, j - 1));
        j = j - 1;
    }
    proof {
        let t = s@.subrange(i as int, j as int);
        assert(trim_end_fences(t) == t);
    }
    let mut r = String::new();
    r.append(s.substring_char(i, j));
    r
}

/// The source text held in a submission body: the rendered markup with the
/// fences at its ends removed, or `None` where rendering fails.
pub open spec fn source_of(html: Seq<char>) -> Option<Seq<char>> {
    match rendered_text(html, RENDER_WIDTH as nat) {
        Some(t) => Some(trim_fences_spec(t)),
        None => None,
    }
}

/// Renders a submission body and trims it to the source text to build.
pub fn render_source(html: &str) -> (r: Option<String>)
    ensures
        r is Some <==> source_of(html@) is Some,
        r is Some ==> r->0@ == source_of(html@)->0,
{
    match render_markup(html, RENDER_WIDTH) {
        Ok(t) => Some(trim_fences(t.as_str())),
        Err(_) => None,
    }
}

} // verus!
