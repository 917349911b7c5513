//! Content sanitizer: trims surrounding whitespace and strips formatting
//! markup, keeping only the literal text and inline-code runs of the input,
//! concatenated in document order.

use vstd::prelude::*;

verus! {

/// Whether a character has the Unicode `White_Space` property.
pub uninterp spec fn is_unicode_space(c: char) -> bool;

/// Relies on char::is_whitespace: whether `c` has the Unicode `White_Space`
/// property, a function of the character alone.
#[verifier::external_body]
fn char_is_space(c: char) -> (r: bool)
    ensures
        r == is_unicode_space(c),
{
    c.is_whitespace()
}

/// The text with its leading whitespace removed.
pub open spec fn trim_start_spec(s: Seq<char>) -> Seq<char>
    decreases s.len(),
{
    if s.len() == 0 {
        s
    } else if is_unicode_space(s.first()) {
        trim_start_spec(s.drop_first())
    } else {
        s
    }
}

/// The text with its trailing whitespace removed.
pub open spec fn trim_end_spec(s: Seq<char>) -> Seq<char>
    decreases s.len(),
{
    if s.len() == 0 {
        s
    } else if is_unicode_space(s.last()) {
        trim_end_spec(s.drop_last())
    } else {
        s
    }
}

/// The text with surrounding whitespace removed.
pub open spec fn trim_spec(s: Seq<char>) -> Seq<char> {
    trim_end_spec(trim_start_spec(s))
}

proof fn lemma_trim_start_at(s: Seq<char>, i: int)
    requires
        0 <= i <= s.len(),
        forall|k: int| 0 <= k < i ==> is_unicode_space(s[k]),
        i < s.len() ==> !is_unicode_space(s[i]),
    ensures
        trim_start_spec(s) == s.subrange(i, s.len() as int),
    decreases i,
{
    if i == 0 {
        assert(s.subrange(0, s.len() as int) =~= s);
    } else {
        assert(is_unicode_space(s.first()));
        lemma_trim_start_at(s.drop_first(), i - 1);
        assert(s.drop_first().subrange(i - 1, s.drop_first().len() as int) =~= s.subrange(
            i,
            s.len() as int,
        ));
    }
}

proof fn lemma_trim_end_at(s: Seq<char>, j: int)
    requires
        0 <= j <= s.len(),
        forall|k: int| j <= k < s.len() ==> is_unicode_space(s[k]),
        j > 0 ==> !is_unicode_space(s[j - 1]),
    ensures
        trim_end_spec(s) == s.subrange(0, j),
    decreases s.len() - j,
{
    if j == s.len() {
        if s.len() == 0 || !is_unicode_space(s.last()) {
            assert(s.subrange(0, j) =~= s);
        } else {
            assert(!is_unicode_space(s[j - 1]));
            assert(false);
        }
    } else {
        assert(is_unicode_space(s.last()));
        lemma_trim_end_at(s.drop_last(), j);
        assert(s.drop_last().subrange(0, j) =~= s.subrange(0, j));
    }
}

proof fn lemma_trim_start_shape(s: Seq<char>)
    ensures
        trim_start_spec(s).len() > 0 ==> !is_unicode_space(trim_start_spec(s).first()),
    decreases s.len(),
{
    if s.len() > 0 && is_unicode_space(s.first()) {
        lemma_trim_start_shape(s.drop_first());
    }
}

proof fn lemma_trim_end_shape(s: Seq<char>)
    ensures
        trim_end_spec(s).len() > 0 ==> !is_unicode_space(trim_end_spec(s).last()),
        trim_end_spec(s).len() > 0 ==> s.len() > 0 && trim_end_spec(s).first() == s.first(),
    decreases s.len(),
{
    if s.len() > 0 && is_unicode_space(s.last()) {
        lemma_trim_end_shape(s.drop_last());
    }
}

/// Trimming is idempotent: trimming already-trimmed text is a no-op.
pub proof fn lemma_trim_idempotent(s: Seq<char>)
    ensures
        trim_spec(trim_spec(s)) == trim_spec(s),
{
    let t = trim_start_spec(s);
    let u = trim_end_spec(t);
    lemma_trim_start_shape(s);
    lemma_trim_end_shape(t);
    if u.len() == 0 {
        assert(trim_start_spec(u) == u);
        assert(trim_end_spec(u) == u);
    } else {
        assert(!is_unicode_space(u.first()));
        assert(trim_start_spec(u) == u);
        assert(!is_unicode_space(u.last()));
        assert(trim_end_spec(u) == u);
    }
}

/// Removes leading and trailing whitespace from the text.
pub fn trim_text(s: &str) -> (r: &str)
    ensures
        r@ == trim_spec(s@),
{
    let n = s.unicode_len();
    let mut i: usize = 0;
    while i < n && char_is_space(s.get_char(i))
        invariant
            n == s@.len(),
            0 <= i <= n,
            forall|k: int| 0 <= k < i ==> is_unicode_space(s@[k]),
        decreases n - i,
    {
        i = i + 1;
    }
    let mut j: usize = n;
    while j > i && char_is_space(s.get_char(j - 1))
        invariant
            n == s@.len(),
            0 <= i <= j <= n,
            forall|k: int| j <= k < n ==> is_unicode_space(s@[k]),
        decreases j,
    {
        j = j - 1;
    }
    proof {
        lemma_trim_start_at(s@, i as int);
        let t = s@.subrange(i as int, s@.len() as int);
        assert(forall|k: int| j - i <= k < t.len() ==> is_unicode_space(#[trigger] t[k]));
        lemma_trim_end_at(t, j - i);
        assert(t.subrange(0, j - i) =~= s@.subrange(i as int, j as int));
    }
    s.substring_char(i, j)
}

/// The event stream that parsing the text as markup yields, reduced to its
/// text content: one entry per event, `Some` with the literal text for a
/// text or inline-code event, `None` for any other event.
pub uninterp spec fn markdown_text_runs(s: Seq<char>) -> Seq<Option<Seq<char>>>;

/// Relies on pulldown_cmark::Parser: the event stream is a function of the
/// input text alone; `Text` and `Code` events carry the literal text runs of
/// the document, in document order.
#[verifier::external_body]
fn parse_markdown_runs(markdown: &str) -> (r: Vec<Option<String>>)
    ensures
        r.deep_view() == markdown_text_runs(markdown@),
{
    pulldown_cmark::Parser::new(markdown)
        .map(|event| match event {
            pulldown_cmark::Event::Text(t) => Some(t.into_string()),
            pulldown_cmark::Event::Code(t) => Some(t.into_string()),
            _ => None,
        })
        .collect()
}

/// The concatenation of the text runs, in order, skipping the entries that
/// carry no text.
pub open spec fn concat_text_runs(runs: Seq<Option<Seq<char>>>) -> Seq<char>
    decreases runs.len(),
{
    if runs.len() == 0 {
        Seq::empty()
    } else {
        concat_text_runs(runs.drop_last()) + match runs.last() {
            Some(t) => t,
            None => Seq::empty(),
        }
    }
}

/// The plain text of a markup document: its literal text and inline-code
/// runs, concatenated in document order.
pub open spec fn plain_text_of(s: Seq<char>) -> Seq<char> {
    concat_text_runs(markdown_text_runs(s))
}

/// What sanitization makes of raw submitted content: surrounding whitespace
/// trimmed, then markup stripped down to the plain text.
pub open spec fn sanitized_of(raw: Seq<char>) -> Seq<char> {
    plain_text_of(trim_spec(raw))
}

/// Strips formatting markup from the text, keeping only the literal text and
/// inline-code runs, concatenated in document order.
pub fn strip_markdown(markdown: &str) -> (r: String)
    ensures
        r@ == plain_text_of(markdown@),
{
    let runs = parse_markdown_runs(markdown);
    let ghost dv = runs.deep_view();
    let mut out = String::new();
    let n = runs.len();
    let mut idx: usize = 0;
    while idx < n
        invariant
            n == runs@.len(),
            dv == runs.deep_view(),
            0 <= idx <= n,
            out@ == concat_text_runs(dv.take(idx as int)),
        decreases n - idx,
    {
        match &runs[idx] {
            Some(t) => {
                out.append(t.as_str());
            },
            None => {},
        }
        proof {
            assert(dv.take(idx + 1).drop_last() =~= dv.take(idx as int));
            assert(dv[idx as int] == match runs@[idx as int] {
                Some(t) => Some(t@),
                None => None::<Seq<char>>,
            });
        }
        idx = idx + 1;
    }
    proof {
        assert(dv.take(n as int) =~= dv);
    }
    out
}

/// Sanitizes raw submitted content: trims surrounding whitespace, then strips
/// markup down to the plain text. A pure function of the input; malformed
/// markup never fails, it degrades to best-effort plain text.
pub fn sanitize_content(raw: &str) -> (r: String)
    ensures
        r@ == sanitized_of(raw@),
{
    strip_markdown(trim_text(raw))
}

} // verus!
