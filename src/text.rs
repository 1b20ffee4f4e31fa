//! Splitting an input line into tokens, and joining tokens back into text.
use vstd::prelude::*;

verus! {

/// The ASCII whitespace characters that separate tokens.
pub open spec fn is_blank(c: char) -> bool {
    c == ' ' || c == '\t' || c == '\n' || c == '\x0C' || c == '\r'
}

/// The text of each string of a sequence.
pub open spec fn texts(v: Seq<String>) -> Seq<Seq<char>> {
    v.map_values(|t: String| t@)
}

/// The maximal runs of non-blank characters of `s`, in order.
pub open spec fn tokens_of(s: Seq<char>) -> Seq<Seq<char>>
    decreases s.len(),
{
    if s.len() == 0 {
        seq![]
    } else {
        let pre = tokens_of(s.drop_last());
        let c = s.last();
        if is_blank(c) {
            pre
        } else if s.len() >= 2 && !is_blank(s[s.len() - 2]) {
            pre.drop_last().push(pre.last().push(c))
        } else {
            pre.push(seq![c])
        }
    }
}

/// The items with `", "` between each two.
pub open spec fn comma_separated(items: Seq<Seq<char>>) -> Seq<char>
    decreases items.len(),
{
    if items.len() == 0 {
        seq![]
    } else if items.len() == 1 {
        items[0]
    } else {
        comma_separated(items.drop_last()) + ", "@ + items.last()
    }
}

/// The items as a bracketed list: `[a, b, c]`.
pub open spec fn list_text(items: Seq<Seq<char>>) -> Seq<char> {
    "["@ + comma_separated(items) + "]"@
}

/// The text that std's `Debug` formatting gives a string: the string in
/// double quotes, with its special characters escaped.
pub uninterp spec fn debug_str(s: Seq<char>) -> Seq<char>;

/// The tokens in debug form, as a bracketed list: `["a", "b"]`.
pub open spec fn debug_list(ts: Seq<Seq<char>>) -> Seq<char> {
    list_text(ts.map_values(|t: Seq<char>| debug_str(t)))
}

/// Whether a character separates tokens.
pub fn blank(c: char) -> (r: bool)
    ensures
        r == is_blank(c),
{
    c == ' ' || c == '\t' || c == '\n' || c == '\x0C' || c == '\r'
}

proof fn lemma_texts_push(v: Seq<String>, t: String)
    ensures
        texts(v.push(t)) == texts(v).push(t@),
{
    assert(texts(v.push(t)) =~= texts(v).push(t@));
}

/// Splits a line into its whitespace-separated tokens.
pub fn tokenize(line: &str) -> (r: Vec<String>)
    ensures
        texts(r@) == tokens_of(line@),
{
    let n = line.unicode_len();
    let mut out: Vec<String> = Vec::new();
    let mut start: usize = 0;
    let mut i: usize = 0;
    while i < n
        invariant
            n == line@.len(),
            start <= i <= n,
            forall|j: int| start <= j < i ==> !is_blank(#[trigger] line@[j]),
            start == i ==> (i == 0 || is_blank(line@[i - 1])),
            start < i ==> tokens_of(line@.subrange(0, i as int)) == texts(out@).push(
                line@.subrange(start as int, i as int),
            ),
            start == i ==> tokens_of(line@.subrange(0, i as int)) == texts(out@),
        decreases n - i,
    {
        let c = line.get_char(i);
        let ghost s = line@.subrange(0, i + 1);
        assert(s.drop_last() =~= line@.subrange(0, i as int));
        assert(s.last() == c);
        if blank(c) {
            if start < i {
                let piece = String::from_str(line.substring_char(start, i));
                proof {
                    lemma_texts_push(out@, piece);
                }
                out.push(piece);
            }
            start = i + 1;
        } else {
            if start < i {
                assert(s[s.len() - 2] == line@[i - 1]);
                assert(line@.subrange(start as int, i as int).push(c) =~= line@.subrange(
                    start as int,
                    i + 1,
                ));
            } else {
                assert(seq![c] =~= line@.subrange(start as int, i + 1));
            }
        }
        i = i + 1;
    }
    assert(line@.subrange(0, n as int) =~= line@);
    if start < n {
        let piece = String::from_str(line.substring_char(start, n));
        proof {
            lemma_texts_push(out@, piece);
        }
        out.push(piece);
    }
    out
}

/// Relies on std's `Debug` formatting of `str`: the string quoted and escaped.
/// The result depends on the characters alone.
#[verifier::external_body]
fn debug_quoted(s: &str) -> (r: String)
    ensures
        r@ == debug_str(s@),
{
    format!("{:?}", s)
}

/// Writes already formatted items as a bracketed, comma-separated list.
pub fn list_of(items: &Vec<String>) -> (r: String)
    ensures
        r@ == list_text(texts(items@)),
{
    let mut r = String::from_str("[");
    let mut i: usize = 0;
    while i < items.len()
        invariant
            i <= items@.len(),
            r@ == "["@ + comma_separated(texts(items@).subrange(0, i as int)),
        decreases items@.len() - i,
    {
        let ghost before = r@;
        let ghost sub = texts(items@).subrange(0, i + 1);
        assert(sub.drop_last() =~= texts(items@).subrange(0, i as int));
        assert(sub.last() == items@[i as int]@);
        if i == 0 {
            r.append(items[i].as_str());
            assert(r@ =~= "["@ + comma_separated(sub));
        } else {
            r.append(", ");
            r.append(items[i].as_str());
            assert(r@ =~= "["@ + comma_separated(sub));
        }
        i = i + 1;
    }
    assert(texts(items@).subrange(0, items@.len() as int) =~= texts(items@));
    r.append("]");
    r
}

/// The tokens from index `from` on, in debug form, as a bracketed list.
pub fn debug_list_from(ts: &Vec<String>, from: usize) -> (r: String)
    requires
        from <= ts@.len(),
    ensures
        r@ == debug_list(texts(ts@).subrange(from as int, ts@.len() as int)),
{
    let mut quoted: Vec<String> = Vec::new();
    let mut i: usize = from;
    while i < ts.len()
        invariant
            from <= i <= ts@.len(),
            texts(quoted@) == texts(ts@).subrange(from as int, i as int).map_values(
                |t: Seq<char>| debug_str(t),
            ),
        decreases ts@.len() - i,
    {
        let q = debug_quoted(ts[i].as_str());
        let ghost before = quoted@;
        quoted.push(q);
        assert(texts(quoted@) =~= texts(before).push(q@));
        assert(texts(ts@).subrange(from as int, i + 1).map_values(|t: Seq<char>| debug_str(t))
            =~= texts(ts@).subrange(from as int, i as int).map_values(
            |t: Seq<char>| debug_str(t),
        ).push(debug_str(ts@[i as int]@)));
        i = i + 1;
    }
    list_of(&quoted)
}

} // verus!
