//! Patterns for allow and deny lists of paths. In a pattern `?` stands for
//! any one character and `*` for any run of characters, the empty run too;
//! every other character stands for itself. A pattern matches a text only as
//! a whole.

use vstd::prelude::*;

verus! {

/// Whether the pattern from position `i` on matches the text from position
/// `j` on.
pub open spec fn matches_from(pattern: Seq<char>, text: Seq<char>, i: int, j: int) -> bool
    decreases pattern.len() - i, text.len() - j,
{
    if i < 0 || j < 0 || j > text.len() {
        false
    } else if i >= pattern.len() {
        j == text.len()
    } else if pattern[i] == '*' {
        matches_from(pattern, text, i + 1, j) || (j < text.len() && matches_from(
            pattern,
            text,
            i,
            j + 1,
        ))
    } else {
        j < text.len() && (pattern[i] == '?' || pattern[i] == text[j]) && matches_from(
            pattern,
            text,
            i + 1,
            j + 1,
        )
    }
}

/// Whether `pattern` matches the whole of `text`.
pub open spec fn is_match(pattern: Seq<char>, text: Seq<char>) -> bool {
    matches_from(pattern, text, 0, 0)
}

/// A pattern without `*` and `?`.
pub open spec fn is_literal(pattern: Seq<char>) -> bool {
    forall|k: int| 0 <= k < pattern.len() ==> pattern[k] != '*' && pattern[k] != '?'
}

/// A pattern without `*` and `?` matches itself and nothing else.
pub proof fn lemma_literal_matches_itself_only(pattern: Seq<char>, text: Seq<char>)
    requires
        is_literal(pattern),
    ensures
        is_match(pattern, text) <==> pattern == text,
{
    lemma_literal_from(pattern, text, 0, 0);
    assert(pattern.subrange(0, pattern.len() as int) =~= pattern);
    assert(text.subrange(0, text.len() as int) =~= text);
}

/// A pattern without `*` and `?` matches, from a position on, what is equal
/// to it from that position on.
proof fn lemma_literal_from(pattern: Seq<char>, text: Seq<char>, i: int, j: int)
    requires
        is_literal(pattern),
        0 <= i <= pattern.len(),
        0 <= j <= text.len(),
    ensures
        matches_from(pattern, text, i, j) <==> pattern.subrange(i, pattern.len() as int)
            == text.subrange(j, text.len() as int),
    decreases pattern.len() - i,
{
    let rest = pattern.subrange(i, pattern.len() as int);
    let left = text.subrange(j, text.len() as int);
    if i < pattern.len() {
        if j < text.len() {
            lemma_literal_from(pattern, text, i + 1, j + 1);
            assert(rest.subrange(1, rest.len() as int) =~= pattern.subrange(
                i + 1,
                pattern.len() as int,
            ));
            assert(left.subrange(1, left.len() as int) =~= text.subrange(j + 1, text.len() as int));
            assert(rest[0] == pattern[i] && left[0] == text[j]);
            if pattern[i] == text[j] && pattern.subrange(i + 1, pattern.len() as int)
                == text.subrange(j + 1, text.len() as int) {
                assert(rest =~= seq![rest[0]] + rest.subrange(1, rest.len() as int));
                assert(left =~= seq![left[0]] + left.subrange(1, left.len() as int));
            }
        } else {
            assert(rest.len() != left.len());
        }
    } else {
        assert(rest.len() == 0);
        if j < text.len() {
            assert(left.len() != rest.len());
        } else {
            assert(rest =~= left);
        }
    }
}

/// `*` alone matches every text.
pub proof fn lemma_star_matches_all(text: Seq<char>)
    ensures
        is_match(seq!['*'], text),
{
    lemma_star_from(text, 0);
}

/// `*` alone matches every text from every position on.
proof fn lemma_star_from(text: Seq<char>, j: int)
    requires
        0 <= j <= text.len(),
    ensures
        matches_from(seq!['*'], text, 0, j),
    decreases text.len() - j,
{
    if j < text.len() {
        lemma_star_from(text, j + 1);
    } else {
        assert(matches_from(seq!['*'], text, 1, j));
    }
}

/// `?` alone matches the texts of one character, and no others.
pub proof fn lemma_question_matches_one(text: Seq<char>)
    ensures
        is_match(seq!['?'], text) <==> text.len() == 1,
{
    if text.len() >= 1 {
        assert(matches_from(seq!['?'], text, 1, 1) <==> text.len() == 1);
    }
}

/// Whether `pattern` matches the whole of `text`.
pub fn glob_match(pattern: &[char], text: &[char]) -> (r: bool)
    ensures
        r == is_match(pattern@, text@),
{
    let n = text.len();
    // row[j] says whether the pattern from `i` on matches the text from `j` on.
    let mut row: Vec<bool> = Vec::new();
    let mut j: usize = 0;
    while j < n
        invariant
            n == text@.len(),
            j <= n,
            row@.len() == j,
            forall|k: int| 0 <= k < j ==> row@[k] == matches_from(pattern@, text@, pattern@.len() as int, k),
        decreases n - j,
    {
        row.push(false);
        j += 1;
    }
    row.push(true);
    let mut i: usize = pattern.len();
    while i > 0
        invariant
            n == text@.len(),
            i <= pattern@.len(),
            row@.len() == n + 1,
            forall|k: int| 0 <= k <= n ==> row@[k] == matches_from(pattern@, text@, i as int, k),
        decreases i,
    {
        i -= 1;
        let c = pattern[i];
        let ghost below = row@;
        if c == '*' {
            // row[n] stays: the star matches the empty rest as what follows it does.
            assert(matches_from(pattern@, text@, i as int, n as int) == below[n as int]);
            let mut j: usize = n;
            while j > 0
                invariant
                    n == text@.len(),
                    i < pattern@.len(),
                    pattern@[i as int] == '*',
                    j <= n,
                    row@.len() == n + 1,
                    below.len() == n + 1,
                    forall|k: int| 0 <= k <= n ==> below[k] == matches_from(pattern@, text@, i + 1, k),
                    forall|k: int| 0 <= k < j ==> row@[k] == below[k],
                    forall|k: int| j <= k <= n ==> row@[k] == matches_from(pattern@, text@, i as int, k),
                decreases j,
            {
                j -= 1;
                let here = row[j] || row[j + 1];
                assert(below[j as int] == matches_from(pattern@, text@, i + 1, j as int));
                row.set(j, here);
            }
        } else {
            let mut j: usize = 0;
            while j < n
                invariant
                    n == text@.len(),
                    i < pattern@.len(),
                    pattern@[i as int] == c,
                    c != '*',
                    j <= n,
                    row@.len() == n + 1,
                    below.len() == n + 1,
                    forall|k: int| 0 <= k <= n ==> below[k] == matches_from(pattern@, text@, i + 1, k),
                    forall|k: int| j <= k <= n ==> row@[k] == below[k],
                    forall|k: int| 0 <= k < j ==> row@[k] == matches_from(pattern@, text@, i as int, k),
                decreases n - j,
            {
                let here = (c == '?' || c == text[j]) && row[j + 1];
                assert(below[j + 1] == matches_from(pattern@, text@, i + 1, j + 1));
                row.set(j, here);
                j += 1;
            }
            assert(!matches_from(pattern@, text@, i as int, n as int));
            row.set(n, false);
        }
    }
    row[0]
}

} // verus!
