//! Splits a configured command-line string into argument tokens, honouring
//! shell-like quoting: whitespace separates tokens; double- and single-quoted
//! segments (quotes stripped) may contain whitespace; inside a quoted segment a
//! backslash escapes the active quote character.  An unterminated quote makes
//! the whole input unparsable; an empty or all-whitespace input yields an
//! empty token sequence, not a failure.

use vstd::prelude::*;

verus! {

/// The characters that separate tokens.
pub open spec fn is_space(c: char) -> bool {
    c == ' ' || c == '\t' || c == '\n' || c == '\r'
}

/// The characters that open a quoted segment.
pub open spec fn is_quote(c: char) -> bool {
    c == '"' || c == '\''
}

/// The value of a quoted segment of `s` whose opening quote `q` stands just
/// before position `i`: the segment's characters with the closing quote
/// dropped and every backslash-escaped `q` unescaped, together with the
/// position just after the closing quote.  `None` when the quote is never
/// terminated.
pub open spec fn quoted(s: Seq<char>, i: int, q: char) -> Option<(Seq<char>, int)>
    decreases s.len() - i,
{
    if i < 0 || i >= s.len() {
        None
    } else if s[i] == '\\' && i + 1 < s.len() && s[i + 1] == q {
        match quoted(s, i + 2, q) {
            Some(pj) => Some((seq![q] + pj.0, pj.1)),
            None => None,
        }
    } else if s[i] == q {
        Some((Seq::<char>::empty(), i + 1))
    } else {
        match quoted(s, i + 1, q) {
            Some(pj) => Some((seq![s[i]] + pj.0, pj.1)),
            None => None,
        }
    }
}

/// A terminated quoted segment ends strictly after its first character and
/// within the input.
pub proof fn lemma_quoted_bounds(s: Seq<char>, i: int, q: char)
    ensures
        quoted(s, i, q) matches Some(pj) ==> i < pj.1 <= s.len(),
    decreases s.len() - i,
{
    if i < 0 || i >= s.len() {
    } else if s[i] == '\\' && i + 1 < s.len() && s[i + 1] == q {
        lemma_quoted_bounds(s, i + 2, q);
    } else if s[i] == q {
    } else {
        lemma_quoted_bounds(s, i + 1, q);
    }
}

/// The value of the token of `s` that starts at position `i`, together with
/// the position just after it: the maximal run of non-whitespace characters,
/// with each quoted segment replaced by its [`quoted`] value.  The empty token
/// at the end of the input or in front of whitespace is `Some((empty, i))`;
/// an unterminated quote makes the token `None`.
pub open spec fn token(s: Seq<char>, i: int) -> Option<(Seq<char>, int)>
    decreases s.len() - i via token_decreases
{
    if i < 0 || i >= s.len() || is_space(s[i]) {
        Some((Seq::<char>::empty(), i))
    } else if is_quote(s[i]) {
        match quoted(s, i + 1, s[i]) {
            Some(pj) => match token(s, pj.1) {
                Some(tk) => Some((pj.0 + tk.0, tk.1)),
                None => None,
            },
            None => None,
        }
    } else {
        match token(s, i + 1) {
            Some(tk) => Some((seq![s[i]] + tk.0, tk.1)),
            None => None,
        }
    }
}

#[via_fn]
proof fn token_decreases(s: Seq<char>, i: int) {
    if 0 <= i < s.len() && !is_space(s[i]) && is_quote(s[i]) {
        lemma_quoted_bounds(s, i + 1, s[i]);
    }
}

/// A token never ends before its start, never runs past the input, and is
/// never empty when it starts at a non-whitespace character.
pub proof fn lemma_token_bounds(s: Seq<char>, i: int)
    requires
        i <= s.len(),
    ensures
        token(s, i) matches Some(tk) ==> i <= tk.1 <= s.len()
            && (0 <= i < s.len() && !is_space(s[i]) ==> i < tk.1),
    decreases s.len() - i,
{
    if i < 0 || i >= s.len() || is_space(s[i]) {
    } else if is_quote(s[i]) {
        lemma_quoted_bounds(s, i + 1, s[i]);
        match quoted(s, i + 1, s[i]) {
            Some(pj) => {
                lemma_token_bounds(s, pj.1);
            },
            None => {},
        }
    } else {
        lemma_token_bounds(s, i + 1);
    }
}

/// The sequence of tokens of `s` from position `i` on; `None` when some quote
/// is unterminated.
pub open spec fn tokens_from(s: Seq<char>, i: int) -> Option<Seq<Seq<char>>>
    decreases s.len() - i via tokens_from_decreases
{
    if i < 0 || i >= s.len() {
        Some(Seq::<Seq<char>>::empty())
    } else if is_space(s[i]) {
        tokens_from(s, i + 1)
    } else {
        match token(s, i) {
            Some(tk) => match tokens_from(s, tk.1) {
                Some(ts) => Some(seq![tk.0] + ts),
                None => None,
            },
            None => None,
        }
    }
}

#[via_fn]
proof fn tokens_from_decreases(s: Seq<char>, i: int) {
    if 0 <= i < s.len() && !is_space(s[i]) {
        lemma_token_bounds(s, i);
    }
}

/// What [`tolkenize`] returns: the token sequence of the whole input, or
/// `None` for an unparsable input.
pub open spec fn spec_tolkenize(s: Seq<char>) -> Option<Seq<Seq<char>>> {
    tokens_from(s, 0)
}

/// A character that neither separates tokens nor opens a quoted segment.
pub open spec fn plain_char(c: char) -> bool {
    !is_space(c) && !is_quote(c)
}

/// A non-empty token all of whose characters are plain.  Such a token reads
/// back from canonical spacing exactly as it stands.
pub open spec fn plain_token(t: Seq<char>) -> bool {
    t.len() > 0 && (forall|k: int| 0 <= k < t.len() ==> plain_char(t[k]))
}

pub open spec fn all_plain(ts: Seq<Seq<char>>) -> bool {
    forall|k: int| 0 <= k < ts.len() ==> plain_token(ts[k])
}

/// The tokens re-joined with single spaces.
pub open spec fn join_spaced(ts: Seq<Seq<char>>) -> Seq<char>
    decreases ts.len(),
{
    if ts.len() == 0 {
        Seq::<char>::empty()
    } else if ts.len() == 1 {
        ts[0]
    } else {
        ts[0] + seq![' '] + join_spaced(ts.drop_first())
    }
}

/// A run of plain characters reaching up to the end of the input or up to a
/// whitespace character is read as one token.
proof fn lemma_token_plain_run(s: Seq<char>, i: int, j: int)
    requires
        0 <= i <= j <= s.len(),
        forall|k: int| i <= k < j ==> plain_char(s[k]),
        j == s.len() || is_space(s[j]),
    ensures
        token(s, i) == Some((s.subrange(i, j), j)),
    decreases j - i,
{
    if i == j {
        assert(s.subrange(i, j) =~= Seq::<char>::empty());
    } else {
        lemma_token_plain_run(s, i + 1, j);
        assert(seq![s[i]] + s.subrange(i + 1, j) =~= s.subrange(i, j));
    }
}

/// From position `i` on, an input that reads `join_spaced(ts)` tokenizes to
/// exactly `ts`, provided every token is plain and non-empty.
proof fn lemma_tokens_from_join(s: Seq<char>, i: int, ts: Seq<Seq<char>>)
    requires
        0 <= i <= s.len(),
        s.skip(i) == join_spaced(ts),
        all_plain(ts),
    ensures
        tokens_from(s, i) == Some(ts),
    decreases ts.len(),
{
    if ts.len() == 0 {
        assert(s.skip(i).len() == 0);
        assert(ts =~= Seq::<Seq<char>>::empty());
    } else if ts.len() == 1 {
        assert(plain_token(ts[0]));
        assert(s.skip(i).len() == ts[0].len());
        assert forall|k: int| i <= k < s.len() implies plain_char(s[k]) by {
            assert(s.skip(i)[k - i] == s[k]);
            assert(plain_char(ts[0][k - i]));
        }
        lemma_token_plain_run(s, i, s.len() as int);
        assert(s.subrange(i, s.len() as int) =~= s.skip(i));
        assert(i < s.len());
        assert(plain_char(s[i]));
        assert(token(s, i) == Some((ts[0], s.len() as int)));
        assert(tokens_from(s, s.len() as int) == Some(Seq::<Seq<char>>::empty()));
        assert(tokens_from(s, i) == Some(seq![ts[0]] + Seq::<Seq<char>>::empty()));
        assert(seq![ts[0]] + Seq::<Seq<char>>::empty() =~= ts);
    } else {
        assert(plain_token(ts[0]));
        let m = i + ts[0].len();
        assert(s.skip(i).len() == ts[0].len() + 1 + join_spaced(ts.drop_first()).len());
        assert(m + 1 <= s.len());
        assert forall|k: int| i <= k < m implies plain_char(s[k]) by {
            assert(s.skip(i)[k - i] == s[k]);
            assert(s.skip(i)[k - i] == ts[0][k - i]);
            assert(plain_char(ts[0][k - i]));
        }
        assert(s[m] == s.skip(i)[ts[0].len() as int]);
        assert(s[m] == ' ');
        lemma_token_plain_run(s, i, m);
        assert(s.subrange(i, m) =~= ts[0]) by {
            assert forall|k: int| 0 <= k < ts[0].len() implies s.subrange(i, m)[k] == ts[0][k] by {
                assert(s.skip(i)[k] == s[i + k]);
            }
        }
        assert(s[i] == s.skip(i)[0]);
        assert(s[i] == ts[0][0]);
        assert(all_plain(ts.drop_first())) by {
            assert forall|k: int| 0 <= k < ts.drop_first().len() implies plain_token(
                ts.drop_first()[k],
            ) by {
                assert(ts.drop_first()[k] == ts[k + 1]);
            }
        }
        assert(s.skip(m + 1) =~= join_spaced(ts.drop_first())) by {
            assert forall|k: int|
                0 <= k < join_spaced(ts.drop_first()).len() implies s.skip(m + 1)[k]
                == join_spaced(ts.drop_first())[k] by {
                assert(s.skip(i)[ts[0].len() + 1 + k] == s[m + 1 + k]);
            }
        }
        lemma_tokens_from_join(s, m + 1, ts.drop_first());
        assert(plain_char(s[i]));
        assert(token(s, i) == Some((ts[0], m)));
        assert(tokens_from(s, m) == Some(ts.drop_first()));
        assert(tokens_from(s, i) == Some(seq![ts[0]] + ts.drop_first()));
        assert(seq![ts[0]] + ts.drop_first() =~= ts);
    }
}

/// Law (round trip under canonical spacing): when an input tokenizes
/// successfully and every produced token is non-empty and free of whitespace
/// and quote characters, re-joining the tokens with single spaces and
/// re-tokenizing yields the same token sequence.
pub proof fn lemma_tolkenize_rejoin(s: Seq<char>, ts: Seq<Seq<char>>)
    requires
        spec_tolkenize(s) == Some(ts),
        all_plain(ts),
    ensures
        spec_tolkenize(join_spaced(ts)) == Some(ts),
{
    let j = join_spaced(ts);
    assert(j.skip(0) =~= j);
    lemma_tokens_from_join(j, 0, ts);
}

/// Law (whitespace-only input): an input consisting of whitespace alone yields
/// the empty token sequence, not a failure.
pub proof fn lemma_tolkenize_whitespace(s: Seq<char>)
    requires
        forall|k: int| 0 <= k < s.len() ==> is_space(s[k]),
    ensures
        spec_tolkenize(s) == Some(Seq::<Seq<char>>::empty()),
{
    lemma_tokens_from_spaces(s, 0);
}

proof fn lemma_tokens_from_spaces(s: Seq<char>, i: int)
    requires
        0 <= i <= s.len(),
        forall|k: int| i <= k < s.len() ==> is_space(s[k]),
    ensures
        tokens_from(s, i) == Some(Seq::<Seq<char>>::empty()),
    decreases s.len() - i,
{
    if i < s.len() {
        lemma_tokens_from_spaces(s, i + 1);
    }
}

/// A quote that is never closed makes the quoted segment unparsable.
proof fn lemma_quoted_no_close(s: Seq<char>, j: int, q: char)
    requires
        0 <= j <= s.len(),
        forall|k: int| j <= k < s.len() ==> s[k] != q,
    ensures
        quoted(s, j, q) is None,
    decreases s.len() - j,
{
    if j < s.len() {
        lemma_quoted_no_close(s, j + 1, q);
    }
}

/// A token that runs into an unterminated quote is unparsable.
proof fn lemma_token_hits_quote(s: Seq<char>, m: int, i: int)
    requires
        0 <= m <= i < s.len(),
        forall|k: int| m <= k < i ==> plain_char(s[k]),
        is_quote(s[i]),
        forall|k: int| i < k < s.len() ==> s[k] != s[i],
    ensures
        token(s, m) is None,
    decreases i - m,
{
    if m == i {
        lemma_quoted_no_close(s, i + 1, s[i]);
    } else {
        lemma_token_hits_quote(s, m + 1, i);
    }
}

/// A token that starts before an unterminated quote either fails or stops at a
/// whitespace character strictly before the quote.
proof fn lemma_token_upto(s: Seq<char>, m: int, i: int)
    requires
        0 <= m < i < s.len(),
        !is_space(s[m]),
        forall|k: int| m <= k < i ==> !is_quote(s[k]),
        is_quote(s[i]),
        forall|k: int| i < k < s.len() ==> s[k] != s[i],
    ensures
        token(s, m) is None || (token(s, m) matches Some(tk) && m < tk.1 < i && is_space(
            s[tk.1],
        )),
    decreases i - m,
{
    assert(plain_char(s[m]));
    if m + 1 == i {
        lemma_token_hits_quote(s, m + 1, i);
        assert(token(s, m + 1) is None);
        assert(token(s, m) is None);
    } else if is_space(s[m + 1]) {
        assert(token(s, m + 1) == Some((Seq::<char>::empty(), m + 1)));
        assert(token(s, m) == Some((seq![s[m]] + Seq::<char>::empty(), m + 1)));
    } else {
        lemma_token_upto(s, m + 1, i);
    }
}

/// Law (unterminated quote): an input whose first quote character is never
/// terminated always fails to tokenize.  `i` is the position of that quote: no
/// quote character stands before it and no further occurrence of it follows.
pub proof fn lemma_unterminated_quote_fails(s: Seq<char>, i: int)
    requires
        0 <= i < s.len(),
        is_quote(s[i]),
        forall|k: int| 0 <= k < i ==> !is_quote(s[k]),
        forall|k: int| i < k < s.len() ==> s[k] != s[i],
    ensures
        spec_tolkenize(s) is None,
{
    lemma_tokens_from_unterminated(s, 0, i);
}

proof fn lemma_tokens_from_unterminated(s: Seq<char>, m: int, i: int)
    requires
        0 <= m <= i < s.len(),
        forall|k: int| m <= k < i ==> !is_quote(s[k]),
        is_quote(s[i]),
        forall|k: int| i < k < s.len() ==> s[k] != s[i],
    ensures
        tokens_from(s, m) is None,
    decreases i - m,
{
    if m == i {
        lemma_token_hits_quote(s, i, i);
    } else if is_space(s[m]) {
        lemma_tokens_from_unterminated(s, m + 1, i);
    } else {
        lemma_token_upto(s, m, i);
        match token(s, m) {
            None => {},
            Some(tk) => {
                lemma_tokens_from_unterminated(s, tk.1, i);
            },
        }
    }
}

fn is_space_char(c: char) -> (b: bool)
    ensures
        b == is_space(c),
{
    c == ' ' || c == '\t' || c == '\n' || c == '\r'
}

fn quoted_at(s: &str, i: usize, q: char) -> (r: Option<(String, usize)>)
    requires
        i <= s@.len(),
    ensures
        r is None ==> quoted(s@, i as int, q) is None,
        r matches Some(pj) ==> quoted(s@, i as int, q) == Some((pj.0@, pj.1 as int))
            && i < pj.1 <= s@.len(),
    decreases s@.len() - i,
{
    let n = s.unicode_len();
    if i >= n {
        return None;
    }
    let c = s.get_char(i);
    if c == '\\' && i + 1 < n && s.get_char(i + 1) == q {
        match quoted_at(s, i + 2, q) {
            None => None,
            Some((p, j)) => {
                let mut piece = s.substring_char(i + 1, i + 2).to_owned();
                piece.append(p.as_str());
                proof {
                    assert(s@.subrange(i + 1, i + 2) =~= seq![q]);
                }
                Some((piece, j))
            },
        }
    } else if c == q {
        Some((String::new(), i + 1))
    } else {
        match quoted_at(s, i + 1, q) {
            None => None,
            Some((p, j)) => {
                let mut piece = s.substring_char(i, i + 1).to_owned();
                piece.append(p.as_str());
                proof {
                    assert(s@.subrange(i as int, i + 1) =~= seq![s@[i as int]]);
                }
                Some((piece, j))
            },
        }
    }
}

fn token_at(s: &str, i: usize) -> (r: Option<(String, usize)>)
    requires
        i <= s@.len(),
    ensures
        r is None ==> token(s@, i as int) is None,
        r matches Some(tk) ==> token(s@, i as int) == Some((tk.0@, tk.1 as int))
            && i <= tk.1 <= s@.len(),
    decreases s@.len() - i,
{
    let n = s.unicode_len();
    if i >= n {
        return Some((String::new(), i));
    }
    let c = s.get_char(i);
    if is_space_char(c) {
        return Some((String::new(), i));
    }
    if c == '"' || c == '\'' {
        match quoted_at(s, i + 1, c) {
            None => None,
            Some((p, j)) => {
                match token_at(s, j) {
                    None => None,
                    Some((t, k)) => {
                        let mut tok = p;
                        tok.append(t.as_str());
                        Some((tok, k))
                    },
                }
            },
        }
    } else {
        match token_at(s, i + 1) {
            None => None,
            Some((t, k)) => {
                let mut tok = s.substring_char(i, i + 1).to_owned();
                tok.append(t.as_str());
                proof {
                    assert(s@.subrange(i as int, i + 1) =~= seq![s@[i as int]]);
                }
                Some((tok, k))
            },
        }
    }
}

/// Split a command-line string into its argument tokens; `None` when a quoted
/// segment is unterminated.  An empty or all-whitespace input yields an empty
/// token vector.
pub fn tolkenize(input: &str) -> (r: Option<Vec<String>>)
    ensures
        r is None ==> spec_tolkenize(input@) is None,
        r matches Some(v) ==> spec_tolkenize(input@) == Some(v.deep_view()),
{
    let n = input.unicode_len();
    let mut v: Vec<String> = Vec::new();
    let mut i: usize = 0;
    proof {
        assert(v.deep_view() =~= Seq::<Seq<char>>::empty());
    }
    while i < n
        invariant
            i <= n,
            n == input@.len(),
            tokens_from(input@, 0) == (match tokens_from(input@, i as int) {
                Some(ts) => Some(v.deep_view() + ts),
                None => None::<Seq<Seq<char>>>,
            }),
        decreases n - i,
    {
        let c = input.get_char(i);
        if is_space_char(c) {
            i = i + 1;
        } else {
            match token_at(input, i) {
                None => {
                    return None;
                },
                Some((t, j)) => {
                    proof {
                        lemma_token_bounds(input@, i as int);
                    }
                    let ghost old_tokens = v.deep_view();
                    v.push(t);
                    proof {
                        assert(v.deep_view() =~= old_tokens.push(t@));
                        match tokens_from(input@, j as int) {
                            Some(ts) => {
                                assert(old_tokens + (seq![t@] + ts) =~= v.deep_view() + ts);
                            },
                            None => {},
                        }
                    }
                    i = j;
                },
            }
        }
    }
    proof {
        assert(v.deep_view() + Seq::<Seq<char>>::empty() =~= v.deep_view());
    }
    Some(v)
}

} // verus!
