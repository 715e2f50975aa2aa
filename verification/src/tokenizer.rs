use crate::errors::Error;
use vstd::prelude::*;
use vstd::string::StrSliceExecFns;

verus! {

/// A character that separates tokens: the space and the line feed.
pub open spec fn is_separator(c: char) -> bool {
    c == ' ' || c == '\n'
}

/// Length of the maximal separator-free prefix of `s`: when `s` starts with a
/// token character, its first token ends here.
pub open spec fn token_end(s: Seq<char>) -> nat
    decreases s.len(),
{
    if s.len() == 0 || is_separator(s[0]) {
        0
    } else {
        1 + token_end(s.drop_first())
    }
}

/// The tokens of a line: every maximal run of non-separator characters, in
/// order.  Consecutive, leading and trailing separators contribute nothing.
pub open spec fn tokenize(s: Seq<char>) -> Seq<Seq<char>>
    decreases s.len(),
{
    if s.len() == 0 {
        Seq::empty()
    } else if is_separator(s[0]) {
        tokenize(s.drop_first())
    } else {
        proof {
            lemma_token_end_bounds(s);
        }
        seq![s.take(token_end(s) as int)] + tokenize(s.skip(token_end(s) as int))
    }
}

pub proof fn lemma_token_end_bounds(s: Seq<char>)
    ensures
        token_end(s) <= s.len(),
        forall|i: int| 0 <= i < token_end(s) ==> !is_separator(s[i]),
        token_end(s) < s.len() ==> is_separator(s[token_end(s) as int]),
    decreases s.len(),
{
    if s.len() == 0 || is_separator(s[0]) {
    } else {
        lemma_token_end_bounds(s.drop_first());
        assert forall|i: int| 0 <= i < token_end(s) implies !is_separator(s[i]) by {
            if i > 0 {
                assert(s.drop_first()[i - 1] == s[i]);
            }
        }
    }
}

/// `token_end` is the position of the first separator (or the length, when
/// there is none): any position with that property is `token_end`.
pub proof fn lemma_token_end_at(s: Seq<char>, k: int)
    requires
        0 <= k <= s.len(),
        forall|i: int| 0 <= i < k ==> !is_separator(s[i]),
        k == s.len() || is_separator(s[k]),
    ensures
        token_end(s) == k,
    decreases k,
{
    if k == 0 {
    } else {
        assert(!is_separator(s[0]));
        assert forall|i: int| 0 <= i < k - 1 implies !is_separator(s.drop_first()[i]) by {
            assert(s.drop_first()[i] == s[i + 1]);
        }
        if k < s.len() {
            assert(s.drop_first()[k - 1] == s[k]);
        }
        lemma_token_end_at(s.drop_first(), k - 1);
    }
}

/// A leading separator is ignored.
pub proof fn lemma_tokenize_leading_separator(s: Seq<char>)
    requires
        s.len() > 0,
        is_separator(s[0]),
    ensures
        tokenize(s) == tokenize(s.drop_first()),
{
}

/// A line that starts with a full token splits off that token: the word is
/// reported as one token and tokenization continues after it.
pub proof fn lemma_tokenize_word_prefix(w: Seq<char>, rest: Seq<char>)
    requires
        w.len() > 0,
        forall|i: int| 0 <= i < w.len() ==> !is_separator(w[i]),
        rest.len() == 0 || is_separator(rest[0]),
    ensures
        tokenize(w + rest) == seq![w] + tokenize(rest),
{
    let s = w + rest;
    assert forall|i: int| 0 <= i < w.len() implies !is_separator(s[i]) by {
        assert(s[i] == w[i]);
    }
    if w.len() < s.len() {
        assert(s[w.len() as int] == rest[0]);
    }
    lemma_token_end_at(s, w.len() as int);
    assert(!is_separator(s[0]));
    assert(s.take(w.len() as int) =~= w);
    assert(s.skip(w.len() as int) =~= rest);
}

/// No token is ever empty, and no token contains a separator: separators
/// only delimit, they never appear in the output.
pub proof fn lemma_tokenize_tokens_nonempty(s: Seq<char>)
    ensures
        forall|i: int| 0 <= i < tokenize(s).len() ==> (#[trigger] tokenize(s)[i]).len() > 0,
        forall|i: int, j: int|
            0 <= i < tokenize(s).len() && 0 <= j < tokenize(s)[i].len()
                ==> !is_separator(#[trigger] tokenize(s)[i][j]),
    decreases s.len(),
{
    if s.len() == 0 {
    } else if is_separator(s[0]) {
        lemma_tokenize_tokens_nonempty(s.drop_first());
        assert(tokenize(s) == tokenize(s.drop_first()));
        assert forall|i: int| 0 <= i < tokenize(s).len() implies (#[trigger] tokenize(
            s,
        )[i]).len() > 0 by {
            assert(tokenize(s)[i] == tokenize(s.drop_first())[i]);
        }
        assert forall|i: int, j: int|
            0 <= i < tokenize(s).len() && 0 <= j < tokenize(s)[i].len() implies !is_separator(
            #[trigger] tokenize(s)[i][j],
        ) by {
            assert(tokenize(s)[i] == tokenize(s.drop_first())[i]);
        }
    } else {
        lemma_token_end_bounds(s);
        let k = token_end(s) as int;
        lemma_tokenize_tokens_nonempty(s.skip(k));
        let toks = tokenize(s);
        assert(toks == seq![s.take(k)] + tokenize(s.skip(k)));
        assert forall|i: int| 0 <= i < toks.len() implies (#[trigger] toks[i]).len() > 0 by {
            if i > 0 {
                assert(toks[i] == tokenize(s.skip(k))[i - 1]);
            }
        }
        assert forall|i: int, j: int|
            0 <= i < toks.len() && 0 <= j < toks[i].len() implies !is_separator(
            #[trigger] toks[i][j],
        ) by {
            if i == 0 {
                assert(toks[0][j] == s[j]);
            } else {
                assert(toks[i] == tokenize(s.skip(k))[i - 1]);
            }
        }
    }
}

/// A trailing separator is ignored.
pub proof fn lemma_tokenize_trailing_separator(s: Seq<char>, c: char)
    requires
        is_separator(c),
    ensures
        tokenize(s.push(c)) == tokenize(s),
    decreases s.len(),
{
    if s.len() == 0 {
        assert(s.push(c).drop_first() =~= Seq::<char>::empty());
        assert(s =~= Seq::<char>::empty());
    } else if is_separator(s[0]) {
        assert(s.push(c).drop_first() =~= s.drop_first().push(c));
        lemma_tokenize_trailing_separator(s.drop_first(), c);
    } else {
        lemma_token_end_bounds(s);
        let k = token_end(s) as int;
        assert forall|i: int| 0 <= i < k implies !is_separator(s.push(c)[i]) by {
            assert(s.push(c)[i] == s[i]);
        }
        if k < s.len() {
            assert(s.push(c)[k] == s[k]);
        } else {
            assert(s.push(c)[k] == c);
        }
        lemma_token_end_at(s.push(c), k);
        assert(s.push(c).take(k) =~= s.take(k));
        assert(s.push(c).skip(k) =~= s.skip(k).push(c));
        lemma_tokenize_trailing_separator(s.skip(k), c);
    }
}

/// Two adjacent separators yield exactly what one yields: runs of separators
/// collapse.
pub proof fn lemma_tokenize_adjacent_separators(a: Seq<char>, c: char, d: char, b: Seq<char>)
    requires
        is_separator(c),
        is_separator(d),
    ensures
        tokenize(a + seq![c] + seq![d] + b) == tokenize(a + seq![c] + b),
    decreases a.len(),
{
    let long = a + seq![c] + seq![d] + b;
    let short = a + seq![c] + b;
    if a.len() == 0 {
        assert(long[0] == c);
        assert(short[0] == c);
        assert(long.drop_first() =~= seq![d] + b);
        assert((seq![d] + b)[0] == d);
        assert((seq![d] + b).drop_first() =~= b);
        assert(short.drop_first() =~= b);
        assert(tokenize(long) == tokenize(seq![d] + b));
        assert(tokenize(seq![d] + b) == tokenize(b));
        assert(tokenize(short) == tokenize(b));
    } else if is_separator(a[0]) {
        assert(long[0] == a[0]);
        assert(short[0] == a[0]);
        assert(long.drop_first() =~= a.drop_first() + seq![c] + seq![d] + b);
        assert(short.drop_first() =~= a.drop_first() + seq![c] + b);
        lemma_tokenize_adjacent_separators(a.drop_first(), c, d, b);
    } else {
        lemma_token_end_bounds(a);
        let k = token_end(a) as int;
        assert forall|i: int| 0 <= i < k implies !is_separator(long[i]) && !is_separator(
            short[i],
        ) by {
            assert(long[i] == a[i]);
            assert(short[i] == a[i]);
        }
        if k < a.len() {
            assert(long[k] == a[k]);
            assert(short[k] == a[k]);
        } else {
            assert(long[k] == c);
            assert(short[k] == c);
        }
        lemma_token_end_at(long, k);
        lemma_token_end_at(short, k);
        assert(long[0] == a[0]);
        assert(short[0] == a[0]);
        assert(long.take(k) =~= a.take(k));
        assert(short.take(k) =~= a.take(k));
        assert(long.skip(k) =~= a.skip(k) + seq![c] + seq![d] + b);
        assert(short.skip(k) =~= a.skip(k) + seq![c] + b);
        lemma_tokenize_adjacent_separators(a.skip(k), c, d, b);
    }
}

fn is_separator_char(c: char) -> (b: bool)
    ensures
        b == is_separator(c),
{
    c == ' ' || c == '\n'
}

/// Splits lines into whitespace-delimited tokens.  It is the entire
/// tokenization grammar: no quoting, no escapes, no special punctuation.
pub struct Parser;

impl Parser {
    pub fn new() -> (p: Parser) {
        Parser
    }

    /// Scans the line left to right; every maximal run of non-separator
    /// characters becomes one token.  Never fails.
    pub fn parse_words(&mut self, line: String) -> (r: Result<Vec<String>, Error>)
        ensures
            r matches Ok(words) && words.deep_view() == tokenize(line@),
    {
        let text: &str = line.as_str();
        let n: usize = text.unicode_len();
        let mut words: Vec<String> = Vec::new();
        let mut i: usize = 0;
        proof {
            assert(text@.skip(0) =~= text@);
            assert(words.deep_view() =~= Seq::<Seq<char>>::empty());
            assert(words.deep_view() + tokenize(text@) =~= tokenize(text@));
        }
        while i < n
            invariant
                i <= n,
                n == text@.len(),
                tokenize(text@) == words.deep_view() + tokenize(text@.skip(i as int)),
            decreases n - i,
        {
            if is_separator_char(text.get_char(i)) {
                proof {
                    assert(text@.skip(i as int)[0] == text@[i as int]);
                    assert(text@.skip(i as int).drop_first() =~= text@.skip(i as int + 1));
                }
                i = i + 1;
            } else {
                let start: usize = i;
                i = i + 1;
                loop
                    invariant
                        start < i <= n,
                        n == text@.len(),
                        forall|j: int| start <= j < i ==> !is_separator(text@[j]),
                    ensures
                        start < i <= n,
                        forall|j: int| start <= j < i ==> !is_separator(text@[j]),
                        i == n || is_separator(text@[i as int]),
                    decreases n - i,
                {
                    if i == n {
                        break ;
                    }
                    if is_separator_char(text.get_char(i)) {
                        break ;
                    }
                    i = i + 1;
                }
                let word: String = text.substring_char(start, i).to_owned();
                let ghost prev_views = words.deep_view();
                words.push(word);
                proof {
                    let w = text@.subrange(start as int, i as int);
                    let rest = text@.skip(i as int);
                    assert(rest.len() > 0 ==> rest[0] == text@[i as int]);
                    assert forall|j: int| 0 <= j < w.len() implies !is_separator(w[j]) by {
                        assert(w[j] == text@[start + j]);
                    }
                    lemma_tokenize_word_prefix(w, rest);
                    assert(text@.skip(start as int) =~= w + rest);
                    assert(words.deep_view() =~= prev_views.push(w));
                    assert(prev_views.push(w) + tokenize(rest) =~= prev_views + (seq![w]
                        + tokenize(rest)));
                }
            }
        }
        proof {
            assert(text@.skip(n as int) =~= Seq::<char>::empty());
            assert(words.deep_view() + tokenize(Seq::<char>::empty()) =~= words.deep_view());
        }
        Ok(words)
    }
}

} // verus!
