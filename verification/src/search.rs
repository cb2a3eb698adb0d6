//! Search query parsing and search-result view types.
//!
//! A query is a whitespace-separated list of tokens. Recognised operators:
//! - `from:alice` -- search sender field
//! - `to:bob` -- search recipient field
//! - `subject:meeting` -- search subject only
//! - `has:attachment` -- filter for attachments
//! - `is:unread` -- filter for unread
//! - `before:2026-01-01` / `after:2025-06-01` -- date filters
//! - everything else is a free-text term

use vstd::prelude::*;

use crate::text::{chars_eq, chars_of, chars_start_with, is_prefix, is_ws, is_whitespace, slice_chars, string_from_chars};

verus! {

/// A single search result for display.
#[derive(Debug, Clone)]
pub struct SearchResult {
    /// Thread ID for navigation.
    pub thread_id: String,
    /// Sender name.
    pub sender: String,
    /// Subject line.
    pub subject: String,
    /// Snippet with highlighted matches.
    pub snippet: String,
    /// Formatted date.
    pub date_display: String,
}

/// Messages from the search view.
#[derive(Debug, Clone)]
pub enum SearchViewMessage {
    /// User clicked a search result.
    OpenThread(String),
}

/// Structured filters parsed from a search query string.
#[derive(Debug, Clone)]
pub struct ParsedQuery {
    /// Free-text terms for body/subject search.
    pub terms: Vec<String>,
    /// From: filter.
    pub from: Option<String>,
    /// To: filter.
    pub to: Option<String>,
    /// Subject: filter.
    pub subject: Option<String>,
    /// has:attachment filter.
    pub has_attachment: bool,
    /// is:unread filter.
    pub is_unread: bool,
    /// before: date filter, as written.
    pub before: Option<String>,
    /// after: date filter, as written.
    pub after: Option<String>,
}

impl Default for ParsedQuery {
    fn default() -> (q: Self)
        ensures
            query_model(q) == empty_model(),
    {
        let q = ParsedQuery {
            terms: Vec::new(),
            from: None,
            to: None,
            subject: None,
            has_attachment: false,
            is_unread: false,
            before: None,
            after: None,
        };
        assert(query_model(q).terms =~= Seq::<Seq<char>>::empty());
        q
    }
}

/// A parsed query over character sequences.
pub struct QueryModel {
    pub terms: Seq<Seq<char>>,
    pub from: Option<Seq<char>>,
    pub to: Option<Seq<char>>,
    pub subject: Option<Seq<char>>,
    pub has_attachment: bool,
    pub is_unread: bool,
    pub before: Option<Seq<char>>,
    pub after: Option<Seq<char>>,
}

pub open spec fn opt_view(o: Option<String>) -> Option<Seq<char>> {
    match o {
        Some(s) => Some(s@),
        None => None,
    }
}

/// The model of a parsed query.
pub open spec fn query_model(q: ParsedQuery) -> QueryModel {
    QueryModel {
        terms: q.terms@.map_values(|t: String| t@),
        from: opt_view(q.from),
        to: opt_view(q.to),
        subject: opt_view(q.subject),
        has_attachment: q.has_attachment,
        is_unread: q.is_unread,
        before: opt_view(q.before),
        after: opt_view(q.after),
    }
}

/// The query with no filters and no terms.
pub open spec fn empty_model() -> QueryModel {
    QueryModel {
        terms: Seq::empty(),
        from: None,
        to: None,
        subject: None,
        has_attachment: false,
        is_unread: false,
        before: None,
        after: None,
    }
}

/// Length of the run of non-whitespace characters that starts `s`.
pub open spec fn word_len(s: Seq<char>) -> nat
    decreases s.len(),
{
    if s.len() == 0 || is_ws(s[0]) {
        0
    } else {
        1 + word_len(s.drop_first())
    }
}

/// `str::split_whitespace`: the maximal runs of non-whitespace characters.
pub open spec fn words(s: Seq<char>) -> Seq<Seq<char>>
    decreases s.len(),
{
    if s.len() == 0 {
        Seq::empty()
    } else if is_ws(s[0]) {
        words(s.drop_first())
    } else {
        let n = word_len(s);
        proof {
            lemma_word_len(s);
        }
        seq![s.subrange(0, n as int)] + words(s.subrange(n as int, s.len() as int))
    }
}

/// How one token updates a parsed query.
pub open spec fn apply_token(q: QueryModel, t: Seq<char>) -> QueryModel {
    if is_prefix("from:"@, t) {
        QueryModel { from: Some(t.subrange(5, t.len() as int)), ..q }
    } else if is_prefix("to:"@, t) {
        QueryModel { to: Some(t.subrange(3, t.len() as int)), ..q }
    } else if is_prefix("subject:"@, t) {
        QueryModel { subject: Some(t.subrange(8, t.len() as int)), ..q }
    } else if t == "has:attachment"@ {
        QueryModel { has_attachment: true, ..q }
    } else if t == "is:unread"@ {
        QueryModel { is_unread: true, ..q }
    } else if is_prefix("before:"@, t) {
        QueryModel { before: Some(t.subrange(7, t.len() as int)), ..q }
    } else if is_prefix("after:"@, t) {
        QueryModel { after: Some(t.subrange(6, t.len() as int)), ..q }
    } else {
        QueryModel { terms: q.terms.push(t), ..q }
    }
}

/// The tokens applied in order, starting from `q`.
pub open spec fn apply_tokens(q: QueryModel, ts: Seq<Seq<char>>) -> QueryModel
    decreases ts.len(),
{
    if ts.len() == 0 {
        q
    } else {
        apply_tokens(apply_token(q, ts[0]), ts.drop_first())
    }
}

/// What `parse_query` returns for a query string.
pub open spec fn parse_spec(s: Seq<char>) -> QueryModel {
    apply_tokens(empty_model(), words(s))
}

pub proof fn lemma_word_len(s: Seq<char>)
    ensures
        word_len(s) <= s.len(),
        forall|j: int| 0 <= j < word_len(s) ==> !is_ws(#[trigger] s[j]),
        word_len(s) < s.len() ==> is_ws(s[word_len(s) as int]),
    decreases s.len(),
{
    if s.len() > 0 && !is_ws(s[0]) {
        lemma_word_len(s.drop_first());
        assert forall|j: int| 0 <= j < word_len(s) implies !is_ws(#[trigger] s[j]) by {
            if j > 0 {
                assert(s[j] == s.drop_first()[j - 1]);
            }
        }
        if word_len(s) < s.len() {
            assert(s[word_len(s) as int] == s.drop_first()[word_len(s) - 1]);
        }
    }
}

/// End of the run of non-whitespace characters starting at `i`.
fn word_end(s: &[char], i: usize) -> (r: usize)
    requires
        i <= s@.len(),
    ensures
        r as int == i + word_len(s@.subrange(i as int, s@.len() as int)),
        i <= r <= s@.len(),
{
    let mut j = i;
    while j < s.len() && !is_whitespace(s[j])
        invariant
            i <= j <= s@.len(),
            word_len(s@.subrange(i as int, s@.len() as int)) == (j - i) + word_len(
                s@.subrange(j as int, s@.len() as int),
            ),
        decreases s@.len() - j,
    {
        proof {
            let u = s@.subrange(j as int, s@.len() as int);
            assert(u.drop_first() =~= s@.subrange(j + 1, s@.len() as int));
        }
        j = j + 1;
    }
    proof {
        let u = s@.subrange(j as int, s@.len() as int);
        if j < s@.len() {
            assert(u[0] == s@[j as int]);
        }
    }
    j
}

/// Parse a search query string into structured filters.
pub fn parse_query(query: &str) -> (r: ParsedQuery)
    ensures
        query_model(r) == parse_spec(query@),
{
    let s = chars_of(query);
    let from_p = chars_of("from:");
    let to_p = chars_of("to:");
    let subject_p = chars_of("subject:");
    let has_att = chars_of("has:attachment");
    let is_unread = chars_of("is:unread");
    let before_p = chars_of("before:");
    let after_p = chars_of("after:");
    proof {
        reveal_strlit("from:");
        reveal_strlit("to:");
        reveal_strlit("subject:");
        reveal_strlit("before:");
        reveal_strlit("after:");
    }
    let mut parsed = ParsedQuery::default();
    let mut i: usize = 0;
    assert(s@.subrange(0, s@.len() as int) =~= s@);
    while i < s.len()
        invariant
            i <= s@.len(),
            s@ == query@,
            from_p@ == "from:"@,
            to_p@ == "to:"@,
            subject_p@ == "subject:"@,
            has_att@ == "has:attachment"@,
            is_unread@ == "is:unread"@,
            before_p@ == "before:"@,
            after_p@ == "after:"@,
            "before:"@.len() == 7,
            "after:"@.len() == 6,
            "from:"@.len() == 5,
            "to:"@.len() == 3,
            "subject:"@.len() == 8,
            apply_tokens(query_model(parsed), words(s@.subrange(i as int, s@.len() as int)))
                == parse_spec(query@),
        decreases s@.len() - i,
    {
        let ghost rest = s@.subrange(i as int, s@.len() as int);
        if is_whitespace(s[i]) {
            proof {
                assert(rest[0] == s@[i as int]);
                assert(rest.drop_first() =~= s@.subrange(i + 1, s@.len() as int));
            }
            i = i + 1;
        } else {
            let e = word_end(s.as_slice(), i);
            let token = slice_chars(s.as_slice(), i, e);
            let ghost old_model = query_model(parsed);
            proof {
                assert(rest[0] == s@[i as int]);
                assert(rest.subrange(0, word_len(rest) as int) =~= token@);
                assert(rest.subrange(word_len(rest) as int, rest.len() as int) =~= s@.subrange(
                    e as int,
                    s@.len() as int,
                ));
                assert(words(rest) == seq![token@] + words(s@.subrange(e as int, s@.len() as int)));
                assert((seq![token@] + words(s@.subrange(e as int, s@.len() as int))).drop_first()
                    =~= words(s@.subrange(e as int, s@.len() as int)));
            }
            if chars_start_with(token.as_slice(), from_p.as_slice()) {
                let v = slice_chars(token.as_slice(), 5, token.len());
                parsed.from = Some(string_from_chars(v.as_slice()));
            } else if chars_start_with(token.as_slice(), to_p.as_slice()) {
                let v = slice_chars(token.as_slice(), 3, token.len());
                parsed.to = Some(string_from_chars(v.as_slice()));
            } else if chars_start_with(token.as_slice(), subject_p.as_slice()) {
                let v = slice_chars(token.as_slice(), 8, token.len());
                parsed.subject = Some(string_from_chars(v.as_slice()));
            } else if chars_eq(token.as_slice(), has_att.as_slice()) {
                parsed.has_attachment = true;
            } else if chars_eq(token.as_slice(), is_unread.as_slice()) {
                parsed.is_unread = true;
            } else if chars_start_with(token.as_slice(), before_p.as_slice()) {
                let v = slice_chars(token.as_slice(), 7, token.len());
                parsed.before = Some(string_from_chars(v.as_slice()));
            } else if chars_start_with(token.as_slice(), after_p.as_slice()) {
                let v = slice_chars(token.as_slice(), 6, token.len());
                parsed.after = Some(string_from_chars(v.as_slice()));
            } else {
                let t = string_from_chars(token.as_slice());
                parsed.terms.push(t);
                proof {
                    assert(query_model(parsed).terms =~= old_model.terms.push(token@));
                }
            }
            proof {
                assert(query_model(parsed) == apply_token(old_model, token@));
            }
            i = e;
        }
    }
    assert(s@.subrange(i as int, s@.len() as int) =~= Seq::<char>::empty());
    parsed
}

/// The value of the last token that starts with `p`, with `p` removed;
/// none when no token does.
pub open spec fn last_value(ts: Seq<Seq<char>>, p: Seq<char>) -> Option<Seq<char>>
    decreases ts.len(),
{
    if ts.len() == 0 {
        None
    } else if is_prefix(p, ts.last()) {
        Some(ts.last().subrange(p.len() as int, ts.last().len() as int))
    } else {
        last_value(ts.drop_last(), p)
    }
}

/// A token that sets a filter rather than naming a free-text term.
pub open spec fn is_filter_token(t: Seq<char>) -> bool {
    ||| is_prefix("from:"@, t)
    ||| is_prefix("to:"@, t)
    ||| is_prefix("subject:"@, t)
    ||| t == "has:attachment"@
    ||| t == "is:unread"@
    ||| is_prefix("before:"@, t)
    ||| is_prefix("after:"@, t)
}

/// The tokens that are free-text terms, in order.
pub open spec fn free_terms(ts: Seq<Seq<char>>) -> Seq<Seq<char>>
    decreases ts.len(),
{
    if ts.len() == 0 {
        Seq::empty()
    } else if is_filter_token(ts.last()) {
        free_terms(ts.drop_last())
    } else {
        free_terms(ts.drop_last()).push(ts.last())
    }
}

/// What a query's tokens ask for, each filter read from its own tokens
/// alone.
pub open spec fn tokens_model(ts: Seq<Seq<char>>) -> QueryModel {
    QueryModel {
        terms: free_terms(ts),
        from: last_value(ts, "from:"@),
        to: last_value(ts, "to:"@),
        subject: last_value(ts, "subject:"@),
        has_attachment: ts.contains("has:attachment"@),
        is_unread: ts.contains("is:unread"@),
        before: last_value(ts, "before:"@),
        after: last_value(ts, "after:"@),
    }
}

proof fn lemma_apply_tokens_push(q: QueryModel, ts: Seq<Seq<char>>, t: Seq<char>)
    ensures
        apply_tokens(q, ts.push(t)) == apply_token(apply_tokens(q, ts), t),
    decreases ts.len(),
{
    if ts.len() == 0 {
        assert(ts.push(t).drop_first() =~= Seq::<Seq<char>>::empty());
        assert(ts.push(t)[0] == t);
        assert(apply_tokens(apply_token(q, t), Seq::<Seq<char>>::empty()) == apply_token(q, t));
        assert(apply_tokens(q, ts) == q);
    } else {
        assert(ts.push(t).drop_first() =~= ts.drop_first().push(t));
        assert(ts.push(t)[0] == ts[0]);
        lemma_apply_tokens_push(apply_token(q, ts[0]), ts.drop_first(), t);
        assert(apply_tokens(q, ts) == apply_tokens(apply_token(q, ts[0]), ts.drop_first()));
        assert(apply_tokens(q, ts.push(t)) == apply_tokens(apply_token(q, ts[0]), ts.push(t).drop_first()));
    }
}

proof fn lemma_prefix_first(p: Seq<char>, t: Seq<char>)
    requires
        p.len() > 0,
        is_prefix(p, t),
    ensures
        t.len() > 0 && t[0] == p[0],
{
    assert(t.subrange(0, p.len() as int)[0] == t[0]);
}

/// The filter tokens start with distinct characters, so a token sets at
/// most one filter.
proof fn lemma_token_kinds(t: Seq<char>)
    ensures
        is_prefix("from:"@, t) ==> t[0] == 'f',
        is_prefix("to:"@, t) ==> t[0] == 't',
        is_prefix("subject:"@, t) ==> t[0] == 's',
        t == "has:attachment"@ ==> t[0] == 'h',
        t == "is:unread"@ ==> t[0] == 'i',
        is_prefix("before:"@, t) ==> t[0] == 'b',
        is_prefix("after:"@, t) ==> t[0] == 'a',
{
    reveal_strlit("from:");
    reveal_strlit("to:");
    reveal_strlit("subject:");
    reveal_strlit("has:attachment");
    reveal_strlit("is:unread");
    reveal_strlit("before:");
    reveal_strlit("after:");
    if is_prefix("from:"@, t) {
        lemma_prefix_first("from:"@, t);
    }
    if is_prefix("to:"@, t) {
        lemma_prefix_first("to:"@, t);
    }
    if is_prefix("subject:"@, t) {
        lemma_prefix_first("subject:"@, t);
    }
    if is_prefix("before:"@, t) {
        lemma_prefix_first("before:"@, t);
    }
    if is_prefix("after:"@, t) {
        lemma_prefix_first("after:"@, t);
    }
}

proof fn lemma_contains_push(ts: Seq<Seq<char>>, t: Seq<char>, w: Seq<char>)
    ensures
        ts.push(t).contains(w) <==> (ts.contains(w) || t == w),
{
    if ts.contains(w) {
        let i = choose|i: int| 0 <= i < ts.len() && ts[i] == w;
        assert(ts.push(t)[i] == w);
    }
    if t == w {
        assert(ts.push(t)[ts.len() as int] == w);
    }
    if ts.push(t).contains(w) {
        let i = choose|i: int| 0 <= i < ts.push(t).len() && ts.push(t)[i] == w;
        if i < ts.len() {
            assert(ts[i] == w);
        }
    }
}

#[verifier::spinoff_prover]
proof fn lemma_tokens_model(ts: Seq<Seq<char>>)
    ensures
        apply_tokens(empty_model(), ts) == tokens_model(ts),
    decreases ts.len(),
{
    if ts.len() == 0 {
        assert(tokens_model(ts).terms =~= Seq::<Seq<char>>::empty());
    } else {
        let init = ts.drop_last();
        let t = ts.last();
        assert(init.push(t) =~= ts);
        lemma_tokens_model(init);
        lemma_apply_tokens_push(empty_model(), init, t);
        lemma_token_kinds(t);
        lemma_contains_push(init, t, "has:attachment"@);
        lemma_contains_push(init, t, "is:unread"@);
        reveal_strlit("from:");
        reveal_strlit("to:");
        reveal_strlit("subject:");
        reveal_strlit("before:");
        reveal_strlit("after:");
        let m = tokens_model(init);
        let r = apply_token(m, t);
        let n = tokens_model(ts);
        assert(ts.drop_last() == init);
        assert(r.from == n.from);
        assert(r.to == n.to);
        assert(r.subject == n.subject);
        assert(r.before == n.before);
        assert(r.after == n.after);
        assert(r.has_attachment == n.has_attachment);
        assert(r.is_unread == n.is_unread);
        assert(r.terms =~= n.terms);
        assert(r == n);
    }
}

/// Each filter of a parsed query comes from its own tokens alone: `from`,
/// `to`, `subject`, `before` and `after` hold the value of the last token
/// of their kind (none when there is none), `has:attachment` and
/// `is:unread` are set when such a token appears, and the free-text terms
/// are the other tokens, in order, whatever else the query holds.
pub proof fn law_query_filters(query: Seq<char>)
    ensures
        parse_spec(query).from == last_value(words(query), "from:"@),
        parse_spec(query).to == last_value(words(query), "to:"@),
        parse_spec(query).subject == last_value(words(query), "subject:"@),
        parse_spec(query).before == last_value(words(query), "before:"@),
        parse_spec(query).after == last_value(words(query), "after:"@),
        parse_spec(query).has_attachment == words(query).contains("has:attachment"@),
        parse_spec(query).is_unread == words(query).contains("is:unread"@),
        parse_spec(query).terms == free_terms(words(query)),
{
    lemma_tokens_model(words(query));
}

} // verus!
