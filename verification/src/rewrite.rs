//! Query-engine decisions around the result cache: which extended-protocol
//! messages go through prepared-statement rewriting, and when the query
//! parser must run so that tables can be identified.

use vstd::prelude::*;

verus! {

/// How prepared statements are handled.
#[derive(Clone, Copy, Debug, PartialEq, Eq)]
pub enum PreparedStatements {
    Disabled,
    Extended,
    ExtendedAnonymous,
    Full,
}

/// What the rewrite pass needs to know of a client message.
#[derive(Clone, Copy, Debug, PartialEq, Eq)]
pub struct MessageKind {
    /// Part of the extended protocol.
    pub extended: bool,
    /// Refers to the anonymous (unnamed) statement.
    pub anonymous: bool,
}

/// Whether the message is passed to the prepared-statement rewriter: it is
/// an extended-protocol message, and either every such message is rewritten
/// (`ExtendedAnonymous`), or only named ones are (`Extended`).
pub open spec fn needs_rewrite(level: PreparedStatements, m: MessageKind) -> bool {
    m.extended && (level == PreparedStatements::ExtendedAnonymous || (level
        == PreparedStatements::Extended && !m.anonymous))
}

/// Which messages are rewritten: never one outside the extended protocol;
/// with `ExtendedAnonymous` every extended one; with `Extended` the named
/// extended ones only; with `Disabled` or `Full` none.
pub proof fn rewrite_selection(level: PreparedStatements, m: MessageKind)
    ensures
        !m.extended ==> !needs_rewrite(level, m),
        (level == PreparedStatements::ExtendedAnonymous && m.extended) ==> needs_rewrite(level, m),
        level == PreparedStatements::Extended ==> (needs_rewrite(level, m) <==> (m.extended
            && !m.anonymous)),
        (level == PreparedStatements::Disabled || level == PreparedStatements::Full)
            ==> !needs_rewrite(level, m),
{
}

/// The positions, in order, of the messages that are rewritten.
pub open spec fn rewrite_positions(level: PreparedStatements, messages: Seq<MessageKind>) -> Seq<
    usize,
>
    decreases messages.len(),
{
    if messages.len() == 0 {
        Seq::<usize>::empty()
    } else {
        let rest = rewrite_positions(level, messages.drop_last());
        if needs_rewrite(level, messages.last()) {
            rest.push((messages.len() - 1) as usize)
        } else {
            rest
        }
    }
}

/// Unicode `White_Space`, as `char::is_whitespace` has it.
pub open spec fn is_ws(c: char) -> bool {
    let u = c as u32;
    ||| (9 <= u <= 13)
    ||| u == 32
    ||| u == 0x85
    ||| u == 0xA0
    ||| u == 0x1680
    ||| (0x2000 <= u <= 0x200A)
    ||| u == 0x2028
    ||| u == 0x2029
    ||| u == 0x202F
    ||| u == 0x205F
    ||| u == 0x3000
}

/// Space, tab, line feed and carriage return are white space; ASCII
/// letters and digits are not.
pub proof fn common_white_space(c: char)
    ensures
        (c == ' ' || c == '\t' || c == '\n' || c == '\r') ==> is_ws(c),
        (('a' <= c <= 'z') || ('A' <= c <= 'Z') || ('0' <= c <= '9')) ==> !is_ws(c),
{
}

/// Whether the character is white space.
pub fn is_whitespace(c: char) -> (b: bool)
    ensures
        b == is_ws(c),
{
    let u = c as u32;
    (9 <= u && u <= 13) || u == 32 || u == 0x85 || u == 0xA0 || u == 0x1680 || (0x2000 <= u && u
        <= 0x200A) || u == 0x2028 || u == 0x2029 || u == 0x202F || u == 0x205F || u == 0x3000
}

/// The characters up to the first white space.
pub open spec fn leading_word(s: Seq<char>) -> Seq<char>
    decreases s.len(),
{
    if s.len() == 0 || is_ws(s[0]) {
        Seq::<char>::empty()
    } else {
        seq![s[0]] + leading_word(s.drop_first())
    }
}

/// The first white-space separated word (empty when there is none).
pub open spec fn first_word(s: Seq<char>) -> Seq<char>
    decreases s.len(),
{
    if s.len() == 0 {
        Seq::<char>::empty()
    } else if is_ws(s[0]) {
        first_word(s.drop_first())
    } else {
        leading_word(s)
    }
}

proof fn lemma_leading_word(w: Seq<char>, rest: Seq<char>)
    requires
        forall|i: int| 0 <= i < w.len() ==> !is_ws(#[trigger] w[i]),
        rest.len() == 0 || is_ws(rest[0]),
    ensures
        leading_word(w + rest) == w,
    decreases w.len(),
{
    if w.len() == 0 {
        assert(w + rest =~= rest);
    } else {
        let tail = w.drop_first();
        assert(forall|i: int| 0 <= i < tail.len() ==> tail[i] == w[i + 1]);
        lemma_leading_word(tail, rest);
        assert((w + rest).drop_first() =~= tail + rest);
        assert((w + rest)[0] == w[0]);
        assert(w =~= seq![w[0]] + tail);
    }
}

/// The first word is found after any leading white space and ends at the
/// next white space (or the end): for white space `ws`, a word `w` without
/// white space, and `rest` empty or starting with white space,
/// `first_word(ws + w + rest) == w`.
pub proof fn first_word_skips_leading_space(ws: Seq<char>, w: Seq<char>, rest: Seq<char>)
    requires
        forall|i: int| 0 <= i < ws.len() ==> is_ws(#[trigger] ws[i]),
        w.len() > 0,
        forall|i: int| 0 <= i < w.len() ==> !is_ws(#[trigger] w[i]),
        rest.len() == 0 || is_ws(rest[0]),
    ensures
        first_word(ws + w + rest) == w,
    decreases ws.len(),
{
    if ws.len() == 0 {
        assert(ws + w + rest =~= w + rest);
        lemma_leading_word(w, rest);
        assert((w + rest)[0] == w[0]);
    } else {
        let tail = ws.drop_first();
        assert(forall|i: int| 0 <= i < tail.len() ==> tail[i] == ws[i + 1]);
        first_word_skips_leading_space(tail, w, rest);
        assert((ws + w + rest).drop_first() =~= tail + w + rest);
        assert((ws + w + rest)[0] == ws[0]);
    }
}

/// The code of the character, with ASCII upper-case letters lowered.
pub open spec fn lower_code(c: char) -> u32 {
    let u = c as u32;
    if 65 <= u <= 90 {
        (u + 32) as u32
    } else {
        u
    }
}

/// ASCII case folding: each upper-case ASCII letter folds to the code of its
/// lower-case letter, and every other character keeps its own code.
pub proof fn ascii_case_folding(c: char)
    ensures
        ('A' <= c <= 'Z') ==> lower_code(c) == (c as u32) + 32,
        !('A' <= c <= 'Z') ==> lower_code(c) == c as u32,
        ('a' <= c <= 'z') ==> lower_code(c) == c as u32,
{
}

/// A word spelled with the letters of a lower-case ASCII keyword, each in
/// either case, equals the keyword up to ASCII case; so the verbs are
/// recognised in any mix of cases (`UPDATE`, `Select`, ...).
pub proof fn keywords_match_in_any_case(word: Seq<char>, keyword: Seq<char>)
    requires
        word.len() == keyword.len(),
        forall|i: int| 0 <= i < keyword.len() ==> 'a' <= #[trigger] keyword[i] <= 'z',
        forall|i: int|
            0 <= i < word.len() ==> #[trigger] word[i] == keyword[i] || (word[i] as u32) + 32
                == keyword[i] as u32,
    ensures
        eq_ignore_ascii_case(word, keyword),
{
    assert forall|i: int| 0 <= i < word.len() implies lower_code(word[i]) == lower_code(
        #[trigger] keyword[i],
    ) by {
        ascii_case_folding(word[i]);
        ascii_case_folding(keyword[i]);
    }
}

/// Equality up to ASCII case.
pub open spec fn eq_ignore_ascii_case(a: Seq<char>, b: Seq<char>) -> bool {
    a.len() == b.len() && forall|i: int| 0 <= i < a.len() ==> lower_code(a[i]) == lower_code(#[trigger] b[i])
}

pub open spec fn select_word() -> Seq<char> {
    seq!['s', 'e', 'l', 'e', 'c', 't']
}

pub open spec fn insert_word() -> Seq<char> {
    seq!['i', 'n', 's', 'e', 'r', 't']
}

pub open spec fn update_word() -> Seq<char> {
    seq!['u', 'p', 'd', 'a', 't', 'e']
}

pub open spec fn delete_word() -> Seq<char> {
    seq!['d', 'e', 'l', 'e', 't', 'e']
}

/// Whether the statement starts with `SELECT`, `INSERT`, `UPDATE` or
/// `DELETE` (in any ASCII case).
pub open spec fn starts_with_cacheable_verb(query: Seq<char>) -> bool {
    let w = first_word(query);
    ||| eq_ignore_ascii_case(w, select_word())
    ||| eq_ignore_ascii_case(w, insert_word())
    ||| eq_ignore_ascii_case(w, update_word())
    ||| eq_ignore_ascii_case(w, delete_word())
}

/// A statement whose first word is `select`, `insert`, `update` or
/// `delete`, each letter in either case, after any leading white space and
/// followed by white space or nothing, forces the parser.
pub proof fn verbs_force_the_parser(ws: Seq<char>, word: Seq<char>, rest: Seq<char>, verb: Seq<char>)
    requires
        verb == select_word() || verb == insert_word() || verb == update_word() || verb
            == delete_word(),
        forall|i: int| 0 <= i < ws.len() ==> is_ws(#[trigger] ws[i]),
        word.len() == verb.len(),
        forall|i: int|
            0 <= i < word.len() ==> #[trigger] word[i] == verb[i] || (word[i] as u32) + 32
                == verb[i] as u32,
        rest.len() == 0 || is_ws(rest[0]),
    ensures
        starts_with_cacheable_verb(ws + word + rest),
{
    assert(forall|i: int| 0 <= i < verb.len() ==> 'a' <= #[trigger] verb[i] <= 'z');
    assert forall|i: int| 0 <= i < word.len() implies !is_ws(#[trigger] word[i]) by {
        assert(word[i] == verb[i] || (word[i] as u32) + 32 == verb[i] as u32);
    }
    first_word_skips_leading_space(ws, word, rest);
    keywords_match_in_any_case(word, verb);
}

/// A statement whose first word has a length other than six letters never
/// forces the parser.
pub proof fn other_lengths_do_not_force_the_parser(query: Seq<char>)
    requires
        first_word(query).len() != 6,
    ensures
        !starts_with_cacheable_verb(query),
{
}

/// Compares a word to a lower-case ASCII keyword, ignoring ASCII case.
fn word_is(word: &Vec<char>, keyword: &[char; 6]) -> (b: bool)
    ensures
        b == eq_ignore_ascii_case(word@, keyword@),
{
    if word.len() != 6 {
        return false;
    }
    let mut i: usize = 0;
    while i < 6
        invariant
            word@.len() == 6,
            keyword@.len() == 6,
            i <= 6,
            forall|j: int| 0 <= j < i ==> lower_code(word@[j]) == lower_code(#[trigger] keyword@[j]),
        decreases 6 - i,
    {
        let a = word[i] as u32;
        let b = keyword[i] as u32;
        let la = if 65 <= a && a <= 90 {
            a + 32
        } else {
            a
        };
        let lb = if 65 <= b && b <= 90 {
            b + 32
        } else {
            b
        };
        if la != lb {
            assert(lower_code(word@[i as int]) != lower_code(keyword@[i as int]));
            return false;
        }
        i = i + 1;
    }
    true
}

/// The first white-space separated word of the text.
pub fn first_word_of(query: &str) -> (w: Vec<char>)
    ensures
        w@ == first_word(query@),
{
    let n = query.unicode_len();
    let ghost s = query@;
    let mut i: usize = 0;
    assert(s.subrange(0, n as int) =~= s);
    while i < n && is_whitespace(query.get_char(i))
        invariant
            n == s.len(),
            s == query@,
            i <= n,
            first_word(s) == first_word(s.subrange(i as int, n as int)),
        decreases n - i,
    {
        assert(s.subrange(i as int, n as int).drop_first() =~= s.subrange(i + 1, n as int));
        i = i + 1;
    }
    assert(first_word(s) == leading_word(s.subrange(i as int, n as int)));
    let start = i;
    let mut w: Vec<char> = Vec::new();
    assert(w@ + leading_word(s.subrange(i as int, n as int)) =~= leading_word(s.subrange(i as int, n as int)));
    while i < n && !is_whitespace(query.get_char(i))
        invariant
            n == s.len(),
            s == query@,
            start <= i <= n,
            leading_word(s.subrange(start as int, n as int)) == w@ + leading_word(
                s.subrange(i as int, n as int),
            ),
        decreases n - i,
    {
        let c = query.get_char(i);
        assert(s.subrange(i as int, n as int).drop_first() =~= s.subrange(i + 1, n as int));
        assert(leading_word(s.subrange(i as int, n as int)) == seq![c] + leading_word(
            s.subrange(i + 1, n as int),
        ));
        let ghost before = w@;
        w.push(c);
        assert(before + (seq![c] + leading_word(s.subrange(i + 1, n as int))) =~= w@ + leading_word(s.subrange(i + 1, n as int)));
        i = i + 1;
    }
    assert(leading_word(s.subrange(i as int, n as int)) =~= Seq::<char>::empty());
    assert(w@ =~= w@ + leading_word(s.subrange(i as int, n as int)));
    w
}

/// Whether the statement starts with `SELECT`, `INSERT`, `UPDATE` or `DELETE`.
pub fn forces_parser(query: &str) -> (b: bool)
    ensures
        b == starts_with_cacheable_verb(query@),
{
    let w = first_word_of(query);
    let select: [char; 6] = ['s', 'e', 'l', 'e', 'c', 't'];
    let insert: [char; 6] = ['i', 'n', 's', 'e', 'r', 't'];
    let update: [char; 6] = ['u', 'p', 'd', 'a', 't', 'e'];
    let delete: [char; 6] = ['d', 'e', 'l', 'e', 't', 'e'];
    assert(select@ =~= select_word());
    assert(insert@ =~= insert_word());
    assert(update@ =~= update_word());
    assert(delete@ =~= delete_word());
    word_is(&w, &select) || word_is(&w, &insert) || word_is(&w, &update) || word_is(&w, &delete)
}

/// The rewrite pass stops at message `k`: it is selected, the rewriter
/// failed on it with `e`, and every selected message before it was
/// rewritten.
pub open spec fn stops_at<M, E, F: Fn(M) -> Result<M, E>>(
    level: PreparedStatements,
    kinds: Seq<MessageKind>,
    messages: Seq<M>,
    rewrite: F,
    e: E,
    k: int,
) -> bool {
    &&& 0 <= k < messages.len()
    &&& needs_rewrite(level, kinds[k])
    &&& call_ensures(rewrite, (messages[k],), Err(e))
    &&& forall|j: int|
        0 <= j < k && needs_rewrite(level, #[trigger] kinds[j]) ==> exists|m: M|
            call_ensures(rewrite, (messages[j],), Ok(m))
}

/// The rewrite pass stops with error `e` at some message.
pub open spec fn stops_with<M, E, F: Fn(M) -> Result<M, E>>(
    level: PreparedStatements,
    kinds: Seq<MessageKind>,
    messages: Seq<M>,
    rewrite: F,
    e: E,
) -> bool {
    exists|k: int| #[trigger] stops_at(level, kinds, messages, rewrite, e, k)
}

/// The rewrite positions are exactly the selected messages, in increasing
/// order.
pub proof fn rewrite_positions_are_the_selected_messages(
    level: PreparedStatements,
    messages: Seq<MessageKind>,
)
    requires
        messages.len() <= usize::MAX,
    ensures
        forall|j: int|
            0 <= j < rewrite_positions(level, messages).len() ==> {
                let p = #[trigger] rewrite_positions(level, messages)[j];
                p < messages.len() && needs_rewrite(level, messages[p as int])
            },
        forall|i: int|
            0 <= i < messages.len() && needs_rewrite(level, #[trigger] messages[i])
                ==> rewrite_positions(level, messages).contains(i as usize),
        forall|j: int, k: int|
            0 <= j < k < rewrite_positions(level, messages).len() ==> #[trigger] rewrite_positions(
                level,
                messages,
            )[j] < #[trigger] rewrite_positions(level, messages)[k],
    decreases messages.len(),
{
    if messages.len() > 0 {
        let rest = messages.drop_last();
        rewrite_positions_are_the_selected_messages(level, rest);
        let r = rewrite_positions(level, rest);
        let full = rewrite_positions(level, messages);
        let n = messages.len();
        assert(rest.len() == n - 1);
        assert(((n - 1) as usize) as int == n - 1);
        if needs_rewrite(level, messages.last()) {
            assert(full == r.push((n - 1) as usize));
        } else {
            assert(full == r);
        }
        assert forall|j: int| 0 <= j < r.len() implies #[trigger] r[j] < rest.len() by {}
        assert forall|j: int, k: int| 0 <= j < k < full.len() implies #[trigger] full[j]
            < #[trigger] full[k] by {
            if k < r.len() {
                assert(full[j] == r[j] && full[k] == r[k]);
            } else {
                assert(full[j] == r[j]);
                assert(r[j] < rest.len());
            }
        }
        assert forall|i: int|
            0 <= i < messages.len() && needs_rewrite(level, #[trigger] messages[i])
                implies rewrite_positions(level, messages).contains(i as usize) by {
            if i < rest.len() {
                assert(rest[i] == messages[i]);
                assert(r.contains(i as usize));
                let w = choose|w: int| 0 <= w < r.len() && r[w] == i as usize;
                if needs_rewrite(level, messages.last()) {
                    assert(rewrite_positions(level, messages)[w] == i as usize);
                }
            } else {
                assert(rewrite_positions(level, messages)[r.len() as int] == i as usize);
            }
        }
        assert forall|j: int|
            0 <= j < rewrite_positions(level, messages).len() implies {
                let p = #[trigger] rewrite_positions(level, messages)[j];
                p < messages.len() && needs_rewrite(level, messages[p as int])
            } by {
            if j < r.len() {
                assert(full[j] == r[j]);
                assert(r[j] < rest.len());
                assert(rest[r[j] as int] == messages[r[j] as int]);
            } else {
                assert(full[j] == (n - 1) as usize);
                assert(messages[n - 1] == messages.last());
            }
        }
    }
}

/// The query engine's state that its result-cache decisions depend on.
#[derive(Clone, Copy, Debug, PartialEq, Eq)]
pub struct QueryEngine {
    /// Whether a result cache is attached.
    pub result_cache_enabled: bool,
}

impl QueryEngine {
    /// The positions, in order, of the messages of a request that
    /// prepared-statement rewriting applies to.
    pub fn extended_rewrite_positions(
        &self,
        level: PreparedStatements,
        messages: &Vec<MessageKind>,
    ) -> (r: Vec<
        usize,
    >)
        ensures
            r@ == rewrite_positions(level, messages@),
    {
        let mut r: Vec<usize> = Vec::new();
        let n = messages.len();
        let mut i: usize = 0;
        while i < n
            invariant
                n == messages@.len(),
                i <= n,
                r@ == rewrite_positions(level, messages@.take(i as int)),
            decreases n - i,
        {
            let m = messages[i];
            assert(messages@.take(i + 1).drop_last() =~= messages@.take(i as int));
            assert(messages@.take(i + 1).last() == m);
            let rewrite = m.extended && match level {
                PreparedStatements::ExtendedAnonymous => true,
                PreparedStatements::Extended => !m.anonymous,
                _ => false,
            };
            if rewrite {
                r.push(i);
            }
            i = i + 1;
        }
        assert(messages@.take(n as int) =~= messages@);
        r
    }

    /// Rewrites the extended-protocol messages of a request with `rewrite`
    /// (the prepared-statement rewriter), in order, on exactly the messages
    /// that [`needs_rewrite`] selects; the other messages are kept as they
    /// are. The first error stops the pass and is returned unchanged; no
    /// later message is rewritten then.
    ///
    /// `kinds[i]` describes `messages[i]`.
    pub fn rewrite_extended<M, E, F: Fn(M) -> Result<M, E>>(
        &self,
        level: PreparedStatements,
        kinds: &Vec<MessageKind>,
        messages: Vec<M>,
        rewrite: F,
    ) -> (r: Result<Vec<M>, E>)
        requires
            kinds@.len() == messages@.len(),
            forall|i: int|
                0 <= i < messages@.len() && needs_rewrite(level, #[trigger] kinds@[i])
                    ==> call_requires(rewrite, (messages@[i],)),
        ensures
            r matches Ok(out) ==> {
                &&& out@.len() == messages@.len()
                &&& forall|i: int|
                    0 <= i < messages@.len() ==> if needs_rewrite(level, #[trigger] kinds@[i]) {
                        call_ensures(rewrite, (messages@[i],), Ok(out@[i]))
                    } else {
                        out@[i] == messages@[i]
                    }
            },
            r matches Err(e) ==> stops_with(level, kinds@, messages@, rewrite, e),
    {
        let ghost orig = messages@;
        let n = messages.len();
        let mut rest = messages;
        let mut out: Vec<M> = Vec::new();
        let mut i: usize = 0;
        while i < n
            invariant
                orig == messages@,
                n == orig.len(),
                kinds@.len() == n,
                i <= n,
                rest@ == orig.subrange(i as int, n as int),
                out@.len() == i,
                forall|j: int|
                    0 <= j < orig.len() && needs_rewrite(level, #[trigger] kinds@[j])
                        ==> call_requires(rewrite, (orig[j],)),
                forall|j: int|
                    0 <= j < i ==> if needs_rewrite(level, #[trigger] kinds@[j]) {
                        call_ensures(rewrite, (orig[j],), Ok(out@[j]))
                    } else {
                        out@[j] == orig[j]
                    },
            decreases n - i,
        {
            let m = rest.remove(0);
            assert(m == orig[i as int]);
            assert(rest@ =~= orig.subrange(i + 1, n as int));
            let k = kinds[i];
            let selected = k.extended && match level {
                PreparedStatements::ExtendedAnonymous => true,
                PreparedStatements::Extended => !k.anonymous,
                _ => false,
            };
            if selected {
                assert(needs_rewrite(level, kinds@[i as int]));
                match rewrite(m) {
                    Ok(rewritten) => out.push(rewritten),
                    Err(e) => {
                        assert forall|j: int|
                            0 <= j < i && needs_rewrite(level, #[trigger] kinds@[j]) implies exists|
                            m: M,
                        | call_ensures(rewrite, (orig[j],), Ok(m)) by {
                            assert(call_ensures(rewrite, (orig[j],), Ok(out@[j])));
                        }
                        assert(stops_at(level, kinds@, orig, rewrite, e, i as int));
                        return Err(e);
                    },
                }
            } else {
                out.push(m);
            }
            i = i + 1;
        }
        Ok(out)
    }

    /// Whether the request is parsed: when the cluster asks for the parser, or
    /// when the result cache is on and the request's query starts with a verb
    /// whose tables the cache needs (for caching or invalidation).
    pub fn use_query_parser(&self, cluster_wants_parser: bool, query: Option<&str>) -> (b: bool)
        ensures
            b == (cluster_wants_parser || (self.result_cache_enabled && (query matches Some(q)
                && starts_with_cacheable_verb(q@)))),
    {
        if cluster_wants_parser {
            return true;
        }
        if !self.result_cache_enabled {
            return false;
        }
        match query {
            Some(q) => forces_parser(q),
            None => false,
        }
    }
}

} // verus!
