//! Pattern compiler: rewrites a declared command keyword into an anchored
//! regular expression that accepts any configured prefix character and an
//! optional `@botname` mention, then compiles it through the `regex` crate.

use vstd::prelude::*;

verus! {

/// The whitespace characters on which a command pattern is split into its
/// keyword and argument fragments.
pub open spec fn is_space(c: char) -> bool {
    c == ' ' || c == '\t' || c == '\n' || c == '\r'
}

fn is_space_exec(c: char) -> (r: bool)
    ensures
        r == is_space(c),
{
    c == ' ' || c == '\t' || c == '\n' || c == '\r'
}

/// Whitespace splitting with an accumulator for the token being read:
/// `tokens_acc(s, cur)` is the token list of `cur + s`, given that `cur`
/// holds the non-space characters read so far of the current token.
pub open spec fn tokens_acc(s: Seq<char>, cur: Seq<char>) -> Seq<Seq<char>>
    decreases s.len(),
{
    if s.len() == 0 {
        if cur.len() == 0 {
            Seq::empty()
        } else {
            seq![cur]
        }
    } else if is_space(s[0]) {
        if cur.len() == 0 {
            tokens_acc(s.drop_first(), Seq::empty())
        } else {
            seq![cur] + tokens_acc(s.drop_first(), Seq::empty())
        }
    } else {
        tokens_acc(s.drop_first(), cur.push(s[0]))
    }
}

/// The maximal non-empty runs of non-space characters of `s`, in order.
pub open spec fn tokens_of(s: Seq<char>) -> Seq<Seq<char>> {
    tokens_acc(s, Seq::empty())
}

/// Characters that must be escaped inside a regex character class so that a
/// prefix character is matched literally.
pub open spec fn needs_escape(c: char) -> bool {
    c == '^' || c == ']' || c == '[' || c == '\\' || c == '-'
}

fn needs_escape_exec(c: char) -> (r: bool)
    ensures
        r == needs_escape(c),
{
    c == '^' || c == ']' || c == '[' || c == '\\' || c == '-'
}

/// A prefix character as it stands inside the character class.
pub open spec fn escape_prefix(c: char) -> Seq<char> {
    if needs_escape(c) {
        seq!['\\', c]
    } else {
        seq![c]
    }
}

/// The body of the `[...]` character class for a prefix set.
pub open spec fn prefix_class(prefixes: Seq<char>) -> Seq<char>
    decreases prefixes.len(),
{
    if prefixes.len() == 0 {
        Seq::empty()
    } else {
        escape_prefix(prefixes[0]) + prefix_class(prefixes.drop_first())
    }
}

/// The optional bot-mention group: `(?:@name)?` when the bot has a username,
/// and the empty group `(?:)` (matching only the empty string) when it does
/// not.
pub open spec fn mention_group(username: Option<Seq<char>>) -> Seq<char> {
    match username {
        Some(u) => seq!['(', '?', ':', '@'] + u + seq![')', '?'],
        None => seq!['(', '?', ':', ')'],
    }
}

/// Argument fragments re-joined after the keyword, each preceded by a single
/// space.
pub open spec fn join_fragments(frags: Seq<Seq<char>>) -> Seq<char>
    decreases frags.len(),
{
    if frags.len() == 0 {
        Seq::empty()
    } else {
        seq![' '] + frags[0] + join_fragments(frags.drop_first())
    }
}

/// The view of an optional owned string.
pub open spec fn opt_view(u: Option<String>) -> Option<Seq<char>> {
    match u {
        Some(s) => Some(s@),
        None => None,
    }
}

/// The rewritten source of a command pattern: a trailing `$` anchor is
/// stripped and re-appended at the very end, the first whitespace-separated
/// token is the command keyword, and the rewrite is
/// `^[<escaped prefixes>]<keyword><mention group>` followed by the remaining
/// tokens, each re-joined with a single space, followed by the restored
/// anchor.
pub open spec fn compiled_command(
    pattern: Seq<char>,
    prefixes: Seq<char>,
    username: Option<Seq<char>>,
) -> Seq<char> {
    let anchored = pattern.len() > 0 && pattern.last() == '$';
    let body = if anchored {
        pattern.drop_last()
    } else {
        pattern
    };
    let toks = tokens_of(body);
    let keyword = if toks.len() > 0 {
        toks[0]
    } else {
        Seq::<char>::empty()
    };
    let frags = if toks.len() > 0 {
        join_fragments(toks.drop_first())
    } else {
        Seq::<char>::empty()
    };
    let anchor: Seq<char> = if anchored {
        seq!['$']
    } else {
        Seq::empty()
    };
    seq!['^', '['] + prefix_class(prefixes) + seq![']'] + keyword + mention_group(username) + frags
        + anchor
}

proof fn lemma_tokens_acc_no_space(s: Seq<char>, cur: Seq<char>)
    requires
        forall|k: int| 0 <= k < s.len() ==> !is_space(#[trigger] s[k]),
    ensures
        cur.len() + s.len() > 0 ==> tokens_acc(s, cur) == seq![cur + s],
        cur.len() + s.len() == 0 ==> tokens_acc(s, cur) == Seq::<Seq<char>>::empty(),
    decreases s.len(),
{
    if s.len() == 0 {
        if cur.len() > 0 {
            assert(cur + s =~= cur);
        }
    } else {
        lemma_tokens_acc_no_space(s.drop_first(), cur.push(s[0]));
        assert(cur.push(s[0]) + s.drop_first() =~= cur + s);
    }
}

/// The command rewrite, spelled out for the common case: compiling a bare
/// anchored keyword `K$` yields exactly
/// `^[<escaped prefixes>]K<mention group>$` — anchored at both ends, with
/// the whole prefix set in one character class and the optional bot-mention
/// group after the keyword. Which texts that source then accepts is the
/// regex engine's affair and is exercised by the tests.
pub proof fn lemma_command_rewrite(keyword: Seq<char>, prefixes: Seq<char>, username: Option<
    Seq<char>,
>)
    requires
        keyword.len() > 0,
        forall|k: int| 0 <= k < keyword.len() ==> !is_space(#[trigger] keyword[k]),
    ensures
        compiled_command(keyword.push('$'), prefixes, username) == seq!['^', '['] + prefix_class(
            prefixes,
        ) + seq![']'] + keyword + mention_group(username) + seq!['$'],
{
    let pattern = keyword.push('$');
    assert(pattern.last() == '$');
    assert(pattern.drop_last() =~= keyword);
    lemma_tokens_acc_no_space(keyword, Seq::empty());
    assert(Seq::<char>::empty() + keyword =~= keyword);
    let toks = tokens_of(keyword);
    assert(toks == seq![keyword]);
    assert(toks[0] == keyword);
    assert(toks.drop_first() =~= Seq::<Seq<char>>::empty());
    assert(join_fragments(Seq::<Seq<char>>::empty()) == Seq::<char>::empty());
    assert(compiled_command(pattern, prefixes, username) =~= seq!['^', '['] + prefix_class(
        prefixes,
    ) + seq![']'] + keyword + mention_group(username) + seq!['$']);
}

#[verifier::external_type_specification]
#[verifier::external_body]
pub struct ExRegex(regex::Regex);

pub uninterp spec fn regex_valid(pattern: Seq<char>) -> bool;

pub uninterp spec fn regex_match(pattern: Seq<char>, text: Seq<char>) -> bool;

/// A matcher compiled once from a pattern source, cached for reuse across
/// dispatch cycles.
pub struct CompiledPattern {
    source: String,
    matcher: regex::Regex,
}

impl CompiledPattern {
    /// The pattern source this matcher was compiled from.
    pub closed spec fn source_view(&self) -> Seq<char> {
        self.source@
    }

    /// Relies on `regex::Regex::new`: whether compilation succeeds depends on
    /// the pattern string alone.
    #[verifier::external_body]
    pub(crate) fn new(source: String) -> (r: Option<CompiledPattern>)
        ensures
            r is Some <==> regex_valid(source@),
            r matches Some(p) ==> p.source_view() == source@,
    {
        match regex::Regex::new(source.as_str()) {
            Ok(matcher) => Some(CompiledPattern { source, matcher }),
            Err(_) => None,
        }
    }

    /// Relies on `regex::Regex::is_match`: whether a haystack matches
    /// anywhere depends on the pattern and the haystack alone.
    #[verifier::external_body]
    pub(crate) fn test(&self, text: &str) -> (r: bool)
        ensures
            r == regex_match(self.source_view(), text@),
    {
        self.matcher.is_match(text)
    }

    /// Tests the match subject of one event against this compiled matcher.
    pub fn is_match(&self, text: &str) -> (r: bool)
        ensures
            r == regex_match(self.source_view(), text@),
    {
        self.test(text)
    }
}

/// Compiles a pattern source into a cached matcher, exactly once per
/// source; `None` on a malformed pattern, which callers treat as fatal at
/// startup.
pub fn compile(source: String) -> (r: Option<CompiledPattern>)
    ensures
        r is Some <==> regex_valid(source@),
        r matches Some(p) ==> p.source_view() == source@,
{
    CompiledPattern::new(source)
}

/// Relies on `String::push`: appends exactly the given character.
#[verifier::external_body]
pub(crate) fn push_char(s: &mut String, c: char)
    ensures
        final(s)@ == old(s)@.push(c),
{
    s.push(c);
}

fn str_to_chars(s: &str) -> (r: Vec<char>)
    ensures
        r@ == s@,
{
    let n = s.unicode_len();
    let mut r: Vec<char> = Vec::new();
    let mut i: usize = 0;
    while i < n
        invariant
            n == s@.len(),
            i <= n,
            r@ == s@.take(i as int),
        decreases n - i,
    {
        r.push(s.get_char(i));
        proof {
            assert(s@.take(i + 1 as int) =~= s@.take(i as int).push(s@[i as int]));
        }
        i = i + 1;
    }
    proof {
        assert(s@.take(n as int) =~= s@);
    }
    r
}

fn chars_to_string(v: &Vec<char>) -> (r: String)
    ensures
        r@ == v@,
{
    let mut r = String::new();
    let mut i: usize = 0;
    while i < v.len()
        invariant
            i <= v@.len(),
            r@ == v@.take(i as int),
        decreases v@.len() - i,
    {
        push_char(&mut r, v[i]);
        proof {
            assert(v@.take(i + 1 as int) =~= v@.take(i as int).push(v@[i as int]));
        }
        i = i + 1;
    }
    proof {
        assert(v@.take(v@.len() as int) =~= v@);
    }
    r
}

proof fn lemma_prefix_class_concat(a: Seq<char>, b: Seq<char>)
    ensures
        prefix_class(a + b) == prefix_class(a) + prefix_class(b),
    decreases a.len(),
{
    if a.len() == 0 {
        assert(a + b =~= b);
        assert(prefix_class(a) + prefix_class(b) =~= prefix_class(b));
    } else {
        assert((a + b).drop_first() =~= a.drop_first() + b);
        lemma_prefix_class_concat(a.drop_first(), b);
        assert((a + b)[0] == a[0]);
        assert(escape_prefix(a[0]) + (prefix_class(a.drop_first()) + prefix_class(b)) =~= (
        escape_prefix(a[0]) + prefix_class(a.drop_first())) + prefix_class(b));
    }
}

proof fn lemma_join_fragments_concat(a: Seq<Seq<char>>, b: Seq<Seq<char>>)
    ensures
        join_fragments(a + b) == join_fragments(a) + join_fragments(b),
    decreases a.len(),
{
    if a.len() == 0 {
        assert(a + b =~= b);
        assert(join_fragments(a) + join_fragments(b) =~= join_fragments(b));
    } else {
        assert((a + b).drop_first() =~= a.drop_first() + b);
        lemma_join_fragments_concat(a.drop_first(), b);
        assert((a + b)[0] == a[0]);
        assert(seq![' '] + a[0] + (join_fragments(a.drop_first()) + join_fragments(b)) =~= (
        seq![' '] + a[0] + join_fragments(a.drop_first())) + join_fragments(b));
    }
}

fn push_all(out: &mut Vec<char>, src: &Vec<char>)
    ensures
        final(out)@ == old(out)@ + src@,
{
    let mut i: usize = 0;
    while i < src.len()
        invariant
            i <= src@.len(),
            out@ == old(out)@ + src@.take(i as int),
        decreases src@.len() - i,
    {
        out.push(src[i]);
        proof {
            assert(old(out)@ + src@.take(i + 1 as int) =~= (old(out)@ + src@.take(i as int)).push(
                src@[i as int],
            ));
        }
        i = i + 1;
    }
    proof {
        assert(old(out)@ + src@.take(src@.len() as int) =~= old(out)@ + src@);
    }
}

/// The views of a sequence of character vectors.
pub open spec fn views_of(ts: Seq<Vec<char>>) -> Seq<Seq<char>> {
    Seq::new(ts.len(), |i: int| ts[i]@)
}

fn split_ws(s: &Vec<char>) -> (r: Vec<Vec<char>>)
    ensures
        views_of(r@) == tokens_of(s@),
{
    let mut toks: Vec<Vec<char>> = Vec::new();
    let mut cur: Vec<char> = Vec::new();
    let mut i: usize = 0;
    proof {
        assert(s@.skip(0) =~= s@);
        assert(views_of(toks@) =~= Seq::<Seq<char>>::empty());
        assert(Seq::<Seq<char>>::empty() + tokens_acc(s@, Seq::<char>::empty()) =~= tokens_acc(
            s@,
            Seq::<char>::empty(),
        ));
        assert(cur@ =~= Seq::<char>::empty());
    }
    while i < s.len()
        invariant
            i <= s@.len(),
            tokens_of(s@) == views_of(toks@) + tokens_acc(s@.skip(i as int), cur@),
        decreases s@.len() - i,
    {
        let c = s[i];
        proof {
            assert(s@.skip(i as int).len() > 0);
            assert(s@.skip(i as int)[0] == s@[i as int]);
            assert(s@.skip(i as int).drop_first() =~= s@.skip(i + 1 as int));
        }
        if is_space_exec(c) {
            if cur.len() > 0 {
                let ghost old_toks = views_of(toks@);
                let ghost old_cur = cur@;
                toks.push(cur);
                cur = Vec::new();
                proof {
                    assert(cur@ =~= Seq::<char>::empty());
                    assert(views_of(toks@) =~= old_toks.push(old_cur));
                    assert(old_toks + (seq![old_cur] + tokens_acc(
                        s@.skip(i + 1 as int),
                        Seq::<char>::empty(),
                    )) =~= old_toks.push(old_cur) + tokens_acc(
                        s@.skip(i + 1 as int),
                        Seq::<char>::empty(),
                    ));
                }
            } else {
                proof {
                    assert(cur@ =~= Seq::<char>::empty());
                }
            }
        } else {
            cur.push(c);
        }
        i = i + 1;
    }
    proof {
        assert(s@.skip(s@.len() as int) =~= Seq::<char>::empty());
    }
    if cur.len() > 0 {
        let ghost old_toks = views_of(toks@);
        let ghost old_cur = cur@;
        toks.push(cur);
        proof {
            assert(views_of(toks@) =~= old_toks.push(old_cur));
            assert(old_toks + seq![old_cur] =~= old_toks.push(old_cur));
        }
    } else {
        proof {
            assert(cur@ =~= Seq::<char>::empty());
            assert(views_of(toks@) + Seq::<Seq<char>>::empty() =~= views_of(toks@));
        }
    }
    toks
}

/// Rewrites a declared command pattern for the active prefix set and bot
/// username, per `compiled_command`.
pub fn compile_command_source(pattern: &str, prefixes: &Vec<char>, username: &Option<String>) -> (r:
    String)
    ensures
        r@ == compiled_command(pattern@, prefixes@, opt_view(*username)),
{
    let chars = str_to_chars(pattern);
    let anchored = chars.len() > 0 && chars[chars.len() - 1] == '$';
    let mut body = chars;
    if anchored {
        let _ = body.pop();
    }
    proof {
        if anchored {
            assert(body@ =~= pattern@.drop_last());
        }
    }
    let toks = split_ws(&body);
    let ghost toks_spec = tokens_of(body@);

    let mut out: Vec<char> = Vec::new();
    out.push('^');
    out.push('[');
    proof {
        assert(out@ =~= seq!['^', '['] + prefix_class(prefixes@.take(0)));
    }

    let mut i: usize = 0;
    while i < prefixes.len()
        invariant
            i <= prefixes@.len(),
            out@ == seq!['^', '['] + prefix_class(prefixes@.take(i as int)),
        decreases prefixes@.len() - i,
    {
        let p = prefixes[i];
        proof {
            assert(prefixes@.take(i + 1 as int) =~= prefixes@.take(i as int) + seq![p]);
            lemma_prefix_class_concat(prefixes@.take(i as int), seq![p]);
            assert(seq![p].drop_first() =~= Seq::<char>::empty());
            assert(prefix_class(Seq::<char>::empty()) =~= Seq::<char>::empty());
            assert(prefix_class(seq![p]) =~= escape_prefix(p));
        }
        if needs_escape_exec(p) {
            out.push('\\');
            out.push(p);
            proof {
                assert(out@ =~= seq!['^', '['] + prefix_class(prefixes@.take(i + 1 as int)));
            }
        } else {
            out.push(p);
            proof {
                assert(out@ =~= seq!['^', '['] + prefix_class(prefixes@.take(i + 1 as int)));
            }
        }
        i = i + 1;
    }
    proof {
        assert(prefixes@.take(prefixes@.len() as int) =~= prefixes@);
    }
    out.push(']');
    let ghost head = seq!['^', '['] + prefix_class(prefixes@) + seq![']'];
    proof {
        assert(out@ =~= head);
    }

    if toks.len() > 0 {
        push_all(&mut out, &toks[0]);
        proof {
            assert(views_of(toks@)[0] == toks@[0]@);
        }
    }
    let ghost keyword: Seq<char> = if toks_spec.len() > 0 {
        toks_spec[0]
    } else {
        Seq::empty()
    };
    proof {
        assert(out@ =~= head + keyword);
    }

    match username {
        Some(u) => {
            out.push('(');
            out.push('?');
            out.push(':');
            out.push('@');
            let uchars = str_to_chars(u.as_str());
            push_all(&mut out, &uchars);
            out.push(')');
            out.push('?');
            proof {
                assert(out@ =~= head + keyword + (seq!['(', '?', ':', '@'] + u@ + seq![')', '?']));
            }
        },
        None => {
            out.push('(');
            out.push('?');
            out.push(':');
            out.push(')');
            proof {
                assert(out@ =~= head + keyword + seq!['(', '?', ':', ')']);
            }
        },
    }
    let ghost mid = head + keyword + mention_group(opt_view(*username));
    proof {
        assert(out@ =~= mid);
    }

    let mut j: usize = 1;
    while j < toks.len()
        invariant
            1 <= j || toks@.len() == 0,
            j <= toks@.len() || (j == 1 && toks@.len() == 0),
            views_of(toks@) == toks_spec,
            out@ == mid + join_fragments(toks_spec.skip(1).take(
                if toks_spec.len() > 0 {
                    j - 1 as int
                } else {
                    0
                },
            )),
        decreases toks@.len() - j,
    {
        out.push(' ');
        push_all(&mut out, &toks[j]);
        proof {
            let frag = toks_spec[j as int];
            assert(views_of(toks@)[j as int] == toks@[j as int]@);
            assert(toks_spec.skip(1).take(j as int) =~= toks_spec.skip(1).take(j - 1 as int)
                + seq![frag]);
            lemma_join_fragments_concat(toks_spec.skip(1).take(j - 1 as int), seq![frag]);
            assert(seq![frag].drop_first() =~= Seq::<Seq<char>>::empty());
            assert(join_fragments(Seq::<Seq<char>>::empty()) =~= Seq::<char>::empty());
            assert(join_fragments(seq![frag]) =~= seq![' '] + frag);
            assert(out@ =~= mid + join_fragments(toks_spec.skip(1).take(j as int)));
        }
        j = j + 1;
    }
    let ghost frags: Seq<char> = if toks_spec.len() > 0 {
        join_fragments(toks_spec.drop_first())
    } else {
        Seq::empty()
    };
    proof {
        if toks_spec.len() > 0 {
            assert(toks_spec.skip(1).take(toks_spec.len() - 1) =~= toks_spec.drop_first());
        } else {
            assert(toks_spec.skip(1).take(0) =~= Seq::<Seq<char>>::empty());
        }
        assert(out@ =~= mid + frags);
    }

    if anchored {
        out.push('$');
    }
    proof {
        assert(out@ =~= compiled_command(pattern@, prefixes@, opt_view(*username)));
    }
    chars_to_string(&out)
}

} // verus!
