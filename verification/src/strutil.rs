//! Verified character-sequence utilities shared by the engine and the checks.

use vstd::prelude::*;

verus! {

/// The blank characters: what the tokenizer treats as a gap between tokens
/// and what trimming removes at either end.
pub open spec fn is_space_char(c: char) -> bool {
    c == ' ' || c == '\t' || c == '\n' || c == '\r' || c == '\u{b}' || c == '\u{c}'
}

/// Runtime test for [`is_space_char`].
pub fn is_space(c: char) -> (r: bool)
    ensures
        r == is_space_char(c),
{
    c == ' ' || c == '\t' || c == '\n' || c == '\r' || c == '\u{b}' || c == '\u{c}'
}

/// The views of a sequence of owned strings.
pub open spec fn views_of(ts: Seq<String>) -> Seq<Seq<char>> {
    ts.map_values(|t: String| t@)
}

pub proof fn lemma_views_push(ts: Seq<String>, t: String)
    ensures
        views_of(ts.push(t)) =~= views_of(ts).push(t@),
{
}

/// Exact character-for-character string equality.
pub fn string_eq(a: &str, b: &str) -> (r: bool)
    ensures
        r == (a@ == b@),
{
    let n = a.unicode_len();
    if n != b.unicode_len() {
        return false;
    }
    let mut i: usize = 0;
    while i < n
        invariant
            i <= n,
            n == a@.len(),
            n == b@.len(),
            forall|k: int| 0 <= k < i ==> a@[k] == b@[k],
        decreases n - i,
    {
        if a.get_char(i) != b.get_char(i) {
            return false;
        }
        i += 1;
    }
    proof {
        assert(a@ =~= b@);
    }
    true
}

/// `p` is an initial segment of `s`.
pub open spec fn prefix_of(p: Seq<char>, s: Seq<char>) -> bool {
    p.len() <= s.len() && p == s.subrange(0, p.len() as int)
}

/// Whether `s` starts with `p`.
pub fn starts_with(s: &str, p: &str) -> (r: bool)
    ensures
        r == prefix_of(p@, s@),
{
    let pn = p.unicode_len();
    if pn > s.unicode_len() {
        return false;
    }
    let mut i: usize = 0;
    while i < pn
        invariant
            i <= pn,
            pn == p@.len(),
            pn <= s@.len(),
            forall|k: int| 0 <= k < i ==> p@[k] == s@[k],
        decreases pn - i,
    {
        if p.get_char(i) != s.get_char(i) {
            proof {
                assert(p@[i as int] != s@.subrange(0, pn as int)[i as int]);
            }
            return false;
        }
        i += 1;
    }
    proof {
        assert(p@ =~= s@.subrange(0, pn as int));
    }
    true
}

/// The end of the unbroken run of non-blank characters that starts at `i`.
pub open spec fn token_run_end(s: Seq<char>, i: int) -> int
    decreases s.len() - i when 0 <= i
{
    if i >= s.len() {
        s.len() as int
    } else if is_space_char(s[i]) {
        i
    } else {
        token_run_end(s, i + 1)
    }
}

pub proof fn lemma_token_run_end(s: Seq<char>, i: int)
    requires
        0 <= i <= s.len(),
    ensures
        i <= token_run_end(s, i) <= s.len(),
        forall|k: int| i <= k < token_run_end(s, i) ==> !is_space_char(s[k]),
        token_run_end(s, i) < s.len() ==> is_space_char(s[token_run_end(s, i)]),
    decreases s.len() - i,
{
    if i < s.len() && !is_space_char(s[i]) {
        lemma_token_run_end(s, i + 1);
    }
}

/// The first index at or after `i` holding character `c`, if any.
pub open spec fn find_char_from(s: Seq<char>, i: int, c: char) -> Option<int>
    decreases s.len() - i when 0 <= i
{
    if i >= s.len() {
        None
    } else if s[i] == c {
        Some(i)
    } else {
        find_char_from(s, i + 1, c)
    }
}

pub proof fn lemma_find_char_from(s: Seq<char>, i: int, c: char)
    requires
        0 <= i <= s.len(),
    ensures
        match find_char_from(s, i, c) {
            Some(j) => i <= j < s.len() && s[j] == c && forall|k: int| i <= k < j ==> s[k] != c,
            None => forall|k: int| i <= k < s.len() ==> s[k] != c,
        },
    decreases s.len() - i,
{
    if i < s.len() && s[i] != c {
        lemma_find_char_from(s, i + 1, c);
    }
}

/// Find the first occurrence of `c` at or after `from`, at runtime.
pub fn find_char(s: &str, from: usize, c: char) -> (r: Option<usize>)
    requires
        from <= s@.len(),
    ensures
        match r {
            Some(j) => from <= j < s@.len() && Some(j as int) == find_char_from(s@, from as int, c),
            None => find_char_from(s@, from as int, c) is None,
        },
{
    let n = s.unicode_len();
    let mut i: usize = from;
    while i < n
        invariant
            from <= i <= n,
            n == s@.len(),
            find_char_from(s@, from as int, c) == find_char_from(s@, i as int, c),
        decreases n - i,
    {
        if s.get_char(i) == c {
            return Some(i);
        }
        i += 1;
    }
    None
}

/// The tokens of `s` from position `i` on.  A token is either the interior of
/// a double-quoted span (when a closing quote exists) or a maximal run of
/// non-blank characters.
pub open spec fn tokenize_from(s: Seq<char>, i: int) -> Seq<Seq<char>>
    decreases s.len() - i when 0 <= i via tokenize_from_decreases
{
    if i >= s.len() {
        Seq::empty()
    } else if is_space_char(s[i]) {
        tokenize_from(s, i + 1)
    } else if s[i] == '"' && find_char_from(s, i + 1, '"') is Some {
        let j = find_char_from(s, i + 1, '"')->Some_0;
        seq![s.subrange(i + 1, j)] + tokenize_from(s, j + 1)
    } else {
        let k = token_run_end(s, i);
        seq![s.subrange(i, k)] + tokenize_from(s, k)
    }
}

#[via_fn]
proof fn tokenize_from_decreases(s: Seq<char>, i: int) {
    if 0 <= i < s.len() && !is_space_char(s[i]) {
        if s[i] == '"' && find_char_from(s, i + 1, '"') is Some {
            lemma_find_char_from(s, i + 1, '"');
        } else {
            lemma_token_run_end(s, i);
            assert(token_run_end(s, i) == token_run_end(s, i + 1));
        }
    }
}

/// The ordered tokens of one whole line.
pub open spec fn tokenize_spec(s: Seq<char>) -> Seq<Seq<char>> {
    tokenize_from(s, 0)
}

/// Split a line into word tokens; a double-quoted span is one token with the
/// quotes stripped, any other maximal run of non-blank characters is one token.
pub fn convert_config_line_to_vector_string(buffer: &str) -> (tokens: Vec<String>)
    ensures
        views_of(tokens@) == tokenize_spec(buffer@),
{
    let ghost s = buffer@;
    let n = buffer.unicode_len();
    let mut tokens: Vec<String> = Vec::new();
    let mut i: usize = 0;
    while i < n
        invariant
            i <= n,
            n == s.len(),
            s == buffer@,
            tokenize_spec(s) =~= views_of(tokens@) + tokenize_from(s, i as int),
        decreases n - i,
    {
        let c = buffer.get_char(i);
        if is_space(c) {
            i += 1;
        } else if c == '"' {
            match find_char(buffer, i + 1, '"') {
                Some(j) => {
                    let tok = buffer.substring_char(i + 1, j).to_owned();
                    proof {
                        lemma_views_push(tokens@, tok);
                    }
                    tokens.push(tok);
                    i = j + 1;
                },
                None => {
                    let j = run_end(buffer, i);
                    let tok = buffer.substring_char(i, j).to_owned();
                    proof {
                        lemma_views_push(tokens@, tok);
                    }
                    tokens.push(tok);
                    i = j;
                },
            }
        } else {
            let j = run_end(buffer, i);
            let tok = buffer.substring_char(i, j).to_owned();
            proof {
                lemma_views_push(tokens@, tok);
            }
            tokens.push(tok);
            i = j;
        }
    }
    tokens
}

/// The runtime counterpart of [`token_run_end`].
pub fn run_end(s: &str, from: usize) -> (j: usize)
    requires
        from < s@.len(),
        !is_space_char(s@[from as int]),
    ensures
        j as int == token_run_end(s@, from as int),
        from < j <= s@.len(),
{
    let n = s.unicode_len();
    let mut j: usize = from;
    while j < n && !is_space(s.get_char(j))
        invariant
            from <= j <= n,
            n == s@.len(),
            token_run_end(s@, from as int) == token_run_end(s@, j as int),
        decreases n - j,
    {
        j += 1;
    }
    proof {
        assert(token_run_end(s@, j as int) == j);
    }
    j
}

/// One line's characters: the span `[i, j)` with a single carriage return
/// dropped when it stands directly before the line feed at `j`.
pub open spec fn line_slice(s: Seq<char>, i: int, j: int) -> Seq<char> {
    if i < j && s[j - 1] == '\r' {
        s.subrange(i, j - 1)
    } else {
        s.subrange(i, j)
    }
}

/// The lines of `s` from position `i` on, split at line feeds; a final line
/// needs no terminator.
pub open spec fn lines_from(s: Seq<char>, i: int) -> Seq<Seq<char>>
    decreases s.len() - i when 0 <= i via lines_from_decreases
{
    if i >= s.len() {
        Seq::empty()
    } else {
        match find_char_from(s, i, '\n') {
            Some(j) => seq![line_slice(s, i, j)] + lines_from(s, j + 1),
            None => seq![s.subrange(i, s.len() as int)],
        }
    }
}

#[via_fn]
proof fn lines_from_decreases(s: Seq<char>, i: int) {
    if 0 <= i < s.len() {
        lemma_find_char_from(s, i, '\n');
    }
}

/// The lines of one whole text.
pub open spec fn lines_spec(s: Seq<char>) -> Seq<Seq<char>> {
    lines_from(s, 0)
}

/// Split a text into its lines, as a reader of the underlying file would.
pub fn lines_of(s: &str) -> (lines: Vec<String>)
    ensures
        views_of(lines@) == lines_spec(s@),
{
    let n = s.unicode_len();
    let mut lines: Vec<String> = Vec::new();
    let mut i: usize = 0;
    while i < n
        invariant
            i <= n,
            n == s@.len(),
            lines_spec(s@) =~= views_of(lines@) + lines_from(s@, i as int),
        decreases n - i,
    {
        match find_char(s, i, '\n') {
            Some(j) => {
                let end = if j > i && s.get_char(j - 1) == '\r' {
                    j - 1
                } else {
                    j
                };
                let line = s.substring_char(i, end).to_owned();
                proof {
                    lemma_views_push(lines@, line);
                }
                lines.push(line);
                i = j + 1;
            },
            None => {
                let line = s.substring_char(i, n).to_owned();
                proof {
                    lemma_views_push(lines@, line);
                }
                lines.push(line);
                i = n;
            },
        }
    }
    lines
}

/// The first position at or after `i` whose character is not blank.
pub open spec fn skip_blank(s: Seq<char>, i: int) -> int
    decreases s.len() - i when 0 <= i
{
    if i >= s.len() {
        s.len() as int
    } else if is_space_char(s[i]) {
        skip_blank(s, i + 1)
    } else {
        i
    }
}

/// The position before `j` after dropping trailing blank characters.
pub open spec fn rskip_blank(s: Seq<char>, j: int) -> int
    decreases j when j <= s.len()
{
    if j <= 0 {
        0
    } else if is_space_char(s[j - 1]) {
        rskip_blank(s, j - 1)
    } else {
        j
    }
}

/// `s` with blank characters removed from both ends.
pub open spec fn trim_spec(s: Seq<char>) -> Seq<char> {
    let a = skip_blank(s, 0);
    let b = rskip_blank(s, s.len() as int);
    if a <= b {
        s.subrange(a, b)
    } else {
        Seq::empty()
    }
}

proof fn lemma_skip_blank(s: Seq<char>, i: int)
    requires
        0 <= i <= s.len(),
    ensures
        i <= skip_blank(s, i) <= s.len(),
    decreases s.len() - i,
{
    if i < s.len() && is_space_char(s[i]) {
        lemma_skip_blank(s, i + 1);
    }
}

proof fn lemma_rskip_blank(s: Seq<char>, j: int)
    requires
        0 <= j <= s.len(),
    ensures
        0 <= rskip_blank(s, j) <= j,
    decreases j,
{
    if j > 0 && is_space_char(s[j - 1]) {
        lemma_rskip_blank(s, j - 1);
    }
}

/// Trim blank characters from both ends of `s`.
pub fn trim_blank<'a>(s: &'a str) -> (r: &'a str)
    ensures
        r@ == trim_spec(s@),
{
    let n = s.unicode_len();
    let mut a: usize = 0;
    while a < n && is_space(s.get_char(a))
        invariant
            a <= n,
            n == s@.len(),
            skip_blank(s@, 0) == skip_blank(s@, a as int),
        decreases n - a,
    {
        a += 1;
    }
    let mut b: usize = n;
    while b > 0 && is_space(s.get_char(b - 1))
        invariant
            b <= n,
            n == s@.len(),
            rskip_blank(s@, n as int) == rskip_blank(s@, b as int),
        decreases b,
    {
        b -= 1;
    }
    proof {
        assert(skip_blank(s@, a as int) == a);
        assert(rskip_blank(s@, b as int) == b);
    }
    if a <= b {
        s.substring_char(a, b)
    } else {
        proof {
            assert(trim_spec(s@) =~= Seq::<char>::empty());
        }
        s.substring_char(0, 0)
    }
}

/// The first position at or after `i` whose character differs from `c`.
pub open spec fn skip_char(s: Seq<char>, i: int, c: char) -> int
    decreases s.len() - i when 0 <= i
{
    if i >= s.len() {
        s.len() as int
    } else if s[i] == c {
        skip_char(s, i + 1, c)
    } else {
        i
    }
}

/// The position before `j` after dropping trailing characters equal to `c`.
pub open spec fn rskip_char(s: Seq<char>, j: int, c: char) -> int
    decreases j when j <= s.len()
{
    if j <= 0 {
        0
    } else if s[j - 1] == c {
        rskip_char(s, j - 1, c)
    } else {
        j
    }
}

/// `s` with every leading and trailing double quote removed.
pub open spec fn trim_quotes_spec(s: Seq<char>) -> Seq<char> {
    let a = skip_char(s, 0, '"');
    let b = rskip_char(s, s.len() as int, '"');
    if a <= b {
        s.subrange(a, b)
    } else {
        Seq::empty()
    }
}

proof fn lemma_skip_char(s: Seq<char>, i: int, c: char)
    requires
        0 <= i <= s.len(),
    ensures
        i <= skip_char(s, i, c) <= s.len(),
    decreases s.len() - i,
{
    if i < s.len() && s[i] == c {
        lemma_skip_char(s, i + 1, c);
    }
}

proof fn lemma_rskip_char(s: Seq<char>, j: int, c: char)
    requires
        0 <= j <= s.len(),
    ensures
        0 <= rskip_char(s, j, c) <= j,
    decreases j,
{
    if j > 0 && s[j - 1] == c {
        lemma_rskip_char(s, j - 1, c);
    }
}

/// Strip all leading and trailing double quotes, keeping the middle intact.
pub fn trim_quotes<'a>(s: &'a str) -> (r: &'a str)
    ensures
        r@ == trim_quotes_spec(s@),
{
    let n = s.unicode_len();
    let mut a: usize = 0;
    while a < n && s.get_char(a) == '"'
        invariant
            a <= n,
            n == s@.len(),
            skip_char(s@, 0, '"') == skip_char(s@, a as int, '"'),
        decreases n - a,
    {
        a += 1;
    }
    let mut b: usize = n;
    while b > 0 && s.get_char(b - 1) == '"'
        invariant
            b <= n,
            n == s@.len(),
            rskip_char(s@, n as int, '"') == rskip_char(s@, b as int, '"'),
        decreases b,
    {
        b -= 1;
    }
    proof {
        assert(skip_char(s@, a as int, '"') == a);
        assert(rskip_char(s@, b as int, '"') == b);
    }
    if a <= b {
        s.substring_char(a, b)
    } else {
        proof {
            assert(trim_quotes_spec(s@) =~= Seq::<char>::empty());
        }
        s.substring_char(0, 0)
    }
}

/// The lower-case image of an ASCII letter; any other character is unchanged.
pub open spec fn lower_char(c: char) -> char {
    match c {
        'A' => 'a', 'B' => 'b', 'C' => 'c', 'D' => 'd', 'E' => 'e', 'F' => 'f',
        'G' => 'g', 'H' => 'h', 'I' => 'i', 'J' => 'j', 'K' => 'k', 'L' => 'l',
        'M' => 'm', 'N' => 'n', 'O' => 'o', 'P' => 'p', 'Q' => 'q', 'R' => 'r',
        'S' => 's', 'T' => 't', 'U' => 'u', 'V' => 'v', 'W' => 'w', 'X' => 'x',
        'Y' => 'y', 'Z' => 'z',
        _ => c,
    }
}

/// Runtime counterpart of [`lower_char`].
pub fn to_lower_char(c: char) -> (r: char)
    ensures
        r == lower_char(c),
{
    match c {
        'A' => 'a', 'B' => 'b', 'C' => 'c', 'D' => 'd', 'E' => 'e', 'F' => 'f',
        'G' => 'g', 'H' => 'h', 'I' => 'i', 'J' => 'j', 'K' => 'k', 'L' => 'l',
        'M' => 'm', 'N' => 'n', 'O' => 'o', 'P' => 'p', 'Q' => 'q', 'R' => 'r',
        'S' => 's', 'T' => 't', 'U' => 'u', 'V' => 'v', 'W' => 'w', 'X' => 'x',
        'Y' => 'y', 'Z' => 'z',
        _ => c,
    }
}

/// A case-insensitive match of `n` at position `i` of `h`.
pub open spec fn matches_lower_at(h: Seq<char>, n: Seq<char>, i: int) -> bool {
    0 <= i && i + n.len() <= h.len() && forall|k: int|
        0 <= k < n.len() ==> lower_char(h[i + k]) == lower_char(n[k])
}

/// `h` holds `n` somewhere, compared without regard to ASCII case.
pub open spec fn contains_lower_spec(h: Seq<char>, n: Seq<char>) -> bool {
    exists|i: int| matches_lower_at(h, n, i)
}

/// Case-insensitive substring search.
pub fn contains_lower(h: &str, n: &str) -> (r: bool)
    ensures
        r == contains_lower_spec(h@, n@),
{
    let hn = h.unicode_len();
    let nn = n.unicode_len();
    if nn > hn {
        return false;
    }
    let mut i: usize = 0;
    while i <= hn - nn
        invariant
            nn <= hn,
            hn == h@.len(),
            nn == n@.len(),
            i <= hn - nn + 1,
            forall|p: int| 0 <= p < i ==> !matches_lower_at(h@, n@, p),
        decreases hn - nn - i + 1,
    {
        let mut k: usize = 0;
        let mut hit = true;
        while k < nn && hit
            invariant
                k <= nn,
                i + nn <= hn,
                hn == h@.len(),
                nn == n@.len(),
                hit ==> forall|q: int| 0 <= q < k ==> lower_char(h@[i + q]) == lower_char(n@[q]),
                !hit ==> !matches_lower_at(h@, n@, i as int),
            decreases nn - k,
        {
            if to_lower_char(h.get_char(i + k)) != to_lower_char(n.get_char(k)) {
                proof {
                    assert(!matches_lower_at(h@, n@, i as int));
                }
                hit = false;
                k = nn;
            } else {
                k += 1;
            }
        }
        if hit {
            proof {
                assert(matches_lower_at(h@, n@, i as int));
            }
            return true;
        }
        i += 1;
    }
    proof {
        assert forall|p: int| matches_lower_at(h@, n@, p) implies false by {
            assert(0 <= p < i);
        }
    }
    false
}

/// The blank-separated words of `s` from position `i` on.
pub open spec fn ws_tokens_from(s: Seq<char>, i: int) -> Seq<Seq<char>>
    decreases s.len() - i when 0 <= i via ws_tokens_from_decreases
{
    if i >= s.len() {
        Seq::empty()
    } else if is_space_char(s[i]) {
        ws_tokens_from(s, i + 1)
    } else {
        let k = token_run_end(s, i);
        seq![s.subrange(i, k)] + ws_tokens_from(s, k)
    }
}

#[via_fn]
proof fn ws_tokens_from_decreases(s: Seq<char>, i: int) {
    if 0 <= i < s.len() && !is_space_char(s[i]) {
        lemma_token_run_end(s, i);
        assert(token_run_end(s, i) == token_run_end(s, i + 1));
    }
}

/// The blank-separated words of one line.
pub open spec fn ws_tokens_spec(s: Seq<char>) -> Seq<Seq<char>> {
    ws_tokens_from(s, 0)
}

/// Split a line at blanks, with no quoting rules.
pub fn split_blank(s: &str) -> (tokens: Vec<String>)
    ensures
        views_of(tokens@) == ws_tokens_spec(s@),
{
    let n = s.unicode_len();
    let mut tokens: Vec<String> = Vec::new();
    let mut i: usize = 0;
    while i < n
        invariant
            i <= n,
            n == s@.len(),
            ws_tokens_spec(s@) =~= views_of(tokens@) + ws_tokens_from(s@, i as int),
        decreases n - i,
    {
        if is_space(s.get_char(i)) {
            i += 1;
        } else {
            let j = run_end(s, i);
            let tok = s.substring_char(i, j).to_owned();
            proof {
                lemma_views_push(tokens@, tok);
            }
            tokens.push(tok);
            i = j;
        }
    }
    tokens
}

/// The words joined by single spaces.
pub open spec fn join_spaces_spec(ts: Seq<Seq<char>>) -> Seq<char>
    decreases ts.len(),
{
    if ts.len() == 0 {
        Seq::empty()
    } else if ts.len() == 1 {
        ts[0]
    } else {
        ts[0] + " "@ + join_spaces_spec(ts.drop_first())
    }
}

proof fn lemma_join_push(ts: Seq<Seq<char>>, t: Seq<char>)
    ensures
        ts.len() == 0 ==> join_spaces_spec(ts.push(t)) == t,
        ts.len() > 0 ==> join_spaces_spec(ts.push(t)) =~= join_spaces_spec(ts) + " "@ + t,
    decreases ts.len(),
{
    if ts.len() == 0 {
        assert(ts.push(t)[0] == t);
    } else {
        lemma_join_push(ts.drop_first(), t);
        assert(ts.push(t).drop_first() =~= ts.drop_first().push(t));
        if ts.len() == 1 {
            assert(join_spaces_spec(ts.push(t)) =~= ts[0] + " "@ + t);
        }
    }
}

/// Join owned strings with single spaces, as `join(" ")` would.
pub fn join_spaces(v: &Vec<String>) -> (r: String)
    ensures
        r@ == join_spaces_spec(views_of(v@)),
{
    let mut r = String::new();
    let mut i: usize = 0;
    while i < v.len()
        invariant
            i <= v@.len(),
            r@ == join_spaces_spec(views_of(v@).take(i as int)),
        decreases v@.len() - i,
    {
        if i > 0 {
            r.append(" ");
        }
        r.append(v[i].as_str());
        proof {
            let pre = views_of(v@).take(i as int);
            lemma_join_push(pre, v@[i as int]@);
            assert(views_of(v@).take(i as int + 1) =~= pre.push(v@[i as int]@));
        }
        i += 1;
    }
    proof {
        assert(views_of(v@).take(v@.len() as int) =~= views_of(v@));
    }
    r
}

/// Copy the elements of `v` from position `from` on.
pub fn tail_strings(v: &Vec<String>, from: usize) -> (r: Vec<String>)
    requires
        from <= v@.len(),
    ensures
        views_of(r@) == views_of(v@).subrange(from as int, v@.len() as int),
{
    let mut r: Vec<String> = Vec::new();
    let mut i: usize = from;
    while i < v.len()
        invariant
            from <= i <= v@.len(),
            views_of(r@) =~= views_of(v@).subrange(from as int, i as int),
        decreases v@.len() - i,
    {
        let s = v[i].clone();
        proof {
            lemma_views_push(r@, s);
            assert(views_of(v@).subrange(from as int, i as int + 1) =~= views_of(v@).subrange(
                from as int,
                i as int,
            ).push(v@[i as int]@));
        }
        r.push(s);
        i += 1;
    }
    proof {
        assert(views_of(r@) =~= views_of(v@).subrange(from as int, v@.len() as int));
    }
    r
}

/// Some line of `text` begins with `prefix`.
pub open spec fn has_prefixed_line(text: Seq<char>, prefix: Seq<char>) -> bool {
    exists|i: int| 0 <= i < lines_spec(text).len() && prefix_of(prefix, lines_spec(text)[i])
}

/// Scan the lines of `text` for one starting with `prefix`.
pub fn any_line_starts_with(text: &str, prefix: &str) -> (r: bool)
    ensures
        r == has_prefixed_line(text@, prefix@),
{
    let lines = lines_of(text);
    let mut i: usize = 0;
    while i < lines.len()
        invariant
            i <= lines@.len(),
            views_of(lines@) == lines_spec(text@),
            forall|k: int| 0 <= k < i ==> !prefix_of(prefix@, lines_spec(text@)[k]),
        decreases lines@.len() - i,
    {
        if starts_with(lines[i].as_str(), prefix) {
            proof {
                assert(lines_spec(text@)[i as int] == lines@[i as int]@);
            }
            return true;
        }
        i += 1;
    }
    false
}

/// Whether a `u32` sequence holds `x`.
pub fn contains_u32(v: &Vec<u32>, x: u32) -> (r: bool)
    ensures
        r == v@.contains(x),
{
    let mut i: usize = 0;
    while i < v.len()
        invariant
            i <= v@.len(),
            forall|k: int| 0 <= k < i ==> v@[k] != x,
        decreases v@.len() - i,
    {
        if v[i] == x {
            return true;
        }
        i += 1;
    }
    false
}

} // verus!
