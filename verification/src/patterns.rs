//! The shapes of the text before the cursor that call for a completion.
//!
//! Each shape is a predicate on the line's characters. `$` is the end of the
//! line and `.` any character but a line feed; a class such as `[^)]` holds
//! any character but the ones it names, line feeds included; a match need not
//! start at the beginning of the line unless its shape says so. Where a shape
//! captures a part of the line, the match that counts is the one that starts
//! leftmost, and among those the one whose first repeated part is longest.
use vstd::prelude::*;

verus! {

/// `lit` stands in `s` at position `i`.
pub open spec fn matches_at(s: Seq<char>, i: int, lit: Seq<char>) -> bool {
    0 <= i && i + lit.len() <= s.len() && s.subrange(i, i + lit.len()) == lit
}

/// No character of `s` at a position in `from..to` is `c`.
pub open spec fn lacks(s: Seq<char>, from: int, to: int, c: char) -> bool {
    forall|j: int| from <= j < to ==> s[j] != c
}

/// Whether `c` is white space: the Unicode `White_Space` property.
pub open spec fn is_space(c: char) -> bool {
    ||| '\t' <= c <= '\r'
    ||| c == ' '
    ||| c == '\u{85}'
    ||| c == '\u{a0}'
    ||| c == '\u{1680}'
    ||| '\u{2000}' <= c <= '\u{200a}'
    ||| c == '\u{2028}'
    ||| c == '\u{2029}'
    ||| c == '\u{202f}'
    ||| c == '\u{205f}'
    ||| c == '\u{3000}'
}

/// `![](` at `i`, then no `)` up to the end: `!\[\]\([^)]*$`.
pub open spec fn img_link_at(s: Seq<char>, i: int) -> bool {
    matches_at(s, i, seq!['!', '[', ']', '(']) && lacks(s, i + 4, s.len() as int, ')')
}

#[verifier::opaque]
pub open spec fn is_img_link(s: Seq<char>) -> bool {
    exists|i: int| img_link_at(s, i)
}

/// `](/` at `i`, then no `)` up to the end: `]\((/[^)]*)$`, whose capture
/// starts at `i + 2`.
pub open spec fn inline_rel_link_at(s: Seq<char>, i: int) -> bool {
    matches_at(s, i, seq![']', '(', '/']) && lacks(s, i + 3, s.len() as int, ')')
}

/// Where the leftmost match of `]\((/[^)]*)$` starts.
#[verifier::opaque]
pub open spec fn inline_rel_link_start(s: Seq<char>) -> Option<int> {
    if exists|i: int| inline_rel_link_at(s, i) {
        Some(
            choose|i: int|
                inline_rel_link_at(s, i) && forall|k: int| 0 <= k < i ==> !inline_rel_link_at(s, k),
        )
    } else {
        None
    }
}

/// `](#` at `i`, then no `)` up to the end: `]\(#[^)]*$`.
pub open spec fn inline_header_ref_at(s: Seq<char>, i: int) -> bool {
    matches_at(s, i, seq![']', '(', '#']) && lacks(s, i + 3, s.len() as int, ')')
}

#[verifier::opaque]
pub open spec fn is_inline_header_ref(s: Seq<char>) -> bool {
    exists|i: int| inline_header_ref_at(s, i)
}

/// Where the run of white space that starts at `from` ends.
pub open spec fn space_end(s: Seq<char>, from: int) -> int
    decreases s.len() - from,
{
    if 0 <= from < s.len() && is_space(s[from]) {
        space_end(s, from + 1)
    } else {
        from
    }
}

/// The start of a link definition: `[`, then at least one character other
/// than a line feed up to `k`, then `]:` at `k`, then white space: the part
/// `^\[.+\]:\s+` of both link definition shapes.
pub open spec fn link_def_head(s: Seq<char>, k: int) -> bool {
    &&& s.len() > 0
    &&& s[0] == '['
    &&& 2 <= k
    &&& lacks(s, 1, k, '\n')
    &&& matches_at(s, k, seq![']', ':'])
    &&& space_end(s, k + 2) > k + 2
}

/// A link definition head with `]:` at `k`, followed by `after`; where
/// `to_end` holds, no line feed may follow up to the end of the line.
pub open spec fn link_def_target_at(s: Seq<char>, k: int, after: char, to_end: bool) -> bool {
    let m = space_end(s, k + 2);
    &&& link_def_head(s, k)
    &&& m < s.len()
    &&& s[m] == after
    &&& to_end ==> lacks(s, m + 1, s.len() as int, '\n')
}

/// `^\[.+\]:\s+(/.*)$` where the `]:` stands at `k`: after the white space
/// a `/`, then no line feed up to the end.
pub open spec fn link_def_rel_link_at(s: Seq<char>, k: int) -> bool {
    link_def_target_at(s, k, '/', true)
}

/// Where the capture of `^\[.+\]:\s+(/.*)$` starts: after the last `]:` from
/// which the rest of the shape matches.
#[verifier::opaque]
pub open spec fn link_def_rel_link_start(s: Seq<char>) -> Option<int> {
    if exists|k: int| link_def_rel_link_at(s, k) {
        Some(
            space_end(
                s,
                (choose|k: int|
                    link_def_rel_link_at(s, k) && forall|k2: int|
                        k < k2 < s.len() ==> !link_def_rel_link_at(s, k2)) + 2,
            ),
        )
    } else {
        None
    }
}

/// `^\[.+\]:\s+#` where the `]:` stands at `k`.
pub open spec fn link_def_header_ref_at(s: Seq<char>, k: int) -> bool {
    link_def_target_at(s, k, '#', false)
}

#[verifier::opaque]
pub open spec fn is_link_def_header_ref(s: Seq<char>) -> bool {
    exists|k: int| link_def_header_ref_at(s, k)
}

/// `\[[^\]]+\]\[[^\]]*$` with its first `[` at `i` and its first `]` at `j`.
pub open spec fn full_link_tag_at(s: Seq<char>, i: int, j: int) -> bool {
    &&& 0 <= i
    &&& i + 1 < j
    &&& j + 1 < s.len()
    &&& s[i] == '['
    &&& lacks(s, i + 1, j, ']')
    &&& s[j] == ']'
    &&& s[j + 1] == '['
    &&& lacks(s, j + 2, s.len() as int, ']')
}

#[verifier::opaque]
pub open spec fn is_full_link_tag(s: Seq<char>) -> bool {
    exists|i: int, j: int| full_link_tag_at(s, i, j)
}

/// `^tags(:| =) `.
pub open spec fn is_frontmatter_tag(s: Seq<char>) -> bool {
    matches_at(s, 0, seq!['t', 'a', 'g', 's', ':', ' ']) || matches_at(
        s,
        0,
        seq!['t', 'a', 'g', 's', ' ', '=', ' '],
    )
}

/// `^series(:| =) `.
pub open spec fn is_frontmatter_series(s: Seq<char>) -> bool {
    matches_at(s, 0, seq!['s', 'e', 'r', 'i', 'e', 's', ':', ' ']) || matches_at(
        s,
        0,
        seq!['s', 'e', 'r', 'i', 'e', 's', ' ', '=', ' '],
    )
}

/// `[` at `i`, then no `]` up to the end: `\[[^\]]*$`.
pub open spec fn open_bracket_at(s: Seq<char>, i: int) -> bool {
    0 <= i < s.len() && s[i] == '[' && lacks(s, i + 1, s.len() as int, ']')
}

/// Where the leftmost match of `\[[^\]]*$` starts.
#[verifier::opaque]
pub open spec fn open_bracket_start(s: Seq<char>) -> Option<int> {
    if exists|i: int| open_bracket_at(s, i) {
        Some(
            choose|i: int|
                open_bracket_at(s, i) && forall|k: int| 0 <= k < i ==> !open_bracket_at(s, k),
        )
    } else {
        None
    }
}

/// Whether `lit` stands in `s` at `i`.
pub fn chars_at(s: &[char], i: usize, lit: &[char]) -> (res: bool)
    ensures
        res == matches_at(s@, i as int, lit@),
{
    if i > s.len() || lit.len() > s.len() - i {
        return false;
    }
    let n = s.len();
    let mut k: usize = 0;
    while k < lit.len()
        invariant
            n == s@.len(),
            i + lit@.len() <= s@.len(),
            k <= lit@.len(),
            forall|j: int| 0 <= j < k ==> s@[i + j] == lit@[j],
        decreases lit@.len() - k,
    {
        if s[i + k] != lit[k] {
            assert(s@.subrange(i as int, i + lit@.len())[k as int] != lit@[k as int]);
            return false;
        }
        k = k + 1;
    }
    assert(s@.subrange(i as int, i + lit@.len()) =~= lit@);
    true
}

/// Whether no character of `s` in `from..s.len()` is `c`.
pub fn lacks_from(s: &[char], from: usize, c: char) -> (res: bool)
    ensures
        res == lacks(s@, from as int, s@.len() as int, c),
{
    let mut j = from;
    while j < s.len()
        invariant
            from <= j,
            lacks(s@, from as int, j as int, c),
        decreases s@.len() - j,
    {
        if s[j] == c {
            assert(s@[j as int] == c);
            return false;
        }
        j = j + 1;
    }
    true
}

/// Whether the line matches `!\[\]\([^)]*$`.
pub fn img_link(s: &[char]) -> (res: bool)
    ensures
        res == is_img_link(s@),
{
    reveal(is_img_link);
    let lit = vec!['!', '[', ']', '('];
    let mut i: usize = 0;
    while i < s.len()
        invariant
            lit@ == seq!['!', '[', ']', '('],
            forall|k: int| 0 <= k < i ==> !img_link_at(s@, k),
        decreases s@.len() - i,
    {
        if chars_at(s, i, lit.as_slice()) && lacks_from(s, i + 4, ')') {
            assert(img_link_at(s@, i as int));
            reveal(is_img_link);
            return true;
        }
        i = i + 1;
    }
    assert forall|k: int| !img_link_at(s@, k) by {
        if 0 <= k && k >= i {
            assert(!matches_at(s@, k, seq!['!', '[', ']', '(']));
        }
    }
    false
}

/// Where the capture of `]\((/[^)]*)$` starts, if the line matches it.
pub fn inline_rel_link(s: &[char]) -> (res: Option<usize>)
    ensures
        match inline_rel_link_start(s@) {
            Some(i) => res matches Some(r) && r == i + 2,
            None => res is None,
        },
        res matches Some(r) ==> r <= s@.len(),
{
    reveal(inline_rel_link_start);
    let lit = vec![']', '(', '/'];
    let mut i: usize = 0;
    while i < s.len()
        invariant
            lit@ == seq![']', '(', '/'],
            forall|k: int| 0 <= k < i ==> !inline_rel_link_at(s@, k),
        decreases s@.len() - i,
    {
        if chars_at(s, i, lit.as_slice()) && lacks_from(s, i + 3, ')') {
            assert(inline_rel_link_at(s@, i as int));
            let ghost c = choose|c: int|
                inline_rel_link_at(s@, c) && forall|k: int| 0 <= k < c ==> !inline_rel_link_at(s@, k);
            assert(c == i) by {
                if c < i {
                } else if c > i {
                    assert(!inline_rel_link_at(s@, i as int));
                }
            }
            reveal(inline_rel_link_start);
            return Some(i + 2);
        }
        i = i + 1;
    }
    assert forall|k: int| !inline_rel_link_at(s@, k) by {
        if 0 <= k && k >= i {
            assert(!matches_at(s@, k, seq![']', '(', '/']));
        }
    }
    None
}

/// Whether the line matches `]\(#[^)]*$`.
pub fn inline_header_ref(s: &[char]) -> (res: bool)
    ensures
        res == is_inline_header_ref(s@),
{
    reveal(is_inline_header_ref);
    let lit = vec![']', '(', '#'];
    let mut i: usize = 0;
    while i < s.len()
        invariant
            lit@ == seq![']', '(', '#'],
            forall|k: int| 0 <= k < i ==> !inline_header_ref_at(s@, k),
        decreases s@.len() - i,
    {
        if chars_at(s, i, lit.as_slice()) && lacks_from(s, i + 3, ')') {
            assert(inline_header_ref_at(s@, i as int));
            reveal(is_inline_header_ref);
            return true;
        }
        i = i + 1;
    }
    assert forall|k: int| !inline_header_ref_at(s@, k) by {
        if 0 <= k && k >= i {
            assert(!matches_at(s@, k, seq![']', '(', '#']));
        }
    }
    false
}

/// Whether `c` is white space.
pub fn space(c: char) -> (res: bool)
    ensures
        res == is_space(c),
{
    ('\t' <= c && c <= '\r') || c == ' ' || c == '\u{85}' || c == '\u{a0}' || c == '\u{1680}' || (
    '\u{2000}' <= c && c <= '\u{200a}') || c == '\u{2028}' || c == '\u{2029}' || c == '\u{202f}'
        || c == '\u{205f}' || c == '\u{3000}'
}

proof fn lemma_space_end(s: Seq<char>, from: int, j: int)
    requires
        0 <= from <= j <= s.len(),
        forall|t: int| from <= t < j ==> is_space(s[t]),
    ensures
        space_end(s, from) == space_end(s, j),
    decreases j - from,
{
    if from < j {
        lemma_space_end(s, from + 1, j);
    }
}

/// Where the run of white space that starts at `from` ends.
pub fn skip_space(s: &[char], from: usize) -> (res: usize)
    requires
        from <= s@.len(),
    ensures
        res == space_end(s@, from as int),
        from <= res <= s@.len(),
{
    let mut j = from;
    while j < s.len() && space(s[j])
        invariant
            from <= j <= s@.len(),
            forall|t: int| from <= t < j ==> is_space(s@[t]),
        decreases s@.len() - j,
    {
        j = j + 1;
    }
    proof {
        lemma_space_end(s@, from as int, j as int);
    }
    j
}

/// The last position `k` at which a link definition head, followed by
/// `after`, matches (see `link_def_target_at`), with where its white space ends.
fn link_def_head_end(s: &[char], after: char, to_end: bool) -> (res: Option<(usize, usize)>)
    ensures
        match res {
            Some((k, m)) => {
                &&& link_def_target_at(s@, k as int, after, to_end)
                &&& m == space_end(s@, k + 2)
                &&& forall|k2: int|
                    k < k2 < s@.len() ==> !link_def_target_at(s@, k2, after, to_end)
            },
            None => forall|k: int| !link_def_target_at(s@, k, after, to_end),
        },
{
    if s.len() < 2 || s[0] != '[' {
        assert forall|k: int| !link_def_target_at(s@, k, after, to_end) by {
            if s@.len() >= 2 && link_def_target_at(s@, k, after, to_end) {
                assert(s@[0] == '[');
            }
        }
        return None;
    }
    // The first line feed after the `[` bounds where `]:` may stand.
    let mut nl: usize = 1;
    while nl < s.len() && s[nl] != '\n'
        invariant
            1 <= nl <= s@.len(),
            lacks(s@, 1, nl as int, '\n'),
        decreases s@.len() - nl,
    {
        nl = nl + 1;
    }
    let colon = vec![']', ':'];
    let mut k: usize = s.len();
    while k > 2
        invariant
            colon@ == seq![']', ':'],
            2 <= k <= s@.len(),
            s@.len() >= 2,
            s@[0] == '[',
            1 <= nl <= s@.len(),
            lacks(s@, 1, nl as int, '\n'),
            nl < s@.len() ==> s@[nl as int] == '\n',
            forall|k2: int| k <= k2 < s@.len() ==> !link_def_target_at(s@, k2, after, to_end),
        decreases k,
    {
        k = k - 1;
        if k <= nl && chars_at(s, k, colon.as_slice()) {
            let m = skip_space(s, k + 2);
            if m > k + 2 && m < s.len() && s[m] == after {
                if !to_end || lacks_from(s, m + 1, '\n') {
                    assert(link_def_target_at(s@, k as int, after, to_end));
                    return Some((k, m));
                }
            }
        }
        assert(!link_def_target_at(s@, k as int, after, to_end)) by {
            if k > nl {
                assert(!lacks(s@, 1, k as int, '\n'));
            }
        }
    }
    assert forall|k2: int| !link_def_target_at(s@, k2, after, to_end) by {
        if k2 < k {
            assert(!link_def_head(s@, k2));
        }
    }
    None
}

/// Where the capture of `^\[.+\]:\s+(/.*)$` starts, if the line matches it.
pub fn link_def_rel_link(s: &[char]) -> (res: Option<usize>)
    ensures
        match link_def_rel_link_start(s@) {
            Some(m) => res matches Some(r) && r == m,
            None => res is None,
        },
        res matches Some(r) ==> r < s@.len(),
{
    reveal(link_def_rel_link_start);
    match link_def_head_end(s, '/', true) {
        Some((k, m)) => {
            assert(link_def_rel_link_at(s@, k as int));
            let ghost c = choose|c: int|
                link_def_rel_link_at(s@, c) && forall|k2: int|
                    c < k2 < s@.len() ==> !link_def_rel_link_at(s@, k2);
            assert(c == k) by {
                if c < k {
                    assert(!link_def_rel_link_at(s@, k as int));
                } else if c > k {
                    assert(c < s@.len());
                    assert(!link_def_rel_link_at(s@, c));
                }
            }
            Some(m)
        },
        None => {
            assert forall|k: int| !link_def_rel_link_at(s@, k) by {}
            None
        },
    }
}

/// Whether the line matches `^\[.+\]:\s+#`.
pub fn link_def_header_ref(s: &[char]) -> (res: bool)
    ensures
        res == is_link_def_header_ref(s@),
{
    reveal(is_link_def_header_ref);
    match link_def_head_end(s, '#', false) {
        Some((k, m)) => {
            assert(link_def_header_ref_at(s@, k as int));
            true
        },
        None => {
            assert forall|k: int| !link_def_header_ref_at(s@, k) by {}
            false
        },
    }
}

/// Whether the line matches `\[[^\]]+\]\[[^\]]*$`.
pub fn full_link_tag(s: &[char]) -> (res: bool)
    ensures
        res == is_full_link_tag(s@),
{
    reveal(is_full_link_tag);
    let mut i: usize = 0;
    while i < s.len()
        invariant
            forall|i2: int, j: int| 0 <= i2 < i ==> !full_link_tag_at(s@, i2, j),
        decreases s@.len() - i,
    {
        if s[i] == '[' {
            // The first `]` after the `[` is the only one the shape allows.
            let mut j = i + 1;
            while j < s.len() && s[j] != ']'
                invariant
                    i < j <= s@.len(),
                    lacks(s@, i + 1, j as int, ']'),
                decreases s@.len() - j,
            {
                j = j + 1;
            }
            if j < s.len() && j > i + 1 && j + 1 < s.len() && s[j + 1] == '[' && lacks_from(
                s,
                j + 2,
                ']',
            ) {
                assert(full_link_tag_at(s@, i as int, j as int));
                reveal(is_full_link_tag);
                return true;
            }
            assert forall|j2: int| !full_link_tag_at(s@, i as int, j2) by {
                if full_link_tag_at(s@, i as int, j2) {
                    if j2 < j {
                        assert(s@[j2] != ']');
                    } else if j2 > j {
                        assert(j < s@.len());
                        assert(s@[j as int] == ']');
                    }
                }
            }
        }
        i = i + 1;
    }
    false
}

/// Whether the line matches `^tags(:| =) `.
pub fn frontmatter_tag(s: &[char]) -> (res: bool)
    ensures
        res == is_frontmatter_tag(s@),
{
    let a = vec!['t', 'a', 'g', 's', ':', ' '];
    let b = vec!['t', 'a', 'g', 's', ' ', '=', ' '];
    chars_at(s, 0, a.as_slice()) || chars_at(s, 0, b.as_slice())
}

/// Whether the line matches `^series(:| =) `.
pub fn frontmatter_series(s: &[char]) -> (res: bool)
    ensures
        res == is_frontmatter_series(s@),
{
    let a = vec!['s', 'e', 'r', 'i', 'e', 's', ':', ' '];
    let b = vec!['s', 'e', 'r', 'i', 'e', 's', ' ', '=', ' '];
    chars_at(s, 0, a.as_slice()) || chars_at(s, 0, b.as_slice())
}

/// Where the leftmost match of `\[[^\]]*$` starts, if the line matches it.
pub fn open_bracket(s: &[char]) -> (res: Option<usize>)
    ensures
        match open_bracket_start(s@) {
            Some(i) => res matches Some(r) && r == i,
            None => res is None,
        },
        res matches Some(r) ==> r < s@.len(),
{
    reveal(open_bracket_start);
    let mut i: usize = 0;
    while i < s.len()
        invariant
            forall|k: int| 0 <= k < i ==> !open_bracket_at(s@, k),
        decreases s@.len() - i,
    {
        if s[i] == '[' && lacks_from(s, i + 1, ']') {
            assert(open_bracket_at(s@, i as int));
            let ghost c = choose|c: int|
                open_bracket_at(s@, c) && forall|k: int| 0 <= k < c ==> !open_bracket_at(s@, k);
            assert(c == i) by {
                if c > i {
                    assert(!open_bracket_at(s@, i as int));
                }
            }
            reveal(open_bracket_start);
            return Some(i);
        }
        i = i + 1;
    }
    None
}

} // verus!
