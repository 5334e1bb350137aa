use vstd::prelude::*;
use crate::text_editor::{sat_usize, spec_is_space, is_space, str_to_chars, chars_to_string};

verus! {

use vstd::string::StrSliceExecFns;
use vstd::string::StringExecFns;

/// A text is blank when every character is whitespace; the empty text is
/// blank.
pub open spec fn is_blank(s: Seq<char>) -> bool {
    forall|i: int| 0 <= i < s.len() ==> spec_is_space(#[trigger] s[i])
}

/// Whether the characters are all whitespace.
pub fn chars_blank(v: &Vec<char>) -> (r: bool)
    ensures
        r == is_blank(v@),
{
    let mut i: usize = 0;
    while i < v.len()
        invariant
            i <= v@.len(),
            forall|j: int| 0 <= j < i ==> spec_is_space(#[trigger] v@[j]),
        decreases v@.len() - i,
    {
        if !is_space(v[i]) {
            return false;
        }
        i = i + 1;
    }
    true
}

/// Number of words remaining from position `i`, under a whitespace-run
/// model: a word starts at a non-space character that follows a space (or
/// the start of the text).
pub open spec fn words_from(s: Seq<char>, i: int, prev_space: bool) -> int
    decreases s.len() - i,
{
    if i < 0 || i >= s.len() {
        0
    } else {
        (if !spec_is_space(s[i]) && prev_space { 1int } else { 0int })
            + words_from(s, i + 1, spec_is_space(s[i]))
    }
}

/// The number of whitespace-separated words of a text.
pub open spec fn word_count(s: Seq<char>) -> int {
    words_from(s, 0, true)
}

pub proof fn lemma_words_nonneg(s: Seq<char>, i: int, prev_space: bool)
    ensures
        words_from(s, i, prev_space) >= 0,
    decreases s.len() - i,
{
    if 0 <= i < s.len() {
        lemma_words_nonneg(s, i + 1, spec_is_space(s[i]));
    }
}

/// Count the words of a text.
pub fn count_words(v: &Vec<char>) -> (r: usize)
    ensures
        r == sat_usize(word_count(v@)),
{
    let ghost total = word_count(v@);
    proof {
        lemma_words_nonneg(v@, 0, true);
    }
    let mut count: usize = 0;
    let mut prev_space = true;
    let mut i: usize = 0;
    while i < v.len()
        invariant
            i <= v@.len(),
            count == sat_usize(word_count(v@) - words_from(v@, i as int, prev_space)),
            word_count(v@) >= words_from(v@, i as int, prev_space) >= 0,
        decreases v@.len() - i,
    {
        proof {
            lemma_words_nonneg(v@, i + 1, spec_is_space(v@[i as int]));
        }
        let sp = is_space(v[i]);
        if !sp && prev_space {
            if count < usize::MAX {
                count = count + 1;
            }
        }
        prev_space = sp;
        i = i + 1;
    }
    count
}

/// The first `'\n'` of the text, or its length when it has none.
pub open spec fn first_newline(s: Seq<char>, i: int) -> int
    decreases s.len() - i,
{
    if i < 0 || i >= s.len() {
        s.len() as int
    } else if s[i] == '\n' {
        i
    } else {
        first_newline(s, i + 1)
    }
}

pub proof fn lemma_first_newline_bounds(s: Seq<char>, i: int)
    requires
        0 <= i <= s.len(),
    ensures
        i <= first_newline(s, i) <= s.len(),
    decreases s.len() - i,
{
    if i < s.len() && s[i] != '\n' {
        lemma_first_newline_bounds(s, i + 1);
    }
}

/// The one-line preview of an entry's content, cut at the first line break
/// or at 50 characters, whichever comes first; a cut is marked with an
/// ellipsis.
pub open spec fn preview_of(s: Seq<char>) -> Seq<char> {
    let nl = first_newline(s, 0);
    if nl < s.len() {
        if nl < 50 {
            s.subrange(0, nl) + ellipsis()
        } else if s.len() > 50 {
            s.subrange(0, 50) + ellipsis()
        } else {
            s
        }
    } else if s.len() > 50 {
        s.subrange(0, 50) + ellipsis()
    } else {
        s
    }
}

pub open spec fn ellipsis() -> Seq<char> {
    seq!['.', '.', '.']
}

/// The position of the first line break, or the length when there is none.
#[verifier::loop_isolation(false)]
pub fn find_newline(v: &Vec<char>) -> (r: usize)
    ensures
        r == first_newline(v@, 0),
{
    let mut i: usize = 0;
    while i < v.len()
        invariant
            i <= v@.len(),
            first_newline(v@, 0) == first_newline(v@, i as int),
        decreases v@.len() - i,
    {
        if v[i] == '\n' {
            return i;
        }
        i = i + 1;
    }
    v.len()
}

/// The one-line preview of an entry's content for the list view.
#[verifier::loop_isolation(false)]
pub fn entry_preview_line(content: &str) -> (r: String)
    ensures
        r@ == preview_of(content@),
{
    let v = str_to_chars(content);
    proof {
        lemma_first_newline_bounds(v@, 0);
    }
    let cut = find_newline(&v);
    let limit: usize = if cut < v.len() {
        if cut < 50 {
            cut
        } else if v.len() > 50 {
            50
        } else {
            v.len()
        }
    } else if v.len() > 50 {
        50
    } else {
        v.len()
    };
    let mut out: Vec<char> = Vec::new();
    let mut k: usize = 0;
    while k < limit
        invariant
            k <= limit <= v@.len(),
            out@ == v@.subrange(0, k as int),
        decreases limit - k,
    {
        out.push(v[k]);
        proof {
            assert(out@ =~= v@.subrange(0, k + 1 as int));
        }
        k = k + 1;
    }
    if limit < v.len() {
        out.push('.');
        out.push('.');
        out.push('.');
        proof {
            assert(out@ =~= v@.subrange(0, limit as int) + ellipsis());
        }
    } else {
        proof {
            assert(out@ =~= v@);
        }
    }
    proof {
        assert(out@ == preview_of(v@));
    }
    chars_to_string(&out)
}

proof fn lemma_newline_at(s: Seq<char>, i: int)
    requires
        0 <= i < s.len(),
        s[i] == '\n',
        forall|j: int| 0 <= j < i ==> s[j] != '\n',
    ensures
        first_newline(s, 0) == i,
    decreases i,
{
    lemma_newline_from(s, 0, i);
}

proof fn lemma_newline_from(s: Seq<char>, k: int, i: int)
    requires
        0 <= k <= i < s.len(),
        s[i] == '\n',
        forall|j: int| 0 <= j < i ==> s[j] != '\n',
    ensures
        first_newline(s, k) == i,
    decreases i - k,
{
    if k < i {
        lemma_newline_from(s, k + 1, i);
    }
}

proof fn lemma_newline_none(s: Seq<char>, k: int)
    requires
        0 <= k <= s.len(),
        forall|j: int| 0 <= j < s.len() ==> s[j] != '\n',
    ensures
        first_newline(s, k) == s.len(),
    decreases s.len() - k,
{
    if k < s.len() {
        lemma_newline_none(s, k + 1);
    }
}

/// The text ends in the marker `.png`.
pub open spec fn has_png_suffix(s: Seq<char>) -> bool {
    s.len() >= 4 && s.subrange(s.len() - 4, s.len() as int) == png_suffix()
}

pub open spec fn png_suffix() -> Seq<char> {
    seq!['.', 'p', 'n', 'g']
}

/// The storage path for an image, scoped to the entry when both identities
/// are known, to the thread when only it is, and to the global bucket
/// otherwise.  The filename is given a `.png` extension when it lacks one.
pub open spec fn storage_path_of(
    filename: Seq<char>,
    thread_id: Option<Seq<char>>,
    entry_id: Option<Seq<char>>,
) -> Seq<char> {
    let name = if has_png_suffix(filename) {
        filename
    } else {
        filename + png_suffix()
    };
    match (thread_id, entry_id) {
        (Some(t), Some(e)) => "images/threads/"@ + t + "/"@ + e + "/"@ + name,
        (Some(t), None) => "images/threads/"@ + t + "/"@ + name,
        _ => "images/global/"@ + name,
    }
}

/// Derive the storage path for a named image from the editing context.
pub fn image_storage_path(
    filename: &str,
    thread_id: Option<&String>,
    entry_id: Option<&String>,
) -> (r: String)
    ensures
        r@ == storage_path_of(
            filename@,
            match thread_id {
                Some(t) => Some(t@),
                None => None,
            },
            match entry_id {
                Some(e) => Some(e@),
                None => None,
            },
        ),
{
    let chars = str_to_chars(filename);
    let n = chars.len();
    let with_ext: bool = if n >= 4 {
        let c0 = chars[n - 4];
        let c1 = chars[n - 3];
        let c2 = chars[n - 2];
        let c3 = chars[n - 1];
        let r = c0 == '.' && c1 == 'p' && c2 == 'n' && c3 == 'g';
        proof {
            if r {
                assert(chars@.subrange(n - 4, n as int) =~= png_suffix());
            } else {
                assert(chars@.subrange(n - 4, n as int)[0] == c0);
                assert(chars@.subrange(n - 4, n as int)[1] == c1);
                assert(chars@.subrange(n - 4, n as int)[2] == c2);
                assert(chars@.subrange(n - 4, n as int)[3] == c3);
            }
        }
        r
    } else {
        false
    };
    proof {
        reveal_strlit(".png");
        assert(".png"@ =~= png_suffix());
    }
    let mut name = string_from(filename);
    if !with_ext {
        name.append(".png");
    }
    proof {
        assert(name@ == if has_png_suffix(filename@) {
            filename@
        } else {
            filename@ + png_suffix()
        });
    }
    let mut path = String::new();
    match (thread_id, entry_id) {
        (Some(t), Some(e)) => {
            path.append("images/threads/");
            path.append(t.as_str());
            path.append("/");
            path.append(e.as_str());
            path.append("/");
            path.append(name.as_str());
        },
        (Some(t), None) => {
            path.append("images/threads/");
            path.append(t.as_str());
            path.append("/");
            path.append(name.as_str());
        },
        _ => {
            path.append("images/global/");
            path.append(name.as_str());
        },
    }
    proof {
        assert(path@ =~= storage_path_of(
            filename@,
            match thread_id {
                Some(t) => Some(t@),
                None => None,
            },
            match entry_id {
                Some(e) => Some(e@),
                None => None,
            },
        ));
    }
    path
}

fn string_from(s: &str) -> (r: String)
    ensures
        r@ == s@,
{
    String::from_str(s)
}

} // verus!

verus! {

use crate::text_editor::{skip_spaces_back, skip_spaces_forward};

/// The text with every line break removed: what joining lines with no
/// separator yields.
pub open spec fn sans_newlines(s: Seq<char>) -> Seq<char>
    decreases s.len(),
{
    if s.len() == 0 {
        Seq::empty()
    } else if s.last() == '\n' {
        sans_newlines(s.drop_last())
    } else {
        sans_newlines(s.drop_last()).push(s.last())
    }
}

/// The text with leading and trailing whitespace removed.
pub open spec fn trim_of(s: Seq<char>) -> Seq<char> {
    let a = skip_spaces_forward(s, 0);
    let b = skip_spaces_back(s, s.len() as int);
    if a <= b {
        s.subrange(a, b)
    } else {
        Seq::empty()
    }
}

/// Remove every line break from the characters.
pub fn remove_newlines(v: &Vec<char>) -> (r: Vec<char>)
    ensures
        r@ == sans_newlines(v@),
{
    let mut r: Vec<char> = Vec::new();
    let mut i: usize = 0;
    while i < v.len()
        invariant
            i <= v@.len(),
            r@ == sans_newlines(v@.subrange(0, i as int)),
        decreases v@.len() - i,
    {
        proof {
            assert(v@.subrange(0, i + 1 as int).drop_last() =~= v@.subrange(0, i as int));
            assert(v@.subrange(0, i + 1 as int).last() == v@[i as int]);
        }
        if v[i] != '\n' {
            r.push(v[i]);
        }
        i = i + 1;
    }
    proof {
        assert(v@.subrange(0, v@.len() as int) =~= v@);
    }
    r
}

/// Remove leading and trailing whitespace from the characters.
#[verifier::loop_isolation(false)]
pub fn trim_chars(v: &Vec<char>) -> (r: Vec<char>)
    ensures
        r@ == trim_of(v@),
{
    let n = v.len();
    let mut a: usize = 0;
    while a < n && is_space(v[a])
        invariant
            a <= n,
            skip_spaces_forward(v@, 0) == skip_spaces_forward(v@, a as int),
        decreases n - a,
    {
        a = a + 1;
    }
    proof {
        assert(skip_spaces_forward(v@, 0) == a);
    }
    let mut b: usize = n;
    while b > 0 && is_space(v[b - 1])
        invariant
            b <= n,
            skip_spaces_back(v@, n as int) == skip_spaces_back(v@, b as int),
        decreases b,
    {
        b = b - 1;
    }
    proof {
        assert(skip_spaces_back(v@, n as int) == b);
    }
    let mut r: Vec<char> = Vec::new();
    if a <= b {
        let mut k: usize = a;
        while k < b
            invariant
                a <= k <= b <= n,
                r@ == v@.subrange(a as int, k as int),
            decreases b - k,
        {
            r.push(v[k]);
            proof {
                assert(r@ =~= v@.subrange(a as int, k + 1 as int));
            }
            k = k + 1;
        }
    }
    proof {
        if a <= b {
            assert(r@ =~= trim_of(v@));
        } else {
            assert(trim_of(v@) =~= Seq::<char>::empty());
            assert(r@ =~= Seq::<char>::empty());
        }
    }
    r
}

pub proof fn lemma_skip_back_bounds(s: Seq<char>, i: int)
    requires
        0 <= i <= s.len(),
    ensures
        0 <= skip_spaces_back(s, i) <= i,
    decreases i,
{
    if i > 0 && spec_is_space(s[i - 1]) {
        lemma_skip_back_bounds(s, i - 1);
    }
}

} // verus!

verus! {

/// A reserved inline-image marker opens at `i`.
pub open spec fn marker_at(s: Seq<char>, i: int) -> bool {
    &&& 0 <= i && i + 4 <= s.len()
    &&& s[i] == '!' && s[i + 1] == '[' && s[i + 2] == ']' && s[i + 3] == '('
}

/// The first closing parenthesis at or after `j`, or -1.
pub open spec fn first_close(s: Seq<char>, j: int) -> int
    decreases s.len() - j,
{
    if j < 0 || j >= s.len() {
        -1
    } else if s[j] == ')' {
        j
    } else {
        first_close(s, j + 1)
    }
}

pub proof fn lemma_first_close_bounds(s: Seq<char>, j: int)
    requires
        0 <= j <= s.len(),
    ensures
        first_close(s, j) == -1 || (j <= first_close(s, j) < s.len() && s[first_close(s, j)] == ')'),
    decreases s.len() - j,
{
    if j < s.len() && s[j] != ')' {
        lemma_first_close_bounds(s, j + 1);
    }
}

/// The referenced path starts like a URL rather than a file path.
pub open spec fn is_http_ref(p: Seq<char>) -> bool {
    p.len() >= 4 && p[0] == 'h' && p[1] == 't' && p[2] == 't' && p[3] == 'p'
}

/// The inline image references of the text from position `i` on: each
/// `![](path)` marker contributes its path, URLs excepted; a marker with no
/// closing parenthesis is skipped.
pub open spec fn refs_from(s: Seq<char>, i: int) -> Seq<Seq<char>>
    decreases s.len() - i,
{
    if i < 0 || i + 4 > s.len() {
        Seq::empty()
    } else if !marker_at(s, i) {
        refs_from(s, i + 1)
    } else {
        let j = first_close(s, i + 4);
        if j < i + 4 || j >= s.len() {
            refs_from(s, i + 4)
        } else {
            let path = s.subrange(i + 4, j);
            let rest = refs_from(s, j);
            if is_http_ref(path) {
                rest
            } else {
                seq![path] + rest
            }
        }
    }
}

/// The first closing parenthesis at or after `from`, as a concrete value.
#[verifier::loop_isolation(false)]
fn find_close(v: &Vec<char>, from: usize) -> (r: Option<usize>)
    requires
        from <= v@.len(),
    ensures
        match r {
            Some(j) => from <= j < v@.len() && j == first_close(v@, from as int),
            None => first_close(v@, from as int) == -1,
        },
{
    let mut k: usize = from;
    while k < v.len()
        invariant
            from <= k <= v@.len(),
            first_close(v@, from as int) == first_close(v@, k as int),
        decreases v@.len() - k,
    {
        if v[k] == ')' {
            return Some(k);
        }
        k = k + 1;
    }
    None
}

/// The candidate inline image references of a loaded text, in order: the
/// caller resolves each against its search roots and loads the first that
/// resolves; no match is tolerated silently.
#[verifier::loop_isolation(false)]
pub fn image_references(text: &str) -> (r: Vec<String>)
    ensures
        r@.map_values(|s: String| s@) == refs_from(text@, 0),
{
    let v = str_to_chars(text);
    let n = v.len();
    let mut r: Vec<String> = Vec::new();
    proof {
        assert(r@.map_values(|s: String| s@) =~= Seq::<Seq<char>>::empty());
    }
    let mut i: usize = 0;
    while n >= 4 && i <= n - 4
        invariant
            i <= n,
            n == v@.len(),
            r@.map_values(|s: String| s@) + refs_from(v@, i as int) =~= refs_from(v@, 0),
        decreases n - i,
    {
        let open_marker = v[i] == '!' && v[i + 1] == '[' && v[i + 2] == ']' && v[i + 3] == '(';
        if !open_marker {
            i = i + 1;
        } else {
            match find_close(&v, i + 4) {
                None => {
                    i = i + 4;
                },
                Some(j) => {
                    let mut path: Vec<char> = Vec::new();
                    let mut k: usize = i + 4;
                    while k < j
                        invariant
                            i + 4 <= k <= j < v@.len(),
                            path@ == v@.subrange(i + 4 as int, k as int),
                        decreases j - k,
                    {
                        path.push(v[k]);
                        proof {
                            assert(path@ =~= v@.subrange(i + 4 as int, k + 1 as int));
                        }
                        k = k + 1;
                    }
                    let http = path.len() >= 4 && path[0] == 'h' && path[1] == 't'
                        && path[2] == 't' && path[3] == 'p';
                    if !http {
                        let ghost pre = r@;
                        r.push(chars_to_string(&path));
                        proof {
                            assert(r@.map_values(|s: String| s@)
                                =~= pre.map_values(|s: String| s@).push(path@));
                        }
                    }
                    i = j;
                },
            }
        }
    }
    proof {
        assert(refs_from(v@, i as int) =~= Seq::<Seq<char>>::empty());
        assert(r@.map_values(|s: String| s@) =~= refs_from(v@, 0));
    }
    r
}

} // verus!

verus! {

/// The position just past the first `n` lines: the `n`-th line break, or
/// the end of the text when it has fewer breaks.
pub open spec fn first_n_lines_end(s: Seq<char>, n: int, i: int) -> int
    decreases s.len() - i,
{
    if i < 0 || i >= s.len() {
        s.len() as int
    } else if s[i] == '\n' {
        if n <= 1 {
            i
        } else {
            first_n_lines_end(s, n - 1, i + 1)
        }
    } else {
        first_n_lines_end(s, n, i + 1)
    }
}

pub proof fn lemma_first_n_lines_bounds(s: Seq<char>, n: int, i: int)
    requires
        0 <= i <= s.len(),
    ensures
        i <= first_n_lines_end(s, n, i) <= s.len(),
    decreases s.len() - i,
{
    if i < s.len() {
        if s[i] == '\n' && n <= 1 {
        } else if s[i] == '\n' {
            lemma_first_n_lines_bounds(s, n - 1, i + 1);
        } else {
            lemma_first_n_lines_bounds(s, n, i + 1);
        }
    }
}

/// The position where the last `n` lines start: just past the `n`-th line
/// break from the end, or the start of the text.
pub open spec fn last_n_lines_start(s: Seq<char>, n: int, i: int) -> int
    decreases i,
{
    if i <= 0 || i > s.len() {
        0
    } else if s[i - 1] == '\n' {
        if n <= 1 {
            i
        } else {
            last_n_lines_start(s, n - 1, i - 1)
        }
    } else {
        last_n_lines_start(s, n, i - 1)
    }
}

pub proof fn lemma_last_n_lines_bounds(s: Seq<char>, n: int, i: int)
    requires
        0 <= i <= s.len(),
    ensures
        0 <= last_n_lines_start(s, n, i) <= i,
    decreases i,
{
    if i > 0 {
        if s[i - 1] == '\n' && n <= 1 {
        } else if s[i - 1] == '\n' {
            lemma_last_n_lines_bounds(s, n - 1, i - 1);
        } else {
            lemma_last_n_lines_bounds(s, n, i - 1);
        }
    }
}

/// A context snippet is held to 100 characters, a cut marked with an
/// ellipsis.
pub open spec fn truncated_100(s: Seq<char>) -> Seq<char> {
    if s.len() > 100 {
        s.subrange(0, 100) + ellipsis()
    } else {
        s
    }
}

fn copy_range(v: &Vec<char>, from: usize, to: usize) -> (r: Vec<char>)
    requires
        from <= to <= v@.len(),
    ensures
        r@ == v@.subrange(from as int, to as int),
{
    let mut r: Vec<char> = Vec::new();
    let mut k: usize = from;
    while k < to
        invariant
            from <= k <= to <= v@.len(),
            r@ == v@.subrange(from as int, k as int),
        decreases to - k,
    {
        r.push(v[k]);
        proof {
            assert(r@ =~= v@.subrange(from as int, k + 1 as int));
        }
        k = k + 1;
    }
    r
}

fn truncate_context(v: Vec<char>) -> (r: Vec<char>)
    ensures
        r@ == truncated_100(v@),
{
    if v.len() > 100 {
        let mut r = copy_range(&v, 0, 100);
        r.push('.');
        r.push('.');
        r.push('.');
        proof {
            assert(r@ =~= v@.subrange(0, 100) + ellipsis());
        }
        r
    } else {
        v
    }
}

/// The first `num_lines` logical lines of a text, held to 100 characters:
/// the leading context shown under a selected entry.
#[verifier::loop_isolation(false)]
pub fn get_first_lines(content: &str, num_lines: usize) -> (r: String)
    requires
        num_lines >= 1,
    ensures
        r@ == truncated_100(content@.subrange(0, first_n_lines_end(content@, num_lines as int, 0))),
{
    let v = str_to_chars(content);
    proof {
        lemma_first_n_lines_bounds(v@, num_lines as int, 0);
    }
    let mut i: usize = 0;
    let mut remaining: usize = num_lines;
    while i < v.len() && !(v[i] == '\n' && remaining <= 1)
        invariant
            i <= v@.len(),
            1 <= remaining <= num_lines,
            first_n_lines_end(v@, num_lines as int, 0)
                == first_n_lines_end(v@, remaining as int, i as int),
        decreases v@.len() - i,
    {
        if v[i] == '\n' {
            remaining = remaining - 1;
        }
        i = i + 1;
    }
    let cut = copy_range(&v, 0, i);
    let out = truncate_context(cut);
    chars_to_string(&out)
}

/// The last `num_lines` logical lines of a text, held to 100 characters:
/// the trailing context shown above a selected entry.
#[verifier::loop_isolation(false)]
pub fn get_last_lines(content: &str, num_lines: usize) -> (r: String)
    requires
        num_lines >= 1,
    ensures
        r@ == truncated_100(content@.subrange(
            last_n_lines_start(content@, num_lines as int, content@.len() as int),
            content@.len() as int,
        )),
{
    let v = str_to_chars(content);
    proof {
        lemma_last_n_lines_bounds(v@, num_lines as int, v@.len() as int);
    }
    let n = v.len();
    let mut i: usize = n;
    let mut remaining: usize = num_lines;
    while i > 0 && !(v[i - 1] == '\n' && remaining <= 1)
        invariant
            i <= n,
            n == v@.len(),
            1 <= remaining <= num_lines,
            last_n_lines_start(v@, num_lines as int, n as int)
                == last_n_lines_start(v@, remaining as int, i as int),
        decreases i,
    {
        if v[i - 1] == '\n' {
            remaining = remaining - 1;
        }
        i = i - 1;
    }
    let cut = copy_range(&v, i, n);
    let out = truncate_context(cut);
    chars_to_string(&out)
}

} // verus!
