//! Splitting a file with a TOML front-matter into the TOML document that
//! describes it. The front-matter ends at the first line that holds only
//! `---` (surrounding whitespace aside); everything after that line is the
//! content, which becomes a TOML string under `content_field`, escaped so
//! that TOML reads the content back as it is.
use vstd::prelude::*;

use crate::text::{chars_of, is_unicode_whitespace, is_whitespace, push_all, string_push};

verus! {

/// Marker trait for types that are read from a file with a TOML front-matter.
pub trait HasTomlFMatter<T> {

}

/// `str::trim_start`.
pub open spec fn trim_start(s: Seq<char>) -> Seq<char>
    decreases s.len(),
{
    if s.len() > 0 && is_unicode_whitespace(s[0]) {
        trim_start(s.drop_first())
    } else {
        s
    }
}

/// `str::trim_end`.
pub open spec fn trim_end(s: Seq<char>) -> Seq<char>
    decreases s.len(),
{
    if s.len() > 0 && is_unicode_whitespace(s.last()) {
        trim_end(s.drop_last())
    } else {
        s
    }
}

/// `str::trim`.
pub open spec fn trim(s: Seq<char>) -> Seq<char> {
    trim_end(trim_start(s))
}

pub open spec fn separator() -> Seq<char> {
    seq!['-', '-', '-']
}

/// A line that ends the front-matter: `---`, with optional whitespace around it.
pub open spec fn is_separator_line(line: Seq<char>) -> bool {
    trim(line) == separator()
}

/// A line as `str::lines` yields it: a `\r` right before the `\n` is dropped.
pub open spec fn strip_cr(line: Seq<char>) -> Seq<char> {
    if line.len() > 0 && line.last() == '\r' {
        line.drop_last()
    } else {
        line
    }
}

/// One character of `str::lines`: the finished lines and the line being read.
pub open spec fn lines_step(st: (Seq<Seq<char>>, Seq<char>), c: char) -> (
    Seq<Seq<char>>,
    Seq<char>,
) {
    if c == '\n' {
        (st.0.push(strip_cr(st.1)), Seq::empty())
    } else {
        (st.0, st.1.push(c))
    }
}

/// `str::lines` run over `s` from the state `st`.
pub open spec fn lines_fold(st: (Seq<Seq<char>>, Seq<char>), s: Seq<char>) -> (
    Seq<Seq<char>>,
    Seq<char>,
)
    decreases s.len(),
{
    if s.len() == 0 {
        st
    } else {
        lines_step(lines_fold(st, s.drop_last()), s.last())
    }
}

/// `str::lines`: the text split at each `\n` (or `\r\n`); a final line
/// ending adds no empty line.
pub open spec fn lines(s: Seq<char>) -> Seq<Seq<char>> {
    let st = lines_fold((Seq::empty(), Seq::empty()), s);
    if st.1.len() > 0 {
        st.0.push(st.1)
    } else {
        st.0
    }
}

/// Index of the first separator line, or the number of lines if there is none.
pub open spec fn first_separator(ls: Seq<Seq<char>>) -> int
    decreases ls.len(),
{
    if ls.len() == 0 {
        0
    } else if is_separator_line(ls[0]) {
        0
    } else {
        1 + first_separator(ls.drop_first())
    }
}

/// The front-matter: every line before the first separator line.
pub open spec fn frontmatter_lines(ls: Seq<Seq<char>>) -> Seq<Seq<char>> {
    ls.take(first_separator(ls))
}

/// The content: every line after the first separator line, later `---`
/// lines included; none where there is no separator.
pub open spec fn content_lines(ls: Seq<Seq<char>>) -> Seq<Seq<char>> {
    if first_separator(ls) < ls.len() {
        ls.skip(first_separator(ls) + 1)
    } else {
        Seq::empty()
    }
}

/// `[T]::join`: the pieces with `sep` between each two of them.
pub open spec fn join(ls: Seq<Seq<char>>, sep: Seq<char>) -> Seq<char>
    decreases ls.len(),
{
    if ls.len() == 0 {
        Seq::empty()
    } else if ls.len() == 1 {
        ls[0]
    } else {
        join(ls.drop_last(), sep) + sep + ls.last()
    }
}

pub open spec fn newline() -> Seq<char> {
    seq!['\n']
}

/// The upper-case hexadecimal digits.
pub open spec fn hex_digits() -> Seq<char> {
    seq!['0', '1', '2', '3', '4', '5', '6', '7', '8', '9', 'A', 'B', 'C', 'D', 'E', 'F']
}

/// A character that a TOML basic string must not hold as it is: a control
/// character other than tab, or DEL.
pub open spec fn is_toml_control(c: char) -> bool {
    (c as u32) < 0x20 || (c as u32) == 0x7F
}

/// How one character is written inside a TOML basic string: `\\`, `\"`,
/// `\n` and `\t` for a backslash, a quote, a line feed and a tab, `\u00XX`
/// for another control character, the character itself otherwise.
pub open spec fn toml_escape_char(c: char) -> Seq<char> {
    if c == '\\' {
        seq!['\\', '\\']
    } else if c == '"' {
        seq!['\\', '"']
    } else if c == '\n' {
        seq!['\\', 'n']
    } else if c == '\t' {
        seq!['\\', 't']
    } else if is_toml_control(c) {
        seq![
            '\\',
            'u',
            '0',
            '0',
            hex_digits()[((c as u32) / 16) as int],
            hex_digits()[((c as u32) % 16) as int],
        ]
    } else {
        seq![c]
    }
}

/// The text of a TOML basic string (between its quotes) that reads as `s`.
pub open spec fn toml_escape(s: Seq<char>) -> Seq<char>
    decreases s.len(),
{
    if s.len() == 0 {
        Seq::empty()
    } else {
        toml_escape(s.drop_last()) + toml_escape_char(s.last())
    }
}

/// The TOML document for a file: the front-matter, then
/// `<content_field> = "<content>"` on a line of its own, the content being
/// the content lines joined by line feeds, escaped.
pub open spec fn toml_fmatter_text(input: Seq<char>, content_field: Seq<char>) -> Seq<char> {
    let ls = lines(input);
    join(frontmatter_lines(ls), newline()) + newline() + content_field + seq![' ', '=', ' ', '"']
        + toml_escape(join(content_lines(ls), newline())) + seq!['"']
}

proof fn lemma_first_separator(ls: Seq<Seq<char>>)
    ensures
        0 <= first_separator(ls) <= ls.len(),
        forall|j: int| 0 <= j < first_separator(ls) ==> !is_separator_line(#[trigger] ls[j]),
        first_separator(ls) < ls.len() ==> is_separator_line(ls[first_separator(ls)]),
    decreases ls.len(),
{
    if ls.len() > 0 && !is_separator_line(ls[0]) {
        lemma_first_separator(ls.drop_first());
        assert forall|j: int| 0 <= j < first_separator(ls) implies !is_separator_line(
            #[trigger] ls[j],
        ) by {
            if j > 0 {
                assert(ls[j] == ls.drop_first()[j - 1]);
            }
        }
    }
}

/// Whether `line` holds only `---`, whitespace around it aside.
pub fn is_separator(line: &Vec<char>) -> (b: bool)
    ensures
        b == is_separator_line(line@),
{
    let n = line.len();
    let mut i: usize = 0;
    proof {
        assert(line@.skip(0) =~= line@);
    }
    loop
        invariant
            0 <= i <= n,
            n == line@.len(),
            trim_start(line@) == trim_start(line@.skip(i as int)),
        ensures
            trim_start(line@) == line@.skip(i as int),
        decreases n - i,
    {
        if i == n {
            break ;
        }
        if !is_whitespace(line[i]) {
            break ;
        }
        proof {
            assert(line@.skip(i as int).drop_first() =~= line@.skip(i + 1));
        }
        i = i + 1;
    }
    let mut j: usize = n;
    loop
        invariant
            i <= j <= n,
            n == line@.len(),
            trim_end(line@.skip(i as int)) == trim_end(line@.subrange(i as int, j as int)),
        ensures
            trim_end(line@.skip(i as int)) == line@.subrange(i as int, j as int),
        decreases j - i,
    {
        if j == i {
            break ;
        }
        if !is_whitespace(line[j - 1]) {
            break ;
        }
        proof {
            assert(line@.subrange(i as int, j as int).drop_last() =~= line@.subrange(
                i as int,
                j - 1,
            ));
        }
        j = j - 1;
    }
    proof {
        assert(line@.skip(i as int) =~= line@.subrange(i as int, n as int));
    }
    let r = j - i == 3 && line[i] == '-' && line[i + 1] == '-' && line[i + 2] == '-';
    proof {
        let t = line@.subrange(i as int, j as int);
        assert(trim(line@) == t);
        if r {
            assert(t =~= separator());
        }
        if t == separator() {
            assert(t[0] == line@[i as int]);
            assert(t[1] == line@[i + 1]);
            assert(t[2] == line@[i + 2]);
        }
    }
    r
}

/// The lines of `s`, as `str::lines` gives them.
pub fn split_lines(s: &Vec<char>) -> (ls: Vec<Vec<char>>)
    ensures
        ls.deep_view() == lines(s@),
{
    let mut done: Vec<Vec<char>> = Vec::new();
    let mut cur: Vec<char> = Vec::new();
    let n = s.len();
    for i in 0..n
        invariant
            n == s@.len(),
            (done.deep_view(), cur@) == lines_fold((Seq::empty(), Seq::empty()), s@.take(i as int)),
    {
        let c = s[i];
        proof {
            assert(s@.take(i + 1).drop_last() =~= s@.take(i as int));
        }
        let ghost before = done.deep_view();
        if c == '\n' {
            let ghost line = cur@;
            let m = cur.len();
            if m > 0 && cur[m - 1] == '\r' {
                cur.pop();
            }
            assert(cur@ == strip_cr(line));
            assert(cur.deep_view() =~= cur@);
            done.push(cur);
            cur = Vec::new();
            proof {
                assert(done.deep_view() =~= before.push(
                    strip_cr(lines_fold((Seq::empty(), Seq::empty()), s@.take(i as int)).1),
                ));
            }
        } else {
            cur.push(c);
            proof {
                assert(done.deep_view() =~= before);
            }
        }
    }
    proof {
        assert(s@.take(n as int) =~= s@);
    }
    if cur.len() > 0 {
        let ghost before = done.deep_view();
        let ghost last = cur@;
        assert(cur.deep_view() =~= cur@);
        done.push(cur);
        proof {
            assert(done.deep_view() =~= before.push(last));
        }
    }
    done
}

/// Splits the lines into the front-matter and the content.
pub fn split_frontmatter(ls: &Vec<Vec<char>>) -> (parts: (Vec<Vec<char>>, Vec<Vec<char>>))
    ensures
        parts.0.deep_view() == frontmatter_lines(ls.deep_view()),
        parts.1.deep_view() == content_lines(ls.deep_view()),
{
    let ghost all = ls.deep_view();
    let ghost k = first_separator(all);
    proof {
        lemma_first_separator(all);
    }
    let mut meta: Vec<Vec<char>> = Vec::new();
    let mut content: Vec<Vec<char>> = Vec::new();
    let mut done = false;
    let n = ls.len();
    for i in 0..n
        invariant
            n == all.len(),
            all == ls.deep_view(),
            k == first_separator(all),
            0 <= k <= all.len(),
            forall|j: int| 0 <= j < k ==> !is_separator_line(#[trigger] all[j]),
            k < all.len() ==> is_separator_line(all[k]),
            !done ==> i <= k && meta.deep_view() == all.take(i as int) && content@.len() == 0,
            done ==> k < i && meta.deep_view() == all.take(k) && content.deep_view()
                == all.subrange(k + 1, i as int),
    {
        let line = &ls[i];
        assert(all[i as int] == line@);
        if done {
            let ghost before = content.deep_view();
            content.push(line.clone());
            assert(content.deep_view() =~= all.subrange(k + 1, i + 1));
        } else if is_separator(line) {
            assert(i == k);
            assert(content.deep_view() =~= all.subrange(k + 1, i + 1));
            done = true;
        } else {
            meta.push(line.clone());
            assert(i < k);
            assert(meta.deep_view() =~= all.take(i + 1));
        }
    }
    if !done {
        assert(k == n);
        assert(content.deep_view() =~= Seq::empty());
    } else {
        assert(all.subrange(k + 1, n as int) =~= all.skip(k + 1));
    }
    (meta, content)
}

/// Appends how `c` is written inside a TOML basic string to `out`.
fn push_toml_escaped_char(out: &mut String, c: char)
    ensures
        final(out)@ == old(out)@ + toml_escape_char(c),
{
    let u = c as u32;
    if c == '\\' {
        string_push(out, '\\');
        string_push(out, '\\');
    } else if c == '"' {
        string_push(out, '\\');
        string_push(out, '"');
    } else if c == '\n' {
        string_push(out, '\\');
        string_push(out, 'n');
    } else if c == '\t' {
        string_push(out, '\\');
        string_push(out, 't');
    } else if u < 0x20 || u == 0x7F {
        let digits = vec!['0', '1', '2', '3', '4', '5', '6', '7', '8', '9', 'A', 'B', 'C', 'D', 'E', 'F'];
        assert(digits@ == hex_digits());
        string_push(out, '\\');
        string_push(out, 'u');
        string_push(out, '0');
        string_push(out, '0');
        string_push(out, digits[(u / 16) as usize]);
        string_push(out, digits[(u % 16) as usize]);
    } else {
        string_push(out, c);
    }
    proof {
        assert(final(out)@ =~= old(out)@ + toml_escape_char(c));
    }
}

/// Appends `chars` written inside a TOML basic string to `out`.
pub fn push_toml_escaped(out: &mut String, chars: &Vec<char>)
    ensures
        final(out)@ == old(out)@ + toml_escape(chars@),
{
    let n = chars.len();
    for i in 0..n
        invariant
            n == chars@.len(),
            out@ == old(out)@ + toml_escape(chars@.take(i as int)),
    {
        push_toml_escaped_char(out, chars[i]);
        proof {
            assert(chars@.take(i + 1).drop_last() =~= chars@.take(i as int));
        }
    }
    proof {
        assert(chars@.take(n as int) =~= chars@);
    }
}

/// Appends `ls` joined by newlines to `out`.
pub fn push_joined(out: &mut String, ls: &Vec<Vec<char>>)
    ensures
        final(out)@ == old(out)@ + join(ls.deep_view(), newline()),
{
    let n = ls.len();
    let ghost all = ls.deep_view();
    for i in 0..n
        invariant
            n == all.len(),
            all == ls.deep_view(),
            out@ == old(out)@ + join(all.take(i as int), newline()),
    {
        let ghost prev = out@;
        if i > 0 {
            string_push(out, '\n');
        }
        push_all(out, &ls[i]);
        proof {
            let t = all.take(i + 1);
            assert(t.drop_last() =~= all.take(i as int));
            assert(ls[i as int]@ == all[i as int]);
            if i == 0 {
                assert(all.take(0) =~= Seq::empty());
            }
        }
    }
    proof {
        assert(all.take(n as int) =~= all);
    }
}

/// The TOML document for a file with a TOML front-matter: the front-matter,
/// followed by the content under `content_field` as an escaped TOML string.
pub fn toml_fmatter_source(input: &str, content_field: &str) -> (doc: String)
    ensures
        doc@ == toml_fmatter_text(input@, content_field@),
{
    let chars = chars_of(input);
    let ls = split_lines(&chars);
    let (meta, content) = split_frontmatter(&ls);
    let mut doc = String::new();
    push_joined(&mut doc, &meta);
    string_push(&mut doc, '\n');
    let field = chars_of(content_field);
    push_all(&mut doc, &field);
    string_push(&mut doc, ' ');
    string_push(&mut doc, '=');
    string_push(&mut doc, ' ');
    string_push(&mut doc, '"');
    let mut text = String::new();
    push_joined(&mut text, &content);
    let text_chars = chars_of(text.as_str());
    push_toml_escaped(&mut doc, &text_chars);
    string_push(&mut doc, '"');
    proof {
        assert(doc@ =~= toml_fmatter_text(input@, content_field@));
    }
    doc
}


/// A line that can be written as one line of a front-matter file: it holds
/// no line break, does not end in `\r`, and is no separator line.
pub open spec fn is_plain_line(l: Seq<char>) -> bool {
    &&& !l.contains('\n')
    &&& !(l.len() > 0 && l.last() == '\r')
    &&& !is_separator_line(l)
}

proof fn lemma_lines_fold_append(st: (Seq<Seq<char>>, Seq<char>), a: Seq<char>, b: Seq<char>)
    ensures
        lines_fold(st, a + b) == lines_fold(lines_fold(st, a), b),
    decreases b.len(),
{
    if b.len() == 0 {
        assert(a + b =~= a);
    } else {
        assert((a + b).drop_last() =~= a + b.drop_last());
        lemma_lines_fold_append(st, a, b.drop_last());
    }
}

proof fn lemma_lines_fold_plain(st: (Seq<Seq<char>>, Seq<char>), l: Seq<char>)
    requires
        !l.contains('\n'),
    ensures
        lines_fold(st, l) == (st.0, st.1 + l),
    decreases l.len(),
{
    if l.len() == 0 {
        assert(st.1 + l =~= st.1);
    } else {
        assert(!l.drop_last().contains('\n')) by {
            if l.drop_last().contains('\n') {
                let j = choose|j: int| 0 <= j < l.drop_last().len() && l.drop_last()[j] == '\n';
                assert(l[j] == '\n');
            }
        }
        assert(l[l.len() - 1] != '\n');
        lemma_lines_fold_plain(st, l.drop_last());
        assert(st.1 + l.drop_last().push(l.last()) =~= st.1 + l);
    }
}

/// Reading the lines joined by newlines gives them back, the last one still
/// being read.
proof fn lemma_lines_fold_join(d: Seq<Seq<char>>, ls: Seq<Seq<char>>)
    requires
        ls.len() > 0,
        forall|i: int| 0 <= i < ls.len() ==> !(#[trigger] ls[i]).contains('\n') && !(ls[i].len()
            > 0 && ls[i].last() == '\r'),
    ensures
        lines_fold((d, Seq::empty()), join(ls, newline())) == (d + ls.drop_last(), ls.last()),
    decreases ls.len(),
{
    if ls.len() == 1 {
        lemma_lines_fold_plain((d, Seq::empty()), ls[0]);
        assert(Seq::<char>::empty() + ls[0] =~= ls[0]);
        assert(d + ls.drop_last() =~= d);
    } else {
        let init = ls.drop_last();
        assert forall|i: int| 0 <= i < init.len() implies !(#[trigger] init[i]).contains('\n')
            && !(init[i].len() > 0 && init[i].last() == '\r') by {
            assert(init[i] == ls[i]);
        }
        lemma_lines_fold_join(d, init);
        let st0 = lines_fold((d, Seq::empty()), join(init, newline()));
        lemma_lines_fold_append((d, Seq::empty()), join(init, newline()), newline());
        assert(newline().drop_last() =~= Seq::<char>::empty());
        let st1 = lines_fold((d, Seq::empty()), join(init, newline()) + newline());
        assert(init.last() == ls[ls.len() - 2]);
        assert(init.last() == init[init.len() - 1]);
        assert(strip_cr(init.last()) == init.last());
        assert(newline().last() == '\n');
        assert(lines_fold(st0, Seq::empty()) == st0);
        assert(lines_fold(st0, newline()) == lines_step(st0, '\n'));
        assert(st1.0 =~= d + init);
        assert(st1.1 =~= Seq::<char>::empty());
        lemma_lines_fold_append(
            (d, Seq::empty()),
            join(init, newline()) + newline(),
            ls.last(),
        );
        lemma_lines_fold_plain(st1, ls.last());
        assert(Seq::<char>::empty() + ls.last() =~= ls.last());
    }
}

proof fn lemma_first_separator_at(ls: Seq<Seq<char>>, m: int)
    requires
        0 <= m < ls.len(),
        forall|j: int| 0 <= j < m ==> !is_separator_line(#[trigger] ls[j]),
        is_separator_line(ls[m]),
    ensures
        first_separator(ls) == m,
{
    lemma_first_separator(ls);
    let k = first_separator(ls);
    if k < m {
        assert(!is_separator_line(ls[k]));
    }
    if k > m {
        assert(!is_separator_line(ls[m]));
    }
}

/// A line as a file holds it: no line break, and no `\r` at its end.
pub open spec fn is_file_line(l: Seq<char>) -> bool {
    &&& !l.contains('\n')
    &&& !(l.len() > 0 && l.last() == '\r')
}

/// A file made of front-matter lines, a `---` line and content lines gives
/// the TOML document with exactly that front-matter and that content: the
/// content is everything after the separator line, later `---` lines
/// included, escaped as a TOML string.
pub proof fn law_frontmatter_content_split(
    meta: Seq<Seq<char>>,
    content: Seq<Seq<char>>,
    content_field: Seq<char>,
)
    requires
        forall|i: int| 0 <= i < meta.len() ==> is_plain_line(#[trigger] meta[i]),
        forall|i: int| 0 <= i < content.len() ==> is_file_line(#[trigger] content[i]),
        content.len() == 0 || content.last().len() > 0,
    ensures
        toml_fmatter_text(
            join(meta, newline()) + newline() + separator() + newline() + join(
                content,
                newline(),
            ),
            content_field,
        ) == join(meta, newline()) + newline() + content_field + seq![' ', '=', ' ', '"']
            + toml_escape(join(content, newline())) + seq!['"'],
{
    let empty_line: Seq<char> = Seq::empty();
    let m2 = if meta.len() == 0 {
        seq![empty_line]
    } else {
        meta
    };
    assert(join(m2, newline()) == join(meta, newline()));
    assert(!is_separator_line(empty_line)) by {
        assert(trim(empty_line) =~= empty_line);
        assert(empty_line.len() != separator().len());
    }
    assert(!empty_line.contains('\n'));
    assert(is_separator_line(separator())) by {
        assert(!is_unicode_whitespace('-'));
        assert(trim_start(separator()) == separator());
        assert(trim_end(separator()) == separator());
    }
    assert(!separator().contains('\n')) by {
        if separator().contains('\n') {
            let j = choose|j: int| 0 <= j < separator().len() && separator()[j] == '\n';
            assert(separator()[j] == '-');
        }
    }
    let head = m2.push(separator());
    assert forall|i: int| 0 <= i < head.len() implies !(#[trigger] head[i]).contains('\n') && !(
    head[i].len() > 0 && head[i].last() == '\r') by {
        if i < m2.len() {
            assert(head[i] == m2[i]);
        }
    }
    assert(join(head, newline()) == join(m2, newline()) + newline() + separator()) by {
        assert(head.drop_last() =~= m2);
    }
    let input = join(meta, newline()) + newline() + separator() + newline() + join(
        content,
        newline(),
    );
    let all = if content.len() == 0 {
        head
    } else {
        head + content
    };
    assert(lines(input) == all) by {
        if content.len() == 0 {
            assert(input =~= join(head, newline()) + newline());
            lemma_lines_fold_join(Seq::empty(), head);
            lemma_lines_fold_append((Seq::empty(), Seq::empty()), join(head, newline()), newline());
            assert(newline().drop_last() =~= Seq::<char>::empty());
            let st0 = lines_fold((Seq::empty(), Seq::empty()), join(head, newline()));
            assert(st0 == (Seq::<Seq<char>>::empty() + head.drop_last(), head.last()));
            assert(head.last() == separator());
            assert(strip_cr(separator()) == separator());
            assert(newline().last() == '\n');
            assert(lines_fold(st0, Seq::empty()) == st0);
            assert(lines_fold(st0, newline()) == lines_step(st0, '\n'));
            let st1 = lines_fold((Seq::empty(), Seq::empty()), input);
            assert(st1.0 =~= head);
            assert(st1.1 =~= Seq::<char>::empty());
        } else {
            assert forall|i: int| 0 <= i < all.len() implies !(#[trigger] all[i]).contains('\n')
                && !(all[i].len() > 0 && all[i].last() == '\r') by {
                if i < head.len() {
                    assert(all[i] == head[i]);
                } else {
                    assert(all[i] == content[i - head.len()]);
                }
            }
            lemma_join_append(head, content);
            assert(input =~= join(all, newline()));
            lemma_lines_fold_join(Seq::empty(), all);
            assert(Seq::<Seq<char>>::empty() + all.drop_last() =~= all.drop_last());
            assert(all.last() == content.last());
            assert(all.drop_last().push(all.last()) =~= all);
        }
    }
    let m = m2.len() as int;
    assert forall|j: int| 0 <= j < m implies !is_separator_line(#[trigger] all[j]) by {
        assert(all[j] == m2[j]);
    }
    assert(all[m] == separator());
    lemma_first_separator_at(all, m);
    assert(frontmatter_lines(all) =~= m2);
    assert(content_lines(all) =~= content);
}

proof fn lemma_join_append(a: Seq<Seq<char>>, b: Seq<Seq<char>>)
    requires
        a.len() > 0,
        b.len() > 0,
    ensures
        join(a + b, newline()) == join(a, newline()) + newline() + join(b, newline()),
    decreases b.len(),
{
    if b.len() == 1 {
        assert((a + b).drop_last() =~= a);
    } else {
        assert((a + b).drop_last() =~= a + b.drop_last());
        lemma_join_append(a, b.drop_last());
    }
}

/// A file without a separator line is all front-matter: its content is empty.
pub proof fn law_frontmatter_without_separator(input: Seq<char>)
    requires
        forall|i: int| 0 <= i < lines(input).len() ==> !is_separator_line(#[trigger] lines(input)[i]),
    ensures
        frontmatter_lines(lines(input)) == lines(input),
        content_lines(lines(input)).len() == 0,
{
    let ls = lines(input);
    lemma_first_separator(ls);
    assert(first_separator(ls) == ls.len());
    assert(ls.take(ls.len() as int) =~= ls);
}

/// The value of a hexadecimal digit.
pub open spec fn hex_value(c: char) -> int {
    if '0' <= c && c <= '9' {
        c as int - '0' as int
    } else if 'A' <= c && c <= 'F' {
        c as int - 'A' as int + 10
    } else if 'a' <= c && c <= 'f' {
        c as int - 'a' as int + 10
    } else {
        0
    }
}

/// A hexadecimal digit.
pub open spec fn is_hex_digit(c: char) -> bool {
    ('0' <= c && c <= '9') || ('A' <= c && c <= 'F') || ('a' <= c && c <= 'f')
}

/// The character that TOML reads for the escape `\\e` (`e` not `u`): only
/// `\\b`, `\\t`, `\\n`, `\\f`, `\\r`, `\\"` and `\\\\` are escapes; any other is
/// an error.
pub open spec fn toml_escaped(e: char) -> Option<char> {
    if e == 'n' {
        Some('\n')
    } else if e == 't' {
        Some('\t')
    } else if e == 'r' {
        Some('\r')
    } else if e == 'b' {
        Some('\u{8}')
    } else if e == 'f' {
        Some('\u{c}')
    } else if e == '"' || e == '\\' {
        Some(e)
    } else {
        None
    }
}

/// The text `c` followed by what `rest` reads as, where `rest` reads.
pub open spec fn prepend_read(c: char, rest: Option<Seq<char>>) -> Option<Seq<char>> {
    match rest {
        Some(r) => Some(seq![c] + r),
        None => None,
    }
}

/// How TOML reads the text of a basic string, or none where TOML rejects
/// it: `\\` starts an escape, either `\\uXXXX` (four hexadecimal digits, no
/// surrogate) or one of `\\b`, `\\t`, `\\n`, `\\f`, `\\r`, `\\"`, `\\\\`; a quote,
/// DEL or a control character other than tab must be escaped; any other
/// character stands for itself.
pub open spec fn toml_unescape(t: Seq<char>) -> Option<Seq<char>>
    decreases t.len(),
{
    if t.len() == 0 {
        Some(Seq::empty())
    } else if t[0] == '\\' {
        if t.len() >= 6 && t[1] == 'u' {
            let v = hex_value(t[2]) * 4096 + hex_value(t[3]) * 256 + hex_value(t[4]) * 16
                + hex_value(t[5]);
            if is_hex_digit(t[2]) && is_hex_digit(t[3]) && is_hex_digit(t[4]) && is_hex_digit(
                t[5],
            ) && !(0xD800 <= v && v <= 0xDFFF) {
                prepend_read(v as char, toml_unescape(t.skip(6)))
            } else {
                None
            }
        } else if t.len() >= 2 {
            match toml_escaped(t[1]) {
                Some(c) => prepend_read(c, toml_unescape(t.skip(2))),
                None => None,
            }
        } else {
            None
        }
    } else if t[0] == '"' || ((t[0] as u32) < 0x20 && t[0] != '\t') || (t[0] as u32) == 0x7F {
        None
    } else {
        prepend_read(t[0], toml_unescape(t.skip(1)))
    }
}

proof fn lemma_toml_escape_prepend(c: char, s: Seq<char>)
    ensures
        toml_escape(seq![c] + s) == toml_escape_char(c) + toml_escape(s),
    decreases s.len(),
{
    let cs = seq![c] + s;
    if s.len() == 0 {
        assert(cs.drop_last() =~= Seq::<char>::empty());
        assert(cs.last() == c);
        assert(toml_escape(Seq::<char>::empty()) == Seq::<char>::empty());
        assert(toml_escape(cs) == toml_escape(cs.drop_last()) + toml_escape_char(cs.last()));
        assert(toml_escape(cs) =~= toml_escape_char(c));
        assert(toml_escape_char(c) + toml_escape(s) =~= toml_escape_char(c));
    } else {
        assert(cs.drop_last() =~= seq![c] + s.drop_last());
        assert(cs.last() == s.last());
        lemma_toml_escape_prepend(c, s.drop_last());
        assert(toml_escape(cs) == toml_escape(cs.drop_last()) + toml_escape_char(cs.last()));
        assert(toml_escape(s) == toml_escape(s.drop_last()) + toml_escape_char(s.last()));
        assert(toml_escape(cs) =~= toml_escape_char(c) + toml_escape(s));
    }
}

proof fn lemma_hex_digit_value(d: int)
    requires
        0 <= d < 16,
    ensures
        hex_value(hex_digits()[d]) == d,
        is_hex_digit(hex_digits()[d]),
{
}

proof fn lemma_unescape_char(c: char, rest: Seq<char>)
    ensures
        toml_unescape(toml_escape_char(c) + rest) == prepend_read(c, toml_unescape(rest)),
{
    let t = toml_escape_char(c) + rest;
    if c == '\\' || c == '"' || c == '\n' || c == '\t' {
        assert(t.skip(2) =~= rest);
    } else if is_toml_control(c) {
        let u = c as u32;
        lemma_hex_digit_value((u / 16) as int);
        lemma_hex_digit_value((u % 16) as int);
        assert(t.skip(6) =~= rest);
        assert(hex_value('0') == 0);
        assert(is_hex_digit('0'));
        assert((hex_value(t[2]) * 4096 + hex_value(t[3]) * 256 + hex_value(t[4]) * 16 + hex_value(
            t[5],
        )) == u as int);
    } else {
        assert(t.skip(1) =~= rest);
    }
}

/// TOML accepts the escaped text and reads it back as it was: what the
/// document holds under the content field is exactly the content.
pub proof fn law_toml_escape_reads_back(s: Seq<char>)
    ensures
        toml_unescape(toml_escape(s)) == Some(s),
    decreases s.len(),
{
    if s.len() > 0 {
        let rest = s.drop_first();
        assert(seq![s[0]] + rest =~= s);
        lemma_toml_escape_prepend(s[0], rest);
        lemma_unescape_char(s[0], toml_escape(rest));
        law_toml_escape_reads_back(rest);
    }
}

/// A printable character other than a quote or a backslash is written into
/// the TOML string as itself: only what TOML requires to be escaped is.
pub proof fn law_toml_escape_keeps_plain_chars(c: char)
    requires
        c != '\\',
        c != '"',
        (c as u32) >= 0x20,
        (c as u32) != 0x7F,
    ensures
        toml_escape_char(c) == seq![c],
{
}

} // verus!
