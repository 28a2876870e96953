//! What the area component reads from its template (`(a-a-b|a-c-b)`: rows
//! split by `|`, cells by `-`) and from its row and column tokens.
use vstd::prelude::*;

use crate::classes::{first_colon, is_first_colon};
use crate::media_query::{decimal, push_decimal};
use crate::text::{alphabetic, chars_of, has_prefix, is_alphabetic, opt_str, starts_with};

verus! {

/// How many times `c` occurs in `s`.
pub open spec fn count_char(s: Seq<char>, c: char) -> nat
    decreases s.len(),
{
    if s.len() == 0 {
        0
    } else {
        count_char(s.drop_last(), c) + if s.last() == c {
            1nat
        } else {
            0nat
        }
    }
}

/// The part of `s` before its first `|`, or all of `s`.
pub open spec fn first_row(s: Seq<char>) -> Seq<char> {
    if s.contains('|') {
        s.take(choose|i: int| 0 <= i < s.len() && s[i] == '|' && !s.take(i).contains('|'))
    } else {
        s
    }
}

/// The rows and the columns of a template: one row more than it has `|`,
/// one column more than its first row has `-`.
pub fn count_rows_and_cols(text: &str) -> (r: (usize, usize))
    requires
        text@.len() < usize::MAX,
    ensures
        r.0 == count_char(text@, '|') + 1,
        r.1 == count_char(first_row(text@), '-') + 1,
{
    let chars = chars_of(text);
    let n = chars.len();
    let mut bars: usize = 0;
    let mut dashes: usize = 0;
    let mut seen: bool = false;
    let ghost mut row: Seq<char> = text@;
    let mut i: usize = 0;
    assert(text@.take(0) =~= Seq::<char>::empty());
    while i < n
        invariant
            chars@ == text@,
            n == chars.len(),
            n < usize::MAX,
            i <= n,
            bars == count_char(text@.take(i as int), '|'),
            bars <= i,
            dashes <= i,
            seen == text@.take(i as int).contains('|'),
            !seen ==> dashes == count_char(text@.take(i as int), '-'),
            seen ==> dashes == count_char(first_row(text@), '-'),
        decreases n - i,
    {
        let c = chars[i];
        let ghost prefix = text@.take(i as int);
        assert(text@.take(i + 1).drop_last() =~= prefix);
        assert(text@.take(i + 1).last() == c);
        if c == '|' {
            proof {
                if !seen {
                    assert(text@[i as int] == '|');
                    assert(text@.contains('|'));
                    let k = choose|k: int|
                        0 <= k < text@.len() && text@[k] == '|' && !text@.take(k).contains('|');
                    if k < i {
                        assert(prefix[k] == '|');
                    }
                    if k > i {
                        assert(text@.take(k)[i as int] == '|');
                    }
                    assert(first_row(text@) == prefix);
                }
            }
            bars = bars + 1;
            seen = true;
            assert(text@.take(i + 1)[i as int] == '|');
        } else {
            if c == '-' && !seen {
                dashes = dashes + 1;
            }
            proof {
                if seen {
                    let k = choose|k: int| 0 <= k < prefix.len() && prefix[k] == '|';
                    assert(text@.take(i + 1)[k] == '|');
                } else {
                    let next = text@.take(i + 1);
                    assert forall|k: int| 0 <= k < i + 1 implies #[trigger] next[k] != '|' by {
                        if k < i {
                            assert(next[k] == prefix[k]);
                        }
                    }
                }
            }
        }
        i = i + 1;
    }
    if !seen {
        assert(text@.take(n as int) =~= text@);
    }
    assert(text@.take(n as int) =~= text@);
    (bars + 1, dashes + 1)
}

/// Whether `s` is in strictly increasing order.
pub open spec fn strictly_increasing(s: Seq<char>) -> bool {
    forall|i: int, j: int| 0 <= i < j < s.len() ==> s[i] < s[j]
}

/// Puts `c` in its place in the increasing `out`, unless it is there.
fn insert_sorted(out: &mut Vec<char>, c: char)
    requires
        strictly_increasing(old(out)@),
    ensures
        strictly_increasing(final(out)@),
        forall|x: char| #[trigger] final(out)@.contains(x) <==> (old(out)@.contains(x) || x == c),
{
    let mut p: usize = 0;
    while p < out.len() && out[p] < c
        invariant
            out@ == old(out)@,
            p <= out.len(),
            forall|k: int| 0 <= k < p ==> out@[k] < c,
        decreases out.len() - p,
    {
        p = p + 1;
    }
    if p < out.len() && out[p] == c {
        assert(out@[p as int] == c);
        assert forall|x: char| #[trigger] out@.contains(x) <==> (old(out)@.contains(x) || x == c) by {
            if x == c {
                assert(out@[p as int] == x);
            }
        }
        return;
    }
    let ghost before = out@;
    out.insert(p, c);
    assert(out@ =~= before.insert(p as int, c));
    assert(p < before.len() ==> c < before[p as int]);
    assert forall|a: int, b: int| 0 <= a < b < out@.len() implies out@[a] < out@[b] by {
        if b < p {
            assert(out@[a] == before[a] && out@[b] == before[b]);
        } else if b == p {
            assert(out@[a] == before[a]);
        } else if a < p {
            assert(out@[a] == before[a] && out@[b] == before[b - 1]);
            assert(before[a] < c);
            if b - 1 > p {
                assert(before[p as int] < before[b - 1]);
            }
        } else if a == p {
            assert(out@[b] == before[b - 1]);
            if b - 1 > p {
                assert(before[p as int] < before[b - 1]);
            }
        } else {
            assert(out@[a] == before[a - 1] && out@[b] == before[b - 1]);
        }
    }
    assert forall|x: char| #[trigger] out@.contains(x) <==> (before.contains(x) || x == c) by {
        if out@.contains(x) {
            let k = choose|k: int| 0 <= k < out@.len() && out@[k] == x;
            if k < p {
                assert(before[k] == x);
            } else if k > p {
                assert(before[k - 1] == x);
            }
        }
        if before.contains(x) {
            let k = choose|k: int| 0 <= k < before.len() && before[k] == x;
            if k < p {
                assert(out@[k] == x);
            } else {
                assert(out@[k + 1] == x);
            }
        }
        if x == c {
            assert(out@[p as int] == c);
        }
    }
}

/// The letters of a template, each once, in increasing order: the names of
/// its areas.
pub fn unique_letters(input: &str) -> (r: Vec<char>)
    ensures
        strictly_increasing(r@),
        forall|c: char| #[trigger] r@.contains(c) <==> (input@.contains(c) && alphabetic(c)),
{
    let chars = chars_of(input);
    let n = chars.len();
    let mut out: Vec<char> = Vec::new();
    let mut i: usize = 0;
    while i < n
        invariant
            chars@ == input@,
            n == chars.len(),
            i <= n,
            strictly_increasing(out@),
            forall|x: char|
                #[trigger] out@.contains(x) <==> (input@.take(i as int).contains(x) && alphabetic(x)),
        decreases n - i,
    {
        let c = chars[i];
        let ghost prefix = input@.take(i as int);
        let ghost next = input@.take(i + 1);
        assert(next =~= prefix.push(c));
        let ghost old_out = out@;
        let letter = is_alphabetic(c);
        if letter {
            insert_sorted(&mut out, c);
        }
        assert forall|x: char| out@.contains(x) <==> (next.contains(x) && alphabetic(x)) by {
            assert(old_out.contains(x) <==> (prefix.contains(x) && alphabetic(x)));
            if letter {
                assert(out@.contains(x) <==> (old_out.contains(x) || x == c));
            } else {
                assert(out@ == old_out);
            }
            if next.contains(x) {
                let k = choose|k: int| 0 <= k < i + 1 && #[trigger] next[k] == x;
                if k < i {
                    assert(prefix[k] == x);
                }
            }
            if prefix.contains(x) {
                let k = choose|k: int| 0 <= k < i && #[trigger] prefix[k] == x;
                assert(next[k] == x);
            }
            assert(next[i as int] == c);
        }
        i = i + 1;
    }
    assert(input@.take(n as int) =~= input@);
    out
}

/// Texts one after the other with `sep` between each two.
pub open spec fn joined_with(sep: Seq<char>, parts: Seq<Seq<char>>) -> Seq<char>
    decreases parts.len(),
{
    if parts.len() == 0 {
        Seq::empty()
    } else if parts.len() == 1 {
        parts[0]
    } else {
        joined_with(sep, parts.drop_last()) + sep + parts.last()
    }
}

/// Appends `part` to the text of `parts` joined by `sep`.
fn push_part(out: &mut String, sep: &str, part: &str, first: bool, Ghost(parts): Ghost<Seq<Seq<char>>>)
    requires
        old(out)@ == joined_with(sep@, parts),
        first == (parts.len() == 0),
    ensures
        final(out)@ == joined_with(sep@, parts.push(part@)),
{
    assert(parts.push(part@).drop_last() =~= parts);
    if !first {
        out.append(sep);
    } else {
        assert(old(out)@ =~= Seq::<char>::empty());
    }
    out.append(part);
}

/// The attribute selector that matches each of the row or column tokens.
pub open spec fn tokens_selector(items: Seq<Seq<char>>) -> Seq<char>
    decreases items.len(),
{
    if items.len() == 0 {
        Seq::empty()
    } else {
        tokens_selector(items.drop_last()) + "[layout~=\""@ + items.last() + "\"]"@
    }
}

/// The attribute selector that matches each of the row or column tokens.
pub fn grid_template_rows_or_cols_selector(items: &Vec<&str>) -> (r: String)
    ensures
        r@ == tokens_selector(items@.map_values(|t: &str| t@)),
{
    let ghost views = items@.map_values(|t: &str| t@);
    let mut out = String::new();
    let mut i: usize = 0;
    assert(views.take(0) =~= Seq::<Seq<char>>::empty());
    while i < items.len()
        invariant
            views == items@.map_values(|t: &str| t@),
            i <= items.len(),
            out@ == tokens_selector(views.take(i as int)),
        decreases items.len() - i,
    {
        assert(views.take(i + 1).drop_last() =~= views.take(i as int));
        out.append("[layout~=\"");
        out.append(items[i]);
        out.append("\"]");
        i = i + 1;
    }
    assert(views.take(items.len() as int) =~= views);
    out
}

/// The first of `items` that begins with `p`.
pub open spec fn first_with_prefix(items: Seq<Seq<char>>, p: Seq<char>) -> Option<Seq<char>>
    decreases items.len(),
{
    if items.len() == 0 {
        None
    } else if has_prefix(items[0], p) {
        Some(items[0])
    } else {
        first_with_prefix(items.drop_first(), p)
    }
}

/// The second `:`-separated field of a token, where it has one.
pub open spec fn second_field(t: Seq<char>) -> Option<Seq<char>> {
    match first_colon(t) {
        Some(k) => {
            let rest = t.skip(k + 1);
            Some(
                match first_colon(rest) {
                    Some(j) => rest.take(j),
                    None => rest,
                },
            )
        },
        None => None,
    }
}

/// The size of track `i`: the value of the first token that begins with the
/// prefix and `i`, or `1fr` where none does; nothing where that token has no
/// value.
pub open spec fn track_size(items: Seq<Seq<char>>, prefix: Seq<char>, i: nat) -> Option<Seq<char>> {
    match first_with_prefix(items, prefix + decimal(i)) {
        Some(t) => second_field(t),
        None => Some("1fr"@),
    }
}

/// The sizes of tracks 1 to `n`.
pub open spec fn track_sizes(items: Seq<Seq<char>>, prefix: Seq<char>, n: nat) -> Seq<Seq<char>>
    decreases n,
{
    if n == 0 {
        Seq::empty()
    } else {
        let s = track_sizes(items, prefix, (n - 1) as nat);
        match track_size(items, prefix, n) {
            Some(v) => s.push(v),
            None => s,
        }
    }
}

/// The position of the first colon of `s`, if it has one.
fn colon_position(s: &str) -> (r: Option<usize>)
    ensures
        r matches Some(k) ==> first_colon(s@) == Some(k as int) && k < s@.len(),
        r is None ==> first_colon(s@) is None,
{
    let chars = chars_of(s);
    let mut i: usize = 0;
    while i < chars.len()
        invariant
            chars@ == s@,
            i <= chars.len(),
            forall|k: int| 0 <= k < i ==> chars@[k] != ':',
        decreases chars.len() - i,
    {
        if chars[i] == ':' {
            proof {
                crate::classes::lemma_first_colon(s@, i as int);
            }
            return Some(i);
        }
        i = i + 1;
    }
    assert(first_colon(s@) is None) by {
        if exists|j: int| is_first_colon(s@, j) {
            let j = choose|j: int| is_first_colon(s@, j);
            assert(chars@[j] != ':');
        }
    }
    None
}

fn second_field_of<'a>(t: &'a str) -> (r: Option<&'a str>)
    ensures
        opt_str(r) == second_field(t@),
{
    match colon_position(t) {
        Some(k) => {
            let n = t.unicode_len();
            let rest = t.substring_char(k + 1, n);
            assert(rest@ =~= t@.skip(k + 1));
            match colon_position(rest) {
                Some(j) => {
                    let field = rest.substring_char(0, j);
                    assert(field@ =~= rest@.take(j as int));
                    Some(field)
                },
                None => Some(rest),
            }
        },
        None => None,
    }
}

fn find_with_prefix<'a>(items: &Vec<&'a str>, p: &str) -> (r: Option<&'a str>)
    ensures
        opt_str(r) == first_with_prefix(items@.map_values(|t: &str| t@), p@),
{
    let ghost views = items@.map_values(|t: &str| t@);
    let mut i: usize = 0;
    assert(views.skip(0) =~= views);
    while i < items.len()
        invariant
            views == items@.map_values(|t: &str| t@),
            i <= items.len(),
            first_with_prefix(views.skip(i as int), p@) == first_with_prefix(views, p@),
        decreases items.len() - i,
    {
        assert(views.skip(i as int)[0] == items@[i as int]@);
        if starts_with(items[i], p) {
            return Some(items[i]);
        }
        assert(views.skip(i as int).drop_first() =~= views.skip(i + 1));
        i = i + 1;
    }
    assert(views.skip(items.len() as int) =~= Seq::<Seq<char>>::empty());
    None
}

/// The `grid-template-rows` or `grid-template-columns` value of `number`
/// tracks: the size of each track from 1 to `number`, joined by spaces.
pub fn grid_template_rows_or_cols_rule(items: &Vec<&str>, pattern: &str, number: usize) -> (r: String)
    ensures
        r@ == joined_with(" "@, track_sizes(items@.map_values(|t: &str| t@), pattern@, number as nat)),
{
    let ghost views = items@.map_values(|t: &str| t@);
    let mut out = String::new();
    let mut first = true;
    let mut i: usize = 0;
    while i < number
        invariant
            views == items@.map_values(|t: &str| t@),
            i <= number,
            out@ == joined_with(" "@, track_sizes(views, pattern@, i as nat)),
            first == (track_sizes(views, pattern@, i as nat).len() == 0),
        decreases number - i,
    {
        i = i + 1;
        let mut prefix = String::new();
        prefix.append(pattern);
        push_decimal(&mut prefix, i);
        let ghost sizes = track_sizes(views, pattern@, (i - 1) as nat);
        match find_with_prefix(items, prefix.as_str()) {
            Some(t) => match second_field_of(t) {
                Some(v) => {
                    push_part(&mut out, " ", v, first, Ghost(sizes));
                    first = false;
                },
                None => {},
            },
            None => {
                push_part(&mut out, " ", "1fr", first, Ghost(sizes));
                first = false;
            },
        }
    }
    out
}

/// A template without its parentheses.
pub open spec fn unparenthesized(s: Seq<char>) -> Seq<char>
    decreases s.len(),
{
    if s.len() == 0 {
        Seq::empty()
    } else if s.last() == '(' || s.last() == ')' {
        unparenthesized(s.drop_last())
    } else {
        unparenthesized(s.drop_last()).push(s.last())
    }
}

/// The rows of a template, split at each `|`; an empty text is one empty
/// row.
pub open spec fn template_rows(s: Seq<char>) -> Seq<Seq<char>>
    decreases s.len(),
{
    if s.len() == 0 {
        seq![Seq::empty()]
    } else {
        let rows = template_rows(s.drop_last());
        if s.last() == '|' {
            rows.push(Seq::empty())
        } else {
            rows.update(rows.len() - 1, rows.last().push(s.last()))
        }
    }
}

/// The cells of a row: its characters other than `-`.
pub open spec fn row_cells(r: Seq<char>) -> Seq<char>
    decreases r.len(),
{
    if r.len() == 0 {
        Seq::empty()
    } else if r.last() == '-' {
        row_cells(r.drop_last())
    } else {
        row_cells(r.drop_last()).push(r.last())
    }
}

/// A row of a template as a `grid-template-areas` string: its cells, a space
/// between each two, in double quotes.
pub open spec fn quoted_row(r: Seq<char>) -> Seq<char> {
    "\""@ + joined_with(" "@, row_cells(r).map_values(|c: char| seq![c])) + "\""@
}

/// The `grid-template-areas` value of a template: each row quoted, the rows
/// separated by spaces.
pub open spec fn template_areas(text: Seq<char>) -> Seq<char> {
    joined_with(" "@, template_rows(unparenthesized(text)).map_values(|r: Seq<char>| quoted_row(r)))
}

proof fn lemma_template_rows_nonempty(s: Seq<char>)
    ensures
        template_rows(s).len() > 0,
    decreases s.len(),
{
    if s.len() > 0 {
        lemma_template_rows_nonempty(s.drop_last());
    }
}

proof fn lemma_joined_last(sep: Seq<char>, ys: Seq<Seq<char>>, z: Seq<char>)
    requires
        ys.len() > 0,
    ensures
        joined_with(sep, ys.update(ys.len() - 1, z)) == joined_with(sep, ys.drop_last()) + (if ys.len()
            > 1 {
            sep
        } else {
            Seq::empty()
        }) + z,
        joined_with(sep, ys) == joined_with(sep, ys.drop_last()) + (if ys.len() > 1 {
            sep
        } else {
            Seq::empty()
        }) + ys.last(),
{
    assert(ys.update(ys.len() - 1, z).drop_last() =~= ys.drop_last());
    if ys.len() == 1 {
        assert(joined_with(sep, ys.drop_last()) == Seq::<char>::empty());
        assert(Seq::<char>::empty() + Seq::<char>::empty() + z =~= z);
        assert(Seq::<char>::empty() + Seq::<char>::empty() + ys.last() =~= ys.last());
    }
}

/// The text of the rows so far, the last one still open: its closing quote
/// is missing.
pub open spec fn open_rows_text(rows: Seq<Seq<char>>) -> Seq<char> {
    joined_with(" "@, rows.drop_last().map_values(|r: Seq<char>| quoted_row(r))) + (if rows.len() > 1 {
        " "@
    } else {
        Seq::empty()
    }) + "\""@ + joined_with(" "@, row_cells(rows.last()).map_values(|c: char| seq![c]))
}

proof fn lemma_close_rows(rows: Seq<Seq<char>>)
    requires
        rows.len() > 0,
    ensures
        open_rows_text(rows) + "\""@ == joined_with(" "@, rows.map_values(|r: Seq<char>| quoted_row(r))),
{
    let m = rows.map_values(|r: Seq<char>| quoted_row(r));
    lemma_joined_last(" "@, m, m.last());
    assert(m.update(m.len() - 1, m.last()) =~= m);
    assert(m.drop_last() =~= rows.drop_last().map_values(|r: Seq<char>| quoted_row(r)));
    assert(open_rows_text(rows) + "\""@ =~= joined_with(" "@, m));
}

proof fn lemma_rows_bar(rows: Seq<Seq<char>>)
    requires
        rows.len() > 0,
    ensures
        open_rows_text(rows.push(Seq::empty())) == open_rows_text(rows) + "\" \""@,
{
    reveal_strlit("\" \"");
    reveal_strlit("\"");
    reveal_strlit(" ");
    lemma_close_rows(rows);
    let r2 = rows.push(Seq::empty());
    assert(r2.drop_last() =~= rows);
    assert(row_cells(Seq::<char>::empty()).map_values(|c: char| seq![c]) =~= Seq::<Seq<char>>::empty());
    assert(open_rows_text(r2) =~= open_rows_text(rows) + "\" \""@);
}

proof fn lemma_rows_char(rows: Seq<Seq<char>>, c: char)
    requires
        rows.len() > 0,
    ensures
        open_rows_text(rows.update(rows.len() - 1, rows.last().push(c))) == open_rows_text(rows) + if c
            == '-' {
            Seq::empty()
        } else if row_cells(rows.last()).len() > 0 {
            " "@ + seq![c]
        } else {
            seq![c]
        },
{
    let last = rows.last();
    let last2 = last.push(c);
    let r2 = rows.update(rows.len() - 1, last2);
    assert(r2.drop_last() =~= rows.drop_last());
    assert(r2.last() == last2);
    assert(last2.drop_last() =~= last);
    let f = |c: char| seq![c];
    let cs = row_cells(last);
    if c != '-' {
        assert(row_cells(last2) == cs.push(c));
        assert(cs.push(c).map_values(f) =~= cs.map_values(f).push(seq![c]));
        assert(cs.push(c).map_values(f).drop_last() =~= cs.map_values(f));
        if cs.len() == 0 {
            assert(cs.map_values(f) =~= Seq::<Seq<char>>::empty());
            assert(joined_with(" "@, cs.map_values(f)) == Seq::<char>::empty());
            assert(joined_with(" "@, cs.push(c).map_values(f)) =~= seq![c]);
        }
        assert(open_rows_text(r2) =~= open_rows_text(rows) + if cs.len() > 0 {
            " "@ + seq![c]
        } else {
            seq![c]
        });
    } else {
        assert(row_cells(last2) == cs);
        assert(open_rows_text(r2) =~= open_rows_text(rows));
    }
}

/// The `grid-template-areas` value of a template such as `(a-a-b|a-c-b)`:
/// `"a a b" "a c b"`.
pub fn grid_template_areas_value(text: &str) -> (r: String)
    ensures
        r@ == template_areas(text@),
{
    let chars = chars_of(text);
    let n = chars.len();
    let mut out = String::new();
    out.append("\"");
    let mut cells: usize = 0;
    let mut i: usize = 0;
    proof {
        let rows = template_rows(unparenthesized(text@.take(0)));
        assert(text@.take(0) =~= Seq::<char>::empty());
        assert(rows =~= seq![Seq::<char>::empty()]);
        assert(rows.drop_last().map_values(|r: Seq<char>| quoted_row(r)) =~= Seq::<Seq<char>>::empty());
        assert(row_cells(Seq::<char>::empty()).map_values(|c: char| seq![c]) =~= Seq::<Seq<char>>::empty());
        assert(out@ =~= open_rows_text(rows));
    }
    while i < n
        invariant
            chars@ == text@,
            n == chars.len(),
            i <= n,
            cells <= i,
            out@ == open_rows_text(template_rows(unparenthesized(text@.take(i as int)))),
            cells == row_cells(template_rows(unparenthesized(text@.take(i as int))).last()).len(),
        decreases n - i,
    {
        let c = chars[i];
        let ghost u = unparenthesized(text@.take(i as int));
        let ghost rows = template_rows(u);
        proof {
            lemma_template_rows_nonempty(u);
            assert(text@.take(i + 1).drop_last() =~= text@.take(i as int));
            assert(text@.take(i + 1).last() == c);
            if c != '(' && c != ')' {
                assert(unparenthesized(text@.take(i + 1)) == u.push(c));
                assert(u.push(c).drop_last() =~= u);
                assert(u.push(c).last() == c);
            }
        }
        if c == '(' || c == ')' {
        } else if c == '|' {
            out.append("\" \"");
            cells = 0;
            proof {
                lemma_rows_bar(rows);
                assert(row_cells(Seq::<char>::empty()) =~= Seq::<char>::empty());
            }
        } else {
            let piece = text.substring_char(i, i + 1);
            assert(piece@ =~= seq![c]);
            proof {
                reveal_strlit(" ");
                lemma_rows_char(rows, c);
                let last2 = rows.last().push(c);
                assert(last2.drop_last() =~= rows.last());
                assert(rows.update(rows.len() - 1, last2).last() == last2);
            }
            if c != '-' {
                if cells > 0 {
                    out.append(" ");
                }
                out.append(piece);
                cells = cells + 1;
            }
        }
        i = i + 1;
    }
    proof {
        assert(text@.take(n as int) =~= text@);
        lemma_template_rows_nonempty(unparenthesized(text@));
        lemma_close_rows(template_rows(unparenthesized(text@)));
    }
    out.append("\"");
    out
}

} // verus!
