//! The text that the logger works on: white space at the end of a line,
//! values joined by commas, and the pieces and lines of a text.

use vstd::prelude::*;

verus! {

/// Whether `c` is white space: one of the twenty-five characters with the
/// Unicode property `White_Space`.
pub open spec fn is_white_space(c: char) -> bool {
    let n = c as u32;
    ||| 0x09 <= n <= 0x0D
    ||| n == 0x20
    ||| n == 0x85
    ||| n == 0xA0
    ||| n == 0x1680
    ||| 0x2000 <= n <= 0x200A
    ||| n == 0x2028
    ||| n == 0x2029
    ||| n == 0x202F
    ||| n == 0x205F
    ||| n == 0x3000
}

/// Whether `text` holds white space alone.
pub open spec fn all_white_space(text: Seq<char>) -> bool {
    forall|i: int| 0 <= i < text.len() ==> is_white_space(#[trigger] text[i])
}

/// `s` without the white space at its end.
pub open spec fn trim_end(s: Seq<char>) -> Seq<char>
    decreases s.len(),
{
    if s.len() > 0 && is_white_space(s.last()) {
        trim_end(s.drop_last())
    } else {
        s
    }
}

/// Every value preceded by a comma, in order.
pub open spec fn comma_fields(values: Seq<Seq<char>>) -> Seq<char>
    decreases values.len(),
{
    if values.len() == 0 {
        Seq::empty()
    } else {
        comma_fields(values.drop_last()) + seq![','] + values.last()
    }
}

/// The values in order, with a comma between each two.
pub open spec fn comma_joined(values: Seq<Seq<char>>) -> Seq<char>
    decreases values.len(),
{
    if values.len() == 0 {
        Seq::empty()
    } else if values.len() == 1 {
        values[0]
    } else {
        comma_joined(values.drop_last()) + seq![','] + values.last()
    }
}

/// Whether `c` occurs nowhere in `text`.
pub open spec fn free_of(text: Seq<char>, c: char) -> bool {
    forall|i: int| 0 <= i < text.len() ==> text[i] != c
}

/// Whether `c` occurs in none of the values.
pub open spec fn all_free_of(values: Seq<Seq<char>>, c: char) -> bool {
    forall|k: int| 0 <= k < values.len() ==> free_of(#[trigger] values[k], c)
}

/// The number of characters in front of the first `sep`, or the length of
/// `text` where it holds none.
pub open spec fn prefix_len(text: Seq<char>, sep: char) -> nat
    decreases text.len(),
{
    if text.len() == 0 || text[0] == sep {
        0
    } else {
        1 + prefix_len(text.drop_first(), sep)
    }
}

/// The pieces of `text` between the occurrences of `sep`, in order. A text
/// with n separators has n + 1 pieces.
pub open spec fn split(text: Seq<char>, sep: char) -> Seq<Seq<char>>
    decreases text.len(),
{
    let n = prefix_len(text, sep) as int;
    if n < text.len() {
        seq![text.take(n)] + split(text.skip(n + 1), sep)
    } else {
        seq![text]
    }
}

/// The lines of `text`: its pieces between newlines, where a newline at the
/// very end closes the last line and opens no further one.
pub open spec fn lines(text: Seq<char>) -> Seq<Seq<char>> {
    if text.len() == 0 {
        Seq::empty()
    } else if text.last() == '\n' {
        split(text.drop_last(), '\n')
    } else {
        split(text, '\n')
    }
}

/// Whether `c` is white space.
pub fn white_space(c: char) -> (white: bool)
    ensures
        white == is_white_space(c),
{
    let n: u32 = c as u32;
    (0x09 <= n && n <= 0x0D) || n == 0x20 || n == 0x85 || n == 0xA0 || n == 0x1680 || (0x2000 <= n
        && n <= 0x200A) || n == 0x2028 || n == 0x2029 || n == 0x202F || n == 0x205F || n == 0x3000
}

/// Writes every value behind a comma: `,v1,v2,...`. Nothing is quoted or
/// escaped.
pub fn vec_to_string(content: &Vec<String>) -> (content_csv: String)
    ensures
        content_csv@ == comma_fields(content.deep_view()),
{
    let mut content_csv = String::new();
    let mut i: usize = 0;
    while i < content.len()
        invariant
            i <= content.len(),
            content_csv@ == comma_fields(content.deep_view().take(i as int)),
        decreases content.len() - i,
    {
        proof {
            reveal_strlit(",");
            let done = content.deep_view().take(i as int);
            let next = content.deep_view().take(i + 1);
            assert(next.drop_last() == done);
        }
        content_csv.append(",");
        content_csv.append(content[i].as_str());
        i += 1;
    }
    proof {
        assert(content.deep_view().take(i as int) == content.deep_view());
    }
    content_csv
}

/// In front of a separator that follows a piece without one lie exactly the
/// characters of that piece.
pub proof fn lemma_prefix_len_found(piece: Seq<char>, sep: char, rest: Seq<char>)
    requires
        free_of(piece, sep),
    ensures
        prefix_len(piece + seq![sep] + rest, sep) == piece.len(),
    decreases piece.len(),
{
    let text = piece + seq![sep] + rest;
    if piece.len() > 0 {
        assert(text.drop_first() == piece.drop_first() + seq![sep] + rest);
        lemma_prefix_len_found(piece.drop_first(), sep, rest);
    }
}

/// What follows a text that holds a separator does not move its first
/// one.
pub proof fn lemma_prefix_len_kept(text: Seq<char>, sep: char, more: Seq<char>)
    requires
        prefix_len(text, sep) < text.len(),
    ensures
        prefix_len(text + more, sep) == prefix_len(text, sep),
    decreases text.len(),
{
    if text.len() > 0 && text[0] != sep {
        assert((text + more).drop_first() == text.drop_first() + more);
        lemma_prefix_len_kept(text.drop_first(), sep, more);
    }
}

/// A text without a separator is its own prefix.
pub proof fn lemma_prefix_len_whole(text: Seq<char>, sep: char)
    requires
        free_of(text, sep),
    ensures
        prefix_len(text, sep) == text.len(),
    decreases text.len(),
{
    if text.len() > 0 {
        lemma_prefix_len_whole(text.drop_first(), sep);
    }
}

/// Splitting takes a piece without separator off the front.
pub proof fn lemma_split_front(piece: Seq<char>, sep: char, rest: Seq<char>)
    requires
        free_of(piece, sep),
    ensures
        split(piece + seq![sep] + rest, sep) == seq![piece] + split(rest, sep),
{
    let text = piece + seq![sep] + rest;
    lemma_prefix_len_found(piece, sep, rest);
    assert(text.take(piece.len() as int) == piece);
    assert(text.skip(piece.len() as int + 1) == rest);
}

/// A text without a separator is one piece.
pub proof fn lemma_split_whole(text: Seq<char>, sep: char)
    requires
        free_of(text, sep),
    ensures
        split(text, sep) == seq![text],
{
    lemma_prefix_len_whole(text, sep);
}

/// The fields of a sequence of values begin with a comma and the first
/// value.
pub proof fn lemma_comma_fields_front(values: Seq<Seq<char>>)
    requires
        values.len() > 0,
    ensures
        comma_fields(values) == seq![','] + values[0] + comma_fields(values.drop_first()),
    decreases values.len(),
{
    if values.len() == 1 {
        assert(comma_fields(values.drop_last()) == Seq::<char>::empty());
    } else {
        let init = values.drop_last();
        lemma_comma_fields_front(init);
        assert(init.drop_first() == values.drop_first().drop_last());
        assert(comma_fields(values) == (seq![','] + values[0] + comma_fields(init.drop_first()))
            + seq![','] + values.last());
        assert(comma_fields(values.drop_first()) == comma_fields(init.drop_first()) + seq![',']
            + values.last());
    }
}

/// Fields without a comma hold none but those that stand in front of each.
pub proof fn lemma_split_fields(first: Seq<char>, values: Seq<Seq<char>>)
    requires
        free_of(first, ','),
        all_free_of(values, ','),
    ensures
        split(first + comma_fields(values), ',') == seq![first] + values,
    decreases values.len(),
{
    if values.len() == 0 {
        lemma_split_whole(first, ',');
    } else {
        let head = values[0];
        let tail = values.drop_first();
        lemma_comma_fields_front(values);
        assert(first + comma_fields(values) == first + seq![','] + (head + comma_fields(tail)));
        lemma_split_front(first, ',', head + comma_fields(tail));
        assert(all_free_of(tail, ','));
        lemma_split_fields(head, tail);
    }
}

/// Joining with commas brings in no character but the comma.
pub proof fn lemma_comma_fields_free_of(values: Seq<Seq<char>>, c: char)
    requires
        all_free_of(values, c),
        c != ',',
    ensures
        free_of(comma_fields(values), c),
        free_of(comma_joined(values), c),
    decreases values.len(),
{
    if values.len() > 0 {
        let init = values.drop_last();
        assert(all_free_of(init, c));
        lemma_comma_fields_free_of(init, c);
    }
}

/// Removing the white space at the end leaves a text that begins with
/// something else as it begins.
pub proof fn lemma_trim_end_keeps_front(s: Seq<char>)
    requires
        s.len() > 0,
        !is_white_space(s[0]),
    ensures
        trim_end(s).len() > 0,
        trim_end(s)[0] == s[0],
    decreases s.len(),
{
    if is_white_space(s.last()) {
        lemma_trim_end_keeps_front(s.drop_last());
    }
}

/// White space at the end of a text does not count: what `trim_end` makes
/// of the text, it makes of the part in front.
pub proof fn lemma_trim_end_of_white_tail(text: Seq<char>, k: int)
    requires
        0 <= k <= text.len(),
        all_white_space(text.skip(k)),
    ensures
        trim_end(text) == trim_end(text.take(k)),
    decreases text.len() - k,
{
    if k == text.len() {
        assert(text.take(k) == text);
    } else {
        assert(text.skip(k)[text.len() - 1 - k] == text.last());
        let init = text.drop_last();
        assert forall|i: int| 0 <= i < init.skip(k).len() implies is_white_space(
            #[trigger] init.skip(k)[i],
        ) by {
            assert(init.skip(k)[i] == text.skip(k)[i]);
        }
        lemma_trim_end_of_white_tail(init, k);
        assert(init.take(k) == text.take(k));
    }
}

/// `trim_end` keeps a front part of the text and drops white space
/// alone.
pub proof fn lemma_trim_end_split(text: Seq<char>)
    ensures
        trim_end(text).len() <= text.len(),
        trim_end(text) == text.take(trim_end(text).len() as int),
        all_white_space(text.skip(trim_end(text).len() as int)),
    decreases text.len(),
{
    if text.len() > 0 && is_white_space(text.last()) {
        let init = text.drop_last();
        lemma_trim_end_split(init);
        let n = trim_end(init).len() as int;
        assert forall|i: int| 0 <= i < text.skip(n).len() implies is_white_space(
            #[trigger] text.skip(n)[i],
        ) by {
            if i < init.skip(n).len() {
                assert(text.skip(n)[i] == init.skip(n)[i]);
            }
        }
    }
}

/// A text is white space from `k` on where its character at `k` and all
/// behind it are.
pub proof fn lemma_white_from(text: Seq<char>, k: int)
    requires
        0 <= k < text.len(),
    ensures
        all_white_space(text.skip(k)) == (is_white_space(text[k]) && all_white_space(
            text.skip(k).drop_first(),
        )),
{
    let tail = text.skip(k);
    assert(tail[0] == text[k]);
    if is_white_space(text[k]) && all_white_space(tail.drop_first()) {
        assert forall|i: int| 0 <= i < tail.len() implies is_white_space(#[trigger] tail[i]) by {
            if i > 0 {
                assert(tail[i] == tail.drop_first()[i - 1]);
            }
        }
    }
    if all_white_space(tail) {
        assert(all_white_space(tail.drop_first()));
    }
}

} // verus!
