//! The sink of a source: a text file of one heading line and one line per
//! observation, which only ever grows at its end.

use crate::price::{is_decimal_text, lemma_decimal_text_is_one_field, Price};
use crate::source::AssetSource;
use crate::timestamp::{is_stamp_text, lemma_stamp_text_is_one_field, Timestamp};
use vstd::prelude::*;

verus! {

/// The heading of every sink.
pub open spec fn heading() -> Seq<char> {
    "timestamp,price"@
}

/// The row of an observation: the timestamp, a comma, the value.
pub open spec fn row_text(timestamp: Seq<char>, value: Seq<char>) -> Seq<char> {
    timestamp + seq![','] + value
}

/// `text` as a line: the text and a line break.
pub open spec fn line(text: Seq<char>) -> Seq<char> {
    text + seq!['\n']
}

/// What persisting `row` appends to a sink: the line of the row, after the
/// heading line where the sink is fresh, that is created just now or empty.
pub open spec fn pending_text(fresh: bool, row: Seq<char>) -> Seq<char> {
    if fresh {
        line(heading()) + line(row)
    } else {
        line(row)
    }
}

/// What a sink with the content `content` holds once `row` is persisted to it.
pub open spec fn persisted(content: Seq<char>, row: Seq<char>) -> Seq<char> {
    content + pending_text(content.len() == 0, row)
}

/// The content of a sink that holds the lines `lines`, first to last.
pub open spec fn sink_text(lines: Seq<Seq<char>>) -> Seq<char>
    decreases lines.len(),
{
    if lines.len() == 0 {
        Seq::<char>::empty()
    } else {
        sink_text(lines.drop_last()) + line(lines.last())
    }
}

/// Whether `text` splits at index `k` into a timestamp, a comma and a price.
pub open spec fn splits_at(text: Seq<char>, k: int) -> bool {
    &&& 0 <= k < text.len()
    &&& text[k] == ','
    &&& is_stamp_text(text.take(k))
    &&& is_decimal_text(text.skip(k + 1))
}

/// The timestamp and the value of a row; `None` for text that is no row.
pub open spec fn row_fields(text: Seq<char>) -> Option<(Seq<char>, Seq<char>)> {
    if exists|k: int| splits_at(text, k) {
        let k = choose|k: int| splits_at(text, k);
        Some((text.take(k), text.skip(k + 1)))
    } else {
        None
    }
}

/// A row splits at one place only: at its first comma.
pub proof fn lemma_split_is_unique(text: Seq<char>, j: int, k: int)
    requires
        splits_at(text, j),
        splits_at(text, k),
    ensures
        j == k,
{
    lemma_stamp_text_is_one_field(text.take(j));
    lemma_stamp_text_is_one_field(text.take(k));
    if j < k {
        assert(text.take(k)[j] == text[j]);
    }
    if k < j {
        assert(text.take(j)[k] == text[k]);
    }
}

/// A row reads back as the timestamp and the value that it was written from.
pub proof fn lemma_row_round_trip(timestamp: Seq<char>, value: Seq<char>)
    requires
        is_stamp_text(timestamp),
        is_decimal_text(value),
    ensures
        row_fields(row_text(timestamp, value)) == Some((timestamp, value)),
{
    let text = row_text(timestamp, value);
    let k = timestamp.len() as int;
    assert(text.take(k) =~= timestamp);
    assert(text.skip(k + 1) =~= value);
    assert(splits_at(text, k));
    let j = choose|j: int| splits_at(text, j);
    lemma_split_is_unique(text, j, k);
}

/// A row is one line: it holds no line break.
pub proof fn lemma_row_is_one_line(timestamp: Seq<char>, value: Seq<char>)
    requires
        is_stamp_text(timestamp),
        is_decimal_text(value),
    ensures
        !row_text(timestamp, value).contains('\n'),
        !heading().contains('\n'),
{
    let text = row_text(timestamp, value);
    lemma_stamp_text_is_one_field(timestamp);
    lemma_decimal_text_is_one_field(value);
    assert forall|i: int| 0 <= i < text.len() implies text[i] != '\n' by {}
    reveal_strlit("timestamp,price");
}

/// A sink is empty exactly when it holds no line.
pub proof fn lemma_sink_text_is_empty(lines: Seq<Seq<char>>)
    ensures
        sink_text(lines).len() == 0 <==> lines.len() == 0,
{
}

/// A sink with one more line holds the text of that line after the rest.
pub proof fn lemma_sink_text_push(lines: Seq<Seq<char>>, last: Seq<char>)
    ensures
        sink_text(lines.push(last)) == sink_text(lines) + line(last),
{
    assert(lines.push(last).drop_last() =~= lines);
}

/// Persisting to a sink that holds no line leaves it with the heading line
/// and the line of the row. Persisting to a sink that holds lines leaves it
/// with those lines and, after them, the line of the row: no second heading.
pub proof fn lemma_persist_adds_lines(lines: Seq<Seq<char>>, row: Seq<char>)
    ensures
        lines.len() == 0 ==> persisted(sink_text(lines), row) == sink_text(seq![heading(), row]),
        lines.len() > 0 ==> persisted(sink_text(lines), row) == sink_text(lines.push(row)),
{
    lemma_sink_text_is_empty(lines);
    if lines.len() == 0 {
        let none = Seq::<Seq<char>>::empty();
        lemma_sink_text_push(none, heading());
        lemma_sink_text_push(none.push(heading()), row);
        assert(none.push(heading()).push(row) =~= seq![heading(), row]);
    } else {
        lemma_sink_text_push(lines, row);
    }
}

/// Persisting twice to a sink that holds no line leaves it with the
/// heading, once, and the two rows in the order in which they came.
pub proof fn lemma_persist_twice(first: Seq<char>, second: Seq<char>)
    ensures
        persisted(persisted(Seq::<char>::empty(), first), second) == sink_text(
            seq![heading(), first, second],
        ),
{
    let none = Seq::<Seq<char>>::empty();
    let one = seq![heading(), first];
    lemma_persist_adds_lines(none, first);
    lemma_persist_adds_lines(one, second);
    assert(one.push(second) =~= seq![heading(), first, second]);
}

/// A row holds no comma before the place where it splits.
pub proof fn lemma_split_is_first_comma(text: Seq<char>, k: int)
    requires
        splits_at(text, k),
    ensures
        forall|i: int| 0 <= i < k ==> #[trigger] text[i] != ',',
        vstd::utf8::is_ascii_chars(text),
{
    lemma_stamp_text_is_one_field(text.take(k));
    lemma_decimal_text_is_one_field(text.skip(k + 1));
    assert forall|i: int| 0 <= i < k implies #[trigger] text[i] != ',' by {
        assert(text.take(k)[i] == text[i]);
    }
    assert forall|i: int| 0 <= i < text.len() implies '\0' <= #[trigger] text[i] <= '\u{7f}' by {
        if i < k {
            assert(text.take(k)[i] == text[i]);
        } else if i > k {
            assert(text.skip(k + 1)[i - k - 1] == text[i]);
        }
    }
}

/// Reads a row back: the timestamp before the first comma and the price
/// after it. Text that is no such row gives `None`.
pub fn parse_row(text: &str) -> (r: Option<(Timestamp, Price)>)
    ensures
        match r {
            Some((timestamp, value)) => row_fields(text@) == Some((timestamp@, value@)),
            None => row_fields(text@) is None,
        },
{
    if !text.is_ascii() {
        proof {
            if exists|j: int| splits_at(text@, j) {
                let j = choose|j: int| splits_at(text@, j);
                lemma_split_is_first_comma(text@, j);
            }
        }
        return None;
    }
    let bytes = text.as_bytes();
    let n = bytes.len();
    proof {
        vstd::string::is_ascii_spec_bytes(text);
    }
    let mut k: usize = 0;
    while k < n && bytes[k] != ',' as u8
        invariant
            k <= n,
            n == bytes@.len(),
            n == text@.len(),
            forall|i: int| 0 <= i < n ==> bytes@[i] == #[trigger] text@[i] as u8,
            forall|i: int| 0 <= i < k ==> #[trigger] text@[i] != ',',
        decreases n - k,
    {
        k += 1;
    }
    proof {
        if exists|j: int| splits_at(text@, j) {
            let j = choose|j: int| splits_at(text@, j);
            lemma_split_is_first_comma(text@, j);
        }
    }
    if k == n {
        return None;
    }
    let head = text.substring_ascii(0, k);
    let tail = text.substring_ascii(k + 1, n);
    match Timestamp::from_text(String::from_str(head)) {
        None => None,
        Some(timestamp) => match Price::from_text(String::from_str(tail)) {
            None => None,
            Some(value) => {
                assert(splits_at(text@, k as int));
                Some((timestamp, value))
            },
        },
    }
}

impl AssetSource {
    /// The row of the last observation. It is one line, and it reads back
    /// as that observation.
    pub fn row(&self) -> (r: String)
        ensures
            r@ == row_text(self@.timestamp, self@.value),
            !r@.contains('\n'),
            row_fields(r@) == Some((self@.timestamp, self@.value)),
    {
        let mut r = String::from_str(self.timestamp().text());
        r.append(",");
        r.append(self.value().text());
        proof {
            reveal_strlit(",");
            assert(","@ =~= seq![',']);
            lemma_row_round_trip(self@.timestamp, self@.value);
            lemma_row_is_one_line(self@.timestamp, self@.value);
        }
        r
    }

    /// What persisting the last observation appends to the sink. `fresh`
    /// says whether the sink was created just now or is empty: the heading
    /// line goes to such a sink first, and to no other.
    pub fn persist_text(&self, fresh: bool) -> (r: String)
        ensures
            r@ == pending_text(fresh, row_text(self@.timestamp, self@.value)),
    {
        let row = self.row();
        let mut r = String::new();
        if fresh {
            r.append("timestamp,price");
            r.append("\n");
        }
        r.append(row.as_str());
        r.append("\n");
        proof {
            reveal_strlit("\n");
        }
        r
    }
}

} // verus!
