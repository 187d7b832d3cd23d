//! Return-rate labels and the fixed-width text rows of the chart legend and hover box.

use vstd::prelude::*;
use vstd::string::*;
use crate::text::{append_decimal, decimal, pad_left, pad_right, push_padded_left, push_padded_right};

verus! {

/// The label of a return rate.
///
/// A major (anchor) rate is written from its two-decimal text cut to its first
/// four characters: `8.50` gives `ROI 8.50%`, `12.50` gives `ROI 12.5%`.
/// Any other rate is written as its whole percent right-aligned in four
/// columns: 5 gives `ROI    5%`.
pub open spec fn roi_label_text(two_decimals: Seq<char>, whole_percent: nat, is_major: bool) -> Seq<char> {
    if is_major {
        "ROI "@ + two_decimals.take(if two_decimals.len() < 4 { two_decimals.len() as int } else { 4 }) + "%"@
    } else {
        "ROI "@ + pad_left(decimal(whole_percent), 4) + "%"@
    }
}

/// Writes the label of a return rate; `two_decimals` is the rate written with
/// two decimals and `whole_percent` its whole part (0 for negative rates).
pub fn fmt_roi_label(two_decimals: &str, whole_percent: usize, is_major: bool) -> (r: String)
    ensures
        r@ == roi_label_text(two_decimals@, whole_percent as nat, is_major),
{
    let mut r = String::from_str("ROI ");
    if is_major {
        let len = two_decimals.unicode_len();
        let cut = if len < 4 { len } else { 4 };
        let head = two_decimals.substring_char(0, cut);
        r.append(head);
        assert(two_decimals@.subrange(0, cut as int) =~= two_decimals@.take(cut as int));
    } else {
        let mut digits = String::new();
        append_decimal(&mut digits, whole_percent as u128);
        push_padded_left(&mut r, digits.as_str(), 4);
    }
    r.append("%");
    r
}

/// The inline style of a row; highlighted rows are drawn in bold red.
pub open spec fn row_style(highlight: bool) -> Seq<char> {
    if highlight {
        "style='font-family:Consolas,monospace; color:#F43F5E; font-weight:bold;'"@
    } else {
        "style='font-family:Consolas,monospace;'"@
    }
}

/// A text row of the legend or hover box: the name left-aligned in ten
/// columns, then either (narrow screens) the discounted value right-aligned in
/// ten columns and the mark `(折現)`, or the nominal value right-aligned in ten
/// columns followed, when inflation is shown, by the discounted value.
pub open spec fn text_row(
    name: Seq<char>,
    val: Seq<char>,
    real_val: Seq<char>,
    highlight: bool,
    is_inflation: bool,
    is_narrow: bool,
) -> Seq<char> {
    let head = "<span "@ + row_style(highlight) + ">"@ + pad_right(name, 10);
    if is_narrow {
        head + " "@ + pad_left(real_val, 10) + "(折現)</span>"@
    } else if is_inflation {
        head + " │ "@ + pad_left(val, 10) + " │ 折現："@ + pad_left(real_val, 10) + "</span>"@
    } else {
        head + " │ "@ + pad_left(val, 10) + "</span>"@
    }
}

/// Builds one fixed-width text row (see [`text_row`]).
pub fn make_clean_text_row(
    name_str: &str,
    val_str: &str,
    real_val_str: &str,
    highlight: bool,
    is_inflation: bool,
    is_narrow: bool,
) -> (r: String)
    ensures
        r@ == text_row(name_str@, val_str@, real_val_str@, highlight, is_inflation, is_narrow),
{
    let pad_w: usize = 10;
    let mut r = String::from_str("<span ");
    if highlight {
        r.append("style='font-family:Consolas,monospace; color:#F43F5E; font-weight:bold;'");
    } else {
        r.append("style='font-family:Consolas,monospace;'");
    }
    r.append(">");
    push_padded_right(&mut r, name_str, pad_w);
    if is_narrow {
        r.append(" ");
        push_padded_left(&mut r, real_val_str, pad_w);
        r.append("(折現)</span>");
    } else if is_inflation {
        r.append(" │ ");
        push_padded_left(&mut r, val_str, pad_w);
        r.append(" │ 折現：");
        push_padded_left(&mut r, real_val_str, pad_w);
        r.append("</span>");
    } else {
        r.append(" │ ");
        push_padded_left(&mut r, val_str, pad_w);
        r.append("</span>");
    }
    r
}

/// On narrow screens a row shows the discounted value: it is the same for
/// any nominal value and any inflation setting, and it ends with the
/// discounted value right-aligned in ten columns followed by `(折現)</span>`.
pub proof fn lemma_narrow_row_shows_discounted_value(
    name: Seq<char>,
    val: Seq<char>,
    other_val: Seq<char>,
    real_val: Seq<char>,
    highlight: bool,
    is_inflation: bool,
    other_inflation: bool,
)
    ensures
        text_row(name, val, real_val, highlight, is_inflation, true) == text_row(
            name,
            other_val,
            real_val,
            highlight,
            other_inflation,
            true,
        ),
        ({
            let row = text_row(name, val, real_val, highlight, is_inflation, true);
            let tail = pad_left(real_val, 10) + "(折現)</span>"@;
            row.len() >= tail.len() && row.skip(row.len() - tail.len()) == tail
        }),
{
    let head = "<span "@ + row_style(highlight) + ">"@ + pad_right(name, 10);
    let tail = pad_left(real_val, 10) + "(折現)</span>"@;
    let row = text_row(name, val, real_val, highlight, is_inflation, true);
    assert(row =~= (head + " "@) + tail);
    assert(row.skip(row.len() - tail.len()) =~= tail);
}

/// On wide screens without inflation the discounted value is not shown: the
/// row is the same for any discounted value. With inflation the row ends with
/// the discounted value right-aligned in ten columns.
pub proof fn lemma_wide_rows(
    name: Seq<char>,
    val: Seq<char>,
    real_val: Seq<char>,
    other_real: Seq<char>,
    highlight: bool,
)
    ensures
        text_row(name, val, real_val, highlight, false, false) == text_row(name, val, other_real, highlight, false, false),
        ({
            let row = text_row(name, val, real_val, highlight, true, false);
            let tail = " │ 折現："@ + pad_left(real_val, 10) + "</span>"@;
            row.len() >= tail.len() && row.skip(row.len() - tail.len()) == tail
        }),
{
    let head = "<span "@ + row_style(highlight) + ">"@ + pad_right(name, 10);
    let tail = " │ 折現："@ + pad_left(real_val, 10) + "</span>"@;
    let row = text_row(name, val, real_val, highlight, true, false);
    assert(row =~= (head + " │ "@ + pad_left(val, 10)) + tail);
    assert(row.skip(row.len() - tail.len()) =~= tail);
}

/// Every rate label reads `ROI `, a middle part and `%`. For a major rate the
/// middle is the first (at most) four characters of its two-decimal text and
/// does not depend on the whole percent; for any other rate the middle ends
/// with the whole percent's digits, is padded with spaces to at least four
/// columns, and does not depend on the two-decimal text.
pub proof fn lemma_roi_label_shape(t: Seq<char>, other_t: Seq<char>, w: nat, other_w: nat)
    ensures
        ({
            let l = roi_label_text(t, w, true);
            let cut = if t.len() < 4 { t.len() as int } else { 4 };
            &&& l.len() == 5 + cut
            &&& l.take(4) == "ROI "@
            &&& l.last() == '%'
            &&& l.subrange(4, l.len() - 1) == t.take(cut)
            &&& l == roi_label_text(t, other_w, true)
        }),
        ({
            let l = roi_label_text(t, w, false);
            let d = decimal(w);
            let middle = l.subrange(4, l.len() - 1);
            &&& l.take(4) == "ROI "@
            &&& l.last() == '%'
            &&& middle.len() == if d.len() < 4 { 4 } else { d.len() }
            &&& middle.skip(middle.len() - d.len()) == d
            &&& forall|i: int| 0 <= i < middle.len() - d.len() ==> middle[i] == ' '
            &&& l == roi_label_text(other_t, w, false)
        }),
{
    reveal_strlit("ROI ");
    reveal_strlit("%");
    let cut = if t.len() < 4 { t.len() as int } else { 4 };
    let l = roi_label_text(t, w, true);
    assert(l.take(4) =~= "ROI "@);
    assert(l.subrange(4, l.len() - 1) =~= t.take(cut));
    let l2 = roi_label_text(t, w, false);
    let d = decimal(w);
    let p = pad_left(d, 4);
    assert(l2.take(4) =~= "ROI "@);
    assert(l2.subrange(4, l2.len() - 1) =~= p);
    assert(p.skip(p.len() - d.len()) =~= d);
}

} // verus!
