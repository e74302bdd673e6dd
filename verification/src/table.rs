//! Tables are laid out by the `markdown_table` crate. This module names what
//! that crate returns and wraps the call; what is stated here is taken on
//! trust.

use crate::text::opt_text;
use vstd::prelude::*;

verus! {

/// The text that `MarkdownTable::as_markdown` returns for a table with the
/// given column headings, each of the default alignment, and the given rows
/// of cells.
pub uninterp spec fn markdown_table(headings: Seq<Seq<char>>, rows: Seq<Seq<Seq<char>>>) -> Seq<
    char,
>;

/// Lays out a table with `MarkdownTable::new`, `with_headings` and
/// `as_markdown`. The crate reads the width of a column off the headings, so
/// no row may have more cells than there are headings. Of a table that has
/// headings `as_markdown` returns no error.
#[verifier::external_body]
pub(crate) fn lay_out_table(headings: &Vec<String>, rows: &Vec<Vec<String>>) -> (text: Option<
    String,
>)
    requires
        forall|i: int| 0 <= i < rows@.len() ==> (#[trigger] rows@[i])@.len() <= headings@.len(),
    ensures
        opt_text(text) == Some(markdown_table(headings.deep_view(), rows.deep_view())),
{
    let mut table = markdown_table::MarkdownTable::new(rows.clone());
    table.with_headings(
        headings.iter().map(|label| markdown_table::Heading::new(label.clone(), None)).collect(),
    );
    table.as_markdown().ok()
}

} // verus!
