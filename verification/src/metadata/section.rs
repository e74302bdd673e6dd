use crate::text::{join, joined};
use vstd::prelude::*;

verus! {

/// What a section is, as mathematics.
pub struct SectionView {
    pub name: Seq<char>,
    /// The description, line by line, as the lines were found.
    pub descr: Seq<Seq<char>>,
    /// The section's values, each by its index in the chart's flat list.
    pub values: Seq<nat>,
}

impl SectionView {
    /// A section as its tag line creates it.
    pub open spec fn fresh(name: Seq<char>) -> SectionView {
        SectionView { name, descr: Seq::empty(), values: Seq::empty() }
    }

    /// Whether every value that the section lists has an index below `count`.
    pub open spec fn lists_below(self, count: nat) -> bool {
        forall|k: int| 0 <= k < self.values.len() ==> #[trigger] self.values[k] < count
    }

    /// The description as one text: its lines with a line break between them.
    pub open spec fn descr_text(self) -> Seq<char> {
        joined(self.descr, seq!['\n'])
    }
}

/// A named group of values with a description of several lines.
#[derive(Debug)]
pub struct SectionMetadata {
    name: String,
    descr: Vec<String>,
    chart_values: Vec<usize>,
}

impl View for SectionMetadata {
    type V = SectionView;

    closed spec fn view(&self) -> SectionView {
        SectionView {
            name: self.name@,
            descr: self.descr.deep_view(),
            values: Seq::new(self.chart_values@.len(), |i: int| self.chart_values@[i] as nat),
        }
    }
}

impl SectionMetadata {
    pub fn new(name: String) -> (made: SectionMetadata)
        ensures
            made@ == SectionView::fresh(name@),
    {
        let made = SectionMetadata { name, descr: Vec::new(), chart_values: Vec::new() };
        assert(made@.descr == Seq::<Seq<char>>::empty());
        assert(made@.values == Seq::<nat>::empty());
        made
    }

    /// Appends a value, given by its index in the chart's flat list.
    pub fn add_value(&mut self, chart_value: usize)
        ensures
            final(self)@ == (SectionView {
                values: old(self)@.values.push(chart_value as nat),
                ..old(self)@
            }),
    {
        self.chart_values.push(chart_value);
        assert(self@.values == old(self)@.values.push(chart_value as nat));
    }

    /// Appends one line to the description.
    pub fn add_descr(&mut self, line: String)
        ensures
            final(self)@ == (SectionView { descr: old(self)@.descr.push(line@), ..old(self)@ }),
    {
        self.descr.push(line);
        assert(self@.descr == old(self)@.descr.push(line@));
    }

    pub fn name(&self) -> (name: &String)
        ensures
            name@ == self@.name,
    {
        &self.name
    }

    /// The description as one text.
    pub fn descr(&self) -> (text: String)
        ensures
            text@ == self@.descr_text(),
    {
        proof {
            reveal_strlit("\n");
            assert("\n"@ == seq!['\n']);
        }
        join(&self.descr, "\n")
    }

    /// The lines of the description.
    pub fn descr_lines(&self) -> (lines: &Vec<String>)
        ensures
            lines.deep_view() == self@.descr,
    {
        &self.descr
    }

    /// The indices, in the chart's flat list, of the section's values.
    pub fn values(&self) -> (values: &Vec<usize>)
        ensures
            values@.len() == self@.values.len(),
            forall|i: int| 0 <= i < values@.len() ==> values@[i] as nat == self@.values[i],
    {
        &self.chart_values
    }
}

} // verus!
