use crate::metadata::section::{SectionMetadata, SectionView};
use crate::metadata::value::{ValueMetadata, ValueView};
use vstd::prelude::*;

verus! {

/// What the metadata of a chart is, as mathematics: the sections in the
/// order in which they were first seen, and the flat list of all values in
/// the order in which they were first seen. A section names its values by
/// their indices in the flat list.
pub struct ChartView {
    pub sections: Seq<SectionView>,
    pub values: Seq<ValueView>,
}

impl ChartView {
    pub open spec fn empty() -> ChartView {
        ChartView { sections: Seq::empty(), values: Seq::empty() }
    }

    pub open spec fn add_section(self, section: SectionView) -> ChartView {
        ChartView { sections: self.sections.push(section), ..self }
    }

    pub open spec fn add_value(self, value: ValueView) -> ChartView {
        ChartView { values: self.values.push(value), ..self }
    }

    /// The chart with the value at index `value` appended to the section at
    /// index `section`; unchanged where there is no such section.
    pub open spec fn attach(self, section: nat, value: nat) -> ChartView {
        if section < self.sections.len() {
            let old = self.sections[section as int];
            let new = SectionView { values: old.values.push(value), ..old };
            ChartView { sections: self.sections.update(section as int, new), ..self }
        } else {
            self
        }
    }

    /// The chart with `line` appended to the description of the section at
    /// index `section`; unchanged where there is no such section.
    pub open spec fn describe(self, section: nat, line: Seq<char>) -> ChartView {
        if section < self.sections.len() {
            let old = self.sections[section as int];
            let new = SectionView { descr: old.descr.push(line), ..old };
            ChartView { sections: self.sections.update(section as int, new), ..self }
        } else {
            self
        }
    }

    /// Every value that a section lists is in the flat list.
    pub open spec fn wf(self) -> bool {
        forall|s: int|
            0 <= s < self.sections.len() ==> (#[trigger] self.sections[s]).lists_below(
                self.values.len(),
            )
    }
}

/// The metadata found in a chart's values file.
#[derive(Debug)]
pub struct ChartMetadata {
    sections: Vec<SectionMetadata>,
    values: Vec<ValueMetadata>,
}

impl View for ChartMetadata {
    type V = ChartView;

    closed spec fn view(&self) -> ChartView {
        ChartView {
            sections: Seq::new(self.sections@.len(), |i: int| self.sections@[i]@),
            values: Seq::new(self.values@.len(), |i: int| self.values@[i]@),
        }
    }
}

impl ChartMetadata {
    pub fn new() -> (made: ChartMetadata)
        ensures
            made@ == ChartView::empty(),
            made@.wf(),
    {
        let made = ChartMetadata { sections: Vec::new(), values: Vec::new() };
        assert(made@.sections == Seq::<SectionView>::empty());
        assert(made@.values == Seq::<ValueView>::empty());
        made
    }

    /// Appends a section to the section list.
    pub fn add_section(&mut self, section: SectionMetadata)
        ensures
            final(self)@ == old(self)@.add_section(section@),
            old(self)@.wf() && section@.lists_below(old(self)@.values.len()) ==> final(self)@.wf(),
    {
        self.sections.push(section);
        assert(self@.sections == old(self)@.sections.push(section@));
    }

    /// Appends a value to the flat list.
    pub fn add_value(&mut self, chart_value: ValueMetadata)
        ensures
            final(self)@ == old(self)@.add_value(chart_value@),
            old(self)@.wf() ==> final(self)@.wf(),
    {
        self.values.push(chart_value);
        assert(self@.values == old(self)@.values.push(chart_value@));
        assert(old(self)@.wf() ==> self@.wf()) by {
            if old(self)@.wf() {
                assert forall|s: int| 0 <= s < self@.sections.len() implies (
                #[trigger] self@.sections[s]).lists_below(self@.values.len()) by {
                    assert(old(self)@.sections[s].lists_below(old(self)@.values.len()));
                }
            }
        }
    }

    /// Appends the value at index `value` of the flat list to the section at
    /// index `section`. Nothing changes where there is no such section.
    pub fn attach_value(&mut self, section: usize, value: usize)
        ensures
            final(self)@ == old(self)@.attach(section as nat, value as nat),
            old(self)@.wf() && value < old(self)@.values.len() ==> final(self)@.wf(),
    {
        if section < self.sections.len() {
            self.sections[section].add_value(value);
            assert(self@.sections == old(self)@.attach(section as nat, value as nat).sections);
            assert(old(self)@.wf() && value < old(self)@.values.len() ==> self@.wf()) by {
                if old(self)@.wf() && value < old(self)@.values.len() {
                    assert forall|s: int| 0 <= s < self@.sections.len() implies (
                    #[trigger] self@.sections[s]).lists_below(self@.values.len()) by {
                        assert(old(self)@.sections[s].lists_below(old(self)@.values.len()));
                    }
                }
            }
        }
    }

    /// Appends `line` to the description of the section at index `section`.
    /// Nothing changes where there is no such section.
    pub fn add_section_descr(&mut self, section: usize, line: String)
        ensures
            final(self)@ == old(self)@.describe(section as nat, line@),
            old(self)@.wf() ==> final(self)@.wf(),
    {
        if section < self.sections.len() {
            self.sections[section].add_descr(line);
            assert(self@.sections == old(self)@.describe(section as nat, line@).sections);
            assert(old(self)@.wf() ==> self@.wf()) by {
                if old(self)@.wf() {
                    assert forall|s: int| 0 <= s < self@.sections.len() implies (
                    #[trigger] self@.sections[s]).lists_below(self@.values.len()) by {
                        assert(old(self)@.sections[s].lists_below(old(self)@.values.len()));
                    }
                }
            }
        }
    }

    pub fn sections(&self) -> (sections: &Vec<SectionMetadata>)
        ensures
            sections@.len() == self@.sections.len(),
            forall|i: int| 0 <= i < sections@.len() ==> sections@[i]@ == self@.sections[i],
    {
        &self.sections
    }

    pub fn values(&self) -> (values: &Vec<ValueMetadata>)
        ensures
            values@.len() == self@.values.len(),
            forall|i: int| 0 <= i < values@.len() ==> values@[i]@ == self@.values[i],
    {
        &self.values
    }
}

} // verus!
