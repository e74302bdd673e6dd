use crate::text::opt_text;
use vstd::prelude::*;

verus! {

/// What a documented chart value is, as mathematics.
pub struct ValueView {
    /// The dotted path of the value.
    pub name: Seq<char>,
    /// The chart's default for the value, where it is known.
    pub value: Option<Seq<char>>,
    /// The description given with the tag; a skipped value has none.
    pub descr: Option<Seq<char>>,
    /// The free-form labels given in brackets, in the order written.
    pub modifiers: Seq<Seq<char>>,
    /// The index of the section that the value was attached to, if any.
    pub section: Option<nat>,
    pub should_validate: bool,
    pub render_in_readme: bool,
}

impl ValueView {
    /// A value as its tag line creates it: validated and rendered, in no
    /// section, with no default known.
    pub open spec fn fresh(
        name: Seq<char>,
        modifiers: Seq<Seq<char>>,
        descr: Option<Seq<char>>,
    ) -> ValueView {
        ValueView {
            name,
            value: None,
            descr,
            modifiers,
            section: None,
            should_validate: true,
            render_in_readme: true,
        }
    }

    /// The value after a skip tag: neither validated nor rendered.
    pub open spec fn skipped(self) -> ValueView {
        ValueView { should_validate: false, render_in_readme: false, ..self }
    }

    /// The value after an extra tag: rendered, but not validated.
    pub open spec fn extra(self) -> ValueView {
        ValueView { should_validate: false, render_in_readme: true, ..self }
    }

    pub open spec fn has_skipped(self) -> bool {
        !self.should_validate && !self.render_in_readme
    }

    pub open spec fn has_extra(self) -> bool {
        !self.should_validate && self.render_in_readme
    }
}

/// One documented chart value.
#[derive(Debug)]
pub struct ValueMetadata {
    name: String,
    value: Option<String>,
    descr: Option<String>,
    modifiers: Vec<String>,
    section: Option<usize>,
    should_validate: bool,
    render_in_readme: bool,
}

impl View for ValueMetadata {
    type V = ValueView;

    closed spec fn view(&self) -> ValueView {
        ValueView {
            name: self.name@,
            value: opt_text(self.value),
            descr: opt_text(self.descr),
            modifiers: self.modifiers.deep_view(),
            section: match self.section {
                Some(index) => Some(index as nat),
                None => None,
            },
            should_validate: self.should_validate,
            render_in_readme: self.render_in_readme,
        }
    }
}

impl ValueMetadata {
    pub fn new(name: String, modifiers: Vec<String>, descr: Option<String>) -> (made: ValueMetadata)
        ensures
            made@ == ValueView::fresh(name@, modifiers.deep_view(), opt_text(descr)),
    {
        ValueMetadata {
            name,
            value: None,
            modifiers,
            descr,
            section: None,
            should_validate: true,
            render_in_readme: true,
        }
    }

    pub fn name(&self) -> (name: &String)
        ensures
            name@ == self@.name,
    {
        &self.name
    }

    pub fn descr(&self) -> (descr: &Option<String>)
        ensures
            opt_text(*descr) == self@.descr,
    {
        &self.descr
    }

    pub fn modifiers(&self) -> (modifiers: &Vec<String>)
        ensures
            modifiers.deep_view() == self@.modifiers,
    {
        &self.modifiers
    }

    pub fn value(&self) -> (value: &Option<String>)
        ensures
            opt_text(*value) == self@.value,
    {
        &self.value
    }

    /// Records the chart's default for this value.
    pub fn set_value(&mut self, value: String)
        ensures
            final(self)@ == (ValueView { value: Some(value@), ..old(self)@ }),
    {
        self.value = Some(value);
    }

    pub fn section(&self) -> (section: Option<usize>)
        ensures
            match section {
                Some(index) => self@.section == Some(index as nat),
                None => self@.section is None,
            },
    {
        self.section
    }

    /// Notes the section, by its index in the chart's section list, that the
    /// value belongs to. The note owns nothing and changes no section.
    pub fn set_section(&mut self, section: usize)
        ensures
            final(self)@ == (ValueView { section: Some(section as nat), ..old(self)@ }),
    {
        self.section = Some(section);
    }

    pub fn skip(&mut self)
        ensures
            final(self)@ == old(self)@.skipped(),
    {
        self.should_validate = false;
        self.render_in_readme = false;
    }

    pub fn has_skipped(&self) -> (skipped: bool)
        ensures
            skipped == self@.has_skipped(),
    {
        !self.should_validate && !self.render_in_readme
    }

    pub fn set_extra(&mut self)
        ensures
            final(self)@ == old(self)@.extra(),
    {
        self.should_validate = false;
        self.render_in_readme = true;
    }

    pub fn has_extra(&mut self) -> (extra: bool)
        ensures
            extra == old(self)@.has_extra(),
            final(self)@ == old(self)@,
    {
        !self.should_validate && self.render_in_readme
    }

    pub fn should_validate(&self) -> (validate: bool)
        ensures
            validate == self@.should_validate,
    {
        self.should_validate
    }

    pub fn render_in_readme(&self) -> (render: bool)
        ensures
            render == self@.render_in_readme,
    {
        self.render_in_readme
    }
}

} // verus!
