//! The block of text that documents a chart: for each section a heading,
//! the section's description and a table of its values.

use crate::config::ConfigError;
use crate::metadata::chart::{ChartMetadata, ChartView};
use crate::metadata::section::{SectionMetadata, SectionView};
use crate::metadata::value::{ValueMetadata, ValueView};
use crate::table::{lay_out_table, markdown_table};
use vstd::prelude::*;

verus! {

/// Why a document could not be rendered.
#[derive(Debug)]
pub enum RenderError {
    /// A table could not be laid out: one of its rows has more cells than
    /// the table has headings.
    Table,
    /// The pattern of the heading that ends the parameters section could not
    /// be compiled.
    Pattern(ConfigError),
}

impl RenderError {
    /// What the error says.
    pub open spec fn text(self) -> Seq<char> {
        match self {
            RenderError::Table => "a table of values could not be laid out"@,
            RenderError::Pattern(error) => error@,
        }
    }

    /// What went wrong, in words.
    pub fn message(&self) -> (message: String)
        ensures
            message@ == self.text(),
    {
        match self {
            RenderError::Table => "a table of values could not be laid out".to_owned(),
            RenderError::Pattern(error) => error.message().clone(),
        }
    }
}

/// The headings of a table of values.
pub open spec fn table_headings() -> Seq<Seq<char>> {
    seq!["Name"@, "Description"@, "Value"@]
}

/// The row of a value: its name between back-ticks, its description, and its
/// default between back-ticks, or a placeholder where no default is known.
pub open spec fn row_of(value: ValueView) -> Seq<Seq<char>> {
    seq![
        "`"@ + value.name + "`"@,
        match value.descr {
            Some(descr) => descr,
            None => Seq::empty(),
        },
        match value.value {
            Some(default) => "`"@ + default + "`"@,
            None => "`{}`"@,
        },
    ]
}

/// The rows of the values that a section lists, in the order listed. A value
/// that is not to be rendered has no row.
pub open spec fn rows_of(values: Seq<ValueView>, listed: Seq<nat>) -> Seq<Seq<Seq<char>>>
    decreases listed.len(),
{
    if listed.len() == 0 {
        Seq::empty()
    } else {
        let before = rows_of(values, listed.drop_last());
        let index = listed.last();
        if index < values.len() && values[index as int].render_in_readme {
            before.push(row_of(values[index as int]))
        } else {
            before
        }
    }
}

/// The table of the given rows under the headings of a table of values.
/// There is none where a row has more cells than there are headings.
pub open spec fn table_of(rows: Seq<Seq<Seq<char>>>) -> Option<Seq<char>> {
    if forall|i: int| 0 <= i < rows.len() ==> (#[trigger] rows[i]).len() <= 3 {
        Some(markdown_table(table_headings(), rows))
    } else {
        None
    }
}

/// Every row of a value has three cells.
pub proof fn lemma_rows_have_three_cells(values: Seq<ValueView>, listed: Seq<nat>)
    ensures
        forall|i: int|
            0 <= i < rows_of(values, listed).len() ==> (#[trigger] rows_of(values, listed)[i]).len()
                == 3,
    decreases listed.len(),
{
    if listed.len() > 0 {
        lemma_rows_have_three_cells(values, listed.drop_last());
        let before = rows_of(values, listed.drop_last());
        let rows = rows_of(values, listed);
        assert forall|i: int| 0 <= i < rows.len() implies (#[trigger] rows[i]).len() == 3 by {
            if i < before.len() {
                assert(rows[i] == before[i]);
            } else {
                assert(rows[i] == row_of(values[listed.last() as int]));
            }
        }
    }
}

/// What stands above the table of a section: an empty line, the heading, an
/// empty line, and the description with an empty line after it where the
/// section has one.
pub open spec fn section_head(section: SectionView, header: Seq<char>) -> Seq<char> {
    let heading = "\r\n"@ + header + " "@ + section.name + "\r\n\n"@;
    if section.descr_text().len() > 0 {
        heading + section.descr_text() + " \r\n\n"@
    } else {
        heading
    }
}

/// The block of one section: its head, and the table of its rows where it
/// has any.
pub open spec fn section_block(values: Seq<ValueView>, section: SectionView, header: Seq<char>)
    -> Seq<char> {
    let rows = rows_of(values, section.values);
    if rows.len() == 0 {
        section_head(section, header)
    } else {
        section_head(section, header) + markdown_table(table_headings(), rows)
    }
}

/// The blocks of the first `count` sections, one after the other in the
/// order of the section list.
pub open spec fn blocks_of(chart: ChartView, header: Seq<char>, count: nat) -> Seq<char>
    decreases count,
{
    if count == 0 || count > chart.sections.len() {
        Seq::empty()
    } else {
        blocks_of(chart, header, (count - 1) as nat) + section_block(
            chart.values,
            chart.sections[count - 1],
            header,
        )
    }
}

/// The block of a whole chart.
pub open spec fn chart_block(chart: ChartView, header: Seq<char>) -> Seq<char> {
    blocks_of(chart, header, chart.sections.len())
}

/// Builds the row of a value.
pub fn value_row(value: &ValueMetadata) -> (row: Vec<String>)
    ensures
        row.deep_view() == row_of(value@),
{
    let mut name = "`".to_owned();
    name.append(value.name().as_str());
    name.append("`");
    let descr = match value.descr() {
        Some(descr) => descr.clone(),
        None => String::new(),
    };
    let default = match value.value() {
        Some(default) => {
            let mut quoted = "`".to_owned();
            quoted.append(default.as_str());
            quoted.append("`");
            quoted
        },
        None => "`{}`".to_owned(),
    };
    let mut row: Vec<String> = Vec::new();
    row.push(name);
    row.push(descr);
    row.push(default);
    assert(row.deep_view() == row_of(value@));
    row
}

/// Builds the rows of the values that a section lists.
pub fn section_rows(values: &Vec<ValueMetadata>, section: &SectionMetadata) -> (rows: Vec<
    Vec<String>,
>)
    ensures
        rows.deep_view() == rows_of(values_view(values@), section@.values),
        forall|i: int| 0 <= i < rows@.len() ==> (#[trigger] rows@[i])@.len() == 3,
{
    let listed = section.values();
    let mut rows: Vec<Vec<String>> = Vec::new();
    let mut i: usize = 0;
    assert(section@.values.take(0) == Seq::<nat>::empty());
    assert(rows.deep_view() == Seq::<Seq<Seq<char>>>::empty());
    while i < listed.len()
        invariant
            i <= listed.len(),
            listed@.len() == section@.values.len(),
            forall|k: int| 0 <= k < listed@.len() ==> listed@[k] as nat == section@.values[k],
            rows.deep_view() == rows_of(values_view(values@), section@.values.take(i as int)),
            forall|k: int| 0 <= k < rows@.len() ==> (#[trigger] rows@[k])@.len() == 3,
        decreases listed.len() - i,
    {
        let index = listed[i];
        proof {
            let all = section@.values;
            assert(all.take(i + 1).drop_last() == all.take(i as int));
            assert(all.take(i + 1).last() == index as nat);
        }
        if index < values.len() && values[index].render_in_readme() {
            let row = value_row(&values[index]);
            let ghost before = rows.deep_view();
            assert(row@.len() == row.deep_view().len());
            rows.push(row);
            assert(rows.deep_view() == before.push(row_of(values@[index as int]@)));
        }
        i = i + 1;
    }
    proof {
        assert(section@.values.take(i as int) == section@.values);
    }
    rows
}

/// The views of a list of values.
pub open spec fn values_view(values: Seq<ValueMetadata>) -> Seq<ValueView> {
    Seq::new(values.len(), |i: int| values[i]@)
}

/// Renders the metadata of a chart as text.
#[derive(Debug)]
pub struct ChartMetadataRenderer {}

impl ChartMetadataRenderer {
    pub fn new() -> ChartMetadataRenderer {
        ChartMetadataRenderer {  }
    }

    /// The block of the whole chart: the blocks of its sections in the order
    /// of the section list. `section_header` is the marker that each section
    /// heading begins with.
    pub fn render(&self, chart_metadata: &ChartMetadata, section_header: &str) -> (rendered:
        Result<String, RenderError>)
        ensures
            rendered matches Ok(text) && text@ == chart_block(chart_metadata@, section_header@),
    {
        let sections = chart_metadata.sections();
        let values = chart_metadata.values();
        assert(values_view(values@) == chart_metadata@.values);
        let mut rendered = String::new();
        let mut i: usize = 0;
        while i < sections.len()
            invariant
                i <= sections.len(),
                sections@.len() == chart_metadata@.sections.len(),
                forall|k: int|
                    0 <= k < sections@.len() ==> sections@[k]@ == chart_metadata@.sections[k],
                values_view(values@) == chart_metadata@.values,
                blocks_of(chart_metadata@, section_header@, i as nat) == rendered@,
            decreases sections.len() - i,
        {
            match self.render_section(values, &sections[i], section_header) {
                Ok(block) => {
                    rendered.append(block.as_str());
                },
                Err(error) => {
                    return Err(error);
                },
            }
            i = i + 1;
        }
        Ok(rendered)
    }

    /// The block of one section of a chart whose flat list is `values`.
    pub fn render_section(
        &self,
        values: &Vec<ValueMetadata>,
        section: &SectionMetadata,
        section_header: &str,
    ) -> (rendered: Result<String, RenderError>)
        ensures
            rendered matches Ok(text) && text@ == section_block(
                values_view(values@),
                section@,
                section_header@,
            ),
    {
        let mut rendered = "\r\n".to_owned();
        rendered.append(section_header);
        rendered.append(" ");
        rendered.append(section.name().as_str());
        rendered.append("\r\n\n");
        let descr = section.descr();
        if !descr.as_str().is_empty() {
            rendered.append(descr.as_str());
            rendered.append(" \r\n\n");
        }
        assert(rendered@ == section_head(section@, section_header@));
        let rows = section_rows(values, section);
        if rows.len() > 0 {
            assert(rows.deep_view().len() == rows@.len());
            proof {
                lemma_rows_have_three_cells(values_view(values@), section@.values);
            }
            match self.render_section_values(&rows) {
                Ok(table) => {
                    rendered.append(table.as_str());
                },
                Err(error) => {
                    return Err(error);
                },
            }
        } else {
            assert(rows.deep_view().len() == rows@.len());
        }
        Ok(rendered)
    }

    /// The table of the given rows, under the headings Name, Description
    /// and Value. It fails where a row has more than three cells, and only
    /// there.
    pub fn render_section_values(&self, rows: &Vec<Vec<String>>) -> (table: Result<
        String,
        RenderError,
    >)
        ensures
            match table {
                Ok(text) => table_of(rows.deep_view()) == Some(text@),
                Err(error) => table_of(rows.deep_view()) is None && error is Table,
            },
    {
        let mut i: usize = 0;
        while i < rows.len()
            invariant
                i <= rows.len(),
                forall|k: int| 0 <= k < i ==> (#[trigger] rows@[k])@.len() <= 3,
            decreases rows.len() - i,
        {
            if rows[i].len() > 3 {
                assert(rows.deep_view()[i as int].len() > 3);
                return Err(RenderError::Table);
            }
            i = i + 1;
        }
        assert forall|k: int| 0 <= k < rows.deep_view().len() implies (
        #[trigger] rows.deep_view()[k]).len() <= 3 by {
            assert(rows@[k]@.len() <= 3);
        }
        let mut headings: Vec<String> = Vec::new();
        headings.push("Name".to_owned());
        headings.push("Description".to_owned());
        headings.push("Value".to_owned());
        assert(headings.deep_view() == table_headings());
        match lay_out_table(&headings, rows) {
            Some(table) => Ok(table),
            None => Err(RenderError::Table),
        }
    }
}

/// Rendering keeps the order of the values: the rows of a list of values are
/// the rows of its first part followed by the rows of its second part. So
/// the rows of a section stand in the order in which the section lists its
/// values.
pub proof fn lemma_rows_keep_order(values: Seq<ValueView>, first: Seq<nat>, second: Seq<nat>)
    ensures
        rows_of(values, first + second) == rows_of(values, first) + rows_of(values, second),
    decreases second.len(),
{
    if second.len() == 0 {
        assert(first + second == first);
        assert(rows_of(values, first) + rows_of(values, second) == rows_of(values, first));
    } else {
        lemma_rows_keep_order(values, first, second.drop_last());
        assert((first + second).drop_last() == first + second.drop_last());
        assert((first + second).last() == second.last());
        let before = rows_of(values, first) + rows_of(values, second.drop_last());
        let index = second.last();
        if index < values.len() && values[index as int].render_in_readme {
            assert(before.push(row_of(values[index as int])) == rows_of(values, first) + rows_of(
                values,
                second,
            ));
        }
    }
}

/// Rendering keeps the order of the sections: the block of a chart is the
/// blocks of its sections, one after the other in the order of the section
/// list.
pub proof fn lemma_blocks_keep_order(chart: ChartView, header: Seq<char>, count: nat)
    requires
        1 <= count <= chart.sections.len(),
    ensures
        blocks_of(chart, header, count) == blocks_of(chart, header, (count - 1) as nat)
            + section_block(chart.values, chart.sections[count - 1], header),
{
}

} // verus!
