//! What holds of every run of the scanner: the order of what it finds, the
//! links between sections and values, the flags of the values, and how a
//! description block is gathered.

use crate::metadata::chart::ChartView;
use crate::metadata::parser::{
    section_after, step_of, steps_of, with_description, with_section, with_value, ParserPatterns,
    StateView, TagsView,
};
use crate::metadata::tags::line_value;
use crate::metadata::value::ValueView;
use crate::text::joined;
use vstd::prelude::*;

verus! {

/// The values that the lines create, in the order of the lines.
pub open spec fn values_in(tags: Seq<TagsView>) -> Seq<ValueView>
    decreases tags.len(),
{
    if tags.len() == 0 {
        Seq::empty()
    } else if tags.last().value is Some {
        values_in(tags.drop_last()).push(tags.last().value->0)
    } else {
        values_in(tags.drop_last())
    }
}

/// The titles of the sections that the lines open, in the order of the
/// lines.
pub open spec fn titles_in(tags: Seq<TagsView>) -> Seq<Seq<char>>
    decreases tags.len(),
{
    if tags.len() == 0 {
        Seq::empty()
    } else if tags.last().section is Some {
        titles_in(tags.drop_last()).push(tags.last().section->0)
    } else {
        titles_in(tags.drop_last())
    }
}

/// The values that the sections list, read section by section, come in
/// rising order of their indices in the flat list. So no value is listed
/// twice, a section lists its values in the order in which they were first
/// seen, and the sections follow each other in that order too.
pub open spec fn listed_in_order(chart: ChartView) -> bool {
    forall|s: int, j: int, t: int, k: int|
        #![trigger chart.sections[s].values[j], chart.sections[t].values[k]]
        0 <= s <= t < chart.sections.len() && 0 <= j < chart.sections[s].values.len() && 0 <= k
            < chart.sections[t].values.len() && (s < t || j < k) ==> chart.sections[s].values[j]
            < chart.sections[t].values[k]
}

/// What links the scanner's memory to the chart while it reads a file from
/// its first line: the current section is the last one, the sections list
/// values of the flat list only, and they list them in order.
pub open spec fn linked(chart: ChartView, state: StateView) -> bool {
    &&& state.current_section == if chart.sections.len() == 0 {
        None::<nat>
    } else {
        Some((chart.sections.len() - 1) as nat)
    }
    &&& chart.wf()
    &&& listed_in_order(chart)
}

/// A run of lines can be taken in two parts.
pub proof fn lemma_steps_append(
    chart: ChartView,
    state: StateView,
    first: Seq<TagsView>,
    second: Seq<TagsView>,
)
    ensures
        steps_of(chart, state, first + second) == steps_of(
            steps_of(chart, state, first).0,
            steps_of(chart, state, first).1,
            second,
        ),
    decreases second.len(),
{
    if second.len() == 0 {
        assert(first + second == first);
    } else {
        lemma_steps_append(chart, state, first, second.drop_last());
        assert((first + second).drop_last() == first + second.drop_last());
        assert((first + second).last() == second.last());
    }
}

/// A run of one line is one step.
pub proof fn lemma_one_step(chart: ChartView, state: StateView, tags: TagsView)
    ensures
        steps_of(chart, state, seq![tags]) == step_of(chart, state, tags),
{
    let run = seq![tags];
    assert(run.drop_last() == Seq::<TagsView>::empty());
    assert(steps_of(chart, state, run.drop_last()) == (chart, state));
    assert(run.last() == tags);
}

/// One step appends the line's value to the flat list and the line's
/// section to the section list, and changes nothing that was there but the
/// descriptions and the value lists of the sections.
pub proof fn lemma_step_appends(chart: ChartView, state: StateView, tags: TagsView)
    ensures
        ({
            let after = step_of(chart, state, tags).0;
            &&& after.values == if tags.value is Some {
                chart.values.push(tags.value->0)
            } else {
                chart.values
            }
            &&& after.sections.len() == chart.sections.len() + if tags.section is Some {
                1int
            } else {
                0int
            }
            &&& forall|s: int|
                0 <= s < chart.sections.len() ==> (#[trigger] after.sections[s]).name
                    == chart.sections[s].name
            &&& tags.section is Some ==> after.sections[chart.sections.len() as int].name
                == tags.section->0
        }),
{
    let valued = with_value(chart, state, tags);
    let sectioned = with_section(valued, tags);
    assert(valued.sections.len() == chart.sections.len());
    assert forall|s: int| 0 <= s < chart.sections.len() implies (#[trigger] valued.sections[s]).name
        == chart.sections[s].name by {}
    match section_after(valued, state, tags) {
        Some(current) => {
            let described = with_description(sectioned, current, state.descr_parsing, tags).0;
            assert(described.sections.len() == sectioned.sections.len());
            assert forall|s: int| 0 <= s < sectioned.sections.len() implies (
            #[trigger] described.sections[s]).name == sectioned.sections[s].name by {}
        },
        None => {},
    }
}

/// The scanner keeps the order of the file. After a run of lines the flat
/// list holds, after what it held, the values of the lines in the order of
/// the lines; and the section list holds, after what it held, one section
/// for each section tag, in the order of the lines and under the tag's
/// title.
pub proof fn lemma_first_seen_order(chart: ChartView, state: StateView, tags: Seq<TagsView>)
    ensures
        ({
            let after = steps_of(chart, state, tags).0;
            &&& after.values == chart.values + values_in(tags)
            &&& after.sections.len() == chart.sections.len() + titles_in(tags).len()
            &&& forall|s: int|
                0 <= s < chart.sections.len() ==> (#[trigger] after.sections[s]).name
                    == chart.sections[s].name
            &&& forall|s: int|
                0 <= s < titles_in(tags).len() ==> (#[trigger] after.sections[
                    chart.sections.len() + s
                ]).name == titles_in(tags)[s]
        }),
    decreases tags.len(),
{
    if tags.len() == 0 {
        assert(chart.values + values_in(tags) == chart.values);
    } else {
        let (before, memory) = steps_of(chart, state, tags.drop_last());
        lemma_first_seen_order(chart, state, tags.drop_last());
        lemma_step_appends(before, memory, tags.last());
        let after = steps_of(chart, state, tags).0;
        assert(after.values == chart.values + values_in(tags));
        assert forall|s: int| 0 <= s < chart.sections.len() implies (
        #[trigger] after.sections[s]).name == chart.sections[s].name by {
            assert(before.sections[s].name == chart.sections[s].name);
        }
        assert forall|s: int| 0 <= s < titles_in(tags).len() implies (#[trigger] after.sections[
            chart.sections.len() + s
        ]).name == titles_in(tags)[s] by {
            if s < titles_in(tags.drop_last()).len() {
                assert(before.sections[chart.sections.len() + s].name == titles_in(
                    tags.drop_last(),
                )[s]);
            }
        }
    }
}

/// One step keeps the links between the memory and the chart.
pub proof fn lemma_step_keeps_links(chart: ChartView, state: StateView, tags: TagsView)
    requires
        linked(chart, state),
    ensures
        linked(step_of(chart, state, tags).0, step_of(chart, state, tags).1),
{
    let valued = with_value(chart, state, tags);
    assert(linked(valued, state)) by {
        if tags.value is Some && state.current_section is Some {
            let last = chart.sections.len() - 1;
            let fresh = chart.values.len();
            assert(valued.sections[last].values == chart.sections[last].values.push(fresh));
            assert forall|s: int, k: int|
                0 <= s < valued.sections.len() && 0 <= k
                    < valued.sections[s].values.len() implies #[trigger] valued.sections[s].values[k]
                < valued.values.len() by {
                if s < last || k < chart.sections[last].values.len() {
                    assert(chart.sections[s].values[k] < chart.values.len());
                }
            }
            assert forall|s: int, j: int, t: int, k: int|
                #![trigger valued.sections[s].values[j], valued.sections[t].values[k]]
                0 <= s <= t < valued.sections.len() && 0 <= j < valued.sections[s].values.len()
                    && 0 <= k < valued.sections[t].values.len() && (s < t || j < k) implies
                valued.sections[s].values[j] < valued.sections[t].values[k] by {
                assert(chart.sections[s].values[j] < chart.values.len());
                if t < last || k < chart.sections[last].values.len() {
                    assert(chart.sections[s].values[j] < chart.sections[t].values[k]);
                }
            }
        } else if tags.value is Some {
            assert forall|s: int, k: int|
                0 <= s < valued.sections.len() && 0 <= k
                    < valued.sections[s].values.len() implies #[trigger] valued.sections[s].values[k]
                < valued.values.len() by {
                assert(chart.sections[s].values[k] < chart.values.len());
            }
        }
    }
    let sectioned = with_section(valued, tags);
    let current = section_after(valued, state, tags);
    let memory = StateView { current_section: current, ..state };
    assert(linked(sectioned, memory)) by {
        assert forall|s: int, k: int|
            0 <= s < sectioned.sections.len() && 0 <= k
                < sectioned.sections[s].values.len() implies #[trigger] sectioned.sections[s].values[k]
            < sectioned.values.len() by {
            assert(valued.sections[s].values[k] < valued.values.len());
        }
        assert forall|s: int, j: int, t: int, k: int|
            #![trigger sectioned.sections[s].values[j], sectioned.sections[t].values[k]]
            0 <= s <= t < sectioned.sections.len() && 0 <= j < sectioned.sections[s].values.len()
                && 0 <= k < sectioned.sections[t].values.len() && (s < t || j < k) implies
            sectioned.sections[s].values[j] < sectioned.sections[t].values[k] by {
            assert(valued.sections[s].values[j] < valued.sections[t].values[k]);
        }
    }
    match current {
        Some(current) => {
            let (described, parsing) = with_description(
                sectioned,
                current,
                state.descr_parsing,
                tags,
            );
            assert(described.values == sectioned.values);
            assert(described.sections.len() == sectioned.sections.len());
            assert forall|s: int| 0 <= s < sectioned.sections.len() implies (
            #[trigger] described.sections[s]).values == sectioned.sections[s].values by {}
            assert forall|s: int, k: int|
                0 <= s < described.sections.len() && 0 <= k
                    < described.sections[s].values.len() implies
                #[trigger] described.sections[s].values[k] < described.values.len() by {
                assert(sectioned.sections[s].values[k] < sectioned.values.len());
            }
            assert forall|s: int, j: int, t: int, k: int|
                #![trigger described.sections[s].values[j], described.sections[t].values[k]]
                0 <= s <= t < described.sections.len() && 0 <= j
                    < described.sections[s].values.len() && 0 <= k
                    < described.sections[t].values.len() && (s < t || j < k) implies
                described.sections[s].values[j] < described.sections[t].values[k] by {
                assert(sectioned.sections[s].values[j] < sectioned.sections[t].values[k]);
            }
        },
        None => {},
    }
}

/// A run of lines keeps the links between the memory and the chart.
pub proof fn lemma_steps_keep_links(chart: ChartView, state: StateView, tags: Seq<TagsView>)
    requires
        linked(chart, state),
    ensures
        linked(steps_of(chart, state, tags).0, steps_of(chart, state, tags).1),
    decreases tags.len(),
{
    if tags.len() > 0 {
        lemma_steps_keep_links(chart, state, tags.drop_last());
        let (before, memory) = steps_of(chart, state, tags.drop_last());
        lemma_step_keeps_links(before, memory, tags.last());
    }
}

/// The metadata of a file is well formed and in the order of the file. Every
/// value that a section lists is in the flat list; the values of the
/// sections, read section by section, come in the order in which they were
/// first seen, each of them once; the flat list holds the values of the
/// lines in the order of the lines; and the sections are those that the
/// lines open, in the order of the lines.
pub proof fn lemma_parsed_in_order(patterns: ParserPatterns, lines: Seq<Seq<char>>)
    ensures
        patterns.parsed(lines).wf(),
        listed_in_order(patterns.parsed(lines)),
        patterns.parsed(lines).values == values_in(patterns.tags_of(lines)),
        patterns.parsed(lines).sections.len() == titles_in(patterns.tags_of(lines)).len(),
        forall|s: int|
            0 <= s < patterns.parsed(lines).sections.len() ==> (#[trigger] patterns.parsed(
                lines,
            ).sections[s]).name == titles_in(patterns.tags_of(lines))[s],
{
    let tags = patterns.tags_of(lines);
    lemma_steps_keep_links(ChartView::empty(), StateView::initial(), tags);
    lemma_first_seen_order(ChartView::empty(), StateView::initial(), tags);
    assert(ChartView::empty().values + values_in(tags) == values_in(tags));
    let parsed = patterns.parsed(lines);
    assert forall|s: int| 0 <= s < parsed.sections.len() implies (#[trigger] parsed.sections[s]).name
        == titles_in(tags)[s] by {
        assert(parsed.sections[ChartView::empty().sections.len() + s].name == titles_in(tags)[s]);
    }
}

/// The values that the lines give to the section that the section tag number
/// `section` opens, counting from 0, each by its index in the flat list. A
/// line gives its value to that section where the lines before it hold
/// `section + 1` section tags: the line stands after the section's tag and
/// not after the next one.
pub open spec fn listed_in(tags: Seq<TagsView>, section: nat) -> Seq<nat>
    decreases tags.len(),
{
    if tags.len() == 0 {
        Seq::empty()
    } else {
        let before = listed_in(tags.drop_last(), section);
        if tags.last().value is Some && titles_in(tags.drop_last()).len() == section + 1 {
            before.push(values_in(tags.drop_last()).len())
        } else {
            before
        }
    }
}

/// The lines give no value to a section that none of them opens.
pub proof fn lemma_listed_in_unopened(tags: Seq<TagsView>, section: nat)
    requires
        titles_in(tags).len() <= section,
    ensures
        listed_in(tags, section) == Seq::<nat>::empty(),
    decreases tags.len(),
{
    if tags.len() > 0 {
        lemma_listed_in_unopened(tags.drop_last(), section);
    }
}

/// After a run of lines from the first line of a file, every section lists
/// the values that the lines give to it, and no others.
pub proof fn lemma_sections_list(tags: Seq<TagsView>)
    ensures
        ({
            let (chart, state) = steps_of(ChartView::empty(), StateView::initial(), tags);
            &&& linked(chart, state)
            &&& chart.values.len() == values_in(tags).len()
            &&& chart.sections.len() == titles_in(tags).len()
            &&& forall|s: int|
                0 <= s < chart.sections.len() ==> (#[trigger] chart.sections[s]).values
                    == listed_in(tags, s as nat)
        }),
    decreases tags.len(),
{
    let start = ChartView::empty();
    let initial = StateView::initial();
    lemma_steps_keep_links(start, initial, tags);
    lemma_first_seen_order(start, initial, tags);
    let (chart, state) = steps_of(start, initial, tags);
    assert(start.values + values_in(tags) == values_in(tags));
    if tags.len() > 0 {
        let head = tags.drop_last();
        let last = tags.last();
        lemma_sections_list(head);
        let (before, memory) = steps_of(start, initial, head);
        let valued = with_value(before, memory, last);
        let sectioned = with_section(valued, last);
        assert forall|s: int| 0 <= s < chart.sections.len() implies (
        #[trigger] chart.sections[s]).values == listed_in(tags, s as nat) by {
            if s < before.sections.len() {
                assert(before.sections[s].values == listed_in(head, s as nat));
                assert(sectioned.sections[s] == valued.sections[s]);
                assert(chart.sections[s].values == valued.sections[s].values);
            } else {
                lemma_listed_in_unopened(head, s as nat);
                assert(chart.sections[s].values == sectioned.sections[s].values);
            }
        }
    }
}

/// A section lists the values of the lines that stand after its tag and not
/// after the next section tag, in the order of the lines, and no others. A
/// line that holds a value tag and a section tag gives its value to the
/// section that was open before it.
pub proof fn lemma_sections_list_their_lines(patterns: ParserPatterns, lines: Seq<Seq<char>>)
    ensures
        forall|s: int|
            0 <= s < patterns.parsed(lines).sections.len() ==> (#[trigger] patterns.parsed(
                lines,
            ).sections[s]).values == listed_in(patterns.tags_of(lines), s as nat),
{
    lemma_sections_list(patterns.tags_of(lines));
}

/// The flags of a value follow from the tag that made it. A value tag makes
/// a value that is validated and rendered; a skip tag one that is neither;
/// an extra tag one that is rendered but not validated.
pub proof fn lemma_flag_semantics(
    param: Option<Seq<Option<Seq<char>>>>,
    skip: Option<Seq<Option<Seq<char>>>>,
    extra: Option<Seq<Option<Seq<char>>>>,
)
    ensures
        param is Some ==> line_value(param, skip, extra) is Some && line_value(
            param,
            skip,
            extra,
        )->0.should_validate && line_value(param, skip, extra)->0.render_in_readme,
        param is None && skip is Some ==> line_value(param, skip, extra) is Some && !line_value(
            param,
            skip,
            extra,
        )->0.should_validate && !line_value(param, skip, extra)->0.render_in_readme
            && line_value(param, skip, extra)->0.has_skipped(),
        param is None && skip is None && extra is Some ==> line_value(param, skip, extra) is Some
            && !line_value(param, skip, extra)->0.should_validate && line_value(
            param,
            skip,
            extra,
        )->0.render_in_readme && line_value(param, skip, extra)->0.has_extra(),
        param is None && skip is None && extra is None ==> line_value(param, skip, extra) is None,
{
}

/// The flags of a value after `skip` and after `set_extra`, whatever they
/// were before.
pub proof fn lemma_flags_of(value: ValueView)
    ensures
        ValueView::fresh(value.name, value.modifiers, value.descr).should_validate,
        ValueView::fresh(value.name, value.modifiers, value.descr).render_in_readme,
        !value.skipped().should_validate && !value.skipped().render_in_readme,
        !value.extra().should_validate && value.extra().render_in_readme,
        value.skipped().has_skipped() && !value.skipped().has_extra(),
        value.extra().has_extra() && !value.extra().has_skipped(),
{
}

/// The content of a run of comment lines.
pub open spec fn contents_of(tags: Seq<TagsView>) -> Seq<Seq<char>> {
    Seq::new(tags.len(), |i: int| tags[i].descr_content->0)
}

/// While a description is open, a run of comment lines that hold neither a
/// section tag nor the end tag adds its contents, in order, to the
/// description of the current section, and leaves the description open.
pub proof fn lemma_content_lines(
    chart: ChartView,
    state: StateView,
    section: nat,
    contents: Seq<TagsView>,
)
    requires
        state.current_section == Some(section),
        section < chart.sections.len(),
        state.descr_parsing,
        forall|i: int|
            0 <= i < contents.len() ==> (#[trigger] contents[i]).section is None
                && !contents[i].descr_end && contents[i].descr_content is Some,
    ensures
        steps_of(chart, state, contents).1 == state,
        steps_of(chart, state, contents).0.sections.len() == chart.sections.len(),
        steps_of(chart, state, contents).0.sections[section as int].descr
            == chart.sections[section as int].descr + contents_of(contents),
    decreases contents.len(),
{
    if contents.len() == 0 {
        assert(chart.sections[section as int].descr + contents_of(contents)
            == chart.sections[section as int].descr);
    } else {
        let head = contents.drop_last();
        lemma_content_lines(chart, state, section, head);
        let (before, memory) = steps_of(chart, state, head);
        let tags = contents.last();
        let valued = with_value(before, memory, tags);
        assert(valued.sections.len() == before.sections.len());
        assert(valued.sections[section as int].descr == before.sections[section as int].descr);
        assert(contents_of(contents) == contents_of(head).push(tags.descr_content->0));
    }
}

/// A description block is gathered line by line. Let a section be current
/// and no description open. Then a line with the start tag, a run of
/// comment lines and a line with the end tag, none of them with a section
/// tag, add to the description of that section the text that follows the
/// start tag on its line, where there is any, and then the contents of the
/// comment lines in order: the lines with the two tags add nothing of
/// their own. The description is closed again. So the description of a
/// section that had none, after a start tag alone on its line, is the
/// contents of the comment lines with a line break between each two.
pub proof fn lemma_description_block(
    chart: ChartView,
    state: StateView,
    section: nat,
    start: TagsView,
    contents: Seq<TagsView>,
    end: TagsView,
)
    requires
        state.current_section == Some(section),
        section < chart.sections.len(),
        !state.descr_parsing,
        start.section is None,
        start.descr_start is Some,
        forall|i: int|
            0 <= i < contents.len() ==> (#[trigger] contents[i]).section is None
                && !contents[i].descr_end && contents[i].descr_content is Some,
        end.section is None,
        end.descr_end,
    ensures
        ({
            let (after, memory) = steps_of(chart, state, seq![start] + contents + seq![end]);
            let inline = if start.descr_start->0.len() > 0 {
                seq![start.descr_start->0]
            } else {
                Seq::<Seq<char>>::empty()
            };
            &&& memory == state
            &&& after.sections.len() == chart.sections.len()
            &&& after.sections[section as int].descr == chart.sections[section as int].descr
                + inline + contents_of(contents)
            &&& chart.sections[section as int].descr.len() == 0 && start.descr_start->0.len() == 0
                ==> after.sections[section as int].descr_text() == joined(
                contents_of(contents),
                seq!['\n'],
            )
        }),
{
    let inline = if start.descr_start->0.len() > 0 {
        seq![start.descr_start->0]
    } else {
        Seq::<Seq<char>>::empty()
    };
    let open = StateView { descr_parsing: true, ..state };
    // The line with the start tag.
    let first = seq![start];
    lemma_one_step(chart, state, start);
    let (opened, memory) = step_of(chart, state, start);
    let valued = with_value(chart, state, start);
    assert(valued.sections.len() == chart.sections.len());
    assert(valued.sections[section as int].descr == chart.sections[section as int].descr);
    assert(memory == open);
    assert(opened.sections[section as int].descr == chart.sections[section as int].descr + inline);
    // The comment lines.
    lemma_content_lines(opened, open, section, contents);
    lemma_steps_append(chart, state, first, contents);
    let (filled, still) = steps_of(opened, open, contents);
    // The line with the end tag.
    let last = seq![end];
    lemma_one_step(filled, still, end);
    lemma_steps_append(chart, state, first + contents, last);
    let closed = with_value(filled, still, end);
    assert(closed.sections.len() == filled.sections.len());
    assert(closed.sections[section as int].descr == filled.sections[section as int].descr);
    let after = steps_of(chart, state, first + contents + last).0;
    assert(after.sections[section as int].descr == chart.sections[section as int].descr + inline
        + contents_of(contents));
    if chart.sections[section as int].descr.len() == 0 && start.descr_start->0.len() == 0 {
        assert(after.sections[section as int].descr == contents_of(contents));
    }
}

/// The same of a file: where the lines before a description block leave a
/// section current and no description open, the block adds to the
/// description of that section the text that follows the start tag, where
/// there is any, and the contents of the comment lines between the two
/// tags, in the order of the file.
pub proof fn lemma_description_in_file(
    patterns: ParserPatterns,
    before: Seq<Seq<char>>,
    start: Seq<char>,
    contents: Seq<Seq<char>>,
    end: Seq<char>,
)
    requires
        patterns.scanned(before).1.current_section is Some,
        !patterns.scanned(before).1.descr_parsing,
        patterns.tags(start).section is None,
        patterns.tags(start).descr_start is Some,
        forall|i: int|
            0 <= i < contents.len() ==> patterns.tags(#[trigger] contents[i]).section is None
                && !patterns.tags(contents[i]).descr_end && patterns.tags(
                contents[i],
            ).descr_content is Some,
        patterns.tags(end).section is None,
        patterns.tags(end).descr_end,
    ensures
        ({
            let section = patterns.scanned(before).1.current_section->0 as int;
            let file = before + seq![start] + contents + seq![end];
            let inline = if patterns.tags(start).descr_start->0.len() > 0 {
                seq![patterns.tags(start).descr_start->0]
            } else {
                Seq::<Seq<char>>::empty()
            };
            &&& section < patterns.parsed(before).sections.len()
            &&& patterns.parsed(file).sections.len() == patterns.parsed(before).sections.len()
            &&& patterns.scanned(file).1 == patterns.scanned(before).1
            &&& patterns.parsed(file).sections[section].descr == patterns.parsed(
                before,
            ).sections[section].descr + inline + Seq::new(
                contents.len(),
                |i: int| patterns.tags(contents[i]).descr_content->0,
            )
        }),
{
    let (chart, state) = patterns.scanned(before);
    let section = state.current_section->0;
    lemma_steps_keep_links(ChartView::empty(), StateView::initial(), patterns.tags_of(before));
    let block = seq![start] + contents + seq![end];
    let file = before + seq![start] + contents + seq![end];
    assert(file == before + block);
    let tags = seq![patterns.tags(start)] + patterns.tags_of(contents) + seq![patterns.tags(end)];
    assert(patterns.tags_of(block) == tags);
    assert(patterns.tags_of(file) == patterns.tags_of(before) + tags);
    lemma_steps_append(
        ChartView::empty(),
        StateView::initial(),
        patterns.tags_of(before),
        tags,
    );
    lemma_description_block(
        chart,
        state,
        section,
        patterns.tags(start),
        patterns.tags_of(contents),
        patterns.tags(end),
    );
    assert(contents_of(patterns.tags_of(contents)) == Seq::new(
        contents.len(),
        |i: int| patterns.tags(contents[i]).descr_content->0,
    ));
}

/// A line that holds no tag and is no comment changes nothing.
pub proof fn lemma_plain_line(chart: ChartView, state: StateView, tags: TagsView)
    requires
        tags.value is None,
        tags.section is None,
        !tags.descr_end,
        tags.descr_content is None,
        tags.descr_start is None,
    ensures
        step_of(chart, state, tags) == (chart, state),
{
}

} // verus!
