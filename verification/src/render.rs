//! The section rewriter: it finds the heading of the parameters section in a
//! document and puts a freshly rendered block in the place of what stood
//! under that heading, keeping every other line as it is.

use crate::config::{Config, ConfigError};
use crate::markdown::{chart_block, ChartMetadataRenderer, RenderError};
use crate::metadata::chart::{ChartMetadata, ChartView};
use crate::metadata::tags::{first_group, text_of_first_group};
use crate::pattern::{
    captures, compile_pattern, escape, escaped, is_match, refusal, regex_accepts, regex_groups,
    regex_matches, regex_source,
};
use crate::text::{lines_of, opt_text, split_lines};
use vstd::prelude::*;

verus! {

/// The pattern of the heading of the parameters section: one or more heading
/// markers, as group 1, a space, and the title taken literally, with which
/// the line ends.
pub open spec fn heading_pattern(title: Seq<char>) -> Seq<char> {
    "^(#+) "@ + escaped(title) + "$"@
}

/// The pattern of a heading of the depth `level`: the markers taken
/// literally at the start of the line, and white space after them.
pub open spec fn boundary_pattern(level: Seq<char>) -> Seq<char> {
    "^"@ + escaped(level) + "\\s"@
}

/// The markers of the heading that `line` is, where it is the heading of the
/// parameters section.
pub open spec fn heading_level(pattern: Seq<char>, line: Seq<char>) -> Option<Seq<char>> {
    first_group(regex_groups(pattern, line))
}

/// For each line, whether it is a heading of the parameters section.
pub open spec fn heading_flags(pattern: Seq<char>, lines: Seq<Seq<char>>) -> Seq<bool> {
    Seq::new(lines.len(), |i: int| regex_groups(pattern, lines[i]) is Some)
}

/// For each line, whether it is a heading of the depth that `pattern` is for.
pub open spec fn boundary_flags(pattern: Seq<char>, lines: Seq<Seq<char>>) -> Seq<bool> {
    Seq::new(lines.len(), |i: int| regex_matches(pattern, lines[i]))
}

/// The first index from `from` on at which a flag is set; the number of
/// flags where none is.
pub open spec fn first_where(flags: Seq<bool>, from: int) -> int
    decreases flags.len() - from,
{
    if from < 0 || from >= flags.len() {
        flags.len() as int
    } else if flags[from] {
        from
    } else {
        first_where(flags, from + 1)
    }
}

/// The marker of the headings under the parameters heading: one level
/// deeper.
pub open spec fn sub_header(level: Seq<char>) -> Seq<char> {
    level + "#"@
}

/// The lines that stand under the parameters heading for a block of text: an
/// empty line, then the lines of the block.
pub open spec fn inserted_lines(block: Seq<char>) -> Seq<Seq<char>> {
    seq![Seq::<char>::empty()] + lines_of(block)
}

/// The document with `inserted` in the place of the lines after index
/// `heading` and before index `boundary`. An index beyond the document
/// counts as its end, and a `boundary` at or before `heading` as the line
/// after `heading`.
pub open spec fn spliced(
    document: Seq<Seq<char>>,
    heading: int,
    boundary: int,
    inserted: Seq<Seq<char>>,
) -> Seq<Seq<char>> {
    let kept = if heading + 1 < document.len() {
        heading + 1
    } else {
        document.len() as int
    };
    let resumed = if boundary < kept {
        kept
    } else if boundary < document.len() {
        boundary
    } else {
        document.len() as int
    };
    document.take(kept) + inserted + document.skip(resumed)
}

/// What rendering a document comes to.
pub enum Rewrite {
    /// No line is a heading of the parameters section.
    NotFound,
    /// The pattern of the headings of the section's depth does not compile;
    /// with what the error says.
    BadPattern(Seq<char>),
    /// The new lines of the document.
    Lines(Seq<Seq<char>>),
}

/// What rendering `document` with the metadata `chart` comes to, for a
/// renderer with the heading pattern `pattern`. The first heading of the
/// parameters section counts. The heading stays, the block follows it, and
/// the document goes on at the next heading of the same depth; where there
/// is none, it ends with the block.
pub open spec fn rewrite_of(pattern: Seq<char>, document: Seq<Seq<char>>, chart: ChartView)
    -> Rewrite {
    let heading = first_where(heading_flags(pattern, document), 0);
    if heading >= document.len() {
        Rewrite::NotFound
    } else {
        let level = heading_level(pattern, document[heading])->0;
        let boundary = first_where(
            boundary_flags(boundary_pattern(level), document),
            heading + 1,
        );
        if !regex_accepts(boundary_pattern(level)) {
            Rewrite::BadPattern(refusal(boundary_pattern(level)))
        } else {
            Rewrite::Lines(
                spliced(
                    document,
                    heading,
                    boundary,
                    inserted_lines(chart_block(chart, sub_header(level))),
                ),
            )
        }
    }
}

/// The new lines of a document, and whether the parameters section was
/// found. Where it was not, the lines are those of the document.
#[derive(Debug)]
pub struct Rendered {
    pub lines: Vec<String>,
    pub found: bool,
}

/// Copies the lines of `document` from index `from` up to index `to` to the
/// end of `out`.
fn copy_lines(out: &mut Vec<String>, document: &Vec<String>, from: usize, to: usize)
    requires
        from <= to <= document.len(),
    ensures
        final(out).deep_view() == old(out).deep_view() + document.deep_view().subrange(
            from as int,
            to as int,
        ),
{
    let mut i: usize = from;
    assert(document.deep_view().subrange(from as int, from as int) == Seq::<Seq<char>>::empty());
    assert(out.deep_view() + Seq::<Seq<char>>::empty() == out.deep_view());
    while i < to
        invariant
            from <= i <= to <= document.len(),
            out.deep_view() == old(out).deep_view() + document.deep_view().subrange(
                from as int,
                i as int,
            ),
        decreases to - i,
    {
        let ghost before = out.deep_view();
        out.push(document[i].clone());
        proof {
            assert(out.deep_view() == before.push(document[i as int]@));
            assert(document.deep_view().subrange(from as int, i + 1)
                == document.deep_view().subrange(from as int, i as int).push(
                document[i as int]@,
            ));
        }
        i = i + 1;
    }
}

/// Puts `inserted` into `document` in the place of the lines after index
/// `heading` and before index `boundary`.
pub fn splice(document: &Vec<String>, heading: usize, boundary: usize, inserted: &Vec<String>)
    -> (out: Vec<String>)
    ensures
        out.deep_view() == spliced(
            document.deep_view(),
            heading as int,
            boundary as int,
            inserted.deep_view(),
        ),
{
    let kept = if heading < document.len() {
        heading + 1
    } else {
        document.len()
    };
    let resumed = if boundary < kept {
        kept
    } else if boundary < document.len() {
        boundary
    } else {
        document.len()
    };
    let mut out: Vec<String> = Vec::new();
    assert(out.deep_view() == Seq::<Seq<char>>::empty());
    copy_lines(&mut out, document, 0, kept);
    copy_lines(&mut out, inserted, 0, inserted.len());
    copy_lines(&mut out, document, resumed, document.len());
    proof {
        let doc = document.deep_view();
        assert(doc.subrange(0, kept as int) == doc.take(kept as int));
        assert(doc.subrange(resumed as int, doc.len() as int) == doc.skip(resumed as int));
        assert(inserted.deep_view().subrange(0, inserted.len() as int) == inserted.deep_view());
        assert(Seq::<Seq<char>>::empty() + doc.take(kept as int) == doc.take(kept as int));
    }
    out
}

/// Puts the documentation of a chart into a document.
#[derive(Debug)]
pub struct MarkdownRenderer {
    param_section_pattern: regex::Regex,
}

impl View for MarkdownRenderer {
    type V = Seq<char>;

    /// The pattern of the heading of the parameters section.
    closed spec fn view(&self) -> Seq<char> {
        regex_source(self.param_section_pattern)
    }
}

impl MarkdownRenderer {
    /// Compiles the pattern of the heading that `config` gives the title of.
    pub fn new(config: &Config) -> (made: Result<MarkdownRenderer, ConfigError>)
        ensures
            match made {
                Ok(renderer) => regex_accepts(heading_pattern(config.regexp.params_section_title@))
                    && renderer@ == heading_pattern(config.regexp.params_section_title@),
                Err(error) => !regex_accepts(heading_pattern(config.regexp.params_section_title@))
                    && error@ == refusal(heading_pattern(config.regexp.params_section_title@)),
            },
    {
        let mut pattern = "^(#+) ".to_owned();
        pattern.append(escape(config.regexp.params_section_title.as_str()).as_str());
        pattern.append("$");
        let param_section_pattern = compile_pattern(pattern.as_str())?;
        Ok(MarkdownRenderer { param_section_pattern })
    }

    /// Renders the parameters section of `document`, given by its lines, from
    /// `metadata`. Where the document has no such section, its lines come
    /// back as they are, and `found` is false.
    pub fn render(&self, document: &Vec<String>, metadata: &ChartMetadata) -> (rendered: Result<
        Rendered,
        RenderError,
    >)
        ensures
            match rendered {
                Ok(rendered) => if rendered.found {
                    rewrite_of(self@, document.deep_view(), metadata@) == Rewrite::Lines(
                        rendered.lines.deep_view(),
                    )
                } else {
                    rewrite_of(self@, document.deep_view(), metadata@) == Rewrite::NotFound
                        && rendered.lines.deep_view() == document.deep_view()
                },
                Err(RenderError::Pattern(error)) => rewrite_of(
                    self@,
                    document.deep_view(),
                    metadata@,
                ) == Rewrite::BadPattern(error@),
                Err(RenderError::Table) => false,
            },
    {
        let ghost doc = document.deep_view();
        let ghost flags = heading_flags(self@, doc);
        let mut heading: usize = 0;
        let mut level: Option<String> = None;
        while heading < document.len()
            invariant_except_break
                level is None,
                first_where(flags, 0) == first_where(flags, heading as int),
            invariant
                heading <= document.len(),
                doc == document.deep_view(),
                flags == heading_flags(self@, doc),
            ensures
                first_where(flags, 0) == heading,
                level is None ==> heading == document.len(),
                level is Some ==> heading < document.len() && opt_text(level) == heading_level(
                    self@,
                    doc[heading as int],
                ),
            decreases document.len() - heading,
        {
            let found = self.try_find_param_section(document[heading].as_str());
            if found.is_some() {
                level = found;
                break ;
            }
            heading = heading + 1;
        }
        let level = match level {
            Some(level) => level,
            None => {
                let mut lines: Vec<String> = Vec::new();
                assert(lines.deep_view() == Seq::<Seq<char>>::empty());
                copy_lines(&mut lines, document, 0, document.len());
                assert(doc.subrange(0, doc.len() as int) == doc);
                assert(Seq::<Seq<char>>::empty() + doc == doc);
                return Ok(Rendered { lines, found: false });
            },
        };
        let mut pattern = "^".to_owned();
        pattern.append(escape(level.as_str()).as_str());
        pattern.append("\\s");
        let next_section_pattern = match compile_pattern(pattern.as_str()) {
            Ok(compiled) => compiled,
            Err(error) => {
                return Err(RenderError::Pattern(error));
            },
        };
        let inserted = self.render_params(metadata, level.as_str())?;
        let ghost marks = boundary_flags(pattern@, doc);
        let mut boundary: usize = heading + 1;
        while boundary < document.len() && !is_match(
            &next_section_pattern,
            document[boundary].as_str(),
        )
            invariant
                heading < boundary <= document.len(),
                doc == document.deep_view(),
                marks == boundary_flags(pattern@, doc),
                regex_source(next_section_pattern) == pattern@,
                first_where(marks, heading + 1) == first_where(marks, boundary as int),
            decreases document.len() - boundary,
        {
            boundary = boundary + 1;
        }
        let lines = splice(document, heading, boundary, &inserted);
        Ok(Rendered { lines, found: true })
    }

    /// The markers of the heading that `line` is, where it is the heading of
    /// the parameters section.
    pub fn try_find_param_section(&self, line: &str) -> (level: Option<String>)
        ensures
            opt_text(level) == heading_level(self@, line@),
    {
        text_of_first_group(&captures(&self.param_section_pattern, line))
    }

    /// The lines that go under a parameters heading with the markers
    /// `level`: an empty line, then the block of the chart, with section
    /// headings one level deeper.
    pub fn render_params(&self, metadata: &ChartMetadata, level: &str) -> (inserted: Result<
        Vec<String>,
        RenderError,
    >)
        ensures
            inserted matches Ok(lines) && lines.deep_view() == inserted_lines(
                chart_block(metadata@, sub_header(level@)),
            ),
    {
        let mut header = level.to_owned();
        header.append("#");
        let block = ChartMetadataRenderer::new().render(metadata, header.as_str())?;
        let lines = split_lines(block.as_str());
        let mut inserted: Vec<String> = Vec::new();
        inserted.push(String::new());
        assert(inserted.deep_view() == seq![Seq::<char>::empty()]);
        copy_lines(&mut inserted, &lines, 0, lines.len());
        assert(lines.deep_view().subrange(0, lines.len() as int) == lines.deep_view());
        Ok(inserted)
    }
}

/// `first_where` finds an index from `from` up to the number of flags. No
/// flag before it, from `from` on, is set, and the flag at it is set where it
/// is an index of the flags.
pub proof fn lemma_first_where(flags: Seq<bool>, from: int)
    requires
        0 <= from <= flags.len(),
    ensures
        from <= first_where(flags, from) <= flags.len(),
        forall|k: int| from <= k < first_where(flags, from) ==> !flags[k],
        first_where(flags, from) < flags.len() ==> flags[first_where(flags, from)],
    decreases flags.len() - from,
{
    if from < flags.len() && !flags[from] {
        lemma_first_where(flags, from + 1);
    }
}

/// An index is the one that `first_where` finds where no flag before it,
/// from `from` on, is set, and it is the end of the flags or its flag is set.
pub proof fn lemma_first_where_is(flags: Seq<bool>, from: int, index: int)
    requires
        0 <= from <= index <= flags.len(),
        forall|k: int| from <= k < index ==> !flags[k],
        index < flags.len() ==> flags[index],
    ensures
        first_where(flags, from) == index,
    decreases index - from,
{
    if from < index {
        lemma_first_where_is(flags, from + 1, index);
    }
}

/// A document without a heading of the parameters section is not changed:
/// rendering it finds nothing. And only such a document is found to have no
/// parameters section.
pub proof fn lemma_no_heading(pattern: Seq<char>, document: Seq<Seq<char>>, chart: ChartView)
    ensures
        (forall|i: int| 0 <= i < document.len() ==> regex_groups(pattern, document[i]) is None)
            <==> rewrite_of(pattern, document, chart) == Rewrite::NotFound,
{
    let flags = heading_flags(pattern, document);
    lemma_first_where(flags, 0);
    if forall|i: int| 0 <= i < document.len() ==> regex_groups(pattern, document[i]) is None {
        lemma_first_where_is(flags, 0, flags.len() as int);
    }
    if rewrite_of(pattern, document, chart) == Rewrite::NotFound {
        assert forall|i: int| 0 <= i < document.len() implies regex_groups(
            pattern,
            document[i],
        ) is None by {
            assert(!flags[i]);
        }
    }
}

/// Rendering keeps what stands outside the parameters section. The new
/// document begins with the lines of the old one up to the heading, the
/// heading included, and it ends with the lines of the old one from the
/// next heading of the same depth on; between them stands what was put in.
pub proof fn lemma_boundary_respect(
    pattern: Seq<char>,
    document: Seq<Seq<char>>,
    chart: ChartView,
)
    requires
        rewrite_of(pattern, document, chart) is Lines,
    ensures
        ({
            let out = rewrite_of(pattern, document, chart)->Lines_0;
            let heading = first_where(heading_flags(pattern, document), 0);
            let level = heading_level(pattern, document[heading])->0;
            let boundary = first_where(
                boundary_flags(boundary_pattern(level), document),
                heading + 1,
            );
            let block = inserted_lines(chart_block(chart, sub_header(level)));
            &&& 0 <= heading < boundary <= document.len()
            &&& out.len() == heading + 1 + block.len() + (document.len() - boundary)
            &&& forall|i: int| 0 <= i <= heading ==> out[i] == document[i]
            &&& forall|i: int|
                0 <= i < block.len() ==> out[heading + 1 + i] == block[i]
            &&& forall|i: int|
                boundary <= i < document.len() ==> out[heading + 1 + block.len() + (i - boundary)]
                    == document[i]
        }),
{
    let heading = first_where(heading_flags(pattern, document), 0);
    lemma_first_where(heading_flags(pattern, document), 0);
    let level = heading_level(pattern, document[heading])->0;
    lemma_first_where(boundary_flags(boundary_pattern(level), document), heading + 1);
}

/// Rendering twice is rendering once. Where a document was rendered, and no
/// line that was put under the parameters heading is itself a heading of
/// the section's depth, rendering the new document from the same metadata
/// gives the new document again.
pub proof fn lemma_render_idempotent(
    pattern: Seq<char>,
    document: Seq<Seq<char>>,
    chart: ChartView,
)
    requires
        rewrite_of(pattern, document, chart) is Lines,
        ({
            let heading = first_where(heading_flags(pattern, document), 0);
            let level = heading_level(pattern, document[heading])->0;
            let block = inserted_lines(chart_block(chart, sub_header(level)));
            forall|i: int|
                0 <= i < block.len() ==> !regex_matches(boundary_pattern(level), #[trigger] block[i])
        }),
    ensures
        rewrite_of(pattern, rewrite_of(pattern, document, chart)->Lines_0, chart) == rewrite_of(
            pattern,
            document,
            chart,
        ),
{
    let out = rewrite_of(pattern, document, chart)->Lines_0;
    let flags = heading_flags(pattern, document);
    let heading = first_where(flags, 0);
    lemma_first_where(flags, 0);
    let level = heading_level(pattern, document[heading])->0;
    let marks = boundary_flags(boundary_pattern(level), document);
    let boundary = first_where(marks, heading + 1);
    lemma_first_where(marks, heading + 1);
    let block = inserted_lines(chart_block(chart, sub_header(level)));
    lemma_boundary_respect(pattern, document, chart);
    // The heading of the new document is where the heading of the old one was.
    let new_flags = heading_flags(pattern, out);
    assert forall|k: int| 0 <= k < heading implies !new_flags[k] by {
        assert(out[k] == document[k]);
        assert(!flags[k]);
    }
    assert(new_flags[heading]) by {
        assert(out[heading] == document[heading]);
        assert(flags[heading]);
    }
    lemma_first_where_is(new_flags, 0, heading);
    // What was put in ends where the rest of the old document begins.
    let new_marks = boundary_flags(boundary_pattern(level), out);
    let new_boundary = heading + 1 + block.len();
    assert forall|k: int| heading + 1 <= k < new_boundary implies !new_marks[k] by {
        assert(out[k] == block[k - (heading + 1)]);
    }
    if new_boundary < out.len() {
        assert(out[new_boundary] == document[boundary]);
        assert(marks[boundary]);
    }
    lemma_first_where_is(new_marks, heading + 1, new_boundary);
    assert(spliced(out, heading, new_boundary, block) == out);
}

} // verus!
