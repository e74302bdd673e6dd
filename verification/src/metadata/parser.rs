//! The annotation parser: a scanner that reads a values file line by line
//! and builds the chart's metadata from the tags in its comments.

use crate::config::{Config, ConfigError};
use crate::metadata::chart::{ChartMetadata, ChartView};
use crate::metadata::section::{SectionMetadata, SectionView};
use crate::metadata::tags::{
    first_group, line_value, opt_value, text_of_first_group, value_from_extra, value_from_param,
    value_from_skip,
};
use crate::metadata::value::{ValueMetadata, ValueView};
use crate::pattern::{
    captures, compile_pattern, escape, escaped, refusal, regex_accepts, regex_groups,
    regex_source,
};
use crate::text::opt_text;
use vstd::prelude::*;

verus! {

/// What the scanner remembers from line to line.
#[derive(Clone, Copy, Debug)]
pub struct ParserState {
    /// The index of the section that values and description lines go to.
    pub current_section: Option<usize>,
    /// Whether a description block is open.
    pub descr_parsing: bool,
}

/// The scanner's memory, as mathematics.
pub struct StateView {
    pub current_section: Option<nat>,
    pub descr_parsing: bool,
}

impl StateView {
    /// The memory before the first line: no section, no open description.
    pub open spec fn initial() -> StateView {
        StateView { current_section: None, descr_parsing: false }
    }
}

impl View for ParserState {
    type V = StateView;

    open spec fn view(&self) -> StateView {
        StateView {
            current_section: match self.current_section {
                Some(index) => Some(index as nat),
                None => None,
            },
            descr_parsing: self.descr_parsing,
        }
    }
}

impl ParserState {
    pub fn new() -> (made: ParserState)
        ensures
            made@ == StateView::initial(),
    {
        ParserState { current_section: None, descr_parsing: false }
    }
}

/// What one line says: for each family of tags, what the line holds of it.
#[derive(Debug)]
pub struct LineTags {
    /// The value that a value, skip or extra tag on the line creates.
    pub value: Option<ValueMetadata>,
    /// The title after a section tag.
    pub section: Option<String>,
    /// Whether the line holds the tag that ends a description.
    pub descr_end: bool,
    /// What follows the comment prefix, where the line is a comment.
    pub descr_content: Option<String>,
    /// What follows the tag that starts a description.
    pub descr_start: Option<String>,
}

/// What one line says, as mathematics.
pub struct TagsView {
    pub value: Option<ValueView>,
    pub section: Option<Seq<char>>,
    pub descr_end: bool,
    pub descr_content: Option<Seq<char>>,
    pub descr_start: Option<Seq<char>>,
}

impl View for LineTags {
    type V = TagsView;

    open spec fn view(&self) -> TagsView {
        TagsView {
            value: opt_value(self.value),
            section: opt_text(self.section),
            descr_end: self.descr_end,
            descr_content: opt_text(self.descr_content),
            descr_start: opt_text(self.descr_start),
        }
    }
}

/// The chart after the line's value, if it has one: the value is appended to
/// the flat list, and to the current section where there is one.
pub open spec fn with_value(chart: ChartView, state: StateView, tags: TagsView) -> ChartView {
    match tags.value {
        Some(value) => {
            let added = chart.add_value(value);
            match state.current_section {
                Some(section) => added.attach(section, chart.values.len()),
                None => added,
            }
        },
        None => chart,
    }
}

/// The chart after the line's section tag, if it has one: a new section with
/// that title is appended.
pub open spec fn with_section(chart: ChartView, tags: TagsView) -> ChartView {
    match tags.section {
        Some(title) => chart.add_section(SectionView::fresh(title)),
        None => chart,
    }
}

/// The section that is current after the line: the one that the line opens,
/// else the one that was current before.
pub open spec fn section_after(chart: ChartView, state: StateView, tags: TagsView) -> Option<
    nat,
> {
    if tags.section is Some {
        Some(chart.sections.len())
    } else {
        state.current_section
    }
}

/// What a line does to the description of the section `current`. At most one
/// of three things happens. While a description is open, the end tag closes
/// it, and any other comment line adds its content. While none is open, the
/// start tag opens one, and text that follows the tag on its line becomes a
/// description line at once.
pub open spec fn with_description(
    chart: ChartView,
    current: nat,
    parsing: bool,
    tags: TagsView,
) -> (ChartView, bool) {
    if parsing {
        if tags.descr_end {
            (chart, false)
        } else if tags.descr_content is Some {
            (chart.describe(current, tags.descr_content->0), true)
        } else {
            (chart, true)
        }
    } else if tags.descr_start is Some {
        if tags.descr_start->0.len() > 0 {
            (chart.describe(current, tags.descr_start->0), true)
        } else {
            (chart, true)
        }
    } else {
        (chart, false)
    }
}

/// One step of the scanner: the chart and the memory after a line, from the
/// chart and the memory before it and from what the line says. The line's
/// value comes first, then its section, then the description. Without a
/// current section the description tags do nothing.
pub open spec fn step_of(chart: ChartView, state: StateView, tags: TagsView) -> (
    ChartView,
    StateView,
) {
    let valued = with_value(chart, state, tags);
    let sectioned = with_section(valued, tags);
    match section_after(valued, state, tags) {
        Some(current) => {
            let (described, parsing) = with_description(
                sectioned,
                current,
                state.descr_parsing,
                tags,
            );
            (described, StateView { current_section: Some(current), descr_parsing: parsing })
        },
        None => (sectioned, StateView { current_section: None, ..state }),
    }
}

/// The chart and the memory after a run of lines, one step for each line in
/// order.
pub open spec fn steps_of(chart: ChartView, state: StateView, tags: Seq<TagsView>) -> (
    ChartView,
    StateView,
)
    decreases tags.len(),
{
    if tags.len() == 0 {
        (chart, state)
    } else {
        let (before, memory) = steps_of(chart, state, tags.drop_last());
        step_of(before, memory, tags.last())
    }
}

/// Takes one step of the scanner.
pub fn step(metadata: &mut ChartMetadata, state: ParserState, tags: LineTags) -> (next:
    ParserState)
    ensures
        (final(metadata)@, next@) == step_of(old(metadata)@, state@, tags@),
{
    let LineTags { value, section, descr_end, descr_content, descr_start } = tags;
    let mut current = state.current_section;
    let mut parsing = state.descr_parsing;
    if let Some(value) = value {
        let index = metadata.values().len();
        metadata.add_value(value);
        if let Some(section) = current {
            metadata.attach_value(section, index);
        }
    }
    if let Some(title) = section {
        let index = metadata.sections().len();
        metadata.add_section(SectionMetadata::new(title));
        current = Some(index);
    }
    if let Some(section) = current {
        if parsing {
            if descr_end {
                parsing = false;
            } else if let Some(line) = descr_content {
                metadata.add_section_descr(section, line);
            }
        } else if let Some(text) = descr_start {
            parsing = true;
            if !text.as_str().is_empty() {
                metadata.add_section_descr(section, text);
            }
        }
    }
    ParserState { current_section: current, descr_parsing: parsing }
}

/// The pattern of a tag line: white space, the comment prefix, white space,
/// the tag, white space, and what the tag is followed by. The prefix and
/// the tag are taken literally.
pub open spec fn tag_pattern(comment: Seq<char>, tag: Seq<char>, payload: Seq<char>) -> Seq<
    char,
> {
    "^\\s*"@ + escaped(comment) + "\\s*"@ + escaped(tag) + "\\s*"@ + payload
}

/// The pattern of any comment line: white space, the comment prefix, white
/// space, and the rest of the line as group 1.
pub open spec fn comment_pattern(comment: Seq<char>) -> Seq<char> {
    "^\\s*"@ + escaped(comment) + "\\s*(.*)"@
}

/// The seven line patterns of a parser.
pub struct ParserPatterns {
    pub param: Seq<char>,
    pub section: Seq<char>,
    pub descr_start: Seq<char>,
    pub descr_content: Seq<char>,
    pub descr_end: Seq<char>,
    pub skip: Seq<char>,
    pub extra: Seq<char>,
}

impl ParserPatterns {
    /// The patterns that a configuration asks for.
    pub open spec fn of(config: Config) -> ParserPatterns {
        let comment = config.comments.format@;
        ParserPatterns {
            param: tag_pattern(
                comment,
                config.tags.param@,
                "([^\\s]+)\\s*(\\[.*?\\])?\\s*(.*)$"@,
            ),
            section: tag_pattern(comment, config.tags.section@, "(.*)$"@),
            descr_start: tag_pattern(comment, config.tags.description_start@, "(.*)"@),
            descr_content: comment_pattern(comment),
            descr_end: tag_pattern(comment, config.tags.description_end@, "(.*)"@),
            skip: tag_pattern(comment, config.tags.skip@, "([^\\s]+)\\s*(.*)$"@),
            extra: tag_pattern(
                comment,
                config.tags.extra@,
                "([^\\s]+)\\s*(\\[.*?\\])?\\s*(.*)$"@,
            ),
        }
    }

    /// The first of the patterns, in the order in which a parser compiles
    /// them, that does not compile.
    pub open spec fn refused(self) -> Option<Seq<char>> {
        if !regex_accepts(self.param) {
            Some(self.param)
        } else if !regex_accepts(self.section) {
            Some(self.section)
        } else if !regex_accepts(self.descr_start) {
            Some(self.descr_start)
        } else if !regex_accepts(self.descr_content) {
            Some(self.descr_content)
        } else if !regex_accepts(self.descr_end) {
            Some(self.descr_end)
        } else if !regex_accepts(self.skip) {
            Some(self.skip)
        } else if !regex_accepts(self.extra) {
            Some(self.extra)
        } else {
            None
        }
    }

    /// What a line says, by these patterns.
    pub open spec fn tags(self, line: Seq<char>) -> TagsView {
        TagsView {
            value: line_value(
                regex_groups(self.param, line),
                regex_groups(self.skip, line),
                regex_groups(self.extra, line),
            ),
            section: first_group(regex_groups(self.section, line)),
            descr_end: regex_groups(self.descr_end, line) is Some,
            descr_content: first_group(regex_groups(self.descr_content, line)),
            descr_start: first_group(regex_groups(self.descr_start, line)),
        }
    }

    /// What each of the given lines says.
    pub open spec fn tags_of(self, lines: Seq<Seq<char>>) -> Seq<TagsView> {
        Seq::new(lines.len(), |i: int| self.tags(lines[i]))
    }

    /// The chart and the scanner's memory after the given lines.
    pub open spec fn scanned(self, lines: Seq<Seq<char>>) -> (ChartView, StateView) {
        steps_of(ChartView::empty(), StateView::initial(), self.tags_of(lines))
    }

    /// The metadata that a values file with the given lines holds.
    pub open spec fn parsed(self, lines: Seq<Seq<char>>) -> ChartView {
        self.scanned(lines).0
    }
}

/// Builds the pattern of a tag line.
fn tag_line_pattern(comment: &str, tag: &str, payload: &str) -> (pattern: String)
    ensures
        pattern@ == tag_pattern(comment@, tag@, payload@),
{
    let mut pattern = "^\\s*".to_owned();
    pattern.append(escape(comment).as_str());
    pattern.append("\\s*");
    pattern.append(escape(tag).as_str());
    pattern.append("\\s*");
    pattern.append(payload);
    pattern
}

/// Builds the pattern of any comment line.
fn comment_line_pattern(comment: &str) -> (pattern: String)
    ensures
        pattern@ == comment_pattern(comment@),
{
    let mut pattern = "^\\s*".to_owned();
    pattern.append(escape(comment).as_str());
    pattern.append("\\s*(.*)");
    pattern
}

/// Reads the metadata that the comments of a values file hold.
#[derive(Debug)]
pub struct ChartMetadataParser {
    param_regex: regex::Regex,
    section_regex: regex::Regex,
    descr_start_regex: regex::Regex,
    descr_content_regex: regex::Regex,
    descr_end_regex: regex::Regex,
    skip_regex: regex::Regex,
    extra_regex: regex::Regex,
}

impl View for ChartMetadataParser {
    type V = ParserPatterns;

    closed spec fn view(&self) -> ParserPatterns {
        ParserPatterns {
            param: regex_source(self.param_regex),
            section: regex_source(self.section_regex),
            descr_start: regex_source(self.descr_start_regex),
            descr_content: regex_source(self.descr_content_regex),
            descr_end: regex_source(self.descr_end_regex),
            skip: regex_source(self.skip_regex),
            extra: regex_source(self.extra_regex),
        }
    }
}

impl ChartMetadataParser {
    /// Compiles the line patterns that `config` asks for, once for all
    /// lines. Fails on the first pattern that does not compile.
    pub fn new(config: &Config) -> (made: Result<ChartMetadataParser, ConfigError>)
        ensures
            match made {
                Ok(parser) => ParserPatterns::of(*config).refused() is None && parser@
                    == ParserPatterns::of(*config),
                Err(error) => ParserPatterns::of(*config).refused() is Some && error@ == refusal(
                    ParserPatterns::of(*config).refused()->0,
                ),
            },
    {
        let comment = config.comments.format.as_str();
        let param_regex = compile_pattern(
            tag_line_pattern(
                comment,
                config.tags.param.as_str(),
                "([^\\s]+)\\s*(\\[.*?\\])?\\s*(.*)$",
            ).as_str(),
        )?;
        let section_regex = compile_pattern(
            tag_line_pattern(comment, config.tags.section.as_str(), "(.*)$").as_str(),
        )?;
        let descr_start_regex = compile_pattern(
            tag_line_pattern(comment, config.tags.description_start.as_str(), "(.*)").as_str(),
        )?;
        let descr_content_regex = compile_pattern(comment_line_pattern(comment).as_str())?;
        let descr_end_regex = compile_pattern(
            tag_line_pattern(comment, config.tags.description_end.as_str(), "(.*)").as_str(),
        )?;
        let skip_regex = compile_pattern(
            tag_line_pattern(comment, config.tags.skip.as_str(), "([^\\s]+)\\s*(.*)$").as_str(),
        )?;
        let extra_regex = compile_pattern(
            tag_line_pattern(
                comment,
                config.tags.extra.as_str(),
                "([^\\s]+)\\s*(\\[.*?\\])?\\s*(.*)$",
            ).as_str(),
        )?;
        Ok(
            ChartMetadataParser {
                param_regex,
                section_regex,
                descr_start_regex,
                descr_content_regex,
                descr_end_regex,
                skip_regex,
                extra_regex,
            },
        )
    }

    /// The metadata in the given lines of a values file. A line that holds
    /// no tag is passed over.
    pub fn parse(&self, lines: &Vec<String>) -> (metadata: ChartMetadata)
        ensures
            metadata@ == self@.parsed(lines.deep_view()),
    {
        let mut metadata = ChartMetadata::new();
        let mut state = ParserState::new();
        let mut i: usize = 0;
        while i < lines.len()
            invariant
                i <= lines.len(),
                (metadata@, state@) == steps_of(
                    ChartView::empty(),
                    StateView::initial(),
                    self@.tags_of(lines.deep_view()).take(i as int),
                ),
            decreases lines.len() - i,
        {
            let tags = self.read_line(lines[i].as_str());
            proof {
                let all = self@.tags_of(lines.deep_view());
                assert(all.take(i + 1).drop_last() == all.take(i as int));
                assert(all.take(i + 1).last() == tags@);
            }
            state = step(&mut metadata, state, tags);
            i = i + 1;
        }
        proof {
            let all = self@.tags_of(lines.deep_view());
            assert(all.take(i as int) == all);
        }
        metadata
    }

    /// What one line says.
    pub fn read_line(&self, line: &str) -> (tags: LineTags)
        ensures
            tags@ == self@.tags(line@),
    {
        let value = self.try_parse_value_metadata(line);
        let section = text_of_first_group(&captures(&self.section_regex, line));
        let descr_end = self.has_descr_end(line).is_some();
        let descr_content = self.try_parse_descr_content(line);
        let descr_start = self.try_parse_descr_start(line);
        LineTags { value, section, descr_end, descr_content, descr_start }
    }

    /// The value that the line creates, if it holds a value tag, a skip tag
    /// or an extra tag.
    pub fn try_parse_value_metadata(&self, line: &str) -> (value: Option<ValueMetadata>)
        ensures
            opt_value(value) == self@.tags(line@).value,
    {
        if let Some(groups) = captures(&self.param_regex, line) {
            return Some(value_from_param(&groups));
        }
        if let Some(groups) = captures(&self.skip_regex, line) {
            return Some(value_from_skip(&groups));
        }
        if let Some(groups) = captures(&self.extra_regex, line) {
            return Some(value_from_extra(&groups));
        }
        None
    }

    /// The section that the line opens, if it holds a section tag.
    pub fn try_parse_section_metadata(&self, line: &str) -> (section: Option<SectionMetadata>)
        ensures
            match section {
                Some(section) => self@.tags(line@).section == Some(section@.name) && section@
                    == SectionView::fresh(section@.name),
                None => self@.tags(line@).section is None,
            },
    {
        match text_of_first_group(&captures(&self.section_regex, line)) {
            Some(title) => Some(SectionMetadata::new(title)),
            None => None,
        }
    }

    /// `Some(true)` where the line holds the tag that ends a description.
    pub fn has_descr_end(&self, line: &str) -> (ends: Option<bool>)
        ensures
            ends == if self@.tags(line@).descr_end {
                Some(true)
            } else {
                None::<bool>
            },
    {
        if captures(&self.descr_end_regex, line).is_some() {
            return Some(true);
        }
        None
    }

    /// What follows the comment prefix, where the line is a comment.
    pub fn try_parse_descr_content(&self, line: &str) -> (content: Option<String>)
        ensures
            opt_text(content) == self@.tags(line@).descr_content,
    {
        text_of_first_group(&captures(&self.descr_content_regex, line))
    }

    /// What follows the tag that starts a description, where the line holds
    /// that tag.
    pub fn try_parse_descr_start(&self, line: &str) -> (text: Option<String>)
        ensures
            opt_text(text) == self@.tags(line@).descr_start,
    {
        text_of_first_group(&captures(&self.descr_start_regex, line))
    }
}

} // verus!
