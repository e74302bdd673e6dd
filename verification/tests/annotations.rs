use chartpedia::config::Config;
use chartpedia::metadata::chart::ChartMetadata;
use chartpedia::metadata::parser::{step, ChartMetadataParser, LineTags, ParserState};
use chartpedia::metadata::section::SectionMetadata;
use chartpedia::metadata::tags::{
    parse_modifiers, text_of_first_group, text_of_group, value_from_extra, value_from_param,
    value_from_skip,
};
use chartpedia::metadata::value::ValueMetadata;

fn file(text: &[&str]) -> Vec<String> {
    text.iter().map(|line| line.to_string()).collect()
}

fn parser() -> ChartMetadataParser {
    ChartMetadataParser::new(&Config::default()).unwrap()
}

fn strings(text: &[&str]) -> Vec<String> {
    text.iter().map(|item| item.to_string()).collect()
}

#[test]
fn section_with_one_value() {
    let metadata = parser().parse(&file(&[
        "## @section Common",
        "## @param image.tag [string] Image tag to deploy",
    ]));
    assert_eq!(metadata.sections().len(), 1);
    assert_eq!(metadata.values().len(), 1);
    let section = &metadata.sections()[0];
    assert_eq!(section.name(), "Common");
    assert_eq!(section.values(), &vec![0usize]);
    assert_eq!(section.descr(), "");
    let value = &metadata.values()[0];
    assert_eq!(value.name(), "image.tag");
    assert_eq!(value.modifiers(), &strings(&["string"]));
    assert_eq!(value.descr(), &Some("Image tag to deploy".to_string()));
    assert!(value.should_validate());
    assert!(value.render_in_readme());
    assert_eq!(value.section(), None);
    assert_eq!(value.value(), &None);
}

#[test]
fn skipped_value_without_section() {
    let metadata = parser().parse(&file(&["## @skip internal.debugFlag"]));
    assert!(metadata.sections().is_empty());
    assert_eq!(metadata.values().len(), 1);
    let value = &metadata.values()[0];
    assert_eq!(value.name(), "internal.debugFlag");
    assert!(!value.render_in_readme());
    assert!(!value.should_validate());
    assert!(value.has_skipped());
    assert_eq!(value.descr(), &None);
    assert!(value.modifiers().is_empty());
}

#[test]
fn extra_value_is_rendered_and_not_validated() {
    let metadata = parser().parse(&file(&["## @extra ingress.hosts [array] The hosts"]));
    let value = &metadata.values()[0];
    assert_eq!(value.name(), "ingress.hosts");
    assert!(value.render_in_readme());
    assert!(!value.should_validate());
    assert!(!value.has_skipped());
    assert!(value.modifiers().is_empty());
    assert_eq!(value.descr(), &Some("The hosts".to_string()));
}

#[test]
fn flags_of_each_tag() {
    let mut plain = ValueMetadata::new("a".to_string(), vec![], None);
    assert!(plain.should_validate() && plain.render_in_readme());
    assert!(!plain.has_skipped() && !plain.has_extra());
    plain.skip();
    assert!(!plain.should_validate() && !plain.render_in_readme());
    assert!(plain.has_skipped() && !plain.has_extra());
    plain.set_extra();
    assert!(!plain.should_validate() && plain.render_in_readme());
    assert!(!plain.has_skipped() && plain.has_extra());
    plain.skip();
    assert!(plain.has_skipped());
}

#[test]
fn value_setters_keep_the_rest() {
    let mut value =
        ValueMetadata::new("a.b".to_string(), strings(&["x"]), Some("text".to_string()));
    value.set_section(3);
    value.set_value("1".to_string());
    assert_eq!(value.section(), Some(3));
    assert_eq!(value.value(), &Some("1".to_string()));
    assert_eq!(value.name(), "a.b");
    assert_eq!(value.modifiers(), &strings(&["x"]));
    assert_eq!(value.descr(), &Some("text".to_string()));
    assert!(value.should_validate() && value.render_in_readme());
}

#[test]
fn description_is_gathered_between_the_tags() {
    let metadata = parser().parse(&file(&[
        "## @section Common",
        "## @descriptionStart",
        "## first line",
        "##   second line",
        "not a comment",
        "## third line",
        "## @descriptionEnd",
        "## after the end",
    ]));
    let section = &metadata.sections()[0];
    assert_eq!(section.descr_lines(), &strings(&["first line", "second line", "third line"]));
    assert_eq!(section.descr(), "first line\nsecond line\nthird line");
}

#[test]
fn description_start_with_text_on_its_line() {
    let metadata = parser().parse(&file(&[
        "## @section Common",
        "## @descriptionStart Opening words",
        "## more",
        "## @descriptionEnd trailing",
    ]));
    assert_eq!(metadata.sections()[0].descr_lines(), &strings(&["Opening words", "more"]));
}

#[test]
fn description_without_section_is_dropped() {
    let metadata = parser().parse(&file(&[
        "## @descriptionStart",
        "## lost",
        "## @descriptionEnd",
        "## @section Late",
        "## not gathered",
    ]));
    assert_eq!(metadata.sections().len(), 1);
    assert!(metadata.sections()[0].descr_lines().is_empty());
}

#[test]
fn open_description_goes_on_in_the_next_section() {
    let metadata = parser().parse(&file(&[
        "## @section First",
        "## @descriptionStart",
        "## of the first",
        "## @section Second",
        "## of the second",
        "## @descriptionEnd",
        "## of neither",
    ]));
    assert_eq!(metadata.sections()[0].descr_lines(), &strings(&["of the first"]));
    assert_eq!(
        metadata.sections()[1].descr_lines(),
        &strings(&["@section Second", "of the second"])
    );
}

#[test]
fn value_tag_inside_a_description_counts_twice() {
    let metadata = parser().parse(&file(&[
        "## @section S",
        "## @descriptionStart",
        "## @param a.b A value",
        "## @descriptionEnd",
    ]));
    assert_eq!(metadata.values().len(), 1);
    assert_eq!(metadata.sections()[0].values(), &vec![0usize]);
    assert_eq!(metadata.sections()[0].descr_lines(), &strings(&["@param a.b A value"]));
}

#[test]
fn duplicate_values_both_survive() {
    let metadata = parser().parse(&file(&[
        "## @section S",
        "## @param a.b First",
        "## @param a.b Second",
    ]));
    assert_eq!(metadata.values().len(), 2);
    assert_eq!(metadata.values()[0].descr(), &Some("First".to_string()));
    assert_eq!(metadata.values()[1].descr(), &Some("Second".to_string()));
    assert_eq!(metadata.sections()[0].values(), &vec![0usize, 1]);
}

#[test]
fn order_is_that_of_the_file() {
    let metadata = parser().parse(&file(&[
        "## @param zeta Before any section",
        "## @section Beta",
        "## @param b.two Second",
        "## @skip b.one",
        "## @section Alpha",
        "## @extra a.one Third",
        "## @section Empty",
    ]));
    let names: Vec<&str> = metadata.values().iter().map(|v| v.name().as_str()).collect();
    assert_eq!(names, vec!["zeta", "b.two", "b.one", "a.one"]);
    let titles: Vec<&str> = metadata.sections().iter().map(|s| s.name().as_str()).collect();
    assert_eq!(titles, vec!["Beta", "Alpha", "Empty"]);
    assert_eq!(metadata.sections()[0].values(), &vec![1usize, 2]);
    assert_eq!(metadata.sections()[1].values(), &vec![3usize]);
    assert!(metadata.sections()[2].values().is_empty());
}

#[test]
fn lines_without_tags_are_passed_over() {
    let metadata = parser().parse(&file(&[
        "",
        "# a comment of another kind",
        "## a plain comment",
        "image:",
        "  tag: latest ## @param not.at.the.start",
        "##@param",
    ]));
    assert!(metadata.sections().is_empty());
    assert!(metadata.values().is_empty());
    assert!(parser().parse(&Vec::new()).values().is_empty());
}

#[test]
fn tags_after_white_space_and_without_it() {
    let metadata = parser().parse(&file(&[
        "   ## @section Indented",
        "\t##@param tight.name[a,b]Described",
    ]));
    assert_eq!(metadata.sections()[0].name(), "Indented");
    let value = &metadata.values()[0];
    assert_eq!(value.name(), "tight.name[a,b]Described");
    assert!(value.modifiers().is_empty());
    assert_eq!(value.descr(), &Some(String::new()));
}

#[test]
fn modifiers_are_split_and_trimmed() {
    assert_eq!(parse_modifiers("[array, nullable]"), strings(&["array", "nullable"]));
    assert_eq!(parse_modifiers("[ a ,b,  c  ]"), strings(&["a", "b", "c"]));
    assert_eq!(parse_modifiers("[a,,b]"), strings(&["a", "", "b"]));
    assert_eq!(parse_modifiers("[a,]"), strings(&["a", ""]));
    assert_eq!(parse_modifiers("[[a]]"), strings(&["a"]));
    assert_eq!(parse_modifiers("[a[b]c]"), strings(&["a[b]c"]));
    assert_eq!(parse_modifiers("[ ]"), strings(&[""]));
    assert!(parse_modifiers("[]").is_empty());
    assert!(parse_modifiers("").is_empty());
    assert!(parse_modifiers("][").is_empty());
}

#[test]
fn value_tag_with_empty_brackets_has_no_modifiers() {
    let value = parser().try_parse_value_metadata("## @param a.b [] Described").unwrap();
    assert!(value.modifiers().is_empty());
    assert_eq!(value.descr(), &Some("Described".to_string()));
    let value = parser().try_parse_value_metadata("## @param a.b").unwrap();
    assert!(value.modifiers().is_empty());
    assert_eq!(value.descr(), &Some(String::new()));
}

#[test]
fn value_tag_goes_before_skip_and_extra() {
    let mut config = Config::default();
    config.tags.skip = "@param".to_string();
    config.tags.extra = "@param".to_string();
    let parser = ChartMetadataParser::new(&config).unwrap();
    let value = parser.try_parse_value_metadata("## @param a.b text").unwrap();
    assert!(value.should_validate() && value.render_in_readme());
    config.tags.param = "@other".to_string();
    let parser = ChartMetadataParser::new(&config).unwrap();
    let value = parser.try_parse_value_metadata("## @param a.b text").unwrap();
    assert!(value.has_skipped());
    assert_eq!(value.descr(), &None);
    assert!(parser.try_parse_value_metadata("## @section a.b text").is_none());
}

#[test]
fn tags_and_prefix_are_taken_literally() {
    let mut config = Config::default();
    config.comments.format = "//.".to_string();
    config.tags.param = "+p(".to_string();
    config.tags.section = "a.b".to_string();
    let parser = ChartMetadataParser::new(&config).unwrap();
    let value = parser.try_parse_value_metadata("//. +p( name [x] text").unwrap();
    assert_eq!(value.name(), "name");
    assert!(parser.try_parse_value_metadata("//x +p( name").is_none());
    assert!(parser.try_parse_value_metadata("//. p( name").is_none());
    assert_eq!(parser.try_parse_section_metadata("//. a.b Title").unwrap().name(), "Title");
    assert!(parser.try_parse_section_metadata("//. axb Title").is_none());
}

#[test]
fn line_readers_of_the_description_tags() {
    let parser = parser();
    assert_eq!(parser.has_descr_end("## @descriptionEnd"), Some(true));
    assert_eq!(parser.has_descr_end("## @descriptionStart"), None);
    assert_eq!(parser.try_parse_descr_start("## @descriptionStart  text"), Some("text".to_string()));
    assert_eq!(parser.try_parse_descr_start("## @descriptionStart"), Some(String::new()));
    assert_eq!(parser.try_parse_descr_start("## text"), None);
    assert_eq!(parser.try_parse_descr_content(" ##   text "), Some("text ".to_string()));
    assert_eq!(parser.try_parse_descr_content("##"), Some(String::new()));
    assert_eq!(parser.try_parse_descr_content("# text"), None);
    let section = parser.try_parse_section_metadata("## @section  Two words ").unwrap();
    assert_eq!(section.name(), "Two words ");
    assert!(section.values().is_empty() && section.descr_lines().is_empty());
}

#[test]
fn read_line_reads_every_family() {
    let tags = parser().read_line("## @section Common");
    assert!(tags.value.is_none());
    assert_eq!(tags.section, Some("Common".to_string()));
    assert!(!tags.descr_end);
    assert_eq!(tags.descr_content, Some("@section Common".to_string()));
    assert_eq!(tags.descr_start, None);
    let tags = parser().read_line("image: nginx");
    assert!(tags.value.is_none() && tags.section.is_none() && !tags.descr_end);
    assert!(tags.descr_content.is_none() && tags.descr_start.is_none());
}

#[test]
fn groups_that_are_missing_read_as_empty() {
    let groups = vec![Some("whole".to_string()), None, Some("two".to_string())];
    assert_eq!(text_of_group(&groups, 0), "whole");
    assert_eq!(text_of_group(&groups, 1), "");
    assert_eq!(text_of_group(&groups, 2), "two");
    assert_eq!(text_of_group(&groups, 3), "");
    assert_eq!(text_of_first_group(&Some(groups)), Some(String::new()));
    assert_eq!(text_of_first_group(&None), None);
    let value = value_from_param(&vec![Some("x".to_string())]);
    assert_eq!(value.name(), "");
    assert_eq!(value.descr(), &Some(String::new()));
    assert!(value.modifiers().is_empty());
}

#[test]
fn values_from_groups() {
    let groups = vec![
        Some("## @param a [x, y] text".to_string()),
        Some("a".to_string()),
        Some("[x, y]".to_string()),
        Some("text".to_string()),
    ];
    let value = value_from_param(&groups);
    assert_eq!(value.name(), "a");
    assert_eq!(value.modifiers(), &strings(&["x", "y"]));
    assert_eq!(value.descr(), &Some("text".to_string()));
    assert!(value.should_validate() && value.render_in_readme());
    let mut value = value_from_extra(&groups);
    assert_eq!(value.name(), "a");
    assert!(value.modifiers().is_empty());
    assert_eq!(value.descr(), &Some("text".to_string()));
    assert!(value.has_extra());
    let value = value_from_skip(&groups);
    assert_eq!(value.name(), "a");
    assert_eq!(value.descr(), &None);
    assert!(value.has_skipped());
}

#[test]
fn step_takes_at_most_one_description_path() {
    let mut metadata = ChartMetadata::new();
    let opened = step(
        &mut metadata,
        ParserState::new(),
        LineTags {
            value: None,
            section: Some("S".to_string()),
            descr_end: true,
            descr_content: Some("content".to_string()),
            descr_start: Some("inline".to_string()),
        },
    );
    assert_eq!(opened.current_section, Some(0));
    assert!(opened.descr_parsing);
    assert_eq!(metadata.sections()[0].descr_lines(), &strings(&["inline"]));
    let closed = step(
        &mut metadata,
        opened,
        LineTags {
            value: None,
            section: None,
            descr_end: true,
            descr_content: Some("content".to_string()),
            descr_start: Some("again".to_string()),
        },
    );
    assert!(!closed.descr_parsing);
    assert_eq!(metadata.sections()[0].descr_lines(), &strings(&["inline"]));
    let idle = step(
        &mut metadata,
        closed,
        LineTags {
            value: None,
            section: None,
            descr_end: true,
            descr_content: Some("content".to_string()),
            descr_start: None,
        },
    );
    assert!(!idle.descr_parsing);
    assert_eq!(idle.current_section, Some(0));
    assert_eq!(metadata.sections()[0].descr_lines(), &strings(&["inline"]));
}

#[test]
fn step_without_section_keeps_description_tags_idle() {
    let mut metadata = ChartMetadata::new();
    let state = step(
        &mut metadata,
        ParserState { current_section: None, descr_parsing: true },
        LineTags {
            value: Some(ValueMetadata::new("v".to_string(), vec![], None)),
            section: None,
            descr_end: true,
            descr_content: Some("content".to_string()),
            descr_start: Some("start".to_string()),
        },
    );
    assert_eq!(state.current_section, None);
    assert!(state.descr_parsing);
    assert_eq!(metadata.values().len(), 1);
    assert!(metadata.sections().is_empty());
}

#[test]
fn chart_links_values_to_sections_by_index() {
    let mut metadata = ChartMetadata::new();
    metadata.add_section(SectionMetadata::new("one".to_string()));
    metadata.add_value(ValueMetadata::new("a".to_string(), vec![], None));
    metadata.add_value(ValueMetadata::new("b".to_string(), vec![], None));
    metadata.attach_value(0, 1);
    metadata.attach_value(5, 0);
    metadata.add_section_descr(0, "line".to_string());
    metadata.add_section_descr(1, "lost".to_string());
    assert_eq!(metadata.sections().len(), 1);
    assert_eq!(metadata.sections()[0].values(), &vec![1usize]);
    assert_eq!(metadata.sections()[0].descr_lines(), &strings(&["line"]));
    assert_eq!(metadata.values()[1].name(), "b");
}

#[test]
fn section_gathers_values_and_lines() {
    let mut section = SectionMetadata::new("Name".to_string());
    assert_eq!(section.descr(), "");
    section.add_value(4);
    section.add_value(2);
    section.add_descr("one".to_string());
    assert_eq!(section.descr(), "one");
    section.add_descr("".to_string());
    section.add_descr("three".to_string());
    assert_eq!(section.name(), "Name");
    assert_eq!(section.values(), &vec![4usize, 2]);
    assert_eq!(section.descr(), "one\n\nthree");
}

#[test]
fn parser_fails_where_a_pattern_is_too_big() {
    let mut config = Config::default();
    config.tags.skip = "@".repeat(3_000_000);
    match ChartMetadataParser::new(&config) {
        Err(error) => {
            assert!(error.message().starts_with("invalid pattern: ^\\s*\\#\\#\\s*@@@"));
            assert!(error.message().ends_with("@\\s*([^\\s]+)\\s*(.*)$"));
        }
        Ok(_) => panic!("expected an error"),
    }
}
