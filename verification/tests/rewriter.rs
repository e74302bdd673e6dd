use chartpedia::config::Config;
use chartpedia::markdown::RenderError;
use chartpedia::metadata::chart::ChartMetadata;
use chartpedia::metadata::parser::ChartMetadataParser;
use chartpedia::render::{splice, MarkdownRenderer};

fn doc(text: &[&str]) -> Vec<String> {
    text.iter().map(|line| line.to_string()).collect()
}

fn sample_metadata() -> ChartMetadata {
    let parser = ChartMetadataParser::new(&Config::default()).unwrap();
    parser.parse(&doc(&[
        "## @section Common",
        "## @param image.tag [string] Image tag to deploy",
        "image:",
        "  tag: latest",
    ]))
}

fn sample_block() -> Vec<String> {
    doc(&[
        "",
        "",
        "### Common",
        "",
        "| Name      | Description       | Value |",
        "| --------- | ----------------- | --- |",
        "| `image.tag` | Image tag to deploy | `{}` |",
        "",
    ])
}

fn renderer() -> MarkdownRenderer {
    MarkdownRenderer::new(&Config::default()).unwrap()
}

#[test]
fn render_middle_param_section() {
    let document = doc(&[
        "# Chart",
        "",
        "## Parameters",
        "",
        "an old table",
        "### An old section",
        "more of the old table",
        "## Resources",
        "",
        "Text that stays.",
    ]);
    let rendered = renderer().render(&document, &sample_metadata()).unwrap();
    assert!(rendered.found);
    let mut expected = doc(&["# Chart", "", "## Parameters"]);
    expected.extend(sample_block());
    expected.extend(doc(&["## Resources", "", "Text that stays."]));
    assert_eq!(rendered.lines, expected);
}

#[test]
fn render_last_param_section() {
    let document = doc(&["# Chart", "", "Some text.", "", "## Parameters"]);
    let rendered = renderer().render(&document, &sample_metadata()).unwrap();
    assert!(rendered.found);
    let mut expected = doc(&["# Chart", "", "Some text.", "", "## Parameters"]);
    expected.extend(sample_block());
    assert_eq!(rendered.lines, expected);
}

#[test]
fn render_last_param_section_with_text_below() {
    let document = doc(&[
        "# Chart",
        "## Parameters",
        "",
        "| Name | Description | Value |",
        "",
        "Text below the old table.",
        "### A deeper heading",
        "# A heading of lesser depth",
    ]);
    let rendered = renderer().render(&document, &sample_metadata()).unwrap();
    assert!(rendered.found);
    let mut expected = doc(&["# Chart", "## Parameters"]);
    expected.extend(sample_block());
    assert_eq!(rendered.lines, expected);
}

#[test]
fn render_without_parameters_heading_changes_nothing() {
    let document = doc(&[
        "# Chart",
        "",
        "## Resources",
        "text",
        "##Parameters",
        "#Parameters",
        "## Parameters of the chart",
        "## Parameters ",
        " ## Parameters",
        "Parameters",
    ]);
    let rendered = renderer().render(&document, &sample_metadata()).unwrap();
    assert!(!rendered.found);
    assert_eq!(rendered.lines, document);
}

#[test]
fn render_empty_document_finds_nothing() {
    let rendered = renderer().render(&Vec::new(), &sample_metadata()).unwrap();
    assert!(!rendered.found);
    assert!(rendered.lines.is_empty());
}

#[test]
fn render_twice_is_render_once() {
    let document = doc(&[
        "# Chart",
        "## Parameters",
        "stale",
        "## Resources",
        "kept",
    ]);
    let metadata = sample_metadata();
    let once = renderer().render(&document, &metadata).unwrap();
    let twice = renderer().render(&once.lines, &metadata).unwrap();
    assert!(once.found && twice.found);
    assert_eq!(once.lines, twice.lines);
}

#[test]
fn render_twice_differs_where_a_description_is_a_heading() {
    let parser = ChartMetadataParser::new(&Config::default()).unwrap();
    let metadata = parser.parse(&doc(&[
        "## @section Common",
        "## @descriptionStart",
        "## ## Not a heading",
        "## @descriptionEnd",
    ]));
    let document = doc(&["## Parameters", "stale"]);
    let once = renderer().render(&document, &metadata).unwrap();
    assert_eq!(
        once.lines,
        doc(&["## Parameters", "", "", "### Common", "", "## Not a heading ", "", ""])
    );
    let twice = renderer().render(&once.lines, &metadata).unwrap();
    assert_eq!(
        twice.lines,
        doc(&[
            "## Parameters",
            "",
            "",
            "### Common",
            "",
            "## Not a heading ",
            "",
            "",
            "## Not a heading ",
            "",
            "",
        ])
    );
}

#[test]
fn render_keeps_the_lines_outside_the_section() {
    let document = doc(&[
        "intro",
        "### Parameters",
        "old one",
        "#### deeper",
        "## shallower",
        "old two",
        "### Next",
        "tail one",
        "### Parameters",
        "tail two",
    ]);
    let rendered = renderer().render(&document, &ChartMetadata::new()).unwrap();
    assert!(rendered.found);
    assert_eq!(
        rendered.lines,
        doc(&[
            "intro",
            "### Parameters",
            "",
            "",
            "### Next",
            "tail one",
            "### Parameters",
            "tail two",
        ])
    );
}

#[test]
fn render_uses_only_the_first_parameters_heading() {
    let document = doc(&["## Parameters", "old", "### Parameters", "old too", "## Parameters", "kept"]);
    let rendered = renderer().render(&document, &ChartMetadata::new()).unwrap();
    assert_eq!(rendered.lines, doc(&["## Parameters", "", "", "## Parameters", "kept"]));
}

#[test]
fn render_section_headings_are_one_level_deeper() {
    let document = doc(&["#### Parameters"]);
    let rendered = renderer().render(&document, &sample_metadata()).unwrap();
    assert_eq!(rendered.lines[3], "##### Common");
}

#[test]
fn title_is_taken_literally() {
    let mut config = Config::default();
    config.regexp.params_section_title = "Values (all)".to_string();
    let renderer = MarkdownRenderer::new(&config).unwrap();
    assert_eq!(renderer.try_find_param_section("## Values (all)"), Some("##".to_string()));
    assert_eq!(renderer.try_find_param_section("## Values all"), None);
    assert_eq!(renderer.try_find_param_section("### Values (all) and more"), None);
    assert_eq!(renderer.try_find_param_section("# Values (all)"), Some("#".to_string()));
    assert_eq!(renderer.try_find_param_section(" ## Values (all)"), None);
}

#[test]
fn heading_has_one_or_more_markers_and_the_title() {
    let renderer = renderer();
    assert_eq!(renderer.try_find_param_section("# Parameters"), Some("#".to_string()));
    assert_eq!(renderer.try_find_param_section("## Parameters"), Some("##".to_string()));
    assert_eq!(renderer.try_find_param_section("###### Parameters"), Some("######".to_string()));
    assert_eq!(renderer.try_find_param_section("Parameters"), None);
    assert_eq!(renderer.try_find_param_section("#Parameters"), None);
    assert_eq!(renderer.try_find_param_section("#  Parameters"), None);
    assert_eq!(renderer.try_find_param_section("## Parameters "), None);
    assert_eq!(renderer.try_find_param_section("## Parameters and more"), None);
    assert_eq!(renderer.try_find_param_section("## parameters"), None);
}

#[test]
fn render_under_a_top_level_heading() {
    let document = doc(&["# Parameters", "stale", "## A deeper heading", "stale", "# Next", "kept"]);
    let rendered = renderer().render(&document, &sample_metadata()).unwrap();
    assert!(rendered.found);
    assert_eq!(
        rendered.lines,
        doc(&[
            "# Parameters",
            "",
            "",
            "## Common",
            "",
            "| Name      | Description       | Value |",
            "| --------- | ----------------- | --- |",
            "| `image.tag` | Image tag to deploy | `{}` |",
            "",
            "# Next",
            "kept",
        ])
    );
}

#[test]
fn render_params_puts_an_empty_line_first() {
    let lines = renderer().render_params(&sample_metadata(), "##").unwrap();
    assert_eq!(lines, sample_block());
    let none = renderer().render_params(&ChartMetadata::new(), "##").unwrap();
    assert_eq!(none, doc(&["", ""]));
}

#[test]
fn splice_replaces_the_lines_between() {
    let document = doc(&["a", "b", "c", "d"]);
    let inserted = doc(&["x", "y"]);
    assert_eq!(splice(&document, 0, 3, &inserted), doc(&["a", "x", "y", "d"]));
    assert_eq!(splice(&document, 1, 2, &inserted), doc(&["a", "b", "x", "y", "c", "d"]));
    assert_eq!(splice(&document, 3, 4, &inserted), doc(&["a", "b", "c", "d", "x", "y"]));
    assert_eq!(splice(&document, 1, 9, &inserted), doc(&["a", "b", "x", "y"]));
    assert_eq!(splice(&document, 2, 0, &inserted), doc(&["a", "b", "c", "x", "y", "d"]));
    assert_eq!(splice(&document, 7, 8, &inserted), doc(&["a", "b", "c", "d", "x", "y"]));
    assert_eq!(splice(&Vec::new(), 0, 0, &inserted), doc(&["x", "y"]));
}

#[test]
fn render_fails_where_the_boundary_pattern_is_too_big() {
    let mut heading = "#".repeat(3_000_000);
    heading.push_str(" Parameters");
    let document = vec![heading];
    match renderer().render(&document, &ChartMetadata::new()) {
        Err(RenderError::Pattern(error)) => {
            assert!(error.message().starts_with("invalid pattern: ^\\#\\#"));
            assert!(error.message().ends_with("\\#\\s"));
        }
        other => panic!("expected a pattern error, got {:?}", other.map(|r| r.found)),
    }
}
