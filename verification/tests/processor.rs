use markstx::context::Context;
use markstx::variable::Variable;
use markstx::error::{ProcessorError, ProcessorErrorType};
use markstx::frontmatter::{
    DocConfig, FrontMatter, PageConfig, PageMargin, PageOrientation, PageSize,
};
use markstx::functions::{include_path, load_template, lorem_ipsum};
use markstx::nesting::IncludeTrail;
use markstx::processor::{function_name, html_of_expansion, Location, Processor};
use std::sync::{Arc, Mutex, RwLock};

fn at(directory: &str) -> Location {
    Ok(Some(directory.to_string()))
}

fn field<'a>(variable: &'a Variable, name: &str) -> &'a Variable {
    match variable {
        Variable::Record(fields) => {
            let found: Vec<&(String, Variable)> =
                fields.iter().filter(|entry| entry.0 == name).collect();
            assert_eq!(found.len(), 1);
            &found[0].1
        }
        other => panic!("no record with a field {name}: {other:?}"),
    }
}

fn text<'a>(variable: &'a Variable) -> &'a str {
    match variable {
        Variable::Text(text) => text,
        other => panic!("not a text: {other:?}"),
    }
}

fn names(variable: &Variable) -> Vec<&str> {
    match variable {
        Variable::Record(fields) => fields.iter().map(|entry| entry.0.as_str()).collect(),
        other => panic!("not a record: {other:?}"),
    }
}

fn explicit_settings() -> FrontMatter {
    FrontMatter {
        document: DocConfig { title: "Report".to_string() },
        page: PageConfig {
            size: PageSize::Explicit { width: "10cm".to_string(), height: "20cm".to_string() },
            margin: PageMargin {
                top: "1mm".to_string(),
                right: "2mm".to_string(),
                bottom: "3mm".to_string(),
                left: "4mm".to_string(),
            },
        },
    }
}

#[test]
fn function_names_join_plugin_and_name() {
    assert_eq!(function_name("", "convert_csv"), "_convert_csv");
    assert_eq!(function_name("plugin", "name"), "plugin_name");
    assert_eq!(function_name("", ""), "_");
}

#[test]
fn context_holds_the_settings_and_the_directory() {
    let processor = Processor::new(explicit_settings());
    let context: Context = processor.create_context(at("/srv/docs")).unwrap();
    assert_eq!(context.current_dir, "/srv/docs");
    assert_eq!(context.frontmatter.document.title, "Report");
    assert_eq!(context.frontmatter.page.margin.bottom, "3mm");
    assert_eq!(processor.frontmatter.document.title, "Report");
}

#[test]
fn context_of_an_unresolved_path_fails() {
    let processor = Processor::new(FrontMatter::default());
    let failed: ProcessorError =
        processor.create_context(Err("No such file or directory".to_string())).unwrap_err();
    assert!(matches!(&failed.error, ProcessorErrorType::PathInvalid(words) if words == "No such file or directory"));
    assert_eq!(failed.message(), "path 'No such file or directory' invalid");
}

#[test]
fn context_of_a_path_without_parent_fails() {
    let processor = Processor::new(FrontMatter::default());
    let failed = processor.create_context(Ok(None)).unwrap_err();
    assert!(matches!(&failed.error, ProcessorErrorType::PathInvalid(words) if words == "given path has no parent"));
}

#[test]
fn variables_of_the_default_settings() {
    let context = Context { frontmatter: FrontMatter::default(), current_dir: "/docs".to_string() };
    let variables = context.variables();
    assert_eq!(names(&variables), vec!["frontmatter", "current_dir"]);
    assert_eq!(text(field(&variables, "current_dir")), "/docs");
    let settings = field(&variables, "frontmatter");
    assert_eq!(names(settings), vec!["document", "page"]);
    assert_eq!(names(field(settings, "document")), vec!["title"]);
    assert_eq!(text(field(field(settings, "document"), "title")), "Untitled Document");
    let page = field(settings, "page");
    assert_eq!(names(page), vec!["size", "margin"]);
    assert_eq!(names(field(page, "size")), vec!["name", "orientation"]);
    assert_eq!(text(field(field(page, "size"), "name")), "A4");
    assert_eq!(text(field(field(page, "size"), "orientation")), "portrait");
    assert_eq!(names(field(page, "margin")), vec!["top", "right", "bottom", "left"]);
    for side in ["top", "right", "bottom", "left"] {
        assert_eq!(text(field(field(page, "margin"), side)), "0.75in");
    }
}

#[test]
fn variables_of_explicit_settings() {
    let mut settings = explicit_settings();
    let context = Context { frontmatter: settings.clone(), current_dir: String::new() };
    let variables = context.variables();
    let page = field(field(&variables, "frontmatter"), "page");
    assert_eq!(names(field(page, "size")), vec!["width", "height"]);
    assert_eq!(text(field(field(page, "size"), "width")), "10cm");
    assert_eq!(text(field(field(page, "size"), "height")), "20cm");
    assert_eq!(text(field(field(page, "margin"), "top")), "1mm");
    assert_eq!(text(field(field(page, "margin"), "right")), "2mm");
    assert_eq!(text(field(field(page, "margin"), "bottom")), "3mm");
    assert_eq!(text(field(field(page, "margin"), "left")), "4mm");
    settings.page.size =
        PageSize::Named { name: "Letter".to_string(), orientation: PageOrientation::Landscape };
    let context = Context { frontmatter: settings, current_dir: String::new() };
    let variables = context.variables();
    let size = field(field(field(&variables, "frontmatter"), "page"), "size");
    assert_eq!(text(field(size, "name")), "Letter");
    assert_eq!(text(field(size, "orientation")), "landscape");
}

#[test]
fn expanded_text_becomes_html() {
    assert_eq!(html_of_expansion(Ok("# Title".to_string())).unwrap(), "<h1>Title</h1>\n");
    assert_eq!(
        html_of_expansion(Ok("some *text*\n\n- a\n- b\n".to_string())).unwrap(),
        "<p>some <em>text</em></p>\n<ul>\n<li>a</li>\n<li>b</li>\n</ul>\n"
    );
    assert_eq!(html_of_expansion(Ok(String::new())).unwrap(), "");
}

#[test]
fn every_extension_of_the_converter_is_on() {
    assert_eq!(html_of_expansion(Ok("~~gone~~".to_string())).unwrap(), "<p><del>gone</del></p>\n");
    assert_eq!(
        html_of_expansion(Ok("|a|b|\n|-|-|\n|1|2|\n".to_string())).unwrap(),
        "<table><thead><tr><th>a</th><th>b</th></tr></thead><tbody>\n<tr><td>1</td><td>2</td></tr>\n</tbody></table>\n"
    );
    assert_eq!(
        html_of_expansion(Ok("- [x] done\n".to_string())).unwrap(),
        "<ul>\n<li><input disabled=\"\" type=\"checkbox\" checked=\"\"/>\ndone</li>\n</ul>\n"
    );
}

#[test]
fn failed_expansion_stays_a_failure() {
    let failed = html_of_expansion(Err(ProcessorError::new_generic("no"))).unwrap_err();
    assert!(matches!(&failed.error, ProcessorErrorType::Generic(words) if words == "no"));
}

#[test]
fn render_expands_and_converts() {
    let processor = Processor::new(explicit_settings());
    let html = processor
        .render_content_str(
            at("/srv/docs"),
            "# {{ frontmatter.document.title }}\n\n{{ frontmatter.page.size.width }} by {{ frontmatter.page.size.height }}, {{ frontmatter.page.margin.left }} in {{ current_dir }}",
        )
        .unwrap();
    assert_eq!(html, "<h1>Report</h1>\n<p>10cm by 20cm, 4mm in /srv/docs</p>\n");
}

#[test]
fn render_of_default_settings() {
    let processor = Processor::new(FrontMatter::default());
    let html = processor
        .render_content_str(
            at("/"),
            "{{ frontmatter.document.title }}: {{ frontmatter.page.size.name }} {{ frontmatter.page.size.orientation }} {{ frontmatter.page.margin.top }}",
        )
        .unwrap();
    assert_eq!(html, "<p>Untitled Document: A4 portrait 0.75in</p>\n");
}

#[test]
fn render_without_context_fails() {
    let processor = Processor::new(FrontMatter::default());
    let failed = processor.render_content_str(Ok(None), "text").unwrap_err();
    assert!(matches!(&failed.error, ProcessorErrorType::PathInvalid(words) if words == "given path has no parent"));
    let failed = processor.render_content_str(Err("gone".to_string()), "text").unwrap_err();
    assert!(matches!(&failed.error, ProcessorErrorType::PathInvalid(words) if words == "gone"));
}

#[test]
fn render_with_broken_template_fails() {
    let processor = Processor::new(FrontMatter::default());
    let failed = processor.render_content_str(at("/"), "{% if %}").unwrap_err();
    assert!(matches!(failed.error, ProcessorErrorType::Expansion(_)));
    let failed = processor.render_content_str(at("/"), "{{ _nothing() }}").unwrap_err();
    assert!(matches!(failed.error, ProcessorErrorType::Expansion(_)));
}

#[test]
fn render_uses_registered_functions() {
    let mut processor = Processor::new(FrontMatter::default());
    processor.add_function("", "lorem_ipsum", |options: minijinja::value::Kwargs| {
        lorem_ipsum(options.get("words")).map_err(ProcessorError::into_template_error)
    });
    processor.add_function("text", "twice", |word: String| format!("{word}{word}"));
    let html = processor
        .render_content_str(at("/"), "{{ _lorem_ipsum(words=7) }} {{ text_twice('ab') }}")
        .unwrap();
    assert_eq!(html, "<p>Lorem ipsum dolor sit amet, consectetur adipiscing. abab</p>\n");
}

#[test]
fn render_reports_the_failure_of_a_function() {
    let mut processor = Processor::new(FrontMatter::default());
    processor.add_function("", "lorem_ipsum", |options: minijinja::value::Kwargs| {
        lorem_ipsum(options.get("words")).map_err(ProcessorError::into_template_error)
    });
    let failed = processor.render_content_str(at("/"), "{{ _lorem_ipsum() }}").unwrap_err();
    match failed.error {
        ProcessorErrorType::Expansion(error) => {
            assert_eq!(error.kind(), minijinja::ErrorKind::MissingArgument);
            assert_eq!(error.detail(), Some("missing 'words'"));
        }
        other => panic!("not a failed expansion: {other:?}"),
    }
}

#[test]
fn render_loads_templates_by_name() {
    let mut processor = Processor::new(FrontMatter::default());
    processor.set_template_loader(|name| {
        Ok(load_template(name, |file: &String| {
            if file == "note.html.tmpl" {
                Some(b"<aside>{{ frontmatter.document.title }}</aside>".to_vec())
            } else {
                None
            }
        }))
    });
    let html = processor.render_content_str(at("/"), "{% include 'note' %}").unwrap();
    assert_eq!(html, "<aside>Untitled Document</aside>");
}

#[test]
fn render_with_a_missing_template_fails() {
    let mut processor = Processor::new(FrontMatter::default());
    processor.set_template_loader(|name| Ok(load_template(name, |_: &String| None)));
    let failed = processor.render_content_str(at("/"), "{% include 'nothing' %}").unwrap_err();
    assert!(matches!(failed.error, ProcessorErrorType::TemplateNotFound(_)));
    let bare = Processor::new(FrontMatter::default());
    let failed = bare.render_content_str(at("/"), "{% include 'nothing' %}").unwrap_err();
    assert!(matches!(failed.error, ProcessorErrorType::TemplateNotFound(_)));
}

#[test]
fn render_content_of_an_unreadable_document_fails() {
    let processor = Processor::new(FrontMatter::default());
    let failed = processor.render_content(at("/"), Err("permission denied".to_string())).unwrap_err();
    assert!(matches!(&failed.error, ProcessorErrorType::Io(words) if words == "permission denied"));
}

#[test]
fn render_content_renders_what_was_read() {
    let processor = Processor::new(FrontMatter::default());
    let html = processor.render_content(at("/docs"), Ok("*{{ current_dir }}*".to_string())).unwrap();
    assert_eq!(html, "<p><em>/docs</em></p>\n");
    let failed = processor.render_content(Ok(None), Ok("text".to_string())).unwrap_err();
    assert!(matches!(failed.error, ProcessorErrorType::PathInvalid(_)));
}

fn library(path: &str) -> Result<String, String> {
    match path {
        "docs/a.md" => Ok("A[{{ _include('docs', 'b') }}]".to_string()),
        "docs/b.md" => Ok("B[{{ _include('docs', 'a') }}]".to_string()),
        "docs/c.md" => Ok("# C\n\n{{ _include('docs', 'leaf') }}\n\n{{ _include('docs/', 'leaf.md') }}".to_string()),
        "docs/leaf.md" => Ok("leaf".to_string()),
        other => Err(format!("no document at {other}")),
    }
}

fn including_processor() -> Arc<RwLock<Processor>> {
    let processor = Arc::new(RwLock::new(Processor::new(FrontMatter::default())));
    let trail = Arc::new(Mutex::new(IncludeTrail::new()));
    let inner = processor.clone();
    processor.write().unwrap().add_function(
        "",
        "include",
        move |dir: String, filename: String| -> Result<String, minijinja::Error> {
            let path = include_path(&dir, &filename);
            trail.lock().unwrap().enter(&path).map_err(ProcessorError::into_template_error)?;
            let html = inner.read().unwrap().render_content(Ok(Some(dir)), library(&path));
            trail.lock().unwrap().leave();
            html.map_err(ProcessorError::into_template_error)
        },
    );
    processor
}

#[test]
fn included_documents_are_rendered_in_place() {
    let processor = including_processor();
    let html = processor
        .read()
        .unwrap()
        .render_content_str(at("/"), "{{ _include('docs', 'c') }}")
        .unwrap();
    assert_eq!(html, "<h1>C</h1>\n<p>leaf</p>\n<p>leaf</p>\n");
}

#[test]
fn cycle_of_two_documents_ends_in_a_failure() {
    let processor = including_processor();
    let failed = processor
        .read()
        .unwrap()
        .render_content_str(at("/"), "{{ _include('docs', 'a') }}")
        .unwrap_err();
    match failed.error {
        ProcessorErrorType::Expansion(error) => {
            assert_eq!(error.kind(), minijinja::ErrorKind::InvalidOperation);
            assert_eq!(error.detail(), Some("document includes itself: docs/a.md"));
        }
        other => panic!("not a failed expansion: {other:?}"),
    }
}

#[test]
fn missing_included_document_fails_with_its_path() {
    let processor = including_processor();
    let failed = processor
        .read()
        .unwrap()
        .render_content_str(at("/"), "{{ _include('docs', 'nothing') }}")
        .unwrap_err();
    match failed.error {
        ProcessorErrorType::Expansion(error) => {
            assert_eq!(error.detail(), Some("no document at docs/nothing.md"));
        }
        other => panic!("not a failed expansion: {other:?}"),
    }
}

fn render_body(settings: FrontMatter, body: String) -> Result<String, ProcessorError> {
    Processor::new(settings).render_content_str(at("/docs"), &body)
}

fn nothing_rendered(_: FrontMatter, _: String) -> Result<String, ProcessorError> {
    panic!("nothing is to be rendered")
}

#[test]
fn document_without_preamble_has_the_default_settings() {
    let html = Processor::render_document(
        Ok("# {{ frontmatter.document.title }}\n\ntext".to_string()),
        render_body,
    )
    .unwrap();
    assert_eq!(html, "<h1>Untitled Document</h1>\n<p>text</p>\n");
}

#[test]
fn document_with_preamble_has_its_settings() {
    let html = Processor::render_document(
        Ok("---\ndocument:\n  title: Report\npage:\n  margin:\n    left: 2cm\n---\n# {{ frontmatter.document.title }}\n\n{{ frontmatter.page.size.name }} {{ frontmatter.page.margin.left }} {{ frontmatter.page.margin.top }}".to_string()),
        render_body,
    )
    .unwrap();
    assert_eq!(html, "<h1>Report</h1>\n<p>A4 2cm 0.75in</p>\n");
}

#[test]
fn document_is_rendered_from_its_body_alone() {
    let seen = std::cell::RefCell::new(String::new());
    let html = Processor::render_document(
        Ok("---\ndocument: {title: T}\n---\nbody\nmore\n".to_string()),
        |settings: FrontMatter, body: String| {
            *seen.borrow_mut() = format!("{}|{}", settings.document.title, body);
            Ok("done".to_string())
        },
    )
    .unwrap();
    assert_eq!(html, "done");
    assert_eq!(*seen.borrow(), "T|body\nmore\n");
}

#[test]
fn document_with_malformed_preamble_fails() {
    let failed = Processor::render_document(
        Ok("---\npage: {size: {name: A4}}\n---\nbody".to_string()),
        nothing_rendered,
    )
    .unwrap_err();
    assert!(matches!(&failed.error, ProcessorErrorType::MalformedPreamble(reason) if reason == "page.size: expected name and orientation, or width and height"));
    let failed = Processor::render_document(
        Ok("---\ndocument: [a\n---\nbody".to_string()),
        nothing_rendered,
    )
    .unwrap_err();
    assert!(matches!(failed.error, ProcessorErrorType::MalformedPreamble(_)));
}

#[test]
fn document_that_could_not_be_read_fails() {
    let failed =
        Processor::render_document(Err("no such file".to_string()), nothing_rendered).unwrap_err();
    assert!(matches!(&failed.error, ProcessorErrorType::Io(reason) if reason == "no such file"));
}

#[test]
fn failure_of_the_rendering_is_the_failure_of_the_document() {
    let failed = Processor::render_document(Ok("{% if %}".to_string()), render_body).unwrap_err();
    assert!(matches!(failed.error, ProcessorErrorType::Expansion(_)));
}
