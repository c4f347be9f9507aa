//! The renderer: it builds the context of a document, expands the text
//! through the template environment and converts the result to HTML.

use vstd::prelude::*;
use vstd::string::StringExecFns;
use crate::context::{Context, ContextView};
use crate::error::{failure, FailureKind, ProcessorError, ProcessorErrorType};
use crate::frontmatter::{
    body_of, default_frontmatter, has_preamble, preamble_of, split_by_frontmatter, FrontMatter,
};
use crate::schema::settings_in_text;

verus! {

/// The template environment of the engine: templates, their loader and the
/// registered functions. What is inside it is not visible here.
#[verifier::external_type_specification]
#[verifier::external_body]
pub struct ExEnvironment<'source>(minijinja::Environment<'source>);

/// The HTML that the Markdown converter, with every extension switched on,
/// makes of a text.
pub uninterp spec fn html_of_markdown(text: Seq<char>) -> Seq<char>;

/// The names of the globals, functions among them, that an environment holds.
pub uninterp spec fn global_names(environment: minijinja::Environment<'static>) -> Set<Seq<char>>;

/// Whether an environment has a loader to ask for templates.
pub uninterp spec fn has_loader(environment: minijinja::Environment<'static>) -> bool;

/// `minijinja::Environment::new`: a fresh environment with the engine's
/// defaults, which has no loader yet.
#[verifier::external_body]
fn new_environment() -> (environment: minijinja::Environment<'static>)
    ensures
        !has_loader(environment),
{
    minijinja::Environment::new()
}

/// `minijinja::Environment::set_loader`: from now on the environment asks
/// `loader` for every template that it does not hold. Its globals stay.
#[verifier::external_body]
fn environment_set_loader<F>(environment: &mut minijinja::Environment<'static>, loader: F) where
    F: Fn(&str) -> Result<Option<String>, minijinja::Error> + Send + Sync + 'static,

    ensures
        has_loader(*final(environment)),
        global_names(*final(environment)) == global_names(*old(environment)),
{
    environment.set_loader(loader);
}

/// `minijinja::Environment::add_function`: the environment holds `function`
/// as a global under `name`, beside the globals it held. Its loader stays.
#[verifier::external_body]
fn environment_add_function<F, Rv, Args>(
    environment: &mut minijinja::Environment<'static>,
    name: String,
    function: F,
) where
    F: minijinja::functions::Function<Rv, Args>,
    Rv: minijinja::value::FunctionResult,
    Args: for <'a>minijinja::value::FunctionArgs<'a>,

    ensures
        global_names(*final(environment)) == global_names(*old(environment)).insert(name@),
        has_loader(*final(environment)) == has_loader(*old(environment)),
{
    environment.add_function(name, function);
}

/// `minijinja::Environment::render_str`: expands `source` as a template with
/// `variables` as its context. What comes out depends on the functions and
/// the loader of the environment, so nothing is claimed of it.
#[verifier::external_body]
fn environment_render(
    environment: &minijinja::Environment<'static>,
    source: &str,
    variables: minijinja::Value,
) -> (expanded: Result<String, minijinja::Error>) {
    environment.render_str(source, variables)
}

/// `pulldown_cmark::html::push_html` on `pulldown_cmark::Parser::new_ext` with
/// `Options::all()`: the HTML of a Markdown text, which depends on the text
/// alone.
#[verifier::external_body]
fn markdown_to_html(text: &str) -> (html: String)
    ensures
        html@ == html_of_markdown(text@),
{
    let parser = pulldown_cmark::Parser::new_ext(text, pulldown_cmark::Options::all());
    let mut html = String::new();
    pulldown_cmark::html::push_html(&mut html, parser);
    html
}

/// The name under which a function of a plugin is registered: the plugin's
/// name, an underscore and the function's name.
pub open spec fn registered_name(plugin_name: Seq<char>, name: Seq<char>) -> Seq<char> {
    plugin_name + seq!['_'] + name
}

/// The name under which a function of a plugin is registered.
pub fn function_name(plugin_name: &str, name: &str) -> (full: String)
    ensures
        full@ == registered_name(plugin_name@, name@),
{
    proof {
        reveal_strlit("_");
    }
    assert("_"@ == seq!['_']);
    let mut full = plugin_name.to_owned();
    full.append("_");
    full.append(name);
    full
}

/// Where a document lies, as far as the file system could tell: the reason
/// why its path could not be made absolute, or the directory that holds it,
/// if there is one.
pub type Location = Result<Option<String>, String>;

/// The words for a path that has no directory above it.
pub open spec fn no_parent_text() -> Seq<char> {
    "given path has no parent"@
}

/// The context of a document with the given settings at the given location,
/// or the words of the failure where the location has no directory.
pub open spec fn context_at(frontmatter: FrontMatter, location: Location) -> Result<
    ContextView,
    Seq<char>,
> {
    match location {
        Err(reason) => Err(reason@),
        Ok(None) => Err(no_parent_text()),
        Ok(Some(directory)) => Ok(
            ContextView { frontmatter: frontmatter@, current_dir: directory@ },
        ),
    }
}

/// The result of a render call whose expansion ended as given: the HTML of
/// the expanded text, or the failure of the expansion.
pub fn html_of_expansion(expanded: Result<String, ProcessorError>) -> (html: Result<
    String,
    ProcessorError,
>)
    ensures
        match expanded {
            Ok(text) => html matches Ok(page) && page@ == html_of_markdown(text@),
            Err(failure) => html == Err::<String, ProcessorError>(failure),
        },
{
    match expanded {
        Ok(text) => Ok(markdown_to_html(text.as_str())),
        Err(failure) => Err(failure),
    }
}

/// The renderer of one compilation. It owns the template environment and the
/// settings of the document's preamble.
pub struct Processor {
    template_env: minijinja::Environment<'static>,
    pub frontmatter: FrontMatter,
}

impl Processor {
    /// The settings of the document that this renderer was made for.
    pub closed spec fn settings(&self) -> FrontMatter {
        self.frontmatter
    }

    /// The names of the functions and other globals that templates can use.
    pub closed spec fn function_names(&self) -> Set<Seq<char>> {
        global_names(self.template_env)
    }

    /// Whether a loader for named templates has been set.
    pub closed spec fn loads_templates(&self) -> bool {
        has_loader(self.template_env)
    }

    /// A renderer for a document with the given settings, with a fresh
    /// template environment that has no loader yet.
    pub fn new(frontmatter: FrontMatter) -> (processor: Self)
        ensures
            processor.settings() == frontmatter,
            !processor.loads_templates(),
    {
        Processor { template_env: new_environment(), frontmatter }
    }

    /// Sets the loader that the environment asks for templates by name.
    pub fn set_template_loader<F>(&mut self, f: F) where
        F: Fn(&str) -> Result<Option<String>, minijinja::Error> + Send + Sync + 'static,

        ensures
            final(self).settings() == old(self).settings(),
            final(self).loads_templates(),
            final(self).function_names() == old(self).function_names(),
    {
        environment_set_loader(&mut self.template_env, f);
    }

    /// Registers a function of a plugin under `registered_name`.
    pub fn add_function<F, Rv, Args>(&mut self, plugin_name: &str, name: &str, f: F) where
        F: minijinja::functions::Function<Rv, Args>,
        Rv: minijinja::value::FunctionResult,
        Args: for <'a>minijinja::value::FunctionArgs<'a>,

        ensures
            final(self).settings() == old(self).settings(),
            final(self).loads_templates() == old(self).loads_templates(),
            final(self).function_names() == old(self).function_names().insert(
                registered_name(plugin_name@, name@),
            ),
    {
        let full = function_name(plugin_name, name);
        environment_add_function(&mut self.template_env, full, f);
    }

    /// The context of a render call for a document at `location`. It fails
    /// with `PathInvalid` where the path could not be made absolute or has no
    /// directory above it; otherwise it holds the settings of this renderer
    /// and that directory.
    pub fn create_context(&self, location: Location) -> (context: Result<Context, ProcessorError>)
        ensures
            match context_at(self.settings(), location) {
                Ok(view) => context matches Ok(made) && made@ == view,
                Err(words) => context matches Err(failed) && failed@ == failure(
                    FailureKind::PathInvalid,
                    words,
                ),
            },
    {
        match location {
            Err(reason) => Err(ProcessorError { error: ProcessorErrorType::PathInvalid(reason) }),
            Ok(None) => Err(
                ProcessorError {
                    error: ProcessorErrorType::PathInvalid("given path has no parent".to_owned()),
                },
            ),
            Ok(Some(directory)) => Ok(
                Context { frontmatter: self.frontmatter.clone(), current_dir: directory },
            ),
        }
    }

    /// Renders `content` as the text of a document at `location`: builds the
    /// context, expands the text through the template environment and
    /// converts the expanded text to HTML. It fails with `PathInvalid` where
    /// no context can be built, and with the failure of the expansion where the
    /// template engine fails.
    pub fn render_content_str(&self, location: Location, content: &str) -> (html: Result<
        String,
        ProcessorError,
    >)
        ensures
            match context_at(self.settings(), location) {
                Ok(_) => match html {
                    Ok(page) => exists|expanded: Seq<char>| page@ == html_of_markdown(expanded),
                    Err(failed) => failed@.kind == FailureKind::Expansion || failed@.kind
                        == FailureKind::TemplateNotFound,
                },
                Err(words) => html matches Err(failed) && failed@ == failure(
                    FailureKind::PathInvalid,
                    words,
                ),
            },
    {
        let context = match self.create_context(location) {
            Ok(context) => context,
            Err(failure) => { return Err(failure); },
        };
        let variables = context.variables();
        let expanded = match environment_render(
            &self.template_env,
            content,
            variables.to_engine(),
        ) {
            Ok(text) => Ok(text),
            Err(error) => Err(ProcessorError::from_engine(error)),
        };
        html_of_expansion(expanded)
    }

    /// Renders a document at `location` from what reading it gave: its text,
    /// or the reason why it could not be read. A document that could not be
    /// read fails with `Io`; any other is rendered as `render_content_str`
    /// renders its text.
    pub fn render_content(&self, location: Location, source: Result<String, String>) -> (html:
        Result<String, ProcessorError>)
        ensures
            match source {
                Err(reason) => html matches Err(failed) && failed@ == failure(
                    FailureKind::Io,
                    reason@,
                ),
                Ok(_) => match context_at(self.settings(), location) {
                    Ok(_) => match html {
                        Ok(page) => exists|expanded: Seq<char>|
                            page@ == html_of_markdown(expanded),
                        Err(failed) => failed@.kind == FailureKind::Expansion || failed@.kind
                            == FailureKind::TemplateNotFound,
                    },
                    Err(words) => html matches Err(failed) && failed@ == failure(
                        FailureKind::PathInvalid,
                        words,
                    ),
                },
            },
    {
        match source {
            Err(reason) => Err(ProcessorError { error: ProcessorErrorType::Io(reason) }),
            Ok(content) => self.render_content_str(location, content.as_str()),
        }
    }

    /// Renders a whole document from what reading it gave. A document that
    /// could not be read fails with `Io`. Otherwise the preamble is split off
    /// and, where there is one, read; a preamble that does not have the shape
    /// of the settings fails with `MalformedPreamble`. The settings that
    /// the preamble asks for, or the defaults where there is none, and the
    /// body are then handed to `render`, which sets a renderer up for them and
    /// renders the body; what it returns is the result.
    pub fn render_document<R>(source: Result<String, String>, render: R) -> (html: Result<
        String,
        ProcessorError,
    >) where R: FnOnce(FrontMatter, String) -> Result<String, ProcessorError>
        requires
            forall|settings: FrontMatter, body: String| call_requires(render, (settings, body)),
        ensures
            match source {
                Err(reason) => html matches Err(failed) && failed@ == failure(
                    FailureKind::Io,
                    reason@,
                ),
                Ok(content) => if has_preamble(content@) {
                    match settings_in_text(preamble_of(content@)) {
                        Err(expected) => html matches Err(failed) && failed@ == expected,
                        Ok(expected) => exists|settings: FrontMatter, body: String|
                            settings@ == expected && body@ == body_of(content@) && call_ensures(
                                render,
                                (settings, body),
                                html,
                            ),
                    }
                } else {
                    exists|settings: FrontMatter, body: String|
                        settings@ == default_frontmatter() && body@ == content@ && call_ensures(
                            render,
                            (settings, body),
                            html,
                        )
                },
            },
    {
        let content = match source {
            Err(reason) => {
                return Err(ProcessorError { error: ProcessorErrorType::Io(reason) });
            },
            Ok(content) => content,
        };
        let (preamble, body) = split_by_frontmatter(content.as_str());
        let settings = match preamble {
            None => FrontMatter::default(),
            Some(text) => match FrontMatter::from_yaml_str(text.as_str()) {
                Ok(settings) => settings,
                Err(failed) => {
                    return Err(failed);
                },
            },
        };
        let html = render(settings, body);
        assert(call_ensures(render, (settings, body), html));
        html
    }
}

} // verus!
