//! Logging configuration: which component logs, where to, at which level, and
//! the filter that decides what is written.
use vstd::prelude::*;
use vstd::string::StringExecFns;

verus! {

/// The part of the application that writes the log.
#[derive(Debug, Clone, Copy, PartialEq, Eq, Structural)]
pub enum Component {
    Ui,
    Vayuget,
}

/// The name a component logs under.
pub open spec fn component_name(c: Component) -> Seq<char> {
    match c {
        Component::Ui => "ui"@,
        Component::Vayuget => "vayuget"@,
    }
}

impl Component {
    /// The name the component logs under (and names its log file after).
    pub fn as_str(&self) -> (s: &'static str)
        ensures
            s@ == component_name(*self),
    {
        match self {
            Component::Ui => "ui",
            Component::Vayuget => "vayuget",
        }
    }
}

/// How much is logged, from everything (`Trace`) to errors only (`Error`).
#[derive(Debug, Clone, Copy, PartialEq, Eq, Structural)]
pub enum LogLevel {
    Trace,
    Debug,
    Info,
    Warn,
    Error,
}

/// How a level is written in a filter.
pub open spec fn level_name(l: LogLevel) -> Seq<char> {
    match l {
        LogLevel::Trace => "TRACE"@,
        LogLevel::Debug => "DEBUG"@,
        LogLevel::Info => "INFO"@,
        LogLevel::Warn => "WARN"@,
        LogLevel::Error => "ERROR"@,
    }
}

/// The level a command line names (`trace`, `debug`, `info`, `warn` or `error`).
pub open spec fn level_from_name(s: Seq<char>) -> Option<LogLevel> {
    if s == "trace"@ {
        Some(LogLevel::Trace)
    } else if s == "debug"@ {
        Some(LogLevel::Debug)
    } else if s == "info"@ {
        Some(LogLevel::Info)
    } else if s == "warn"@ {
        Some(LogLevel::Warn)
    } else if s == "error"@ {
        Some(LogLevel::Error)
    } else {
        None
    }
}

impl LogLevel {
    /// How the level is written in a filter.
    pub fn as_str(&self) -> (s: &'static str)
        ensures
            s@ == level_name(*self),
    {
        match self {
            LogLevel::Trace => "TRACE",
            LogLevel::Debug => "DEBUG",
            LogLevel::Info => "INFO",
            LogLevel::Warn => "WARN",
            LogLevel::Error => "ERROR",
        }
    }

    /// The level a command line names; none for any other text.
    pub fn from_name(s: &str) -> (r: Option<LogLevel>)
        ensures
            r == level_from_name(s@),
    {
        proof {
            reveal_strlit("trace");
            reveal_strlit("debug");
            reveal_strlit("info");
            reveal_strlit("warn");
            reveal_strlit("error");
        }
        if str_eq(s, "trace") {
            Some(LogLevel::Trace)
        } else if str_eq(s, "debug") {
            Some(LogLevel::Debug)
        } else if str_eq(s, "info") {
            Some(LogLevel::Info)
        } else if str_eq(s, "warn") {
            Some(LogLevel::Warn)
        } else if str_eq(s, "error") {
            Some(LogLevel::Error)
        } else {
            None
        }
    }
}

/// Whether two texts are equal, character by character.
pub fn str_eq(a: &str, b: &str) -> (r: bool)
    ensures
        r == (a@ == b@),
{
    let n = a.unicode_len();
    if n != b.unicode_len() {
        return false;
    }
    let mut i: usize = 0;
    while i < n
        invariant
            n == a@.len(),
            n == b@.len(),
            i <= n,
            forall|j: int| 0 <= j < i ==> a@[j] == b@[j],
        decreases n - i,
    {
        if a.get_char(i) != b.get_char(i) {
            return false;
        }
        i = i + 1;
    }
    assert(a@ =~= b@);
    true
}

/// How logging is set up.
#[derive(Debug, Clone)]
pub struct LogConfig {
    /// Component name for log identification
    pub component: Component,
    /// Directory where log files will be stored (optional)
    pub log_dir: Option<String>,
    /// Maximum log level
    pub max_level: LogLevel,
    /// Whether to also log to stdout
    pub log_to_console: bool,
    /// Optional custom env filter string
    pub env_filter: Option<String>,
    /// List of dependency crates to silence
    pub silent_deps: Vec<String>,
}

/// The text of each string in `v`.
pub open spec fn texts(v: Seq<String>) -> Seq<Seq<char>> {
    v.map_values(|s: String| s@)
}

impl Default for LogConfig {
    /// The user interface logs everything, to the console and to files in `logs`.
    fn default() -> (c: Self)
        ensures
            c.component == Component::Ui,
            c.log_dir matches Some(d) && d@ == "logs"@,
            c.max_level == LogLevel::Trace,
            c.log_to_console,
            c.env_filter is None,
            c.silent_deps@.len() == 0,
    {
        LogConfig {
            component: Component::Ui,
            log_dir: Some(String::from_str("logs")),
            max_level: LogLevel::Trace,
            log_to_console: true,
            env_filter: None,
            silent_deps: Vec::new(),
        }
    }
}

impl LogConfig {
    /// Logging of everything to the console only.
    pub fn console_only(component: Component) -> (c: Self)
        ensures
            c.component == component,
            c.log_dir is None,
            c.max_level == LogLevel::Trace,
            c.log_to_console,
            c.env_filter is None,
            c.silent_deps@.len() == 0,
    {
        LogConfig {
            component,
            log_dir: None,
            max_level: LogLevel::Trace,
            log_to_console: true,
            env_filter: None,
            silent_deps: Vec::new(),
        }
    }

    /// Logging of everything to the console and to files in `log_dir`.
    pub fn with_file_logging(component: Component, log_dir: &str) -> (c: Self)
        ensures
            c.component == component,
            c.log_dir matches Some(d) && d@ == log_dir@,
            c.max_level == LogLevel::Trace,
            c.log_to_console,
            c.env_filter is None,
            c.silent_deps@.len() == 0,
    {
        LogConfig {
            component,
            log_dir: Some(String::from_str(log_dir)),
            max_level: LogLevel::Trace,
            log_to_console: true,
            env_filter: None,
            silent_deps: Vec::new(),
        }
    }

    /// The same configuration without console logging.
    pub fn no_console(self) -> (c: Self)
        ensures
            c == (LogConfig { log_to_console: false, ..self }),
    {
        let mut c = self;
        c.log_to_console = false;
        c
    }

    /// The same configuration with another maximum level.
    pub fn with_level(self, level: LogLevel) -> (c: Self)
        ensures
            c == (LogConfig { max_level: level, ..self }),
    {
        let mut c = self;
        c.max_level = level;
        c
    }

    /// The same configuration with a filter of the caller's own.
    pub fn with_env_filter(self, filter: &str) -> (c: Self)
        ensures
            c.env_filter matches Some(f) && f@ == filter@,
            c.component == self.component,
            c.log_dir == self.log_dir,
            c.max_level == self.max_level,
            c.log_to_console == self.log_to_console,
            c.silent_deps == self.silent_deps,
    {
        let mut c = self;
        c.env_filter = Some(String::from_str(filter));
        c
    }

    /// The same configuration, also silencing these dependencies: they come
    /// after those already silenced, in the order given.
    pub fn silence_deps(self, deps: Vec<String>) -> (c: Self)
        ensures
            c.silent_deps@ == self.silent_deps@ + deps@,
            c.component == self.component,
            c.log_dir == self.log_dir,
            c.max_level == self.max_level,
            c.log_to_console == self.log_to_console,
            c.env_filter == self.env_filter,
    {
        let mut c = self;
        let mut more = deps;
        c.silent_deps.append(&mut more);
        c
    }
}


/// The dependencies whose logs the user interface keeps to errors.
pub open spec fn ui_silent_dep_names() -> Seq<Seq<char>> {
    seq![
        "async_io"@,
        "zbus"@,
        "wgpu_core"@,
        "calloop"@,
        "polling"@,
        "cosmic_text"@,
        "iced_wgpu"@,
        "iced_graphics"@,
        "sctk"@,
        "iced_winit"@,
        "naga"@,
        "wgpu_hal"@,
    ]
}

/// The dependencies whose logs the download engine keeps to errors.
pub open spec fn engine_silent_dep_names() -> Seq<Seq<char>> {
    seq!["hyper_util"@, "reqwest"@]
}

/// The dependencies whose logs the user interface keeps to errors.
pub fn get_ui_silent_deps() -> (v: Vec<String>)
    ensures
        texts(v@) == ui_silent_dep_names(),
{
    let mut v: Vec<String> = Vec::new();
    // for rfd
    v.push(String::from_str("async_io"));
    v.push(String::from_str("zbus"));
    // for iced
    v.push(String::from_str("wgpu_core"));
    v.push(String::from_str("calloop"));
    v.push(String::from_str("polling"));
    v.push(String::from_str("cosmic_text"));
    v.push(String::from_str("iced_wgpu"));
    v.push(String::from_str("iced_graphics"));
    v.push(String::from_str("sctk"));
    v.push(String::from_str("iced_winit"));
    v.push(String::from_str("naga"));
    v.push(String::from_str("wgpu_hal"));
    assert(texts(v@) =~= ui_silent_dep_names());
    v
}

/// The dependencies whose logs the download engine keeps to errors.
pub fn get_engine_silent_deps() -> (v: Vec<String>)
    ensures
        texts(v@) == engine_silent_dep_names(),
{
    let mut v: Vec<String> = Vec::new();
    v.push(String::from_str("hyper_util"));
    v.push(String::from_str("reqwest"));
    assert(texts(v@) =~= engine_silent_dep_names());
    v
}

/// The user interface's logging: everything, to the console only, with its
/// noisy dependencies kept to errors.
pub fn get_ui_config() -> (c: LogConfig)
    ensures
        c.component == Component::Ui,
        c.log_dir is None,
        c.max_level == LogLevel::Trace,
        c.log_to_console,
        c.env_filter is None,
        texts(c.silent_deps@) == ui_silent_dep_names(),
{
    LogConfig {
        component: Component::Ui,
        log_dir: None,
        max_level: LogLevel::Trace,
        log_to_console: true,
        env_filter: None,
        silent_deps: get_ui_silent_deps(),
    }
}

/// `tracing_subscriber`'s log filter, carried through without looking inside.
#[verifier::external_type_specification]
#[verifier::external_body]
pub struct ExEnvFilter(tracing_subscriber::EnvFilter);

/// The error `tracing_subscriber` gives for a directive that does not parse.
#[verifier::external_type_specification]
#[verifier::external_body]
pub struct ExFilterParseError(tracing_subscriber::filter::ParseError);

/// Whether `EnvFilter::try_new` accepts this list of directives.
pub uninterp spec fn env_filter_accepts(directives: Seq<char>) -> bool;

/// Whether this text parses as one filter directive.
pub uninterp spec fn directive_accepts(directive: Seq<char>) -> bool;

/// A log filter together with the directive texts it was built from, in the
/// order they were given: the first made into the filter by
/// `EnvFilter::try_new`, each later one parsed and added by
/// `EnvFilter::add_directive`.
pub struct LogFilter {
    filter: tracing_subscriber::EnvFilter,
    directives: Vec<String>,
}

impl LogFilter {
    /// The directive texts the filter was built from, in order.
    pub closed spec fn directives(&self) -> Seq<Seq<char>> {
        texts(self.directives@)
    }

    /// The directive texts the filter was built from, in order.
    pub fn directive_texts(&self) -> (v: &Vec<String>)
        ensures
            texts(v@) == self.directives(),
    {
        &self.directives
    }

    /// The filter itself.
    pub closed spec fn env_filter(&self) -> tracing_subscriber::EnvFilter {
        self.filter
    }

    /// The filter itself, to install.
    pub fn into_filter(self) -> (f: tracing_subscriber::EnvFilter)
        ensures
            f == self.env_filter(),
    {
        self.filter
    }
}

/// `EnvFilter::try_new`: a filter made of the directives in the text, kept
/// with that text; or the error for the first directive that does not parse.
#[verifier::external_body]
fn log_filter_new(directives: &str) -> (r: Result<LogFilter, tracing_subscriber::filter::ParseError>)
    ensures
        r is Ok == env_filter_accepts(directives@),
        r matches Ok(f) ==> f.directives() == seq![directives@],
{
    match tracing_subscriber::EnvFilter::try_new(directives) {
        Ok(filter) => Ok(LogFilter { filter, directives: vec![directives.to_string()] }),
        Err(e) => Err(e),
    }
}

/// `str::parse::<Directive>`, then `EnvFilter::add_directive`: the filter with
/// one more directive, whose text is kept after the others; or the parse
/// error, when the text is not one directive.
#[verifier::external_body]
fn log_filter_add(f: LogFilter, directive: &str) -> (r: Result<
    LogFilter,
    tracing_subscriber::filter::ParseError,
>)
    ensures
        r is Ok == directive_accepts(directive@),
        r matches Ok(g) ==> g.directives() == f.directives().push(directive@),
{
    match directive.parse::<tracing_subscriber::filter::Directive>() {
        Ok(d) => {
            let mut directives = f.directives;
            directives.push(directive.to_string());
            Ok(LogFilter { filter: f.filter.add_directive(d), directives })
        },
        Err(e) => Err(e),
    }
}

/// Why logging could not be set up.
#[derive(Debug)]
pub enum LogError {
    /// Neither the console nor a log directory was asked for.
    NoLayers,
    /// A filter directive did not parse.
    InvalidFilter(tracing_subscriber::filter::ParseError),
}

/// The directive that sets a component's own level: `component=LEVEL`.
pub open spec fn component_directive(c: Component, l: LogLevel) -> Seq<char> {
    component_name(c) + "="@ + level_name(l)
}

/// The directive that keeps a dependency to errors: `dep=error`.
pub open spec fn silence_directive(dep: Seq<char>) -> Seq<char> {
    dep + "=error"@
}

/// Whether the filter of a configuration can be built: its own filter text
/// parses, or else its level and its component's directive parse; and each
/// silenced dependency's directive parses.
pub open spec fn filter_builds(config: LogConfig) -> bool {
    &&& match config.env_filter {
        Some(f) => env_filter_accepts(f@),
        None => env_filter_accepts(level_name(config.max_level)) && directive_accepts(
            component_directive(config.component, config.max_level),
        ),
    }
    &&& forall|i: int|
        0 <= i < config.silent_deps@.len() ==> directive_accepts(
            silence_directive(#[trigger] config.silent_deps@[i]@),
        )
}

/// The directive that sets a component's own level.
pub fn component_directive_text(c: Component, l: LogLevel) -> (s: String)
    ensures
        s@ == component_directive(c, l),
{
    let mut s = String::from_str(c.as_str());
    s.append("=");
    s.append(l.as_str());
    s
}

/// The directive that keeps a dependency to errors.
pub fn silence_directive_text(dep: &str) -> (s: String)
    ensures
        s@ == silence_directive(dep@),
{
    let mut s = String::from_str(dep);
    s.append("=error");
    s
}

/// The directive texts of a configuration's filter, in order: its own filter
/// text if it has one, else its level and its component's directive; then
/// each silenced dependency's directive.
pub open spec fn filter_texts(config: LogConfig) -> Seq<Seq<char>> {
    (match config.env_filter {
        Some(f) => seq![f@],
        None => seq![
            level_name(config.max_level),
            component_directive(config.component, config.max_level),
        ],
    }) + config.silent_deps@.map_values(|d: String| silence_directive(d@))
}

/// The filter of a configuration, built from `filter_texts` in order. Fails
/// exactly when one of these does not parse.
pub fn build_filter(config: &LogConfig) -> (r: Result<LogFilter, LogError>)
    ensures
        r is Ok == filter_builds(*config),
        r matches Err(e) ==> e is InvalidFilter,
        r matches Ok(f) ==> f.directives() == filter_texts(*config),
{
    let ghost silenced = config.silent_deps@.map_values(|d: String| silence_directive(d@));
    let mut filter = match &config.env_filter {
        Some(f) => match log_filter_new(f.as_str()) {
            Ok(x) => x,
            Err(e) => return Err(LogError::InvalidFilter(e)),
        },
        None => {
            let base = match log_filter_new(config.max_level.as_str()) {
                Ok(x) => x,
                Err(e) => return Err(LogError::InvalidFilter(e)),
            };
            let text = component_directive_text(config.component, config.max_level);
            match log_filter_add(base, text.as_str()) {
                Ok(x) => x,
                Err(e) => return Err(LogError::InvalidFilter(e)),
            }
        },
    };
    let ghost head = filter.directives();
    assert(head + silenced.take(0) =~= head);
    let mut i: usize = 0;
    while i < config.silent_deps.len()
        invariant
            i <= config.silent_deps@.len(),
            silenced == config.silent_deps@.map_values(|d: String| silence_directive(d@)),
            head + silenced == filter_texts(*config),
            filter.directives() == head + silenced.take(i as int),
            match config.env_filter {
                Some(f) => env_filter_accepts(f@),
                None => env_filter_accepts(level_name(config.max_level)) && directive_accepts(
                    component_directive(config.component, config.max_level),
                ),
            },
            forall|j: int|
                0 <= j < i ==> directive_accepts(silence_directive(#[trigger] config.silent_deps@[j]@)),
        decreases config.silent_deps@.len() - i,
    {
        let text = silence_directive_text(config.silent_deps[i].as_str());
        match log_filter_add(filter, text.as_str()) {
            Ok(g) => {
                filter = g;
            },
            Err(e) => return Err(LogError::InvalidFilter(e)),
        }
        proof {
            assert(silenced.take(i + 1) =~= silenced.take(i as int).push(silenced[i as int]));
        }
        i = i + 1;
    }
    assert(silenced.take(i as int) =~= silenced);
    Ok(filter)
}

/// The name of a component's log file: `component.log`.
pub open spec fn log_file_name_text(c: Component) -> Seq<char> {
    component_name(c) + ".log"@
}

/// The name of a component's log file.
pub fn log_file_name(c: Component) -> (s: String)
    ensures
        s@ == log_file_name_text(c),
{
    let mut s = String::from_str(c.as_str());
    s.append(".log");
    s
}

/// Where logs are written: a file layer (directory, file name) and a console layer.
pub struct LayerPlan {
    pub file: Option<(String, String)>,
    pub console: bool,
}

/// The layers a configuration asks for; refused when it asks for none.
pub fn plan_layers(config: &LogConfig) -> (r: Result<LayerPlan, LogError>)
    ensures
        (config.log_dir is None && !config.log_to_console) <==> r is Err,
        r matches Err(e) ==> e is NoLayers,
        r matches Ok(plan) ==> {
            &&& plan.console == config.log_to_console
            &&& match config.log_dir {
                Some(d) => plan.file matches Some((dir, name)) && dir@ == d@ && name@
                    == log_file_name_text(config.component),
                None => plan.file is None,
            }
        },
{
    let file = match &config.log_dir {
        Some(d) => Some((d.clone(), log_file_name(config.component))),
        None => None,
    };
    if file.is_none() && !config.log_to_console {
        return Err(LogError::NoLayers);
    }
    Ok(LayerPlan { file, console: config.log_to_console })
}

/// What is said when no layer was asked for.
pub fn no_layers_message() -> (s: String)
    ensures
        s@ == "No logging layers configured. Enable either console or file logging."@,
{
    String::from_str("No logging layers configured. Enable either console or file logging.")
}

} // verus!
