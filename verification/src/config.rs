//! The configuration that the parser and the renderer are built from: the
//! comment prefix, the tag literals and the title of the parameters section.

use vstd::prelude::*;

verus! {

/// How a comment line begins.
#[derive(Debug)]
pub struct CommentsConfig {
    pub format: String,
}

impl Default for CommentsConfig {
    fn default() -> (made: CommentsConfig)
        ensures
            made.format@ == "##"@,
    {
        CommentsConfig { format: "##".to_owned() }
    }
}

/// The literals of the six tags.
#[derive(Debug)]
pub struct TagsConfig {
    pub param: String,
    pub section: String,
    pub description_start: String,
    pub description_end: String,
    pub skip: String,
    pub extra: String,
}

impl Default for TagsConfig {
    fn default() -> (made: TagsConfig)
        ensures
            made.param@ == "@param"@,
            made.section@ == "@section"@,
            made.description_start@ == "@descriptionStart"@,
            made.description_end@ == "@descriptionEnd"@,
            made.skip@ == "@skip"@,
            made.extra@ == "@extra"@,
    {
        TagsConfig {
            param: "@param".to_owned(),
            section: "@section".to_owned(),
            description_start: "@descriptionStart".to_owned(),
            description_end: "@descriptionEnd".to_owned(),
            skip: "@skip".to_owned(),
            extra: "@extra".to_owned(),
        }
    }
}

/// The names of the modifiers that a value tag may carry.
#[derive(Debug)]
pub struct ModifiersConfig {
    pub array: String,
    pub object: String,
    pub string: String,
    pub nullable: String,
    pub default: String,
}

impl Default for ModifiersConfig {
    fn default() -> (made: ModifiersConfig)
        ensures
            made.array@ == "array"@,
            made.object@ == "object"@,
            made.string@ == "string"@,
            made.nullable@ == "nullable"@,
            made.default@ == "default"@,
    {
        ModifiersConfig {
            array: "array".to_owned(),
            object: "object".to_owned(),
            string: "string".to_owned(),
            nullable: "nullable".to_owned(),
            default: "default".to_owned(),
        }
    }
}

/// The title of the section that holds the generated parameter tables.
#[derive(Debug)]
pub struct RegexpConfig {
    pub params_section_title: String,
}

impl Default for RegexpConfig {
    fn default() -> (made: RegexpConfig)
        ensures
            made.params_section_title@ == "Parameters"@,
    {
        RegexpConfig { params_section_title: "Parameters".to_owned() }
    }
}

/// The whole configuration.
#[derive(Debug)]
pub struct Config {
    pub comments: CommentsConfig,
    pub tags: TagsConfig,
    pub modifiers: TagsConfig,
    pub regexp: RegexpConfig,
}

impl Config {
    /// Whether every field has its default.
    pub open spec fn is_default(self) -> bool {
        &&& self.comments.format@ == "##"@
        &&& Self::default_tags(self.tags)
        &&& Self::default_tags(self.modifiers)
        &&& self.regexp.params_section_title@ == "Parameters"@
    }

    pub open spec fn default_tags(tags: TagsConfig) -> bool {
        &&& tags.param@ == "@param"@
        &&& tags.section@ == "@section"@
        &&& tags.description_start@ == "@descriptionStart"@
        &&& tags.description_end@ == "@descriptionEnd"@
        &&& tags.skip@ == "@skip"@
        &&& tags.extra@ == "@extra"@
    }
}

impl Default for Config {
    fn default() -> (made: Config)
        ensures
            made.is_default(),
    {
        Config {
            comments: CommentsConfig::default(),
            tags: TagsConfig::default(),
            modifiers: TagsConfig::default(),
            regexp: RegexpConfig::default(),
        }
    }
}

/// A configuration that cannot be used.
#[derive(Debug)]
pub struct ConfigError {
    message: String,
}

impl View for ConfigError {
    type V = Seq<char>;

    closed spec fn view(&self) -> Seq<char> {
        self.message@
    }
}

impl ConfigError {
    pub fn new(msg: String) -> (made: ConfigError)
        ensures
            made@ == msg@,
    {
        ConfigError { message: msg }
    }

    /// What went wrong, in words.
    pub fn message(&self) -> (message: &String)
        ensures
            message@ == self@,
    {
        &self.message
    }
}

/// Where a configuration comes from.
#[derive(Debug)]
pub enum ConfigSource {
    /// The file at this path.
    File(String),
    /// No file: the defaults.
    Defaults,
}

/// The paths at which a configuration file is looked for where none is
/// named, in the order in which they are tried.
pub open spec fn default_paths() -> Seq<Seq<char>> {
    seq![".chartpedia.yaml"@, ".chartpedia.yml"@, ".chartpedia.json"@]
}

/// The index of the first default path from `from` on that is present; the
/// number of default paths where none is.
pub open spec fn first_present(present: Seq<bool>, from: int) -> int
    decreases default_paths().len() - from,
{
    if from < 0 || from >= default_paths().len() {
        default_paths().len() as int
    } else if from < present.len() && present[from] {
        from
    } else {
        first_present(present, from + 1)
    }
}

/// The source that is chosen where no file is named: the first default path
/// that is present, else the defaults.
pub open spec fn default_source(present: Seq<bool>) -> Option<Seq<char>> {
    if first_present(present, 0) < default_paths().len() {
        Some(default_paths()[first_present(present, 0)])
    } else {
        None
    }
}

/// The path of the file that a source names.
pub open spec fn source_view(source: ConfigSource) -> Option<Seq<char>> {
    match source {
        ConfigSource::File(path) => Some(path@),
        ConfigSource::Defaults => None,
    }
}

impl Config {
    /// The paths at which a configuration file is looked for where none is
    /// named.
    pub fn default_paths() -> (paths: Vec<String>)
        ensures
            paths.deep_view() == default_paths(),
    {
        let mut paths: Vec<String> = Vec::new();
        paths.push(".chartpedia.yaml".to_owned());
        paths.push(".chartpedia.yml".to_owned());
        paths.push(".chartpedia.json".to_owned());
        assert(paths.deep_view() == default_paths());
        paths
    }

    /// Chooses where the configuration comes from: the file that is named,
    /// else what `load_default_paths` chooses. `present` says of each default
    /// path, in order, whether a file is there.
    pub fn load(config_path: Option<String>, present: &Vec<bool>) -> (source: ConfigSource)
        ensures
            source_view(source) == match config_path {
                Some(path) => Some(path@),
                None => default_source(present@),
            },
    {
        match config_path {
            Some(path) => ConfigSource::File(path),
            None => Config::load_default_paths(present),
        }
    }

    /// Chooses the first default path at which a file is present; the
    /// defaults where there is none.
    pub fn load_default_paths(present: &Vec<bool>) -> (source: ConfigSource)
        ensures
            source_view(source) == default_source(present@),
    {
        let paths = Config::default_paths();
        let mut i: usize = 0;
        while i < paths.len()
            invariant
                i <= paths.len(),
                paths.deep_view() == default_paths(),
                first_present(present@, 0) == first_present(present@, i as int),
            decreases paths.len() - i,
        {
            if i < present.len() && present[i] {
                assert(paths.deep_view()[i as int] == paths[i as int]@);
                return ConfigSource::File(paths[i].clone());
            }
            i = i + 1;
        }
        ConfigSource::Defaults
    }

    /// Chooses between the two readings of a configuration file: the one as
    /// YAML where the file could be read so, else the one as JSON; and fails
    /// where it could be read as neither.
    pub fn load_config(yaml: Option<Config>, json: Option<Config>) -> (loaded: Result<
        Config,
        ConfigError,
    >)
        ensures
            match loaded {
                Ok(config) => if yaml is Some {
                    config == yaml->0
                } else {
                    json is Some && config == json->0
                },
                Err(error) => yaml is None && json is None && error@
                    == "config file must be in YAML or JSON format"@,
            },
    {
        match yaml {
            Some(config) => Ok(config),
            None => match json {
                Some(config) => Ok(config),
                None => Err(
                    ConfigError::new("config file must be in YAML or JSON format".to_owned()),
                ),
            },
        }
    }
}

} // verus!
