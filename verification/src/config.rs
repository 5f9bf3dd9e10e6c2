//! The configuration: the command line, the configuration values, and the
//! whitelist compiled from its patterns.
//!
//! Nothing here reads the environment or touches the disk. The caller reads
//! the values and asks the filesystem, and hands over what it found.
use crate::text::{split, split_at_each, texts};
use crate::whitelist::{builder_add, builder_globs, glob_of, glob_set_compiles, set_globs};
use globset::{Glob, GlobSet, GlobSetBuilder};
use vstd::prelude::*;
use vstd::string::StringExecFns;

verus! {

/// What the filesystem says of a path.
#[derive(Clone, Copy, Debug, PartialEq, Eq, Structural)]
pub enum PathKind {
    /// Nothing is there.
    Missing,
    /// A regular file.
    File,
    /// A directory.
    Directory,
    /// Something else.
    Other,
}

/// Why the configuration cannot be used.
#[derive(Debug)]
pub enum ConfigError {
    /// A value that must be there is missing; this is its name.
    MissingValue(String),
    /// A path that must be a directory is something else.
    NotDirectory(String),
    /// A pattern of the whitelist is no glob.
    InvalidPattern(String),
    /// The patterns of the whitelist cannot be compiled into one set.
    InvalidWhitelist,
}

impl ConfigError {
    /// The rendered message.
    pub open spec fn spec_message(self) -> Seq<char> {
        match self {
            ConfigError::MissingValue(name) => "Did not find "@ + name@ + " in config file"@,
            ConfigError::NotDirectory(path) => "The path "@ + path@ + " is not a directory"@,
            ConfigError::InvalidPattern(pattern) => "Failed to parse whitelist pattern: "@
                + pattern@,
            ConfigError::InvalidWhitelist => "Failed to build whitelist glob set"@,
        }
    }

    /// Renders the error as one line of text.
    pub fn message(&self) -> (text: String)
        ensures
            text@ == self.spec_message(),
    {
        match self {
            ConfigError::MissingValue(name) => String::from_str("Did not find ").concat(
                name.as_str(),
            ).concat(" in config file"),
            ConfigError::NotDirectory(path) => String::from_str("The path ").concat(
                path.as_str(),
            ).concat(" is not a directory"),
            ConfigError::InvalidPattern(pattern) => String::from_str(
                "Failed to parse whitelist pattern: ",
            ).concat(pattern.as_str()),
            ConfigError::InvalidWhitelist => String::from_str("Failed to build whitelist glob set"),
        }
    }
}

/// The command line: the path of the configuration file.
#[derive(Debug)]
pub struct Args {
    pub config: String,
}

impl Args {
    /// Whether the configuration file can be read: what stands at its path
    /// must be a regular file.
    pub fn validate(&self, kind: PathKind) -> (valid: bool)
        ensures
            valid == (kind is File),
    {
        match kind {
            PathKind::File => true,
            _ => false,
        }
    }
}

/// The patterns that a whitelist value lists: the pieces between its commas.
/// A missing or empty value lists no pattern.
pub open spec fn whitelist_patterns(value: Option<Seq<char>>) -> Seq<Seq<char>> {
    match value {
        Some(text) => if text.len() == 0 {
            Seq::empty()
        } else {
            split(text, ',')
        },
        None => Seq::empty(),
    }
}

/// The position of the first pattern that is no glob, if there is one.
pub open spec fn first_invalid(patterns: Seq<Seq<char>>) -> Option<int>
    decreases patterns.len(),
{
    if patterns.len() == 0 {
        None
    } else {
        match first_invalid(patterns.drop_last()) {
            Some(i) => Some(i),
            None => if glob_of(patterns.last()) is Some {
                None
            } else {
                Some(patterns.len() - 1)
            },
        }
    }
}

/// The globs that patterns are parsed into, where each is a glob.
pub open spec fn globs_of(patterns: Seq<Seq<char>>) -> Seq<Glob> {
    patterns.map_values(|pattern: Seq<char>| glob_of(pattern)->0)
}

/// The configuration of the pipeline.
pub struct Config {
    listen_path: String,
    processor_dir_path: String,
    globset: GlobSet,
}

impl Config {
    /// The directory to watch.
    pub closed spec fn spec_listen_path(&self) -> Seq<char> {
        self.listen_path@
    }

    /// The directory kept for the processors.
    pub closed spec fn spec_processor_dir_path(&self) -> Seq<char> {
        self.processor_dir_path@
    }

    /// The globs of the whitelist.
    pub closed spec fn globs(&self) -> Seq<Glob> {
        set_globs(self.globset)
    }

    /// A configuration of the two directories and the whitelist.
    pub fn new(listen_path: String, processor_dir_path: String, globset: GlobSet) -> (config:
        Config)
        ensures
            config.spec_listen_path() == listen_path@,
            config.spec_processor_dir_path() == processor_dir_path@,
            config.globs() == set_globs(globset),
    {
        Config { listen_path, processor_dir_path, globset }
    }

    /// The directory to watch.
    pub fn listen_path(&self) -> (path: &String)
        ensures
            path@ == self.spec_listen_path(),
    {
        &self.listen_path
    }

    /// The directory kept for the processors.
    pub fn processor_dir_path(&self) -> (path: &String)
        ensures
            path@ == self.spec_processor_dir_path(),
    {
        &self.processor_dir_path
    }

    /// The whitelist.
    pub fn globset(&self) -> (globset: &GlobSet)
        ensures
            set_globs(*globset) == self.globs(),
    {
        &self.globset
    }

    /// Whether the directory of a configuration value has to be created
    /// before the value can be accepted: it has, where nothing stands at the
    /// path.
    pub fn must_create(value: &Option<String>, kind: PathKind) -> (create: bool)
        ensures
            create == (value is Some && kind is Missing),
    {
        match (value, kind) {
            (Some(_), PathKind::Missing) => true,
            _ => false,
        }
    }

    /// Accepts the path that a configuration value names, given what stands
    /// at it once the caller has created what [`Config::must_create`] asked
    /// for. The value must be there, and the path must be a directory.
    pub fn get_path_from_env(name: &str, value: Option<String>, kind: PathKind) -> (r: Result<
        String,
        ConfigError,
    >)
        ensures
            match r {
                Ok(path) => value == Some(path) && kind is Directory,
                Err(ConfigError::MissingValue(missing)) => value is None && missing@ == name@,
                Err(ConfigError::NotDirectory(path)) => value == Some(path) && !(kind is Directory),
                Err(_) => false,
            },
    {
        let path = match value {
            Some(path) => path,
            None => {
                return Err(ConfigError::MissingValue(String::from_str(name)));
            },
        };
        match kind {
            PathKind::Directory => Ok(path),
            _ => Err(ConfigError::NotDirectory(path)),
        }
    }

    /// Lists the patterns of a whitelist value.
    pub fn list_patterns(value: Option<&str>) -> (patterns: Vec<String>)
        ensures
            texts(patterns@) == whitelist_patterns(
                match value {
                    Some(text) => Some(text@),
                    None => None,
                },
            ),
    {
        match value {
            Some(text) => {
                if text.unicode_len() == 0 {
                    let patterns: Vec<String> = Vec::new();
                    assert(texts(patterns@) =~= Seq::<Seq<char>>::empty());
                    patterns
                } else {
                    split_at_each(text, ',')
                }
            },
            None => {
                let patterns: Vec<String> = Vec::new();
                assert(texts(patterns@) =~= Seq::<Seq<char>>::empty());
                patterns
            },
        }
    }

    /// Compiles the whitelist from its value: one glob for each pattern
    /// between the commas of the value, in their order. A missing or empty
    /// value gives the whitelist without patterns, which matches nothing.
    ///
    /// The first pattern that is no glob is the error; where all are globs,
    /// the set either compiles or is the error. A whitelist without patterns
    /// always compiles.
    pub fn build_globset(value: Option<&str>) -> (r: Result<GlobSet, ConfigError>)
        ensures
            ({
                let patterns = whitelist_patterns(
                    match value {
                        Some(text) => Some(text@),
                        None => None,
                    },
                );
                match r {
                    Ok(globset) => {
                        &&& first_invalid(patterns) is None
                        &&& glob_set_compiles(globs_of(patterns))
                        &&& set_globs(globset) == globs_of(patterns)
                    },
                    Err(ConfigError::InvalidPattern(pattern)) => {
                        &&& first_invalid(patterns) matches Some(i)
                        &&& pattern@ == patterns[i]
                    },
                    Err(ConfigError::InvalidWhitelist) => {
                        &&& first_invalid(patterns) is None
                        &&& !glob_set_compiles(globs_of(patterns))
                    },
                    Err(_) => false,
                }
            }),
            whitelist_patterns(
                match value {
                    Some(text) => Some(text@),
                    None => None,
                },
            ).len() == 0 ==> r is Ok,
    {
        let patterns = Config::list_patterns(value);
        let ghost all = texts(patterns@);
        let mut builder = GlobSetBuilder::new();
        assert(all.take(0) =~= Seq::<Seq<char>>::empty());
        for pattern in it: patterns.into_iter()
            invariant
                texts(it.seq()) == all,
                all == whitelist_patterns(
                    match value {
                        Some(text) => Some(text@),
                        None => None,
                    },
                ),
                first_invalid(all.take(it.index())) is None,
                builder_globs(builder) == globs_of(all.take(it.index())),
        {
            let ghost k = it.index();
            assert(all.take(k + 1).drop_last() =~= all.take(k));
            assert(all.take(k + 1).last() == pattern@);
            match Glob::new(pattern.as_str()) {
                Ok(glob) => {
                    builder_add(&mut builder, glob);
                    assert(builder_globs(builder) =~= globs_of(all.take(k + 1)));
                },
                Err(_) => {
                    proof {
                        assert(first_invalid(all.take(k + 1)) == Some(k));
                        lemma_first_invalid_prefix(all, k + 1);
                    }
                    return Err(ConfigError::InvalidPattern(pattern));
                },
            }
        }
        assert(all.take(all.len() as int) =~= all);
        match builder.build() {
            Ok(globset) => Ok(globset),
            Err(_) => Err(ConfigError::InvalidWhitelist),
        }
    }
}

/// The first pattern that is no glob stays the first when patterns follow it.
pub proof fn lemma_first_invalid_prefix(patterns: Seq<Seq<char>>, n: int)
    requires
        0 <= n <= patterns.len(),
        first_invalid(patterns.take(n)) is Some,
    ensures
        first_invalid(patterns) == first_invalid(patterns.take(n)),
    decreases patterns.len() - n,
{
    if n < patterns.len() {
        assert(patterns.take(n + 1).drop_last() =~= patterns.take(n));
        lemma_first_invalid_prefix(patterns, n + 1);
    } else {
        assert(patterns.take(n) =~= patterns);
    }
}

} // verus!
