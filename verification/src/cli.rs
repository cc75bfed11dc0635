//! The commands of the downloader and the settings they stand for.

use vstd::prelude::*;
use vstd::string::StringExecFns;

verus! {

/// The number of workers in the pool unless another is asked for.
pub const DEFAULT_POOL_SIZE: usize = 128;

/// The directory the images go to unless another is asked for.
pub open spec fn default_output_directory_spec() -> Seq<char> {
    "./images"@
}

/// The catalog file that is read unless another is asked for.
pub open spec fn default_catalog_path_spec() -> Seq<char> {
    "./scryfall-oracle-cards.json"@
}

/// The directory the images go to unless another is asked for.
pub fn default_output_directory() -> (dir: String)
    ensures
        dir@ == default_output_directory_spec(),
{
    String::from_str("./images")
}

/// The catalog file that is read unless another is asked for.
pub fn default_catalog_path() -> (path: String)
    ensures
        path@ == default_catalog_path_spec(),
{
    String::from_str("./scryfall-oracle-cards.json")
}

/// The settings of a run. The pool is never empty. The output directory must
/// exist: the pipeline does not create it.
#[derive(Debug, Clone, PartialEq, Eq)]
pub struct Config {
    pub pool_size: usize,
    pub output_directory: String,
    pub catalog_path: String,
}

/// The settings of a run, as the contracts speak of them.
pub struct ConfigView {
    pub pool_size: usize,
    pub output_directory: Seq<char>,
    pub catalog_path: Seq<char>,
}

impl View for Config {
    type V = ConfigView;

    open spec fn view(&self) -> ConfigView {
        ConfigView {
            pool_size: self.pool_size,
            output_directory: self.output_directory@,
            catalog_path: self.catalog_path@,
        }
    }
}

impl Config {
    /// The settings with these values, or `None` for an empty pool.
    pub fn new(pool_size: usize, output_directory: String, catalog_path: String) -> (config:
        Option<Config>)
        ensures
            pool_size == 0 <==> config is None,
            config matches Some(c) ==> c@ == (ConfigView {
                pool_size,
                output_directory: output_directory@,
                catalog_path: catalog_path@,
            }),
    {
        if pool_size == 0 {
            None
        } else {
            Some(Config { pool_size, output_directory, catalog_path })
        }
    }
}

impl Default for Config {
    fn default() -> (config: Config)
        ensures
            config@ == (ConfigView {
                pool_size: DEFAULT_POOL_SIZE,
                output_directory: default_output_directory_spec(),
                catalog_path: default_catalog_path_spec(),
            }),
    {
        Config {
            pool_size: DEFAULT_POOL_SIZE,
            output_directory: default_output_directory(),
            catalog_path: default_catalog_path(),
        }
    }
}

/// What the downloader can be asked to do.
#[derive(Debug, Clone, PartialEq, Eq)]
pub enum MtgCmd {
    /// Read the catalog at `path` and download the image of every card in it.
    Load { path: String },
}

/// A command line.
#[derive(Debug, Clone, PartialEq, Eq)]
pub struct MtgCli {
    cmd: MtgCmd,
}

impl MtgCmd {
    /// The `Load` command for the catalog at its usual place.
    pub fn load_default() -> (cmd: MtgCmd)
        ensures
            cmd matches MtgCmd::Load { path } && path@ == default_catalog_path_spec(),
    {
        MtgCmd::Load { path: default_catalog_path() }
    }

    /// The settings a command runs with: the catalog it names, and the usual
    /// pool and output directory.
    pub open spec fn config_spec(&self) -> ConfigView {
        match *self {
            MtgCmd::Load { path } => ConfigView {
                pool_size: DEFAULT_POOL_SIZE,
                output_directory: default_output_directory_spec(),
                catalog_path: path@,
            },
        }
    }

    /// The settings the command runs with.
    pub fn config(&self) -> (config: Config)
        ensures
            config@ == self.config_spec(),
            config.pool_size >= 1,
    {
        match self {
            MtgCmd::Load { path } => Config {
                pool_size: DEFAULT_POOL_SIZE,
                output_directory: default_output_directory(),
                catalog_path: path.clone(),
            },
        }
    }
}

impl MtgCli {
    /// The command of the command line.
    pub closed spec fn command(&self) -> MtgCmd {
        self.cmd
    }

    /// The command line that asks for `cmd`.
    pub fn new(cmd: MtgCmd) -> (cli: MtgCli)
        ensures
            cli.command() == cmd,
    {
        MtgCli { cmd }
    }

    /// The command of the command line.
    pub fn cmd(&self) -> (cmd: &MtgCmd)
        ensures
            *cmd == self.command(),
    {
        &self.cmd
    }

    /// The settings the command line asks for.
    pub fn config(&self) -> (config: Config)
        ensures
            config@ == self.command().config_spec(),
            config.pool_size >= 1,
    {
        self.cmd.config()
    }
}

} // verus!
