//! What an instance is made from and what is kept of it.
//!
//! A `SetupConfig` holds what a user asks for and is used once, while the
//! instance is provisioned. A `RestoreConfig` is the durable record that is
//! derived from it: it is what the manager keeps, changes and persists.

use vstd::prelude::*;
use vstd::string::*;
use crate::identity::InstanceUuid;
use crate::text::{clone_strings, texts};

verus! {

/// The version of the Fabric loader.
#[derive(Debug)]
pub struct FabricLoaderVersion(pub String);

/// The version of the Fabric installer.
#[derive(Debug)]
pub struct FabricInstallerVersion(pub String);

/// The number of a Paper build.
#[derive(Debug, Clone, Copy, PartialEq, Eq, Structural)]
pub struct PaperBuildVersion(pub i64);

/// The version of a Forge build.
#[derive(Debug)]
pub struct ForgeBuildVersion(pub String);

/// The server software of an instance, with the build that was resolved
/// for it where there is one.
#[derive(Debug)]
#[allow(inconsistent_fields)]
pub enum Flavour {
    Vanilla,
    Fabric { loader_version: Option<FabricLoaderVersion>, installer_version: Option<FabricInstallerVersion> },
    Paper { build_version: Option<PaperBuildVersion> },
    Spigot,
    Forge { build_version: Option<ForgeBuildVersion> },
}

/// A flavour as a mathematical value.
#[allow(inconsistent_fields)]
pub enum FlavourView {
    Vanilla,
    Fabric { loader_version: Option<Seq<char>>, installer_version: Option<Seq<char>> },
    Paper { build_version: Option<i64> },
    Spigot,
    Forge { build_version: Option<Seq<char>> },
}

/// The server software without its build.
#[derive(Debug, Clone, Copy, PartialEq, Eq, Structural)]
pub enum FlavourKind {
    Vanilla,
    Fabric,
    Paper,
    Spigot,
    Forge,
}

/// The game that an instance runs.
#[derive(Debug, Clone, Copy, PartialEq, Eq, Structural)]
pub enum GameType {
    MinecraftJava,
    Generic,
}

/// The kinds of instance that a creation request can name.
#[derive(Debug, Clone, Copy, PartialEq, Eq, Structural)]
pub enum HandlerGameType {
    MinecraftJavaVanilla,
    MinecraftFabric,
    MinecraftForge,
    MinecraftPaper,
}

impl From<HandlerGameType> for GameType {
    fn from(value: HandlerGameType) -> (game: GameType) {
        match value {
            HandlerGameType::MinecraftJavaVanilla => GameType::MinecraftJava,
            HandlerGameType::MinecraftFabric => GameType::MinecraftJava,
            HandlerGameType::MinecraftForge => GameType::MinecraftJava,
            HandlerGameType::MinecraftPaper => GameType::MinecraftJava,
        }
    }
}

impl vstd::std_specs::convert::FromSpecImpl<HandlerGameType> for GameType {
    open spec fn obeys_from_spec() -> bool {
        true
    }

    open spec fn from_spec(value: HandlerGameType) -> GameType {
        GameType::MinecraftJava
    }
}

impl From<HandlerGameType> for FlavourKind {
    fn from(value: HandlerGameType) -> (kind: FlavourKind) {
        match value {
            HandlerGameType::MinecraftJavaVanilla => FlavourKind::Vanilla,
            HandlerGameType::MinecraftFabric => FlavourKind::Fabric,
            HandlerGameType::MinecraftForge => FlavourKind::Forge,
            HandlerGameType::MinecraftPaper => FlavourKind::Paper,
        }
    }
}

impl vstd::std_specs::convert::FromSpecImpl<HandlerGameType> for FlavourKind {
    open spec fn obeys_from_spec() -> bool {
        true
    }

    open spec fn from_spec(value: HandlerGameType) -> FlavourKind {
        match value {
            HandlerGameType::MinecraftJavaVanilla => FlavourKind::Vanilla,
            HandlerGameType::MinecraftFabric => FlavourKind::Fabric,
            HandlerGameType::MinecraftForge => FlavourKind::Forge,
            HandlerGameType::MinecraftPaper => FlavourKind::Paper,
        }
    }
}

/// The kinds of instance that can be created, in the order in which they
/// are offered.
pub fn get_available_games() -> (games: Vec<HandlerGameType>)
    ensures
        games@ == seq![
            HandlerGameType::MinecraftJavaVanilla,
            HandlerGameType::MinecraftFabric,
            HandlerGameType::MinecraftForge,
            HandlerGameType::MinecraftPaper,
        ],
{
    let mut games: Vec<HandlerGameType> = Vec::new();
    games.push(HandlerGameType::MinecraftJavaVanilla);
    games.push(HandlerGameType::MinecraftFabric);
    games.push(HandlerGameType::MinecraftForge);
    games.push(HandlerGameType::MinecraftPaper);
    assert(games@ =~= seq![
        HandlerGameType::MinecraftJavaVanilla,
        HandlerGameType::MinecraftFabric,
        HandlerGameType::MinecraftForge,
        HandlerGameType::MinecraftPaper,
    ]);
    games
}

/// The text of an optional string.
pub open spec fn opt_text(value: Option<String>) -> Option<Seq<char>> {
    match value {
        Some(s) => Some(s@),
        None => None,
    }
}

/// A copy of an optional string with the same text.
pub fn clone_opt_string(value: &Option<String>) -> (copy: Option<String>)
    ensures
        opt_text(copy) == opt_text(*value),
{
    match value {
        Some(s) => Some(s.clone()),
        None => None,
    }
}

/// The name of a kind of server software.
pub open spec fn kind_name(kind: FlavourKind) -> Seq<char> {
    match kind {
        FlavourKind::Vanilla => "vanilla"@,
        FlavourKind::Fabric => "fabric"@,
        FlavourKind::Paper => "paper"@,
        FlavourKind::Spigot => "spigot"@,
        FlavourKind::Forge => "forge"@,
    }
}

impl FlavourView {
    /// The kind of this flavour.
    pub open spec fn kind(self) -> FlavourKind {
        match self {
            FlavourView::Vanilla => FlavourKind::Vanilla,
            FlavourView::Fabric { .. } => FlavourKind::Fabric,
            FlavourView::Paper { .. } => FlavourKind::Paper,
            FlavourView::Spigot => FlavourKind::Spigot,
            FlavourView::Forge { .. } => FlavourKind::Forge,
        }
    }
}

impl View for Flavour {
    type V = FlavourView;

    open spec fn view(&self) -> FlavourView {
        match *self {
            Flavour::Vanilla => FlavourView::Vanilla,
            Flavour::Fabric { loader_version, installer_version } => FlavourView::Fabric {
                loader_version: match loader_version {
                    Some(v) => Some(v.0@),
                    None => None,
                },
                installer_version: match installer_version {
                    Some(v) => Some(v.0@),
                    None => None,
                },
            },
            Flavour::Paper { build_version } => FlavourView::Paper {
                build_version: match build_version {
                    Some(v) => Some(v.0),
                    None => None,
                },
            },
            Flavour::Spigot => FlavourView::Spigot,
            Flavour::Forge { build_version } => FlavourView::Forge {
                build_version: match build_version {
                    Some(v) => Some(v.0@),
                    None => None,
                },
            },
        }
    }
}

impl Clone for Flavour {
    fn clone(&self) -> (copy: Flavour)
        ensures
            copy@ == self@,
    {
        match self {
            Flavour::Vanilla => Flavour::Vanilla,
            Flavour::Fabric { loader_version, installer_version } => Flavour::Fabric {
                loader_version: match loader_version {
                    Some(v) => Some(FabricLoaderVersion(v.0.clone())),
                    None => None,
                },
                installer_version: match installer_version {
                    Some(v) => Some(FabricInstallerVersion(v.0.clone())),
                    None => None,
                },
            },
            Flavour::Paper { build_version } => Flavour::Paper { build_version: *build_version },
            Flavour::Spigot => Flavour::Spigot,
            Flavour::Forge { build_version } => Flavour::Forge {
                build_version: match build_version {
                    Some(v) => Some(ForgeBuildVersion(v.0.clone())),
                    None => None,
                },
            },
        }
    }
}

impl Flavour {
    /// The kind of this flavour.
    pub fn kind(&self) -> (kind: FlavourKind)
        ensures
            kind == self@.kind(),
    {
        match self {
            Flavour::Vanilla => FlavourKind::Vanilla,
            Flavour::Fabric { .. } => FlavourKind::Fabric,
            Flavour::Paper { .. } => FlavourKind::Paper,
            Flavour::Spigot => FlavourKind::Spigot,
            Flavour::Forge { .. } => FlavourKind::Forge,
        }
    }

    /// The lower-case name of the flavour: `vanilla`, `fabric`, `paper`,
    /// `spigot` or `forge`.
    pub fn to_string(&self) -> (name: String)
        ensures
            name@ == kind_name(self@.kind()),
    {
        match self {
            Flavour::Vanilla => String::from_str("vanilla"),
            Flavour::Fabric { .. } => String::from_str("fabric"),
            Flavour::Paper { .. } => String::from_str("paper"),
            Flavour::Spigot => String::from_str("spigot"),
            Flavour::Forge { .. } => String::from_str("forge"),
        }
    }
}

impl FlavourKind {
    /// The flavour of this kind for which no build was resolved yet.
    pub fn unresolved(self) -> (flavour: Flavour)
        ensures
            flavour@.kind() == self,
            flavour@ == match self {
                FlavourKind::Vanilla => FlavourView::Vanilla,
                FlavourKind::Fabric => FlavourView::Fabric { loader_version: None, installer_version: None },
                FlavourKind::Paper => FlavourView::Paper { build_version: None },
                FlavourKind::Spigot => FlavourView::Spigot,
                FlavourKind::Forge => FlavourView::Forge { build_version: None },
            },
    {
        match self {
            FlavourKind::Vanilla => Flavour::Vanilla,
            FlavourKind::Fabric => Flavour::Fabric { loader_version: None, installer_version: None },
            FlavourKind::Paper => Flavour::Paper { build_version: None },
            FlavourKind::Spigot => Flavour::Spigot,
            FlavourKind::Forge => Flavour::Forge { build_version: None },
        }
    }
}

/// What a user asks for when an instance is created.
#[derive(Debug)]
pub struct SetupConfig {
    pub game_type: String,
    pub uuid: InstanceUuid,
    pub name: String,
    pub version: String,
    pub flavour: Flavour,
    pub port: u32,
    pub path: String,
    pub cmd_args: Option<Vec<String>>,
    pub description: Option<String>,
    pub min_ram: Option<u32>,
    pub max_ram: Option<u32>,
    pub auto_start: Option<bool>,
    pub restart_on_crash: Option<bool>,
    pub timeout_last_left: Option<u32>,
    pub timeout_no_activity: Option<u32>,
    pub start_on_connection: Option<bool>,
    pub backup_period: Option<u32>,
}

/// A setup configuration as a mathematical value.
pub struct SetupConfigView {
    pub game_type: Seq<char>,
    pub uuid: Seq<char>,
    pub name: Seq<char>,
    pub version: Seq<char>,
    pub flavour: FlavourView,
    pub port: u32,
    pub path: Seq<char>,
    pub cmd_args: Option<Seq<Seq<char>>>,
    pub description: Option<Seq<char>>,
    pub min_ram: Option<u32>,
    pub max_ram: Option<u32>,
    pub auto_start: Option<bool>,
    pub restart_on_crash: Option<bool>,
    pub timeout_last_left: Option<u32>,
    pub timeout_no_activity: Option<u32>,
    pub start_on_connection: Option<bool>,
    pub backup_period: Option<u32>,
}

impl View for SetupConfig {
    type V = SetupConfigView;

    open spec fn view(&self) -> SetupConfigView {
        SetupConfigView {
            game_type: self.game_type@,
            uuid: self.uuid@,
            name: self.name@,
            version: self.version@,
            flavour: self.flavour@,
            port: self.port,
            path: self.path@,
            cmd_args: match self.cmd_args {
                Some(args) => Some(texts(args@)),
                None => None,
            },
            description: opt_text(self.description),
            min_ram: self.min_ram,
            max_ram: self.max_ram,
            auto_start: self.auto_start,
            restart_on_crash: self.restart_on_crash,
            timeout_last_left: self.timeout_last_left,
            timeout_no_activity: self.timeout_no_activity,
            start_on_connection: self.start_on_connection,
            backup_period: self.backup_period,
        }
    }
}

impl Clone for SetupConfig {
    fn clone(&self) -> (copy: SetupConfig)
        ensures
            copy@ == self@,
    {
        SetupConfig {
            game_type: self.game_type.clone(),
            uuid: self.uuid.clone(),
            name: self.name.clone(),
            version: self.version.clone(),
            flavour: self.flavour.clone(),
            port: self.port,
            path: self.path.clone(),
            cmd_args: match &self.cmd_args {
                Some(args) => Some(clone_strings(args)),
                None => None,
            },
            description: clone_opt_string(&self.description),
            min_ram: self.min_ram,
            max_ram: self.max_ram,
            auto_start: self.auto_start,
            restart_on_crash: self.restart_on_crash,
            timeout_last_left: self.timeout_last_left,
            timeout_no_activity: self.timeout_no_activity,
            start_on_connection: self.start_on_connection,
            backup_period: self.backup_period,
        }
    }
}

/// The memory floor of an instance that names none, in megabytes.
pub const DEFAULT_MIN_RAM: u32 = 2048;

/// The memory ceiling of an instance that names none, in megabytes.
pub const DEFAULT_MAX_RAM: u32 = 4096;

/// The durable record of an instance.
#[derive(Debug)]
pub struct RestoreConfig {
    pub game_type: String,
    pub uuid: InstanceUuid,
    pub name: String,
    pub version: String,
    pub flavour: Flavour,
    pub description: String,
    pub cmd_args: Vec<String>,
    pub path: String,
    pub port: u32,
    pub min_ram: u32,
    pub max_ram: u32,
    pub creation_time: i64,
    pub auto_start: bool,
    pub restart_on_crash: bool,
    pub backup_period: Option<u32>,
    pub jre_major_version: u64,
    pub has_started: bool,
}

/// A restore configuration as a mathematical value.
pub struct RestoreConfigView {
    pub game_type: Seq<char>,
    pub uuid: Seq<char>,
    pub name: Seq<char>,
    pub version: Seq<char>,
    pub flavour: FlavourView,
    pub description: Seq<char>,
    pub cmd_args: Seq<Seq<char>>,
    pub path: Seq<char>,
    pub port: u32,
    pub min_ram: u32,
    pub max_ram: u32,
    pub creation_time: i64,
    pub auto_start: bool,
    pub restart_on_crash: bool,
    pub backup_period: Option<u32>,
    pub jre_major_version: u64,
    pub has_started: bool,
}

impl View for RestoreConfig {
    type V = RestoreConfigView;

    open spec fn view(&self) -> RestoreConfigView {
        RestoreConfigView {
            game_type: self.game_type@,
            uuid: self.uuid@,
            name: self.name@,
            version: self.version@,
            flavour: self.flavour@,
            description: self.description@,
            cmd_args: texts(self.cmd_args@),
            path: self.path@,
            port: self.port,
            min_ram: self.min_ram,
            max_ram: self.max_ram,
            creation_time: self.creation_time,
            auto_start: self.auto_start,
            restart_on_crash: self.restart_on_crash,
            backup_period: self.backup_period,
            jre_major_version: self.jre_major_version,
            has_started: self.has_started,
        }
    }
}

impl Clone for RestoreConfig {
    fn clone(&self) -> (copy: RestoreConfig)
        ensures
            copy@ == self@,
    {
        RestoreConfig {
            game_type: self.game_type.clone(),
            uuid: self.uuid.clone(),
            name: self.name.clone(),
            version: self.version.clone(),
            flavour: self.flavour.clone(),
            description: self.description.clone(),
            cmd_args: clone_strings(&self.cmd_args),
            path: self.path.clone(),
            port: self.port,
            min_ram: self.min_ram,
            max_ram: self.max_ram,
            creation_time: self.creation_time,
            auto_start: self.auto_start,
            restart_on_crash: self.restart_on_crash,
            backup_period: self.backup_period,
            jre_major_version: self.jre_major_version,
            has_started: self.has_started,
        }
    }
}

/// The record that is derived from a setup: what the user left open is
/// filled in, the flavour is the one that was resolved, and the instance
/// has never started.
pub open spec fn derived_config(
    setup: SetupConfigView,
    flavour: FlavourView,
    jre_major_version: u64,
    creation_time: i64,
) -> RestoreConfigView {
    RestoreConfigView {
        game_type: setup.game_type,
        uuid: setup.uuid,
        name: setup.name,
        version: setup.version,
        flavour,
        description: match setup.description {
            Some(d) => d,
            None => Seq::empty(),
        },
        cmd_args: match setup.cmd_args {
            Some(args) => args,
            None => Seq::empty(),
        },
        path: setup.path,
        port: setup.port,
        min_ram: match setup.min_ram {
            Some(m) => m,
            None => DEFAULT_MIN_RAM,
        },
        max_ram: match setup.max_ram {
            Some(m) => m,
            None => DEFAULT_MAX_RAM,
        },
        creation_time,
        auto_start: setup.auto_start == Some(true),
        restart_on_crash: setup.restart_on_crash == Some(true),
        backup_period: setup.backup_period,
        jre_major_version,
        has_started: false,
    }
}

impl RestoreConfig {
    /// Derives the durable record from the setup of a provisioned instance.
    pub fn from_setup(setup: SetupConfig, flavour: Flavour, jre_major_version: u64, creation_time: i64) -> (config:
        RestoreConfig)
        ensures
            config@ == derived_config(setup@, flavour@, jre_major_version, creation_time),
    {
        let description = match setup.description {
            Some(d) => d,
            None => String::new(),
        };
        let cmd_args = match setup.cmd_args {
            Some(args) => args,
            None => Vec::new(),
        };
        let min_ram = match setup.min_ram {
            Some(m) => m,
            None => DEFAULT_MIN_RAM,
        };
        let max_ram = match setup.max_ram {
            Some(m) => m,
            None => DEFAULT_MAX_RAM,
        };
        let auto_start = match setup.auto_start {
            Some(b) => b,
            None => false,
        };
        let restart_on_crash = match setup.restart_on_crash {
            Some(b) => b,
            None => false,
        };
        let config = RestoreConfig {
            game_type: setup.game_type,
            uuid: setup.uuid,
            name: setup.name,
            version: setup.version,
            flavour,
            description,
            cmd_args,
            path: setup.path,
            port: setup.port,
            min_ram,
            max_ram,
            creation_time,
            auto_start,
            restart_on_crash,
            backup_period: setup.backup_period,
            jre_major_version,
            has_started: false,
        };
        proof {
            let want = derived_config(setup@, flavour@, jre_major_version, creation_time);
            assert(config@.cmd_args =~= want.cmd_args);
        }
        config
    }
}

} // verus!
