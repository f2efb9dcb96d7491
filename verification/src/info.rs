//! The read-only projection of an instance that is shown to callers.

use vstd::prelude::*;
use vstd::string::*;
use crate::config::{kind_name, RestoreConfig, RestoreConfigView};
use crate::identity::InstanceUuid;
use crate::lifecycle::State;
use crate::text::{clone_strings, same_number, same_strings, texts};

verus! {

/// What the outside sees of an instance, flattened into one record.
#[derive(Debug)]
pub struct InstanceInfo {
    pub uuid: InstanceUuid,
    pub name: String,
    pub flavour: String,
    pub game_type: String,
    pub cmd_args: Vec<String>,
    pub description: String,
    pub port: u32,
    pub min_ram: Option<u32>,
    pub max_ram: Option<u32>,
    pub creation_time: i64,
    pub path: String,
    pub auto_start: bool,
    pub restart_on_crash: bool,
    pub backup_period: Option<u32>,
    pub state: State,
    pub player_count: Option<u32>,
    pub max_player_count: Option<u32>,
}

/// An instance's projection as a mathematical value.
pub struct InstanceInfoView {
    pub uuid: Seq<char>,
    pub name: Seq<char>,
    pub flavour: Seq<char>,
    pub game_type: Seq<char>,
    pub cmd_args: Seq<Seq<char>>,
    pub description: Seq<char>,
    pub port: u32,
    pub min_ram: Option<u32>,
    pub max_ram: Option<u32>,
    pub creation_time: i64,
    pub path: Seq<char>,
    pub auto_start: bool,
    pub restart_on_crash: bool,
    pub backup_period: Option<u32>,
    pub state: State,
    pub player_count: Option<u32>,
    pub max_player_count: Option<u32>,
}

impl View for InstanceInfo {
    type V = InstanceInfoView;

    open spec fn view(&self) -> InstanceInfoView {
        InstanceInfoView {
            uuid: self.uuid@,
            name: self.name@,
            flavour: self.flavour@,
            game_type: self.game_type@,
            cmd_args: texts(self.cmd_args@),
            description: self.description@,
            port: self.port,
            min_ram: self.min_ram,
            max_ram: self.max_ram,
            creation_time: self.creation_time,
            path: self.path@,
            auto_start: self.auto_start,
            restart_on_crash: self.restart_on_crash,
            backup_period: self.backup_period,
            state: self.state,
            player_count: self.player_count,
            max_player_count: self.max_player_count,
        }
    }
}

impl Clone for InstanceInfo {
    fn clone(&self) -> (copy: InstanceInfo)
        ensures
            copy@ == self@,
    {
        InstanceInfo {
            uuid: self.uuid.clone(),
            name: self.name.clone(),
            flavour: self.flavour.clone(),
            game_type: self.game_type.clone(),
            cmd_args: clone_strings(&self.cmd_args),
            description: self.description.clone(),
            port: self.port,
            min_ram: self.min_ram,
            max_ram: self.max_ram,
            creation_time: self.creation_time,
            path: self.path.clone(),
            auto_start: self.auto_start,
            restart_on_crash: self.restart_on_crash,
            backup_period: self.backup_period,
            state: self.state,
            player_count: self.player_count,
            max_player_count: self.max_player_count,
        }
    }
}

/// The projection of an instance with the record `config` that is in
/// `state` and has the given player counts, where they are known.
pub open spec fn projection(
    config: RestoreConfigView,
    state: State,
    player_count: Option<u32>,
    max_player_count: Option<u32>,
) -> InstanceInfoView {
    InstanceInfoView {
        uuid: config.uuid,
        name: config.name,
        flavour: kind_name(config.flavour.kind()),
        game_type: config.game_type,
        cmd_args: config.cmd_args,
        description: config.description,
        port: config.port,
        min_ram: Some(config.min_ram),
        max_ram: Some(config.max_ram),
        creation_time: config.creation_time,
        path: config.path,
        auto_start: config.auto_start,
        restart_on_crash: config.restart_on_crash,
        backup_period: config.backup_period,
        state,
        player_count,
        max_player_count,
    }
}

impl InstanceInfo {
    /// Projects the record of an instance, its state and its player counts
    /// into one flat value.
    pub fn project(
        config: &RestoreConfig,
        state: State,
        player_count: Option<u32>,
        max_player_count: Option<u32>,
    ) -> (info: InstanceInfo)
        ensures
            info@ == projection(config@, state, player_count, max_player_count),
    {
        InstanceInfo {
            uuid: config.uuid.clone(),
            name: config.name.clone(),
            flavour: config.flavour.to_string(),
            game_type: config.game_type.clone(),
            cmd_args: clone_strings(&config.cmd_args),
            description: config.description.clone(),
            port: config.port,
            min_ram: Some(config.min_ram),
            max_ram: Some(config.max_ram),
            creation_time: config.creation_time,
            path: config.path.clone(),
            auto_start: config.auto_start,
            restart_on_crash: config.restart_on_crash,
            backup_period: config.backup_period,
            state,
            player_count,
            max_player_count,
        }
    }
}

impl InstanceInfo {
    /// Whether `self` and `other` agree field for field.
    pub fn same_as(&self, other: &InstanceInfo) -> (same: bool)
        ensures
            same == (self@ == other@),
    {
        self.uuid.same_as(&other.uuid) && self.name == other.name && self.flavour == other.flavour && self.game_type
            == other.game_type && same_strings(&self.cmd_args, &other.cmd_args) && self.description
            == other.description && self.port == other.port && same_number(self.min_ram, other.min_ram)
            && same_number(self.max_ram, other.max_ram) && self.creation_time == other.creation_time && self.path
            == other.path && self.auto_start == other.auto_start && self.restart_on_crash == other.restart_on_crash
            && same_number(self.backup_period, other.backup_period) && self.state == other.state && same_number(
            self.player_count,
            other.player_count,
        ) && same_number(self.max_player_count, other.max_player_count)
    }
}

} // verus!
