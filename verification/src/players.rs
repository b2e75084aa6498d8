//! Rules about the players: how they move, what they hold, and where they
//! can put a block.

use vstd::prelude::*;
use vstd::string::*;
use crate::world::chunk::BlockId;

verus! {

/// How a player takes part in the world.
#[derive(Clone, Copy, Debug, PartialEq, Eq, Structural)]
pub enum GameMode {
    Survival,
    Creative,
}

/// Tells the client of a player to stop or to start a plugin.
#[derive(Clone, Debug, PartialEq, Eq)]
pub enum PluginUpdate {
    Disable(String),
    Enable(String),
}

/// What a `PluginUpdate` holds.
pub enum PluginChange {
    Disable(Seq<char>),
    Enable(Seq<char>),
}

impl View for PluginUpdate {
    type V = PluginChange;

    open spec fn view(&self) -> PluginChange {
        match self {
            PluginUpdate::Disable(name) => PluginChange::Disable(name@),
            PluginUpdate::Enable(name) => PluginChange::Enable(name@),
        }
    }
}

/// The name of the plugin that moves the players of a game mode.
pub open spec fn movement_plugin(gamemode: GameMode) -> Seq<char> {
    match gamemode {
        GameMode::Creative => "creative"@,
        GameMode::Survival => "movement"@,
    }
}

/// What the client of a player is told when the game mode of the player
/// changes: to stop the plugin that moved the player, if there was one, and
/// then to start the plugin of the new game mode.
pub open spec fn movement_updates(current: Option<Seq<char>>, gamemode: GameMode) -> Seq<
    PluginChange,
> {
    match current {
        Some(name) => seq![
            PluginChange::Disable(name),
            PluginChange::Enable(movement_plugin(gamemode)),
        ],
        None => seq![PluginChange::Enable(movement_plugin(gamemode))],
    }
}

/// The name of a plugin, if there is one.
pub open spec fn name_of(plugin: Option<String>) -> Option<Seq<char>> {
    match plugin {
        Some(name) => Some(name@),
        None => None,
    }
}

/// Changes the plugin that moves a player to that of the game mode
/// `gamemode`, and gives what the client of the player is to be told.
///
/// `current_movement_function` is the plugin that moves the player now.
pub fn on_gamemode_update(
    current_movement_function: &mut Option<String>,
    gamemode: GameMode,
) -> (updates: Vec<PluginUpdate>)
    ensures
        name_of(*final(current_movement_function)) == Some(movement_plugin(gamemode)),
        updates@.map_values(|update: PluginUpdate| update@) == movement_updates(
            name_of(*old(current_movement_function)),
            gamemode,
        ),
{
    let mut updates: Vec<PluginUpdate> = Vec::new();
    if let Some(name) = current_movement_function.take() {
        updates.push(PluginUpdate::Disable(name));
    }
    let name = match gamemode {
        GameMode::Creative => "creative",
        GameMode::Survival => "movement",
    };
    updates.push(PluginUpdate::Enable(name.to_owned()));
    *current_movement_function = Some(name.to_owned());
    assert(updates@.map_values(|update: PluginUpdate| update@) =~= movement_updates(
        name_of(*old(current_movement_function)),
        gamemode,
    ));
    updates
}

/// Number of item stacks in the hotbar of a player.
pub const HOTBAR_SIZE: u32 = 9;

/// What a request of a client to equip an item leads to.
#[derive(Clone, Copy, Debug, PartialEq, Eq, Structural)]
pub enum EquipAction {
    /// The request is not for the hotbar: it and all that follow it are left
    /// alone.
    Stop,
    /// The hotbar has no such item stack: the client is disconnected.
    Disconnect,
    /// The player holds the item stack at this place of the hotbar.
    Equip(usize),
}

/// What the request to equip the item stack `index` of the interface
/// `interface_path` leads to.
pub open spec fn equip_action(interface_path: Seq<char>, index: u32) -> EquipAction {
    if interface_path != "hotbar"@ {
        EquipAction::Stop
    } else if index >= HOTBAR_SIZE {
        EquipAction::Disconnect
    } else {
        EquipAction::Equip(index as usize)
    }
}

/// What the request of a client to equip the item stack `index` of the
/// interface `interface_path` leads to.
pub fn equip_item(interface_path: &String, index: u32) -> (action: EquipAction)
    ensures
        action == equip_action(interface_path@, index),
{
    if *interface_path != "hotbar".to_owned() {
        EquipAction::Stop
    } else if index > 8 {
        EquipAction::Disconnect
    } else {
        EquipAction::Equip(index as usize)
    }
}

/// What is known about the place where a player tries to put a block.
#[derive(Clone, Copy, Debug, PartialEq, Eq, Structural)]
pub struct PlacementTarget {
    /// Whether the block that the player points at is solid.
    pub against_solid: bool,
    /// Whether the block that the player points at gives way to another.
    pub against_replaceable: bool,
    /// The block that the item in the player's hand places, if the player
    /// holds an item that places one.
    pub held_block: Option<BlockId>,
    /// Whether that block can be placed on the face that the player points
    /// at.
    pub placeable: bool,
    /// Whether the block next to that face gives way to another, if there is
    /// a block.
    pub neighbour_replaceable: Option<bool>,
}

/// The block that gives way to a placed block.
#[derive(Clone, Copy, Debug, PartialEq, Eq, Structural)]
pub enum ReplacedBlock {
    /// The block that the player points at.
    Against,
    /// The block next to the face that the player points at.
    Neighbour,
}

/// Whether a block can be placed at a target: against a solid block, from an
/// item that places a block which fits the face, and into a place that gives
/// way.
pub open spec fn can_place(target: PlacementTarget) -> bool {
    &&& target.against_solid
    &&& target.held_block is Some
    &&& target.placeable
    &&& (target.against_replaceable || target.neighbour_replaceable == Some(true))
}

/// Where a block goes that is placed at a target: in place of the block that
/// the player points at, if that gives way, and next to it otherwise.
pub open spec fn replaced_block(target: PlacementTarget) -> ReplacedBlock {
    if target.against_replaceable {
        ReplacedBlock::Against
    } else {
        ReplacedBlock::Neighbour
    }
}

/// The block that a player places at a target, and the block that gives way
/// to it, if a block can be placed there.
pub fn block_placement(target: PlacementTarget) -> (placement: Option<(BlockId, ReplacedBlock)>)
    ensures
        placement is Some <==> can_place(target),
        placement is Some ==> placement->0 == (target.held_block->0, replaced_block(target)),
{
    if !target.against_solid {
        return None;
    }
    let new_block_id = match target.held_block {
        Some(block) => block,
        None => {
            return None;
        },
    };
    if !target.placeable {
        return None;
    }
    if target.against_replaceable {
        Some((new_block_id, ReplacedBlock::Against))
    } else {
        match target.neighbour_replaceable {
            Some(true) => Some((new_block_id, ReplacedBlock::Neighbour)),
            _ => None,
        }
    }
}

} // verus!
