//! Game commands: sound effects and changes of game state requested by
//! other parts of the game.
use vstd::prelude::*;

verus! {

/// A command. Sound effects may come with a position, which the engine
/// keeps beside the command.
#[derive(Clone, Copy, Debug, PartialEq, Eq, Structural)]
pub enum GameCommand {
    SEDamage,
    SENoDamage,
    SECry,
    SEBreak,
    SEClick,
    SEFire,
    SESteps,
    SETurnOn,
    SEWarp,
    SEPickUp,
    SEHeal,
    SESwitch,
    SEEmptyMana,
    SEDrop,
    SEGrowl,
    StateMainMenu,
    StateInGame,
    StateWarp,
}

/// The sound assets.
#[derive(Clone, Copy, Debug, PartialEq, Eq, Structural)]
pub enum SoundAsset {
    Dageki,
    Shibafu,
    Hiyoko,
    Kuzureru,
    Kettei,
    Suburi,
    Asphalt,
    MenuOpen,
    Warp,
    Cancel,
    Kaifuku1,
    Cursor2,
    Cursor8,
    Drop,
    Inoshishi,
}

/// The states of the game as a whole.
#[derive(Clone, Copy, Debug, PartialEq, Eq, Structural)]
pub enum GameState {
    MainMenu,
    InGame,
    Warp,
}

/// What the engine does for a command.
#[derive(Clone, Copy, Debug, PartialEq, Eq, Structural)]
pub enum CommandAction {
    /// Plays a sound effect.
    PlaySe(SoundAsset),
    /// Closes the overlay, moving on to the given state.
    CloseOverlay(GameState),
}

/// The action for each command: each sound effect command plays its sound
/// and each state command closes the overlay toward its state.
pub open spec fn command_action_spec(cmd: GameCommand) -> CommandAction {
    match cmd {
        GameCommand::SEDamage => CommandAction::PlaySe(SoundAsset::Dageki),
        GameCommand::SENoDamage => CommandAction::PlaySe(SoundAsset::Shibafu),
        GameCommand::SECry => CommandAction::PlaySe(SoundAsset::Hiyoko),
        GameCommand::SEBreak => CommandAction::PlaySe(SoundAsset::Kuzureru),
        GameCommand::SEClick => CommandAction::PlaySe(SoundAsset::Kettei),
        GameCommand::SEFire => CommandAction::PlaySe(SoundAsset::Suburi),
        GameCommand::SESteps => CommandAction::PlaySe(SoundAsset::Asphalt),
        GameCommand::SETurnOn => CommandAction::PlaySe(SoundAsset::MenuOpen),
        GameCommand::SEWarp => CommandAction::PlaySe(SoundAsset::Warp),
        GameCommand::SEPickUp => CommandAction::PlaySe(SoundAsset::Cancel),
        GameCommand::SEHeal => CommandAction::PlaySe(SoundAsset::Kaifuku1),
        GameCommand::SESwitch => CommandAction::PlaySe(SoundAsset::Cursor2),
        GameCommand::SEEmptyMana => CommandAction::PlaySe(SoundAsset::Cursor8),
        GameCommand::SEDrop => CommandAction::PlaySe(SoundAsset::Drop),
        GameCommand::SEGrowl => CommandAction::PlaySe(SoundAsset::Inoshishi),
        GameCommand::StateMainMenu => CommandAction::CloseOverlay(GameState::MainMenu),
        GameCommand::StateInGame => CommandAction::CloseOverlay(GameState::InGame),
        GameCommand::StateWarp => CommandAction::CloseOverlay(GameState::Warp),
    }
}

/// The action for a command (see `command_action_spec`).
pub fn command_action(cmd: GameCommand) -> (r: CommandAction)
    ensures
        r == command_action_spec(cmd),
{
    match cmd {
        GameCommand::SEDamage => CommandAction::PlaySe(SoundAsset::Dageki),
        GameCommand::SENoDamage => CommandAction::PlaySe(SoundAsset::Shibafu),
        GameCommand::SECry => CommandAction::PlaySe(SoundAsset::Hiyoko),
        GameCommand::SEBreak => CommandAction::PlaySe(SoundAsset::Kuzureru),
        GameCommand::SEClick => CommandAction::PlaySe(SoundAsset::Kettei),
        GameCommand::SEFire => CommandAction::PlaySe(SoundAsset::Suburi),
        GameCommand::SESteps => CommandAction::PlaySe(SoundAsset::Asphalt),
        GameCommand::SETurnOn => CommandAction::PlaySe(SoundAsset::MenuOpen),
        GameCommand::SEWarp => CommandAction::PlaySe(SoundAsset::Warp),
        GameCommand::SEPickUp => CommandAction::PlaySe(SoundAsset::Cancel),
        GameCommand::SEHeal => CommandAction::PlaySe(SoundAsset::Kaifuku1),
        GameCommand::SESwitch => CommandAction::PlaySe(SoundAsset::Cursor2),
        GameCommand::SEEmptyMana => CommandAction::PlaySe(SoundAsset::Cursor8),
        GameCommand::SEDrop => CommandAction::PlaySe(SoundAsset::Drop),
        GameCommand::SEGrowl => CommandAction::PlaySe(SoundAsset::Inoshishi),
        GameCommand::StateMainMenu => CommandAction::CloseOverlay(GameState::MainMenu),
        GameCommand::StateInGame => CommandAction::CloseOverlay(GameState::InGame),
        GameCommand::StateWarp => CommandAction::CloseOverlay(GameState::Warp),
    }
}

/// The state the commands have asked to move on to.
#[derive(Clone, Copy, Debug, PartialEq, Eq, Structural)]
pub struct CommandState {
    pub next: Option<GameState>,
}

/// Whether the commands hold a request to warp.
pub open spec fn asks_warp(cmds: Seq<GameCommand>) -> bool {
    exists|i: int| 0 <= i < cmds.len() && cmds[i] == GameCommand::StateWarp
}

/// The frame's commands, in order: each gives its action, and a warp
/// request also records the warp as the next state.
pub fn process_game_commands(state: &mut CommandState, cmds: &Vec<GameCommand>) -> (r: Vec<
    CommandAction,
>)
    ensures
        r@ == cmds@.map_values(|c: GameCommand| command_action_spec(c)),
        final(state).next == (if asks_warp(cmds@) {
            Some(GameState::Warp)
        } else {
            old(state).next
        }),
{
    let mut actions: Vec<CommandAction> = Vec::new();
    let mut i: usize = 0;
    while i < cmds.len()
        invariant
            i <= cmds@.len(),
            actions@ == cmds@.take(i as int).map_values(|c: GameCommand| command_action_spec(c)),
            state.next == (if asks_warp(cmds@.take(i as int)) {
                Some(GameState::Warp)
            } else {
                old(state).next
            }),
        decreases cmds@.len() - i,
    {
        let cmd = cmds[i];
        if cmd == GameCommand::StateWarp {
            state.next = Some(GameState::Warp);
        }
        actions.push(command_action(cmd));
        proof {
            let t = cmds@.take(i + 1);
            assert(t =~= cmds@.take(i as int).push(cmd));
            assert(actions@ =~= t.map_values(|c: GameCommand| command_action_spec(c)));
            if asks_warp(cmds@.take(i as int)) {
                let j = choose|j: int|
                    0 <= j < i && cmds@.take(i as int)[j] == GameCommand::StateWarp;
                assert(t[j] == GameCommand::StateWarp);
            }
            if cmd == GameCommand::StateWarp {
                assert(t[i as int] == GameCommand::StateWarp);
            }
            if asks_warp(t) {
                let j = choose|j: int| 0 <= j < i + 1 && t[j] == GameCommand::StateWarp;
                if j < i {
                    assert(cmds@.take(i as int)[j] == GameCommand::StateWarp);
                }
            }
        }
        i = i + 1;
    }
    proof {
        assert(cmds@.take(i as int) =~= cmds@);
    }
    actions
}


/// The command that asks for each state of the game.
pub open spec fn state_command(s: GameState) -> GameCommand {
    match s {
        GameState::MainMenu => GameCommand::StateMainMenu,
        GameState::InGame => GameCommand::StateInGame,
        GameState::Warp => GameCommand::StateWarp,
    }
}

/// Each state command closes the overlay into the very state it asks for,
/// and the commands that close the overlay are exactly the state commands;
/// every other command plays a sound.
pub proof fn lemma_state_commands_reach_their_state(s: GameState, cmd: GameCommand)
    ensures
        command_action_spec(state_command(s)) == CommandAction::CloseOverlay(s),
        command_action_spec(cmd) is CloseOverlay <==> exists|t: GameState| cmd == state_command(t),
        command_action_spec(cmd) is PlaySe <==> !(command_action_spec(cmd) is CloseOverlay),
{
    if command_action_spec(cmd) is CloseOverlay {
        let t = command_action_spec(cmd)->CloseOverlay_0;
        assert(cmd == state_command(t));
    }
}

/// No two commands do the same thing: each sound command plays a sound of
/// its own and each state command leads to a state of its own.
pub proof fn lemma_commands_are_told_apart(a: GameCommand, b: GameCommand)
    ensures
        command_action_spec(a) == command_action_spec(b) ==> a == b,
{
}

} // verus!
