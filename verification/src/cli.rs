//! The command line, once parsed: what the program is asked to do.
use vstd::prelude::*;
use vstd::string::StringExecFns;
use crate::text::{contains, has_substring, same_text};

verus! {

/// The players of a single game, as named on the command line.
pub struct PlayArgs {
    /// White: `"human"`, or a checkpoint file for a trained network.
    pub white: Option<String>,
    /// Black: `"human"`, or a checkpoint file for a trained network.
    pub black: Option<String>,
}

/// The size of a training run.
pub struct TrainArgs {
    /// The number of networks in each generation.
    pub population: usize,
    /// The number of generations to run.
    pub generations: i32,
}

/// The two commands.
pub enum Commands {
    /// Play a single game of chess.
    Play(PlayArgs),
    /// Train a population by tournament and breeding.
    Train(TrainArgs),
}

/// The parsed command line.
pub struct Cli {
    pub command: Commands,
}

/// Who plays one side.
pub enum PlayerKind {
    /// A person at the console.
    Human,
    /// The network stored in the named checkpoint file.
    Network(String),
    /// A player that moves at random.
    Random,
}

/// What the program is to do.
pub enum Action {
    Play { white: PlayerKind, black: PlayerKind },
    Train { population: usize, generations: i32 },
}

/// Whether `kind` is the player that `source` names: `"human"` is a person,
/// any other text that holds `safetensors` is that checkpoint file, and
/// everything else is the random player.
pub open spec fn names_player(source: Seq<char>, kind: PlayerKind) -> bool {
    if source == "human"@ {
        kind is Human
    } else if has_substring(source, "safetensors"@) {
        kind matches PlayerKind::Network(file) && file@ == source
    } else {
        kind is Random
    }
}

/// Whether `action` is what `cli` asks for.
pub open spec fn carries_out(cli: Cli, action: Action) -> bool {
    match cli.command {
        Commands::Play(args) => action matches Action::Play { white, black } && args.white matches Some(w)
            && args.black matches Some(b) && names_player(w@, white) && names_player(b@, black),
        Commands::Train(args) => action matches Action::Train { population, generations } && population
            == args.population && generations == args.generations,
    }
}

/// The player that a command-line value names.
pub fn create_player(source: &str) -> (kind: PlayerKind)
    ensures
        names_player(source@, kind),
{
    if same_text(source, "human") {
        PlayerKind::Human
    } else if contains(source, "safetensors") {
        PlayerKind::Network(String::from_str(source))
    } else {
        PlayerKind::Random
    }
}

impl Cli {
    /// Decides what to do: a game between the two named players, or a
    /// training run of the given size. A `play` command names both players.
    pub fn run(&self) -> (action: Action)
        requires
            self.command matches Commands::Play(args) ==> args.white is Some && args.black is Some,
        ensures
            carries_out(*self, action),
    {
        match &self.command {
            Commands::Play(args) => {
                let white = create_player(args.white.as_ref().unwrap().as_str());
                let black = create_player(args.black.as_ref().unwrap().as_str());
                Action::Play { white, black }
            },
            Commands::Train(args) => Action::Train {
                population: args.population,
                generations: args.generations,
            },
        }
    }
}

} // verus!
