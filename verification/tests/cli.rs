use chessers::cli::{create_player, Action, Cli, Commands, PlayArgs, PlayerKind, TrainArgs};

#[test]
fn create_player_by_name() {
    assert!(matches!(create_player("human"), PlayerKind::Human));
    assert!(matches!(create_player("random"), PlayerKind::Random));
    assert!(matches!(create_player(""), PlayerKind::Random));
    assert!(matches!(create_player("Human"), PlayerKind::Random));
    assert!(matches!(create_player("human "), PlayerKind::Random));
    match create_player("logs/0001_0000.safetensors") {
        PlayerKind::Network(file) => assert_eq!(file, "logs/0001_0000.safetensors"),
        _ => panic!("a checkpoint names a network"),
    }
    match create_player("safetensors") {
        PlayerKind::Network(file) => assert_eq!(file, "safetensors"),
        _ => panic!("a checkpoint names a network"),
    }
    assert!(matches!(create_player("net.safetensor"), PlayerKind::Random));
}

#[test]
fn run_play() {
    let cli = Cli {
        command: Commands::Play(PlayArgs {
            white: Some("human".to_string()),
            black: Some("best.safetensors".to_string()),
        }),
    };
    match cli.run() {
        Action::Play { white, black } => {
            assert!(matches!(white, PlayerKind::Human));
            match black {
                PlayerKind::Network(file) => assert_eq!(file, "best.safetensors"),
                _ => panic!("black is a network"),
            }
        }
        _ => panic!("play was asked for"),
    }
}

#[test]
fn run_train() {
    let cli = Cli { command: Commands::Train(TrainArgs { population: 2, generations: 2 }) };
    match cli.run() {
        Action::Train { population, generations } => {
            assert_eq!(population, 2);
            assert_eq!(generations, 2);
        }
        _ => panic!("train was asked for"),
    }
    let cli = Cli { command: Commands::Train(TrainArgs { population: 64, generations: -1 }) };
    assert!(matches!(cli.run(), Action::Train { population: 64, generations: -1 }));
}
