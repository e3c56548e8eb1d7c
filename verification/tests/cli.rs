use chess_session::cli::{game_type, CliError};
use chess_session::players::GameType;

fn args(words: &[&str]) -> Vec<String> {
    words.iter().map(|w| w.to_string()).collect()
}

#[test]
fn no_flag_is_a_local_session() {
    assert_eq!(game_type(&args(&["chess"])), Ok(GameType::Local));
}

#[test]
fn host_and_client_default_to_localhost() {
    assert_eq!(
        game_type(&args(&["chess", "--host"])),
        Ok(GameType::Host("localhost:3000".to_string()))
    );
    assert_eq!(
        game_type(&args(&["chess", "--client"])),
        Ok(GameType::Client("localhost:3000".to_string()))
    );
}

#[test]
fn host_and_client_take_an_address() {
    assert_eq!(
        game_type(&args(&["chess", "--host", "0.0.0.0:9000"])),
        Ok(GameType::Host("0.0.0.0:9000".to_string()))
    );
    assert_eq!(
        game_type(&args(&["chess", "--client", "example.org:9000"])),
        Ok(GameType::Client("example.org:9000".to_string()))
    );
}

#[test]
fn anything_else_is_refused() {
    assert_eq!(game_type(&args(&[])), Err(CliError::InvalidFlag));
    assert_eq!(game_type(&args(&["chess", "--server"])), Err(CliError::InvalidFlag));
    assert_eq!(game_type(&args(&["chess", "host"])), Err(CliError::InvalidFlag));
    assert_eq!(game_type(&args(&["chess", "localhost:3000"])), Err(CliError::InvalidFlag));
    assert_eq!(game_type(&args(&["chess", "localhost:3000", "--host"])), Err(CliError::InvalidFlag));
    assert_eq!(game_type(&args(&["chess", "--Host", "localhost:3000"])), Err(CliError::InvalidFlag));
    assert_eq!(
        game_type(&args(&["chess", "--host", "localhost:3000", "extra"])),
        Err(CliError::InvalidFlag)
    );
}
