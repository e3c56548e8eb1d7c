//! The kind of session that the command line asks for.

use vstd::prelude::*;
use crate::players::{GameType, GameTypeView};

verus! {

/// The command line asks for no kind of session.
#[derive(Clone, Copy, Debug, PartialEq, Eq, Structural)]
pub enum CliError {
    InvalidFlag,
}

/// The address that stands in where the command line gives none.
pub open spec fn default_address() -> Seq<char> {
    "localhost:3000"@
}

/// The kind of session under `flag` at `address`, if `flag` names one.
pub open spec fn spec_networked(flag: Seq<char>, address: Seq<char>) -> Option<GameTypeView> {
    if flag == "--host"@ {
        Some(GameTypeView::Host(address))
    } else if flag == "--client"@ {
        Some(GameTypeView::Client(address))
    } else {
        None
    }
}

/// The kind of session that the arguments of the program ask for, the
/// program's own name being the first of them.
///
/// No argument asks for a local session. `--host` and `--client` ask for a
/// session over the network, at the address that follows or else at the
/// default. Nothing else asks for a session.
pub open spec fn spec_game_type(cli_flags: Seq<Seq<char>>) -> Option<GameTypeView> {
    if cli_flags.len() == 1 {
        Some(GameTypeView::Local)
    } else if cli_flags.len() == 2 {
        spec_networked(cli_flags[1], default_address())
    } else if cli_flags.len() == 3 {
        spec_networked(cli_flags[1], cli_flags[2])
    } else {
        None
    }
}

/// The arguments as contracts see them.
pub open spec fn flags_view(cli_flags: Seq<String>) -> Seq<Seq<char>> {
    cli_flags.map_values(|flag: String| flag@)
}

/// The kind of session under `flag` at `address`, if `flag` names one.
fn networked(flag: &String, address: String) -> (game_type: Result<GameType, CliError>)
    ensures
        match spec_networked(flag@, address@) {
            Some(asked) => game_type matches Ok(found) && found@ == asked,
            None => game_type == Err::<GameType, CliError>(CliError::InvalidFlag),
        },
{
    let host = "--host".to_owned();
    let client = "--client".to_owned();
    if *flag == host {
        Ok(GameType::Host(address))
    } else if *flag == client {
        Ok(GameType::Client(address))
    } else {
        Err(CliError::InvalidFlag)
    }
}

/// The kind of session that the arguments of the program ask for, the
/// program's own name being the first of them.
///
/// No argument asks for a local session. `--host` and `--client` ask for a
/// session over the network, at the address that follows or else at
/// `localhost:3000`. Anything else is an error.
pub fn game_type(cli_flags: &Vec<String>) -> (game_type: Result<GameType, CliError>)
    ensures
        match spec_game_type(flags_view(cli_flags@)) {
            Some(asked) => game_type matches Ok(found) && found@ == asked,
            None => game_type == Err::<GameType, CliError>(CliError::InvalidFlag),
        },
{
    if cli_flags.len() == 1 {
        Ok(GameType::Local)
    } else if cli_flags.len() == 2 {
        networked(&cli_flags[1], "localhost:3000".to_owned())
    } else if cli_flags.len() == 3 {
        networked(&cli_flags[1], cli_flags[2].clone())
    } else {
        Err(CliError::InvalidFlag)
    }
}

} // verus!
