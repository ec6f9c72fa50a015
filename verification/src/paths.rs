//! Where things are by default: the game directory of each platform, and
//! the directory at which a directory dialog opens.
use vstd::prelude::*;

verus! {

/// The platforms that the installer runs on.
#[derive(Debug, Clone, Copy, PartialEq, Eq, Structural)]
pub enum Platform {
    Windows,
    MacOs,
    Linux,
}

/// The name of the environment variable that holds the directory under
/// which the game keeps its files.
pub open spec fn home_variable_name(platform: Platform) -> Seq<char> {
    match platform {
        Platform::Windows => "APPDATA"@,
        Platform::MacOs => "HOME"@,
        Platform::Linux => "HOME"@,
    }
}

/// The names to go down by, one after the other, from that directory to the
/// game directory.
pub open spec fn client_directory_parts(platform: Platform) -> Seq<Seq<char>> {
    match platform {
        Platform::Windows => seq![".minecraft"@],
        Platform::MacOs => seq!["Library"@, "Application Support"@, "minecraft"@],
        Platform::Linux => seq![".minecraft"@],
    }
}

/// The name of the environment variable that holds the directory under
/// which the game keeps its files.
pub fn home_variable(platform: Platform) -> (name: &'static str)
    ensures
        name@ == home_variable_name(platform),
{
    match platform {
        Platform::Windows => "APPDATA",
        Platform::MacOs => "HOME",
        Platform::Linux => "HOME",
    }
}

/// The names to go down by, one after the other, from the directory that
/// [`home_variable`] names to the default game directory.
pub fn get_default_client_directory(platform: Platform) -> (parts: Vec<String>)
    ensures
        parts.deep_view() == client_directory_parts(platform),
{
    let mut parts: Vec<String> = Vec::new();
    match platform {
        Platform::Windows => {
            parts.push(".minecraft".to_string());
        },
        Platform::MacOs => {
            parts.push("Library".to_string());
            parts.push("Application Support".to_string());
            parts.push("minecraft".to_string());
        },
        Platform::Linux => {
            parts.push(".minecraft".to_string());
        },
    }
    proof {
        assert(parts.deep_view() =~= client_directory_parts(platform));
    }
    parts
}

/// The directory at which a directory dialog opens: `start` if what was
/// probed is a directory, else the working directory if there is one, else
/// wherever the dialog opens by itself.
pub fn dialog_start(probe_is_directory: bool, start: String, working_directory: Option<String>) -> (opens_at:
    Option<String>)
    ensures
        opens_at == if probe_is_directory {
            Some(start)
        } else {
            working_directory
        },
{
    if probe_is_directory {
        Some(start)
    } else {
        working_directory
    }
}

} // verus!
