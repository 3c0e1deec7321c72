//! Instance configuration: the parameters a creation request carries, the
//! persisted restore record, and the small enumerations describing game
//! flavours.

use vstd::prelude::*;

use crate::text::str_eq;

verus! {

/// A capability an implementation may or may not offer.
#[derive(Clone, Debug)]
pub enum MaybeUnsupported<T> {
    Supported(T),
    Unsupported,
}

/// The game flavours a creation request may name.
#[derive(Clone, Copy, Debug, PartialEq, Eq, Structural)]
pub enum Flavour {
    Vanilla,
    Fabric,
    Paper,
    Spigot,
}

impl Flavour {
    /// The canonical lowercase name of the flavour.
    pub fn as_string(&self) -> (r: String)
        ensures
            *self == Flavour::Vanilla ==> r@ == "vanilla"@,
            *self == Flavour::Fabric ==> r@ == "fabric"@,
            *self == Flavour::Paper ==> r@ == "paper"@,
            *self == Flavour::Spigot ==> r@ == "spigot"@,
    {
        match self {
            Flavour::Vanilla => "vanilla".to_owned(),
            Flavour::Fabric => "fabric".to_owned(),
            Flavour::Paper => "paper".to_owned(),
            Flavour::Spigot => "spigot".to_owned(),
        }
    }

    /// Parse a canonical lowercase flavour name.
    pub fn parse(s: &str) -> (r: Option<Flavour>)
        ensures
            s@ == "vanilla"@ ==> r == Some(Flavour::Vanilla),
            s@ == "fabric"@ ==> r == Some(Flavour::Fabric),
            s@ == "paper"@ ==> r == Some(Flavour::Paper),
            s@ == "spigot"@ ==> r == Some(Flavour::Spigot),
            s@ != "vanilla"@ && s@ != "fabric"@ && s@ != "paper"@ && s@ != "spigot"@ ==> r is None,
    {
        proof {
            broadcast use vstd::string::group_string_axioms;

            reveal_strlit("vanilla");
            reveal_strlit("fabric");
            reveal_strlit("paper");
            reveal_strlit("spigot");
            assert("vanilla"@.len() == 7);
            assert("fabric"@.len() == 6);
            assert("paper"@.len() == 5);
            assert("spigot"@.len() == 6);
            assert("fabric"@[0] == 'f');
            assert("spigot"@[0] == 's');
        }
        if str_eq(s, "vanilla") {
            Some(Flavour::Vanilla)
        } else if str_eq(s, "fabric") {
            Some(Flavour::Fabric)
        } else if str_eq(s, "paper") {
            Some(Flavour::Paper)
        } else if str_eq(s, "spigot") {
            Some(Flavour::Spigot)
        } else {
            None
        }
    }
}

/// The games this host can manage.
#[derive(Clone, Copy, Debug, PartialEq, Eq, Structural, Hash)]
pub enum GameType {
    Minecraft,
    MinecraftBedrock,
}

/// The game choice named by a creation request.
#[derive(Clone, Copy, Debug, PartialEq, Eq, Structural)]
pub enum HandlerGameType {
    MinecraftVanilla,
    MinecraftFabric,
    MinecraftForge,
    MinecraftPaper,
    MinecraftBedrock,
}

impl HandlerGameType {
    /// The game a request's choice belongs to.
    pub fn game_type(&self) -> (r: GameType)
        ensures
            r == (if *self == HandlerGameType::MinecraftBedrock {
                GameType::MinecraftBedrock
            } else {
                GameType::Minecraft
            }),
    {
        match self {
            HandlerGameType::MinecraftBedrock => GameType::MinecraftBedrock,
            _ => GameType::Minecraft,
        }
    }
}

/// Every game choice a creation request may name, in presentation order.
pub fn get_available_games() -> (r: Vec<HandlerGameType>)
    ensures
        r@ =~= seq![
            HandlerGameType::MinecraftVanilla,
            HandlerGameType::MinecraftFabric,
            HandlerGameType::MinecraftForge,
            HandlerGameType::MinecraftPaper,
            HandlerGameType::MinecraftBedrock,
        ],
{
    let mut v: Vec<HandlerGameType> = Vec::new();
    v.push(HandlerGameType::MinecraftVanilla);
    v.push(HandlerGameType::MinecraftFabric);
    v.push(HandlerGameType::MinecraftForge);
    v.push(HandlerGameType::MinecraftPaper);
    v.push(HandlerGameType::MinecraftBedrock);
    v
}

/// What a creation request asks for.
#[derive(Clone, Debug)]
pub struct SetupConfig {
    pub name: String,
    pub version: String,
    pub port: u32,
    pub description: Option<String>,
    pub auto_start: Option<bool>,
    pub restart_on_crash: Option<bool>,
    pub backup_period: Option<u32>,
}

/// The persisted per-instance restore record. It round-trips through the
/// line format of [`crate::properties`]-style `key=value` pairs written by
/// the runtime.
#[derive(Clone, Debug)]
pub struct RestoreConfig {
    pub name: String,
    pub version: String,
    pub description: String,
    pub port: u32,
    pub auto_start: bool,
    pub restart_on_crash: bool,
    pub backup_period: Option<u32>,
    pub has_started: bool,
}

impl SetupConfig {
    /// The restore record of a fresh instance: optional fields get their
    /// defaults, and the instance has never started.
    pub fn to_restore_config(self) -> (r: RestoreConfig)
        ensures
            r.name == self.name,
            r.version == self.version,
            r.port == self.port,
            self.description matches Some(d) ==> r.description == d,
            self.description is None ==> r.description@ == Seq::<char>::empty(),
            r.auto_start == (self.auto_start matches Some(true)),
            r.restart_on_crash == (self.restart_on_crash matches Some(true)),
            r.backup_period == self.backup_period,
            r.has_started == false,
    {
        RestoreConfig {
            name: self.name,
            version: self.version,
            description: match self.description {
                Some(d) => d,
                None => String::new(),
            },
            port: self.port,
            auto_start: match self.auto_start {
                Some(b) => b,
                None => false,
            },
            restart_on_crash: match self.restart_on_crash {
                Some(b) => b,
                None => false,
            },
            backup_period: self.backup_period,
            has_started: false,
        }
    }
}

/// The flat creation request as the API layer hands it over.
#[derive(Clone, Debug)]
pub struct MinecraftSetupConfigPrimitive {
    pub name: String,
    pub version: String,
    pub flavour: Flavour,
    pub port: u32,
    pub cmd_args: Option<Vec<String>>,
    pub description: Option<String>,
    pub fabric_loader_version: Option<String>,
    pub fabric_installer_version: Option<String>,
    pub min_ram: Option<u32>,
    pub max_ram: Option<u32>,
    pub auto_start: Option<bool>,
    pub restart_on_crash: Option<bool>,
    pub timeout_last_left: Option<u32>,
    pub timeout_no_activity: Option<u32>,
    pub start_on_connection: Option<bool>,
    pub backup_period: Option<u32>,
}

impl MinecraftSetupConfigPrimitive {
    /// The fields the supervision core works from; launcher-only knobs
    /// (command-line arguments, memory limits, idle timeouts) stay with
    /// the runtime that spawns the process.
    pub fn to_setup_config(self) -> (r: SetupConfig)
        ensures
            r.name == self.name,
            r.version == self.version,
            r.port == self.port,
            r.description == self.description,
            r.auto_start == self.auto_start,
            r.restart_on_crash == self.restart_on_crash,
            r.backup_period == self.backup_period,
    {
        SetupConfig {
            name: self.name,
            version: self.version,
            port: self.port,
            description: self.description,
            auto_start: self.auto_start,
            restart_on_crash: self.restart_on_crash,
            backup_period: self.backup_period,
        }
    }
}

/// The key a creation request authenticates with.
#[derive(Clone, Debug)]
pub struct InstanceCreateQuery {
    pub key: String,
}

/// A console command addressed to one instance.
#[derive(Clone, Debug)]
pub struct SendCommandQuery {
    pub command: String,
}

/// Where a generic setup manifest should be fetched from.
#[derive(Clone, Debug)]
pub struct GenericSetupManifestBody {
    pub url: String,
}

} // verus!
