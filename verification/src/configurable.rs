//! Typed settings of the server.properties file.
//!
//! Each known key carries a typed value; unknown keys are kept verbatim.
//! The two movement thresholds that the game defines as fractional numbers
//! are kept as raw text here: floating point stays outside the verified
//! library, and the file round-trips them unchanged.

use vstd::prelude::*;

use crate::properties::PropertiesError;
use crate::text::{
    parse_bool, parse_u16, parse_u16_spec, parse_u32, parse_u32_spec, parse_u8, parse_u8_spec,
    str_eq,
};

verus! {

/// The game mode a server runs.
#[derive(Clone, Copy, Debug, PartialEq, Eq, Structural)]
pub enum Gamemode {
    Survival,
    Creative,
    Adventure,
}

impl Gamemode {
    /// The canonical lowercase name.
    pub fn as_string(&self) -> (r: String)
        ensures
            *self == Gamemode::Survival ==> r@ == "survival"@,
            *self == Gamemode::Creative ==> r@ == "creative"@,
            *self == Gamemode::Adventure ==> r@ == "adventure"@,
    {
        match self {
            Gamemode::Survival => "survival".to_owned(),
            Gamemode::Creative => "creative".to_owned(),
            Gamemode::Adventure => "adventure".to_owned(),
        }
    }
}

/// What parsing a game-mode name yields.
pub open spec fn gamemode_spec(s: Seq<char>) -> Option<Gamemode> {
    if s == "survival"@ {
        Some(Gamemode::Survival)
    } else if s == "creative"@ {
        Some(Gamemode::Creative)
    } else if s == "adventure"@ {
        Some(Gamemode::Adventure)
    } else {
        None
    }
}

/// Parse a canonical game-mode name.
pub fn parse_gamemode(s: &str) -> (r: Option<Gamemode>)
    ensures
        r == gamemode_spec(s@),
{
    if str_eq(s, "survival") {
        Some(Gamemode::Survival)
    } else if str_eq(s, "creative") {
        Some(Gamemode::Creative)
    } else if str_eq(s, "adventure") {
        Some(Gamemode::Adventure)
    } else {
        None
    }
}

/// The difficulty a server runs at.
#[derive(Clone, Copy, Debug, PartialEq, Eq, Structural)]
pub enum Difficulty {
    Peaceful,
    Easy,
    Normal,
    Hard,
}

impl Difficulty {
    /// The canonical lowercase name.
    pub fn as_string(&self) -> (r: String)
        ensures
            *self == Difficulty::Peaceful ==> r@ == "peaceful"@,
            *self == Difficulty::Easy ==> r@ == "easy"@,
            *self == Difficulty::Normal ==> r@ == "normal"@,
            *self == Difficulty::Hard ==> r@ == "hard"@,
    {
        match self {
            Difficulty::Peaceful => "peaceful".to_owned(),
            Difficulty::Easy => "easy".to_owned(),
            Difficulty::Normal => "normal".to_owned(),
            Difficulty::Hard => "hard".to_owned(),
        }
    }
}

/// What parsing a difficulty name yields.
pub open spec fn difficulty_spec(s: Seq<char>) -> Option<Difficulty> {
    if s == "peaceful"@ {
        Some(Difficulty::Peaceful)
    } else if s == "easy"@ {
        Some(Difficulty::Easy)
    } else if s == "normal"@ {
        Some(Difficulty::Normal)
    } else if s == "hard"@ {
        Some(Difficulty::Hard)
    } else {
        None
    }
}

/// Parse a canonical difficulty name.
pub fn parse_difficulty(s: &str) -> (r: Option<Difficulty>)
    ensures
        r == difficulty_spec(s@),
{
    if str_eq(s, "peaceful") {
        Some(Difficulty::Peaceful)
    } else if str_eq(s, "easy") {
        Some(Difficulty::Easy)
    } else if str_eq(s, "normal") {
        Some(Difficulty::Normal)
    } else if str_eq(s, "hard") {
        Some(Difficulty::Hard)
    } else {
        None
    }
}

/// The kind of level the server generates.
#[derive(Clone, Copy, Debug, PartialEq, Eq, Structural)]
pub enum LevelType {
    Flat,
    Legacy,
    Default,
}

impl LevelType {
    /// The canonical lowercase name.
    pub fn as_string(&self) -> (r: String)
        ensures
            *self == LevelType::Flat ==> r@ == "flat"@,
            *self == LevelType::Legacy ==> r@ == "legacy"@,
            *self == LevelType::Default ==> r@ == "default"@,
    {
        match self {
            LevelType::Flat => "flat".to_owned(),
            LevelType::Legacy => "legacy".to_owned(),
            LevelType::Default => "default".to_owned(),
        }
    }
}

/// What parsing a level-type name yields.
pub open spec fn level_type_spec(s: Seq<char>) -> Option<LevelType> {
    if s == "flat"@ {
        Some(LevelType::Flat)
    } else if s == "legacy"@ {
        Some(LevelType::Legacy)
    } else if s == "default"@ {
        Some(LevelType::Default)
    } else {
        None
    }
}

/// Parse a canonical level-type name.
pub fn parse_level_type(s: &str) -> (r: Option<LevelType>)
    ensures
        r == level_type_spec(s@),
{
    if str_eq(s, "flat") {
        Some(LevelType::Flat)
    } else if str_eq(s, "legacy") {
        Some(LevelType::Legacy)
    } else if str_eq(s, "default") {
        Some(LevelType::Default)
    } else {
        None
    }
}

/// The permission level new players get.
#[derive(Clone, Copy, Debug, PartialEq, Eq, Structural)]
pub enum DefaultPlayerPermissionLevel {
    Visitor,
    Member,
    Operator,
}

impl DefaultPlayerPermissionLevel {
    /// The canonical lowercase name.
    pub fn as_string(&self) -> (r: String)
        ensures
            *self == DefaultPlayerPermissionLevel::Visitor ==> r@ == "visitor"@,
            *self == DefaultPlayerPermissionLevel::Member ==> r@ == "member"@,
            *self == DefaultPlayerPermissionLevel::Operator ==> r@ == "operator"@,
    {
        match self {
            DefaultPlayerPermissionLevel::Visitor => "visitor".to_owned(),
            DefaultPlayerPermissionLevel::Member => "member".to_owned(),
            DefaultPlayerPermissionLevel::Operator => "operator".to_owned(),
        }
    }
}

/// What parsing a permission-level name yields.
pub open spec fn permission_level_spec(s: Seq<char>) -> Option<DefaultPlayerPermissionLevel> {
    if s == "visitor"@ {
        Some(DefaultPlayerPermissionLevel::Visitor)
    } else if s == "member"@ {
        Some(DefaultPlayerPermissionLevel::Member)
    } else if s == "operator"@ {
        Some(DefaultPlayerPermissionLevel::Operator)
    } else {
        None
    }
}

/// Parse a canonical permission-level name.
pub fn parse_permission_level(s: &str) -> (r: Option<DefaultPlayerPermissionLevel>)
    ensures
        r == permission_level_spec(s@),
{
    if str_eq(s, "visitor") {
        Some(DefaultPlayerPermissionLevel::Visitor)
    } else if str_eq(s, "member") {
        Some(DefaultPlayerPermissionLevel::Member)
    } else if str_eq(s, "operator") {
        Some(DefaultPlayerPermissionLevel::Operator)
    } else {
        None
    }
}

/// One typed server.properties setting. The movement-threshold values the
/// game defines as fractional numbers are carried as raw text.
#[derive(Clone, Debug)]
pub enum ServerPropertySetting {
    Gamemode(Gamemode),
    ForceGamemode(bool),
    Difficulty(Difficulty),
    LevelType(LevelType),
    ServerName(String),
    MaxPlayers(u32),
    ServerPort(u16),
    ServerPortv6(u16),
    LevelName(String),
    LevelSeed(String),
    OnlineMode(bool),
    AllowList(bool),
    AllowCheats(bool),
    ViewDistance(u32),
    PlayerIdleTimeout(u32),
    MaxThreads(u16),
    TickDistance(u8),
    DefaultPlayerPermissionLevel(DefaultPlayerPermissionLevel),
    TexturePackRequired(bool),
    ContentLogFileEnabled(bool),
    CompressionThreshold(u16),
    ServerAuthoritativeMovement(bool),
    PlayerMovementScoreThreshold(u32),
    PlayerMovementActionDirectionThreshold(String),
    PlayerMovementDistanceThreshold(String),
    PlayerMovementDurationThresholdInMs(u32),
    CorrectPlayerMovement(bool),
    DisablePlayerInteraction(bool),
    Unknown(String, String),
}

/// What `from_key_val` must yield for a key and value: the typed setting
/// for a known key whose value parses, an error for a known key whose
/// value does not, and the pair kept verbatim for an unknown key.
pub open spec fn from_key_val_matches(
    key: Seq<char>,
    value: Seq<char>,
    r: &Result<ServerPropertySetting, PropertiesError>,
) -> bool {
    if key == "gamemode"@ {
        match gamemode_spec(value) {
            Some(g) => r matches Ok(s) && s matches ServerPropertySetting::Gamemode(v) && v == g,
            None => r matches Err(e) && e == PropertiesError::InvalidValue,
        }
    } else if key == "force-gamemode"@ {
        if value == "true"@ || value == "false"@ {
            r matches Ok(s) && s matches ServerPropertySetting::ForceGamemode(b) && b == (value
                == "true"@)
        } else {
            r matches Err(e) && e == PropertiesError::InvalidValue
        }
    } else if key == "difficulty"@ {
        match difficulty_spec(value) {
            Some(d) => r matches Ok(s) && s matches ServerPropertySetting::Difficulty(v) && v == d,
            None => r matches Err(e) && e == PropertiesError::InvalidValue,
        }
    } else if key == "level-type"@ {
        match level_type_spec(value) {
            Some(t) => r matches Ok(s) && s matches ServerPropertySetting::LevelType(v) && v == t,
            None => r matches Err(e) && e == PropertiesError::InvalidValue,
        }
    } else if key == "server-name"@ {
        r matches Ok(s) && s matches ServerPropertySetting::ServerName(v) && v@ == value
    } else if key == "max-players"@ {
        match parse_u32_spec(value) {
            Some(n) => r matches Ok(s) && s matches ServerPropertySetting::MaxPlayers(v) && v == n,
            None => r matches Err(e) && e == PropertiesError::InvalidValue,
        }
    } else if key == "server-port"@ {
        match parse_u16_spec(value) {
            Some(n) => r matches Ok(s) && s matches ServerPropertySetting::ServerPort(v) && v == n,
            None => r matches Err(e) && e == PropertiesError::InvalidValue,
        }
    } else if key == "server-portv6"@ {
        match parse_u16_spec(value) {
            Some(n) => r matches Ok(s) && s matches ServerPropertySetting::ServerPortv6(v) && v
                == n,
            None => r matches Err(e) && e == PropertiesError::InvalidValue,
        }
    } else if key == "level-name"@ {
        r matches Ok(s) && s matches ServerPropertySetting::LevelName(v) && v@ == value
    } else if key == "level-seed"@ {
        r matches Ok(s) && s matches ServerPropertySetting::LevelSeed(v) && v@ == value
    } else if key == "online-mode"@ {
        if value == "true"@ || value == "false"@ {
            r matches Ok(s) && s matches ServerPropertySetting::OnlineMode(b) && b == (value
                == "true"@)
        } else {
            r matches Err(e) && e == PropertiesError::InvalidValue
        }
    } else if key == "allow-list"@ {
        if value == "true"@ || value == "false"@ {
            r matches Ok(s) && s matches ServerPropertySetting::AllowList(b) && b == (value
                == "true"@)
        } else {
            r matches Err(e) && e == PropertiesError::InvalidValue
        }
    } else if key == "allow-cheats"@ {
        if value == "true"@ || value == "false"@ {
            r matches Ok(s) && s matches ServerPropertySetting::AllowCheats(b) && b == (value
                == "true"@)
        } else {
            r matches Err(e) && e == PropertiesError::InvalidValue
        }
    } else if key == "view-distance"@ {
        match parse_u32_spec(value) {
            Some(n) => r matches Ok(s) && s matches ServerPropertySetting::ViewDistance(v) && v
                == n,
            None => r matches Err(e) && e == PropertiesError::InvalidValue,
        }
    } else if key == "player-idle-timeout"@ {
        match parse_u32_spec(value) {
            Some(n) => r matches Ok(s) && s matches ServerPropertySetting::PlayerIdleTimeout(v)
                && v == n,
            None => r matches Err(e) && e == PropertiesError::InvalidValue,
        }
    } else if key == "max-threads"@ {
        match parse_u16_spec(value) {
            Some(n) => r matches Ok(s) && s matches ServerPropertySetting::MaxThreads(v) && v == n,
            None => r matches Err(e) && e == PropertiesError::InvalidValue,
        }
    } else if key == "tick-distance"@ {
        match parse_u8_spec(value) {
            Some(n) => r matches Ok(s) && s matches ServerPropertySetting::TickDistance(v) && v
                == n,
            None => r matches Err(e) && e == PropertiesError::InvalidValue,
        }
    } else if key == "default-player-permission-level"@ {
        match permission_level_spec(value) {
            Some(p) => r matches Ok(s) && s matches
                ServerPropertySetting::DefaultPlayerPermissionLevel(v) && v == p,
            None => r matches Err(e) && e == PropertiesError::InvalidValue,
        }
    } else if key == "texturepack-required"@ {
        if value == "true"@ || value == "false"@ {
            r matches Ok(s) && s matches ServerPropertySetting::TexturePackRequired(b) && b == (value
                == "true"@)
        } else {
            r matches Err(e) && e == PropertiesError::InvalidValue
        }
    } else if key == "content-log-file-enabled"@ {
        if value == "true"@ || value == "false"@ {
            r matches Ok(s) && s matches ServerPropertySetting::ContentLogFileEnabled(b) && b == (value
                == "true"@)
        } else {
            r matches Err(e) && e == PropertiesError::InvalidValue
        }
    } else if key == "compression-threshold"@ {
        match parse_u16_spec(value) {
            Some(n) => r matches Ok(s) && s matches ServerPropertySetting::CompressionThreshold(v)
                && v == n,
            None => r matches Err(e) && e == PropertiesError::InvalidValue,
        }
    } else if key == "server-authoritative-movement"@ {
        if value == "true"@ || value == "false"@ {
            r matches Ok(s) && s matches ServerPropertySetting::ServerAuthoritativeMovement(b) && b == (value
                == "true"@)
        } else {
            r matches Err(e) && e == PropertiesError::InvalidValue
        }
    } else if key == "player-movement-score-threshold"@ {
        match parse_u32_spec(value) {
            Some(n) => r matches Ok(s) && s matches
                ServerPropertySetting::PlayerMovementScoreThreshold(v) && v == n,
            None => r matches Err(e) && e == PropertiesError::InvalidValue,
        }
    } else if key == "player-movement-action-direction-threshold"@ {
        r matches Ok(s) && s matches ServerPropertySetting::PlayerMovementActionDirectionThreshold(
            v,
        ) && v@ == value
    } else if key == "player-movement-distance-threshold"@ {
        r matches Ok(s) && s matches ServerPropertySetting::PlayerMovementDistanceThreshold(v)
            && v@ == value
    } else if key == "player-movement-duration-threshold-in-ms"@ {
        match parse_u32_spec(value) {
            Some(n) => r matches Ok(s) && s matches
                ServerPropertySetting::PlayerMovementDurationThresholdInMs(v) && v == n,
            None => r matches Err(e) && e == PropertiesError::InvalidValue,
        }
    } else if key == "correct-player-movement"@ {
        if value == "true"@ || value == "false"@ {
            r matches Ok(s) && s matches ServerPropertySetting::CorrectPlayerMovement(b) && b == (value
                == "true"@)
        } else {
            r matches Err(e) && e == PropertiesError::InvalidValue
        }
    } else if key == "disable-player-interaction"@ {
        if value == "true"@ || value == "false"@ {
            r matches Ok(s) && s matches ServerPropertySetting::DisablePlayerInteraction(b) && b == (value
                == "true"@)
        } else {
            r matches Err(e) && e == PropertiesError::InvalidValue
        }
    } else {
        r matches Ok(s) && s matches ServerPropertySetting::Unknown(k, v) && k@ == key && v@
            == value
    }
}

/// The properties-file key of a setting.
pub open spec fn ident_of(s: &ServerPropertySetting) -> Seq<char> {
    match s {
        ServerPropertySetting::Gamemode(_) => "gamemode"@,
        ServerPropertySetting::ForceGamemode(_) => "force-gamemode"@,
        ServerPropertySetting::Difficulty(_) => "difficulty"@,
        ServerPropertySetting::LevelType(_) => "level-type"@,
        ServerPropertySetting::ServerName(_) => "server-name"@,
        ServerPropertySetting::MaxPlayers(_) => "max-players"@,
        ServerPropertySetting::ServerPort(_) => "server-port"@,
        ServerPropertySetting::ServerPortv6(_) => "server-portv6"@,
        ServerPropertySetting::LevelName(_) => "level-name"@,
        ServerPropertySetting::LevelSeed(_) => "level-seed"@,
        ServerPropertySetting::OnlineMode(_) => "online-mode"@,
        ServerPropertySetting::AllowList(_) => "allow-list"@,
        ServerPropertySetting::AllowCheats(_) => "allow-cheats"@,
        ServerPropertySetting::ViewDistance(_) => "view-distance"@,
        ServerPropertySetting::PlayerIdleTimeout(_) => "player-idle-timeout"@,
        ServerPropertySetting::MaxThreads(_) => "max-threads"@,
        ServerPropertySetting::TickDistance(_) => "tick-distance"@,
        ServerPropertySetting::DefaultPlayerPermissionLevel(_) =>
            "default-player-permission-level"@,
        ServerPropertySetting::TexturePackRequired(_) => "texturepack-required"@,
        ServerPropertySetting::ContentLogFileEnabled(_) => "content-log-file-enabled"@,
        ServerPropertySetting::CompressionThreshold(_) => "compression-threshold"@,
        ServerPropertySetting::ServerAuthoritativeMovement(_) =>
            "server-authoritative-movement"@,
        ServerPropertySetting::PlayerMovementScoreThreshold(_) =>
            "player-movement-score-threshold"@,
        ServerPropertySetting::PlayerMovementActionDirectionThreshold(_) =>
            "player-movement-action-direction-threshold"@,
        ServerPropertySetting::PlayerMovementDistanceThreshold(_) =>
            "player-movement-distance-threshold"@,
        ServerPropertySetting::PlayerMovementDurationThresholdInMs(_) =>
            "player-movement-duration-threshold-in-ms"@,
        ServerPropertySetting::CorrectPlayerMovement(_) => "correct-player-movement"@,
        ServerPropertySetting::DisablePlayerInteraction(_) => "disable-player-interaction"@,
        ServerPropertySetting::Unknown(k, _) => k@,
    }
}

/// The value text a setting renders to: canonical names for the
/// enumerations, `true`/`false` for the booleans, exact decimal for the
/// numbers, and the carried text otherwise.
pub open spec fn to_line_value_matches(s: &ServerPropertySetting, v: Seq<char>) -> bool {
    match s {
        ServerPropertySetting::Gamemode(g) => v == gamemode_name(*g),
        ServerPropertySetting::ForceGamemode(b) => v == bool_name(*b),
        ServerPropertySetting::Difficulty(d) => v == difficulty_name(*d),
        ServerPropertySetting::LevelType(t) => v == level_type_name(*t),
        ServerPropertySetting::ServerName(x) => v == x@,
        ServerPropertySetting::MaxPlayers(n) => parse_u32_spec(v) == Some(*n),
        ServerPropertySetting::ServerPort(n) => parse_u32_spec(v) == Some(*n as u32),
        ServerPropertySetting::ServerPortv6(n) => parse_u32_spec(v) == Some(*n as u32),
        ServerPropertySetting::LevelName(x) => v == x@,
        ServerPropertySetting::LevelSeed(x) => v == x@,
        ServerPropertySetting::OnlineMode(b) => v == bool_name(*b),
        ServerPropertySetting::AllowList(b) => v == bool_name(*b),
        ServerPropertySetting::AllowCheats(b) => v == bool_name(*b),
        ServerPropertySetting::ViewDistance(n) => parse_u32_spec(v) == Some(*n),
        ServerPropertySetting::PlayerIdleTimeout(n) => parse_u32_spec(v) == Some(*n),
        ServerPropertySetting::MaxThreads(n) => parse_u32_spec(v) == Some(*n as u32),
        ServerPropertySetting::TickDistance(n) => parse_u32_spec(v) == Some(*n as u32),
        ServerPropertySetting::DefaultPlayerPermissionLevel(p) => v == permission_level_name(*p),
        ServerPropertySetting::TexturePackRequired(b) => v == bool_name(*b),
        ServerPropertySetting::ContentLogFileEnabled(b) => v == bool_name(*b),
        ServerPropertySetting::CompressionThreshold(n) => parse_u32_spec(v) == Some(*n as u32),
        ServerPropertySetting::ServerAuthoritativeMovement(b) => v == bool_name(*b),
        ServerPropertySetting::PlayerMovementScoreThreshold(n) => parse_u32_spec(v) == Some(*n),
        ServerPropertySetting::PlayerMovementActionDirectionThreshold(x) => v == x@,
        ServerPropertySetting::PlayerMovementDistanceThreshold(x) => v == x@,
        ServerPropertySetting::PlayerMovementDurationThresholdInMs(n) => parse_u32_spec(v)
            == Some(*n),
        ServerPropertySetting::CorrectPlayerMovement(b) => v == bool_name(*b),
        ServerPropertySetting::DisablePlayerInteraction(b) => v == bool_name(*b),
        ServerPropertySetting::Unknown(_, x) => v == x@,
    }
}

/// The canonical game-mode name.
pub open spec fn gamemode_name(g: Gamemode) -> Seq<char> {
    match g {
        Gamemode::Survival => "survival"@,
        Gamemode::Creative => "creative"@,
        Gamemode::Adventure => "adventure"@,
    }
}

/// The canonical difficulty name.
pub open spec fn difficulty_name(d: Difficulty) -> Seq<char> {
    match d {
        Difficulty::Peaceful => "peaceful"@,
        Difficulty::Easy => "easy"@,
        Difficulty::Normal => "normal"@,
        Difficulty::Hard => "hard"@,
    }
}

/// The canonical level-type name.
pub open spec fn level_type_name(t: LevelType) -> Seq<char> {
    match t {
        LevelType::Flat => "flat"@,
        LevelType::Legacy => "legacy"@,
        LevelType::Default => "default"@,
    }
}

/// The canonical permission-level name.
pub open spec fn permission_level_name(p: DefaultPlayerPermissionLevel) -> Seq<char> {
    match p {
        DefaultPlayerPermissionLevel::Visitor => "visitor"@,
        DefaultPlayerPermissionLevel::Member => "member"@,
        DefaultPlayerPermissionLevel::Operator => "operator"@,
    }
}

/// The rendered boolean.
pub open spec fn bool_name(b: bool) -> Seq<char> {
    if b {
        "true"@
    } else {
        "false"@
    }
}

impl ServerPropertySetting {
    /// The settings section these values live under.
    pub fn get_section_id() -> (r: &'static str)
        ensures
            r@ == "server_properties_section"@,
    {
        "server_properties_section"
    }

    /// The properties-file key of this setting.
    pub fn get_identifier(&self) -> (r: String)
        ensures
            match self {
                ServerPropertySetting::Gamemode(_) => r@ == "gamemode"@,
                ServerPropertySetting::ForceGamemode(_) => r@ == "force-gamemode"@,
                ServerPropertySetting::Difficulty(_) => r@ == "difficulty"@,
                ServerPropertySetting::LevelType(_) => r@ == "level-type"@,
                ServerPropertySetting::ServerName(_) => r@ == "server-name"@,
                ServerPropertySetting::MaxPlayers(_) => r@ == "max-players"@,
                ServerPropertySetting::ServerPort(_) => r@ == "server-port"@,
                ServerPropertySetting::ServerPortv6(_) => r@ == "server-portv6"@,
                ServerPropertySetting::LevelName(_) => r@ == "level-name"@,
                ServerPropertySetting::LevelSeed(_) => r@ == "level-seed"@,
                ServerPropertySetting::OnlineMode(_) => r@ == "online-mode"@,
                ServerPropertySetting::AllowList(_) => r@ == "allow-list"@,
                ServerPropertySetting::AllowCheats(_) => r@ == "allow-cheats"@,
                ServerPropertySetting::ViewDistance(_) => r@ == "view-distance"@,
                ServerPropertySetting::PlayerIdleTimeout(_) => r@ == "player-idle-timeout"@,
                ServerPropertySetting::MaxThreads(_) => r@ == "max-threads"@,
                ServerPropertySetting::TickDistance(_) => r@ == "tick-distance"@,
                ServerPropertySetting::DefaultPlayerPermissionLevel(_) => r@
                    == "default-player-permission-level"@,
                ServerPropertySetting::TexturePackRequired(_) => r@ == "texturepack-required"@,
                ServerPropertySetting::ContentLogFileEnabled(_) => r@
                    == "content-log-file-enabled"@,
                ServerPropertySetting::CompressionThreshold(_) => r@ == "compression-threshold"@,
                ServerPropertySetting::ServerAuthoritativeMovement(_) => r@
                    == "server-authoritative-movement"@,
                ServerPropertySetting::PlayerMovementScoreThreshold(_) => r@
                    == "player-movement-score-threshold"@,
                ServerPropertySetting::PlayerMovementActionDirectionThreshold(_) => r@
                    == "player-movement-action-direction-threshold"@,
                ServerPropertySetting::PlayerMovementDistanceThreshold(_) => r@
                    == "player-movement-distance-threshold"@,
                ServerPropertySetting::PlayerMovementDurationThresholdInMs(_) => r@
                    == "player-movement-duration-threshold-in-ms"@,
                ServerPropertySetting::CorrectPlayerMovement(_) => r@
                    == "correct-player-movement"@,
                ServerPropertySetting::DisablePlayerInteraction(_) => r@
                    == "disable-player-interaction"@,
                ServerPropertySetting::Unknown(k, _) => r@ == k@,
            },
    {
        match self {
            ServerPropertySetting::Gamemode(_) => "gamemode".to_owned(),
            ServerPropertySetting::ForceGamemode(_) => "force-gamemode".to_owned(),
            ServerPropertySetting::Difficulty(_) => "difficulty".to_owned(),
            ServerPropertySetting::LevelType(_) => "level-type".to_owned(),
            ServerPropertySetting::ServerName(_) => "server-name".to_owned(),
            ServerPropertySetting::MaxPlayers(_) => "max-players".to_owned(),
            ServerPropertySetting::ServerPort(_) => "server-port".to_owned(),
            ServerPropertySetting::ServerPortv6(_) => "server-portv6".to_owned(),
            ServerPropertySetting::LevelName(_) => "level-name".to_owned(),
            ServerPropertySetting::LevelSeed(_) => "level-seed".to_owned(),
            ServerPropertySetting::OnlineMode(_) => "online-mode".to_owned(),
            ServerPropertySetting::AllowList(_) => "allow-list".to_owned(),
            ServerPropertySetting::AllowCheats(_) => "allow-cheats".to_owned(),
            ServerPropertySetting::ViewDistance(_) => "view-distance".to_owned(),
            ServerPropertySetting::PlayerIdleTimeout(_) => "player-idle-timeout".to_owned(),
            ServerPropertySetting::MaxThreads(_) => "max-threads".to_owned(),
            ServerPropertySetting::TickDistance(_) => "tick-distance".to_owned(),
            ServerPropertySetting::DefaultPlayerPermissionLevel(_) =>
                "default-player-permission-level".to_owned(),
            ServerPropertySetting::TexturePackRequired(_) => "texturepack-required".to_owned(),
            ServerPropertySetting::ContentLogFileEnabled(_) =>
                "content-log-file-enabled".to_owned(),
            ServerPropertySetting::CompressionThreshold(_) => "compression-threshold".to_owned(),
            ServerPropertySetting::ServerAuthoritativeMovement(_) =>
                "server-authoritative-movement".to_owned(),
            ServerPropertySetting::PlayerMovementScoreThreshold(_) =>
                "player-movement-score-threshold".to_owned(),
            ServerPropertySetting::PlayerMovementActionDirectionThreshold(_) =>
                "player-movement-action-direction-threshold".to_owned(),
            ServerPropertySetting::PlayerMovementDistanceThreshold(_) =>
                "player-movement-distance-threshold".to_owned(),
            ServerPropertySetting::PlayerMovementDurationThresholdInMs(_) =>
                "player-movement-duration-threshold-in-ms".to_owned(),
            ServerPropertySetting::CorrectPlayerMovement(_) =>
                "correct-player-movement".to_owned(),
            ServerPropertySetting::DisablePlayerInteraction(_) =>
                "disable-player-interaction".to_owned(),
            ServerPropertySetting::Unknown(k, _) => k.clone(),
        }
    }

    /// Parse one key/value pair into its typed setting: exact decimal,
    /// boolean and name grammars for the known keys, the raw pair for an
    /// unknown key, and `InvalidValue` when a known key's value does not
    /// parse.
    pub fn from_key_val(key: &str, value: &str) -> (r: Result<
        ServerPropertySetting,
        PropertiesError,
    >)
        ensures
            from_key_val_matches(key@, value@, &r),
    {
        if str_eq(key, "gamemode") {
            match parse_gamemode(value) {
                Some(g) => Ok(ServerPropertySetting::Gamemode(g)),
                None => Err(PropertiesError::InvalidValue),
            }
        } else if str_eq(key, "force-gamemode") {
            match parse_bool(value) {
                Some(b) => Ok(ServerPropertySetting::ForceGamemode(b)),
                None => Err(PropertiesError::InvalidValue),
            }
        } else if str_eq(key, "difficulty") {
            match parse_difficulty(value) {
                Some(d) => Ok(ServerPropertySetting::Difficulty(d)),
                None => Err(PropertiesError::InvalidValue),
            }
        } else if str_eq(key, "level-type") {
            match parse_level_type(value) {
                Some(t) => Ok(ServerPropertySetting::LevelType(t)),
                None => Err(PropertiesError::InvalidValue),
            }
        } else if str_eq(key, "server-name") {
            Ok(ServerPropertySetting::ServerName(value.to_owned()))
        } else if str_eq(key, "max-players") {
            match parse_u32(value) {
                Some(n) => Ok(ServerPropertySetting::MaxPlayers(n)),
                None => Err(PropertiesError::InvalidValue),
            }
        } else if str_eq(key, "server-port") {
            match parse_u16(value) {
                Some(n) => Ok(ServerPropertySetting::ServerPort(n)),
                None => Err(PropertiesError::InvalidValue),
            }
        } else if str_eq(key, "server-portv6") {
            match parse_u16(value) {
                Some(n) => Ok(ServerPropertySetting::ServerPortv6(n)),
                None => Err(PropertiesError::InvalidValue),
            }
        } else if str_eq(key, "level-name") {
            Ok(ServerPropertySetting::LevelName(value.to_owned()))
        } else if str_eq(key, "level-seed") {
            Ok(ServerPropertySetting::LevelSeed(value.to_owned()))
        } else if str_eq(key, "online-mode") {
            match parse_bool(value) {
                Some(b) => Ok(ServerPropertySetting::OnlineMode(b)),
                None => Err(PropertiesError::InvalidValue),
            }
        } else if str_eq(key, "allow-list") {
            match parse_bool(value) {
                Some(b) => Ok(ServerPropertySetting::AllowList(b)),
                None => Err(PropertiesError::InvalidValue),
            }
        } else if str_eq(key, "allow-cheats") {
            match parse_bool(value) {
                Some(b) => Ok(ServerPropertySetting::AllowCheats(b)),
                None => Err(PropertiesError::InvalidValue),
            }
        } else if str_eq(key, "view-distance") {
            match parse_u32(value) {
                Some(n) => Ok(ServerPropertySetting::ViewDistance(n)),
                None => Err(PropertiesError::InvalidValue),
            }
        } else if str_eq(key, "player-idle-timeout") {
            match parse_u32(value) {
                Some(n) => Ok(ServerPropertySetting::PlayerIdleTimeout(n)),
                None => Err(PropertiesError::InvalidValue),
            }
        } else if str_eq(key, "max-threads") {
            match parse_u16(value) {
                Some(n) => Ok(ServerPropertySetting::MaxThreads(n)),
                None => Err(PropertiesError::InvalidValue),
            }
        } else if str_eq(key, "tick-distance") {
            match parse_u8(value) {
                Some(n) => Ok(ServerPropertySetting::TickDistance(n)),
                None => Err(PropertiesError::InvalidValue),
            }
        } else if str_eq(key, "default-player-permission-level") {
            match parse_permission_level(value) {
                Some(p) => Ok(ServerPropertySetting::DefaultPlayerPermissionLevel(p)),
                None => Err(PropertiesError::InvalidValue),
            }
        } else if str_eq(key, "texturepack-required") {
            match parse_bool(value) {
                Some(b) => Ok(ServerPropertySetting::TexturePackRequired(b)),
                None => Err(PropertiesError::InvalidValue),
            }
        } else if str_eq(key, "content-log-file-enabled") {
            match parse_bool(value) {
                Some(b) => Ok(ServerPropertySetting::ContentLogFileEnabled(b)),
                None => Err(PropertiesError::InvalidValue),
            }
        } else if str_eq(key, "compression-threshold") {
            match parse_u16(value) {
                Some(n) => Ok(ServerPropertySetting::CompressionThreshold(n)),
                None => Err(PropertiesError::InvalidValue),
            }
        } else if str_eq(key, "server-authoritative-movement") {
            match parse_bool(value) {
                Some(b) => Ok(ServerPropertySetting::ServerAuthoritativeMovement(b)),
                None => Err(PropertiesError::InvalidValue),
            }
        } else if str_eq(key, "player-movement-score-threshold") {
            match parse_u32(value) {
                Some(n) => Ok(ServerPropertySetting::PlayerMovementScoreThreshold(n)),
                None => Err(PropertiesError::InvalidValue),
            }
        } else if str_eq(key, "player-movement-action-direction-threshold") {
            Ok(ServerPropertySetting::PlayerMovementActionDirectionThreshold(value.to_owned()))
        } else if str_eq(key, "player-movement-distance-threshold") {
            Ok(ServerPropertySetting::PlayerMovementDistanceThreshold(value.to_owned()))
        } else if str_eq(key, "player-movement-duration-threshold-in-ms") {
            match parse_u32(value) {
                Some(n) => Ok(ServerPropertySetting::PlayerMovementDurationThresholdInMs(n)),
                None => Err(PropertiesError::InvalidValue),
            }
        } else if str_eq(key, "correct-player-movement") {
            match parse_bool(value) {
                Some(b) => Ok(ServerPropertySetting::CorrectPlayerMovement(b)),
                None => Err(PropertiesError::InvalidValue),
            }
        } else if str_eq(key, "disable-player-interaction") {
            match parse_bool(value) {
                Some(b) => Ok(ServerPropertySetting::DisablePlayerInteraction(b)),
                None => Err(PropertiesError::InvalidValue),
            }
        } else {
            Ok(ServerPropertySetting::Unknown(key.to_owned(), value.to_owned()))
        }
    }
}


impl ServerPropertySetting {
    /// Render the setting as its properties-file line `key=value`.
    pub fn to_line(&self) -> (r: String)
        ensures
            ({
                let key = ident_of(self);
                &&& r@.len() > key.len()
                &&& r@.subrange(0, key.len() as int) == key
                &&& r@[key.len() as int] == '='
                &&& to_line_value_matches(self, r@.subrange(key.len() as int + 1, r@.len() as int))
            }),
    {
        let mut line = self.get_identifier();
        line.append("=");
        let value: String = match self {
            ServerPropertySetting::Gamemode(g) => g.as_string(),
            ServerPropertySetting::ForceGamemode(b) => render_bool(*b),
            ServerPropertySetting::Difficulty(d) => d.as_string(),
            ServerPropertySetting::LevelType(t) => t.as_string(),
            ServerPropertySetting::ServerName(x) => x.clone(),
            ServerPropertySetting::MaxPlayers(n) => crate::text::u32_to_string(*n),
            ServerPropertySetting::ServerPort(n) => crate::text::u32_to_string(*n as u32),
            ServerPropertySetting::ServerPortv6(n) => crate::text::u32_to_string(*n as u32),
            ServerPropertySetting::LevelName(x) => x.clone(),
            ServerPropertySetting::LevelSeed(x) => x.clone(),
            ServerPropertySetting::OnlineMode(b) => render_bool(*b),
            ServerPropertySetting::AllowList(b) => render_bool(*b),
            ServerPropertySetting::AllowCheats(b) => render_bool(*b),
            ServerPropertySetting::ViewDistance(n) => crate::text::u32_to_string(*n),
            ServerPropertySetting::PlayerIdleTimeout(n) => crate::text::u32_to_string(*n),
            ServerPropertySetting::MaxThreads(n) => crate::text::u32_to_string(*n as u32),
            ServerPropertySetting::TickDistance(n) => crate::text::u32_to_string(*n as u32),
            ServerPropertySetting::DefaultPlayerPermissionLevel(p) => p.as_string(),
            ServerPropertySetting::TexturePackRequired(b) => render_bool(*b),
            ServerPropertySetting::ContentLogFileEnabled(b) => render_bool(*b),
            ServerPropertySetting::CompressionThreshold(n) => crate::text::u32_to_string(
                *n as u32,
            ),
            ServerPropertySetting::ServerAuthoritativeMovement(b) => render_bool(*b),
            ServerPropertySetting::PlayerMovementScoreThreshold(n) => crate::text::u32_to_string(
                *n,
            ),
            ServerPropertySetting::PlayerMovementActionDirectionThreshold(x) => x.clone(),
            ServerPropertySetting::PlayerMovementDistanceThreshold(x) => x.clone(),
            ServerPropertySetting::PlayerMovementDurationThresholdInMs(n) =>
                crate::text::u32_to_string(*n),
            ServerPropertySetting::CorrectPlayerMovement(b) => render_bool(*b),
            ServerPropertySetting::DisablePlayerInteraction(b) => render_bool(*b),
            ServerPropertySetting::Unknown(_, x) => x.clone(),
        };
        let ghost key = ident_of(self);
        let ghost eq_seq = "="@;
        proof {
            assert(line@ == key + eq_seq);
        }
        line.append(value.as_str());
        proof {
            broadcast use vstd::string::group_string_axioms;

            reveal_strlit("=");
            assert(eq_seq.len() == 1);
            assert(eq_seq[0] == '=');
            assert(line@ == key + eq_seq + value@);
            assert(line@.subrange(0, key.len() as int) =~= key);
            assert(line@[key.len() as int] == '=');
            assert(line@.subrange(key.len() as int + 1, line@.len() as int) =~= value@);
        }
        line
    }
}

/// The rendered boolean value text.
fn render_bool(b: bool) -> (r: String)
    ensures
        r@ == bool_name(b),
{
    if b {
        "true".to_owned()
    } else {
        "false".to_owned()
    }
}

} // verus!
