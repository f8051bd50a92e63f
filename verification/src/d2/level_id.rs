use vstd::prelude::*;

verus! {

/// Number of named locations; the numeric level ids are `0..LEVEL_COUNT`.
pub const LEVEL_COUNT: u32 = 137;

/// Identifies one named location of the game world.
///
/// The variants are declared in the order of the game's numeric level ids,
/// starting at zero with the placeholder `NoLevel`; [`LevelId::id`] and
/// [`LevelId::from_id`] convert between the two.
#[derive(Copy, Clone, Eq, Hash, PartialEq, Debug, Structural)]
pub enum LevelId {
    NoLevel,
    RogueEncampment,
    BloodMoor,
    ColdPlains,
    StonyField,
    DarkWood,
    BlackMarsh,
    TamoeHighland,
    DenOfEvil,
    CaveLevel1,
    UndergroundPassageLevel1,
    HoleLevel1,
    PitLevel1,
    CaveLevel2,
    UndergroundPassageLevel2,
    HoleLevel2,
    PitLevel2,
    BurialGrounds,
    Crypt,
    Mausoleum,
    ForgottenTower,
    TowerCellarLevel1,
    TowerCellarLevel2,
    TowerCellarLevel3,
    TowerCellarLevel4,
    TowerCellarLevel5,
    MonasteryGate,
    OuterCloister,
    Barracks,
    JailLevel1,
    JailLevel2,
    JailLevel3,
    InnerCloister,
    Cathedral,
    CatacombsLevel1,
    CatacombsLevel2,
    CatacombsLevel3,
    CatacombsLevel4,
    Tristram,
    MooMooFarm,
    LutGholein,
    RockyWaste,
    DryHills,
    FarOasis,
    LostCity,
    ValleyOfSnakes,
    CanyonOfTheMagi,
    A2SewersLevel1,
    A2SewersLevel2,
    A2SewersLevel3,
    HaremLevel1,
    HaremLevel2,
    PalaceCellarLevel1,
    PalaceCellarLevel2,
    PalaceCellarLevel3,
    StonyTombLevel1,
    HallsOfTheDeadLevel1,
    HallsOfTheDeadLevel2,
    ClawViperTempleLevel1,
    StonyTombLevel2,
    HallsOfTheDeadLevel3,
    ClawViperTempleLevel2,
    MaggotLairLevel1,
    MaggotLairLevel2,
    MaggotLairLevel3,
    AncientTunnels,
    TalRashasTomblevel1,
    TalRashasTomblevel2,
    TalRashasTomblevel3,
    TalRashasTomblevel4,
    TalRashasTomblevel5,
    TalRashasTomblevel6,
    TalRashasTomblevel7,
    DurielsLair,
    ArcaneSanctuary,
    KurastDocktown,
    SpiderForest,
    GreatMarsh,
    FlayerJungle,
    LowerKurast,
    KurastBazaar,
    UpperKurast,
    KurastCauseway,
    Travincal,
    SpiderCave,
    SpiderCavern,
    SwampyPitLevel1,
    SwampyPitLevel2,
    FlayerDungeonLevel1,
    FlayerDungeonLevel2,
    SwampyPitLevel3,
    FlayerDungeonLevel3,
    A3SewersLevel1,
    A3SewersLevel2,
    RuinedTemple,
    DisusedFane,
    ForgottenReliquary,
    ForgottenTemple,
    RuinedFane,
    DisusedReliquary,
    DuranceOfHateLevel1,
    DuranceOfHateLevel2,
    DuranceOfHateLevel3,
    ThePandemoniumFortress,
    OuterSteppes,
    PlainsOfDespair,
    CityOfTheDamned,
    RiverOfFlame,
    ChaosSanctuary,
    Harrogath,
    BloodyFoothills,
    FrigidHighlands,
    ArreatPlateau,
    CrystalizedPassage,
    FrozenRiver,
    GlacialTrail,
    DrifterCavern,
    FrozenTundra,
    AncientsWay,
    IcyCellar,
    ArreatSummit,
    NihlathaksTemple,
    HallsOfAnguish,
    HallsOfPain,
    HallsOfVaught,
    Abaddon,
    PitOfAcheron,
    InfernalPit,
    TheWorldstoneKeepLevel1,
    TheWorldstoneKeepLevel2,
    TheWorldstoneKeepLevel3,
    ThroneOfDestruction,
    TheWorldstoneChamber,
    MatronsDen,
    FogottenSands,
    FurnaceOfPain,
    Tristram2,
}

impl LevelId {
    /// The numeric id the game uses for this location.
    pub open spec fn spec_id(&self) -> u32 {
        match self {
            LevelId::NoLevel => 0u32,
            LevelId::RogueEncampment => 1u32,
            LevelId::BloodMoor => 2u32,
            LevelId::ColdPlains => 3u32,
            LevelId::StonyField => 4u32,
            LevelId::DarkWood => 5u32,
            LevelId::BlackMarsh => 6u32,
            LevelId::TamoeHighland => 7u32,
            LevelId::DenOfEvil => 8u32,
            LevelId::CaveLevel1 => 9u32,
            LevelId::UndergroundPassageLevel1 => 10u32,
            LevelId::HoleLevel1 => 11u32,
            LevelId::PitLevel1 => 12u32,
            LevelId::CaveLevel2 => 13u32,
            LevelId::UndergroundPassageLevel2 => 14u32,
            LevelId::HoleLevel2 => 15u32,
            LevelId::PitLevel2 => 16u32,
            LevelId::BurialGrounds => 17u32,
            LevelId::Crypt => 18u32,
            LevelId::Mausoleum => 19u32,
            LevelId::ForgottenTower => 20u32,
            LevelId::TowerCellarLevel1 => 21u32,
            LevelId::TowerCellarLevel2 => 22u32,
            LevelId::TowerCellarLevel3 => 23u32,
            LevelId::TowerCellarLevel4 => 24u32,
            LevelId::TowerCellarLevel5 => 25u32,
            LevelId::MonasteryGate => 26u32,
            LevelId::OuterCloister => 27u32,
            LevelId::Barracks => 28u32,
            LevelId::JailLevel1 => 29u32,
            LevelId::JailLevel2 => 30u32,
            LevelId::JailLevel3 => 31u32,
            LevelId::InnerCloister => 32u32,
            LevelId::Cathedral => 33u32,
            LevelId::CatacombsLevel1 => 34u32,
            LevelId::CatacombsLevel2 => 35u32,
            LevelId::CatacombsLevel3 => 36u32,
            LevelId::CatacombsLevel4 => 37u32,
            LevelId::Tristram => 38u32,
            LevelId::MooMooFarm => 39u32,
            LevelId::LutGholein => 40u32,
            LevelId::RockyWaste => 41u32,
            LevelId::DryHills => 42u32,
            LevelId::FarOasis => 43u32,
            LevelId::LostCity => 44u32,
            LevelId::ValleyOfSnakes => 45u32,
            LevelId::CanyonOfTheMagi => 46u32,
            LevelId::A2SewersLevel1 => 47u32,
            LevelId::A2SewersLevel2 => 48u32,
            LevelId::A2SewersLevel3 => 49u32,
            LevelId::HaremLevel1 => 50u32,
            LevelId::HaremLevel2 => 51u32,
            LevelId::PalaceCellarLevel1 => 52u32,
            LevelId::PalaceCellarLevel2 => 53u32,
            LevelId::PalaceCellarLevel3 => 54u32,
            LevelId::StonyTombLevel1 => 55u32,
            LevelId::HallsOfTheDeadLevel1 => 56u32,
            LevelId::HallsOfTheDeadLevel2 => 57u32,
            LevelId::ClawViperTempleLevel1 => 58u32,
            LevelId::StonyTombLevel2 => 59u32,
            LevelId::HallsOfTheDeadLevel3 => 60u32,
            LevelId::ClawViperTempleLevel2 => 61u32,
            LevelId::MaggotLairLevel1 => 62u32,
            LevelId::MaggotLairLevel2 => 63u32,
            LevelId::MaggotLairLevel3 => 64u32,
            LevelId::AncientTunnels => 65u32,
            LevelId::TalRashasTomblevel1 => 66u32,
            LevelId::TalRashasTomblevel2 => 67u32,
            LevelId::TalRashasTomblevel3 => 68u32,
            LevelId::TalRashasTomblevel4 => 69u32,
            LevelId::TalRashasTomblevel5 => 70u32,
            LevelId::TalRashasTomblevel6 => 71u32,
            LevelId::TalRashasTomblevel7 => 72u32,
            LevelId::DurielsLair => 73u32,
            LevelId::ArcaneSanctuary => 74u32,
            LevelId::KurastDocktown => 75u32,
            LevelId::SpiderForest => 76u32,
            LevelId::GreatMarsh => 77u32,
            LevelId::FlayerJungle => 78u32,
            LevelId::LowerKurast => 79u32,
            LevelId::KurastBazaar => 80u32,
            LevelId::UpperKurast => 81u32,
            LevelId::KurastCauseway => 82u32,
            LevelId::Travincal => 83u32,
            LevelId::SpiderCave => 84u32,
            LevelId::SpiderCavern => 85u32,
            LevelId::SwampyPitLevel1 => 86u32,
            LevelId::SwampyPitLevel2 => 87u32,
            LevelId::FlayerDungeonLevel1 => 88u32,
            LevelId::FlayerDungeonLevel2 => 89u32,
            LevelId::SwampyPitLevel3 => 90u32,
            LevelId::FlayerDungeonLevel3 => 91u32,
            LevelId::A3SewersLevel1 => 92u32,
            LevelId::A3SewersLevel2 => 93u32,
            LevelId::RuinedTemple => 94u32,
            LevelId::DisusedFane => 95u32,
            LevelId::ForgottenReliquary => 96u32,
            LevelId::ForgottenTemple => 97u32,
            LevelId::RuinedFane => 98u32,
            LevelId::DisusedReliquary => 99u32,
            LevelId::DuranceOfHateLevel1 => 100u32,
            LevelId::DuranceOfHateLevel2 => 101u32,
            LevelId::DuranceOfHateLevel3 => 102u32,
            LevelId::ThePandemoniumFortress => 103u32,
            LevelId::OuterSteppes => 104u32,
            LevelId::PlainsOfDespair => 105u32,
            LevelId::CityOfTheDamned => 106u32,
            LevelId::RiverOfFlame => 107u32,
            LevelId::ChaosSanctuary => 108u32,
            LevelId::Harrogath => 109u32,
            LevelId::BloodyFoothills => 110u32,
            LevelId::FrigidHighlands => 111u32,
            LevelId::ArreatPlateau => 112u32,
            LevelId::CrystalizedPassage => 113u32,
            LevelId::FrozenRiver => 114u32,
            LevelId::GlacialTrail => 115u32,
            LevelId::DrifterCavern => 116u32,
            LevelId::FrozenTundra => 117u32,
            LevelId::AncientsWay => 118u32,
            LevelId::IcyCellar => 119u32,
            LevelId::ArreatSummit => 120u32,
            LevelId::NihlathaksTemple => 121u32,
            LevelId::HallsOfAnguish => 122u32,
            LevelId::HallsOfPain => 123u32,
            LevelId::HallsOfVaught => 124u32,
            LevelId::Abaddon => 125u32,
            LevelId::PitOfAcheron => 126u32,
            LevelId::InfernalPit => 127u32,
            LevelId::TheWorldstoneKeepLevel1 => 128u32,
            LevelId::TheWorldstoneKeepLevel2 => 129u32,
            LevelId::TheWorldstoneKeepLevel3 => 130u32,
            LevelId::ThroneOfDestruction => 131u32,
            LevelId::TheWorldstoneChamber => 132u32,
            LevelId::MatronsDen => 133u32,
            LevelId::FogottenSands => 134u32,
            LevelId::FurnaceOfPain => 135u32,
            LevelId::Tristram2 => 136u32,
        }
    }

    /// Whether this location is a town. The placeholder `NoLevel` counts as
    /// one.
    pub open spec fn spec_is_town(&self) -> bool {
        *self == LevelId::NoLevel || *self == LevelId::RogueEncampment || *self == LevelId::LutGholein
            || *self == LevelId::KurastDocktown || *self == LevelId::ThePandemoniumFortress
            || *self == LevelId::Harrogath
    }

    /// Whether this location is a town.
    #[verifier::when_used_as_spec(spec_is_town)]
    pub fn is_town(&self) -> (town: bool)
        ensures
            town == self.spec_is_town(),
    {
        matches!(
            self,
            Self::RogueEncampment
                | Self::LutGholein
                | Self::KurastDocktown
                | Self::ThePandemoniumFortress
                | Self::Harrogath
                | Self::NoLevel
        )
    }

    /// The numeric id the game uses for this location.
    #[verifier::when_used_as_spec(spec_id)]
    pub fn id(&self) -> (id: u32)
        ensures
            id == self.spec_id(),
            id < LEVEL_COUNT,
    {
        match self {
            LevelId::NoLevel => 0,
            LevelId::RogueEncampment => 1,
            LevelId::BloodMoor => 2,
            LevelId::ColdPlains => 3,
            LevelId::StonyField => 4,
            LevelId::DarkWood => 5,
            LevelId::BlackMarsh => 6,
            LevelId::TamoeHighland => 7,
            LevelId::DenOfEvil => 8,
            LevelId::CaveLevel1 => 9,
            LevelId::UndergroundPassageLevel1 => 10,
            LevelId::HoleLevel1 => 11,
            LevelId::PitLevel1 => 12,
            LevelId::CaveLevel2 => 13,
            LevelId::UndergroundPassageLevel2 => 14,
            LevelId::HoleLevel2 => 15,
            LevelId::PitLevel2 => 16,
            LevelId::BurialGrounds => 17,
            LevelId::Crypt => 18,
            LevelId::Mausoleum => 19,
            LevelId::ForgottenTower => 20,
            LevelId::TowerCellarLevel1 => 21,
            LevelId::TowerCellarLevel2 => 22,
            LevelId::TowerCellarLevel3 => 23,
            LevelId::TowerCellarLevel4 => 24,
            LevelId::TowerCellarLevel5 => 25,
            LevelId::MonasteryGate => 26,
            LevelId::OuterCloister => 27,
            LevelId::Barracks => 28,
            LevelId::JailLevel1 => 29,
            LevelId::JailLevel2 => 30,
            LevelId::JailLevel3 => 31,
            LevelId::InnerCloister => 32,
            LevelId::Cathedral => 33,
            LevelId::CatacombsLevel1 => 34,
            LevelId::CatacombsLevel2 => 35,
            LevelId::CatacombsLevel3 => 36,
            LevelId::CatacombsLevel4 => 37,
            LevelId::Tristram => 38,
            LevelId::MooMooFarm => 39,
            LevelId::LutGholein => 40,
            LevelId::RockyWaste => 41,
            LevelId::DryHills => 42,
            LevelId::FarOasis => 43,
            LevelId::LostCity => 44,
            LevelId::ValleyOfSnakes => 45,
            LevelId::CanyonOfTheMagi => 46,
            LevelId::A2SewersLevel1 => 47,
            LevelId::A2SewersLevel2 => 48,
            LevelId::A2SewersLevel3 => 49,
            LevelId::HaremLevel1 => 50,
            LevelId::HaremLevel2 => 51,
            LevelId::PalaceCellarLevel1 => 52,
            LevelId::PalaceCellarLevel2 => 53,
            LevelId::PalaceCellarLevel3 => 54,
            LevelId::StonyTombLevel1 => 55,
            LevelId::HallsOfTheDeadLevel1 => 56,
            LevelId::HallsOfTheDeadLevel2 => 57,
            LevelId::ClawViperTempleLevel1 => 58,
            LevelId::StonyTombLevel2 => 59,
            LevelId::HallsOfTheDeadLevel3 => 60,
            LevelId::ClawViperTempleLevel2 => 61,
            LevelId::MaggotLairLevel1 => 62,
            LevelId::MaggotLairLevel2 => 63,
            LevelId::MaggotLairLevel3 => 64,
            LevelId::AncientTunnels => 65,
            LevelId::TalRashasTomblevel1 => 66,
            LevelId::TalRashasTomblevel2 => 67,
            LevelId::TalRashasTomblevel3 => 68,
            LevelId::TalRashasTomblevel4 => 69,
            LevelId::TalRashasTomblevel5 => 70,
            LevelId::TalRashasTomblevel6 => 71,
            LevelId::TalRashasTomblevel7 => 72,
            LevelId::DurielsLair => 73,
            LevelId::ArcaneSanctuary => 74,
            LevelId::KurastDocktown => 75,
            LevelId::SpiderForest => 76,
            LevelId::GreatMarsh => 77,
            LevelId::FlayerJungle => 78,
            LevelId::LowerKurast => 79,
            LevelId::KurastBazaar => 80,
            LevelId::UpperKurast => 81,
            LevelId::KurastCauseway => 82,
            LevelId::Travincal => 83,
            LevelId::SpiderCave => 84,
            LevelId::SpiderCavern => 85,
            LevelId::SwampyPitLevel1 => 86,
            LevelId::SwampyPitLevel2 => 87,
            LevelId::FlayerDungeonLevel1 => 88,
            LevelId::FlayerDungeonLevel2 => 89,
            LevelId::SwampyPitLevel3 => 90,
            LevelId::FlayerDungeonLevel3 => 91,
            LevelId::A3SewersLevel1 => 92,
            LevelId::A3SewersLevel2 => 93,
            LevelId::RuinedTemple => 94,
            LevelId::DisusedFane => 95,
            LevelId::ForgottenReliquary => 96,
            LevelId::ForgottenTemple => 97,
            LevelId::RuinedFane => 98,
            LevelId::DisusedReliquary => 99,
            LevelId::DuranceOfHateLevel1 => 100,
            LevelId::DuranceOfHateLevel2 => 101,
            LevelId::DuranceOfHateLevel3 => 102,
            LevelId::ThePandemoniumFortress => 103,
            LevelId::OuterSteppes => 104,
            LevelId::PlainsOfDespair => 105,
            LevelId::CityOfTheDamned => 106,
            LevelId::RiverOfFlame => 107,
            LevelId::ChaosSanctuary => 108,
            LevelId::Harrogath => 109,
            LevelId::BloodyFoothills => 110,
            LevelId::FrigidHighlands => 111,
            LevelId::ArreatPlateau => 112,
            LevelId::CrystalizedPassage => 113,
            LevelId::FrozenRiver => 114,
            LevelId::GlacialTrail => 115,
            LevelId::DrifterCavern => 116,
            LevelId::FrozenTundra => 117,
            LevelId::AncientsWay => 118,
            LevelId::IcyCellar => 119,
            LevelId::ArreatSummit => 120,
            LevelId::NihlathaksTemple => 121,
            LevelId::HallsOfAnguish => 122,
            LevelId::HallsOfPain => 123,
            LevelId::HallsOfVaught => 124,
            LevelId::Abaddon => 125,
            LevelId::PitOfAcheron => 126,
            LevelId::InfernalPit => 127,
            LevelId::TheWorldstoneKeepLevel1 => 128,
            LevelId::TheWorldstoneKeepLevel2 => 129,
            LevelId::TheWorldstoneKeepLevel3 => 130,
            LevelId::ThroneOfDestruction => 131,
            LevelId::TheWorldstoneChamber => 132,
            LevelId::MatronsDen => 133,
            LevelId::FogottenSands => 134,
            LevelId::FurnaceOfPain => 135,
            LevelId::Tristram2 => 136,
        }
    }

    /// Looks a location up by its numeric id. The result is the one location
    /// with that id, and `None` exactly when `id` is not below `LEVEL_COUNT`.
    pub fn from_id(id: u32) -> (level: Option<LevelId>)
        ensures
            match level {
                Some(l) => l.spec_id() == id,
                None => id >= LEVEL_COUNT,
            },
    {
        match id {
            0 => Some(LevelId::NoLevel),
            1 => Some(LevelId::RogueEncampment),
            2 => Some(LevelId::BloodMoor),
            3 => Some(LevelId::ColdPlains),
            4 => Some(LevelId::StonyField),
            5 => Some(LevelId::DarkWood),
            6 => Some(LevelId::BlackMarsh),
            7 => Some(LevelId::TamoeHighland),
            8 => Some(LevelId::DenOfEvil),
            9 => Some(LevelId::CaveLevel1),
            10 => Some(LevelId::UndergroundPassageLevel1),
            11 => Some(LevelId::HoleLevel1),
            12 => Some(LevelId::PitLevel1),
            13 => Some(LevelId::CaveLevel2),
            14 => Some(LevelId::UndergroundPassageLevel2),
            15 => Some(LevelId::HoleLevel2),
            16 => Some(LevelId::PitLevel2),
            17 => Some(LevelId::BurialGrounds),
            18 => Some(LevelId::Crypt),
            19 => Some(LevelId::Mausoleum),
            20 => Some(LevelId::ForgottenTower),
            21 => Some(LevelId::TowerCellarLevel1),
            22 => Some(LevelId::TowerCellarLevel2),
            23 => Some(LevelId::TowerCellarLevel3),
            24 => Some(LevelId::TowerCellarLevel4),
            25 => Some(LevelId::TowerCellarLevel5),
            26 => Some(LevelId::MonasteryGate),
            27 => Some(LevelId::OuterCloister),
            28 => Some(LevelId::Barracks),
            29 => Some(LevelId::JailLevel1),
            30 => Some(LevelId::JailLevel2),
            31 => Some(LevelId::JailLevel3),
            32 => Some(LevelId::InnerCloister),
            33 => Some(LevelId::Cathedral),
            34 => Some(LevelId::CatacombsLevel1),
            35 => Some(LevelId::CatacombsLevel2),
            36 => Some(LevelId::CatacombsLevel3),
            37 => Some(LevelId::CatacombsLevel4),
            38 => Some(LevelId::Tristram),
            39 => Some(LevelId::MooMooFarm),
            40 => Some(LevelId::LutGholein),
            41 => Some(LevelId::RockyWaste),
            42 => Some(LevelId::DryHills),
            43 => Some(LevelId::FarOasis),
            44 => Some(LevelId::LostCity),
            45 => Some(LevelId::ValleyOfSnakes),
            46 => Some(LevelId::CanyonOfTheMagi),
            47 => Some(LevelId::A2SewersLevel1),
            48 => Some(LevelId::A2SewersLevel2),
            49 => Some(LevelId::A2SewersLevel3),
            50 => Some(LevelId::HaremLevel1),
            51 => Some(LevelId::HaremLevel2),
            52 => Some(LevelId::PalaceCellarLevel1),
            53 => Some(LevelId::PalaceCellarLevel2),
            54 => Some(LevelId::PalaceCellarLevel3),
            55 => Some(LevelId::StonyTombLevel1),
            56 => Some(LevelId::HallsOfTheDeadLevel1),
            57 => Some(LevelId::HallsOfTheDeadLevel2),
            58 => Some(LevelId::ClawViperTempleLevel1),
            59 => Some(LevelId::StonyTombLevel2),
            60 => Some(LevelId::HallsOfTheDeadLevel3),
            61 => Some(LevelId::ClawViperTempleLevel2),
            62 => Some(LevelId::MaggotLairLevel1),
            63 => Some(LevelId::MaggotLairLevel2),
            64 => Some(LevelId::MaggotLairLevel3),
            65 => Some(LevelId::AncientTunnels),
            66 => Some(LevelId::TalRashasTomblevel1),
            67 => Some(LevelId::TalRashasTomblevel2),
            68 => Some(LevelId::TalRashasTomblevel3),
            69 => Some(LevelId::TalRashasTomblevel4),
            70 => Some(LevelId::TalRashasTomblevel5),
            71 => Some(LevelId::TalRashasTomblevel6),
            72 => Some(LevelId::TalRashasTomblevel7),
            73 => Some(LevelId::DurielsLair),
            74 => Some(LevelId::ArcaneSanctuary),
            75 => Some(LevelId::KurastDocktown),
            76 => Some(LevelId::SpiderForest),
            77 => Some(LevelId::GreatMarsh),
            78 => Some(LevelId::FlayerJungle),
            79 => Some(LevelId::LowerKurast),
            80 => Some(LevelId::KurastBazaar),
            81 => Some(LevelId::UpperKurast),
            82 => Some(LevelId::KurastCauseway),
            83 => Some(LevelId::Travincal),
            84 => Some(LevelId::SpiderCave),
            85 => Some(LevelId::SpiderCavern),
            86 => Some(LevelId::SwampyPitLevel1),
            87 => Some(LevelId::SwampyPitLevel2),
            88 => Some(LevelId::FlayerDungeonLevel1),
            89 => Some(LevelId::FlayerDungeonLevel2),
            90 => Some(LevelId::SwampyPitLevel3),
            91 => Some(LevelId::FlayerDungeonLevel3),
            92 => Some(LevelId::A3SewersLevel1),
            93 => Some(LevelId::A3SewersLevel2),
            94 => Some(LevelId::RuinedTemple),
            95 => Some(LevelId::DisusedFane),
            96 => Some(LevelId::ForgottenReliquary),
            97 => Some(LevelId::ForgottenTemple),
            98 => Some(LevelId::RuinedFane),
            99 => Some(LevelId::DisusedReliquary),
            100 => Some(LevelId::DuranceOfHateLevel1),
            101 => Some(LevelId::DuranceOfHateLevel2),
            102 => Some(LevelId::DuranceOfHateLevel3),
            103 => Some(LevelId::ThePandemoniumFortress),
            104 => Some(LevelId::OuterSteppes),
            105 => Some(LevelId::PlainsOfDespair),
            106 => Some(LevelId::CityOfTheDamned),
            107 => Some(LevelId::RiverOfFlame),
            108 => Some(LevelId::ChaosSanctuary),
            109 => Some(LevelId::Harrogath),
            110 => Some(LevelId::BloodyFoothills),
            111 => Some(LevelId::FrigidHighlands),
            112 => Some(LevelId::ArreatPlateau),
            113 => Some(LevelId::CrystalizedPassage),
            114 => Some(LevelId::FrozenRiver),
            115 => Some(LevelId::GlacialTrail),
            116 => Some(LevelId::DrifterCavern),
            117 => Some(LevelId::FrozenTundra),
            118 => Some(LevelId::AncientsWay),
            119 => Some(LevelId::IcyCellar),
            120 => Some(LevelId::ArreatSummit),
            121 => Some(LevelId::NihlathaksTemple),
            122 => Some(LevelId::HallsOfAnguish),
            123 => Some(LevelId::HallsOfPain),
            124 => Some(LevelId::HallsOfVaught),
            125 => Some(LevelId::Abaddon),
            126 => Some(LevelId::PitOfAcheron),
            127 => Some(LevelId::InfernalPit),
            128 => Some(LevelId::TheWorldstoneKeepLevel1),
            129 => Some(LevelId::TheWorldstoneKeepLevel2),
            130 => Some(LevelId::TheWorldstoneKeepLevel3),
            131 => Some(LevelId::ThroneOfDestruction),
            132 => Some(LevelId::TheWorldstoneChamber),
            133 => Some(LevelId::MatronsDen),
            134 => Some(LevelId::FogottenSands),
            135 => Some(LevelId::FurnaceOfPain),
            136 => Some(LevelId::Tristram2),
            _ => None,
        }
    }

    /// Every location's numeric id is below `LEVEL_COUNT`, and distinct
    /// locations have distinct ids.
    pub proof fn lemma_id_injective(a: LevelId, b: LevelId)
        ensures
            a.spec_id() < LEVEL_COUNT,
            a.spec_id() == b.spec_id() ==> a == b,
    {
    }
}

} // verus!
