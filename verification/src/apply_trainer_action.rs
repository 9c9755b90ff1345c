use vstd::prelude::*;

use crate::apply_action_helpers::two_pow;
use crate::card_ids::CardId;
use crate::models::{Card, EnergyType, PlayedCard, TrainerCard, TrainerType};
use crate::outcomes::{
    coin_paths_view, until_tails_path, geometric_weight, lemma_weight_sum_prefix, outcomes_view, total_weight, weight_sum, Branch, Outcomes,
};
use crate::state::{SimpleAction, State, StateView};

verus! {

/// What a Trainer card does once it resolves, as plain data.
#[derive(Clone, Copy, Debug, PartialEq, Eq, Structural)]
pub enum TrainerEffect {
    /// Nothing happens (cards that only let a player look at something, or no target).
    Nothing,
    /// A Pokémon Tool is attached.
    AttachTool,
    Potion,
    XSpeed,
    RedCard,
    ProfessorOak,
    Erika,
    Blaine,
    Cynthia,
    Brock,
    Irida,
    PokemonCenterLady,
    Lillie,
    Guzma,
    Koga,
    Giovanni,
    Red,
    Sabrina,
    MythicalSlab,
    Leaf,
    Cyrus,
    Lana,
    Mars,
    RareCandy,
    Repel,
    PokemonCommunication,
    Dawn,
    ElementalSwitch,
    Lusamine,
    Ilima,
    Mallow,
    Kiawe,
    Lyra,
    Will,
    Jasmine,
    Silver,
    EeveeBag,
    FlamePatch,
    Volkner,
    Copycat,
    Iono,
    Marlon,
    Fantina,
    Barry,
    Adaman,
    Diantha,
    Piers,
    ClemontsBackpack,
    Nemona,
    Team,
    Maintenance,
    Iris,
    Calem,
    NastyNotice,
    Hau,
    BigMalasada,
    FieldBlower,
    Korrina,
    Cheren,
    ProfessorSada,
    Elesa,
    Skyla,
    Wally,
    Psychic,
    Drayden,
    TeamRocketsGoozooka,
    TeamRocketsBoss,
    PokemonFlute,
    LtSurge,
    Juggler,
    BeastWall,
    PrankSpinner,
    Hala,
    Acerola,
    Sophocles,
    Whitney,
    TravelingMerchant,
    BuddingExpeditioner,
    Blue,
    SquirtBottle,
    /// Misty: attach `heads` [W] Energy to one of your [W] Pokémon.
    MistyAttachWater { heads: u32 },
    /// Electric Generator, heads: attach a [L] Energy to one of your Benched [L] Pokémon.
    ElectricGeneratorAttach,
    /// Team Rocket Grunt: discard a random Energy from the opponent's Active Pokémon, `heads`
    /// times.
    TeamRocketGruntDiscard { heads: u32 },
    /// Team Rocket's Master Plan, heads: the opponent's Active Pokémon is Confused.
    MasterPlanOpponentConfused,
    /// Team Rocket's Master Plan, tails: both Active Pokémon are Confused.
    MasterPlanBothConfused,
    /// Team Rocket's Researcher: take `heads` "Team Rocket" cards from your deck, then shuffle.
    RocketsResearcherTake { heads: u32 },
    /// Hitting Hammer: discard a random Energy from the opponent's Active Pokémon.
    HittingHammerDiscard,
    /// Lucky Ice Pop: heal 20 from your Active Pokémon; on heads the card returns to your hand.
    LuckyIcePop { back_to_hand: bool },
    /// May with no Pokémon in the deck: the deck is shuffled.
    MayShuffle,
    /// May: these Pokémon go from the deck to the hand, then as many are chosen to shuffle back.
    MayDraw { first: CardId, second: Option<CardId> },
    /// A card with this identifier goes from a discard pile (the opponent's, or your own) to
    /// your hand.
    TakeFromDiscard { from_opponent: bool, card: CardId },
    /// Fisher: `heads` random [W] Pokémon go from your discard pile to your hand.
    FisherReturn { heads: u32 },
    /// Parasol Lady: choose one of the marked in-play slots to return to your hand.
    ChooseReturnToHand { slots: SlotMask },
    /// A search of your deck for a random Item card (Order Pad and Arven on heads).
    ItemSearch,
    /// A search of your deck for a random Pokémon Tool card (Arven on tails).
    ToolSearch,
    /// A search of your deck done by the deck-search rules of the named card.
    DeckSearch { kind: DeckSearchKind },
    /// Professor Turo: choose one of your Future Pokémon in play to shuffle into your deck.
    ProfessorTuro,
    /// Sightseer: look at the top 4 cards of your deck, take the Stage 1 Pokémon, shuffle.
    SightseerLook,
    /// Puppy-Loving Girl: look at the top 4 cards of your deck, take the Pokémon with the
    /// Puppy Pile attack, shuffle.
    PuppyLovingGirlLook,
}

/// The effect of a Trainer card that always resolves the same way, by its identifier.
pub open spec fn fixed_trainer_effect(id: CardId) -> Option<TrainerEffect> {
    match id {
        CardId::PA001Potion => Some(TrainerEffect::Potion),
        CardId::PA002XSpeed => Some(TrainerEffect::XSpeed),
        CardId::PA006RedCard => Some(TrainerEffect::RedCard),
        CardId::PA007ProfessorsResearch | CardId::A4b373ProfessorsResearch => Some(TrainerEffect::ProfessorOak),
        CardId::A1219Erika | CardId::A1266Erika | CardId::A4b328Erika | CardId::A4b329Erika => Some(TrainerEffect::Erika),
        CardId::A1221Blaine | CardId::A1268Blaine => Some(TrainerEffect::Blaine),
        CardId::A2152Cynthia | CardId::A2192Cynthia => Some(TrainerEffect::Cynthia),
        CardId::A1224Brock | CardId::A1271Brock => Some(TrainerEffect::Brock),
        CardId::A2a072Irida | CardId::A2a087Irida | CardId::A4b330Irida | CardId::A4b331Irida => Some(TrainerEffect::Irida),
        CardId::A2b070PokemonCenterLady | CardId::A2b089PokemonCenterLady => Some(TrainerEffect::PokemonCenterLady),
        CardId::A3155Lillie | CardId::A3197Lillie | CardId::A3209Lillie | CardId::A4b348Lillie | CardId::A4b349Lillie | CardId::A4b374Lillie => Some(TrainerEffect::Lillie),
        CardId::A3151Guzma | CardId::A3193Guzma | CardId::A3208Guzma => Some(TrainerEffect::Guzma),
        CardId::A1222Koga | CardId::A1269Koga => Some(TrainerEffect::Koga),
        CardId::A1223Giovanni | CardId::A1270Giovanni | CardId::A4b334Giovanni | CardId::A4b335Giovanni => Some(TrainerEffect::Giovanni),
        CardId::A2b071Red | CardId::A2b090Red | CardId::A4b352Red | CardId::A4b353Red => Some(TrainerEffect::Red),
        CardId::A1225Sabrina | CardId::A1272Sabrina | CardId::A4b338Sabrina | CardId::A4b339Sabrina => Some(TrainerEffect::Sabrina),
        CardId::A1a065MythicalSlab => Some(TrainerEffect::MythicalSlab),
        CardId::A1a068Leaf | CardId::A1a082Leaf | CardId::A4b346Leaf | CardId::A4b347Leaf => Some(TrainerEffect::Leaf),
        CardId::A2150Cyrus | CardId::A2190Cyrus | CardId::A4b326Cyrus | CardId::A4b327Cyrus => Some(TrainerEffect::Cyrus),
        CardId::A3152Lana | CardId::A3194Lana => Some(TrainerEffect::Lana),
        CardId::A2155Mars | CardId::A2195Mars | CardId::A4b344Mars | CardId::A4b345Mars => Some(TrainerEffect::Mars),
        CardId::A3144RareCandy | CardId::A4b314RareCandy | CardId::A4b315RareCandy | CardId::A4b379RareCandy => Some(TrainerEffect::RareCandy),
        CardId::A3a064Repel => Some(TrainerEffect::Repel),
        CardId::A2146PokemonCommunication | CardId::A4b316PokemonCommunication | CardId::A4b317PokemonCommunication => Some(TrainerEffect::PokemonCommunication),
        CardId::A2154Dawn | CardId::A2194Dawn | CardId::A4b342Dawn | CardId::A4b343Dawn => Some(TrainerEffect::Dawn),
        CardId::A4151ElementalSwitch | CardId::A4b310ElementalSwitch | CardId::A4b311ElementalSwitch => Some(TrainerEffect::ElementalSwitch),
        CardId::A3a069Lusamine | CardId::A3a083Lusamine | CardId::A4b350Lusamine | CardId::A4b351Lusamine | CardId::A4b375Lusamine => Some(TrainerEffect::Lusamine),
        CardId::A3149Ilima | CardId::A3191Ilima => Some(TrainerEffect::Ilima),
        CardId::A3154Mallow | CardId::A3196Mallow => Some(TrainerEffect::Mallow),
        CardId::A3150Kiawe | CardId::A3192Kiawe => Some(TrainerEffect::Kiawe),
        CardId::A4157Lyra | CardId::A4197Lyra | CardId::A4b332Lyra | CardId::A4b333Lyra => Some(TrainerEffect::Lyra),
        CardId::A4156Will | CardId::A4196Will => Some(TrainerEffect::Will),
        CardId::A4160Jasmine | CardId::A4200Jasmine => Some(TrainerEffect::Jasmine),
        CardId::A4158Silver | CardId::A4198Silver | CardId::A4b336Silver | CardId::A4b337Silver => Some(TrainerEffect::Silver),
        CardId::A3b066EeveeBag | CardId::A3b107EeveeBag | CardId::A4b308EeveeBag | CardId::A4b309EeveeBag => Some(TrainerEffect::EeveeBag),
        CardId::B1217FlamePatch | CardId::B1331FlamePatch => Some(TrainerEffect::FlamePatch),
        CardId::A2153Volkner | CardId::A2193Volkner => Some(TrainerEffect::Volkner),
        CardId::B1225Copycat | CardId::B1270Copycat => Some(TrainerEffect::Copycat),
        CardId::A2b069Iono | CardId::A2b088Iono | CardId::A4b340Iono | CardId::A4b341Iono | CardId::B2a089Iono | CardId::B2a106Iono => Some(TrainerEffect::Iono),
        CardId::B1221Marlon | CardId::B1266Marlon => Some(TrainerEffect::Marlon),
        CardId::B1224Fantina | CardId::B1269Fantina => Some(TrainerEffect::Fantina),
        CardId::A2a074Barry | CardId::A2a089Barry => Some(TrainerEffect::Barry),
        CardId::A2a075Adaman | CardId::A2a090Adaman => Some(TrainerEffect::Adaman),
        CardId::B2149Diantha | CardId::B2190Diantha => Some(TrainerEffect::Diantha),
        CardId::B2152Piers | CardId::B2193Piers => Some(TrainerEffect::Piers),
        CardId::B1a066ClemontsBackpack => Some(TrainerEffect::ClemontsBackpack),
        CardId::B2a090Nemona | CardId::B2a107Nemona => Some(TrainerEffect::Nemona),
        CardId::B2a088TeamStarGrunt | CardId::B2a105TeamStarGrunt => Some(TrainerEffect::Team),
        CardId::B2b066Maintenance => Some(TrainerEffect::Maintenance),
        CardId::B2b067Iris | CardId::B2b081Iris => Some(TrainerEffect::Iris),
        CardId::B2b068Calem | CardId::B2b082Calem => Some(TrainerEffect::Calem),
        CardId::B2b065NastyNotice => Some(TrainerEffect::NastyNotice),
        CardId::A3b068Hau | CardId::A3b085Hau => Some(TrainerEffect::Hau),
        CardId::A3142BigMalasada => Some(TrainerEffect::BigMalasada),
        CardId::B3147FieldBlower => Some(TrainerEffect::FieldBlower),
        CardId::B3149Korrina | CardId::B3190Korrina => Some(TrainerEffect::Korrina),
        CardId::B3151Cheren | CardId::B3192Cheren => Some(TrainerEffect::Cheren),
        CardId::B3a072ProfessorSada | CardId::B3a087ProfessorSada => Some(TrainerEffect::ProfessorSada),
        CardId::B3b066Elesa | CardId::B3b083Elesa => Some(TrainerEffect::Elesa),
        CardId::B4152Skyla | CardId::B4192Skyla => Some(TrainerEffect::Skyla),
        CardId::B4153Wally | CardId::B4193Wally => Some(TrainerEffect::Wally),
        CardId::B4150Psychic | CardId::B4190Psychic => Some(TrainerEffect::Psychic),
        CardId::B4151Drayden | CardId::B4191Drayden => Some(TrainerEffect::Drayden),
        CardId::B4a068TeamRocketsGoozooka | CardId::B4a110TeamRocketsGoozooka => Some(TrainerEffect::TeamRocketsGoozooka),
        CardId::B4a071TeamRocketsBoss | CardId::B4a087TeamRocketsBoss => Some(TrainerEffect::TeamRocketsBoss),
        CardId::A1a064PokemonFlute => Some(TrainerEffect::PokemonFlute),
        CardId::A1226LtSurge | CardId::A1273LtSurge => Some(TrainerEffect::LtSurge),
        CardId::B2151Juggler | CardId::B2192Juggler => Some(TrainerEffect::Juggler),
        CardId::A3a063BeastWall => Some(TrainerEffect::BeastWall),
        CardId::B1213PrankSpinner => Some(TrainerEffect::PrankSpinner),
        CardId::B1222Hala | CardId::B1267Hala => Some(TrainerEffect::Hala),
        CardId::A3148Acerola | CardId::A3190Acerola => Some(TrainerEffect::Acerola),
        CardId::A3153Sophocles | CardId::A3195Sophocles => Some(TrainerEffect::Sophocles),
        CardId::A4a069Whitney | CardId::A4a083Whitney => Some(TrainerEffect::Whitney),
        CardId::A4a070TravelingMerchant | CardId::A4a084TravelingMerchant => Some(TrainerEffect::TravelingMerchant),
        CardId::A1a066BuddingExpeditioner | CardId::A1a080BuddingExpeditioner => Some(TrainerEffect::BuddingExpeditioner),
        CardId::A1a067Blue | CardId::A1a081Blue => Some(TrainerEffect::Blue),
        CardId::A4152SquirtBottle => Some(TrainerEffect::SquirtBottle),
        CardId::A3145RotomDEx | CardId::A3a068Looker | CardId::A3a082Looker | CardId::A4161Hiker | CardId::A4201Hiker | CardId::A4a071Morty | CardId::A4a085Morty | CardId::PA003HandScope | CardId::PA004PokedEx | CardId::PA008PokedEx => Some(TrainerEffect::Nothing),
        _ => None,
    }
}

/// The effect of a Trainer card that always resolves the same way, by its identifier.
fn fixed_trainer_effect_exec(id: CardId) -> (r: Option<TrainerEffect>)
    ensures
        r == fixed_trainer_effect(id),
{
    match id {
        CardId::PA001Potion => Some(TrainerEffect::Potion),
        CardId::PA002XSpeed => Some(TrainerEffect::XSpeed),
        CardId::PA006RedCard => Some(TrainerEffect::RedCard),
        CardId::PA007ProfessorsResearch | CardId::A4b373ProfessorsResearch => Some(TrainerEffect::ProfessorOak),
        CardId::A1219Erika | CardId::A1266Erika | CardId::A4b328Erika | CardId::A4b329Erika => Some(TrainerEffect::Erika),
        CardId::A1221Blaine | CardId::A1268Blaine => Some(TrainerEffect::Blaine),
        CardId::A2152Cynthia | CardId::A2192Cynthia => Some(TrainerEffect::Cynthia),
        CardId::A1224Brock | CardId::A1271Brock => Some(TrainerEffect::Brock),
        CardId::A2a072Irida | CardId::A2a087Irida | CardId::A4b330Irida | CardId::A4b331Irida => Some(TrainerEffect::Irida),
        CardId::A2b070PokemonCenterLady | CardId::A2b089PokemonCenterLady => Some(TrainerEffect::PokemonCenterLady),
        CardId::A3155Lillie | CardId::A3197Lillie | CardId::A3209Lillie | CardId::A4b348Lillie | CardId::A4b349Lillie | CardId::A4b374Lillie => Some(TrainerEffect::Lillie),
        CardId::A3151Guzma | CardId::A3193Guzma | CardId::A3208Guzma => Some(TrainerEffect::Guzma),
        CardId::A1222Koga | CardId::A1269Koga => Some(TrainerEffect::Koga),
        CardId::A1223Giovanni | CardId::A1270Giovanni | CardId::A4b334Giovanni | CardId::A4b335Giovanni => Some(TrainerEffect::Giovanni),
        CardId::A2b071Red | CardId::A2b090Red | CardId::A4b352Red | CardId::A4b353Red => Some(TrainerEffect::Red),
        CardId::A1225Sabrina | CardId::A1272Sabrina | CardId::A4b338Sabrina | CardId::A4b339Sabrina => Some(TrainerEffect::Sabrina),
        CardId::A1a065MythicalSlab => Some(TrainerEffect::MythicalSlab),
        CardId::A1a068Leaf | CardId::A1a082Leaf | CardId::A4b346Leaf | CardId::A4b347Leaf => Some(TrainerEffect::Leaf),
        CardId::A2150Cyrus | CardId::A2190Cyrus | CardId::A4b326Cyrus | CardId::A4b327Cyrus => Some(TrainerEffect::Cyrus),
        CardId::A3152Lana | CardId::A3194Lana => Some(TrainerEffect::Lana),
        CardId::A2155Mars | CardId::A2195Mars | CardId::A4b344Mars | CardId::A4b345Mars => Some(TrainerEffect::Mars),
        CardId::A3144RareCandy | CardId::A4b314RareCandy | CardId::A4b315RareCandy | CardId::A4b379RareCandy => Some(TrainerEffect::RareCandy),
        CardId::A3a064Repel => Some(TrainerEffect::Repel),
        CardId::A2146PokemonCommunication | CardId::A4b316PokemonCommunication | CardId::A4b317PokemonCommunication => Some(TrainerEffect::PokemonCommunication),
        CardId::A2154Dawn | CardId::A2194Dawn | CardId::A4b342Dawn | CardId::A4b343Dawn => Some(TrainerEffect::Dawn),
        CardId::A4151ElementalSwitch | CardId::A4b310ElementalSwitch | CardId::A4b311ElementalSwitch => Some(TrainerEffect::ElementalSwitch),
        CardId::A3a069Lusamine | CardId::A3a083Lusamine | CardId::A4b350Lusamine | CardId::A4b351Lusamine | CardId::A4b375Lusamine => Some(TrainerEffect::Lusamine),
        CardId::A3149Ilima | CardId::A3191Ilima => Some(TrainerEffect::Ilima),
        CardId::A3154Mallow | CardId::A3196Mallow => Some(TrainerEffect::Mallow),
        CardId::A3150Kiawe | CardId::A3192Kiawe => Some(TrainerEffect::Kiawe),
        CardId::A4157Lyra | CardId::A4197Lyra | CardId::A4b332Lyra | CardId::A4b333Lyra => Some(TrainerEffect::Lyra),
        CardId::A4156Will | CardId::A4196Will => Some(TrainerEffect::Will),
        CardId::A4160Jasmine | CardId::A4200Jasmine => Some(TrainerEffect::Jasmine),
        CardId::A4158Silver | CardId::A4198Silver | CardId::A4b336Silver | CardId::A4b337Silver => Some(TrainerEffect::Silver),
        CardId::A3b066EeveeBag | CardId::A3b107EeveeBag | CardId::A4b308EeveeBag | CardId::A4b309EeveeBag => Some(TrainerEffect::EeveeBag),
        CardId::B1217FlamePatch | CardId::B1331FlamePatch => Some(TrainerEffect::FlamePatch),
        CardId::A2153Volkner | CardId::A2193Volkner => Some(TrainerEffect::Volkner),
        CardId::B1225Copycat | CardId::B1270Copycat => Some(TrainerEffect::Copycat),
        CardId::A2b069Iono | CardId::A2b088Iono | CardId::A4b340Iono | CardId::A4b341Iono | CardId::B2a089Iono | CardId::B2a106Iono => Some(TrainerEffect::Iono),
        CardId::B1221Marlon | CardId::B1266Marlon => Some(TrainerEffect::Marlon),
        CardId::B1224Fantina | CardId::B1269Fantina => Some(TrainerEffect::Fantina),
        CardId::A2a074Barry | CardId::A2a089Barry => Some(TrainerEffect::Barry),
        CardId::A2a075Adaman | CardId::A2a090Adaman => Some(TrainerEffect::Adaman),
        CardId::B2149Diantha | CardId::B2190Diantha => Some(TrainerEffect::Diantha),
        CardId::B2152Piers | CardId::B2193Piers => Some(TrainerEffect::Piers),
        CardId::B1a066ClemontsBackpack => Some(TrainerEffect::ClemontsBackpack),
        CardId::B2a090Nemona | CardId::B2a107Nemona => Some(TrainerEffect::Nemona),
        CardId::B2a088TeamStarGrunt | CardId::B2a105TeamStarGrunt => Some(TrainerEffect::Team),
        CardId::B2b066Maintenance => Some(TrainerEffect::Maintenance),
        CardId::B2b067Iris | CardId::B2b081Iris => Some(TrainerEffect::Iris),
        CardId::B2b068Calem | CardId::B2b082Calem => Some(TrainerEffect::Calem),
        CardId::B2b065NastyNotice => Some(TrainerEffect::NastyNotice),
        CardId::A3b068Hau | CardId::A3b085Hau => Some(TrainerEffect::Hau),
        CardId::A3142BigMalasada => Some(TrainerEffect::BigMalasada),
        CardId::B3147FieldBlower => Some(TrainerEffect::FieldBlower),
        CardId::B3149Korrina | CardId::B3190Korrina => Some(TrainerEffect::Korrina),
        CardId::B3151Cheren | CardId::B3192Cheren => Some(TrainerEffect::Cheren),
        CardId::B3a072ProfessorSada | CardId::B3a087ProfessorSada => Some(TrainerEffect::ProfessorSada),
        CardId::B3b066Elesa | CardId::B3b083Elesa => Some(TrainerEffect::Elesa),
        CardId::B4152Skyla | CardId::B4192Skyla => Some(TrainerEffect::Skyla),
        CardId::B4153Wally | CardId::B4193Wally => Some(TrainerEffect::Wally),
        CardId::B4150Psychic | CardId::B4190Psychic => Some(TrainerEffect::Psychic),
        CardId::B4151Drayden | CardId::B4191Drayden => Some(TrainerEffect::Drayden),
        CardId::B4a068TeamRocketsGoozooka | CardId::B4a110TeamRocketsGoozooka => Some(TrainerEffect::TeamRocketsGoozooka),
        CardId::B4a071TeamRocketsBoss | CardId::B4a087TeamRocketsBoss => Some(TrainerEffect::TeamRocketsBoss),
        CardId::A1a064PokemonFlute => Some(TrainerEffect::PokemonFlute),
        CardId::A1226LtSurge | CardId::A1273LtSurge => Some(TrainerEffect::LtSurge),
        CardId::B2151Juggler | CardId::B2192Juggler => Some(TrainerEffect::Juggler),
        CardId::A3a063BeastWall => Some(TrainerEffect::BeastWall),
        CardId::B1213PrankSpinner => Some(TrainerEffect::PrankSpinner),
        CardId::B1222Hala | CardId::B1267Hala => Some(TrainerEffect::Hala),
        CardId::A3148Acerola | CardId::A3190Acerola => Some(TrainerEffect::Acerola),
        CardId::A3153Sophocles | CardId::A3195Sophocles => Some(TrainerEffect::Sophocles),
        CardId::A4a069Whitney | CardId::A4a083Whitney => Some(TrainerEffect::Whitney),
        CardId::A4a070TravelingMerchant | CardId::A4a084TravelingMerchant => Some(TrainerEffect::TravelingMerchant),
        CardId::A1a066BuddingExpeditioner | CardId::A1a080BuddingExpeditioner => Some(TrainerEffect::BuddingExpeditioner),
        CardId::A1a067Blue | CardId::A1a081Blue => Some(TrainerEffect::Blue),
        CardId::A4152SquirtBottle => Some(TrainerEffect::SquirtBottle),
        CardId::A3145RotomDEx | CardId::A3a068Looker | CardId::A3a082Looker | CardId::A4161Hiker | CardId::A4201Hiker | CardId::A4a071Morty | CardId::A4a085Morty | CardId::PA003HandScope | CardId::PA004PokedEx | CardId::PA008PokedEx => Some(TrainerEffect::Nothing),
        _ => None,
    }
}

/// A mark on each of a side's four in-play slots: the Active Spot and three Bench slots.
#[derive(Clone, Copy, Debug, PartialEq, Eq, Structural)]
pub struct SlotMask {
    pub active: bool,
    pub bench1: bool,
    pub bench2: bool,
    pub bench3: bool,
}

/// The deck searches that a Trainer card asks for.
#[derive(Clone, Copy, Debug, PartialEq, Eq, Structural)]
pub enum DeckSearchKind {
    /// Poké Ball: a random Basic Pokémon.
    PokeBall,
    /// Gladion: Type: Null or Silvally.
    Gladion,
    /// Lisia: 2 random Basic Pokémon with 50 HP or less.
    Lisia,
    /// Clemont: 2 random cards among Magneton, Heliolisk and Clemont's Backpack.
    Clemont,
    /// Serena: a random Mega Evolution Pokémon ex.
    Serena,
    /// Cabbie: a random Stadium card.
    Cabbie,
    /// Juliana: a random Stage 2 Pokémon.
    Juliana,
    /// Team Galactic Grunt: a random Glameow, Stunky or Croagunk.
    TeamGalacticGrunt,
    /// Quick-Grow Extract: a random Pokémon that evolves from one of yours in play.
    QuickGrowExtract,
    /// Wallace: a random candidate chosen by Wallace's rules.
    Wallace,
}

/// Which cards of a pile a Trainer card is interested in.
#[derive(Clone, Copy, Debug, PartialEq, Eq, Structural)]
pub enum CardFilter {
    /// Any Pokémon.
    Pokemon,
    /// A Basic Pokémon.
    Basic,
    /// A Basic [W] Pokémon.
    BasicWater,
    /// A [W] Pokémon.
    Water,
    /// An Item card other than Team Rocket's Thieving Machine.
    ItemToSteal,
}

/// Whether `c` passes `f`.
pub open spec fn filter_holds(f: CardFilter, c: Card) -> bool {
    match f {
        CardFilter::Pokemon => c is Pokemon,
        CardFilter::Basic => c.is_basic_spec(),
        CardFilter::BasicWater => c.is_basic_spec() && c.energy_type_spec() == Some(EnergyType::Water),
        CardFilter::Water => c.energy_type_spec() == Some(EnergyType::Water),
        CardFilter::ItemToSteal => match c {
            Card::Trainer(t) => t.trainer_card_type == TrainerType::Item && t.id
                != CardId::B4a067TeamRocketsThievingMachine,
            Card::Pokemon(_) => false,
        },
    }
}

/// Whether `c` passes `f`.
pub(crate) fn filter_holds_exec(f: CardFilter, c: &Card) -> (r: bool)
    ensures
        r == filter_holds(f, *c),
{
    match f {
        CardFilter::Pokemon => matches!(c, Card::Pokemon(_)),
        CardFilter::Basic => c.is_basic(),
        CardFilter::BasicWater => {
            let is_water = match c.energy_type() {
                Some(t) => t == EnergyType::Water,
                None => false,
            };
            c.is_basic() && is_water
        },
        CardFilter::Water => match c.energy_type() {
            Some(t) => t == EnergyType::Water,
            None => false,
        },
        CardFilter::ItemToSteal => match c {
            Card::Trainer(t) => t.trainer_card_type == TrainerType::Item && t.id
                != CardId::B4a067TeamRocketsThievingMachine,
            Card::Pokemon(_) => false,
        },
    }
}

/// The identifiers of the cards among the first `n` of `cards` that pass `f`, in order.
pub open spec fn ids_where(cards: Seq<Card>, f: CardFilter, n: int) -> Seq<CardId>
    decreases n,
{
    if n <= 0 {
        Seq::empty()
    } else {
        let prev = ids_where(cards, f, n - 1);
        if filter_holds(f, cards[n - 1]) {
            prev.push(cards[n - 1].id_spec())
        } else {
            prev
        }
    }
}

/// The identifiers of the cards of a pile that pass `f`, in order.
pub open spec fn pile_ids(cards: Seq<Card>, f: CardFilter) -> Seq<CardId> {
    ids_where(cards, f, cards.len() as int)
}

/// The identifiers of the cards of `cards` that pass `f`, in order.
fn matching_ids(cards: &Vec<Card>, f: CardFilter) -> (r: Vec<CardId>)
    ensures
        r@ == pile_ids(cards@, f),
        r@.len() <= cards@.len(),
{
    let mut r: Vec<CardId> = Vec::new();
    let mut i: usize = 0;
    while i < cards.len()
        invariant
            i <= cards@.len(),
            r@ == ids_where(cards@, f, i as int),
            r@.len() <= i,
        decreases cards@.len() - i,
    {
        if filter_holds_exec(f, &cards[i]) {
            r.push(cards[i].id());
        }
        i = i + 1;
    }
    r
}

/// A distribution with one sure result, as plain values.
pub open spec fn single_view(e: TrainerEffect) -> (int, Seq<(int, TrainerEffect)>) {
    (1, seq![(1int, e)])
}

/// Equally likely results, as plain values.
pub open spec fn uniform_view(es: Seq<TrainerEffect>) -> (int, Seq<(int, TrainerEffect)>) {
    (es.len() as int, es.map_values(|e: TrainerEffect| (1int, e)))
}

/// Taking one of `ids` (equally likely) from a discard pile; nothing when there is none.
pub open spec fn take_from_discard_view(ids: Seq<CardId>, from_opponent: bool) -> (
    int,
    Seq<(int, TrainerEffect)>,
) {
    if ids.len() == 0 {
        single_view(TrainerEffect::Nothing)
    } else {
        uniform_view(
            ids.map_values(
                |id: CardId| TrainerEffect::TakeFromDiscard { from_opponent, card: id },
            ),
        )
    }
}

/// The unordered pairs of positions `(i, j)`, `i < j`, of `ids` with `i` below `n`, in
/// lexicographic order, as the pairs of cards they name.
pub open spec fn pairs_upto(ids: Seq<CardId>, n: int) -> Seq<(CardId, CardId)>
    decreases n,
{
    if n <= 0 {
        Seq::empty()
    } else {
        pairs_upto(ids, n - 1) + pair_row(ids, n - 1)
    }
}

/// The pairs `(ids[i], ids[j])` for every `j > i`, in order.
pub open spec fn pair_row(ids: Seq<CardId>, i: int) -> Seq<(CardId, CardId)> {
    Seq::new((ids.len() - i - 1) as nat, |k: int| (ids[i], ids[i + 1 + k]))
}

/// May: "Put 2 random Pokémon from your deck into your hand. For each Pokémon you put into
/// your hand in this way, choose a Pokémon to shuffle from your hand into your deck."
pub open spec fn may_view(actor: usize, s: StateView) -> (int, Seq<(int, TrainerEffect)>) {
    let ids = pile_ids(s.decks[actor as int], CardFilter::Pokemon);
    if ids.len() == 0 {
        single_view(TrainerEffect::MayShuffle)
    } else if ids.len() == 1 {
        single_view(TrainerEffect::MayDraw { first: ids[0], second: None })
    } else {
        uniform_view(
            pairs_upto(ids, ids.len() as int).map_values(
                |p: (CardId, CardId)| TrainerEffect::MayDraw { first: p.0, second: Some(p.1) },
            ),
        )
    }
}

/// The coin flips behind each branch of a forecast, as plain values (`None` where they are
/// not recorded).
pub open spec fn coins_view(o: Outcomes<TrainerEffect>) -> Seq<Option<Seq<Seq<bool>>>> {
    o.branches@.map_values(|b: Branch<TrainerEffect>| coin_paths_view(b.coin_paths))
}

/// `n` branches that record no coin flips.
pub open spec fn untracked(n: int) -> Seq<Option<Seq<Seq<bool>>>> {
    Seq::new(n as nat, |i: int| None)
}

/// The coin flips of one coin: heads, then tails.
pub open spec fn one_coin_paths() -> Seq<Option<Seq<Seq<bool>>>> {
    seq![Some(seq![seq![true]]), Some(seq![seq![false]])]
}

/// The coin flips of "flip until tails" with at most 5 heads, for 0 to 5 heads.
pub open spec fn until_tails_paths() -> Seq<Option<Seq<Seq<bool>>>> {
    Seq::new(6, |h: int| Some(seq![until_tails_path(5, h as nat)]))
}

/// The coin flips recorded by a distribution Trainer card's forecast.
pub open spec fn distribution_coins(actor: usize, s: StateView, id: CardId) -> Seq<Option<Seq<Seq<bool>>>> {
    match id {
        CardId::A1220Misty | CardId::A1267Misty | CardId::A2b072TeamRocketGrunt | CardId::A2b091TeamRocketGrunt
        | CardId::B4a069TeamRocketsResearcher | CardId::B4a085TeamRocketsResearcher => until_tails_paths(),
        CardId::B2a091Arven | CardId::B2a108Arven | CardId::B2a115Arven | CardId::B2a086ElectricGenerator
        | CardId::B2a131ElectricGenerator | CardId::B2145LuckyIcePop | CardId::B4145OrderPad
        | CardId::B4a070TeamRocketsMasterPlan | CardId::B4a086TeamRocketsMasterPlan
        | CardId::B4a094TeamRocketsMasterPlan => one_coin_paths(),
        _ => untracked(distribution_trainer_view(actor, s, id).1.len() as int),
    }
}

/// The coin flips recorded by the forecast of a Trainer card's own effect.
pub open spec fn own_trainer_coins(actor: usize, s: StateView, card: TrainerCard) -> Seq<Option<Seq<Seq<bool>>>> {
    if card.trainer_card_type == TrainerType::Tool || card.trainer_card_type == TrainerType::Stadium {
        untracked(1)
    } else {
        match fixed_trainer_effect(card.id) {
            Some(_) => untracked(1),
            None => distribution_coins(actor, s, card.id),
        }
    }
}

/// The coin flips recorded by the forecast of playing a Trainer card: those of its own effect;
/// none for Penny's borrowed effects.
pub open spec fn trainer_coin_view(actor: usize, s: StateView, card: TrainerCard) -> Seq<Option<Seq<Seq<bool>>>> {
    if card.trainer_card_type != TrainerType::Tool && card.trainer_card_type != TrainerType::Stadium
        && is_penny(card.id) {
        untracked(penny_view(actor, s).1.len() as int)
    } else {
        own_trainer_coins(actor, s, card)
    }
}

/// The outcomes of a distribution with one sure result.
fn single_effect(e: TrainerEffect) -> (r: Outcomes<TrainerEffect>)
    ensures
        r.is_distribution(),
        outcomes_view(r) == single_view(e),
        coins_view(r) == untracked(1),
{
    let r = Outcomes::single(e);
    proof {
        assert(outcomes_view(r).1 =~= seq![(1int, e)]);
    }
    r
}

/// Equally likely results.
fn uniform_effects(es: Vec<TrainerEffect>) -> (r: Outcomes<TrainerEffect>)
    requires
        es@.len() > 0,
    ensures
        r.is_distribution(),
        outcomes_view(r) == uniform_view(es@),
        coins_view(r) == untracked(es@.len() as int),
{
    let ghost s = es@;
    let n = es.len();
    assert(n <= u64::MAX);
    let r = Outcomes::from_uniform(es);
    proof {
        assert(outcomes_view(r).1 =~= uniform_view(s).1);
    }
    r
}

/// May's outcomes: each unordered pair of Pokémon of the deck is equally likely to be drawn
/// (the only Pokémon when there is one; a plain shuffle when there is none).
pub fn may_effect(acting_player: usize, state: &State) -> (r: Outcomes<TrainerEffect>)
    requires
        state.wf(),
        acting_player < 2,
    ensures
        r.is_distribution(),
        outcomes_view(r) == may_view(acting_player, state@),
        coins_view(r) == untracked(may_view(acting_player, state@).1.len() as int),
{
    let ids = matching_ids(&state.decks[acting_player], CardFilter::Pokemon);
    proof {
        assert(state@.decks[acting_player as int] == state.decks@[acting_player as int]@);
    }
    let n = ids.len();
    if n == 0 {
        return single_effect(TrainerEffect::MayShuffle);
    }
    if n == 1 {
        return single_effect(TrainerEffect::MayDraw { first: ids[0], second: None });
    }
    let ghost pairs = pairs_upto(ids@, n as int);
    let mut draws: Vec<TrainerEffect> = Vec::new();
    let mut i: usize = 0;
    while i < n
        invariant
            i <= n,
            n == ids@.len(),
            n >= 2,
            draws@ == pairs_upto(ids@, i as int).map_values(
                |p: (CardId, CardId)| TrainerEffect::MayDraw { first: p.0, second: Some(p.1) },
            ),
        decreases n - i,
    {
        let mut j: usize = i + 1;
        let ghost before = draws@;
        while j < n
            invariant
                i < n,
                i + 1 <= j <= n,
                n == ids@.len(),
                draws@ == before + pair_row(ids@, i as int).subrange(0, j - i - 1).map_values(
                    |p: (CardId, CardId)| TrainerEffect::MayDraw { first: p.0, second: Some(p.1) },
                ),
            decreases n - j,
        {
            draws.push(TrainerEffect::MayDraw { first: ids[i], second: Some(ids[j]) });
            proof {
                let row = pair_row(ids@, i as int);
                assert(row[j - i - 1] == (ids@[i as int], ids@[j as int]));
                assert(row.subrange(0, j - i) =~= row.subrange(0, j - i - 1).push(row[j - i - 1]));
            }
            j = j + 1;
        }
        proof {
            let row = pair_row(ids@, i as int);
            assert(row.subrange(0, n - i - 1) =~= row);
            assert(pairs_upto(ids@, i as int + 1) == pairs_upto(ids@, i as int) + row);
            let f = |p: (CardId, CardId)| TrainerEffect::MayDraw { first: p.0, second: Some(p.1) };
            assert((pairs_upto(ids@, i as int) + row).map_values(f) =~= pairs_upto(
                ids@,
                i as int,
            ).map_values(f) + row.map_values(f));
        }
        i = i + 1;
    }
    proof {
        assert(draws@.len() > 0) by {
            assert(pair_row(ids@, 0).len() >= 1);
            lemma_pairs_len_grows(ids@, n as int);
        }
    }
    uniform_effects(draws)
}

/// Pairs of a list of at least two cards exist.
proof fn lemma_pairs_len_grows(ids: Seq<CardId>, n: int)
    requires
        1 <= n <= ids.len(),
        ids.len() >= 2,
    ensures
        pairs_upto(ids, n).len() >= pair_row(ids, 0).len(),
    decreases n,
{
    if n > 1 {
        lemma_pairs_len_grows(ids, n - 1);
    }
}

/// Heads and tails of one coin, as plain values.
pub open spec fn binary_view(heads: TrainerEffect, tails: TrainerEffect) -> (
    int,
    Seq<(int, TrainerEffect)>,
) {
    (2, seq![(1int, heads), (1int, tails)])
}

/// Flip until tails with at most 5 heads, the result depending on the number of heads.
pub open spec fn until_tails_view(f: spec_fn(u32) -> TrainerEffect) -> (
    int,
    Seq<(int, TrainerEffect)>,
) {
    (
        two_pow(5) as int,
        Seq::new(6, |h: int| (geometric_weight(5, h as nat) as int, f(h as u32))),
    )
}

/// One coin.
fn binary_effects(heads: TrainerEffect, tails: TrainerEffect) -> (r: Outcomes<TrainerEffect>)
    ensures
        r.is_distribution(),
        outcomes_view(r) == binary_view(heads, tails),
        coins_view(r) == one_coin_paths(),
{
    let r = Outcomes::binary_coin(heads, tails);
    proof {
        assert(outcomes_view(r).1 =~= seq![(1int, heads), (1int, tails)]);
    }
    r
}

/// The results for 0 to 5 heads of "flip until tails" (at most 5 heads).
fn until_tails_effects(per_heads: Vec<TrainerEffect>, f: Ghost<spec_fn(u32) -> TrainerEffect>) -> (r:
    Outcomes<TrainerEffect>)
    requires
        per_heads@.len() == 6,
        forall|h: int| 0 <= h < 6 ==> #[trigger] per_heads@[h] == (f@)(h as u32),
    ensures
        r.is_distribution(),
        outcomes_view(r) == until_tails_view(f@),
        coins_view(r) == until_tails_paths(),
{
    let r = Outcomes::geometric_until_tails(5, per_heads);
    proof {
        assert(outcomes_view(r).1 =~= until_tails_view(f@).1);
    }
    r
}

/// Misty: flip until tails; attach a [W] Energy for each heads.
pub open spec fn misty_view() -> (int, Seq<(int, TrainerEffect)>) {
    until_tails_view(|h: u32| TrainerEffect::MistyAttachWater { heads: h })
}

/// Misty's outcomes.
fn misty_outcomes() -> (r: Outcomes<TrainerEffect>)
    ensures
        r.is_distribution(),
        outcomes_view(r) == misty_view(),
        coins_view(r) == until_tails_paths(),
{
    let mut per_heads: Vec<TrainerEffect> = Vec::new();
    let mut h: u32 = 0;
    while h <= 5
        invariant
            h <= 6,
            per_heads@.len() == h,
            forall|k: int| 0 <= k < h ==> #[trigger] per_heads@[k] == (TrainerEffect::MistyAttachWater { heads: k as u32 }),
        decreases 6 - h,
    {
        per_heads.push(TrainerEffect::MistyAttachWater { heads: h });
        h = h + 1;
    }
    until_tails_effects(per_heads, Ghost(|h: u32| TrainerEffect::MistyAttachWater { heads: h }))
}

/// Team Rocket Grunt: flip until tails; discard an Energy from the opponent's Active for each
/// heads.
pub open spec fn team_rocket_grunt_view() -> (int, Seq<(int, TrainerEffect)>) {
    until_tails_view(|h: u32| TrainerEffect::TeamRocketGruntDiscard { heads: h })
}

/// Team Rocket Grunt's outcomes.
fn team_rocket_grunt_outcomes() -> (r: Outcomes<TrainerEffect>)
    ensures
        r.is_distribution(),
        outcomes_view(r) == team_rocket_grunt_view(),
        coins_view(r) == until_tails_paths(),
{
    let mut per_heads: Vec<TrainerEffect> = Vec::new();
    let mut h: u32 = 0;
    while h <= 5
        invariant
            h <= 6,
            per_heads@.len() == h,
            forall|k: int| 0 <= k < h ==> #[trigger] per_heads@[k] == (TrainerEffect::TeamRocketGruntDiscard { heads: k as u32 }),
        decreases 6 - h,
    {
        per_heads.push(TrainerEffect::TeamRocketGruntDiscard { heads: h });
        h = h + 1;
    }
    until_tails_effects(per_heads, Ghost(|h: u32| TrainerEffect::TeamRocketGruntDiscard { heads: h }))
}

/// Team Rocket's Researcher: flip until tails; take a "Team Rocket" card for each heads.
pub open spec fn team_rockets_researcher_view() -> (int, Seq<(int, TrainerEffect)>) {
    until_tails_view(|h: u32| TrainerEffect::RocketsResearcherTake { heads: h })
}

/// Team Rocket's Researcher's outcomes.
fn team_rockets_researcher_outcomes() -> (r: Outcomes<TrainerEffect>)
    ensures
        r.is_distribution(),
        outcomes_view(r) == team_rockets_researcher_view(),
        coins_view(r) == until_tails_paths(),
{
    let mut per_heads: Vec<TrainerEffect> = Vec::new();
    let mut h: u32 = 0;
    while h <= 5
        invariant
            h <= 6,
            per_heads@.len() == h,
            forall|k: int| 0 <= k < h ==> #[trigger] per_heads@[k] == (TrainerEffect::RocketsResearcherTake { heads: k as u32 }),
        decreases 6 - h,
    {
        per_heads.push(TrainerEffect::RocketsResearcherTake { heads: h });
        h = h + 1;
    }
    until_tails_effects(per_heads, Ghost(|h: u32| TrainerEffect::RocketsResearcherTake { heads: h }))
}

/// Electric Generator: on heads, attach a [L] Energy to a Benched [L] Pokémon.
fn electric_generator_outcomes() -> (r: Outcomes<TrainerEffect>)
    ensures
        r.is_distribution(),
        outcomes_view(r) == binary_view(TrainerEffect::ElectricGeneratorAttach, TrainerEffect::Nothing),
        coins_view(r) == one_coin_paths(),
{
    binary_effects(TrainerEffect::ElectricGeneratorAttach, TrainerEffect::Nothing)
}

/// Team Rocket's Master Plan: heads confuses the opponent's Active, tails both Actives.
fn team_rockets_master_plan_outcomes() -> (r: Outcomes<TrainerEffect>)
    ensures
        r.is_distribution(),
        outcomes_view(r) == binary_view(
            TrainerEffect::MasterPlanOpponentConfused,
            TrainerEffect::MasterPlanBothConfused,
        ),
        coins_view(r) == one_coin_paths(),
{
    binary_effects(TrainerEffect::MasterPlanOpponentConfused, TrainerEffect::MasterPlanBothConfused)
}

/// Lucky Ice Pop: heal 20 either way; on heads the card also returns to the hand.
fn lucky_ice_pop_outcomes() -> (r: Outcomes<TrainerEffect>)
    ensures
        r.is_distribution(),
        outcomes_view(r) == binary_view(
            TrainerEffect::LuckyIcePop { back_to_hand: true },
            TrainerEffect::LuckyIcePop { back_to_hand: false },
        ),
        coins_view(r) == one_coin_paths(),
{
    binary_effects(
        TrainerEffect::LuckyIcePop { back_to_hand: true },
        TrainerEffect::LuckyIcePop { back_to_hand: false },
    )
}

/// Order Pad: on heads, search the deck for an Item card.
fn order_pad_outcomes() -> (r: Outcomes<TrainerEffect>)
    ensures
        r.is_distribution(),
        outcomes_view(r) == binary_view(TrainerEffect::ItemSearch, TrainerEffect::Nothing),
        coins_view(r) == one_coin_paths(),
{
    binary_effects(TrainerEffect::ItemSearch, TrainerEffect::Nothing)
}

/// Arven: heads searches the deck for an Item card, tails for a Pokémon Tool card.
fn arven_outcomes() -> (r: Outcomes<TrainerEffect>)
    ensures
        r.is_distribution(),
        outcomes_view(r) == binary_view(TrainerEffect::ItemSearch, TrainerEffect::ToolSearch),
        coins_view(r) == one_coin_paths(),
{
    binary_effects(TrainerEffect::ItemSearch, TrainerEffect::ToolSearch)
}

/// Hitting Hammer: with probability 1/4, discard an Energy from the opponent's Active.
pub open spec fn hitting_hammer_view() -> (int, Seq<(int, TrainerEffect)>) {
    (4, seq![(1int, TrainerEffect::HittingHammerDiscard), (3int, TrainerEffect::Nothing)])
}

/// Hitting Hammer's outcomes.
fn hitting_hammer_outcomes() -> (r: Outcomes<TrainerEffect>)
    ensures
        r.is_distribution(),
        outcomes_view(r) == hitting_hammer_view(),
        coins_view(r) == untracked(2),
{
    let mut weights: Vec<u64> = Vec::new();
    weights.push(1);
    weights.push(3);
    let mut effects: Vec<TrainerEffect> = Vec::new();
    effects.push(TrainerEffect::HittingHammerDiscard);
    effects.push(TrainerEffect::Nothing);
    proof {
        reveal_with_fuel(weight_sum, 3);
    }
    let r = Outcomes::from_parts(weights, effects);
    proof {
        assert(outcomes_view(r).1 =~= hitting_hammer_view().1);
    }
    r
}

/// Fisher: 3 coins; for each heads a random [W] Pokémon goes from the discard pile to the hand
/// (nothing when the discard pile has none).
pub open spec fn fisher_view(actor: usize, s: StateView) -> (int, Seq<(int, TrainerEffect)>) {
    if pile_ids(s.discard_piles[actor as int], CardFilter::Water).len() == 0 {
        single_view(TrainerEffect::Nothing)
    } else {
        (
            8,
            seq![
                (1int, TrainerEffect::FisherReturn { heads: 0 }),
                (3int, TrainerEffect::FisherReturn { heads: 1 }),
                (3int, TrainerEffect::FisherReturn { heads: 2 }),
                (1int, TrainerEffect::FisherReturn { heads: 3 }),
            ],
        )
    }
}

/// Fisher's outcomes.
pub fn fisher_outcomes(acting_player: usize, state: &State) -> (r: Outcomes<TrainerEffect>)
    requires
        state.wf(),
        acting_player < 2,
    ensures
        r.is_distribution(),
        outcomes_view(r) == fisher_view(acting_player, state@),
        coins_view(r) == untracked(fisher_view(acting_player, state@).1.len() as int),
{
    let available = matching_ids(&state.discard_piles[acting_player], CardFilter::Water);
    proof {
        assert(state@.discard_piles[acting_player as int] == state.discard_piles@[acting_player as int]@);
    }
    if available.len() == 0 {
        return single_effect(TrainerEffect::Nothing);
    }
    let mut weights: Vec<u64> = Vec::new();
    weights.push(1);
    weights.push(3);
    weights.push(3);
    weights.push(1);
    let mut effects: Vec<TrainerEffect> = Vec::new();
    effects.push(TrainerEffect::FisherReturn { heads: 0 });
    effects.push(TrainerEffect::FisherReturn { heads: 1 });
    effects.push(TrainerEffect::FisherReturn { heads: 2 });
    effects.push(TrainerEffect::FisherReturn { heads: 3 });
    proof {
        reveal_with_fuel(weight_sum, 5);
    }
    let r = Outcomes::from_parts(weights, effects);
    proof {
        assert(outcomes_view(r).1 =~= fisher_view(acting_player, state@).1);
    }
    r
}

/// One equally likely branch per listed card, taking it from a discard pile; nothing when no
/// card is listed.
fn take_from_discard_outcomes(ids: Vec<CardId>, from_opponent: bool) -> (r: Outcomes<
    TrainerEffect,
>)
    ensures
        r.is_distribution(),
        outcomes_view(r) == take_from_discard_view(ids@, from_opponent),
        coins_view(r) == untracked(take_from_discard_view(ids@, from_opponent).1.len() as int),
{
    if ids.len() == 0 {
        return single_effect(TrainerEffect::Nothing);
    }
    let mut effects: Vec<TrainerEffect> = Vec::new();
    let mut i: usize = 0;
    while i < ids.len()
        invariant
            i <= ids@.len(),
            effects@ == ids@.subrange(0, i as int).map_values(
                |id: CardId| TrainerEffect::TakeFromDiscard { from_opponent, card: id },
            ),
        decreases ids@.len() - i,
    {
        effects.push(TrainerEffect::TakeFromDiscard { from_opponent, card: ids[i] });
        i = i + 1;
        proof {
            assert(effects@ =~= ids@.subrange(0, i as int).map_values(
                |id: CardId| TrainerEffect::TakeFromDiscard { from_opponent, card: id },
            ));
        }
    }
    proof {
        assert(ids@.subrange(0, ids@.len() as int) =~= ids@);
    }
    uniform_effects(effects)
}

/// Celestic Town Elder: a random Basic Pokémon from your discard pile goes to your hand.
pub open spec fn celestic_town_elder_view(actor: usize, s: StateView) -> (
    int,
    Seq<(int, TrainerEffect)>,
) {
    take_from_discard_view(pile_ids(s.discard_piles[actor as int], CardFilter::Basic), false)
}

/// Celestic Town Elder's outcomes: one equally likely branch per Basic Pokémon of the discard
/// pile.
pub fn celestic_town_elder_effect(acting_player: usize, state: &State) -> (r: Outcomes<
    TrainerEffect,
>)
    requires
        state.wf(),
        acting_player < 2,
    ensures
        r.is_distribution(),
        outcomes_view(r) == celestic_town_elder_view(acting_player, state@),
        coins_view(r) == untracked(outcomes_view(r).1.len() as int),
{
    let ids = matching_ids(&state.discard_piles[acting_player], CardFilter::Basic);
    proof {
        assert(state@.discard_piles[acting_player as int] == state.discard_piles@[acting_player as int]@);
    }
    take_from_discard_outcomes(ids, false)
}

/// Fishing Net: a random Basic [W] Pokémon from your discard pile goes to your hand.
pub open spec fn fishing_net_view(actor: usize, s: StateView) -> (int, Seq<(int, TrainerEffect)>) {
    take_from_discard_view(pile_ids(s.discard_piles[actor as int], CardFilter::BasicWater), false)
}

/// Fishing Net's outcomes: one equally likely branch per Basic [W] Pokémon of the discard pile.
pub fn fishing_net_outcomes(acting_player: usize, state: &State) -> (r: Outcomes<TrainerEffect>)
    requires
        state.wf(),
        acting_player < 2,
    ensures
        r.is_distribution(),
        outcomes_view(r) == fishing_net_view(acting_player, state@),
        coins_view(r) == untracked(outcomes_view(r).1.len() as int),
{
    let ids = matching_ids(&state.discard_piles[acting_player], CardFilter::BasicWater);
    proof {
        assert(state@.discard_piles[acting_player as int] == state.discard_piles@[acting_player as int]@);
    }
    take_from_discard_outcomes(ids, false)
}

/// Team Rocket's Thieving Machine: a random Item card (not another Thieving Machine) from the
/// opponent's discard pile goes to your hand.
pub open spec fn thieving_machine_view(actor: usize, s: StateView) -> (
    int,
    Seq<(int, TrainerEffect)>,
) {
    take_from_discard_view(pile_ids(s.discard_piles[1 - actor], CardFilter::ItemToSteal), true)
}

/// Team Rocket's Thieving Machine's outcomes.
pub fn team_rockets_thieving_machine_effect(acting_player: usize, state: &State) -> (r: Outcomes<
    TrainerEffect,
>)
    requires
        state.wf(),
        acting_player < 2,
    ensures
        r.is_distribution(),
        outcomes_view(r) == thieving_machine_view(acting_player, state@),
        coins_view(r) == untracked(outcomes_view(r).1.len() as int),
{
    let opponent = 1 - acting_player;
    let ids = matching_ids(&state.discard_piles[opponent], CardFilter::ItemToSteal);
    proof {
        assert(state@.discard_piles[opponent as int] == state.discard_piles@[opponent as int]@);
    }
    take_from_discard_outcomes(ids, true)
}

/// Whether Parasol Lady can return the Pokémon in this slot: a [W] Pokémon that is not a
/// Pokémon ex.
pub open spec fn parasol_target(slot: Option<PlayedCard>) -> bool {
    &&& slot matches Some(c)
    &&& c.card.energy_type_spec() == Some(EnergyType::Water)
    &&& !c.card.is_ex_spec()
}

/// Parasol Lady: choose one of your [W] Pokémon in play (not a Pokémon ex) to put into your
/// hand.
pub open spec fn parasol_lady_view(actor: usize, s: StateView) -> (int, Seq<(int, TrainerEffect)>) {
    let side = s.board[actor as int];
    single_view(
        TrainerEffect::ChooseReturnToHand {
            slots: SlotMask {
                active: parasol_target(side[0]),
                bench1: parasol_target(side[1]),
                bench2: parasol_target(side[2]),
                bench3: parasol_target(side[3]),
            },
        },
    )
}

/// Whether Parasol Lady can return the Pokémon in this slot.
fn parasol_target_exec(slot: &Option<PlayedCard>) -> (r: bool)
    ensures
        r == parasol_target(*slot),
{
    match slot {
        Some(c) => {
            let water = match c.get_energy_type() {
                Some(t) => t == EnergyType::Water,
                None => false,
            };
            water && !c.card.is_ex()
        },
        None => false,
    }
}

/// Parasol Lady's outcome: the choice of slots.
pub fn parasol_lady_effect(acting_player: usize, state: &State) -> (r: Outcomes<TrainerEffect>)
    requires
        state.wf(),
        acting_player < 2,
    ensures
        r.is_distribution(),
        outcomes_view(r) == parasol_lady_view(acting_player, state@),
        coins_view(r) == untracked(outcomes_view(r).1.len() as int),
{
    let side = &state.in_play_pokemon[acting_player];
    let slots = SlotMask {
        active: parasol_target_exec(&side[0]),
        bench1: parasol_target_exec(&side[1]),
        bench2: parasol_target_exec(&side[2]),
        bench3: parasol_target_exec(&side[3]),
    };
    proof {
        assert(state@.board[acting_player as int] == side@);
    }
    single_effect(TrainerEffect::ChooseReturnToHand { slots })
}

/// Whether the card is one whose effect is a distribution built from the game, by its
/// identifier.
pub open spec fn is_distribution_trainer(id: CardId) -> bool {
    matches!(id, CardId::PA005PokeBall | CardId::A2b111PokeBall | CardId::A1220Misty | CardId::A1267Misty | CardId::A3a067Gladion | CardId::A3a081Gladion | CardId::B1223May | CardId::B1268May | CardId::B1226Lisia | CardId::B1271Lisia | CardId::A2a073CelesticTownElder | CardId::A2a088CelesticTownElder | CardId::B1a068Clemont | CardId::B1a081Clemont | CardId::B1a067QuickGrowExtract | CardId::B1a103QuickGrowExtract | CardId::B1a069Serena | CardId::B1a082Serena | CardId::B2a091Arven | CardId::B2a108Arven | CardId::B2a115Arven | CardId::B2a086ElectricGenerator | CardId::B2a131ElectricGenerator | CardId::B2145LuckyIcePop | CardId::B2150Sightseer | CardId::B2191Sightseer | CardId::A2b072TeamRocketGrunt | CardId::A2b091TeamRocketGrunt | CardId::B3150Cabbie | CardId::B3191Cabbie | CardId::B3152ParasolLady | CardId::B3193ParasolLady | CardId::B3a071Juliana | CardId::B3a086Juliana | CardId::B3a073ProfessorTuro | CardId::B3a088ProfessorTuro | CardId::B3b067PuppyLovingGirl | CardId::B3b084PuppyLovingGirl | CardId::B3b068Wallace | CardId::B3b085Wallace | CardId::B4145OrderPad | CardId::B4a070TeamRocketsMasterPlan | CardId::B4a086TeamRocketsMasterPlan | CardId::B4a094TeamRocketsMasterPlan | CardId::B4a067TeamRocketsThievingMachine | CardId::B4a069TeamRocketsResearcher | CardId::B4a085TeamRocketsResearcher | CardId::A3143FishingNet | CardId::A4159Fisher | CardId::A4199Fisher | CardId::A2151TeamGalacticGrunt | CardId::A2191TeamGalacticGrunt | CardId::B1215HittingHammer)
}

/// The distribution of a Trainer card whose effect depends on the coins or the game.
pub open spec fn distribution_trainer_view(actor: usize, s: StateView, id: CardId) -> (
    int,
    Seq<(int, TrainerEffect)>,
) {
    match id {
        CardId::PA005PokeBall | CardId::A2b111PokeBall => single_view(TrainerEffect::DeckSearch { kind: DeckSearchKind::PokeBall }),
        CardId::A1220Misty | CardId::A1267Misty => misty_view(),
        CardId::A3a067Gladion | CardId::A3a081Gladion => single_view(TrainerEffect::DeckSearch { kind: DeckSearchKind::Gladion }),
        CardId::B1223May | CardId::B1268May => may_view(actor, s),
        CardId::B1226Lisia | CardId::B1271Lisia => single_view(TrainerEffect::DeckSearch { kind: DeckSearchKind::Lisia }),
        CardId::A2a073CelesticTownElder | CardId::A2a088CelesticTownElder => celestic_town_elder_view(actor, s),
        CardId::B1a068Clemont | CardId::B1a081Clemont => single_view(TrainerEffect::DeckSearch { kind: DeckSearchKind::Clemont }),
        CardId::B1a067QuickGrowExtract | CardId::B1a103QuickGrowExtract => single_view(TrainerEffect::DeckSearch { kind: DeckSearchKind::QuickGrowExtract }),
        CardId::B1a069Serena | CardId::B1a082Serena => single_view(TrainerEffect::DeckSearch { kind: DeckSearchKind::Serena }),
        CardId::B2a091Arven | CardId::B2a108Arven | CardId::B2a115Arven => binary_view(TrainerEffect::ItemSearch, TrainerEffect::ToolSearch),
        CardId::B2a086ElectricGenerator | CardId::B2a131ElectricGenerator => binary_view(TrainerEffect::ElectricGeneratorAttach, TrainerEffect::Nothing),
        CardId::B2145LuckyIcePop => binary_view(TrainerEffect::LuckyIcePop { back_to_hand: true }, TrainerEffect::LuckyIcePop { back_to_hand: false }),
        CardId::B2150Sightseer | CardId::B2191Sightseer => single_view(TrainerEffect::SightseerLook),
        CardId::A2b072TeamRocketGrunt | CardId::A2b091TeamRocketGrunt => team_rocket_grunt_view(),
        CardId::B3150Cabbie | CardId::B3191Cabbie => single_view(TrainerEffect::DeckSearch { kind: DeckSearchKind::Cabbie }),
        CardId::B3152ParasolLady | CardId::B3193ParasolLady => parasol_lady_view(actor, s),
        CardId::B3a071Juliana | CardId::B3a086Juliana => single_view(TrainerEffect::DeckSearch { kind: DeckSearchKind::Juliana }),
        CardId::B3a073ProfessorTuro | CardId::B3a088ProfessorTuro => single_view(TrainerEffect::ProfessorTuro),
        CardId::B3b067PuppyLovingGirl | CardId::B3b084PuppyLovingGirl => single_view(TrainerEffect::PuppyLovingGirlLook),
        CardId::B3b068Wallace | CardId::B3b085Wallace => single_view(TrainerEffect::DeckSearch { kind: DeckSearchKind::Wallace }),
        CardId::B4145OrderPad => binary_view(TrainerEffect::ItemSearch, TrainerEffect::Nothing),
        CardId::B4a070TeamRocketsMasterPlan | CardId::B4a086TeamRocketsMasterPlan | CardId::B4a094TeamRocketsMasterPlan => binary_view(TrainerEffect::MasterPlanOpponentConfused, TrainerEffect::MasterPlanBothConfused),
        CardId::B4a067TeamRocketsThievingMachine => thieving_machine_view(actor, s),
        CardId::B4a069TeamRocketsResearcher | CardId::B4a085TeamRocketsResearcher => team_rockets_researcher_view(),
        CardId::A3143FishingNet => fishing_net_view(actor, s),
        CardId::A4159Fisher | CardId::A4199Fisher => fisher_view(actor, s),
        CardId::A2151TeamGalacticGrunt | CardId::A2191TeamGalacticGrunt => single_view(TrainerEffect::DeckSearch { kind: DeckSearchKind::TeamGalacticGrunt }),
        CardId::B1215HittingHammer => hitting_hammer_view(),
        _ => single_view(TrainerEffect::Nothing),
    }
}

/// The distribution of a Trainer card whose effect depends on the coins or the game.
fn distribution_trainer_outcomes(acting_player: usize, state: &State, id: CardId) -> (r: Outcomes<
    TrainerEffect,
>)
    requires
        state.wf(),
        acting_player < 2,
        is_distribution_trainer(id),
    ensures
        r.is_distribution(),
        outcomes_view(r) == distribution_trainer_view(acting_player, state@, id),
        coins_view(r) == distribution_coins(acting_player, state@, id),
{
    match id {
        CardId::PA005PokeBall | CardId::A2b111PokeBall => single_effect(TrainerEffect::DeckSearch { kind: DeckSearchKind::PokeBall }),
        CardId::A1220Misty | CardId::A1267Misty => misty_outcomes(),
        CardId::A3a067Gladion | CardId::A3a081Gladion => single_effect(TrainerEffect::DeckSearch { kind: DeckSearchKind::Gladion }),
        CardId::B1223May | CardId::B1268May => may_effect(acting_player, state),
        CardId::B1226Lisia | CardId::B1271Lisia => single_effect(TrainerEffect::DeckSearch { kind: DeckSearchKind::Lisia }),
        CardId::A2a073CelesticTownElder | CardId::A2a088CelesticTownElder => celestic_town_elder_effect(acting_player, state),
        CardId::B1a068Clemont | CardId::B1a081Clemont => single_effect(TrainerEffect::DeckSearch { kind: DeckSearchKind::Clemont }),
        CardId::B1a067QuickGrowExtract | CardId::B1a103QuickGrowExtract => single_effect(TrainerEffect::DeckSearch { kind: DeckSearchKind::QuickGrowExtract }),
        CardId::B1a069Serena | CardId::B1a082Serena => single_effect(TrainerEffect::DeckSearch { kind: DeckSearchKind::Serena }),
        CardId::B2a091Arven | CardId::B2a108Arven | CardId::B2a115Arven => arven_outcomes(),
        CardId::B2a086ElectricGenerator | CardId::B2a131ElectricGenerator => electric_generator_outcomes(),
        CardId::B2145LuckyIcePop => lucky_ice_pop_outcomes(),
        CardId::B2150Sightseer | CardId::B2191Sightseer => single_effect(TrainerEffect::SightseerLook),
        CardId::A2b072TeamRocketGrunt | CardId::A2b091TeamRocketGrunt => team_rocket_grunt_outcomes(),
        CardId::B3150Cabbie | CardId::B3191Cabbie => single_effect(TrainerEffect::DeckSearch { kind: DeckSearchKind::Cabbie }),
        CardId::B3152ParasolLady | CardId::B3193ParasolLady => parasol_lady_effect(acting_player, state),
        CardId::B3a071Juliana | CardId::B3a086Juliana => single_effect(TrainerEffect::DeckSearch { kind: DeckSearchKind::Juliana }),
        CardId::B3a073ProfessorTuro | CardId::B3a088ProfessorTuro => single_effect(TrainerEffect::ProfessorTuro),
        CardId::B3b067PuppyLovingGirl | CardId::B3b084PuppyLovingGirl => single_effect(TrainerEffect::PuppyLovingGirlLook),
        CardId::B3b068Wallace | CardId::B3b085Wallace => single_effect(TrainerEffect::DeckSearch { kind: DeckSearchKind::Wallace }),
        CardId::B4145OrderPad => order_pad_outcomes(),
        CardId::B4a070TeamRocketsMasterPlan | CardId::B4a086TeamRocketsMasterPlan | CardId::B4a094TeamRocketsMasterPlan => team_rockets_master_plan_outcomes(),
        CardId::B4a067TeamRocketsThievingMachine => team_rockets_thieving_machine_effect(acting_player, state),
        CardId::B4a069TeamRocketsResearcher | CardId::B4a085TeamRocketsResearcher => team_rockets_researcher_outcomes(),
        CardId::A3143FishingNet => fishing_net_outcomes(acting_player, state),
        CardId::A4159Fisher | CardId::A4199Fisher => fisher_outcomes(acting_player, state),
        CardId::A2151TeamGalacticGrunt | CardId::A2191TeamGalacticGrunt => single_effect(TrainerEffect::DeckSearch { kind: DeckSearchKind::TeamGalacticGrunt }),
        CardId::B1215HittingHammer => hitting_hammer_outcomes(),
        _ => single_effect(TrainerEffect::Nothing),
    }
}


/// Whether a Trainer card has an implementation: every Pokémon Tool and Stadium, and the cards
/// of the other kinds that the engine knows.
pub open spec fn own_supported(card: TrainerCard) -> bool {
    ||| card.trainer_card_type == TrainerType::Tool
    ||| card.trainer_card_type == TrainerType::Stadium
    ||| fixed_trainer_effect(card.id) is Some
    ||| is_distribution_trainer(card.id)
}

/// Whether the card can be forecast: one with an effect of its own (see `own_supported`), or
/// Penny.
pub open spec fn trainer_supported(card: TrainerCard) -> bool {
    own_supported(card) || is_penny(card.id)
}

/// What playing a Trainer card can lead to by its own effect: a Pokémon Tool is attached; a
/// Stadium has no effect of its own; the other cards have a fixed effect or a distribution
/// built from the coins and the game.
pub open spec fn own_trainer_view(actor: usize, s: StateView, card: TrainerCard) -> (
    int,
    Seq<(int, TrainerEffect)>,
) {
    if card.trainer_card_type == TrainerType::Tool {
        single_view(TrainerEffect::AttachTool)
    } else if card.trainer_card_type == TrainerType::Stadium {
        single_view(TrainerEffect::Nothing)
    } else {
        match fixed_trainer_effect(card.id) {
            Some(e) => single_view(e),
            None => distribution_trainer_view(actor, s, card.id),
        }
    }
}

/// The outcomes of a Trainer card's own effect (see `own_trainer_view`).
fn own_trainer_forecast(acting_player: usize, state: &State, trainer_card: &TrainerCard) -> (r: Outcomes<
    TrainerEffect,
>)
    requires
        state.wf(),
        acting_player < 2,
        own_supported(*trainer_card),
    ensures
        r.is_distribution(),
        outcomes_view(r) == own_trainer_view(acting_player, state@, *trainer_card),
        coins_view(r) == own_trainer_coins(acting_player, state@, *trainer_card),
{
    if trainer_card.trainer_card_type == TrainerType::Tool {
        return single_effect(TrainerEffect::AttachTool);
    }
    if trainer_card.trainer_card_type == TrainerType::Stadium {
        return single_effect(TrainerEffect::Nothing);
    }
    match fixed_trainer_effect_exec(trainer_card.id) {
        Some(e) => single_effect(e),
        None => distribution_trainer_outcomes(acting_player, state, trainer_card.id),
    }
}

/// Whether the card is one of the Penny cards, by its identifier.
pub open spec fn is_penny(id: CardId) -> bool {
    matches!(id, CardId::A3b069Penny | CardId::A3b086Penny | CardId::B2a092Penny | CardId::B2a109Penny)
}

/// Whether the card is one of the Penny cards.
fn is_penny_exec(id: CardId) -> (r: bool)
    ensures
        r == is_penny(id),
{
    matches!(id, CardId::A3b069Penny | CardId::A3b086Penny | CardId::B2a092Penny | CardId::B2a109Penny)
}

/// The Supporter cards among the first `n` cards, other than those named Penny, in order.
pub open spec fn penny_supporters(cards: Seq<Card>, n: int) -> Seq<TrainerCard>
    decreases n,
{
    if n <= 0 {
        Seq::empty()
    } else {
        let prev = penny_supporters(cards, n - 1);
        match cards[n - 1] {
            Card::Trainer(t) => if t.trainer_card_type == TrainerType::Supporter && t.name@ != "Penny"@ {
                prev.push(t)
            } else {
                prev
            },
            Card::Pokemon(_) => prev,
        }
    }
}

/// The Supporters that Penny may borrow: those of the opponent's deck other than Penny, in
/// deck order.
pub open spec fn borrowed_supporters(actor: usize, s: StateView) -> Seq<TrainerCard> {
    let deck = s.decks[1 - actor];
    penny_supporters(deck, deck.len() as int)
}

/// The forecast of each borrowed Supporter's own effect.
pub open spec fn borrowed_views(actor: usize, s: StateView, sups: Seq<TrainerCard>) -> Seq<
    (int, Seq<(int, TrainerEffect)>),
> {
    sups.map_values(|t: TrainerCard| own_trainer_view(actor, s, t))
}

/// A common multiple of the first `n` denominators: it grows by a denominator only when it is
/// not already a multiple of it.
pub open spec fn common_multiple(views: Seq<(int, Seq<(int, TrainerEffect)>)>, n: int) -> int
    decreases n,
{
    if n <= 0 {
        1
    } else {
        let m = common_multiple(views, n - 1);
        let d = views[n - 1].0;
        if m % d == 0 {
            m
        } else {
            m * d
        }
    }
}

/// The branches of the first `n` forecasts, each weight scaled to the common denominator `l`.
pub open spec fn scaled_branches(views: Seq<(int, Seq<(int, TrainerEffect)>)>, l: int, n: int) -> Seq<
    (int, TrainerEffect),
>
    decreases n,
{
    if n <= 0 {
        Seq::empty()
    } else {
        scaled_branches(views, l, n - 1) + views[n - 1].1.map_values(
            |b: (int, TrainerEffect)| (b.0 * (l / views[n - 1].0), b.1),
        )
    }
}

/// Penny: one of the borrowable Supporters is picked, each with probability `1/k`, and its own
/// forecast follows; every branch of Supporter `t` gets `1/k` of its probability there. With no
/// Supporter to borrow, nothing happens.
pub open spec fn penny_view(actor: usize, s: StateView) -> (int, Seq<(int, TrainerEffect)>) {
    let views = borrowed_views(actor, s, borrowed_supporters(actor, s));
    let k = views.len();
    if k == 0 {
        single_view(TrainerEffect::Nothing)
    } else {
        let l = common_multiple(views, k as int);
        (k * l, scaled_branches(views, l, k as int))
    }
}

/// Whether Penny can be forecast here: every borrowable Supporter has an effect of its own,
/// and the common denominator fits in 64 bits.
pub open spec fn penny_ready(actor: usize, s: StateView) -> bool {
    let sups = borrowed_supporters(actor, s);
    &&& forall|t: int| 0 <= t < sups.len() ==> own_supported(#[trigger] sups[t])
    &&& sups.len() * common_multiple(borrowed_views(actor, s, sups), sups.len() as int) <= u64::MAX
}

/// Whether a Trainer card is named Penny.
fn is_named_penny(t: &TrainerCard) -> (r: bool)
    ensures
        r == (t.name@ == "Penny"@),
{
    t.name == "Penny".to_owned()
}

/// The Supporters found in a shorter prefix of the cards come first, in the same order, among
/// those of a longer one.
proof fn lemma_penny_supporters_prefix(cards: Seq<Card>, i: int, n: int)
    requires
        0 <= i <= n,
    ensures
        penny_supporters(cards, i).len() <= penny_supporters(cards, n).len(),
        forall|t: int|
            0 <= t < penny_supporters(cards, i).len() ==> penny_supporters(cards, i)[t]
                == #[trigger] penny_supporters(cards, n)[t],
    decreases n - i,
{
    if i < n {
        lemma_penny_supporters_prefix(cards, i, n - 1);
    }
}

/// The common multiple is positive and a multiple of each denominator it was built from.
proof fn lemma_common_multiple(views: Seq<(int, Seq<(int, TrainerEffect)>)>, n: int)
    requires
        0 <= n <= views.len(),
        forall|t: int| 0 <= t < views.len() ==> (#[trigger] views[t]).0 > 0,
    ensures
        common_multiple(views, n) >= 1,
        forall|t: int| 0 <= t < n ==> common_multiple(views, n) % (#[trigger] views[t]).0 == 0,
    decreases n,
{
    if n > 0 {
        lemma_common_multiple(views, n - 1);
        let m = common_multiple(views, n - 1);
        let d = views[n - 1].0;
        if m % d != 0 {
            vstd::arithmetic::div_mod::lemma_mod_multiples_basic(m, d);
            assert(m * d >= 1) by (nonlinear_arith)
                requires
                    m >= 1,
                    d >= 1,
            ;
            assert forall|t: int| 0 <= t < n implies (m * d) % (#[trigger] views[t]).0 == 0 by {
                if t < n - 1 {
                    let e = views[t].0;
                    vstd::arithmetic::div_mod::lemma_fundamental_div_mod(m, e);
                    assert(m * d == ((m / e) * d) * e) by (nonlinear_arith)
                        requires
                            m == e * (m / e) + m % e,
                            m % e == 0,
                    ;
                    vstd::arithmetic::div_mod::lemma_mod_multiples_basic((m / e) * d, e);
                }
            }
        }
    }
}

/// The common multiple never shrinks as more denominators are taken in.
proof fn lemma_common_multiple_grows(views: Seq<(int, Seq<(int, TrainerEffect)>)>, a: int, b: int)
    requires
        0 <= a <= b <= views.len(),
        forall|t: int| 0 <= t < views.len() ==> (#[trigger] views[t]).0 > 0,
    ensures
        common_multiple(views, a) <= common_multiple(views, b),
    decreases b - a,
{
    if a < b {
        lemma_common_multiple_grows(views, a, b - 1);
        lemma_common_multiple(views, b - 1);
        let m = common_multiple(views, b - 1);
        let d = views[b - 1].0;
        assert(m <= m * d) by (nonlinear_arith)
            requires
                m >= 1,
                d >= 1,
        ;
    }
}

/// The weights of a longer prefix of branches sum to at least those of a shorter one, and one
/// more branch adds its weight.
proof fn lemma_total_weight_prefix(bs: Seq<Branch<TrainerEffect>>, i: int, j: int)
    requires
        0 <= i <= j <= bs.len(),
    ensures
        total_weight(bs.subrange(0, i)) <= total_weight(bs.subrange(0, j)),
        i < bs.len() ==> total_weight(bs.subrange(0, i + 1)) == total_weight(bs.subrange(0, i))
            + bs[i].weight,
        bs.subrange(0, bs.len() as int) == bs,
    decreases j - i,
{
    assert(bs.subrange(0, bs.len() as int) =~= bs);
    if i < bs.len() {
        assert(bs.subrange(0, i + 1).drop_last() =~= bs.subrange(0, i));
    }
    if i < j {
        lemma_total_weight_prefix(bs, i, j - 1);
        assert(bs.subrange(0, j).drop_last() =~= bs.subrange(0, j - 1));
    }
}

/// Penny's forecast: the forecast of each Supporter of the opponent's deck other than Penny,
/// in deck order, each scaled by `1/k` for `k` such Supporters; nothing when there is none.
fn penny_outcomes(acting_player: usize, state: &State) -> (r: Outcomes<TrainerEffect>)
    requires
        state.wf(),
        acting_player < 2,
        penny_ready(acting_player, state@),
    ensures
        r.is_distribution(),
        outcomes_view(r) == penny_view(acting_player, state@),
        coins_view(r) == untracked(penny_view(acting_player, state@).1.len() as int),
{
    let ghost s = state@;
    let deck = &state.decks[1 - acting_player];
    let ghost sups = borrowed_supporters(acting_player, s);
    let ghost views = borrowed_views(acting_player, s, sups);
    assert(deck@ == s.decks[1 - acting_player]);
    let mut forecasts: Vec<Outcomes<TrainerEffect>> = Vec::new();
    let mut i: usize = 0;
    while i < deck.len()
        invariant
            i <= deck@.len(),
            state.wf(),
            acting_player < 2,
            s == state@,
            penny_ready(acting_player, s),
            deck@ == s.decks[1 - acting_player],
            sups == penny_supporters(deck@, deck@.len() as int),
            views == borrowed_views(acting_player, s, sups),
            forecasts@.len() == penny_supporters(deck@, i as int).len(),
            forall|t: int|
                0 <= t < forecasts@.len() ==> (#[trigger] forecasts@[t]).is_distribution()
                    && outcomes_view(forecasts@[t]) == views[t],
        decreases deck@.len() - i,
    {
        proof {
            lemma_penny_supporters_prefix(deck@, i as int + 1, deck@.len() as int);
        }
        match &deck[i] {
            Card::Trainer(t) => {
                if t.trainer_card_type == TrainerType::Supporter && !is_named_penny(t) {
                    proof {
                        let k = forecasts@.len() as int;
                        assert(penny_supporters(deck@, i as int + 1)[k] == *t);
                        assert(sups[k] == *t);
                        assert(views[k] == own_trainer_view(acting_player, s, *t));
                    }
                    let o = own_trainer_forecast(acting_player, state, t);
                    forecasts.push(o);
                }
            },
            Card::Pokemon(_) => {},
        }
        i = i + 1;
    }
    proof {
        assert(penny_supporters(deck@, deck@.len() as int) == sups);
    }
    let k = forecasts.len();
    if k == 0 {
        return single_effect(TrainerEffect::Nothing);
    }
    assert forall|t: int| 0 <= t < views.len() implies (#[trigger] views[t]).0 > 0 by {
        assert(forecasts@[t].is_distribution());
    }
    let mut l: u64 = 1;
    let mut j: usize = 0;
    while j < k
        invariant
            j <= k,
            k == forecasts@.len(),
            k == views.len(),
            k >= 1,
            l == common_multiple(views, j as int),
            forall|t: int| 0 <= t < views.len() ==> (#[trigger] views[t]).0 > 0,
            forall|t: int| 0 <= t < k ==> outcomes_view(#[trigger] forecasts@[t]) == views[t],
            k * common_multiple(views, k as int) <= u64::MAX,
        decreases k - j,
    {
        let d = forecasts[j].denominator;
        proof {
            assert(outcomes_view(forecasts@[j as int]) == views[j as int]);
            lemma_common_multiple_grows(views, j as int + 1, k as int);
            lemma_common_multiple(views, k as int);
            let c = common_multiple(views, k as int);
            assert(c <= k * c) by (nonlinear_arith)
                requires
                    c >= 1,
                    k >= 1,
            ;
        }
        if l % d != 0 {
            l = l * d;
        }
        j = j + 1;
    }
    proof {
        lemma_common_multiple(views, k as int);
    }
    let mut weights: Vec<u64> = Vec::new();
    let mut effects: Vec<TrainerEffect> = Vec::new();
    let ghost mut acc: Seq<(int, TrainerEffect)> = Seq::empty();
    let mut j: usize = 0;
    while j < k
        invariant
            j <= k,
            k == forecasts@.len(),
            k == views.len(),
            l == common_multiple(views, k as int),
            l >= 1,
            k * l <= u64::MAX,
            forall|t: int| 0 <= t < views.len() ==> (#[trigger] views[t]).0 > 0,
            forall|t: int| 0 <= t < k ==> (l as int) % (#[trigger] views[t]).0 == 0,
            forall|t: int|
                0 <= t < k ==> (#[trigger] forecasts@[t]).is_distribution()
                    && outcomes_view(forecasts@[t]) == views[t],
            acc == scaled_branches(views, l as int, j as int),
            weights@.len() == acc.len(),
            effects@.len() == acc.len(),
            forall|x: int| 0 <= x < acc.len() ==> #[trigger] acc[x] == (weights@[x] as int, effects@[x]),
            weight_sum(weights@, weights@.len() as int) == j * l,
        decreases k - j,
    {
        let o = &forecasts[j];
        let d = o.denominator;
        let q = l / d;
        let nb = o.branches.len();
        let ghost base = acc;
        let ghost vj = views[j as int];
        proof {
            assert(outcomes_view(*o) == vj);
            assert((l as int) % (views[j as int]).0 == 0);
            vstd::arithmetic::div_mod::lemma_fundamental_div_mod(l as int, d as int);
            assert(d * q == l);
            assert(j * l + l <= k * l) by (nonlinear_arith)
                requires
                    j < k,
                    l >= 1,
            ;
            lemma_total_weight_prefix(o.branches@, 0, nb as int);
            assert(o.branches@.subrange(0, 0) =~= Seq::<Branch<TrainerEffect>>::empty());
        }
        let mut i: usize = 0;
        while i < nb
            invariant
                i <= nb,
                nb == o.branches@.len(),
                o.is_distribution(),
                outcomes_view(*o) == vj,
                d == o.denominator,
                d > 0,
                d * q == l,
                j * l + l <= u64::MAX,
                acc.len() == base.len() + i,
                forall|x: int| 0 <= x < base.len() ==> #[trigger] acc[x] == base[x],
                forall|x: int|
                    0 <= x < i ==> #[trigger] acc[base.len() + x] == (vj.1[x].0 * q, vj.1[x].1),
                weights@.len() == acc.len(),
                effects@.len() == acc.len(),
                forall|x: int| 0 <= x < acc.len() ==> #[trigger] acc[x] == (weights@[x] as int, effects@[x]),
                weight_sum(weights@, weights@.len() as int) == j * l + q * total_weight(
                    o.branches@.subrange(0, i as int),
                ),
            decreases nb - i,
        {
            let b = &o.branches[i];
            proof {
                lemma_total_weight_prefix(o.branches@, i as int + 1, nb as int);
                lemma_total_weight_prefix(o.branches@, i as int, i as int + 1);
                let p = total_weight(o.branches@.subrange(0, i as int));
                let w = b.weight as int;
                assert(p >= 0) by {
                    lemma_total_weight_prefix(o.branches@, 0, i as int);
                    assert(o.branches@.subrange(0, 0) =~= Seq::<Branch<TrainerEffect>>::empty());
                }
                assert(p + w <= d);
                assert(q * (p + w) <= l && w * q <= l && q * (p + w) == q * p + w * q) by (nonlinear_arith)
                    requires
                        p >= 0,
                        w >= 0,
                        p + w <= d,
                        d * q == l,
                        q >= 0,
                ;
                assert(vj.1[i as int] == (b.weight as int, b.mutation));
            }
            let w = b.weight * q;
            let ghost old_weights = weights@;
            weights.push(w);
            effects.push(b.mutation);
            proof {
                acc = acc.push((w as int, b.mutation));
                lemma_weight_sum_prefix(old_weights, weights@, old_weights.len() as int);
            }
            i = i + 1;
        }
        proof {
            lemma_total_weight_prefix(o.branches@, nb as int, nb as int);
            assert(total_weight(o.branches@) == d);
            let scaled = scaled_branches(views, l as int, j as int + 1);
            assert(vj.0 == d);
            assert(scaled =~= acc) by {
                let tail = vj.1.map_values(|b: (int, TrainerEffect)| (b.0 * (l as int / vj.0), b.1));
                assert(scaled == base + tail);
                assert(vj.1.len() == nb);
                assert(l as int / vj.0 == q as int);
                assert forall|x: int| 0 <= x < acc.len() implies #[trigger] acc[x] == (base + tail)[x] by {
                    if x >= base.len() {
                        assert(acc[base.len() + (x - base.len())] == (vj.1[x - base.len()].0 * q, vj.1[x
                            - base.len()].1));
                    }
                }
            }
            assert(j * l + q * d == (j + 1) * l) by (nonlinear_arith)
                requires
                    d * q == l,
            ;
        }
        j = j + 1;
    }
    proof {
        assert(weight_sum(weights@, weights@.len() as int) == k * l);
        assert(k * l > 0) by (nonlinear_arith)
            requires
                k >= 1,
                l >= 1,
        ;
    }
    let r = Outcomes::from_parts(weights, effects);
    proof {
        assert(outcomes_view(r).1 =~= acc);
    }
    r
}

/// Law: Penny's forecast is made of the forecasts of playing each borrowable Supporter, in deck
/// order (none of them being a Penny card): with `k` such Supporters and a common multiple `l`
/// of their denominators, the denominator is `k * l` and every branch of Supporter `i` keeps its
/// effect with its weight scaled by `l / d_i`, that is, its probability divided by `k`; with no
/// Supporter, nothing happens.
pub proof fn lemma_penny_scales_borrowed_forecasts(actor: usize, s: StateView)
    requires
        forall|t: int|
            0 <= t < borrowed_supporters(actor, s).len() ==> !is_penny(
                (#[trigger] borrowed_supporters(actor, s)[t]).id,
            ),
    ensures
        ({
            let sups = borrowed_supporters(actor, s);
            let k = sups.len();
            let views = sups.map_values(|t: TrainerCard| trainer_forecast_view(actor, s, t));
            let l = common_multiple(views, k as int);
            &&& k == 0 ==> penny_view(actor, s) == single_view(TrainerEffect::Nothing)
            &&& k > 0 ==> penny_view(actor, s) == (k * l, scaled_branches(views, l, k as int))
            &&& (forall|i: int| 0 <= i < k ==> (#[trigger] views[i]).0 > 0) ==> forall|i: int|
                0 <= i < k ==> (#[trigger] views[i]).0 * (l / views[i].0) == l
        }),
{
    let sups = borrowed_supporters(actor, s);
    let k = sups.len();
    let views = sups.map_values(|t: TrainerCard| trainer_forecast_view(actor, s, t));
    let own = borrowed_views(actor, s, sups);
    assert forall|i: int| 0 <= i < k implies views[i] == own[i] by {
        assert(!is_penny(sups[i].id));
    }
    assert(views =~= own);
    let l = common_multiple(views, k as int);
    if forall|i: int| 0 <= i < k ==> (#[trigger] views[i]).0 > 0 {
        lemma_common_multiple(views, k as int);
        assert forall|i: int| 0 <= i < k implies (#[trigger] views[i]).0 * (l / views[i].0) == l by {
            vstd::arithmetic::div_mod::lemma_fundamental_div_mod(l, views[i].0);
        }
    }
}

/// What playing a Trainer card can lead to: its own effect, or for Penny the effect of a
/// borrowed Supporter (see `penny_view`).
pub open spec fn trainer_forecast_view(actor: usize, s: StateView, card: TrainerCard) -> (
    int,
    Seq<(int, TrainerEffect)>,
) {
    if card.trainer_card_type != TrainerType::Tool && card.trainer_card_type != TrainerType::Stadium
        && is_penny(card.id) {
        penny_view(actor, s)
    } else {
        own_trainer_view(actor, s, card)
    }
}

/// The outcomes of playing `trainer_card`.
pub fn forecast_trainer_action(acting_player: usize, state: &State, trainer_card: &TrainerCard) -> (r:
    Outcomes<TrainerEffect>)
    requires
        state.wf(),
        acting_player < 2,
        trainer_supported(*trainer_card),
        is_penny(trainer_card.id) ==> penny_ready(acting_player, state@),
    ensures
        r.is_distribution(),
        outcomes_view(r) == trainer_forecast_view(acting_player, state@, *trainer_card),
        coins_view(r) == trainer_coin_view(acting_player, state@, *trainer_card),
{
    if trainer_card.trainer_card_type != TrainerType::Tool && trainer_card.trainer_card_type != TrainerType::Stadium
        && is_penny_exec(trainer_card.id) {
        penny_outcomes(acting_player, state)
    } else {
        proof {
            if !own_supported(*trainer_card) {
                assert(is_penny(trainer_card.id));
                assert(false);
            }
        }
        own_trainer_forecast(acting_player, state, trainer_card)
    }
}

/// The first `n` Energy of `es` that stay where they are when Energy of type `t` (every Energy,
/// for `None`) is moved away.
pub open spec fn energy_kept(es: Seq<EnergyType>, t: Option<EnergyType>, n: int) -> Seq<EnergyType>
    decreases n,
{
    if n <= 0 {
        Seq::empty()
    } else {
        let prev = energy_kept(es, t, n - 1);
        match t {
            Some(w) => if es[n - 1] != w {
                prev.push(es[n - 1])
            } else {
                prev
            },
            None => prev,
        }
    }
}

/// The first `n` Energy of `es` that are moved away when Energy of type `t` (every Energy, for
/// `None`) is moved.
pub open spec fn energy_moved(es: Seq<EnergyType>, t: Option<EnergyType>, n: int) -> Seq<EnergyType>
    decreases n,
{
    if n <= 0 {
        Seq::empty()
    } else {
        let prev = energy_moved(es, t, n - 1);
        match t {
            Some(w) => if es[n - 1] == w {
                prev.push(es[n - 1])
            } else {
                prev
            },
            None => prev.push(es[n - 1]),
        }
    }
}

/// The Energy moved away from the Benched Pokémon in slots 1 to `i - 1`, in slot order.
pub open spec fn gathered_upto(side: Seq<Option<PlayedCard>>, t: Option<EnergyType>, i: int) -> Seq<
    EnergyType,
>
    decreases i,
{
    if i <= 1 {
        Seq::empty()
    } else {
        gathered_upto(side, t, i - 1) + match side[i - 1] {
            Some(c) => energy_moved(c.attached_energy@, t, c.attached_energy@.len() as int),
            None => Seq::empty(),
        }
    }
}

/// `c2` is `c` with the attached Energy `es`.
pub open spec fn with_energy(c: PlayedCard, c2: PlayedCard, es: Seq<EnergyType>) -> bool {
    &&& c2 == PlayedCard { attached_energy: c2.attached_energy, ..c }
    &&& c2.attached_energy@ == es
}

/// The slot after its Pokémon's attached Energy became `es` (an empty slot stays empty).
pub open spec fn slot_with_energy(before: Option<PlayedCard>, after: Option<PlayedCard>, es: Seq<EnergyType>) -> bool {
    match before {
        Some(c) => after matches Some(c2) && with_energy(c, c2, es),
        None => after is None,
    }
}

/// The game after only the Pokémon of `player` changed, slot by slot.
pub open spec fn only_side_changed(before: StateView, after: StateView, player: int) -> bool {
    &&& after == StateView { board: after.board, ..before }
    &&& after.board.len() == before.board.len()
    &&& after.board[1 - player] == before.board[1 - player]
    &&& after.board[player].len() == before.board[player].len()
}

/// Sets the attached Energy of the Pokémon in a slot (nothing for an empty slot).
pub(crate) fn set_slot_energy(state: &mut State, player: usize, idx: usize, es: Vec<EnergyType>)
    requires
        old(state).wf(),
        player < 2,
        idx < 4,
    ensures
        final(state).wf(),
        only_side_changed(old(state)@, final(state)@, player as int),
        slot_with_energy(old(state)@.slot(player as int, idx as int), final(state)@.slot(player as int, idx as int), es@),
        forall|k: int| 0 <= k < 4 && k != idx ==> #[trigger] final(state)@.slot(player as int, k) == old(state)@.slot(player as int, k),
{
    let ghost es_view = es@;
    let slot = &mut state.in_play_pokemon[player][idx];
    match slot {
        Some(pokemon) => {
            pokemon.attached_energy = es;
        },
        None => {},
    }
    proof {
        assert(state@.board[player as int] =~= old(state)@.board[player as int].update(
            idx as int,
            state@.slot(player as int, idx as int),
        ));
        assert(state@.board =~= old(state)@.board.update(player as int, state@.board[player as int]));
    }
}

/// Moves Energy from the Benched Pokémon of `player` to the Active Pokémon: all of it, or only
/// that of type `energy_type`. The Benched Pokémon keep the rest in order; the Active Pokémon
/// gets the moved Energy after its own, in slot order.
pub fn gather_bench_energy(state: &mut State, player: usize, energy_type: Option<EnergyType>)
    requires
        old(state).wf(),
        player < 2,
    ensures
        final(state).wf(),
        only_side_changed(old(state)@, final(state)@, player as int),
        forall|i: int|
            1 <= i < 4 ==> slot_with_energy(
                #[trigger] old(state)@.slot(player as int, i),
                final(state)@.slot(player as int, i),
                match old(state)@.slot(player as int, i) {
                    Some(c) => energy_kept(c.attached_energy@, energy_type, c.attached_energy@.len() as int),
                    None => Seq::empty(),
                },
            ),
        slot_with_energy(
            old(state)@.slot(player as int, 0),
            final(state)@.slot(player as int, 0),
            match old(state)@.slot(player as int, 0) {
                Some(c) => c.attached_energy@ + gathered_upto(old(state)@.board[player as int], energy_type, 4),
                None => Seq::empty(),
            },
        ),
{
    let ghost s0 = state@;
    let ghost side0 = s0.board[player as int];
    let mut moved: Vec<EnergyType> = Vec::new();
    let mut i: usize = 1;
    while i < 4
        invariant
            1 <= i <= 4,
            player < 2,
            state.wf(),
            side0 == s0.board[player as int],
            side0.len() == 4,
            s0.board.len() == 2,
            only_side_changed(s0, state@, player as int),
            moved@ == gathered_upto(side0, energy_type, i as int),
            forall|k: int| i <= k < 4 || k == 0 ==> #[trigger] state@.slot(player as int, k) == side0[k],
            forall|k: int|
                1 <= k < i ==> slot_with_energy(
                    side0[k],
                    #[trigger] state@.slot(player as int, k),
                    match side0[k] {
                        Some(c) => energy_kept(c.attached_energy@, energy_type, c.attached_energy@.len() as int),
                        None => Seq::empty(),
                    },
                ),
        decreases 4 - i,
    {
        proof {
            assert(state@.slot(player as int, i as int) == side0[i as int]);
            assert(state.in_play_pokemon@[player as int]@[i as int] == side0[i as int]);
        }
        let taken = match &state.in_play_pokemon[player][i] {
            Some(pokemon) => {
                let es = &pokemon.attached_energy;
                let mut kept: Vec<EnergyType> = Vec::new();
                let mut gone: Vec<EnergyType> = Vec::new();
                let mut k: usize = 0;
                while k < es.len()
                    invariant
                        k <= es@.len(),
                        kept@ == energy_kept(es@, energy_type, k as int),
                        gone@ == energy_moved(es@, energy_type, k as int),
                    decreases es@.len() - k,
                {
                    let e = es[k];
                    match energy_type {
                        Some(w) => {
                            if e != w {
                                kept.push(e);
                            } else {
                                gone.push(e);
                            }
                        },
                        None => {
                            gone.push(e);
                        },
                    }
                    k = k + 1;
                }
                Some((kept, gone))
            },
            None => None,
        };
        let ghost before = state@;
        proof {
            match side0[i as int] {
                Some(c) => {
                    assert(taken is Some);
                    assert((taken->0).1@ == energy_moved(c.attached_energy@, energy_type, c.attached_energy@.len() as int));
                },
                None => {
                    assert(taken is None);
                },
            }
        }
        match taken {
            Some((kept, gone)) => {
                set_slot_energy(state, player, i, kept);
                let mut k: usize = 0;
                let ghost m0 = moved@;
                while k < gone.len()
                    invariant
                        k <= gone@.len(),
                        moved@ == m0 + gone@.subrange(0, k as int),
                    decreases gone@.len() - k,
                {
                    moved.push(gone[k]);
                    k = k + 1;
                    proof {
                        assert(moved@ =~= m0 + gone@.subrange(0, k as int));
                    }
                }
                proof {
                    assert(gone@.subrange(0, gone@.len() as int) =~= gone@);
                }
            },
            None => {},
        }
        proof {
            assert(gathered_upto(side0, energy_type, i as int + 1) == gathered_upto(side0, energy_type, i as int)
                + match side0[i as int] {
                Some(c) => energy_moved(c.attached_energy@, energy_type, c.attached_energy@.len() as int),
                None => Seq::empty(),
            });
            assert(moved@ =~= gathered_upto(side0, energy_type, i as int + 1));
        }
        i = i + 1;
    }
    let active_energy = match &state.in_play_pokemon[player][0] {
        Some(active) => {
            let mut all: Vec<EnergyType> = Vec::new();
            let es = &active.attached_energy;
            let mut k: usize = 0;
            while k < es.len()
                invariant
                    k <= es@.len(),
                    all@ == es@.subrange(0, k as int),
                decreases es@.len() - k,
            {
                all.push(es[k]);
                k = k + 1;
                proof {
                    assert(all@ =~= es@.subrange(0, k as int));
                }
            }
            let mut k: usize = 0;
            while k < moved.len()
                invariant
                    k <= moved@.len(),
                    all@ == es@ + moved@.subrange(0, k as int),
                decreases moved@.len() - k,
            {
                all.push(moved[k]);
                k = k + 1;
                proof {
                    assert(all@ =~= es@ + moved@.subrange(0, k as int));
                }
            }
            proof {
                assert(es@.subrange(0, es@.len() as int) =~= es@);
                assert(moved@.subrange(0, moved@.len() as int) =~= moved@);
            }
            Some(all)
        },
        None => None,
    };
    match active_energy {
        Some(all) => set_slot_energy(state, player, 0, all),
        None => {},
    }
}

/// The name printed on a card.
pub open spec fn card_name(c: Card) -> Seq<char> {
    match c {
        Card::Pokemon(p) => p.name@,
        Card::Trainer(t) => t.name@,
    }
}

/// Whether the slot holds a Pokémon whose name is one of `names`.
pub open spec fn named_one_of(slot: Option<PlayedCard>, names: Seq<String>) -> bool {
    &&& slot matches Some(c)
    &&& exists|k: int| 0 <= k < names.len() && (#[trigger] names[k])@ == card_name(c.card)
}

/// Whether the Pokémon's name is one of `names`.
fn named_one_of_exec(c: &PlayedCard, names: &Vec<String>) -> (r: bool)
    ensures
        r == named_one_of(Some(*c), names@),
{
    let name = match &c.card {
        Card::Pokemon(p) => &p.name,
        Card::Trainer(t) => &t.name,
    };
    let mut k: usize = 0;
    while k < names.len()
        invariant
            k <= names@.len(),
            name@ == card_name(c.card),
            forall|j: int| 0 <= j < k ==> (#[trigger] names@[j])@ != card_name(c.card),
        decreases names@.len() - k,
    {
        if names[k] == *name {
            return true;
        }
        k = k + 1;
    }
    false
}

/// Fantina's and the like: attach one Energy of type `energy_type` to each Pokémon in play of
/// `player` whose name is one of `pokemon_names`.
pub fn attach_energy_to_all_matching_pokemon(
    state: &mut State,
    player: usize,
    energy_type: EnergyType,
    pokemon_names: &Vec<String>,
)
    requires
        old(state).wf(),
        player < 2,
    ensures
        final(state).wf(),
        only_side_changed(old(state)@, final(state)@, player as int),
        forall|i: int|
            0 <= i < 4 ==> slot_with_energy(
                #[trigger] old(state)@.slot(player as int, i),
                final(state)@.slot(player as int, i),
                match old(state)@.slot(player as int, i) {
                    Some(c) => if named_one_of(Some(c), pokemon_names@) {
                        c.attached_energy@.push(energy_type)
                    } else {
                        c.attached_energy@
                    },
                    None => Seq::empty(),
                },
            ),
{
    let ghost s0 = state@;
    let ghost side0 = s0.board[player as int];
    let mut i: usize = 0;
    while i < 4
        invariant
            i <= 4,
            player < 2,
            state.wf(),
            side0 == s0.board[player as int],
            side0.len() == 4,
            s0.board.len() == 2,
            only_side_changed(s0, state@, player as int),
            forall|k: int| i <= k < 4 ==> #[trigger] state@.slot(player as int, k) == side0[k],
            forall|k: int|
                0 <= k < i ==> slot_with_energy(
                    side0[k],
                    #[trigger] state@.slot(player as int, k),
                    match side0[k] {
                        Some(c) => if named_one_of(Some(c), pokemon_names@) {
                            c.attached_energy@.push(energy_type)
                        } else {
                            c.attached_energy@
                        },
                        None => Seq::empty(),
                    },
                ),
        decreases 4 - i,
    {
        proof {
            assert(state@.slot(player as int, i as int) == side0[i as int]);
        }
        let new_energy = match &state.in_play_pokemon[player][i] {
            Some(c) => {
                let mut all: Vec<EnergyType> = Vec::new();
                let mut k: usize = 0;
                while k < c.attached_energy.len()
                    invariant
                        k <= c.attached_energy@.len(),
                        all@ == c.attached_energy@.subrange(0, k as int),
                    decreases c.attached_energy@.len() - k,
                {
                    all.push(c.attached_energy[k]);
                    k = k + 1;
                    proof {
                        assert(all@ =~= c.attached_energy@.subrange(0, k as int));
                    }
                }
                proof {
                    assert(c.attached_energy@.subrange(0, c.attached_energy@.len() as int)
                        =~= c.attached_energy@);
                }
                if named_one_of_exec(c, pokemon_names) {
                    all.push(energy_type);
                }
                Some(all)
            },
            None => None,
        };
        match new_energy {
            Some(all) => set_slot_energy(state, player, i, all),
            None => {},
        }
        i = i + 1;
    }
}

/// A choice to attach one Energy of type `t` to the Pokémon in slot `idx`, not as the turn's
/// Energy.
pub open spec fn attach_one_choice(a: SimpleAction, t: EnergyType, idx: usize) -> bool {
    &&& a matches SimpleAction::Attach { attachments, is_turn_energy }
    &&& !is_turn_energy
    &&& attachments@ == seq![(1u32, t, idx)]
}

/// Among the first `n` of the given slots of `player`, those whose Pokémon is named in `names`.
pub open spec fn named_slots_upto(s: StateView, player: int, idxs: Seq<usize>, names: Seq<String>, n: int) -> Seq<
    usize,
>
    decreases n,
{
    if n <= 0 {
        Seq::empty()
    } else {
        let prev = named_slots_upto(s, player, idxs, names, n - 1);
        if named_one_of(s.slot(player, idxs[n - 1] as int), names) {
            prev.push(idxs[n - 1])
        } else {
            prev
        }
    }
}

/// Offers `player` to attach one Energy of type `energy_type` from the Energy Zone to one of
/// their Pokémon in play whose name is one of `pokemon_names` (nothing when there is none).
pub fn attach_energy_from_zone_to_specific_pokemon(
    state: &mut State,
    player: usize,
    energy_type: EnergyType,
    pokemon_names: &Vec<String>,
)
    requires
        old(state).wf(),
        player < 2,
    ensures
        final(state).wf(),
        ({
            let targets = named_slots_upto(
                old(state)@,
                player as int,
                old(state)@.in_play_indices(player as int),
                pokemon_names@,
                old(state)@.in_play_indices(player as int).len() as int,
            );
            if targets.len() == 0 {
                final(state)@ == old(state)@
            } else {
                &&& final(state)@.move_generation_stack.len() == old(state)@.move_generation_stack.len() + 1
                &&& final(state)@.move_generation_stack.drop_last() == old(state)@.move_generation_stack
                &&& final(state)@.move_generation_stack.last().0 == player
                &&& (StateView { move_generation_stack: old(state)@.move_generation_stack, ..final(state)@ })
                    == old(state)@
                &&& final(state)@.move_generation_stack.last().1@.len() == targets.len()
                &&& forall|i: int|
                    0 <= i < targets.len() ==> #[trigger] attach_one_choice(
                        final(state)@.move_generation_stack.last().1@[i],
                        energy_type,
                        targets[i],
                    )
            }
        }),
{
    let idxs = state.enumerate_in_play_pokemon(player);
    let ghost targets_spec = named_slots_upto(state@, player as int, idxs@, pokemon_names@, idxs@.len() as int);
    let mut choices: Vec<SimpleAction> = Vec::new();
    let ghost mut targets: Seq<usize> = Seq::empty();
    let mut i: usize = 0;
    proof {
        crate::apply_action_helpers::lemma_occupied_from(state@.board[player as int], 0);
    }
    while i < idxs.len()
        invariant
            i <= idxs@.len(),
            state.wf(),
            player < 2,
            idxs@ == state@.in_play_indices(player as int),
            forall|k: int| 0 <= k < idxs@.len() ==> #[trigger] idxs@[k] < 4,
            targets == named_slots_upto(state@, player as int, idxs@, pokemon_names@, i as int),
            choices@.len() == targets.len(),
            forall|k: int|
                0 <= k < targets.len() ==> #[trigger] attach_one_choice(choices@[k], energy_type, targets[k]),
        decreases idxs@.len() - i,
    {
        let idx = idxs[i];
        let named = match &state.in_play_pokemon[player][idx] {
            Some(c) => named_one_of_exec(c, pokemon_names),
            None => false,
        };
        proof {
            assert(state@.slot(player as int, idx as int) == state.in_play_pokemon@[player as int]@[idx as int]);
        }
        if named {
            let mut attachments: Vec<(u32, EnergyType, usize)> = Vec::new();
            attachments.push((1, energy_type, idx));
            proof {
                assert(attachments@ =~= seq![(1u32, energy_type, idx)]);
            }
            choices.push(SimpleAction::Attach { attachments, is_turn_energy: false });
            proof {
                targets = targets.push(idx);
            }
        }
        i = i + 1;
    }
    if choices.len() > 0 {
        let ghost s0 = state@;
        state.move_generation_stack.push((player, choices));
        proof {
            assert(state@.move_generation_stack.drop_last() =~= s0.move_generation_stack);
            assert(StateView { move_generation_stack: s0.move_generation_stack, ..state@ } == s0);
        }
    }
}

} // verus!
